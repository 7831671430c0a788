use osu_pp_calc::performance_calculator::profile::profile_args;
use osu_pp_calc::performance_calculator::simulate::{
    beatmap_file, beatmap_url, simulate_args, SimulationParams,
};
use osu_pp_calc::performance_calculator::{Accuracy, Mod, MOD_COUNT};
use std::collections::BTreeSet;
use std::path::Path;

#[test]
fn performance_calculator_mod_order() {
    let mut mod_list = BTreeSet::new();
    mod_list.insert(Mod::DT);
    mod_list.insert(Mod::HR);
    mod_list.insert(Mod::HD);

    let mod_vec: Vec<_> = mod_list.into_iter().collect();
    assert_eq!(mod_vec, [Mod::HD, Mod::HR, Mod::DT]);
}

#[test]
fn mod_mod_order() {
    let mut mod_list = BTreeSet::new();
    mod_list.insert(Mod::DT);
    mod_list.insert(Mod::HR);
    mod_list.insert(Mod::HD);

    let mod_vec: Vec<_> = mod_list.into_iter().collect();
    assert_eq!(mod_vec, [Mod::HD, Mod::HR, Mod::DT]);
}

#[test]
fn mods_are_ranked_as_they_are_ordered() {
    assert_eq!(MOD_COUNT, 12);
    let ranked: Vec<Mod> = (0..MOD_COUNT).map(Mod::ranked).collect();
    let mut sorted = ranked.clone();
    sorted.sort();
    sorted.dedup();
    assert_eq!(ranked, sorted);
    assert_eq!(ranked[0], Mod::HD);
    assert_eq!(ranked[11], Mod::TD);
}

#[test]
fn mod_names() {
    let names = [
        (Mod::HD, "hd", "HD"),
        (Mod::HR, "hr", "HR"),
        (Mod::DT, "dt", "DT"),
        (Mod::NC, "nc", "NC"),
        (Mod::FL, "fl", "FL"),
        (Mod::NF, "nf", "NF"),
        (Mod::EZ, "ez", "EZ"),
        (Mod::HT, "ht", "HT"),
        (Mod::SO, "so", "SO"),
        (Mod::SD, "sd", "SD"),
        (Mod::PF, "pf", "PF"),
        (Mod::TD, "td", "TD"),
    ];
    for (m, arg, name) in names {
        assert_eq!(m.to_arg(), arg);
        assert_eq!(m.to_string(), name);
    }
}

#[test]
fn profile_command_line() {
    assert_eq!(
        profile_args("bin/PerformanceCalculator.dll", "rafis", "key"),
        ["bin/PerformanceCalculator.dll", "profile", "rafis", "key", "--json"]
    );
}

#[test]
fn simulate_command_line_with_percentage() {
    let params = SimulationParams {
        accuracy: Accuracy::Percentage("99.83".to_string()),
        mods: vec![Mod::HR, Mod::HD],
        combo: None,
        misses: None,
    };
    assert_eq!(
        simulate_args("calc.dll", "cache/129891.osu", &params),
        ["calc.dll", "simulate", "osu", "cache/129891.osu", "-a", "99.83", "-m", "hd", "-m", "hr", "--json"]
    );
}

#[test]
fn simulate_command_line_with_hits() {
    let params = SimulationParams {
        accuracy: Accuracy::Hits { good: 21, meh: 0 },
        mods: vec![Mod::DT, Mod::HD, Mod::DT],
        combo: Some(1627),
        misses: Some(3),
    };
    assert_eq!(
        simulate_args("calc.dll", "cache/1097543.osu", &params),
        [
            "calc.dll", "simulate", "osu", "cache/1097543.osu", "-G", "21", "-M", "0", "-m", "hd",
            "-m", "dt", "-c", "1627", "-X", "3", "--json"
        ]
    );
}

#[test]
fn simulate_command_line_without_mods() {
    let params = SimulationParams {
        accuracy: Accuracy::Hits { good: 0, meh: 5 },
        mods: vec![],
        combo: None,
        misses: Some(0),
    };
    assert_eq!(
        simulate_args("calc.dll", "map.osu", &params),
        ["calc.dll", "simulate", "osu", "map.osu", "-G", "0", "-M", "5", "-X", "0", "--json"]
    );
}

#[test]
fn simulate_command_line_with_every_mod() {
    let params = SimulationParams {
        accuracy: Accuracy::Percentage("100.00".to_string()),
        mods: vec![
            Mod::TD, Mod::PF, Mod::SD, Mod::SO, Mod::HT, Mod::EZ, Mod::NF, Mod::FL, Mod::NC,
            Mod::DT, Mod::HR, Mod::HD,
        ],
        combo: None,
        misses: None,
    };
    let args = simulate_args("c", "m", &params);
    let mods: Vec<&str> = args.iter().map(|a| a.as_str()).filter(|a| a.len() == 2 && *a != "-m" && *a != "-a").collect();
    assert_eq!(mods, ["hd", "hr", "dt", "nc", "fl", "nf", "ez", "ht", "so", "sd", "pf", "td"]);
    assert_eq!(args.len(), 4 + 2 + 24 + 1);
}

#[test]
fn beatmap_names() {
    assert_eq!(beatmap_url(129891), "https://osu.ppy.sh/osu/129891");
    assert_eq!(beatmap_url(-5), "https://osu.ppy.sh/osu/-5");
    let kept = Path::new("cache").join("1097543.osu");
    assert_eq!(beatmap_file("cache", 1097543), kept.to_str().unwrap());
}
