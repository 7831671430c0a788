//! The command line of PerformanceCalculator's `simulate` command, and the
//! names under which beatmaps are fetched and kept.

use crate::config_functions::{join_path, path_joined};
use crate::performance_calculator::{mods_in_order, texts, Accuracy, Mod, MOD_COUNT};
use crate::text::{decimal, format_i64, format_usize, signed_decimal};
use vstd::prelude::*;
use vstd::string::*;

verus! {

/// Information that will be used to simulate the play. Contains the play
/// accuracy, mod combination, and optionally the maximum combo and number of
/// misses. The mods may be listed in any order, and more than once.
#[derive(Debug, Clone, PartialEq, Eq)]
pub struct SimulationParams {
    pub accuracy: Accuracy,
    pub mods: Vec<Mod>,
    pub combo: Option<usize>,
    pub misses: Option<usize>,
}

/// The arguments that tell the accuracy.
pub open spec fn accuracy_args(accuracy: Accuracy) -> Seq<Seq<char>> {
    match accuracy {
        Accuracy::Percentage(text) => seq!["-a"@, text@],
        Accuracy::Hits { good, meh } => seq![
            "-G"@,
            decimal(good as nat),
            "-M"@,
            decimal(meh as nat),
        ],
    }
}

/// The arguments that tell the mods: `-m` and the mod's name for each.
pub open spec fn mod_args(mods: Seq<Mod>) -> Seq<Seq<char>>
    decreases mods.len(),
{
    if mods.len() == 0 {
        Seq::empty()
    } else {
        mod_args(mods.drop_last()) + seq!["-m"@, mods.last().spec_to_arg()]
    }
}

/// The arguments that tell a number under the flag `flag`, if there is one.
pub open spec fn count_args(flag: Seq<char>, count: Option<usize>) -> Seq<Seq<char>> {
    match count {
        Some(n) => seq![flag, decimal(n as nat)],
        None => Seq::empty(),
    }
}

/// The arguments that make dotnet simulate a play on the beatmap in the
/// file `beatmap`: the calculator, the command and the ruleset, the beatmap,
/// the accuracy, the mods in the order of their ranks, the combo and the
/// misses where they are given, and the demand for JSON.
pub open spec fn spec_simulate_args(
    calculator_path: Seq<char>,
    beatmap: Seq<char>,
    params: SimulationParams,
) -> Seq<Seq<char>> {
    seq![calculator_path, "simulate"@, "osu"@, beatmap] + accuracy_args(params.accuracy)
        + mod_args(mods_in_order(params.mods@)) + count_args("-c"@, params.combo) + count_args(
        "-X"@,
        params.misses,
    ) + seq!["--json"@]
}

/// The name of the file in which the beatmap `beatmap_id` is kept.
pub open spec fn spec_beatmap_file_name(beatmap_id: i64) -> Seq<char> {
    signed_decimal(beatmap_id as int) + ".osu"@
}

/// The address from which the beatmap `beatmap_id` is fetched.
pub open spec fn spec_beatmap_url(beatmap_id: i64) -> Seq<char> {
    "https://osu.ppy.sh/osu/"@ + signed_decimal(beatmap_id as int)
}

/// Tells whether `m` is among `mods`.
fn has_mod(mods: &Vec<Mod>, m: Mod) -> (found: bool)
    ensures
        found == mods@.contains(m),
{
    let mut i: usize = 0;
    while i < mods.len()
        invariant
            i <= mods.len(),
            forall|j: int| 0 <= j < i ==> mods@[j] != m,
        decreases mods.len() - i,
    {
        if mods[i] == m {
            return true;
        }
        i = i + 1;
    }
    false
}

/// The path of the file in which the beatmap `beatmap_id` is kept, below
/// the directory `beatmaps_cache`.
pub fn beatmap_file(beatmaps_cache: &str, beatmap_id: i64) -> (path: String)
    ensures
        path@ == path_joined(beatmaps_cache@, spec_beatmap_file_name(beatmap_id)),
{
    let name = format_i64(beatmap_id).concat(".osu");
    join_path(beatmaps_cache, name.as_str())
}

/// The address from which the beatmap `beatmap_id` is fetched where it is
/// not kept yet.
pub fn beatmap_url(beatmap_id: i64) -> (url: String)
    ensures
        url@ == spec_beatmap_url(beatmap_id),
{
    String::from_str("https://osu.ppy.sh/osu/").concat(format_i64(beatmap_id).as_str())
}

/// The arguments to hand to dotnet for the simulation of a play on the
/// beatmap in the file `beatmap`, under the conditions specified by
/// `params`.
pub fn simulate_args(
    calculator_path: &str,
    beatmap: &str,
    params: &SimulationParams,
) -> (args: Vec<String>)
    ensures
        texts(args@) == spec_simulate_args(calculator_path@, beatmap@, *params),
{
    let mut args: Vec<String> = Vec::new();
    args.push(String::from_str(calculator_path));
    args.push(String::from_str("simulate"));
    args.push(String::from_str("osu"));
    args.push(String::from_str(beatmap));
    let ghost head = seq![calculator_path@, "simulate"@, "osu"@, beatmap@];
    assert(texts(args@) =~= head);
    match &params.accuracy {
        Accuracy::Percentage(text) => {
            args.push(String::from_str("-a"));
            args.push(text.clone());
        },
        Accuracy::Hits { good, meh } => {
            args.push(String::from_str("-G"));
            args.push(format_usize(*good));
            args.push(String::from_str("-M"));
            args.push(format_usize(*meh));
        },
    }
    let ghost head = head + accuracy_args(params.accuracy);
    assert(texts(args@) =~= head);
    let ghost ranked = Seq::new(MOD_COUNT as nat, |rank: int| Mod::spec_ranked(rank));
    let ghost chosen = |m: Mod| params.mods@.contains(m);
    let mut rank: usize = 0;
    while rank < MOD_COUNT
        invariant
            rank <= MOD_COUNT,
            ranked == Seq::new(MOD_COUNT as nat, |rank: int| Mod::spec_ranked(rank)),
            chosen == |m: Mod| params.mods@.contains(m),
            texts(args@) == head + mod_args(ranked.take(rank as int).filter(chosen)),
        decreases MOD_COUNT - rank,
    {
        let m = Mod::ranked(rank);
        proof {
            let before = ranked.take(rank as int);
            let after = ranked.take(rank + 1);
            assert(after.drop_last() =~= before);
            assert(after.last() == m);
            reveal(Seq::filter);
            assert(after.filter(chosen) == if chosen(m) {
                before.filter(chosen).push(m)
            } else {
                before.filter(chosen)
            });
            if chosen(m) {
                assert(after.filter(chosen).drop_last() =~= before.filter(chosen));
            }
        }
        if has_mod(&params.mods, m) {
            let ghost so_far = texts(args@);
            args.push(String::from_str("-m"));
            args.push(String::from_str(m.to_arg()));
            assert(texts(args@) =~= so_far + seq!["-m"@, m.spec_to_arg()]);
        }
        rank = rank + 1;
    }
    assert(ranked.take(MOD_COUNT as int) =~= ranked);
    let ghost head = head + mod_args(mods_in_order(params.mods@));
    assert(texts(args@) =~= head);
    if let Some(combo) = params.combo {
        args.push(String::from_str("-c"));
        args.push(format_usize(combo));
    }
    let ghost head = head + count_args("-c"@, params.combo);
    assert(texts(args@) =~= head);
    if let Some(misses) = params.misses {
        args.push(String::from_str("-X"));
        args.push(format_usize(misses));
    }
    let ghost head = head + count_args("-X"@, params.misses);
    assert(texts(args@) =~= head);
    args.push(String::from_str("--json"));
    assert(texts(args@) =~= head + seq!["--json"@]);
    args
}

} // verus!
