//! The vocabulary of the command line of osu-tools' PerformanceCalculator.
//!
//! This module contains what is common to profile calculations and to
//! simulations. What is special to each is found in the modules `profile`
//! and `simulate`.

use vstd::prelude::*;

pub mod profile;
pub mod simulate;

verus! {

/// A enum, representing all possible mods in osu!standard.
#[derive(Debug, Clone, Copy, PartialEq, PartialOrd, Eq, Ord, Structural)]
pub enum Mod {
    HD,
    HR,
    DT,
    NC,
    FL,
    NF,
    EZ,
    HT,
    SO,
    SD,
    PF,
    TD,
}

/// The number of mods.
pub const MOD_COUNT: usize = 12;

impl Mod {
    /// The mod with the given rank. The mods are ranked in the order in
    /// which they are listed, from 0.
    pub open spec fn spec_ranked(rank: int) -> Mod {
        if rank == 0 {
            Mod::HD
        } else if rank == 1 {
            Mod::HR
        } else if rank == 2 {
            Mod::DT
        } else if rank == 3 {
            Mod::NC
        } else if rank == 4 {
            Mod::FL
        } else if rank == 5 {
            Mod::NF
        } else if rank == 6 {
            Mod::EZ
        } else if rank == 7 {
            Mod::HT
        } else if rank == 8 {
            Mod::SO
        } else if rank == 9 {
            Mod::SD
        } else if rank == 10 {
            Mod::PF
        } else {
            Mod::TD
        }
    }

    /// The mod's name on the command line of PerformanceCalculator.
    pub open spec fn spec_to_arg(self) -> Seq<char> {
        match self {
            Mod::HD => "hd"@,
            Mod::HR => "hr"@,
            Mod::DT => "dt"@,
            Mod::NC => "nc"@,
            Mod::FL => "fl"@,
            Mod::NF => "nf"@,
            Mod::EZ => "ez"@,
            Mod::HT => "ht"@,
            Mod::SO => "so"@,
            Mod::SD => "sd"@,
            Mod::PF => "pf"@,
            Mod::TD => "td"@,
        }
    }

    /// The mod's name for a human reader.
    pub open spec fn spec_to_string(self) -> Seq<char> {
        match self {
            Mod::HD => "HD"@,
            Mod::HR => "HR"@,
            Mod::DT => "DT"@,
            Mod::NC => "NC"@,
            Mod::FL => "FL"@,
            Mod::NF => "NF"@,
            Mod::EZ => "EZ"@,
            Mod::HT => "HT"@,
            Mod::SO => "SO"@,
            Mod::SD => "SD"@,
            Mod::PF => "PF"@,
            Mod::TD => "TD"@,
        }
    }

    /// The mod with the given rank.
    pub fn ranked(rank: usize) -> (m: Mod)
        requires
            rank < MOD_COUNT,
        ensures
            m == Mod::spec_ranked(rank as int),
    {
        if rank == 0 {
            Mod::HD
        } else if rank == 1 {
            Mod::HR
        } else if rank == 2 {
            Mod::DT
        } else if rank == 3 {
            Mod::NC
        } else if rank == 4 {
            Mod::FL
        } else if rank == 5 {
            Mod::NF
        } else if rank == 6 {
            Mod::EZ
        } else if rank == 7 {
            Mod::HT
        } else if rank == 8 {
            Mod::SO
        } else if rank == 9 {
            Mod::SD
        } else if rank == 10 {
            Mod::PF
        } else {
            Mod::TD
        }
    }

    /// Obtain a string representation of the mod, suitable to pass as a mod
    /// parameter to PerformanceCalculator.
    pub fn to_arg(&self) -> (arg: &'static str)
        ensures
            arg@ == self.spec_to_arg(),
    {
        match *self {
            Mod::HD => "hd",
            Mod::HR => "hr",
            Mod::DT => "dt",
            Mod::NC => "nc",
            Mod::FL => "fl",
            Mod::NF => "nf",
            Mod::EZ => "ez",
            Mod::HT => "ht",
            Mod::SO => "so",
            Mod::SD => "sd",
            Mod::PF => "pf",
            Mod::TD => "td",
        }
    }

    /// Obtain a human-readable representation for the mod.
    pub fn to_string(&self) -> (name: &'static str)
        ensures
            name@ == self.spec_to_string(),
    {
        match *self {
            Mod::HD => "HD",
            Mod::HR => "HR",
            Mod::DT => "DT",
            Mod::NC => "NC",
            Mod::FL => "FL",
            Mod::NF => "NF",
            Mod::EZ => "EZ",
            Mod::HT => "HT",
            Mod::SO => "SO",
            Mod::SD => "SD",
            Mod::PF => "PF",
            Mod::TD => "TD",
        }
    }
}

/// The texts of a list of strings.
pub open spec fn texts(strings: Seq<String>) -> Seq<Seq<char>> {
    strings.map_values(|s: String| s@)
}

/// The mods of `chosen` in the order of their ranks, each one once.
pub open spec fn mods_in_order(chosen: Seq<Mod>) -> Seq<Mod> {
    Seq::new(MOD_COUNT as nat, |rank: int| Mod::spec_ranked(rank)).filter(
        |m: Mod| chosen.contains(m),
    )
}

/// The accuracy of a play in osu!standard.
///
/// Can either be a *Percentage*, or *Hits*, which contains the number of
/// non-300s (perfect) hits of a play: good (100s) and meh (50s). A
/// percentage is held as the text that goes on the command line: the number
/// with two places after the point.
#[derive(Debug, Clone, PartialEq, Eq)]
pub enum Accuracy {
    Percentage(String),
    Hits { good: usize, meh: usize },
}

} // verus!
