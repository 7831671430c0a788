//! The settings of the service and how each is settled.
//!
//! Every setting has a variable of the environment that may hold it. The
//! functions here take what was read from that variable, `None` standing for
//! a variable that is not set, and give the setting: the value that was read,
//! or the default where there is one and nothing was read.

use crate::clock::TimeSpan;
use crate::text::{parse_bool, parse_truth, parse_unsigned, parse_up_to};
use vstd::prelude::*;
use vstd::string::*;

verus! {

/// The variable that holds the api key.
pub const API_KEY_VARIABLE: &'static str = "OSU_PP_CALC_API_KEY";

/// The file that holds the api key when running under Docker.
pub const API_KEY_SECRET_FILE: &'static str = "/run/secrets/osu_pp_calc_api_key";

/// The variable that holds the path to the dotnet executable.
pub const DOTNET_COMMAND_VARIABLE: &'static str = "OSU_PP_CALC_DOTNET_COMMAND";

/// The variable that holds the number of workers.
pub const NUM_THREADS_VARIABLE: &'static str = "OSU_PP_CALC_NUM_THREADS";

/// The variable that says whether the results are loaded and saved.
pub const LOAD_SAVE_RESULTS_VARIABLE: &'static str = "OSU_PP_CALC_LOAD_SAVE_RESULTS";

/// The variable that holds the file of the saved results.
pub const RESULTS_FILE_VARIABLE: &'static str = "OSU_PP_CALC_RESULTS_FILE";

/// The variable that holds the directory of the beatmaps cache.
pub const BEATMAPS_CACHE_VARIABLE: &'static str = "OSU_PP_CALC_BEATMAPS_CACHE";

/// The variable that holds the cooldown of a forced calculation, in seconds.
pub const FORCE_INTERVAL_VARIABLE: &'static str = "OSU_PP_CALC_FORCE_INTERVAL_SECS";

/// The number of workers where none is set.
pub const DEFAULT_NUM_THREADS: usize = 2;

/// The cooldown of a forced calculation where none is set, in seconds.
pub const DEFAULT_FORCE_INTERVAL_SECS: u64 = 60 * 15;

/// What `str::trim` returns for the text `s`.
pub uninterp spec fn trimmed(s: Seq<char>) -> Seq<char>;

/// What `PathBuf::pop` leaves of the path `path`.
pub uninterp spec fn path_popped(path: Seq<char>) -> Seq<char>;

/// What `Path::ends_with` says of the path `path` and the path `child`.
pub uninterp spec fn path_ends_with(path: Seq<char>, child: Seq<char>) -> bool;

/// What `Path::join` makes of the path `path` and the path `child`.
pub uninterp spec fn path_joined(path: Seq<char>, child: Seq<char>) -> Seq<char>;

/// Calls `str::trim`, which returns the text without the whitespace at its
/// head and at its tail, whitespace being what Unicode calls so. The
/// contract gives the result its name and claims nothing else of it.
#[verifier::external_body]
fn trim(text: &str) -> (out: String)
    ensures
        out@ == trimmed(text@),
{
    text.trim().to_string()
}

/// Calls `PathBuf::pop`, which cuts the path down to its parent and leaves a
/// path without a parent as it is. Paths are read by the rules of the
/// platform that the library is built for. The contract gives the result its
/// name and claims nothing else of it.
#[verifier::external_body]
fn pop_path(path: &str) -> (out: String)
    ensures
        out@ == path_popped(path@),
{
    let mut buffer = std::path::PathBuf::from(path);
    buffer.pop();
    buffer.to_string_lossy().into_owned()
}

/// Calls `Path::ends_with`, which tells whether the last components of
/// `path` are those of `child`, whole components only. The contract gives
/// the answer its name and claims nothing else of it.
#[verifier::external_body]
fn ends_path(path: &str, child: &str) -> (out: bool)
    ensures
        out == path_ends_with(path@, child@),
{
    std::path::Path::new(path).ends_with(child)
}

/// Calls `Path::join`, which gives the path of `child` below `path`. The
/// contract gives the result its name and claims nothing else of it.
#[verifier::external_body]
pub(crate) fn join_path(path: &str, child: &str) -> (out: String)
    ensures
        out@ == path_joined(path@, child@),
{
    std::path::Path::new(path).join(child).to_string_lossy().into_owned()
}

/// A setting can be settled: what was read could be understood, or nothing
/// was read and there is a default.
pub open spec fn can_settle<T>(read: Option<Option<T>>, default: Option<T>) -> bool {
    match read {
        Some(understood) => understood is Some,
        None => default is Some,
    }
}

/// The setting: what was read and understood, or the default.
pub open spec fn settled<T>(read: Option<Option<T>>, default: Option<T>) -> T {
    match read {
        Some(understood) => understood->0,
        None => default->0,
    }
}

/// Settles a setting from what was read for it and its default.
///
/// `read` is `None` where the variable is not set, and else holds what its
/// text was understood as, `None` standing for a text that could not be
/// understood. A text that could not be understood cannot be settled, and
/// neither can a setting that is not set and has no default.
pub fn from_env<T>(read: Option<Option<T>>, default: Option<T>) -> (setting: T)
    requires
        can_settle(read, default),
    ensures
        setting == settled(read, default),
{
    match read {
        Some(understood) => understood.unwrap(),
        None => default.unwrap(),
    }
}

/// The number of workers that `value` asks for.
pub open spec fn spec_num_threads(value: Option<Seq<char>>) -> Option<usize> {
    match value {
        Some(text) => match parse_unsigned(text, usize::MAX as nat) {
            Some(number) => Some(number as usize),
            None => None,
        },
        None => Some(DEFAULT_NUM_THREADS),
    }
}

/// The switch that `value` stands for.
pub open spec fn spec_load_save_results(value: Option<Seq<char>>) -> Option<bool> {
    match value {
        Some(text) => parse_truth(text),
        None => Some(false),
    }
}

/// The cooldown that `value` asks for.
pub open spec fn spec_minimal_force_interval(value: Option<Seq<char>>) -> Option<TimeSpan> {
    match value {
        Some(text) => match parse_unsigned(text, u64::MAX as nat) {
            Some(secs) => Some(TimeSpan::spec_from_secs(secs as u64)),
            None => None,
        },
        None => Some(TimeSpan::spec_from_secs(DEFAULT_FORCE_INTERVAL_SECS)),
    }
}

/// The directory of the executable at `exe_path`: the directory it lies in,
/// or the one above where that is a directory `deps`.
pub open spec fn spec_binary_dir(exe_path: Seq<char>) -> Seq<char> {
    let dir = path_popped(exe_path);
    if path_ends_with(dir, "deps"@) {
        path_popped(dir)
    } else {
        dir
    }
}

/// The osu! api key to be used on requests. `secret` is what the file
/// `API_KEY_SECRET_FILE` holds, if there is such a file, and `value` what
/// the variable `API_KEY_VARIABLE` holds. The file goes first, without the
/// whitespace around its text. One of the two has to be there.
pub fn api_key(secret: Option<String>, value: Option<String>) -> (key: String)
    requires
        secret is Some || value is Some,
    ensures
        key@ == match secret {
            Some(text) => trimmed(text@),
            None => value->0@,
        },
{
    match secret {
        Some(text) => trim(text.as_str()),
        None => from_env(
            match value {
                Some(text) => Some(Some(text)),
                None => None,
            },
            None,
        ),
    }
}

/// The path to the dotnet executable: `value`, and "dotnet" without one.
pub fn dotnet_command(value: Option<String>) -> (command: String)
    ensures
        command@ == match value {
            Some(text) => text@,
            None => "dotnet"@,
        },
{
    from_env(
        match value {
            Some(text) => Some(Some(text)),
            None => None,
        },
        Some(String::from_str("dotnet")),
    )
}

/// The number of workers to be used on the calculation queue: the number
/// that `value` holds, and 2 without one. A `value` that is no number of
/// the machine's size cannot be settled.
pub fn num_threads(value: Option<String>) -> (workers: usize)
    requires
        spec_num_threads(
            match value {
                Some(text) => Some(text@),
                None => None,
            },
        ) is Some,
    ensures
        Some(workers) == spec_num_threads(
            match value {
                Some(text) => Some(text@),
                None => None,
            },
        ),
{
    let read: Option<Option<usize>> = match value {
        Some(text) => Some(
            match parse_up_to(text.as_str(), usize::MAX as u64) {
                Some(number) => Some(number as usize),
                None => None,
            },
        ),
        None => None,
    };
    from_env(read, Some(DEFAULT_NUM_THREADS))
}

/// Whether to save the results cache into a file and to load it from there:
/// what `value` says, and no without one. A `value` other than `true` and
/// `false` cannot be settled.
pub fn load_save_results(value: Option<String>) -> (switch: bool)
    requires
        spec_load_save_results(
            match value {
                Some(text) => Some(text@),
                None => None,
            },
        ) is Some,
    ensures
        Some(switch) == spec_load_save_results(
            match value {
                Some(text) => Some(text@),
                None => None,
            },
        ),
{
    let read: Option<Option<bool>> = match value {
        Some(text) => Some(parse_bool(text.as_str())),
        None => None,
    };
    from_env(read, Some(false))
}

/// The file where to save the results cache: `value`, and "results.data"
/// without one.
pub fn results_file(value: Option<String>) -> (file: String)
    ensures
        file@ == match value {
            Some(text) => text@,
            None => "results.data"@,
        },
{
    from_env(
        match value {
            Some(text) => Some(Some(text)),
            None => None,
        },
        Some(String::from_str("results.data")),
    )
}

/// The directory where to store the beatmaps cache: `value`, and "cache"
/// without one.
pub fn beatmaps_cache(value: Option<String>) -> (directory: String)
    ensures
        directory@ == match value {
            Some(text) => text@,
            None => "cache"@,
        },
{
    from_env(
        match value {
            Some(text) => Some(Some(text)),
            None => None,
        },
        Some(String::from_str("cache")),
    )
}

/// The minimal age for a calculation result to be, so that it may be
/// calculated anew by force: the seconds that `value` holds, and 15 minutes
/// without one. A `value` that is no number of seconds cannot be settled.
pub fn minimal_force_interval(value: Option<String>) -> (interval: TimeSpan)
    requires
        spec_minimal_force_interval(
            match value {
                Some(text) => Some(text@),
                None => None,
            },
        ) is Some,
    ensures
        Some(interval) == spec_minimal_force_interval(
            match value {
                Some(text) => Some(text@),
                None => None,
            },
        ),
{
    let read: Option<Option<u64>> = match value {
        Some(text) => Some(parse_up_to(text.as_str(), u64::MAX)),
        None => None,
    };
    TimeSpan::from_secs(from_env(read, Some(DEFAULT_FORCE_INTERVAL_SECS)))
}

/// The directory where the executable at `exe_path` resides. An executable
/// that lies in a directory `deps` counts as residing one directory higher.
pub fn binary_dir(exe_path: &str) -> (dir: String)
    ensures
        dir@ == spec_binary_dir(exe_path@),
{
    let dir = pop_path(exe_path);
    if ends_path(dir.as_str(), "deps") {
        pop_path(dir.as_str())
    } else {
        dir
    }
}

/// The path to PerformanceCalculator.dll, which lies in the directory where
/// the executable at `exe_path` resides.
pub fn performance_calculator_path(exe_path: &str) -> (path: String)
    ensures
        path@ == path_joined(spec_binary_dir(exe_path@), "PerformanceCalculator.dll"@),
{
    let dir = binary_dir(exe_path);
    join_path(dir.as_str(), "PerformanceCalculator.dll")
}

} // verus!
