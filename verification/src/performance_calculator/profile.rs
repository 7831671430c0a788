//! The command line of PerformanceCalculator's `profile` command.

use crate::performance_calculator::texts;
use vstd::prelude::*;
use vstd::string::*;

verus! {

/// The arguments that make dotnet calculate the profile of `user`: the
/// calculator, the command, the user, the api key, and the demand for JSON.
pub open spec fn spec_profile_args(
    calculator_path: Seq<char>,
    user: Seq<char>,
    api_key: Seq<char>,
) -> Seq<Seq<char>> {
    seq![calculator_path, "profile"@, user, api_key, "--json"@]
}

/// The arguments to hand to dotnet for the calculation of the scores of a
/// osu! user profile. `user`, preferably, should be a user id, but it can
/// also be the user name.
pub fn profile_args(calculator_path: &str, user: &str, api_key: &str) -> (args: Vec<String>)
    ensures
        texts(args@) == spec_profile_args(calculator_path@, user@, api_key@),
{
    let mut args: Vec<String> = Vec::new();
    args.push(String::from_str(calculator_path));
    args.push(String::from_str("profile"));
    args.push(String::from_str(user));
    args.push(String::from_str(api_key));
    args.push(String::from_str("--json"));
    assert(texts(args@) =~= spec_profile_args(calculator_path@, user@, api_key@));
    args
}

} // verus!
