//! The identity of a requester: its name in lower case.
//!
//! Every table of the library is keyed by identities. Two names that differ
//! only in the case of their ASCII letters are the same identity, so a name
//! is brought to lower case before it is used as a key.

use vstd::prelude::*;
use vstd::string::*;

verus! {

/// The character in lower case: the letters `A` to `Z` become `a` to `z`,
/// and every other character stays as it is.
pub open spec fn lower_case(c: char) -> char {
    if 'A' <= c <= 'Z' {
        ((c as u8 + 32) as u8) as char
    } else {
        c
    }
}

/// The name with each of its characters in lower case.
pub open spec fn normalized(name: Seq<char>) -> Seq<char> {
    name.map_values(|c: char| lower_case(c))
}

/// The text of the lower-case letter for a capital letter, and `None` for
/// any other character.
fn lower_text(c: char) -> (text: Option<&'static str>)
    ensures
        match text {
            Some(letter) => 'A' <= c <= 'Z' && letter@ == seq![lower_case(c)],
            None => !('A' <= c <= 'Z'),
        },
{
    proof {
        reveal_strlit("a");
        reveal_strlit("b");
        reveal_strlit("c");
        reveal_strlit("d");
        reveal_strlit("e");
        reveal_strlit("f");
        reveal_strlit("g");
        reveal_strlit("h");
        reveal_strlit("i");
        reveal_strlit("j");
        reveal_strlit("k");
        reveal_strlit("l");
        reveal_strlit("m");
        reveal_strlit("n");
        reveal_strlit("o");
        reveal_strlit("p");
        reveal_strlit("q");
        reveal_strlit("r");
        reveal_strlit("s");
        reveal_strlit("t");
        reveal_strlit("u");
        reveal_strlit("v");
        reveal_strlit("w");
        reveal_strlit("x");
        reveal_strlit("y");
        reveal_strlit("z");
    }
    let text = match c {
        'A' => Some("a"),
        'B' => Some("b"),
        'C' => Some("c"),
        'D' => Some("d"),
        'E' => Some("e"),
        'F' => Some("f"),
        'G' => Some("g"),
        'H' => Some("h"),
        'I' => Some("i"),
        'J' => Some("j"),
        'K' => Some("k"),
        'L' => Some("l"),
        'M' => Some("m"),
        'N' => Some("n"),
        'O' => Some("o"),
        'P' => Some("p"),
        'Q' => Some("q"),
        'R' => Some("r"),
        'S' => Some("s"),
        'T' => Some("t"),
        'U' => Some("u"),
        'V' => Some("v"),
        'W' => Some("w"),
        'X' => Some("x"),
        'Y' => Some("y"),
        'Z' => Some("z"),
        _ => None,
    };
    proof {
        if let Some(letter) = text {
            assert(letter@ =~= seq![lower_case(c)]);
        }
    }
    text
}

/// The identity that the name `user` stands for: the name in lower case.
pub fn normalize_identity(user: &str) -> (identity: String)
    ensures
        identity@ == normalized(user@),
{
    let length = user.unicode_len();
    let mut identity = String::new();
    let mut i: usize = 0;
    while i < length
        invariant
            length == user@.len(),
            i <= length,
            identity@ == normalized(user@.take(i as int)),
        decreases length - i,
    {
        let c = user.get_char(i);
        let ghost so_far = identity@;
        match lower_text(c) {
            Some(letter) => {
                identity.append(letter);
            },
            None => {
                identity.append(user.substring_char(i, i + 1));
            },
        }
        assert(identity@ =~= normalized(user@.take(i + 1))) by {
            assert(user@.take(i + 1) =~= user@.take(i as int).push(c));
            assert(identity@ =~= so_far.push(lower_case(c)));
        }
        i = i + 1;
    }
    assert(user@.take(length as int) =~= user@);
    identity
}

} // verus!
