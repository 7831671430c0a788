//! Whole numbers as decimal text, written and read.

use vstd::prelude::*;
use vstd::string::*;

verus! {

/// The decimal digit for `d`, which is below ten.
pub open spec fn digit_char(d: nat) -> char {
    if d == 0 {
        '0'
    } else if d == 1 {
        '1'
    } else if d == 2 {
        '2'
    } else if d == 3 {
        '3'
    } else if d == 4 {
        '4'
    } else if d == 5 {
        '5'
    } else if d == 6 {
        '6'
    } else if d == 7 {
        '7'
    } else if d == 8 {
        '8'
    } else {
        '9'
    }
}

/// `n` in decimal digits, without leading zeros.
pub open spec fn decimal(n: nat) -> Seq<char>
    decreases n,
{
    if n < 10 {
        seq![digit_char(n)]
    } else {
        decimal(n / 10).push(digit_char(n % 10))
    }
}

/// `i` in decimal digits, with a minus sign before the digits of a negative
/// number.
pub open spec fn signed_decimal(i: int) -> Seq<char> {
    if i < 0 {
        seq!['-'] + decimal((-i) as nat)
    } else {
        decimal(i as nat)
    }
}

/// `c` is one of the digits `0` to `9`.
pub open spec fn is_digit(c: char) -> bool {
    '0' <= c <= '9'
}

/// The number that the digit `c` stands for.
pub open spec fn digit_value(c: char) -> nat {
    (c as u32 - '0' as u32) as nat
}

/// Every character of `s` is a digit.
pub open spec fn all_digits(s: Seq<char>) -> bool {
    forall|i: int| 0 <= i < s.len() ==> is_digit(#[trigger] s[i])
}

/// The number that the digits `s` stand for; leading zeros do not count.
pub open spec fn digits_value(s: Seq<char>) -> nat
    decreases s.len(),
{
    if s.len() == 0 {
        0
    } else {
        digits_value(s.drop_last()) * 10 + digit_value(s.last())
    }
}

/// The text without a plus sign at its head.
pub open spec fn unsigned_part(s: Seq<char>) -> Seq<char> {
    if s.len() > 0 && s[0] == '+' {
        s.drop_first()
    } else {
        s
    }
}

/// The number up to `max` that `s` stands for: `s` is one or more digits,
/// with or without a plus sign before them and with nothing else before,
/// between or after them, and their number is not above `max`. Any other
/// text stands for no number.
pub open spec fn parse_unsigned(s: Seq<char>, max: nat) -> Option<nat> {
    let digits = unsigned_part(s);
    if digits.len() > 0 && all_digits(digits) && digits_value(digits) <= max {
        Some(digits_value(digits))
    } else {
        None
    }
}

/// The truth value that `s` stands for: `true` and `false` stand for
/// themselves, any other text for none.
pub open spec fn parse_truth(s: Seq<char>) -> Option<bool> {
    if s == "true"@ {
        Some(true)
    } else if s == "false"@ {
        Some(false)
    } else {
        None
    }
}

/// The digits of a longer text stand for no smaller number than those of
/// its head.
pub proof fn lemma_digits_value_grows(s: Seq<char>, k: int)
    requires
        0 <= k <= s.len(),
    ensures
        digits_value(s.take(k)) <= digits_value(s),
    decreases s.len(),
{
    if k < s.len() {
        lemma_digits_value_grows(s.drop_last(), k);
        assert(s.drop_last().take(k) =~= s.take(k));
        assert(digits_value(s.drop_last()) * 10 >= digits_value(s.drop_last()))
            by (nonlinear_arith);
    } else {
        assert(s.take(k) =~= s);
    }
}

/// The text of one digit.
fn digit_text(d: u64) -> (text: &'static str)
    requires
        d < 10,
    ensures
        text@ == seq![digit_char(d as nat)],
{
    proof {
        reveal_strlit("0");
        reveal_strlit("1");
        reveal_strlit("2");
        reveal_strlit("3");
        reveal_strlit("4");
        reveal_strlit("5");
        reveal_strlit("6");
        reveal_strlit("7");
        reveal_strlit("8");
        reveal_strlit("9");
    }
    let text = if d == 0 {
        "0"
    } else if d == 1 {
        "1"
    } else if d == 2 {
        "2"
    } else if d == 3 {
        "3"
    } else if d == 4 {
        "4"
    } else if d == 5 {
        "5"
    } else if d == 6 {
        "6"
    } else if d == 7 {
        "7"
    } else if d == 8 {
        "8"
    } else {
        "9"
    };
    assert(text@ =~= seq![digit_char(d as nat)]);
    text
}

/// Writes `n` in decimal digits.
pub fn format_u64(n: u64) -> (text: String)
    ensures
        text@ == decimal(n as nat),
{
    let mut rest: u64 = n / 10;
    let mut text = String::from_str(digit_text(n % 10));
    while rest > 0
        invariant
            decimal(n as nat) == if rest == 0 {
                text@
            } else {
                decimal(rest as nat) + text@
            },
        decreases rest,
    {
        let digit = String::from_str(digit_text(rest % 10));
        proof {
            let r = rest as nat;
            if r < 10 {
                assert(decimal(r) + text@ =~= digit@ + text@);
            } else {
                assert(decimal(r) + text@ =~= decimal(r / 10) + (digit@ + text@));
            }
        }
        text = digit.concat(text.as_str());
        rest = rest / 10;
    }
    text
}

/// Writes `n` in decimal digits.
pub fn format_usize(n: usize) -> (text: String)
    ensures
        text@ == decimal(n as nat),
{
    format_u64(n as u64)
}

/// Writes `i` in decimal digits, with a minus sign before them where `i` is
/// negative.
pub fn format_i64(i: i64) -> (text: String)
    ensures
        text@ == signed_decimal(i as int),
{
    if i < 0 {
        let size: u64 = ((-(i + 1)) as u64) + 1;
        proof {
            reveal_strlit("-");
        }
        let text = String::from_str("-").concat(format_u64(size).as_str());
        assert(text@ =~= seq!['-'] + decimal(size as nat));
        text
    } else {
        format_u64(i as u64)
    }
}

/// Reads a number up to `max` from decimal text.
pub fn parse_up_to(s: &str, max: u64) -> (number: Option<u64>)
    ensures
        number == match parse_unsigned(s@, max as nat) {
            Some(value) => Some(value as u64),
            None => None,
        },
{
    broadcast use is_ascii_spec_bytes;

    let ghost digits = unsigned_part(s@);
    if !s.is_ascii() {
        proof {
            let i = choose|i: int| 0 <= i < s@.len() && !('\0' <= #[trigger] s@[i] <= '\u{7f}');
            if digits.len() == s@.len() {
                assert(!is_digit(digits[i]));
            } else {
                assert(digits[i - 1] == s@[i]);
                assert(!is_digit(digits[i - 1]));
            }
        }
        return None;
    }
    let bytes = s.as_bytes();
    let n: usize = bytes.len();
    let start: usize = if n > 0 && bytes[0] == 43 {
        1
    } else {
        0
    };
    assert(digits =~= s@.skip(start as int));
    if start == n {
        return None;
    }
    let mut value: u64 = 0;
    let mut i: usize = start;
    while i < n
        invariant
            s.is_ascii(),
            bytes@ == s.spec_bytes(),
            n == s@.len(),
            start <= i <= n,
            digits == s@.skip(start as int),
            digits == unsigned_part(s@),
            all_digits(digits.take(i - start)),
            value == digits_value(digits.take(i - start)),
            value <= max,
        decreases n - i,
    {
        let byte: u8 = bytes[i];
        let ghost k = i - start;
        assert(digits[k] == s@[i as int]);
        assert(digits.take(k + 1).drop_last() =~= digits.take(k));
        assert(digits.take(k + 1).last() == digits[k]);
        if byte < 48 || byte > 57 {
            assert(!is_digit(digits[k]));
            return None;
        }
        let digit: u64 = (byte - 48) as u64;
        assert(is_digit(digits[k]) && digit_value(digits[k]) == digit);
        if digit > max || value > (max - digit) / 10 {
            proof {
                lemma_digits_value_grows(digits, k + 1);
                assert(digits_value(digits.take(k + 1)) == value * 10 + digit);
                assert(!all_digits(digits) || digits_value(digits) > max);
            }
            return None;
        }
        value = value * 10 + digit;
        i = i + 1;
    }
    assert(digits.take(n - start) =~= digits);
    Some(value)
}

/// Reads a truth value from the text `true` or `false`.
pub fn parse_bool(s: &str) -> (truth: Option<bool>)
    ensures
        truth == parse_truth(s@),
{
    let text = String::from_str(s);
    if text == String::from_str("true") {
        Some(true)
    } else if text == String::from_str("false") {
        Some(false)
    } else {
        None
    }
}

} // verus!
