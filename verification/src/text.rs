//! Rendering of integers as decimal text, for the messages the runner builds.

use vstd::prelude::*;
use vstd::string::StringExecFns;

verus! {

/// The character that stands for a single decimal digit.
pub open spec fn digit_char(d: int) -> char {
    if d == 0 {
        '0'
    } else if d == 1 {
        '1'
    } else if d == 2 {
        '2'
    } else if d == 3 {
        '3'
    } else if d == 4 {
        '4'
    } else if d == 5 {
        '5'
    } else if d == 6 {
        '6'
    } else if d == 7 {
        '7'
    } else if d == 8 {
        '8'
    } else {
        '9'
    }
}

/// Decimal digits of a natural number, most significant first, without
/// leading zeros (`0` is the single digit `0`).
pub open spec fn decimal(n: nat) -> Seq<char>
    decreases n,
{
    if n < 10 {
        seq![digit_char(n as int)]
    } else {
        decimal(n / 10).push(digit_char((n % 10) as int))
    }
}

/// Decimal text of an integer: a minus sign before the digits of a negative
/// number, nothing before those of any other.
pub open spec fn signed_decimal(i: int) -> Seq<char> {
    if i < 0 {
        seq!['-'] + decimal((-i) as nat)
    } else {
        decimal(i as nat)
    }
}

fn digit_str(d: u64) -> (s: &'static str)
    requires
        d < 10,
    ensures
        s@ == seq![digit_char(d as int)],
{
    proof {
        reveal_strlit("0");
        reveal_strlit("1");
        reveal_strlit("2");
        reveal_strlit("3");
        reveal_strlit("4");
        reveal_strlit("5");
        reveal_strlit("6");
        reveal_strlit("7");
        reveal_strlit("8");
        reveal_strlit("9");
    }
    let s = if d == 0 {
        "0"
    } else if d == 1 {
        "1"
    } else if d == 2 {
        "2"
    } else if d == 3 {
        "3"
    } else if d == 4 {
        "4"
    } else if d == 5 {
        "5"
    } else if d == 6 {
        "6"
    } else if d == 7 {
        "7"
    } else if d == 8 {
        "8"
    } else {
        "9"
    };
    assert(s@ =~= seq![digit_char(d as int)]);
    s
}

/// Renders `n` in decimal.
pub fn u64_to_string(n: u64) -> (s: String)
    ensures
        s@ == decimal(n as nat),
    decreases n,
{
    if n < 10 {
        String::from_str(digit_str(n))
    } else {
        let mut s = u64_to_string(n / 10);
        s.append(digit_str(n % 10));
        assert(s@ =~= decimal(n as nat));
        s
    }
}

/// Renders `n` in decimal.
pub fn usize_to_string(n: usize) -> (s: String)
    ensures
        s@ == decimal(n as nat),
{
    u64_to_string(n as u64)
}

/// Renders `i` in decimal, with a leading `-` when it is negative.
pub fn i64_to_string(i: i64) -> (s: String)
    ensures
        s@ == signed_decimal(i as int),
{
    if i >= 0 {
        u64_to_string(i as u64)
    } else {
        proof {
            reveal_strlit("-");
        }
        let magnitude: u64 = (-(i + 1)) as u64 + 1;
        let digits = u64_to_string(magnitude);
        let s = String::from_str("-").concat(digits.as_str());
        assert(s@ =~= signed_decimal(i as int));
        s
    }
}

} // verus!
