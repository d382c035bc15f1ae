//! The timer's label formatter: a remaining-seconds count rendered as
//! `MM:SS`, minutes and seconds each zero-padded to two digits when below
//! ten. Minutes are a plain quotient by sixty and are not wrapped at
//! fifty-nine.

use vstd::prelude::*;

verus! {

/// The character for a single decimal digit.
pub open spec fn spec_digit(d: nat) -> char {
    if d == 0 {
        '0'
    } else if d == 1 {
        '1'
    } else if d == 2 {
        '2'
    } else if d == 3 {
        '3'
    } else if d == 4 {
        '4'
    } else if d == 5 {
        '5'
    } else if d == 6 {
        '6'
    } else if d == 7 {
        '7'
    } else if d == 8 {
        '8'
    } else {
        '9'
    }
}

/// The decimal numeral of `n`, most significant digit first, with no
/// leading zeros (a lone zero for `n == 0`).
pub open spec fn spec_decimal(n: nat) -> Seq<char>
    decreases n,
{
    if n < 10 {
        seq![spec_digit(n)]
    } else {
        spec_decimal(n / 10) + seq![spec_digit(n % 10)]
    }
}

/// The decimal numeral of `n`, zero-padded on the left to width two when
/// `n` is a single digit.
pub open spec fn spec_padded(n: nat) -> Seq<char> {
    if n < 10 {
        seq!['0'] + spec_decimal(n)
    } else {
        spec_decimal(n)
    }
}

/// The `MM:SS` label for a non-negative count of seconds: minutes are the
/// whole quotient by sixty, seconds the remainder, each zero-padded to two
/// digits when below ten.
pub open spec fn spec_clock(s: nat) -> Seq<char> {
    spec_padded(s / 60) + seq![':'] + spec_padded(s % 60)
}

/// The one-character string for a decimal digit.
fn digit_str(d: u64) -> (r: &'static str)
    requires
        d < 10,
    ensures
        r@ == seq![spec_digit(d as nat)],
{
    let r: &'static str = if d == 0 {
        "0"
    } else if d == 1 {
        "1"
    } else if d == 2 {
        "2"
    } else if d == 3 {
        "3"
    } else if d == 4 {
        "4"
    } else if d == 5 {
        "5"
    } else if d == 6 {
        "6"
    } else if d == 7 {
        "7"
    } else if d == 8 {
        "8"
    } else {
        "9"
    };
    proof {
        reveal_strlit("0");
        reveal_strlit("1");
        reveal_strlit("2");
        reveal_strlit("3");
        reveal_strlit("4");
        reveal_strlit("5");
        reveal_strlit("6");
        reveal_strlit("7");
        reveal_strlit("8");
        reveal_strlit("9");
        assert(r@ =~= seq![spec_digit(d as nat)]);
    }
    r
}

/// The decimal numeral of `n` as a string, most significant digit first.
pub fn decimal_string(n: u64) -> (r: String)
    ensures
        r@ == spec_decimal(n as nat),
    decreases n,
{
    if n < 10 {
        String::from_str(digit_str(n))
    } else {
        let mut r = decimal_string(n / 10);
        r.append(digit_str(n % 10));
        r
    }
}

/// A number zero-padded to width two when it is a single digit, as the
/// original renders each half of the label.
pub fn format_number(number: u64) -> (r: String)
    ensures
        r@ == spec_padded(number as nat),
{
    if number < 10 {
        proof {
            reveal_strlit("0");
        }
        let mut r = String::from_str("0");
        let d = decimal_string(number);
        r.append(d.as_str());
        proof {
            assert(r@ =~= spec_padded(number as nat));
        }
        r
    } else {
        decimal_string(number)
    }
}

/// The `MM:SS` label for `time_left_seconds` remaining seconds.
pub fn format_timer(time_left_seconds: u64) -> (r: String)
    ensures
        r@ == spec_clock(time_left_seconds as nat),
{
    let remaining_minutes = time_left_seconds / 60;
    let remaining_seconds = time_left_seconds % 60;
    let mut r = format_number(remaining_minutes);
    proof {
        reveal_strlit(":");
    }
    r.append(":");
    let s = format_number(remaining_seconds);
    r.append(s.as_str());
    proof {
        assert(r@ =~= spec_clock(time_left_seconds as nat));
    }
    r
}

} // verus!
