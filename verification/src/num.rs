//! Decimal rendering of counters: plain digit strings, and digits grouped
//! in threes for the throughput report.

use vstd::prelude::*;

use num_format::ToFormattedString;

verus! {

/// The decimal digit character for a value below ten.
pub open spec fn digit_char(d: nat) -> char {
    if d == 0 {
        '0'
    } else if d == 1 {
        '1'
    } else if d == 2 {
        '2'
    } else if d == 3 {
        '3'
    } else if d == 4 {
        '4'
    } else if d == 5 {
        '5'
    } else if d == 6 {
        '6'
    } else if d == 7 {
        '7'
    } else if d == 8 {
        '8'
    } else {
        '9'
    }
}

/// The decimal digits of `n`, most significant first, no sign and no
/// leading zero (`0` itself is the single digit `0`).
pub open spec fn dec_spec(n: nat) -> Seq<char>
    decreases n,
{
    if n < 10 {
        seq![digit_char(n)]
    } else {
        dec_spec(n / 10).push(digit_char(n % 10))
    }
}

/// The decimal digits of `n` grouped in threes from the right, groups
/// joined by `,`.
pub open spec fn grouped_spec(n: nat) -> Seq<char>
    decreases n,
{
    if n < 1000 {
        dec_spec(n)
    } else {
        grouped_spec(n / 1000) + seq![','] + pad3(n % 1000)
    }
}

/// A value below one thousand as exactly three digits, zero-padded.
pub open spec fn pad3(m: nat) -> Seq<char> {
    if m < 10 {
        seq!['0', '0'] + dec_spec(m)
    } else if m < 100 {
        seq!['0'] + dec_spec(m)
    } else {
        dec_spec(m)
    }
}

fn digit_str(d: u128) -> (s: &'static str)
    requires
        d < 10,
    ensures
        s@ == seq![digit_char(d as nat)],
{
    let s: &'static str = if d == 0 {
        "0"
    } else if d == 1 {
        "1"
    } else if d == 2 {
        "2"
    } else if d == 3 {
        "3"
    } else if d == 4 {
        "4"
    } else if d == 5 {
        "5"
    } else if d == 6 {
        "6"
    } else if d == 7 {
        "7"
    } else if d == 8 {
        "8"
    } else {
        "9"
    };
    proof {
        reveal_strlit("0");
        reveal_strlit("1");
        reveal_strlit("2");
        reveal_strlit("3");
        reveal_strlit("4");
        reveal_strlit("5");
        reveal_strlit("6");
        reveal_strlit("7");
        reveal_strlit("8");
        reveal_strlit("9");
        assert(s@ =~= seq![digit_char(d as nat)]);
    }
    s
}

/// Renders `n` as its plain decimal digits.
pub fn dec_u128(n: u128) -> (s: String)
    ensures
        s@ == dec_spec(n as nat),
    decreases n,
{
    if n < 10 {
        String::from_str(digit_str(n))
    } else {
        let mut s = dec_u128(n / 10);
        s.append(digit_str(n % 10));
        proof {
            assert(s@ =~= dec_spec(n as nat));
        }
        s
    }
}

/// Relies on `num_format::ToFormattedString` with `Locale::en`, whose
/// separator is `,` and whose grouping is the standard three digits: the
/// result is the decimal digits of `n` grouped in threes from the right.
#[verifier::external_body]
pub(crate) fn group_digits(n: u128) -> (r: String)
    ensures
        r@ == grouped_spec(n as nat),
{
    n.to_formatted_string(&num_format::Locale::en)
}

} // verus!
