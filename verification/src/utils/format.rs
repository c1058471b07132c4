//! Numbers as text: whole numbers in decimal, and data volumes in gigabytes
//! with two decimal places.

use vstd::prelude::*;
use vstd::string::StringExecFns;
use crate::model::usage::GIGABYTE;

verus! {

/// The character of a decimal digit.
pub open spec fn digit_char(d: int) -> char {
    if d == 0 {
        '0'
    } else if d == 1 {
        '1'
    } else if d == 2 {
        '2'
    } else if d == 3 {
        '3'
    } else if d == 4 {
        '4'
    } else if d == 5 {
        '5'
    } else if d == 6 {
        '6'
    } else if d == 7 {
        '7'
    } else if d == 8 {
        '8'
    } else {
        '9'
    }
}

/// The decimal digits of `n`, most significant first, without leading zeros.
pub open spec fn decimal_digits(n: nat) -> Seq<char>
    decreases n,
{
    if n < 10 {
        seq![digit_char(n as int)]
    } else {
        decimal_digits(n / 10).push(digit_char((n % 10) as int))
    }
}

/// The size of `i`, without its sign.
pub open spec fn magnitude(i: int) -> nat {
    if i < 0 {
        (-i) as nat
    } else {
        i as nat
    }
}

/// `i` in decimal, with a minus sign where it is negative.
pub open spec fn decimal(i: int) -> Seq<char> {
    if i < 0 {
        seq!['-'] + decimal_digits(magnitude(i))
    } else {
        decimal_digits(magnitude(i))
    }
}

/// `bytes` as a count of hundredths of a gigabyte, rounded to the nearest,
/// halves away from zero.
pub open spec fn hundredths(bytes: int) -> int {
    let rounded = (magnitude(bytes) * 100 + GIGABYTE / 2) / (GIGABYTE as int);
    if bytes < 0 {
        -rounded
    } else {
        rounded
    }
}

/// A count of hundredths with two decimal places: 105 is "1.05", -7 is
/// "-0.07".
pub open spec fn fixed2(h: int) -> Seq<char> {
    let m = magnitude(h);
    let digits = decimal_digits(m / 100) + seq![
        '.',
        digit_char((m / 10 % 10) as int),
        digit_char((m % 10) as int),
    ];
    if h < 0 {
        seq!['-'] + digits
    } else {
        digits
    }
}

/// `bytes` in gigabytes with two decimal places.
pub open spec fn gigabytes(bytes: int) -> Seq<char> {
    fixed2(hundredths(bytes))
}

/// The text of one decimal digit.
fn digit_str(d: u64) -> (text: &'static str)
    requires
        d < 10,
    ensures
        text@ == seq![digit_char(d as int)],
{
    proof {
        reveal_strlit("0");
        reveal_strlit("1");
        reveal_strlit("2");
        reveal_strlit("3");
        reveal_strlit("4");
        reveal_strlit("5");
        reveal_strlit("6");
        reveal_strlit("7");
        reveal_strlit("8");
        reveal_strlit("9");
    }
    let text = if d == 0 {
        "0"
    } else if d == 1 {
        "1"
    } else if d == 2 {
        "2"
    } else if d == 3 {
        "3"
    } else if d == 4 {
        "4"
    } else if d == 5 {
        "5"
    } else if d == 6 {
        "6"
    } else if d == 7 {
        "7"
    } else if d == 8 {
        "8"
    } else {
        "9"
    };
    assert(text@ =~= seq![digit_char(d as int)]);
    text
}

/// Appends the decimal digits of `n` to `out`.
pub fn push_digits(out: &mut String, n: u128)
    ensures
        final(out)@ == old(out)@ + decimal_digits(n as nat),
    decreases n,
{
    if n >= 10 {
        push_digits(out, n / 10);
    }
    out.append(digit_str((n % 10) as u64));
    assert(out@ =~= old(out)@ + decimal_digits(n as nat));
}

/// The size of `value`, without its sign.
fn size_of(value: i128) -> (size: u128)
    ensures
        size == magnitude(value as int),
{
    if value >= 0 {
        value as u128
    } else if value == i128::MIN {
        0x8000_0000_0000_0000_0000_0000_0000_0000u128
    } else {
        (-value) as u128
    }
}

/// Appends `value` in decimal to `out`.
pub fn push_decimal(out: &mut String, value: i64)
    ensures
        final(out)@ == old(out)@ + decimal(value as int),
{
    if value < 0 {
        out.append("-");
        proof {
            reveal_strlit("-");
        }
    }
    push_digits(out, size_of(value as i128));
    assert(out@ =~= old(out)@ + decimal(value as int));
}

/// `bytes` as a count of hundredths of a gigabyte.
pub fn to_hundredths(bytes: i128) -> (h: i128)
    ensures
        h == hundredths(bytes as int),
{
    let size: u128 = size_of(bytes);
    let unit: u128 = GIGABYTE as u128;
    let rounded: u128 = (size / unit) * 100 + ((size % unit) * 100 + unit / 2) / unit;
    if bytes < 0 {
        -(rounded as i128)
    } else {
        rounded as i128
    }
}

/// Appends a count of hundredths, with two decimal places, to `out`.
pub fn push_fixed2(out: &mut String, h: i128)
    ensures
        final(out)@ == old(out)@ + fixed2(h as int),
{
    let size: u128 = size_of(h);
    proof {
        reveal_strlit("-");
        reveal_strlit(".");
    }
    if h < 0 {
        out.append("-");
    }
    push_digits(out, size / 100);
    out.append(".");
    out.append(digit_str((size / 10 % 10) as u64));
    out.append(digit_str((size % 10) as u64));
    assert(out@ =~= old(out)@ + fixed2(h as int));
}

/// Appends `bytes`, in gigabytes with two decimal places, to `out`.
pub fn push_gigabytes(out: &mut String, bytes: i128)
    ensures
        final(out)@ == old(out)@ + gigabytes(bytes as int),
{
    push_fixed2(out, to_hundredths(bytes));
}

} // verus!
