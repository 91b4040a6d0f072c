//! Decimal text for fixed-point numbers.
//!
//! The messages of the library quote tempo scales, rates and durations. They
//! are rendered here from the fixed-point value, digit by digit, so that the
//! text of every message is part of the contracts.

use vstd::prelude::*;
use vstd::string::StringExecFns;
use crate::fixed::SCALE;

verus! {

/// The character of the decimal digit `d`.
pub open spec fn digit_char(d: int) -> char
    recommends
        0 <= d <= 9,
{
    if d == 0 {
        '0'
    } else if d == 1 {
        '1'
    } else if d == 2 {
        '2'
    } else if d == 3 {
        '3'
    } else if d == 4 {
        '4'
    } else if d == 5 {
        '5'
    } else if d == 6 {
        '6'
    } else if d == 7 {
        '7'
    } else if d == 8 {
        '8'
    } else {
        '9'
    }
}

/// The decimal digits of `n`, most significant first, without leading zeros
/// (`"0"` for zero).
pub open spec fn digits(n: nat) -> Seq<char>
    decreases n,
{
    if n < 10 {
        seq![digit_char(n as int)]
    } else {
        digits(n / 10).push(digit_char((n % 10) as int))
    }
}

/// The last `width` decimal digits of `n`, with leading zeros.
pub open spec fn padded(n: nat, width: nat) -> Seq<char>
    decreases width,
{
    if width == 0 {
        Seq::<char>::empty()
    } else {
        padded(n / 10, (width - 1) as nat).push(digit_char((n % 10) as int))
    }
}

/// `padded(n, width)` without its trailing zeros; empty where `n` is zero.
pub open spec fn trimmed(n: nat, width: nat) -> Seq<char>
    decreases width,
{
    if width == 0 {
        Seq::<char>::empty()
    } else if n % 10 == 0 {
        trimmed(n / 10, (width - 1) as nat)
    } else {
        padded(n, width)
    }
}

/// Ten to the power `e`.
pub open spec fn pow10(e: nat) -> nat
    decreases e,
{
    if e == 0 {
        1
    } else {
        10 * pow10((e - 1) as nat)
    }
}

/// The absolute value of `v`.
pub open spec fn magnitude(v: int) -> nat {
    if v < 0 {
        (-v) as nat
    } else {
        v as nat
    }
}

/// `"-"` for a negative value, nothing otherwise.
pub open spec fn sign_text(v: int) -> Seq<char> {
    if v < 0 {
        seq!['-']
    } else {
        Seq::<char>::empty()
    }
}

/// The magnitude of `v` in units of the last of `places` decimal places,
/// rounded to the nearest unit, a half upward: `1_234_567` in hundredths is
/// `123`, `1_235_000` is `124`.
pub open spec fn rounded_units(v: int, places: nat) -> nat
    recommends
        places <= 6,
{
    let cut = pow10((6 - places) as nat);
    (magnitude(v) + cut / 2) / cut
}

/// The text of the fixed-point value `v` with exactly `places` decimal
/// places, rounded to the nearest: `1_234_567` with two places is `"1.23"`,
/// `59_999_000` with one place is `"60.0"`. With no places there is no
/// decimal point. A negative value keeps its sign where it rounds to zero.
pub open spec fn fixed_text(v: int, places: nat) -> Seq<char>
    recommends
        places <= 6,
{
    let units = rounded_units(v, places);
    let head = sign_text(v) + digits(units / pow10(places));
    if places == 0 {
        head
    } else {
        head + seq!['.'] + padded(units % pow10(places), places)
    }
}

/// The shortest exact text of the fixed-point value `v`: the whole part,
/// and, where the value is not whole, a decimal point and the decimal places
/// up to the last one that is not zero. `1_200_000` is `"1.2"`, `1_000_000`
/// is `"1"`.
pub open spec fn decimal_text(v: int) -> Seq<char> {
    let m = magnitude(v);
    let whole = m / (SCALE as nat);
    let frac = m % (SCALE as nat);
    let head = sign_text(v) + digits(whole);
    if frac == 0 {
        head
    } else {
        head + seq!['.'] + trimmed(frac, 6)
    }
}

fn digit_str(d: u8) -> (s: &'static str)
    requires
        d <= 9,
    ensures
        s@ == seq![digit_char(d as int)],
{
    proof {
        reveal_strlit("0");
        reveal_strlit("1");
        reveal_strlit("2");
        reveal_strlit("3");
        reveal_strlit("4");
        reveal_strlit("5");
        reveal_strlit("6");
        reveal_strlit("7");
        reveal_strlit("8");
        reveal_strlit("9");
    }
    let s = match d {
        0 => "0",
        1 => "1",
        2 => "2",
        3 => "3",
        4 => "4",
        5 => "5",
        6 => "6",
        7 => "7",
        8 => "8",
        _ => "9",
    };
    assert(s@ =~= seq![digit_char(d as int)]);
    s
}

/// Appends the decimal digits of `n` to `out`.
pub fn push_digits(out: &mut String, n: u64)
    ensures
        final(out)@ == old(out)@ + digits(n as nat),
    decreases n,
{
    if n >= 10 {
        push_digits(out, n / 10);
    }
    let d: u8 = (n % 10) as u8;
    out.append(digit_str(d));
    assert(final(out)@ =~= old(out)@ + digits(n as nat));
}

/// Appends the last `width` decimal digits of `n` to `out`, with leading zeros.
pub fn push_padded(out: &mut String, n: u64, width: u8)
    ensures
        final(out)@ == old(out)@ + padded(n as nat, width as nat),
    decreases width,
{
    if width == 0 {
        assert(final(out)@ =~= old(out)@ + padded(n as nat, width as nat));
        return ;
    }
    push_padded(out, n / 10, width - 1);
    let d: u8 = (n % 10) as u8;
    out.append(digit_str(d));
    assert(final(out)@ =~= old(out)@ + padded(n as nat, width as nat));
}

/// Appends `padded(n, width)` without its trailing zeros to `out`.
pub fn push_trimmed(out: &mut String, n: u64, width: u8)
    ensures
        final(out)@ == old(out)@ + trimmed(n as nat, width as nat),
    decreases width,
{
    if width == 0 {
        assert(final(out)@ =~= old(out)@ + trimmed(n as nat, width as nat));
    } else if n % 10 == 0 {
        push_trimmed(out, n / 10, width - 1);
    } else {
        push_padded(out, n, width);
    }
}

/// The absolute value of `v`, which always fits in `u64`.
pub fn magnitude_of(v: i64) -> (m: u64)
    ensures
        m == magnitude(v as int),
{
    if v >= 0 {
        v as u64
    } else if v == i64::MIN {
        9_223_372_036_854_775_808u64
    } else {
        (-v) as u64
    }
}

/// Ten to the power `e`, for the exponents that a value in millionths needs.
pub fn pow10_of(e: u8) -> (p: u64)
    requires
        e <= 6,
    ensures
        p == pow10(e as nat),
        1 <= p <= 1_000_000,
{
    reveal_with_fuel(pow10, 8);
    match e {
        0 => 1,
        1 => 10,
        2 => 100,
        3 => 1_000,
        4 => 10_000,
        5 => 100_000,
        _ => 1_000_000,
    }
}

/// Appends `fixed_text(v, places)` to `out`.
pub fn push_fixed(out: &mut String, v: i64, places: u8)
    requires
        places <= 6,
    ensures
        final(out)@ == old(out)@ + fixed_text(v as int, places as nat),
{
    let m = magnitude_of(v);
    let cut = pow10_of(6 - places);
    let unit = pow10_of(places);
    let units: u64 = (m + cut / 2) / cut;
    if v < 0 {
        proof {
            reveal_strlit("-");
        }
        out.append("-");
    }
    assert(out@ =~= old(out)@ + sign_text(v as int));
    push_digits(out, units / unit);
    if places > 0 {
        proof {
            reveal_strlit(".");
        }
        out.append(".");
        push_padded(out, units % unit, places);
    }
    assert(final(out)@ =~= old(out)@ + fixed_text(v as int, places as nat));
}

/// Appends `decimal_text(v)` to `out`.
pub fn push_decimal(out: &mut String, v: i64)
    ensures
        final(out)@ == old(out)@ + decimal_text(v as int),
{
    let m = magnitude_of(v);
    let whole: u64 = m / 1_000_000;
    let frac: u64 = m % 1_000_000;
    if v < 0 {
        proof {
            reveal_strlit("-");
        }
        out.append("-");
    }
    assert(out@ =~= old(out)@ + sign_text(v as int));
    push_digits(out, whole);
    if frac != 0 {
        proof {
            reveal_strlit(".");
        }
        out.append(".");
        push_trimmed(out, frac, 6);
    }
    assert(final(out)@ =~= old(out)@ + decimal_text(v as int));
}

/// The shortest exact text of the fixed-point value `v`.
pub fn decimal_string(v: i64) -> (s: String)
    ensures
        s@ == decimal_text(v as int),
{
    let mut s = String::new();
    push_decimal(&mut s, v);
    assert(s@ =~= decimal_text(v as int));
    s
}

} // verus!
