//! Fixed-point arithmetic in millionths.
//!
//! A value `v: i64` stands for the real number `v / 1_000_000`. Products and
//! quotients are rounded toward zero, and every stored result saturates at the
//! bounds of `i64`.

use vstd::prelude::*;

verus! {

/// One whole unit, in millionths.
pub const SCALE: i64 = 1_000_000;

/// `x` limited to the closed interval `[lo, hi]`; `lo` where the interval is empty.
pub open spec fn clamp_int(x: int, lo: int, hi: int) -> int {
    if x < lo {
        lo
    } else if x > hi {
        hi
    } else {
        x
    }
}

/// `x` limited to the range of `i64`.
pub open spec fn sat(x: int) -> int {
    clamp_int(x, i64::MIN as int, i64::MAX as int)
}

/// The quotient `n / d` rounded toward zero, for `d > 0`.
pub open spec fn div_trunc(n: int, d: int) -> int
    recommends
        d > 0,
{
    if n >= 0 {
        n / d
    } else {
        -((-n) / d)
    }
}

/// The fixed-point product of `a` and `b`, before saturation.
pub open spec fn mul_fixed(a: int, b: int) -> int {
    div_trunc(a * b, SCALE as int)
}

pub fn clamp(x: i64, lo: i64, hi: i64) -> (r: i64)
    ensures
        r == clamp_int(x as int, lo as int, hi as int),
{
    if x < lo {
        lo
    } else if x > hi {
        hi
    } else {
        x
    }
}

pub fn saturate(x: i128) -> (r: i64)
    ensures
        r == sat(x as int),
{
    if x < -9_223_372_036_854_775_808i128 {
        i64::MIN
    } else if x > 9_223_372_036_854_775_807i128 {
        i64::MAX
    } else {
        x as i64
    }
}

pub fn div_toward_zero(n: i128, d: i128) -> (r: i128)
    requires
        d > 0,
        n > i128::MIN,
    ensures
        r == div_trunc(n as int, d as int),
{
    if n >= 0 {
        n / d
    } else {
        let m: i128 = -n;
        let q: i128 = m / d;
        -q
    }
}

/// The fixed-point quotient of `a` by `b`, before saturation, for `b > 0`.
pub open spec fn div_fixed(a: int, b: int) -> int
    recommends
        b > 0,
{
    div_trunc(a * SCALE, b)
}

/// A product of two 64-bit values stays within 127 bits.
pub proof fn lemma_product_bound(a: int, b: int)
    requires
        -0x8000_0000_0000_0000 <= a <= 0x8000_0000_0000_0000,
        -0x8000_0000_0000_0000 <= b <= 0x8000_0000_0000_0000,
    ensures
        -0x4000_0000_0000_0000_0000_0000_0000_0000 <= a * b
            <= 0x4000_0000_0000_0000_0000_0000_0000_0000,
{
    assert(-0x4000_0000_0000_0000_0000_0000_0000_0000 <= a * b
        <= 0x4000_0000_0000_0000_0000_0000_0000_0000) by (nonlinear_arith)
        requires
            -0x8000_0000_0000_0000 <= a <= 0x8000_0000_0000_0000,
            -0x8000_0000_0000_0000 <= b <= 0x8000_0000_0000_0000,
    {
        assert((0x8000_0000_0000_0000 - a) * (0x8000_0000_0000_0000 - b) >= 0);
        assert((0x8000_0000_0000_0000 + a) * (0x8000_0000_0000_0000 + b) >= 0);
        assert((0x8000_0000_0000_0000 - a) * (0x8000_0000_0000_0000 + b) >= 0);
        assert((0x8000_0000_0000_0000 + a) * (0x8000_0000_0000_0000 - b) >= 0);
    }
}

/// The saturated fixed-point product of `a` and `b`.
pub fn mul_sat(a: i64, b: i64) -> (r: i64)
    ensures
        r == sat(mul_fixed(a as int, b as int)),
{
    proof {
        lemma_product_bound(a as int, b as int);
    }
    let wide: i128 = (a as i128) * (b as i128);
    saturate(div_toward_zero(wide, 1_000_000))
}

/// The saturated fixed-point quotient of the difference `a - b` by `d`.
pub fn div_diff_sat(a: i64, b: i64, d: i64) -> (r: i64)
    requires
        d > 0,
    ensures
        r == sat(div_fixed(a - b, d as int)),
{
    let diff: i128 = a as i128 - b as i128;
    let wide: i128 = diff * 1_000_000;
    saturate(div_toward_zero(wide, d as i128))
}

/// The saturated sum of `a` and `b`.
pub fn add_sat(a: i64, b: i64) -> (r: i64)
    ensures
        r == sat(a + b),
{
    saturate(a as i128 + b as i128)
}

/// The saturated difference of `a` and `b`.
pub fn sub_sat(a: i64, b: i64) -> (r: i64)
    ensures
        r == sat(a - b),
{
    saturate(a as i128 - b as i128)
}

} // verus!
