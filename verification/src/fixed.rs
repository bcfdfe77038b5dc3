//! Q15 fixed-point sample format and its arithmetic helpers.
//!
//! A signal value `v` stands for the real number `v / ONE`; full scale is
//! `[-ONE, ONE]`. Multiplying two Q15 values therefore needs a division by
//! `ONE` afterwards, which rounds toward zero, exactly like the underlying
//! machine division.

use vstd::prelude::*;

verus! {

/// One (full scale) in the Q15 sample format.
pub const ONE: i32 = 32768;

/// Largest magnitude accepted by [`mul_unit`] for its first factor.
pub const MUL_UNIT_BOUND: i64 = 0x100_0000_0000;

/// Division rounding toward zero, the behaviour of machine division on
/// signed integers. On nonnegative arguments it agrees with Euclidean
/// division.
pub open spec fn trunc_div(x: int, d: int) -> int
    recommends
        d > 0,
{
    if x >= 0 {
        x / d
    } else {
        -((-x) / d)
    }
}

/// Scaling a product of two Q15 values back to Q15.
pub open spec fn div_unit(x: int) -> int {
    trunc_div(x, ONE as int)
}

/// Saturation into the `i32` range.
pub open spec fn sat_i32(x: int) -> int {
    if x > i32::MAX as int {
        i32::MAX as int
    } else if x < i32::MIN as int {
        i32::MIN as int
    } else {
        x
    }
}

/// A Q15 value scaled to a signed 16-bit PCM sample: full scale maps to
/// 32767, the scaling truncates toward zero and values beyond full scale
/// saturate at the 16-bit limits.
pub open spec fn pcm_of(v: int) -> int {
    let scaled = trunc_div(v * 32767, ONE as int);
    if scaled > i16::MAX as int {
        i16::MAX as int
    } else if scaled < i16::MIN as int {
        i16::MIN as int
    } else {
        scaled
    }
}

/// Truncating division of `x` by `ONE`.
pub fn div_unit_i64(x: i64) -> (r: i64)
    requires
        x > i64::MIN,
    ensures
        r == div_unit(x as int),
{
    if x >= 0 {
        ((x as u64) / (ONE as u64)) as i64
    } else {
        let m = ((-x) as u64) / (ONE as u64);
        -(m as i64)
    }
}

/// The Q15 product `a * b / ONE`, exact (truncating toward zero).
pub fn mul_unit(a: i64, b: i32) -> (r: i64)
    requires
        -MUL_UNIT_BOUND <= a <= MUL_UNIT_BOUND,
    ensures
        r == div_unit(a * b),
        -MUL_UNIT_BOUND * 0x1_0000 <= r <= MUL_UNIT_BOUND * 0x1_0000,
{
    assert(-MUL_UNIT_BOUND * 0x8000_0000 <= a * b <= MUL_UNIT_BOUND * 0x8000_0000)
        by (nonlinear_arith)
        requires
            -MUL_UNIT_BOUND <= a <= MUL_UNIT_BOUND,
            i32::MIN <= b <= i32::MAX,
    ;
    let p: i128 = (a as i128) * (b as i128);
    let q: i128 = if p >= 0 {
        ((p as u128) / (ONE as u128)) as i128
    } else {
        let m = ((-p) as u128) / (ONE as u128);
        -(m as i128)
    };
    assert(q == div_unit(a * b));
    q as i64
}

/// The Q15 product `a * b / ONE`, saturated into the `i32` range.
pub fn mul_unit_sat(a: i64, b: i32) -> (r: i32)
    ensures
        r == sat_i32(div_unit(a * b)),
{
    assert(-0x8000_0000_0000_0000_0000_0000 <= a * b <= 0x8000_0000_0000_0000_0000_0000)
        by (nonlinear_arith)
        requires
            i64::MIN <= a <= i64::MAX,
            i32::MIN <= b <= i32::MAX,
    ;
    let p: i128 = (a as i128) * (b as i128);
    let q: i128 = if p >= 0 {
        ((p as u128) / (ONE as u128)) as i128
    } else {
        let m = ((-p) as u128) / (ONE as u128);
        -(m as i128)
    };
    assert(q == div_unit(p as int));
    if q > i32::MAX as i128 {
        i32::MAX
    } else if q < i32::MIN as i128 {
        i32::MIN
    } else {
        q as i32
    }
}

/// A Q15 value as a signed 16-bit PCM sample.
pub fn pcm16(v: i32) -> (r: i16)
    ensures
        r == pcm_of(v as int),
{
    let p: i64 = (v as i64) * 32767;
    let q: i64 = if p >= 0 {
        ((p as u64) / (ONE as u64)) as i64
    } else {
        let m = ((-p) as u64) / (ONE as u64);
        -(m as i64)
    };
    assert(q == trunc_div(p as int, ONE as int));
    if q > i16::MAX as i64 {
        i16::MAX
    } else if q < i16::MIN as i64 {
        i16::MIN
    } else {
        q as i16
    }
}

} // verus!
