//! Fixed-point scalar arithmetic for cell values.
//!
//! A scalar is stored as a raw `i64` count of `1/SCALE` units, so the
//! scalar value `1.0` is the raw value `SCALE`. Every stored value is
//! kept inside `[-MAX_RAW, MAX_RAW]`: the arithmetic below saturates at
//! those bounds instead of overflowing.

use vstd::prelude::*;

verus! {

/// Raw units in one scalar unit: the raw value `SCALE` is the scalar `1.0`.
pub const SCALE: i64 = 1000;

/// Largest magnitude, in raw units, a stored cell value may take.
pub const MAX_RAW: i64 = 1_000_000;

/// A raw value is storable when its magnitude is at most `MAX_RAW`.
pub open spec fn in_range(v: int) -> bool {
    -(MAX_RAW as int) <= v <= MAX_RAW as int
}

/// Saturate an arbitrary raw value into the storable range.
pub open spec fn clamp(v: int) -> int {
    if v < -(MAX_RAW as int) {
        -(MAX_RAW as int)
    } else if v > MAX_RAW as int {
        MAX_RAW as int
    } else {
        v
    }
}

/// Clamp a raw value into the unit interval `[0, SCALE]`, the range a
/// renderer maps onto one color channel.
pub open spec fn clamp_unit(v: int) -> int {
    if v < 0 {
        0
    } else if v > SCALE as int {
        SCALE as int
    } else {
        v
    }
}

/// Magnitude of a raw value.
pub open spec fn abs_val(v: int) -> int {
    if v < 0 {
        -v
    } else {
        v
    }
}

/// Fixed-point product, truncated toward zero: the raw result of
/// multiplying two scalars is `|a|*|b| / SCALE` with the sign of `a*b`.
pub open spec fn mul_fixed(a: int, b: int) -> int {
    let m = (abs_val(a) * abs_val(b)) / (SCALE as int);
    if (a < 0) != (b < 0) {
        -m
    } else {
        m
    }
}

/// Saturate a raw value into the storable range.
pub fn clamp_raw(v: i64) -> (r: i64)
    ensures
        r as int == clamp(v as int),
{
    if v < -MAX_RAW {
        -MAX_RAW
    } else if v > MAX_RAW {
        MAX_RAW
    } else {
        v
    }
}

/// Clamp a raw value into the unit interval `[0, SCALE]`.
pub fn clamp_unit_raw(v: i64) -> (r: i64)
    ensures
        r as int == clamp_unit(v as int),
{
    if v < 0 {
        0
    } else if v > SCALE {
        SCALE
    } else {
        v
    }
}

/// Saturating fixed-point addition of two storable raw values.
pub fn add_raw(a: i64, b: i64) -> (r: i64)
    requires
        in_range(a as int),
        in_range(b as int),
    ensures
        r as int == clamp(a + b),
{
    clamp_raw(a + b)
}

/// Saturating fixed-point multiplication of two storable raw values,
/// truncated toward zero.
pub fn mul_raw(a: i64, b: i64) -> (r: i64)
    requires
        in_range(a as int),
        in_range(b as int),
    ensures
        r as int == clamp(mul_fixed(a as int, b as int)),
{
    let neg = (a < 0) != (b < 0);
    let ma = if a < 0 { -a } else { a };
    let mb = if b < 0 { -b } else { b };
    assert((ma as int) * (mb as int) <= 1_000_000_000_000int) by (nonlinear_arith)
        requires
            0 <= ma as int <= 1_000_000int,
            0 <= mb as int <= 1_000_000int,
    ;
    let p = (ma as u64) * (mb as u64);
    let q = (p / (SCALE as u64)) as i64;
    assert(q as int == (abs_val(a as int) * abs_val(b as int)) / (SCALE as int));
    let signed = if neg { -q } else { q };
    clamp_raw(signed)
}

} // verus!
