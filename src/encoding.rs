//! The order of IEEE-754 binary64 values, stated on their encodings.
//!
//! A binary64 value is a sign bit followed by a 63-bit magnitude. Apart from
//! the NaN encodings (magnitude above that of infinity), two values compare as
//! their signed magnitudes do, and the two zeros are equal.
use vstd::prelude::*;

verus! {

/// The sign bit of an encoding.
pub const SIGN_BIT: u64 = 0x8000_0000_0000_0000;

/// The magnitude of positive infinity; every larger magnitude is a NaN.
pub const INFINITY_MAGNITUDE: u64 = 0x7FF0_0000_0000_0000;

/// The encoding of 0.0.
pub const ZERO: u64 = 0;

/// The magnitude part of an encoding.
pub open spec fn magnitude(b: u64) -> int {
    if b >= SIGN_BIT {
        b - SIGN_BIT
    } else {
        b as int
    }
}

/// Whether an encoding is a NaN.
pub open spec fn is_nan(b: u64) -> bool {
    magnitude(b) > INFINITY_MAGNITUDE
}

/// The position of a non-NaN encoding on the number line.
pub open spec fn ordinal(b: u64) -> int {
    if b >= SIGN_BIT {
        -magnitude(b)
    } else {
        magnitude(b)
    }
}

/// `a < b` on binary64 values.
pub open spec fn lt(a: u64, b: u64) -> bool {
    !is_nan(a) && !is_nan(b) && ordinal(a) < ordinal(b)
}

/// `a <= b` on binary64 values.
pub open spec fn le(a: u64, b: u64) -> bool {
    !is_nan(a) && !is_nan(b) && ordinal(a) <= ordinal(b)
}

/// `a == b` on binary64 values.
pub open spec fn eq(a: u64, b: u64) -> bool {
    !is_nan(a) && !is_nan(b) && ordinal(a) == ordinal(b)
}

/// The larger of `a` and `b`, or the one that is not NaN, as `f64::max`
/// gives it; where the two are equal (`+0.0` and `-0.0`), `a`, a case in
/// which `f64::max` may return either.
pub open spec fn max(a: u64, b: u64) -> u64 {
    if is_nan(a) || lt(a, b) {
        b
    } else {
        a
    }
}

/// The smaller of `a` and `b`, or the one that is not NaN, as `f64::min`
/// gives it; where the two are equal (`+0.0` and `-0.0`), `a`, a case in
/// which `f64::min` may return either.
pub open spec fn min(a: u64, b: u64) -> u64 {
    if is_nan(a) || lt(b, a) {
        b
    } else {
        a
    }
}

/// Tells whether an encoding is a NaN.
pub fn nan(b: u64) -> (r: bool)
    ensures
        r == is_nan(b),
{
    let m: u64 = if b >= SIGN_BIT {
        b - SIGN_BIT
    } else {
        b
    };
    m > INFINITY_MAGNITUDE
}

/// The signed magnitude of an encoding.
fn signed(b: u64) -> (r: i64)
    ensures
        r == ordinal(b),
{
    if b >= SIGN_BIT {
        -((b - SIGN_BIT) as i64)
    } else {
        b as i64
    }
}

/// `a < b` on binary64 values.
pub fn less(a: u64, b: u64) -> (r: bool)
    ensures
        r == lt(a, b),
{
    !nan(a) && !nan(b) && signed(a) < signed(b)
}

/// `a <= b` on binary64 values.
pub fn at_most(a: u64, b: u64) -> (r: bool)
    ensures
        r == le(a, b),
{
    !nan(a) && !nan(b) && signed(a) <= signed(b)
}

/// `a == b` on binary64 values.
pub fn equal(a: u64, b: u64) -> (r: bool)
    ensures
        r == eq(a, b),
{
    !nan(a) && !nan(b) && signed(a) == signed(b)
}

/// The larger of `a` and `b` (see `max`).
pub fn larger(a: u64, b: u64) -> (r: u64)
    ensures
        r == max(a, b),
{
    if nan(a) || less(a, b) {
        b
    } else {
        a
    }
}

/// The smaller of `a` and `b` (see `min`).
pub fn smaller(a: u64, b: u64) -> (r: u64)
    ensures
        r == min(a, b),
{
    if nan(a) || less(b, a) {
        b
    } else {
        a
    }
}

} // verus!
