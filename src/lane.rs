//! A lane is one binary32 floating-point coordinate, held as its IEEE-754
//! encoding. This module gives the IEEE ordering of such encodings.

use vstd::prelude::*;

verus! {

/// Weight of the sign bit.
pub const SIGN_BIT: u32 = 0x8000_0000;

/// The magnitude (sign cleared) of every infinity; a larger magnitude is a NaN.
pub const INFINITE_MAGNITUDE: u32 = 0x7f80_0000;

/// The binary32 encoding of one ten-thousandth: below this magnitude a
/// determinant counts as zero.
pub const PARALLEL_EPSILON: u32 = 0x38d1_b717;

/// The encoding with the sign bit cleared.
pub open spec fn magnitude(b: u32) -> int {
    (b % SIGN_BIT) as int
}

/// Exponent all ones and a non-zero mantissa.
pub open spec fn is_nan(b: u32) -> bool {
    magnitude(b) > INFINITE_MAGNITUDE as int
}

/// Neither an infinity nor a NaN.
pub open spec fn is_finite(b: u32) -> bool {
    magnitude(b) < INFINITE_MAGNITUDE as int
}

/// Position of a non-NaN value on the real line (extended by the infinities):
/// negatives mirror the positives, and both zeros sit at 0.
pub open spec fn order_key(b: u32) -> int {
    if b >= SIGN_BIT {
        -magnitude(b)
    } else {
        magnitude(b)
    }
}

/// IEEE `a < b`: false whenever either side is NaN.
pub open spec fn lane_lt(a: u32, b: u32) -> bool {
    !is_nan(a) && !is_nan(b) && order_key(a) < order_key(b)
}

/// IEEE `a <= b`: false whenever either side is NaN.
pub open spec fn lane_le(a: u32, b: u32) -> bool {
    !is_nan(a) && !is_nan(b) && order_key(a) <= order_key(b)
}

/// IEEE `a == b`: the two zeros are equal, and a NaN equals nothing.
pub open spec fn lane_eq(a: u32, b: u32) -> bool {
    !is_nan(a) && !is_nan(b) && order_key(a) == order_key(b)
}

/// IEEE `|a| < |b|`.
pub open spec fn lane_abs_lt(a: u32, b: u32) -> bool {
    !is_nan(a) && !is_nan(b) && magnitude(a) < magnitude(b)
}

/// The smaller of two lanes, ignoring NaN: a NaN side yields the other side,
/// and of two equal values (such as the two zeros) the first is kept.
pub open spec fn lane_min(a: u32, b: u32) -> u32 {
    if is_nan(a) {
        b
    } else if is_nan(b) {
        a
    } else if lane_lt(b, a) {
        b
    } else {
        a
    }
}

/// The larger of two lanes, ignoring NaN, in the manner of `lane_min`.
pub open spec fn lane_max(a: u32, b: u32) -> u32 {
    if is_nan(a) {
        b
    } else if is_nan(b) {
        a
    } else if lane_lt(a, b) {
        b
    } else {
        a
    }
}

/// Whether the lane holds a NaN.
pub fn nan(b: u32) -> (r: bool)
    ensures
        r == is_nan(b),
{
    b % SIGN_BIT > INFINITE_MAGNITUDE
}

/// Whether the lane holds a finite value.
pub fn finite(b: u32) -> (r: bool)
    ensures
        r == is_finite(b),
{
    b % SIGN_BIT < INFINITE_MAGNITUDE
}

/// The IEEE `==` comparison of two lanes.
pub fn eq(a: u32, b: u32) -> (r: bool)
    ensures
        r == lane_eq(a, b),
{
    if nan(a) || nan(b) {
        return false;
    }
    let ma: u32 = a % SIGN_BIT;
    let mb: u32 = b % SIGN_BIT;
    if ma == 0 && mb == 0 {
        true
    } else {
        a == b
    }
}

/// The IEEE comparison `|a| < |b|`.
pub fn abs_lt(a: u32, b: u32) -> (r: bool)
    ensures
        r == lane_abs_lt(a, b),
{
    !nan(a) && !nan(b) && a % SIGN_BIT < b % SIGN_BIT
}

/// The IEEE `<` comparison of two lanes.
pub fn lt(a: u32, b: u32) -> (r: bool)
    ensures
        r == lane_lt(a, b),
{
    if nan(a) || nan(b) {
        return false;
    }
    let ma: u32 = a % SIGN_BIT;
    let mb: u32 = b % SIGN_BIT;
    let na: bool = a >= SIGN_BIT;
    let nb: bool = b >= SIGN_BIT;
    if na && nb {
        mb < ma
    } else if na {
        // -ma < mb unless both are zeros
        ma != 0 || mb != 0
    } else if nb {
        false
    } else {
        ma < mb
    }
}

/// The smaller of two lanes, ignoring NaN.
pub fn min(a: u32, b: u32) -> (r: u32)
    ensures
        r == lane_min(a, b),
{
    if nan(a) {
        b
    } else if nan(b) {
        a
    } else if lt(b, a) {
        b
    } else {
        a
    }
}

/// The larger of two lanes, ignoring NaN.
pub fn max(a: u32, b: u32) -> (r: u32)
    ensures
        r == lane_max(a, b),
{
    if nan(a) {
        b
    } else if nan(b) {
        a
    } else if lt(a, b) {
        b
    } else {
        a
    }
}

/// Of two lanes that are not NaN, one is at most the other.
pub proof fn lemma_lane_total(a: u32, b: u32)
    requires
        !is_nan(a),
        !is_nan(b),
    ensures
        lane_le(a, b) || lane_le(b, a),
        !lane_lt(a, b) ==> lane_le(b, a),
{
}

} // verus!
