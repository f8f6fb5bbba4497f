//! IEEE-754 binary32 values carried as their bit patterns (`f32::to_bits`).
//!
//! The engine stores every scalar parameter as the `u32` bit pattern of an
//! `f32`. This module gives those patterns the ordering of the real numbers
//! they stand for, so that clamping and comparisons are decided exactly as
//! `f32::clamp`, `f32::max` and `<` decide them.
use vstd::prelude::*;

verus! {

/// Bit pattern of `0.0_f32`.
pub const F32_ZERO: u32 = 0x0000_0000;

/// Bit pattern of `1.0_f32`.
pub const F32_ONE: u32 = 0x3f80_0000;

/// The sign bit of a binary32 pattern.
pub const F32_SIGN: u32 = 0x8000_0000;

/// Exponent all ones, mantissa zero: the magnitude of an infinity.
pub const F32_INF_MAGNITUDE: u32 = 0x7f80_0000;

/// Whether the sign bit is set.
pub open spec fn f32_sign(b: u32) -> bool {
    b >= F32_SIGN
}

/// The pattern without its sign bit.
pub open spec fn f32_magnitude(b: u32) -> int {
    if f32_sign(b) {
        b - F32_SIGN
    } else {
        b as int
    }
}

/// A NaN: all exponent bits set and a non-zero mantissa.
pub open spec fn f32_is_nan(b: u32) -> bool {
    f32_magnitude(b) > F32_INF_MAGNITUDE
}

/// For a value that is not NaN, its place on the real line: magnitudes of
/// binary32 patterns grow with the value they encode, and `+0.0` and `-0.0`
/// share the place `0`.
pub open spec fn f32_key(b: u32) -> int {
    if f32_sign(b) {
        -f32_magnitude(b)
    } else {
        f32_magnitude(b)
    }
}

/// `a < b` on `f32` (false as soon as one side is NaN).
pub open spec fn f32_lt(a: u32, b: u32) -> bool {
    !f32_is_nan(a) && !f32_is_nan(b) && f32_key(a) < f32_key(b)
}

/// `a <= b` on `f32` (false as soon as one side is NaN).
pub open spec fn f32_le(a: u32, b: u32) -> bool {
    !f32_is_nan(a) && !f32_is_nan(b) && f32_key(a) <= f32_key(b)
}

/// `f32::clamp(x, lo, hi)`: `lo` where `x < lo`, then `hi` where the value is
/// above `hi`, else `x` (so NaN stays NaN).
pub open spec fn f32_clamp(x: u32, lo: u32, hi: u32) -> u32 {
    let y = if f32_lt(x, lo) { lo } else { x };
    if f32_lt(hi, y) { hi } else { y }
}

/// `f32::max(x, bound)` for a bound that is neither NaN nor a zero: the bound
/// where `x` is NaN or below it, else `x`.
pub open spec fn f32_max_with(x: u32, bound: u32) -> u32 {
    if f32_is_nan(x) || f32_lt(x, bound) { bound } else { x }
}

/// Whether the pattern is a NaN.
pub fn is_nan_bits(b: u32) -> (r: bool)
    ensures
        r == f32_is_nan(b),
{
    let mag: u32 = if b >= F32_SIGN { b - F32_SIGN } else { b };
    mag > F32_INF_MAGNITUDE
}

/// `a < b` on the `f32` values of two patterns.
pub fn lt_bits(a: u32, b: u32) -> (r: bool)
    ensures
        r == f32_lt(a, b),
{
    if is_nan_bits(a) || is_nan_bits(b) {
        return false;
    }
    let a_neg = a >= F32_SIGN;
    let b_neg = b >= F32_SIGN;
    let a_mag: u32 = if a_neg { a - F32_SIGN } else { a };
    let b_mag: u32 = if b_neg { b - F32_SIGN } else { b };
    if a_neg && b_neg {
        b_mag < a_mag
    } else if a_neg {
        // a <= -0 and b >= +0: a < b unless both are zeros
        a_mag != 0 || b_mag != 0
    } else if b_neg {
        false
    } else {
        a_mag < b_mag
    }
}

/// `a <= b` on the `f32` values of two patterns.
pub fn le_bits(a: u32, b: u32) -> (r: bool)
    ensures
        r == f32_le(a, b),
{
    if is_nan_bits(a) || is_nan_bits(b) {
        return false;
    }
    !lt_bits(b, a)
}

/// `f32::clamp` on patterns; `lo <= hi` as `f32::clamp` asks (it panics otherwise).
pub fn clamp_bits(x: u32, lo: u32, hi: u32) -> (r: u32)
    requires
        f32_le(lo, hi),
    ensures
        r == f32_clamp(x, lo, hi),
{
    let y = if lt_bits(x, lo) { lo } else { x };
    if lt_bits(hi, y) { hi } else { y }
}

/// `f32::max(x, bound)` on patterns, for a bound that is neither NaN nor zero.
pub fn max_with_bits(x: u32, bound: u32) -> (r: u32)
    requires
        !f32_is_nan(bound),
        f32_key(bound) != 0,
    ensures
        r == f32_max_with(x, bound),
{
    if is_nan_bits(x) || lt_bits(x, bound) { bound } else { x }
}

/// `clamp(x, 0.0, 1.0)` on patterns.
pub fn clamp_unit(x: u32) -> (r: u32)
    ensures
        r == f32_clamp(x, F32_ZERO, F32_ONE),
{
    clamp_bits(x, F32_ZERO, F32_ONE)
}

/// Clamping lands inside the interval, unless the value was NaN, which it
/// keeps; and clamping twice is clamping once.
pub proof fn lemma_clamp_in_range(x: u32, lo: u32, hi: u32)
    requires
        f32_le(lo, hi),
    ensures
        f32_is_nan(x) ==> f32_clamp(x, lo, hi) == x,
        !f32_is_nan(x) ==> f32_le(lo, f32_clamp(x, lo, hi)) && f32_le(f32_clamp(x, lo, hi), hi),
        f32_clamp(f32_clamp(x, lo, hi), lo, hi) == f32_clamp(x, lo, hi),
        f32_le(lo, x) && f32_le(x, hi) ==> f32_clamp(x, lo, hi) == x,
{
}

/// The result of `max` with a bound is never NaN and never below the bound.
pub proof fn lemma_max_with_at_least(x: u32, bound: u32)
    requires
        !f32_is_nan(bound),
        f32_key(bound) != 0,
    ensures
        !f32_is_nan(f32_max_with(x, bound)),
        f32_le(bound, f32_max_with(x, bound)),
{
}

} // verus!
