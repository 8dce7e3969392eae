//! IEEE-754 single-precision values carried as raw bit patterns.
//!
//! Telemetry samples are decoded and stored as the producer's 32-bit words.
//! The few places where the pipeline has to *order* such a sample (sync
//! annotation thresholds) do it with these predicates, which implement the
//! standard ordering on the bit pattern: sign bit, then magnitude; a NaN
//! compares neither above nor below anything.

use vstd::prelude::*;

verus! {

/// Magnitude (everything but the sign bit) of a single-precision pattern.
pub open spec fn f32b_magnitude(b: u32) -> u32 {
    b & 0x7fff_ffff
}

/// The pattern encodes a NaN: exponent all ones and a non-zero mantissa.
pub open spec fn f32b_is_nan(b: u32) -> bool {
    f32b_magnitude(b) > 0x7f80_0000
}

/// The encoded value is strictly greater than zero.
///
/// True exactly for non-NaN patterns with a clear sign bit and a non-zero
/// magnitude (so +0 and every negative value, including -0, are excluded).
pub open spec fn f32b_gt_zero(b: u32) -> bool {
    !f32b_is_nan(b) && b < 0x8000_0000 && b != 0
}

/// The encoded value is less than or equal to zero.
///
/// True for non-NaN patterns that are negative (sign bit set) or a zero of
/// either sign.  A NaN is neither `f32b_gt_zero` nor `f32b_le_zero`.
pub open spec fn f32b_le_zero(b: u32) -> bool {
    !f32b_is_nan(b) && (b >= 0x8000_0000 || f32b_magnitude(b) == 0)
}

/// The encoded value is strictly greater than the positive finite value
/// encoded by `c`.
///
/// For patterns with a clear sign bit, the IEEE-754 order coincides with the
/// unsigned order of the bits, so a single integer comparison decides it.
pub open spec fn f32b_gt_pos(b: u32, c: u32) -> bool
    recommends
        c < 0x7f80_0000,
{
    !f32b_is_nan(b) && b < 0x8000_0000 && b > c
}

/// The encoded value is less than or equal to the positive finite value
/// encoded by `c`.
pub open spec fn f32b_le_pos(b: u32, c: u32) -> bool
    recommends
        c < 0x7f80_0000,
{
    !f32b_is_nan(b) && (b >= 0x8000_0000 || b <= c || f32b_magnitude(b) == 0)
}

/// Runtime check for [`f32b_gt_zero`].
pub fn f32b_gt_zero_exec(b: u32) -> (r: bool)
    ensures
        r == f32b_gt_zero(b),
{
    (b & 0x7fff_ffff) <= 0x7f80_0000 && b < 0x8000_0000 && b != 0
}

/// Runtime check for [`f32b_le_zero`].
pub fn f32b_le_zero_exec(b: u32) -> (r: bool)
    ensures
        r == f32b_le_zero(b),
{
    (b & 0x7fff_ffff) <= 0x7f80_0000 && (b >= 0x8000_0000 || (b & 0x7fff_ffff) == 0)
}

/// Runtime check for [`f32b_gt_pos`].
pub fn f32b_gt_pos_exec(b: u32, c: u32) -> (r: bool)
    ensures
        r == f32b_gt_pos(b, c),
{
    (b & 0x7fff_ffff) <= 0x7f80_0000 && b < 0x8000_0000 && b > c
}

/// Runtime check for [`f32b_le_pos`].
pub fn f32b_le_pos_exec(b: u32, c: u32) -> (r: bool)
    ensures
        r == f32b_le_pos(b, c),
{
    (b & 0x7fff_ffff) <= 0x7f80_0000 && (b >= 0x8000_0000 || b <= c || (b & 0x7fff_ffff) == 0)
}

/// A pattern is never both strictly above and at-or-below zero, and it is
/// neither exactly when it is a NaN.
pub proof fn lemma_f32b_zero_trichotomy(b: u32)
    ensures
        !(f32b_gt_zero(b) && f32b_le_zero(b)),
        f32b_is_nan(b) <==> (!f32b_gt_zero(b) && !f32b_le_zero(b)),
{
    assert(b >= 0x8000_0000 && b != 0 && (b & 0x7fff_ffff) == 0 ==> b == 0x8000_0000)
        by (bit_vector);
    assert(b < 0x8000_0000 ==> (b & 0x7fff_ffff) == b) by (bit_vector);
}

} // verus!
