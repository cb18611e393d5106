//! Scale-factor normalization.
//!
//! The host hands the render scale across the boundary as the IEEE 754 bit
//! pattern of a 32-bit float. A scale that is zero, negative or NaN is
//! silently treated as 1.0 — never rejected. The predicates below read the
//! bit pattern directly: the sign bit set means the value is negative (or a
//! negative NaN), an all-ones exponent with a non-zero mantissa means NaN,
//! and the all-zero pattern is positive zero.

use vstd::prelude::*;

verus! {

/// The bit pattern of the 32-bit float 1.0.
pub const ONE_BITS: u32 = 0x3F80_0000;

/// The bit pattern denotes a NaN: exponent all ones, mantissa non-zero.
pub open spec fn is_nan_bits(bits: u32) -> bool {
    bits & 0x7F80_0000 == 0x7F80_0000 && bits & 0x007F_FFFF != 0
}

/// The bit pattern has its sign bit set (a negative value or negative NaN).
pub open spec fn is_negative_bits(bits: u32) -> bool {
    bits & 0x8000_0000 != 0
}

/// The scale is not usable as given: non-positive (zero or sign bit set)
/// or NaN. Such a scale is normalized to 1.0.
pub open spec fn is_non_positive_or_nan(bits: u32) -> bool {
    bits == 0 || is_negative_bits(bits) || is_nan_bits(bits)
}

/// What a given scale bit pattern is normalized to before rendering.
pub open spec fn spec_normalize_scale(bits: u32) -> u32 {
    if is_non_positive_or_nan(bits) {
        ONE_BITS
    } else {
        bits
    }
}

/// Normalizes a scale bit pattern: zero, negative and NaN patterns become
/// the pattern of 1.0; every other pattern is kept as it is.
pub fn normalize_scale_bits(bits: u32) -> (r: u32)
    ensures
        r == spec_normalize_scale(bits),
{
    let nan = bits & 0x7F80_0000 == 0x7F80_0000 && bits & 0x007F_FFFF != 0;
    if bits == 0 || bits & 0x8000_0000 != 0 || nan {
        ONE_BITS
    } else {
        bits
    }
}

/// Every non-positive or NaN scale normalizes to exactly what 1.0
/// normalizes to, so rendering with such a scale behaves identically to
/// rendering with scale 1.0.
pub proof fn lemma_non_positive_scale_is_one(bits: u32)
    requires
        is_non_positive_or_nan(bits),
    ensures
        spec_normalize_scale(bits) == spec_normalize_scale(ONE_BITS),
{
    assert(!is_non_positive_or_nan(ONE_BITS)) by (bit_vector);
}

} // verus!
