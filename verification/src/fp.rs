//! IEEE-754 double-precision scalars, carried as 64-bit patterns.
//!
//! A scalar is the `u64` bit pattern of an IEEE-754 binary64 value.  Sign
//! handling (negation, magnitude, the `>= 0` test) is exact bit logic and is
//! implemented and verified here directly.  Rounded arithmetic goes through
//! trusted primitives that call a software floating-point library; each such
//! primitive is deterministic, so its result is named by an uninterpreted
//! spec function of the operand bit patterns.

use vstd::prelude::*;

use const_soft_float::soft_f64::SoftF64;

verus! {

/// Mask of the IEEE-754 binary64 sign bit.
pub const SIGN_MASK: u64 = 0x8000_0000_0000_0000;

/// Mask of everything but the sign bit: exponent and significand.
pub const MAGNITUDE_MASK: u64 = 0x7FFF_FFFF_FFFF_FFFF;

/// Bit pattern of positive infinity; magnitudes above it are NaNs.
pub const INFINITY_BITS: u64 = 0x7FF0_0000_0000_0000;

/// IEEE-754 negation: the sign bit flips and nothing else changes, for
/// every bit pattern, NaNs included.
pub open spec fn flip_sign(x: u64) -> u64 {
    x ^ SIGN_MASK
}

/// IEEE-754 magnitude (absolute value): the sign bit clears and nothing
/// else changes, for every bit pattern, NaNs included.
pub open spec fn magnitude(x: u64) -> u64 {
    x & MAGNITUDE_MASK
}

/// Whether the bit pattern encodes a NaN: the magnitude lies above the
/// infinity pattern.
pub open spec fn is_nan_bits(x: u64) -> bool {
    magnitude(x) > INFINITY_BITS
}

/// Whether the encoded value compares `>= 0.0`: true for every non-NaN
/// pattern with a clear sign bit and for negative zero, false for every
/// other pattern (all NaNs compare false).
pub open spec fn ge_zero(x: u64) -> bool {
    x <= SIGN_MASK && !is_nan_bits(x)
}

/// Negation of a double, as the exact sign-bit flip.
pub fn fp_neg(x: u64) -> (r: u64)
    ensures
        r == flip_sign(x),
{
    x ^ SIGN_MASK
}

/// Magnitude of a double, as the exact sign-bit clear.
pub fn fp_magnitude(x: u64) -> (r: u64)
    ensures
        r == magnitude(x),
{
    x & MAGNITUDE_MASK
}

/// The `>= 0.0` comparison on a double, decided exactly on the bits.
pub fn fp_ge_zero(x: u64) -> (r: bool)
    ensures
        r == ge_zero(x),
{
    x <= SIGN_MASK && !((x & MAGNITUDE_MASK) > INFINITY_BITS)
}

/// Negating twice gives the bit pattern back unchanged.
pub proof fn lemma_flip_sign_involution(x: u64)
    ensures
        flip_sign(flip_sign(x)) == x,
{
    assert((x ^ SIGN_MASK) ^ SIGN_MASK == x) by (bit_vector);
}

/// Names the IEEE-754 binary64 sum of two bit patterns, rounded to
/// nearest even.
pub uninterp spec fn add_bits(a: u64, b: u64) -> u64;

/// Names the IEEE-754 binary64 difference of two bit patterns, rounded to
/// nearest even.
pub uninterp spec fn sub_bits(a: u64, b: u64) -> u64;

/// Names the IEEE-754 binary64 product of two bit patterns, rounded to
/// nearest even.
pub uninterp spec fn mul_bits(a: u64, b: u64) -> u64;

/// Names the IEEE-754 binary64 quotient of two bit patterns, rounded to
/// nearest even.
pub uninterp spec fn div_bits(a: u64, b: u64) -> u64;

/// Names the correctly rounded IEEE-754 binary64 square root of a bit
/// pattern.
pub uninterp spec fn sqrt_bits(a: u64) -> u64;

/// Names the sine of the double encoded by a bit pattern.
pub uninterp spec fn sin_bits(a: u64) -> u64;

/// Names the cosine of the double encoded by a bit pattern.
pub uninterp spec fn cos_bits(a: u64) -> u64;

/// Relies on `const_soft_float::soft_f64::SoftF64::add`: IEEE-754 binary64
/// addition, round to nearest even, a pure function of the operand bits.
#[verifier::external_body]
pub(crate) fn fp_add(a: u64, b: u64) -> (r: u64)
    ensures
        r == add_bits(a, b),
{
    SoftF64::from_bits(a).add(SoftF64::from_bits(b)).to_bits()
}

/// Relies on `const_soft_float::soft_f64::SoftF64::sub`: IEEE-754 binary64
/// subtraction, round to nearest even, a pure function of the operand bits.
#[verifier::external_body]
pub(crate) fn fp_sub(a: u64, b: u64) -> (r: u64)
    ensures
        r == sub_bits(a, b),
{
    SoftF64::from_bits(a).sub(SoftF64::from_bits(b)).to_bits()
}

/// Relies on `const_soft_float::soft_f64::SoftF64::mul`: IEEE-754 binary64
/// multiplication, round to nearest even, a pure function of the operand
/// bits.
#[verifier::external_body]
pub(crate) fn fp_mul(a: u64, b: u64) -> (r: u64)
    ensures
        r == mul_bits(a, b),
{
    SoftF64::from_bits(a).mul(SoftF64::from_bits(b)).to_bits()
}

/// Relies on `const_soft_float::soft_f64::SoftF64::div`: IEEE-754 binary64
/// division, round to nearest even, a pure function of the operand bits.
#[verifier::external_body]
pub(crate) fn fp_div(a: u64, b: u64) -> (r: u64)
    ensures
        r == div_bits(a, b),
{
    SoftF64::from_bits(a).div(SoftF64::from_bits(b)).to_bits()
}

/// Relies on `const_soft_float::soft_f64::SoftF64::sqrt`: the correctly
/// rounded IEEE-754 binary64 square root, a pure function of the operand
/// bits.
#[verifier::external_body]
pub(crate) fn fp_sqrt(a: u64) -> (r: u64)
    ensures
        r == sqrt_bits(a),
{
    SoftF64::from_bits(a).sqrt().to_bits()
}

/// Relies on `const_soft_float::soft_f64::SoftF64::sin`: a software port
/// of the mathematical library's sine, a pure function of the operand bits.
#[verifier::external_body]
pub(crate) fn fp_sin(a: u64) -> (r: u64)
    ensures
        r == sin_bits(a),
{
    SoftF64::from_bits(a).sin().to_bits()
}

/// Relies on `const_soft_float::soft_f64::SoftF64::cos`: a software port
/// of the mathematical library's cosine, a pure function of the operand
/// bits.
#[verifier::external_body]
pub(crate) fn fp_cos(a: u64) -> (r: u64)
    ensures
        r == cos_bits(a),
{
    SoftF64::from_bits(a).cos().to_bits()
}

} // verus!
