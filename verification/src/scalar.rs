//! IEEE-754 binary32 scalar arithmetic on bit patterns.
//!
//! A scalar is the `u32` bit pattern of a binary32 value. The rounding
//! operations (addition, subtraction, multiplication, division, square root)
//! are performed by a software floating-point implementation; each result is
//! named by an uninterpreted spec function of the operand bit patterns, which
//! is sound because each of these operations is a pure function of its
//! operands (round to nearest, ties to even). Negation is implemented and
//! verified here directly: negating a binary32 value flips exactly its sign
//! bit and leaves the rest of the pattern unchanged.

use vstd::prelude::*;

verus! {

/// The bit pattern of the binary32 sum of the two operand bit patterns.
pub uninterp spec fn add_bits(a: u32, b: u32) -> u32;

/// The bit pattern of the binary32 difference of the two operand bit patterns.
pub uninterp spec fn sub_bits(a: u32, b: u32) -> u32;

/// The bit pattern of the binary32 product of the two operand bit patterns.
pub uninterp spec fn mul_bits(a: u32, b: u32) -> u32;

/// The bit pattern of the binary32 quotient of the two operand bit patterns.
pub uninterp spec fn div_bits(a: u32, b: u32) -> u32;

/// The bit pattern of the binary32 square root of the operand bit pattern.
pub uninterp spec fn sqrt_bits(a: u32) -> u32;

/// The bit pattern of the binary32 negation of the operand bit pattern:
/// negation flips the sign bit and nothing else.
pub open spec fn neg_bits(a: u32) -> u32 {
    a ^ 0x8000_0000u32
}

/// Negating a scalar twice restores the original bit pattern.
pub proof fn lemma_neg_bits_involutive(a: u32)
    ensures
        neg_bits(neg_bits(a)) == a,
{
    assert((a ^ 0x8000_0000u32) ^ 0x8000_0000u32 == a) by (bit_vector);
}

/// Relies on `const_soft_float::soft_f32::SoftF32::add`: IEEE-754 binary32 addition,
/// rounding to nearest with ties to even, a pure function of the two
/// operand bit patterns.
#[verifier::external_body]
pub(crate) fn scalar_add(a: u32, b: u32) -> (r: u32)
    ensures
        r == add_bits(a, b),
{
    const_soft_float::soft_f32::SoftF32::from_bits(a)
        .add(const_soft_float::soft_f32::SoftF32::from_bits(b))
        .to_bits()
}

/// Relies on `const_soft_float::soft_f32::SoftF32::sub`: IEEE-754 binary32 subtraction,
/// rounding to nearest with ties to even, a pure function of the two
/// operand bit patterns.
#[verifier::external_body]
pub(crate) fn scalar_sub(a: u32, b: u32) -> (r: u32)
    ensures
        r == sub_bits(a, b),
{
    const_soft_float::soft_f32::SoftF32::from_bits(a)
        .sub(const_soft_float::soft_f32::SoftF32::from_bits(b))
        .to_bits()
}

/// Relies on `const_soft_float::soft_f32::SoftF32::mul`: IEEE-754 binary32
/// multiplication, rounding to nearest with ties to even, a pure function
/// of the two operand bit patterns.
#[verifier::external_body]
pub(crate) fn scalar_mul(a: u32, b: u32) -> (r: u32)
    ensures
        r == mul_bits(a, b),
{
    const_soft_float::soft_f32::SoftF32::from_bits(a)
        .mul(const_soft_float::soft_f32::SoftF32::from_bits(b))
        .to_bits()
}

/// Relies on `const_soft_float::soft_f32::SoftF32::div`: IEEE-754 binary32 division,
/// rounding to nearest with ties to even, a pure function of the two
/// operand bit patterns. Division by a zero pattern yields an infinity or
/// NaN pattern, never a panic.
#[verifier::external_body]
pub(crate) fn scalar_div(a: u32, b: u32) -> (r: u32)
    ensures
        r == div_bits(a, b),
{
    const_soft_float::soft_f32::SoftF32::from_bits(a)
        .div(const_soft_float::soft_f32::SoftF32::from_bits(b))
        .to_bits()
}

/// Relies on `const_soft_float::soft_f32::SoftF32::sqrt`: IEEE-754 binary32 square root,
/// rounding to nearest with ties to even, a pure function of the operand
/// bit pattern.
#[verifier::external_body]
pub(crate) fn scalar_sqrt(a: u32) -> (r: u32)
    ensures
        r == sqrt_bits(a),
{
    const_soft_float::soft_f32::SoftF32::from_bits(a).sqrt().to_bits()
}

/// Binary32 negation: flip the sign bit of the pattern.
pub fn scalar_neg(a: u32) -> (r: u32)
    ensures
        r == neg_bits(a),
{
    a ^ 0x8000_0000u32
}

} // verus!
