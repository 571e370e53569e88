//! Classification of IEEE-754 double-precision bit patterns.
//!
//! The formula layer reports bad inputs through the IEEE-754 channel rather
//! than an error type: a division by zero yields a signed infinity and a
//! square root of a negative operand yields a not-a-number, and either
//! propagates silently through downstream formulas. A caller therefore
//! validates a computed quantity by classifying its bit pattern. The
//! predicates here do that classification on the raw bit pattern a quantity
//! carries, with proved contracts, and [`lemma_class_partition`] states that
//! the three classes are mutually exclusive and cover every pattern, so the
//! channel is unambiguous.

use vstd::prelude::*;

verus! {

/// Mask of the sign bit of an IEEE-754 double bit pattern.
pub const SIGN_MASK: u64 = 0x8000_0000_0000_0000;

/// Mask of the eleven exponent bits of an IEEE-754 double bit pattern.
pub const EXPONENT_MASK: u64 = 0x7FF0_0000_0000_0000;

/// Mask of the fifty-two fraction bits of an IEEE-754 double bit pattern.
pub const FRACTION_MASK: u64 = 0x000F_FFFF_FFFF_FFFF;

/// A bit pattern encodes a not-a-number when every exponent bit is set and
/// the fraction is nonzero.
pub open spec fn spec_is_nan(bits: u64) -> bool {
    bits & EXPONENT_MASK == EXPONENT_MASK && bits & FRACTION_MASK != 0
}

/// A bit pattern encodes an infinity when every exponent bit is set and the
/// fraction is zero.
pub open spec fn spec_is_infinite(bits: u64) -> bool {
    bits & EXPONENT_MASK == EXPONENT_MASK && bits & FRACTION_MASK == 0
}

/// A bit pattern encodes a finite number (normal, subnormal or zero) when at
/// least one exponent bit is clear.
pub open spec fn spec_is_finite(bits: u64) -> bool {
    bits & EXPONENT_MASK != EXPONENT_MASK
}

/// A bit pattern carries a set sign bit (negative zero, a negative number,
/// negative infinity, or a not-a-number with the sign bit set).
pub open spec fn spec_is_sign_negative(bits: u64) -> bool {
    bits & SIGN_MASK != 0
}

/// The three disjoint classes an IEEE-754 double bit pattern falls in.
#[derive(Clone, Copy, Debug, PartialEq, Eq, Structural)]
pub enum ValueClass {
    /// A normal or subnormal number, or a zero.
    Finite,
    /// Positive or negative infinity.
    Infinite,
    /// A not-a-number pattern, quiet or signalling.
    NotANumber,
}

/// Decides whether a bit pattern encodes a not-a-number.
pub fn is_nan_bits(bits: u64) -> (r: bool)
    ensures
        r == spec_is_nan(bits),
{
    bits & EXPONENT_MASK == EXPONENT_MASK && bits & FRACTION_MASK != 0
}

/// Decides whether a bit pattern encodes positive or negative infinity.
pub fn is_infinite_bits(bits: u64) -> (r: bool)
    ensures
        r == spec_is_infinite(bits),
{
    bits & EXPONENT_MASK == EXPONENT_MASK && bits & FRACTION_MASK == 0
}

/// Decides whether a bit pattern encodes a finite number.
pub fn is_finite_bits(bits: u64) -> (r: bool)
    ensures
        r == spec_is_finite(bits),
{
    bits & EXPONENT_MASK != EXPONENT_MASK
}

/// Decides whether a bit pattern carries a set sign bit.
pub fn is_sign_negative_bits(bits: u64) -> (r: bool)
    ensures
        r == spec_is_sign_negative(bits),
{
    bits & SIGN_MASK != 0
}

/// Sorts a bit pattern into its class: finite, infinite or not-a-number.
pub fn classify_bits(bits: u64) -> (c: ValueClass)
    ensures
        c == ValueClass::Finite <==> spec_is_finite(bits),
        c == ValueClass::Infinite <==> spec_is_infinite(bits),
        c == ValueClass::NotANumber <==> spec_is_nan(bits),
{
    if bits & EXPONENT_MASK != EXPONENT_MASK {
        ValueClass::Finite
    } else if bits & FRACTION_MASK == 0 {
        ValueClass::Infinite
    } else {
        ValueClass::NotANumber
    }
}

/// Every bit pattern is exactly one of finite, infinite and not-a-number, so
/// detecting an invalid result through the IEEE-754 channel is unambiguous.
pub proof fn lemma_class_partition(bits: u64)
    ensures
        spec_is_finite(bits) || spec_is_infinite(bits) || spec_is_nan(bits),
        !(spec_is_finite(bits) && spec_is_infinite(bits)),
        !(spec_is_finite(bits) && spec_is_nan(bits)),
        !(spec_is_infinite(bits) && spec_is_nan(bits)),
{
}

} // verus!
