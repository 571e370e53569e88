//! Classification of raw IEEE-754 double bit patterns: the proved detector
//! for the double-precision surface around the library.

use ballistics::{
    classify_bits, is_finite_bits, is_infinite_bits, is_nan_bits, is_sign_negative_bits,
    ValueClass,
};

#[test]
fn nan_patterns_are_recognized() {
    assert!(is_nan_bits(f64::NAN.to_bits()));
    assert!(is_nan_bits((0.0f64 / 0.0f64).to_bits()));
    assert!(!is_nan_bits(1.0f64.to_bits()));
    assert!(!is_nan_bits(f64::INFINITY.to_bits()));
}

#[test]
fn infinite_patterns_are_recognized() {
    assert!(is_infinite_bits(f64::INFINITY.to_bits()));
    assert!(is_infinite_bits(f64::NEG_INFINITY.to_bits()));
    assert!(is_infinite_bits((1.0f64 / 0.0f64).to_bits()));
    assert!(!is_infinite_bits(f64::NAN.to_bits()));
    assert!(!is_infinite_bits(f64::MAX.to_bits()));
}

#[test]
fn finite_patterns_are_recognized() {
    for v in [0.0f64, -0.0, 1.0, -1.0, 5e-324, f64::MAX, f64::MIN] {
        assert!(is_finite_bits(v.to_bits()));
    }
    assert!(!is_finite_bits(f64::INFINITY.to_bits()));
    assert!(!is_finite_bits(f64::NAN.to_bits()));
}

#[test]
fn sign_bit_is_read_from_the_pattern() {
    assert!(is_sign_negative_bits((-1.0f64).to_bits()));
    assert!(is_sign_negative_bits((-0.0f64).to_bits()));
    assert!(is_sign_negative_bits(f64::NEG_INFINITY.to_bits()));
    assert!(!is_sign_negative_bits(0.0f64.to_bits()));
    assert!(!is_sign_negative_bits(f64::INFINITY.to_bits()));
}

#[test]
fn classify_sorts_each_pattern_into_its_class() {
    assert_eq!(classify_bits(2608.7f64.to_bits()), ValueClass::Finite);
    assert_eq!(classify_bits((-0.0f64).to_bits()), ValueClass::Finite);
    assert_eq!(classify_bits(f64::INFINITY.to_bits()), ValueClass::Infinite);
    assert_eq!(classify_bits(f64::NEG_INFINITY.to_bits()), ValueClass::Infinite);
    assert_eq!(classify_bits(f64::NAN.to_bits()), ValueClass::NotANumber);
}

#[test]
fn degenerate_double_arithmetic_is_detected() {
    // The outcomes the double-precision formulas produce on degenerate
    // inputs: a signed infinity from a division by zero, a not-a-number
    // from a square root of a negative operand.
    let by_zero = 171.89f64 * (0.06f64 / 0.0f64);
    assert!(is_infinite_bits(by_zero.to_bits()));
    assert!(!is_sign_negative_bits(by_zero.to_bits()));
    let negative_root = 2800.0f64 * (-150.0f64 / 150.0f64).sqrt();
    assert_eq!(classify_bits(negative_root.to_bits()), ValueClass::NotANumber);
}
