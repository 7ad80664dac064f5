//! The checked-arithmetic primitives and the integer square root.

use bonding_curve::errors::BondingCurveError;
use bonding_curve::math::{checked_add, checked_div, checked_mul, checked_sub, integer_sqrt};

#[test]
fn sqrt_of_zero_is_zero() {
    assert_eq!(integer_sqrt(0), 0);
}

#[test]
fn sqrt_of_small_values() {
    assert_eq!(integer_sqrt(1), 1);
    assert_eq!(integer_sqrt(2), 1);
    assert_eq!(integer_sqrt(3), 1);
    assert_eq!(integer_sqrt(4), 2);
    assert_eq!(integer_sqrt(8), 2);
    assert_eq!(integer_sqrt(9), 3);
    assert_eq!(integer_sqrt(99), 9);
    assert_eq!(integer_sqrt(100), 10);
}

#[test]
fn sqrt_of_exact_squares() {
    assert_eq!(integer_sqrt(2383 * 2383), 2383);
    assert_eq!(integer_sqrt(1 << 62), 1 << 31);
}

#[test]
fn sqrt_near_u64_max() {
    // floor(sqrt(2^64 - 1)) = 2^32 - 1, since (2^32)^2 is already 2^64.
    assert_eq!(integer_sqrt(u64::MAX), u32::MAX as u64);
    let root = u32::MAX as u64;
    assert_eq!(integer_sqrt(root * root), root);
    assert_eq!(integer_sqrt(root * root - 1), root - 1);
}

#[test]
fn sqrt_bounds_hold_on_samples() {
    for n in [0u64, 1, 2, 5, 17, 1_000_000, 5_680_000, u64::MAX / 2, u64::MAX] {
        let r = integer_sqrt(n);
        assert!(r as u128 * r as u128 <= n as u128);
        assert!((n as u128) < (r as u128 + 1) * (r as u128 + 1));
    }
}

#[test]
fn add_in_range_and_overflow() {
    assert_eq!(checked_add(2, 3), Ok(5));
    assert_eq!(checked_add(u64::MAX, 0), Ok(u64::MAX));
    assert_eq!(
        checked_add(u64::MAX, 1),
        Err(BondingCurveError::ArithmeticOverflow)
    );
}

#[test]
fn mul_in_range_and_overflow() {
    assert_eq!(checked_mul(6, 7), Ok(42));
    assert_eq!(checked_mul(u64::MAX, 1), Ok(u64::MAX));
    assert_eq!(
        checked_mul(u64::MAX, 2),
        Err(BondingCurveError::ArithmeticOverflow)
    );
}

#[test]
fn sub_in_range_and_underflow() {
    assert_eq!(checked_sub(7, 5), Ok(2));
    assert_eq!(checked_sub(5, 5), Ok(0));
    assert_eq!(
        checked_sub(5, 7),
        Err(BondingCurveError::ArithmeticUnderflow)
    );
}

#[test]
fn div_floors_and_rejects_zero() {
    assert_eq!(checked_div(7, 2), Ok(3));
    assert_eq!(checked_div(0, 9), Ok(0));
    assert_eq!(checked_div(1, 0), Err(BondingCurveError::DivideByZero));
}
