//! Amounts: construction, comparison, and sums that are exact or refused.

use payments_engine::types::amount::{Amount, MAX_MANTISSA, MAX_SCALE};

#[test]
fn new_keeps_mantissa_and_scale() {
    let a = Amount::new(-12345, 3);
    assert_eq!(a.mantissa(), -12345);
    assert_eq!(a.scale(), 3);
}

#[test]
fn zero_is_zero_without_digits() {
    let z = Amount::zero();
    assert_eq!(z.mantissa(), 0);
    assert_eq!(z.scale(), 0);
    assert_eq!(z, Amount::new(0, 4));
}

#[test]
fn try_from_i128_accepts_the_whole_range() {
    let top = Amount::try_from_i128_with_scale(MAX_MANTISSA, MAX_SCALE).unwrap();
    assert_eq!(top.mantissa(), 79_228_162_514_264_337_593_543_950_335);
    assert_eq!(top.scale(), 28);
    let bottom = Amount::try_from_i128_with_scale(-MAX_MANTISSA, 0).unwrap();
    assert_eq!(bottom.mantissa(), -79_228_162_514_264_337_593_543_950_335);
}

#[test]
fn try_from_i128_refuses_what_does_not_fit() {
    assert!(Amount::try_from_i128_with_scale(MAX_MANTISSA + 1, 0).is_none());
    assert!(Amount::try_from_i128_with_scale(-MAX_MANTISSA - 1, 0).is_none());
    assert!(Amount::try_from_i128_with_scale(1, 29).is_none());
    assert!(Amount::try_from_i128_with_scale(i128::MIN, 0).is_none());
}

#[test]
fn equality_is_by_number_not_by_scale() {
    assert_eq!(Amount::new(1, 0), Amount::new(10, 1));
    assert_eq!(Amount::new(-2500, 3), Amount::new(-25, 1));
    assert_eq!(Amount::new(0, 0), Amount::new(0, 28));
    assert_ne!(Amount::new(1, 0), Amount::new(1, 1));
    assert_ne!(Amount::new(5, 1), Amount::new(-5, 1));
    assert_ne!(Amount::new(1, 0), Amount::new(10_000_000_000_001, 13));
}

#[test]
fn lt_orders_by_number() {
    assert!(Amount::new(99, 1).lt(Amount::new(10, 0)));
    assert!(!Amount::new(10, 0).lt(Amount::new(99, 1)));
    assert!(!Amount::new(10, 0).lt(Amount::new(100, 1)));
    assert!(Amount::new(-1, 0).lt(Amount::new(0, 5)));
    assert!(Amount::new(-15, 1).lt(Amount::new(-1, 0)));
    assert!(!Amount::new(-1, 0).lt(Amount::new(-15, 1)));
    assert!(Amount::new(-5, 1).lt(Amount::new(5, 1)));
    assert!(Amount::new(1, 28).lt(Amount::new(1, 27)));
    let top = Amount::try_from_i128_with_scale(MAX_MANTISSA, 0).unwrap();
    assert!(Amount::new(1, 28).lt(top));
    assert!(!top.lt(top));
}

#[test]
fn checked_add_aligns_scales() {
    let sum = Amount::new(15, 1).checked_add(Amount::new(225, 2)).unwrap();
    assert_eq!(sum, Amount::new(375, 2));
    assert_eq!(sum.mantissa(), 375);
    assert_eq!(sum.scale(), 2);
}

#[test]
fn checked_add_of_opposite_signs() {
    let sum = Amount::new(-20075, 2).checked_add(Amount::new(5, 0)).unwrap();
    assert_eq!(sum, Amount::new(-19575, 2));
}

#[test]
fn checked_sub_aligns_scales() {
    let difference = Amount::new(200075, 2).checked_sub(Amount::new(5000, 1)).unwrap();
    assert_eq!(difference, Amount::new(150075, 2));
    assert_eq!(difference.mantissa(), 150075);
    assert_eq!(difference.scale(), 2);
}

#[test]
fn checked_sub_below_zero() {
    let difference = Amount::new(0, 0).checked_sub(Amount::new(100, 1)).unwrap();
    assert_eq!(difference, Amount::new(-10, 0));
}

#[test]
fn checked_sub_to_zero_keeps_the_scale() {
    let difference = Amount::new(200, 1).checked_sub(Amount::new(200, 1)).unwrap();
    assert_eq!(difference.mantissa(), 0);
    assert_eq!(difference.scale(), 1);
}

#[test]
fn checked_add_refuses_overflow() {
    let top = Amount::try_from_i128_with_scale(MAX_MANTISSA, 0).unwrap();
    assert!(top.checked_add(Amount::new(1, 0)).is_none());
    assert!(top.checked_add(top).is_none());
}

#[test]
fn checked_sub_refuses_overflow() {
    let bottom = Amount::try_from_i128_with_scale(-MAX_MANTISSA, 0).unwrap();
    assert!(bottom.checked_sub(Amount::new(1, 0)).is_none());
}

#[test]
fn checked_add_refuses_a_rounded_sum() {
    // 7922816251426433759354395033 + 0.55 needs more than 96 bits at scale 2
    let large = Amount::try_from_i128_with_scale(7_922_816_251_426_433_759_354_395_033, 0).unwrap();
    assert!(large.checked_add(Amount::new(55, 2)).is_none());
    assert!(large.checked_sub(Amount::new(55, 2)).is_none());
}

#[test]
fn checked_add_reaches_the_largest_amount() {
    let almost = Amount::try_from_i128_with_scale(MAX_MANTISSA - 1, 0).unwrap();
    let top = almost.checked_add(Amount::new(1, 0)).unwrap();
    assert_eq!(top.mantissa(), MAX_MANTISSA);
}

#[test]
fn is_sum_of_checks_the_number() {
    let a = Amount::new(15, 1);
    let b = Amount::new(225, 2);
    assert!(Amount::new(375, 2).is_sum_of(a, b));
    assert!(Amount::new(37500, 4).is_sum_of(a, b));
    assert!(!Amount::new(374, 2).is_sum_of(a, b));
    assert!(!a.is_sum_of(a, b));
    assert!(Amount::new(-5, 1).is_sum_of(Amount::new(-1, 0), Amount::new(5, 1)));
}

#[test]
fn is_sum_of_carries_between_whole_and_fraction() {
    // 0.6 + 0.7 = 1.3 and -0.6 - 0.7 = -1.3
    assert!(Amount::new(13, 1).is_sum_of(Amount::new(6, 1), Amount::new(7, 1)));
    assert!(Amount::new(-13, 1).is_sum_of(Amount::new(-6, 1), Amount::new(-7, 1)));
    // 1.3 - 0.7 = 0.6
    assert!(Amount::new(6, 1).is_sum_of(Amount::new(13, 1), Amount::new(-7, 1)));
    assert!(!Amount::new(3, 1).is_sum_of(Amount::new(6, 1), Amount::new(7, 1)));
}

#[test]
fn is_sum_of_at_the_ends_of_the_range() {
    let top = Amount::try_from_i128_with_scale(MAX_MANTISSA, 0).unwrap();
    let bottom = Amount::try_from_i128_with_scale(-MAX_MANTISSA, 0).unwrap();
    assert!(Amount::zero().is_sum_of(top, bottom));
    assert!(!top.is_sum_of(top, top));
    assert!(!bottom.is_sum_of(top, top));
    let tiny = Amount::new(1, 28);
    assert!(!top.is_sum_of(top, tiny));
    assert!(top.is_sum_of(top, Amount::new(0, 28)));
}

#[test]
fn is_difference_of_checks_the_number() {
    let a = Amount::new(200075, 2);
    let b = Amount::new(5000, 1);
    assert!(Amount::new(150075, 2).is_difference_of(a, b));
    assert!(!Amount::new(150075, 2).is_difference_of(b, a));
    assert!(Amount::new(-150075, 2).is_difference_of(b, a));
}

#[test]
fn accept_sum_takes_only_the_exact_sum() {
    let a = Amount::new(1, 0);
    let b = Amount::new(2, 0);
    assert_eq!(Amount::accept_sum(Some(Amount::new(30, 1)), a, b), Some(Amount::new(3, 0)));
    assert_eq!(Amount::accept_sum(Some(Amount::new(31, 1)), a, b), None);
    assert_eq!(Amount::accept_sum(None, a, b), None);
}

#[test]
fn accept_difference_takes_only_the_exact_difference() {
    let a = Amount::new(1, 0);
    let b = Amount::new(2, 0);
    assert_eq!(Amount::accept_difference(Some(Amount::new(-1, 0)), a, b), Some(Amount::new(-10, 1)));
    assert_eq!(Amount::accept_difference(Some(Amount::new(1, 0)), a, b), None);
    assert_eq!(Amount::accept_difference(None, a, b), None);
}
