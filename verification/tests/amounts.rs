use art_spot::error::{DecimalNumberParsingError, YoctoNearError};
use art_spot::text::{decimal, padded};
use art_spot::yocto_near::YoctoNear;

const ONE_NEAR: u128 = YoctoNear::ONE_NEAR;
const ONE_MILLINEAR: u128 = YoctoNear::ONE_MILLINEAR;

#[test]
fn units() {
    assert_eq!(ONE_NEAR, 10u128.pow(24));
    assert_eq!(ONE_MILLINEAR, 10u128.pow(21));
    assert_eq!(YoctoNear::new(7).as_yoctonear(), 7);
    assert_eq!(YoctoNear::from_near(3), YoctoNear::new(3 * ONE_NEAR));
    assert_eq!(YoctoNear::from_near(0), YoctoNear::new(0));
    assert_eq!(YoctoNear::from_near(u128::MAX / ONE_NEAR).as_near(), u128::MAX / ONE_NEAR);
    assert_eq!(YoctoNear::from_millinear(1500), YoctoNear::new(1500 * ONE_MILLINEAR));
    assert_eq!(YoctoNear::new(2 * ONE_NEAR + 999).as_near(), 2);
    assert_eq!(YoctoNear::new(ONE_NEAR - 1).as_near(), 0);
    assert_eq!(YoctoNear::new(2 * ONE_NEAR + 999).as_millinear(), 2000);
    assert_eq!(YoctoNear::new(ONE_MILLINEAR - 1).as_millinear(), 0);
    assert_eq!(YoctoNear::default(), YoctoNear::new(0));
    assert!(YoctoNear::new(0).is_zero());
    assert!(!YoctoNear::new(1).is_zero());
    assert!(YoctoNear::new(1).is_some());
    assert!(!YoctoNear::new(0).is_some());
    assert!(YoctoNear::new(1) < YoctoNear::new(2));
    assert_eq!(u128::from(YoctoNear::new(9)), 9);
    assert_eq!(YoctoNear::from(9u128), YoctoNear::new(9));
}

#[test]
fn arithmetic_is_held_in_range() {
    let max = YoctoNear::new(u128::MAX);
    let five = YoctoNear::new(5);
    let three = YoctoNear::new(3);
    assert_eq!(five.saturating_add(three), YoctoNear::new(8));
    assert_eq!(max.saturating_add(three), max);
    assert_eq!(five.saturating_sub(three), YoctoNear::new(2));
    assert_eq!(three.saturating_sub(five), YoctoNear::new(0));
    assert_eq!(five.saturating_mul(3), YoctoNear::new(15));
    assert_eq!(max.saturating_mul(2), max);
    assert_eq!(five.saturating_mul(0), YoctoNear::new(0));
    assert_eq!(five.saturating_div(3), YoctoNear::new(1));
    assert_eq!(max.saturating_div(1), max);

    assert_eq!(five.checked_add(three), Some(YoctoNear::new(8)));
    assert_eq!(max.checked_add(YoctoNear::new(0)), Some(max));
    assert_eq!(max.checked_add(YoctoNear::new(1)), None);
    assert_eq!(five.checked_sub(three), Some(YoctoNear::new(2)));
    assert_eq!(five.checked_sub(five), Some(YoctoNear::new(0)));
    assert_eq!(three.checked_sub(five), None);
    assert_eq!(five.checked_mul(3), Some(YoctoNear::new(15)));
    assert_eq!(max.checked_mul(1), Some(max));
    assert_eq!(max.checked_mul(2), None);
    assert_eq!(five.checked_div(3), Some(YoctoNear::new(1)));
    assert_eq!(five.checked_div(0), None);

    assert_eq!(five + three, YoctoNear::new(8));
    assert_eq!(max + three, max);
    assert_eq!(three - five, YoctoNear::new(0));
    assert_eq!(five - three, YoctoNear::new(2));
    assert_eq!(five * 3, YoctoNear::new(15));
    assert_eq!(max * 3, max);
    assert_eq!(five / 2, YoctoNear::new(2));
}

#[test]
fn amounts_as_text() {
    assert_eq!(YoctoNear::new(0).to_string(), "0");
    assert_eq!(YoctoNear::new(1234567890).to_string(), "1234567890");
    assert_eq!(YoctoNear::new(u128::MAX).to_string(), u128::MAX.to_string());
    assert_eq!(YoctoNear::new(42).to_yocto_string(), "42 YoctoNEAR");
    assert_eq!(YoctoNear::new(42).to_near_string(), "0 NEAR");
    assert_eq!(YoctoNear::new(42 * ONE_NEAR + 1).to_near_string(), "42 NEAR");
}

#[test]
fn amounts_for_a_reader_are_rounded_up() {
    let show = |amount: u128| YoctoNear::new(amount).display();
    assert_eq!(show(0), "0 NEAR");
    assert_eq!(show(1), "<0.001 NEAR");
    assert_eq!(show(ONE_MILLINEAR - 1), "<0.001 NEAR");
    assert_eq!(show(ONE_MILLINEAR), "0.001 NEAR");
    assert_eq!(show(ONE_MILLINEAR + 1), "0.002 NEAR");
    assert_eq!(show(25 * ONE_MILLINEAR), "0.025 NEAR");
    assert_eq!(show(998 * ONE_MILLINEAR + 1), "0.999 NEAR");
    assert_eq!(show(999 * ONE_MILLINEAR), "0.999 NEAR");
    assert_eq!(show(999 * ONE_MILLINEAR + 1), "1.00 NEAR");
    assert_eq!(show(ONE_NEAR), "1.00 NEAR");
    assert_eq!(show(ONE_NEAR + 1), "1.01 NEAR");
    assert_eq!(show(1_050 * ONE_MILLINEAR), "1.05 NEAR");
    assert_eq!(show(12_345 * ONE_MILLINEAR), "12.35 NEAR");
    assert_eq!(show(12_340 * ONE_MILLINEAR), "12.34 NEAR");
    assert_eq!(show(10_000 * ONE_NEAR), "10000.00 NEAR");
    // At the top of the range nothing can be added to round up.
    assert_eq!(show(u128::MAX), "340282366920938.46 NEAR");
    assert_eq!(show(u128::MAX - 10 * ONE_MILLINEAR), "340282366920938.46 NEAR");
    assert_eq!(show(340282366920938_450 * ONE_MILLINEAR + 1), "340282366920938.46 NEAR");
}

#[test]
fn numbers_as_text() {
    assert_eq!(decimal(0), "0");
    assert_eq!(decimal(9), "9");
    assert_eq!(decimal(10), "10");
    assert_eq!(decimal(1234567890123456789012345678901234567), "1234567890123456789012345678901234567");
    assert_eq!(decimal(u128::MAX), "340282366920938463463374607431768211455");
    assert_eq!(padded(5, 3), "005");
    assert_eq!(padded(0, 2), "00");
    assert_eq!(padded(45, 2), "45");
    assert_eq!(padded(123, 2), "123");
    assert_eq!(padded(7, 0), "7");
}

#[test]
fn errors_of_amounts() {
    let number = DecimalNumberParsingError::InvalidNumber("1x".to_string());
    assert_eq!(number.to_string(), "invalid number: 1x");
    assert_eq!(
        DecimalNumberParsingError::LongWhole("99".to_string()).to_string(),
        "too long whole part: 99"
    );
    assert_eq!(
        DecimalNumberParsingError::LongFractional("001".to_string()).to_string(),
        "too long fractional part: 001"
    );
    let amount = YoctoNearError::InvalidTokensAmount(number);
    assert_eq!(amount.to_string(), "invalid tokens amount: invalid number: 1x");
    assert!(matches!(amount.source(), Some(DecimalNumberParsingError::InvalidNumber(s)) if s == "1x"));
    let unit = YoctoNearError::InvalidTokenUnit("5 EUR".to_string());
    assert_eq!(unit.to_string(), "invalid token unit: 5 EUR");
    assert!(unit.source().is_none());
}
