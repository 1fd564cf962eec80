use numeric::{abs, cb, sign, sq, zero};
use numeric::{IsMinusOne, IsOne, IsZero, OptionExt};

#[test]
fn zero_values() {
    assert_eq!(zero::<u32>(), 0);
    assert_eq!(zero::<i8>(), 0);
    assert_eq!(zero::<usize>(), 0);
    assert_eq!(zero::<(u8, i16)>(), (0, 0));
}

#[test]
fn is_zero_detects_zero_only() {
    assert!(0u32.is_zero());
    assert!(!5u32.is_zero());
    assert!(0i16.is_zero());
    assert!(!(-1i16).is_zero());
}

#[test]
fn unwrap_or_zero_falls_back_to_zero() {
    assert_eq!(Some(3u32).unwrap_or_zero(), 3);
    assert_eq!(None::<u32>.unwrap_or_zero(), 0);
    assert_eq!(Some(-4i8).unwrap_or_zero(), -4);
    assert_eq!(None::<i8>.unwrap_or_zero(), 0);
}

#[test]
fn is_one_detects_one_only() {
    assert!(1u8.is_one());
    assert!(!2u8.is_one());
    assert!(1i8.is_one());
    assert!(!(-1i8).is_one());
}

#[test]
fn is_minus_one_detects_minus_one_only() {
    assert!((-1i8).is_minus_one());
    assert!(!0i8.is_minus_one());
    assert!(!1i8.is_minus_one());
    assert!(!7u8.is_minus_one());
    assert!(!255u8.is_minus_one());
}

#[test]
fn sign_of_signed_values() {
    assert_eq!(sign(-5i32), -1);
    assert_eq!(sign(5i32), 1);
    assert_eq!(sign(0i32), 0);
    assert_eq!(sign(-3i16), -1);
    assert_eq!(sign(3i16), 1);
}

#[test]
fn abs_of_signed_values() {
    assert_eq!(abs(-5i32), 5);
    assert_eq!(abs(5i32), 5);
    assert_eq!(abs(0i32), 0);
    assert_eq!(abs(-7i16), 7);
    assert_eq!(abs(i32::MIN + 1), i32::MAX);
}

#[test]
fn small_powers() {
    assert_eq!(sq(6), 36);
    assert_eq!(sq(0), 0);
    assert_eq!(sq(65535), 4294836225);
    assert_eq!(cb(3), 27);
    assert_eq!(cb(0), 0);
    assert_eq!(cb(1625), 4291015625);
}
