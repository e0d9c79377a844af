use std::cmp::Ordering;

use mpfr::{digit_base, numeral_radix, numeral_status, ordering_from_engine, sign_from_engine, ParseError, Sign};

#[test]
fn sign_from_int() {
    assert_eq!(Sign::Negative, Sign::from_int(-5));
    assert_eq!(Sign::Negative, Sign::from_int(i64::MIN));
    assert_eq!(Sign::Zero, Sign::from_int(0));
    assert_eq!(Sign::Positive, Sign::from_int(1));
    assert_eq!(Sign::Positive, Sign::from_int(i64::MAX));
}

#[test]
fn sign_to_int() {
    assert_eq!(-1, Sign::Negative.to_int());
    assert_eq!(0, Sign::Zero.to_int());
    assert_eq!(1, Sign::Positive.to_int());
}

#[test]
fn sign_of_engine_answers() {
    assert_eq!(Some(Sign::Negative), sign_from_engine(-3, false));
    assert_eq!(Some(Sign::Negative), sign_from_engine(-3, true));
    assert_eq!(Some(Sign::Positive), sign_from_engine(2, true));
    assert_eq!(Some(Sign::Zero), sign_from_engine(0, false));
    assert_eq!(None, sign_from_engine(0, true));
}

#[test]
fn ordering_of_engine_answers() {
    assert_eq!(Some(Ordering::Less), ordering_from_engine(-1, false));
    assert_eq!(Some(Ordering::Greater), ordering_from_engine(7, true));
    assert_eq!(Some(Ordering::Equal), ordering_from_engine(0, false));
    assert_eq!(None, ordering_from_engine(0, true));
}

#[test]
fn numeral_radixes() {
    assert_eq!(Ok(0), numeral_radix(0));
    assert_eq!(Ok(2), numeral_radix(2));
    assert_eq!(Ok(10), numeral_radix(10));
    assert_eq!(Ok(62), numeral_radix(62));
    assert_eq!(Err(ParseError::UnsupportedRadix), numeral_radix(1));
    assert_eq!(Err(ParseError::UnsupportedRadix), numeral_radix(63));
    assert_eq!(Err(ParseError::UnsupportedRadix), numeral_radix(usize::MAX));
}

#[test]
fn numeral_statuses() {
    assert_eq!(Ok(()), numeral_status(0));
    assert_eq!(Err(ParseError::InvalidNumeral), numeral_status(-1));
    assert_eq!(Err(ParseError::InvalidNumeral), numeral_status(1));
}

#[test]
fn digit_bases() {
    assert_eq!(None, digit_base(0));
    assert_eq!(None, digit_base(1));
    assert_eq!(Some(2), digit_base(2));
    assert_eq!(Some(10), digit_base(10));
    assert_eq!(Some(62), digit_base(62));
    assert_eq!(None, digit_base(63));
}
