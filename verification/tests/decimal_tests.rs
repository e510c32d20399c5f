use bank_core::decimal::Amount;
use rust_decimal::Decimal;
use std::str::FromStr;

fn amount(text: &str) -> Amount {
    Amount::parse(text).unwrap()
}

#[test]
fn parse_reads_mantissa_sign_and_scale() {
    let a = amount("-12.345");
    assert_eq!(a.magnitude, 12345);
    assert!(a.negative);
    assert_eq!(a.scale, 3);
    let b = amount("100");
    assert_eq!((b.magnitude, b.negative, b.scale), (100, false, 0));
}

#[test]
fn parse_refuses_text_that_is_no_number() {
    assert!(Amount::parse("abc").is_none());
    assert!(Amount::parse("").is_none());
    assert!(Amount::parse("1.2.3").is_none());
}

#[test]
fn parse_error_text_is_the_decimal_crate_message() {
    let expected = Decimal::from_str("abc").unwrap_err().to_string();
    assert_eq!(Amount::parse_error_text("abc"), expected);
    assert!(!Amount::parse_error_text("abc").is_empty());
}

#[test]
fn to_text_keeps_the_scale() {
    assert_eq!(amount("100.50").to_text(), "100.50");
    assert_eq!(amount("-0.01").to_text(), "-0.01");
    assert_eq!(Amount::new(12345, 2).to_text(), "123.45");
    assert_eq!(Amount::zero().to_text(), "0");
}

#[test]
fn to_text_matches_decimal_display() {
    for s in ["0.00", "1", "-7.5", "123456789.123456789", "0.0001"] {
        assert_eq!(amount(s).to_text(), Decimal::from_str(s).unwrap().to_string());
    }
}

#[test]
fn checked_add_and_sub_are_exact() {
    assert_eq!(amount("100.00").checked_add(&amount("50")).unwrap().to_text(), "150.00");
    assert_eq!(amount("100.00").checked_sub(&amount("0.01")).unwrap().to_text(), "99.99");
    assert_eq!(amount("1").checked_sub(&amount("2.5")).unwrap().to_text(), "-1.5");
}

#[test]
fn checked_add_overflows_at_the_limit() {
    let max = Amount::from_parts(bank_core::decimal::MAX_MAGNITUDE, false, 0).unwrap();
    assert!(max.checked_add(&amount("1")).is_none());
    assert!(max.checked_add(&amount("0")).is_some());
}

#[test]
fn checked_mul_and_div() {
    assert_eq!(amount("2.5").checked_mul(&amount("4")).unwrap().to_text(), "10.0");
    assert_eq!(amount("0").checked_mul(&amount("4.25")).unwrap().to_text(), "0");
    assert_eq!(amount("10").checked_div(&amount("4")).unwrap().to_text(), "2.50");
    assert_eq!(amount("1").checked_div(&amount("8")).unwrap().to_text(), "0.125");
    assert!(amount("10").checked_div(&amount("0")).is_none());
}

#[test]
fn round_dp_rounds_half_to_even() {
    assert_eq!(amount("2.345").round_dp(2).to_text(), "2.34");
    assert_eq!(amount("2.355").round_dp(2).to_text(), "2.36");
    assert_eq!(amount("2.3451").round_dp(2).to_text(), "2.35");
    assert_eq!(amount("-2.345").round_dp(2).to_text(), "-2.34");
    assert_eq!(amount("5").round_dp(2).to_text(), "5");
    assert_eq!(amount("10.999").round_dp(2).to_text(), "11.00");
}

#[test]
fn less_than_compares_values_not_scales() {
    assert!(amount("0.5").less_than(&amount("0.75")));
    assert!(!amount("1.00").less_than(&amount("1")));
    assert!(amount("-3").less_than(&amount("-2.99")));
}

#[test]
fn from_i64_and_from_parts() {
    assert_eq!(Amount::from_i64(-42).to_text(), "-42");
    assert_eq!(Amount::from_i64(0).to_text(), "0");
    assert!(Amount::from_parts(1, false, 29).is_none());
    assert_eq!(Amount::from_parts(5, true, 1).unwrap().to_text(), "-0.5");
    assert!(Amount::zero().is_zero());
    assert!(!amount("0.01").is_zero());
}

#[test]
fn printed_amounts_parse_back_to_the_same_value() {
    for s in [
        "0", "0.00", "-0.5", "123.456", "79228162514264337593543950335", "7.9228162514264337593543950335",
        "-0.0000000000000000000000000001",
    ] {
        let a = amount(s);
        let back = Amount::parse(&a.to_text()).unwrap();
        assert!(!a.less_than(&back) && !back.less_than(&a), "{}", s);
        assert_eq!(back, a);
    }
}
