use bank_core::text::{padded_decimal, text_eq, text_less, unsigned_text};

#[test]
fn padded_decimal_pads_with_zeros() {
    assert_eq!(padded_decimal(42, 9), "000000042");
    assert_eq!(padded_decimal(0, 3), "000");
    assert_eq!(padded_decimal(123, 2), "23");
}

#[test]
fn unsigned_text_writes_the_number() {
    assert_eq!(unsigned_text(0), "0");
    assert_eq!(unsigned_text(36), "36");
    assert_eq!(unsigned_text(u64::MAX), "18446744073709551615");
}

#[test]
fn text_comparisons_follow_code_points() {
    assert!(text_eq("RUB", "RUB"));
    assert!(!text_eq("RUB", "rub"));
    assert!(text_less("DEP", "LOAN"));
    assert!(text_less("AB", "ABC"));
    assert!(!text_less("b", "a"));
    assert!(!text_less("x", "x"));
}
