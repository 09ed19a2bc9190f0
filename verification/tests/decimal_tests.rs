use github_issues_migrator::decimal::{format_i32, parse_i32, IntErrorKind};
use github_issues_migrator::text::text_equals;
use std::num::IntErrorKind as StdKind;

fn std_kind(s: &str) -> Result<i32, IntErrorKind> {
    match s.parse::<i32>() {
        Ok(n) => Ok(n),
        Err(e) => Err(match e.kind() {
            StdKind::Empty => IntErrorKind::Empty,
            StdKind::InvalidDigit => IntErrorKind::InvalidDigit,
            StdKind::PosOverflow => IntErrorKind::PosOverflow,
            StdKind::NegOverflow => IntErrorKind::NegOverflow,
            other => panic!("unexpected kind {:?}", other),
        }),
    }
}

#[test]
fn format_i32_writes_base_ten() {
    assert_eq!(format_i32(0), "0");
    assert_eq!(format_i32(7), "7");
    assert_eq!(format_i32(42), "42");
    assert_eq!(format_i32(-7), "-7");
    assert_eq!(format_i32(1000), "1000");
    assert_eq!(format_i32(i32::MAX), "2147483647");
    assert_eq!(format_i32(i32::MIN), "-2147483648");
}

#[test]
fn format_i32_agrees_with_to_string() {
    for n in [-1_000_001, -100, -10, -9, -1, 0, 1, 9, 10, 99, 100, 65_535, 1_234_567_890] {
        assert_eq!(format_i32(n), n.to_string());
    }
}

#[test]
fn parse_i32_reads_numbers() {
    assert_eq!(parse_i32("123"), Ok(123));
    assert_eq!(parse_i32("+5"), Ok(5));
    assert_eq!(parse_i32("-0"), Ok(0));
    assert_eq!(parse_i32("007"), Ok(7));
    assert_eq!(parse_i32("-2147483648"), Ok(i32::MIN));
    assert_eq!(parse_i32("2147483647"), Ok(i32::MAX));
}

#[test]
fn parse_i32_reports_each_error_kind() {
    assert_eq!(parse_i32(""), Err(IntErrorKind::Empty));
    assert_eq!(parse_i32("+"), Err(IntErrorKind::InvalidDigit));
    assert_eq!(parse_i32("-"), Err(IntErrorKind::InvalidDigit));
    assert_eq!(parse_i32("12a"), Err(IntErrorKind::InvalidDigit));
    assert_eq!(parse_i32(" 1"), Err(IntErrorKind::InvalidDigit));
    assert_eq!(parse_i32("+-1"), Err(IntErrorKind::InvalidDigit));
    assert_eq!(parse_i32("2147483648"), Err(IntErrorKind::PosOverflow));
    assert_eq!(parse_i32("-2147483649"), Err(IntErrorKind::NegOverflow));
    assert_eq!(parse_i32("99999999999x"), Err(IntErrorKind::PosOverflow));
    assert_eq!(parse_i32("-99999999999x"), Err(IntErrorKind::NegOverflow));
}

#[test]
fn parse_i32_agrees_with_std_parse() {
    for s in [
        "", "+", "-", "0", "-0", "+0", "1", "-1", "12a", "a12", "1 ", " 1", "+-1", "--1", "++1",
        "2147483647", "2147483648", "-2147483648", "-2147483649", "99999999999x", "0000000000000000001",
        "١", "12.5", "1e3",
    ] {
        assert_eq!(parse_i32(s), std_kind(s), "text {:?}", s);
    }
}

#[test]
fn parse_reads_back_formatted_numbers() {
    for n in [i32::MIN, i32::MIN + 1, -123_456, -10, -1, 0, 1, 10, 123_456, i32::MAX - 1, i32::MAX] {
        assert_eq!(parse_i32(&format_i32(n)), Ok(n));
    }
}

#[test]
fn text_equals_compares_characters() {
    assert!(text_equals("Estimate", "Estimate"));
    assert!(!text_equals("Estimate", "End Date"));
    assert!(!text_equals("Hours", "Hour"));
    assert!(text_equals("", ""));
    assert!(text_equals("Año", "Año"));
    assert!(!text_equals("Año", "Ano"));
}
