use uptitle::text::{decimal, parse_decimal};

#[test]
fn decimal_writes_numerals() {
    assert_eq!(decimal(0), "0");
    assert_eq!(decimal(7), "7");
    assert_eq!(decimal(10), "10");
    assert_eq!(decimal(42), "42");
    assert_eq!(decimal(1005), "1005");
    assert_eq!(decimal(-1), "-1");
    assert_eq!(decimal(-120), "-120");
    assert_eq!(decimal(i32::MAX), "2147483647");
    assert_eq!(decimal(i32::MIN), "-2147483648");
}

#[test]
fn decimal_agrees_with_the_standard_library() {
    for n in [0, 1, -1, 9, 10, 11, 99, 100, 101, 65535, -65536, i32::MAX, i32::MIN, 123456789] {
        assert_eq!(decimal(n), n.to_string());
    }
}

#[test]
fn parse_decimal_reads_numerals() {
    assert_eq!(parse_decimal("0"), Some(0));
    assert_eq!(parse_decimal("17"), Some(17));
    assert_eq!(parse_decimal("-17"), Some(-17));
    assert_eq!(parse_decimal("+17"), Some(17));
    assert_eq!(parse_decimal("007"), Some(7));
    assert_eq!(parse_decimal("-0"), Some(0));
    assert_eq!(parse_decimal("2147483647"), Some(i32::MAX));
    assert_eq!(parse_decimal("-2147483648"), Some(i32::MIN));
    assert_eq!(parse_decimal("0000000000000000000000012"), Some(12));
}

#[test]
fn parse_decimal_refuses_what_is_no_numeral() {
    assert_eq!(parse_decimal(""), None);
    assert_eq!(parse_decimal("-"), None);
    assert_eq!(parse_decimal("+"), None);
    assert_eq!(parse_decimal(" 1"), None);
    assert_eq!(parse_decimal("1 "), None);
    assert_eq!(parse_decimal("1a"), None);
    assert_eq!(parse_decimal("a1"), None);
    assert_eq!(parse_decimal("--1"), None);
    assert_eq!(parse_decimal("1-"), None);
    assert_eq!(parse_decimal("1.0"), None);
    assert_eq!(parse_decimal("١٢"), None);
}

#[test]
fn parse_decimal_refuses_what_does_not_fit() {
    assert_eq!(parse_decimal("2147483648"), None);
    assert_eq!(parse_decimal("-2147483649"), None);
    assert_eq!(parse_decimal("99999999999999999999999999"), None);
    assert_eq!(parse_decimal("-99999999999999999999999999"), None);
}

#[test]
fn parse_decimal_agrees_with_the_standard_library() {
    for text in ["0", "-0", "+0", "12", "+12", "-12", "", "-", "+", "x", "1x", "2147483647",
        "2147483648", "-2147483648", "-2147483649", "00", "0x10", "1e3", "+-1"] {
        assert_eq!(parse_decimal(text), text.parse::<i32>().ok(), "{:?}", text);
    }
}

#[test]
fn what_is_written_is_read_back() {
    for n in [0, 1, -1, 10, -10, 999, i32::MAX, i32::MIN] {
        assert_eq!(parse_decimal(&decimal(n)), Some(n));
    }
}
