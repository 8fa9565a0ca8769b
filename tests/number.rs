use scieldas::{decimal_string, readable_number};

#[test]
fn test_readable_number() {
    assert_eq!(readable_number(12), "12");
    assert_eq!(readable_number(123), "123");
    assert_eq!(readable_number(1234), "1k");
    assert_eq!(readable_number(12_345), "12k");
    assert_eq!(readable_number(123_456), "123k");
    assert_eq!(readable_number(1_234_567), "1m");
    assert_eq!(readable_number(12_345_678), "12m");
    assert_eq!(readable_number(123_456_789), "123m");
    assert_eq!(readable_number(1_234_567_891), "1bn");
    assert_eq!(readable_number(-12), "-12");
    assert_eq!(readable_number(-123), "-123");
    assert_eq!(readable_number(-1234), "-1k");
    assert_eq!(readable_number(-12_345), "-12k");
    assert_eq!(readable_number(-123_456), "-123k");
    assert_eq!(readable_number(-1_234_567), "-1m");
    assert_eq!(readable_number(-12_345_678), "-12m");
    assert_eq!(readable_number(-123_456_789), "-123m");
    assert_eq!(readable_number(-1_234_567_891), "-1bn");
}

#[test]
fn readable_number_boundaries() {
    assert_eq!(readable_number(0), "0");
    assert_eq!(readable_number(999), "999");
    assert_eq!(readable_number(1000), "1k");
    assert_eq!(readable_number(999_999), "999k");
    assert_eq!(readable_number(1_000_000), "1m");
    assert_eq!(readable_number(999_999_999), "999m");
    assert_eq!(readable_number(1_000_000_000), "1bn");
}

#[test]
fn readable_number_stays_in_billions() {
    assert_eq!(readable_number(1_000_000_000_000), "1000bn");
    assert_eq!(readable_number(i64::MAX), "9223372036bn");
    assert_eq!(readable_number(i64::MIN), "-9223372036bn");
}

#[test]
fn decimal_string_digits() {
    assert_eq!(decimal_string(0), "0");
    assert_eq!(decimal_string(7), "7");
    assert_eq!(decimal_string(1070), "1070");
    assert_eq!(decimal_string(u128::MAX), u128::MAX.to_string());
}
