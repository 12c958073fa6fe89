use jormungandr::decimal::{parse_decimal, to_decimal};

#[test]
fn numbers_are_written_without_leading_zeros() {
    assert_eq!(to_decimal(0), "0");
    assert_eq!(to_decimal(7), "7");
    assert_eq!(to_decimal(10), "10");
    assert_eq!(to_decimal(1024), "1024");
    assert_eq!(to_decimal(4294967295), "4294967295");
    assert_eq!(to_decimal(u64::MAX), "18446744073709551615");
}

#[test]
fn written_numbers_agree_with_std() {
    for n in [0u64, 1, 9, 10, 11, 99, 100, 101, 12345, 1 << 32, u64::MAX - 1, u64::MAX] {
        assert_eq!(to_decimal(n), n.to_string());
        assert_eq!(parse_decimal(&n.to_string(), u64::MAX), Some(n));
    }
}

#[test]
fn numbers_are_read() {
    assert_eq!(parse_decimal("0", u64::MAX), Some(0));
    assert_eq!(parse_decimal("42", u64::MAX), Some(42));
    assert_eq!(parse_decimal("+42", u64::MAX), Some(42));
    assert_eq!(parse_decimal("007", u64::MAX), Some(7));
    assert_eq!(parse_decimal("18446744073709551615", u64::MAX), Some(u64::MAX));
    assert_eq!(parse_decimal("4294967295", 4294967295), Some(4294967295));
}

#[test]
fn what_is_no_number_is_refused() {
    for text in ["", "+", "-1", "1 ", " 1", "1_000", "0x10", "12a", "a12", "1.5", "++1", "1+", "٣"]
    {
        assert_eq!(parse_decimal(text, u64::MAX), None, "{:?}", text);
        assert!(text.parse::<u64>().is_err(), "{:?}", text);
    }
}

#[test]
fn numbers_above_the_bound_are_refused() {
    assert_eq!(parse_decimal("18446744073709551616", u64::MAX), None);
    assert_eq!(parse_decimal("99999999999999999999999999", u64::MAX), None);
    assert_eq!(parse_decimal("4294967296", 4294967295), None);
    assert_eq!(parse_decimal("4294967295", 4294967294), None);
    assert_eq!(parse_decimal("1", 0), None);
    assert_eq!(parse_decimal("0", 0), Some(0));
    assert_eq!(parse_decimal("10", 9), None);
    assert_eq!(parse_decimal("9", 9), Some(9));
}

#[test]
fn reading_agrees_with_std() {
    for text in ["0", "00", "+0", "1", "+1", "000123", "4294967295", "4294967296", "-0", "+-1"] {
        assert_eq!(parse_decimal(text, u32::MAX as u64), text.parse::<u32>().ok().map(u64::from));
        assert_eq!(parse_decimal(text, u64::MAX), text.parse::<u64>().ok());
    }
}
