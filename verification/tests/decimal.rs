use person_service::decimal::{format_i32, parse_i32};

#[test]
fn parse_reads_plain_digits() {
    assert_eq!(parse_i32("0"), Some(0));
    assert_eq!(parse_i32("1"), Some(1));
    assert_eq!(parse_i32("26"), Some(26));
    assert_eq!(parse_i32("2147483647"), Some(i32::MAX));
}

#[test]
fn parse_reads_a_sign() {
    assert_eq!(parse_i32("+7"), Some(7));
    assert_eq!(parse_i32("-7"), Some(-7));
    assert_eq!(parse_i32("-0"), Some(0));
    assert_eq!(parse_i32("+0"), Some(0));
    assert_eq!(parse_i32("-2147483648"), Some(i32::MIN));
}

#[test]
fn parse_skips_leading_zeros() {
    assert_eq!(parse_i32("007"), Some(7));
    assert_eq!(parse_i32("-000000000000000000000000012"), Some(-12));
    assert_eq!(parse_i32("00000000000000000002147483647"), Some(i32::MAX));
}

#[test]
fn parse_refuses_text_without_digits() {
    assert_eq!(parse_i32(""), None);
    assert_eq!(parse_i32("+"), None);
    assert_eq!(parse_i32("-"), None);
    assert_eq!(parse_i32("abc"), None);
}

#[test]
fn parse_refuses_stray_characters() {
    assert_eq!(parse_i32(" 1"), None);
    assert_eq!(parse_i32("1 "), None);
    assert_eq!(parse_i32("1_000"), None);
    assert_eq!(parse_i32("12a"), None);
    assert_eq!(parse_i32("--1"), None);
    assert_eq!(parse_i32("+-1"), None);
    assert_eq!(parse_i32("1.0"), None);
    assert_eq!(parse_i32("0x10"), None);
}

#[test]
fn parse_refuses_characters_beyond_ascii() {
    assert_eq!(parse_i32("\u{661}"), None);
    assert_eq!(parse_i32("1\u{e9}"), None);
    assert_eq!(parse_i32("\u{ff11}\u{ff12}"), None);
}

#[test]
fn parse_refuses_values_out_of_range() {
    assert_eq!(parse_i32("2147483648"), None);
    assert_eq!(parse_i32("-2147483649"), None);
    assert_eq!(parse_i32("99999999999999999999"), None);
    assert_eq!(parse_i32("-99999999999999999999"), None);
    assert_eq!(parse_i32("21474836470"), None);
}

#[test]
fn parse_agrees_with_the_standard_parser() {
    let samples = [
        "", "0", "1", "2", "3", "-1", "+1", "+", "-", "42", "0042", "-0042", "2147483647",
        "2147483648", "-2147483648", "-2147483649", "4294967296", "abc", "1a", "a1", " 1", "1 ",
        "1\n", "\t1", "++1", "+-1", "-+1", "1-", "1+1", "1e3", "0b1", "٣", "1٣", "é", "/", ":",
        "9999999999", "-9999999999", "000", "-000", "+000",
    ];
    for s in samples {
        assert_eq!(parse_i32(s), s.parse::<i32>().ok(), "input {:?}", s);
    }
}

#[test]
fn format_writes_decimal_digits() {
    assert_eq!(format_i32(0), "0");
    assert_eq!(format_i32(7), "7");
    assert_eq!(format_i32(10), "10");
    assert_eq!(format_i32(26), "26");
    assert_eq!(format_i32(1000), "1000");
    assert_eq!(format_i32(i32::MAX), "2147483647");
}

#[test]
fn format_writes_a_minus_for_negative_numbers() {
    assert_eq!(format_i32(-1), "-1");
    assert_eq!(format_i32(-24), "-24");
    assert_eq!(format_i32(-100), "-100");
    assert_eq!(format_i32(i32::MIN), "-2147483648");
}

#[test]
fn format_agrees_with_the_standard_formatter() {
    let samples = [
        0, 1, 9, 10, 11, 99, 100, 101, 12345, 999999999, 1000000000, i32::MAX, -1, -9, -10, -99,
        -100, -12345, -1000000000, i32::MIN, i32::MIN + 1,
    ];
    for n in samples {
        assert_eq!(format_i32(n), format!("{}", n));
    }
}

#[test]
fn parse_reads_back_what_format_wrote() {
    let samples = [0, 1, -1, 26, 24, 1000, -1000, i32::MAX, i32::MIN, 2147483, -2147483];
    for n in samples {
        assert_eq!(parse_i32(&format_i32(n)), Some(n));
    }
}
