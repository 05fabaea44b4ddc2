use listenbrainz::text::{
    bool_text, eq_ignore_ascii_case, i64_text, parse_i64, parse_u64, to_ascii_lower, u64_text,
};

#[test]
fn unsigned_numbers_as_text() {
    assert_eq!(u64_text(0), "0");
    assert_eq!(u64_text(7), "7");
    assert_eq!(u64_text(10), "10");
    assert_eq!(u64_text(900), "900");
    assert_eq!(u64_text(1700000000), "1700000000");
    assert_eq!(u64_text(u64::MAX), "18446744073709551615");
}

#[test]
fn signed_numbers_as_text() {
    assert_eq!(i64_text(0), "0");
    assert_eq!(i64_text(-1), "-1");
    assert_eq!(i64_text(42), "42");
    assert_eq!(i64_text(i64::MAX), "9223372036854775807");
    assert_eq!(i64_text(i64::MIN), "-9223372036854775808");
}

#[test]
fn numbers_as_text_agree_with_the_standard_library() {
    for n in [0u64, 1, 9, 10, 11, 99, 100, 101, 12345678901234567890, u64::MAX - 1, u64::MAX] {
        assert_eq!(u64_text(n), n.to_string());
    }
    for n in [0i64, 1, -1, 9, -9, 10, -10, 1234567890123456789, i64::MIN, i64::MIN + 1, i64::MAX] {
        assert_eq!(i64_text(n), n.to_string());
    }
}

#[test]
fn booleans_as_text() {
    assert_eq!(bool_text(true), "true");
    assert_eq!(bool_text(false), "false");
}

#[test]
fn unsigned_numbers_are_read() {
    assert_eq!(parse_u64("0"), Some(0));
    assert_eq!(parse_u64("007"), Some(7));
    assert_eq!(parse_u64("+5"), Some(5));
    assert_eq!(parse_u64("100"), Some(100));
    assert_eq!(parse_u64("18446744073709551615"), Some(u64::MAX));
    assert_eq!(parse_u64("00000000000000000000000018446744073709551615"), Some(u64::MAX));
}

#[test]
fn what_is_no_unsigned_number_is_refused() {
    assert_eq!(parse_u64(""), None);
    assert_eq!(parse_u64("+"), None);
    assert_eq!(parse_u64("-"), None);
    assert_eq!(parse_u64("-5"), None);
    assert_eq!(parse_u64("-0"), None);
    assert_eq!(parse_u64("++5"), None);
    assert_eq!(parse_u64("5+"), None);
    assert_eq!(parse_u64(" 5"), None);
    assert_eq!(parse_u64("5 "), None);
    assert_eq!(parse_u64("5.0"), None);
    assert_eq!(parse_u64("1e3"), None);
    assert_eq!(parse_u64("1_000"), None);
    assert_eq!(parse_u64("0x10"), None);
    assert_eq!(parse_u64("ten"), None);
    assert_eq!(parse_u64("٣"), None);
    assert_eq!(parse_u64("18446744073709551616"), None);
    assert_eq!(parse_u64("99999999999999999999999999"), None);
    assert_eq!(parse_u64("99999999999999999999999999x"), None);
}

#[test]
fn signed_numbers_are_read() {
    assert_eq!(parse_i64("0"), Some(0));
    assert_eq!(parse_i64("-0"), Some(0));
    assert_eq!(parse_i64("+0"), Some(0));
    assert_eq!(parse_i64("-1"), Some(-1));
    assert_eq!(parse_i64("+17"), Some(17));
    assert_eq!(parse_i64("1700000000"), Some(1700000000));
    assert_eq!(parse_i64("9223372036854775807"), Some(i64::MAX));
    assert_eq!(parse_i64("-9223372036854775808"), Some(i64::MIN));
    assert_eq!(parse_i64("-009223372036854775808"), Some(i64::MIN));
}

#[test]
fn what_is_no_signed_number_is_refused() {
    assert_eq!(parse_i64(""), None);
    assert_eq!(parse_i64("-"), None);
    assert_eq!(parse_i64("+"), None);
    assert_eq!(parse_i64("--1"), None);
    assert_eq!(parse_i64("+-1"), None);
    assert_eq!(parse_i64("-+1"), None);
    assert_eq!(parse_i64("1-"), None);
    assert_eq!(parse_i64("- 1"), None);
    assert_eq!(parse_i64("9223372036854775808"), None);
    assert_eq!(parse_i64("-9223372036854775809"), None);
    assert_eq!(parse_i64("18446744073709551615"), None);
    assert_eq!(parse_i64("-18446744073709551615"), None);
    assert_eq!(parse_i64("-18446744073709551616"), None);
}

#[test]
fn reading_numbers_agrees_with_the_standard_library() {
    let samples = [
        "", "0", "-0", "+0", "+", "-", "1", "-1", "+1", "01", "-01", "12a", "a12", " 12", "12 ",
        "9223372036854775807", "9223372036854775808", "-9223372036854775808",
        "-9223372036854775809", "18446744073709551615", "18446744073709551616",
        "+18446744073709551615", "1.5", "1e5", "١٢٣", "１２", "--5", "+-5", "5-", "0000", "\n5",
    ];
    for s in samples {
        assert_eq!(parse_u64(s), s.parse::<u64>().ok(), "u64 from {:?}", s);
        assert_eq!(parse_i64(s), s.parse::<i64>().ok(), "i64 from {:?}", s);
    }
}

#[test]
fn ascii_letters_in_lower_case() {
    assert_eq!(to_ascii_lower('A'), 'a');
    assert_eq!(to_ascii_lower('Z'), 'z');
    assert_eq!(to_ascii_lower('a'), 'a');
    assert_eq!(to_ascii_lower('@'), '@');
    assert_eq!(to_ascii_lower('['), '[');
    assert_eq!(to_ascii_lower('-'), '-');
    assert_eq!(to_ascii_lower('É'), 'É');
}

#[test]
fn texts_are_compared_without_regard_to_ascii_case() {
    assert!(eq_ignore_ascii_case("X-RateLimit-Limit", "x-ratelimit-limit"));
    assert!(eq_ignore_ascii_case("x-ratelimit-limit", "X-RATELIMIT-LIMIT"));
    assert!(eq_ignore_ascii_case("", ""));
    assert!(!eq_ignore_ascii_case("a", ""));
    assert!(!eq_ignore_ascii_case("", "a"));
    assert!(!eq_ignore_ascii_case("abc", "abd"));
    assert!(!eq_ignore_ascii_case("abc", "abcd"));
    assert!(!eq_ignore_ascii_case("abcd", "abc"));
    assert!(!eq_ignore_ascii_case("É", "é"));
    assert!(eq_ignore_ascii_case("É", "É"));
    assert!(!eq_ignore_ascii_case("[", "{"));
}
