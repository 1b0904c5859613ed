use nvim_mcp::text::{
    i32_to_decimal, is_blank, parse_u64, replace_char, starts_with, str_equal, trim,
    u64_to_decimal,
};

#[test]
fn decimal_numerals() {
    assert_eq!(u64_to_decimal(0), "0");
    assert_eq!(u64_to_decimal(7), "7");
    assert_eq!(u64_to_decimal(10), "10");
    assert_eq!(u64_to_decimal(1234567890), "1234567890");
    assert_eq!(u64_to_decimal(u64::MAX), "18446744073709551615");
    assert_eq!(i32_to_decimal(0), "0");
    assert_eq!(i32_to_decimal(-1), "-1");
    assert_eq!(i32_to_decimal(-32601), "-32601");
    assert_eq!(i32_to_decimal(i32::MAX), "2147483647");
    assert_eq!(i32_to_decimal(i32::MIN), "-2147483648");
}

#[test]
fn parsing_numerals() {
    assert_eq!(parse_u64("0"), Some(0));
    assert_eq!(parse_u64("42"), Some(42));
    assert_eq!(parse_u64("+42"), Some(42));
    assert_eq!(parse_u64("007"), Some(7));
    assert_eq!(parse_u64("18446744073709551615"), Some(u64::MAX));
    assert_eq!(parse_u64("18446744073709551616"), None);
    assert_eq!(parse_u64("99999999999999999999999"), None);
    assert_eq!(parse_u64(""), None);
    assert_eq!(parse_u64("+"), None);
    assert_eq!(parse_u64("-1"), None);
    assert_eq!(parse_u64("1 "), None);
    assert_eq!(parse_u64("1a"), None);
    assert_eq!(parse_u64("++1"), None);
    assert_eq!(parse_u64("١٢"), None);
}

#[test]
fn parsing_agrees_with_std() {
    for s in ["0", "+0", "12", "0012", "", "+", "-0", "x", "18446744073709551615", "18446744073709551616", "1_0"] {
        assert_eq!(parse_u64(s), s.parse::<u64>().ok());
    }
}

#[test]
fn numeral_round_trip() {
    for n in [0u64, 1, 9, 10, 11, 99, 100, 65535, u64::MAX - 1, u64::MAX] {
        assert_eq!(parse_u64(&u64_to_decimal(n)), Some(n));
    }
}

#[test]
fn prefixes_and_equality() {
    assert!(starts_with("nvim-diagnostics://x", "nvim-diagnostics://"));
    assert!(starts_with("abc", ""));
    assert!(starts_with("abc", "abc"));
    assert!(!starts_with("ab", "abc"));
    assert!(!starts_with("abd", "abc"));
    assert!(str_equal("ping", "ping"));
    assert!(!str_equal("ping", "pong"));
    assert!(!str_equal("ping", "pin"));
}

#[test]
fn trimming() {
    assert_eq!(trim("  a b \t\n"), "a b");
    assert_eq!(trim(""), "");
    assert_eq!(trim(" \n "), "");
    assert_eq!(trim("x"), "x");
    assert_eq!(trim("\u{2003}é\u{a0}"), "é");
    assert!(is_blank(""));
    assert!(is_blank(" \t\r\n"));
    assert!(!is_blank(" return 1 "));
}

#[test]
fn replacing_characters() {
    assert_eq!(replace_char("/a/b/", '/', '%'), "%a%b%");
    assert_eq!(replace_char("", '/', '%'), "");
    assert_eq!(replace_char("abc", 'x', 'y'), "abc");
}

#[test]
fn long_version_text() {
    assert_eq!(
        nvim_mcp::long_version("0.7.2", "abc123", "2025-01-01T00:00:00+00:00", "false"),
        "0.7.2 (sha:\"abc123\", build_time:\"2025-01-01T00:00:00+00:00\")"
    );
    assert_eq!(
        nvim_mcp::long_version("0.7.2", "abc123", "now", "true"),
        "0.7.2 (sha:\"abc123\", build_time:\"now\")[dirty]"
    );
    assert_eq!(
        nvim_mcp::long_version("1", "a\"b", "t", "unknown"),
        format!("{} (sha:{:?}, build_time:{:?}){}", "1", "a\"b", "t", "")
    );
}

#[test]
fn white_space_is_what_std_says() {
    for code in 0u32..=0x10ffff {
        if let Some(c) = char::from_u32(code) {
            assert_eq!(nvim_mcp::text::is_white_space(c), c.is_whitespace(), "for U+{code:04X}");
        }
    }
}

#[test]
fn composed_long_version() {
    assert_eq!(
        nvim_mcp::compose_long_version("1.2.3", "\"abc\"", "\"now\"", "true"),
        "1.2.3 (sha:\"abc\", build_time:\"now\")[dirty]"
    );
    assert_eq!(
        nvim_mcp::compose_long_version("1.2.3", "x", "y", "false"),
        "1.2.3 (sha:x, build_time:y)"
    );
}
