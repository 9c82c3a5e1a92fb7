use autoclicker::utils::{parse_u32_or_zero, sanitize_string};

fn sanitized(s: &str, cap: usize) -> String {
    let mut field = String::from(s);
    sanitize_string(&mut field, cap);
    field
}

#[test]
fn leading_zeros_are_stripped() {
    assert_eq!(sanitized("007", 5), "7");
    assert_eq!(sanitized("0100", 5), "100");
    assert_eq!(sanitized("0", 5), "0");
    assert_eq!(sanitized("0000", 5), "0");
}

#[test]
fn non_numeric_characters_are_dropped() {
    assert_eq!(sanitized("abc123", 5), "123");
    assert_eq!(sanitized("1a2b3c", 5), "123");
    assert_eq!(sanitized("abc", 5), "");
    assert_eq!(sanitized("", 5), "");
    assert_eq!(sanitized(" 4 2 ", 5), "42");
}

#[test]
fn long_fields_are_truncated_to_the_cap() {
    assert_eq!(sanitized("1234567", 5), "12345");
    assert_eq!(sanitized("12345", 5), "12345");
    assert_eq!(sanitized("123", 0), "");
    assert_eq!(sanitized("00123456", 5), "12345");
}

#[test]
fn non_ascii_numerics_survive_sanitizing_but_parse_to_zero() {
    // Arabic-Indic digits count as numeric for the sanitizer but are not
    // decimal digits for the parser, so the recovery default applies.
    let field = sanitized("\u{0661}\u{0662}\u{0663}", 5);
    assert_eq!(field.chars().count(), 3);
    assert_eq!(parse_u32_or_zero(&field), 0);
}

#[test]
fn parse_reads_decimal_digit_strings() {
    assert_eq!(parse_u32_or_zero("123"), 123);
    assert_eq!(parse_u32_or_zero("0"), 0);
    assert_eq!(parse_u32_or_zero("99999"), 99999);
    assert_eq!(parse_u32_or_zero("4294967295"), u32::MAX);
}

#[test]
fn parse_substitutes_zero_for_malformed_fields() {
    assert_eq!(parse_u32_or_zero(""), 0);
    assert_eq!(parse_u32_or_zero("12a"), 0);
    assert_eq!(parse_u32_or_zero("-5"), 0);
    assert_eq!(parse_u32_or_zero(" 7"), 0);
    assert_eq!(parse_u32_or_zero("4294967296"), 0);
    assert_eq!(parse_u32_or_zero("999999999999999999999"), 0);
}
