use pathogen::text::{
    i128_to_string, lines_of, lower_str, parse_i64, split_str, str_contains, str_ends_with,
    str_starts_with, trim_char_str, trim_str, u64_to_string,
};

#[test]
fn test_parse_i64() {
    assert_eq!(parse_i64("0"), Some(0));
    assert_eq!(parse_i64("42"), Some(42));
    assert_eq!(parse_i64("-17"), Some(-17));
    assert_eq!(parse_i64("+8"), Some(8));
    assert_eq!(parse_i64("9223372036854775807"), Some(i64::MAX));
    assert_eq!(parse_i64("-9223372036854775808"), Some(i64::MIN));
    assert_eq!(parse_i64("9223372036854775808"), None);
    assert_eq!(parse_i64(""), None);
    assert_eq!(parse_i64("1.5"), None);
    assert_eq!(parse_i64("12a"), None);
    assert_eq!(parse_i64("-"), None);
}

#[test]
fn test_decimal_rendering() {
    assert_eq!(u64_to_string(0), "0");
    assert_eq!(u64_to_string(907), "907");
    assert_eq!(u64_to_string(u64::MAX), "18446744073709551615");
    assert_eq!(i128_to_string(-45), "-45");
    assert_eq!(i128_to_string(0), "0");
    assert_eq!(i128_to_string(9223372036854775808), "9223372036854775808");
}

#[test]
fn test_trimming() {
    assert_eq!(trim_str("  const x = 1;\t "), "const x = 1;");
    assert_eq!(trim_str("\n\n"), "");
    assert_eq!(trim_str("x"), "x");
    assert_eq!(trim_char_str("\"\"hello\"", '"'), "hello");
    assert_eq!(trim_char_str("none", '"'), "none");
}

#[test]
fn test_lines_and_split() {
    assert_eq!(lines_of("a\nb\n"), vec!["a", "b"]);
    assert_eq!(lines_of("a\r\nb"), vec!["a", "b"]);
    assert_eq!(lines_of(""), Vec::<String>::new());
    assert_eq!(lines_of("\n"), vec![""]);
    assert_eq!(split_str("foo.mutant.3", '.'), vec!["foo", "mutant", "3"]);
    assert_eq!(split_str("nodots", '.'), vec!["nodots"]);
    assert_eq!(split_str("trailing.", '.'), vec!["trailing", ""]);
}

#[test]
fn test_searching() {
    assert!(str_contains("the test timed out badly", "timed out"));
    assert!(!str_contains("short", "longer than hay"));
    assert!(str_starts_with("TIMEOUT: x", "TIMEOUT:"));
    assert!(!str_starts_with("warm TIMEOUT:", "TIMEOUT:"));
    assert!(str_ends_with("a/b/c.spec.ts", ".spec.ts"));
    assert!(!str_ends_with("c.ts", ".spec.ts"));
}

#[test]
fn test_ascii_lowercase() {
    assert_eq!(lower_str("Error TS2304"), "error ts2304");
    assert_eq!(lower_str("already lower 123"), "already lower 123");
}
