use gotify_stream::text::{
    i32_to_string, str_is_blank, str_starts_with, strip_trailing_slash, u64_to_string,
};

#[test]
fn blankness_test() {
    assert!(str_is_blank(""));
    assert!(str_is_blank(" \t\r\n"));
    assert!(str_is_blank("\u{a0}\u{2003}\u{3000}"));
    assert!(!str_is_blank(" a "));
    assert!(!str_is_blank("."));
}

#[test]
fn unsigned_decimal_rendering() {
    assert_eq!(u64_to_string(0), "0");
    assert_eq!(u64_to_string(7), "7");
    assert_eq!(u64_to_string(10), "10");
    assert_eq!(u64_to_string(305), "305");
    assert_eq!(u64_to_string(u64::MAX), "18446744073709551615");
}

#[test]
fn signed_decimal_rendering() {
    assert_eq!(i32_to_string(0), "0");
    assert_eq!(i32_to_string(42), "42");
    assert_eq!(i32_to_string(-1), "-1");
    assert_eq!(i32_to_string(i32::MIN), "-2147483648");
    assert_eq!(i32_to_string(i32::MAX), "2147483647");
}

#[test]
fn prefix_test() {
    assert!(str_starts_with("https://h", "https://"));
    assert!(!str_starts_with("http://h", "https://"));
    assert!(str_starts_with("abc", ""));
    assert!(!str_starts_with("ab", "abc"));
}

#[test]
fn trailing_slash_stripping() {
    assert_eq!(strip_trailing_slash("a///"), "a");
    assert_eq!(strip_trailing_slash("a"), "a");
    assert_eq!(strip_trailing_slash("///"), "");
    assert_eq!(strip_trailing_slash(""), "");
}
