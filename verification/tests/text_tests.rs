use rust_fetch::text::lower_str;
use rust_fetch::text::str_contains;
use rust_fetch::text::str_eq;
use rust_fetch::text::trim_trailing_slashes;
use rust_fetch::text::u64_to_string;

#[test]
fn test_lower_str() {
    assert_eq!(lower_str("Content-Type"), "content-type");
    assert_eq!(lower_str("ABCXYZ"), "abcxyz");
    assert_eq!(lower_str("already lower 123"), "already lower 123");
    assert_eq!(lower_str(""), "");
}

#[test]
fn test_str_eq() {
    assert!(str_eq("abc", "abc"));
    assert!(!str_eq("abc", "abd"));
    assert!(!str_eq("abc", "ab"));
    assert!(str_eq("", ""));
}

#[test]
fn test_str_contains() {
    assert!(str_contains("application/json; charset=utf-8", "application/json"));
    assert!(str_contains("text/html", "text/"));
    assert!(!str_contains("application/octet-stream", "text/"));
    assert!(str_contains("anything", ""));
    assert!(!str_contains("short", "longer than hay"));
}

#[test]
fn test_trim_trailing_slashes() {
    assert_eq!(trim_trailing_slashes("https://a/"), "https://a");
    assert_eq!(trim_trailing_slashes("https://a///"), "https://a");
    assert_eq!(trim_trailing_slashes("https://a"), "https://a");
    assert_eq!(trim_trailing_slashes(""), "");
    assert_eq!(trim_trailing_slashes("///"), "");
}

#[test]
fn test_u64_to_string() {
    assert_eq!(u64_to_string(0), "0");
    assert_eq!(u64_to_string(7), "7");
    assert_eq!(u64_to_string(1234), "1234");
    assert_eq!(u64_to_string(18446744073709551615), "18446744073709551615");
}
