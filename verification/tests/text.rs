use media_downloader::text::{
    contains_substring, find_substring, parse_u32, split_str, starts_with, str_eq, u32_to_string,
    u64_to_string, usize_to_string,
};

#[test]
fn decimal_rendering() {
    assert_eq!(u64_to_string(0), "0");
    assert_eq!(u64_to_string(7), "7");
    assert_eq!(u64_to_string(1999), "1999");
    assert_eq!(u64_to_string(u64::MAX), "18446744073709551615");
    assert_eq!(u32_to_string(548), "548");
    assert_eq!(usize_to_string(10), "10");
}

#[test]
fn decimal_parsing() {
    assert_eq!(parse_u32("0"), Some(0));
    assert_eq!(parse_u32("1999"), Some(1999));
    assert_eq!(parse_u32("4294967295"), Some(u32::MAX));
    assert_eq!(parse_u32("4294967296"), None);
    assert_eq!(parse_u32(""), None);
    assert_eq!(parse_u32("12a"), None);
    assert_eq!(parse_u32("-1"), None);
}

#[test]
fn searching() {
    assert!(starts_with("https://host/x", "https://"));
    assert!(!starts_with("http://host/x", "https://"));
    assert!(contains_substring("content-type: application/json; charset=utf8", "application/json"));
    assert!(!contains_substring("text/plain", "application/json"));
    assert_eq!(find_substring("frame time=00:01", "time="), Some(6));
    assert_eq!(find_substring("frame", "time="), None);
}

#[test]
fn splitting() {
    assert_eq!(split_str("A$urlA#B$urlB", '#'), vec!["A$urlA", "B$urlB"]);
    assert_eq!(split_str("one", '#'), vec!["one"]);
    assert_eq!(split_str("a##b", '#'), vec!["a", "", "b"]);
    assert_eq!(split_str("", '#'), vec![""]);
}

#[test]
fn string_equality() {
    assert!(str_eq("海贼王", "海贼王"));
    assert!(!str_eq("a", "b"));
    assert!(!str_eq("a", "ab"));
}
