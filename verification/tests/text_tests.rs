use reach_link::text::{
    is_blank, parse_u64, starts_with, str_eq, str_eq_ignore_ascii_case, strip_trailing_slashes,
};

#[test]
fn test_str_eq() {
    assert!(str_eq("abc", "abc"));
    assert!(!str_eq("abc", "abd"));
    assert!(!str_eq("abc", "ab"));
    assert!(str_eq("", ""));
}

#[test]
fn test_starts_with() {
    assert!(starts_with("https://relay", "https://"));
    assert!(!starts_with("http://relay", "https://"));
    assert!(!starts_with("https:/", "https://"));
    assert!(starts_with("anything", ""));
}

#[test]
fn test_is_blank() {
    assert!(is_blank(""));
    assert!(is_blank("   "));
    assert!(is_blank(" \t\r\n"));
    assert!(!is_blank(" x "));
}

#[test]
fn test_case_insensitive_eq() {
    assert!(str_eq_ignore_ascii_case("READY", "ready"));
    assert!(str_eq_ignore_ascii_case("PauSed", "pAUsED"));
    assert!(!str_eq_ignore_ascii_case("ready", "read"));
    assert!(!str_eq_ignore_ascii_case("ready", "reads"));
}

#[test]
fn test_parse_u64() {
    assert_eq!(parse_u64("0"), Some(0));
    assert_eq!(parse_u64("30"), Some(30));
    assert_eq!(parse_u64("007"), Some(7));
    assert_eq!(parse_u64("18446744073709551615"), Some(u64::MAX));
    assert_eq!(parse_u64("18446744073709551616"), None);
    assert_eq!(parse_u64(""), None);
    assert_eq!(parse_u64("12a"), None);
    assert_eq!(parse_u64("-3"), None);
    assert_eq!(parse_u64(" 3"), None);
}

#[test]
fn test_strip_trailing_slashes() {
    assert_eq!(strip_trailing_slashes("http://h:7125/"), "http://h:7125");
    assert_eq!(strip_trailing_slashes("http://h:7125///"), "http://h:7125");
    assert_eq!(strip_trailing_slashes("http://h:7125"), "http://h:7125");
    assert_eq!(strip_trailing_slashes("///"), "");
    assert_eq!(strip_trailing_slashes(""), "");
}
