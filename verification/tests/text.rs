use container_facade::text::is_space;
use container_facade::text::str_contains;
use container_facade::text::trim_str;

#[test]
fn trim_removes_leading_and_trailing_whitespace() {
    assert_eq!(trim_str("  hello  "), "hello");
    assert_eq!(trim_str("\n\t1.2.3\r\n"), "1.2.3");
}

#[test]
fn trim_keeps_interior_whitespace() {
    assert_eq!(trim_str(" a b  c "), "a b  c");
}

#[test]
fn trim_of_empty_is_empty() {
    assert_eq!(trim_str(""), "");
}

#[test]
fn trim_of_all_whitespace_is_empty() {
    assert_eq!(trim_str(" \t\r\n \u{000B}\u{000C}"), "");
}

#[test]
fn trim_handles_unicode_whitespace() {
    assert_eq!(trim_str("\u{00A0}\u{3000}wide\u{2003}"), "wide");
    assert_eq!(trim_str("\u{2028}x\u{2029}"), "x");
}

#[test]
fn trim_without_whitespace_is_identity() {
    assert_eq!(trim_str("abc"), "abc");
}

#[test]
fn contains_finds_a_substring() {
    assert!(str_contains("the apiserver is not running now", "apiserver is not running"));
    assert!(str_contains("abc", "abc"));
    assert!(str_contains("abc", "b"));
}

#[test]
fn contains_rejects_a_missing_substring() {
    assert!(!str_contains("apiserver is running", "apiserver is not running"));
    assert!(!str_contains("abc", "abd"));
    assert!(!str_contains("ab", "abc"));
}

#[test]
fn contains_empty_needle_always_holds() {
    assert!(str_contains("", ""));
    assert!(str_contains("abc", ""));
}

#[test]
fn is_space_matches_the_whitespace_set() {
    assert!(is_space(' '));
    assert!(is_space('\t'));
    assert!(is_space('\n'));
    assert!(is_space('\u{2009}'));
    assert!(!is_space('a'));
    assert!(!is_space('\u{200B}'));
}
