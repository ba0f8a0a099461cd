use slack_status::text::{decimal_string, same_text, starts_with};

#[test]
fn starts_with_compares_characters() {
    assert!(starts_with("https://x", "https://"));
    assert!(starts_with("https://", "https://"));
    assert!(starts_with("anything", ""));
    assert!(starts_with("", ""));
    assert!(!starts_with("https:/", "https://"));
    assert!(!starts_with("", "a"));
    assert!(!starts_with("Https://x", "https://"));
    assert!(starts_with("héllo wörld", "héllo"));
    assert!(!starts_with("hello", "héllo"));
}

#[test]
fn same_text_is_equality() {
    assert!(same_text("", ""));
    assert!(same_text("On vacation", "On vacation"));
    assert!(!same_text("On vacation", "on vacation"));
    assert!(!same_text("a", "ab"));
}

#[test]
fn decimal_string_writes_every_digit() {
    assert_eq!(decimal_string(0), "0");
    assert_eq!(decimal_string(7), "7");
    assert_eq!(decimal_string(9), "9");
    assert_eq!(decimal_string(10), "10");
    assert_eq!(decimal_string(1_234_567_890), "1234567890");
    assert_eq!(decimal_string(1_000_000), "1000000");
    assert_eq!(decimal_string(u64::MAX), "18446744073709551615");
}
