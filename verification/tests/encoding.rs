use bytewarden::base64::base64_encode;
use bytewarden::text::{decimal_string, trim_str};

#[test]
fn base64_encodes_hello() {
    assert_eq!(base64_encode("hello"), "aGVsbG8=");
}

#[test]
fn base64_of_empty_text_is_empty() {
    assert_eq!(base64_encode(""), "");
}

#[test]
fn base64_pads_short_groups() {
    assert_eq!(base64_encode("M"), "TQ==");
    assert_eq!(base64_encode("Ma"), "TWE=");
    assert_eq!(base64_encode("Man"), "TWFu");
}

#[test]
fn base64_encodes_utf8_bytes() {
    assert_eq!(base64_encode("é"), "w6k=");
    assert_eq!(base64_encode("{\"a\":1}"), "eyJhIjoxfQ==");
}

#[test]
fn base64_length_is_four_per_three_bytes() {
    for (text, len) in [("a", 4usize), ("ab", 4), ("abc", 4), ("abcd", 8), ("abcdefg", 12)] {
        let out = base64_encode(text);
        assert_eq!(out.len(), len);
        assert!(out.chars().all(|c| c.is_ascii_alphanumeric() || c == '+' || c == '/' || c == '='));
    }
}

#[test]
fn decimal_string_writes_digits() {
    assert_eq!(decimal_string(0), "0");
    assert_eq!(decimal_string(42), "42");
    assert_eq!(decimal_string(18446744073709551615), "18446744073709551615");
}

#[test]
fn trim_str_removes_unicode_white_space() {
    assert_eq!(trim_str("  a b \t\n"), "a b");
    assert_eq!(trim_str("\u{3000}x\u{a0}"), "x");
    assert_eq!(trim_str("   "), "");
}
