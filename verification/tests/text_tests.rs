use auto_keypress::text::{
    chars_eq_str, chars_of, decimal_string, parse_u64_str, string_from_chars, trim_str,
};

#[test]
fn trims_unicode_white_space() {
    assert_eq!(trim_str("  abc \t\n"), "abc");
    assert_eq!(trim_str("\u{3000}x y\u{85}"), "x y");
    assert_eq!(trim_str("   "), "");
    assert_eq!(trim_str(""), "");
}

#[test]
fn parses_like_std() {
    for s in ["0", "42", "+7", "0007", "18446744073709551615", "18446744073709551616", "", "+", "-1", "1a", " 1", "++1"] {
        assert_eq!(parse_u64_str(s), s.parse::<u64>().ok(), "input {s:?}");
    }
}

#[test]
fn decimal_strings() {
    assert_eq!(decimal_string(0), "0");
    assert_eq!(decimal_string(200), "200");
    assert_eq!(decimal_string(u64::MAX), u64::MAX.to_string());
    assert_eq!(parse_u64_str(&decimal_string(987654321)), Some(987654321));
}

#[test]
fn char_helpers() {
    let v = chars_of("héllo");
    assert_eq!(v.len(), 5);
    assert!(chars_eq_str(&v, "héllo"));
    assert!(!chars_eq_str(&v, "hello"));
    assert_eq!(string_from_chars(&v), "héllo");
}
