use conduit_web_demo::text::{
    concat_str, decimal_string, is_blank_str, is_whitespace, str_eq, strip_prefix, trim_end_slashes_str,
    trim_str,
};

#[test]
fn trim_removes_unicode_whitespace_on_both_ends() {
    assert_eq!(trim_str("  web-1 \t\n"), "web-1");
    assert_eq!(trim_str("\u{3000}\u{a0}x y\u{2009}"), "x y");
    assert_eq!(trim_str("   "), "");
    assert_eq!(trim_str(""), "");
    assert_eq!(trim_str("a"), "a");
}

#[test]
fn trim_agrees_with_std_trim() {
    for s in ["", " ", "  a b  ", "\u{85}x\u{85}", "\u{200b}x", "x\u{1680}", "\u{feff}y"] {
        assert_eq!(trim_str(s), s.trim());
    }
}

#[test]
fn trim_twice_is_trim_once() {
    let once = trim_str("\t alias \r\n");
    assert_eq!(trim_str(&once), once);
}

#[test]
fn whitespace_matches_std() {
    for c in ['\t', '\n', ' ', 'a', '\u{85}', '\u{a0}', '\u{2000}', '\u{200a}', '\u{200b}', '\u{3000}', '\u{feff}'] {
        assert_eq!(is_whitespace(c), c.is_whitespace(), "{:?}", c);
    }
}

#[test]
fn blank_strings() {
    assert!(is_blank_str(""));
    assert!(is_blank_str(" \t "));
    assert!(!is_blank_str(" x "));
}

#[test]
fn equality_and_prefix() {
    assert!(str_eq("héllo", "héllo"));
    assert!(!str_eq("hello", "hellO"));
    assert!(!str_eq("hello", "hell"));
    assert_eq!(strip_prefix("Bearer abc", "Bearer "), Some("abc".to_string()));
    assert_eq!(strip_prefix("Bearer", "Bearer "), None);
    assert_eq!(strip_prefix("bearer abc", "Bearer "), None);
    assert_eq!(strip_prefix("Bearer ", "Bearer "), Some(String::new()));
}

#[test]
fn trailing_slashes_and_concat() {
    assert_eq!(trim_end_slashes_str("http://pf:8080///"), "http://pf:8080");
    assert_eq!(trim_end_slashes_str("http://pf"), "http://pf");
    assert_eq!(trim_end_slashes_str("///"), "");
    assert_eq!(concat_str("ab", "cd"), "abcd");
}

#[test]
fn decimal_text() {
    assert_eq!(decimal_string(0), "0");
    assert_eq!(decimal_string(7), "7");
    assert_eq!(decimal_string(10), "10");
    assert_eq!(decimal_string(1234567), "1234567");
    assert_eq!(decimal_string(usize::MAX), usize::MAX.to_string());
}
