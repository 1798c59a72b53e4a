use leaderboard::helper::slow_equals;
use leaderboard::helper::sanitize_name;
use leaderboard::helper::trim_end;

#[test]
fn unequal_length_gets_rejected() {
    assert!(!slow_equals("abcd".as_bytes(), "abcdefgh".as_bytes()));
    assert!(!slow_equals("abcdefgh".as_bytes(), "abcd".as_bytes()));
}

#[test]
fn unequal_values_get_rejected() {
    assert!(!slow_equals("abcd".as_bytes(), "efgh".as_bytes()))
}

#[test]
fn equal_values_get_accepted() {
    assert!(slow_equals("abcd".as_bytes(), "abcd".as_bytes()))
}

#[test]
fn simple_xss_gets_replaced() {
    assert_eq!(
        sanitize_name("<script>alert(1);</script>".to_string()),
        "&lt;script&gt;alert(1);&lt;/script&gt;".to_string()
    );
}

#[test]
fn all_evil_chars_get_replaced() {
    assert_eq!(
        sanitize_name("&<>\"'".to_string()),
        "&amp;&lt;&gt;&quot;&#39;".to_string()
    )
}

#[test]
fn empty_and_plain_names_pass_through() {
    assert_eq!(sanitize_name("".to_string()), "".to_string());
    assert_eq!(sanitize_name("plain_name".to_string()), "plain_name".to_string());
}

#[test]
fn ampersand_is_escaped_once() {
    assert_eq!(sanitize_name("&amp;".to_string()), "&amp;amp;".to_string());
}

#[test]
fn trim_end_removes_trailing_whitespace_only() {
    assert_eq!(trim_end("abc  \t\n"), "abc");
    assert_eq!(trim_end("  abc"), "  abc");
    assert_eq!(trim_end("   "), "");
    assert_eq!(trim_end(""), "");
    // the trimmer agrees with the standard library's notion of whitespace
    assert_eq!(trim_end("abc\u{00A0}\u{2028}"), "abc\u{00A0}\u{2028}".trim_end());
}
