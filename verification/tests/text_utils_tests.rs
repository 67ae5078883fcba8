use rust_expander::text_utils::{normalise_to_crlf, str_equals};

#[test]
fn test_lf_converted_to_crlf() {
    assert_eq!(normalise_to_crlf("hello\nworld"), "hello\r\nworld");
}

#[test]
fn test_crlf_unchanged() {
    assert_eq!(normalise_to_crlf("hello\r\nworld"), "hello\r\nworld");
}

#[test]
fn test_mixed_endings_normalised() {
    assert_eq!(normalise_to_crlf("a\r\nb\nc"), "a\r\nb\r\nc");
}

#[test]
fn test_no_newlines_unchanged() {
    assert_eq!(normalise_to_crlf("hello world"), "hello world");
}

#[test]
fn test_empty_string() {
    assert_eq!(normalise_to_crlf(""), "");
}

#[test]
fn normalising_twice_changes_nothing_more() {
    let once = normalise_to_crlf("a\nb\r\nc\r\r\nd\n\n");
    assert_eq!(once, "a\r\nb\r\nc\r\r\nd\r\n\r\n");
    assert_eq!(normalise_to_crlf(&once), once);
}

#[test]
fn lone_carriage_returns_are_kept() {
    assert_eq!(normalise_to_crlf("a\rb\r"), "a\rb\r");
}

#[test]
fn leading_and_trailing_line_feeds() {
    assert_eq!(normalise_to_crlf("\nx\n"), "\r\nx\r\n");
}

#[test]
fn string_equality() {
    assert!(str_equals("hotkey", "hotkey"));
    assert!(!str_equals("hotkey", "hotkeys"));
    assert!(!str_equals("hotkey", "Hotkey"));
    assert!(str_equals("", ""));
    assert!(str_equals("æøå", "æøå"));
}
