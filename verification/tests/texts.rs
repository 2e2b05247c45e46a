use storefront::text::{
    byte_length, chars_of, eq_ignore_ascii_case, escape_quotes, is_blank, is_ticked, join, join3,
    option_string_empty_as_none, parse_i64, same_text, starts_with,
};

#[test]
fn empty_text_is_absent() {
    assert_eq!(option_string_empty_as_none(Some(String::new())), None);
    assert_eq!(option_string_empty_as_none(None), None);
    assert_eq!(
        option_string_empty_as_none(Some(" ".to_string())),
        Some(" ".to_string())
    );
    assert_eq!(
        option_string_empty_as_none(Some("Anna".to_string())),
        Some("Anna".to_string())
    );
}

#[test]
fn numbers_are_read_as_std_reads_them() {
    for text in [
        "", "0", "-0", "+7", "-7", "+", "-", "--1", "+-1", "1 ", " 1", "12a", "007",
        "9223372036854775807", "9223372036854775808", "-9223372036854775808",
        "-9223372036854775809", "99999999999999999999999999999999999999999999", "١", "1199",
    ] {
        assert_eq!(parse_i64(text), text.parse::<i64>().ok(), "{text}");
    }
}

#[test]
fn white_space_is_what_std_calls_so() {
    for code in 0u32..0x11_0000 {
        if let Some(c) = char::from_u32(code) {
            let text = String::from(c);
            assert_eq!(is_blank(&text), c.is_whitespace(), "{code:x}");
        }
    }
    assert!(is_blank(""));
    assert!(is_blank(" \t\n"));
    assert!(!is_blank(" a "));
}

#[test]
fn check_boxes_are_read() {
    assert!(is_ticked("true"));
    assert!(is_ticked("TrUe"));
    assert!(is_ticked("on"));
    assert!(!is_ticked("ON"));
    assert!(!is_ticked("false"));
    assert!(!is_ticked(""));
}

#[test]
fn case_is_ignored_for_ascii_only() {
    assert!(eq_ignore_ascii_case("HX-Trigger", "hx-trigger"));
    assert!(!eq_ignore_ascii_case("Ł", "ł"));
    assert!(!eq_ignore_ascii_case("ab", "abc"));
}

#[test]
fn quotes_are_escaped() {
    assert_eq!(escape_quotes("a \"b\" c"), "a \\\"b\\\" c");
    assert_eq!(escape_quotes("żółw"), "żółw");
    assert_eq!(escape_quotes(""), "");
}

#[test]
fn texts_are_put_together() {
    assert_eq!(join("ab", "cd"), "abcd");
    assert_eq!(join3("a", "b", "c"), "abc");
    assert!(same_text("inpost", "inpost"));
    assert!(!same_text("inpost", "Inpost"));
    assert!(starts_with("image_file_1", "image_file_"));
    assert!(!starts_with("image_file", "image_file_"));
    assert_eq!(byte_length("zł"), 3);
    assert_eq!(chars_of("zł"), vec!['z', 'ł']);
}
