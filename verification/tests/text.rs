use rustui::text::{
    contains, decimal_string, insert_char_at, is_white_space, remove_char_at, same_text, starts_with, suffix_from, to_ascii_lower,
    trim,
};

#[test]
fn trim_removes_surrounding_white_space_only() {
    assert_eq!(trim("  hello world \t\n"), "hello world");
    assert_eq!(trim("hello"), "hello");
    assert_eq!(trim("   "), "");
    assert_eq!(trim(""), "");
    assert_eq!(trim("\u{3000}wide\u{00a0}"), "wide");
    assert_eq!(trim(" a  b "), "a  b");
}

#[test]
fn trim_agrees_with_str_trim() {
    for s in ["x", " x", "x ", "\t\r\n x y \u{2003}", "\u{85}z", "é ", " ", "a\u{200b}"] {
        assert_eq!(trim(s), s.trim());
    }
}

#[test]
fn decimal_digits() {
    assert_eq!(decimal_string(0), "0");
    assert_eq!(decimal_string(7), "7");
    assert_eq!(decimal_string(10), "10");
    assert_eq!(decimal_string(18446744073709551615), "18446744073709551615");
}

#[test]
fn comparing_and_searching_text() {
    assert!(same_text("abc", "abc"));
    assert!(!same_text("abc", "abd"));
    assert!(!same_text("abc", "ab"));
    assert!(starts_with("/room/general", "/room/"));
    assert!(!starts_with("/roo", "/room/"));
    assert_eq!(suffix_from("/room/general", 6), "general");
    assert!(contains("UNIQUE constraint failed", "UNIQUE"));
    assert!(!contains("NOT NULL constraint failed", "UNIQUE"));
    assert!(contains("abc", ""));
}

#[test]
fn editing_by_character_index() {
    assert_eq!(insert_char_at("hllo", 1, 'e'), "hello");
    assert_eq!(insert_char_at("héllo", 2, 'x'), "héxllo");
    assert_eq!(remove_char_at("héllo", 1), "hllo");
    assert_eq!(remove_char_at("a", 0), "");
}

#[test]
fn ascii_lowercasing_leaves_other_characters() {
    assert_eq!(to_ascii_lower("AdMiN-42"), "admin-42");
    assert_eq!(to_ascii_lower("ÉTÉ"), "ÉtÉ");
}

#[test]
fn white_space_agrees_with_char_is_whitespace() {
    for n in 0u32..=0x10ffff {
        if let Some(c) = char::from_u32(n) {
            assert_eq!(is_white_space(c), c.is_whitespace(), "U+{:04X}", n);
        }
    }
}
