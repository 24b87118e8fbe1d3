use rust_chat::text::{blank, is_whitespace, same_text, starts_with, strip_newline, trim, with_newline};

#[test]
fn whitespace_agrees_with_std_on_every_char() {
    for u in 0u32..=0x10FFFF {
        if let Some(c) = char::from_u32(u) {
            assert_eq!(is_whitespace(c), c.is_whitespace(), "U+{:04X}", u);
        }
    }
}

#[test]
fn trim_strips_both_ends() {
    assert_eq!(trim("  bob \n"), "bob");
    assert_eq!(trim("\u{3000}x y\u{85}"), "x y");
    assert_eq!(trim("   "), "");
    assert_eq!(trim(""), "");
    assert_eq!(trim("a"), "a");
    for s in ["\t tab\t", "no-space", " \u{2028}mixed \u{A0}", "é ü  "] {
        assert_eq!(trim(s), s.trim());
    }
}

#[test]
fn blank_lines() {
    assert!(blank(""));
    assert!(blank(" \t\r\n"));
    assert!(!blank(" a "));
    assert!(!blank("hi\n"));
}

#[test]
fn prefixes_and_equality() {
    assert!(starts_with("username:bob", "username:"));
    assert!(!starts_with("user", "username:"));
    assert!(!starts_with("x username:bob", "username:"));
    assert!(starts_with("anything", ""));
    assert!(same_text("message", "message"));
    assert!(!same_text("message", "messages"));
    assert!(!same_text("", "a"));
}

#[test]
fn line_endings() {
    assert_eq!(strip_newline("hi\n"), "hi");
    assert_eq!(strip_newline("hi"), "hi");
    assert_eq!(strip_newline("\n"), "");
    assert_eq!(strip_newline("two\n\n"), "two\n");
    assert_eq!(with_newline("yo"), "yo\n");
    assert_eq!(with_newline(""), "\n");
}
