use claude_cli::text::{any_is, decimal_text, same_text, starts_with_char, strip_prefix, trim, white_space};

fn strings(items: &[&str]) -> Vec<String> {
    items.iter().map(|s| s.to_string()).collect()
}

#[test]
fn decimal_numerals_match_the_standard_library() {
    for n in [0u64, 1, 9, 10, 11, 99, 100, 101, 1234567890, u64::MAX] {
        assert_eq!(decimal_text(n), n.to_string());
    }
    assert_eq!(decimal_text(0), "0");
    assert_eq!(decimal_text(2048), "2048");
}

#[test]
fn white_space_matches_the_standard_library() {
    for code in 0u32..=0x10ffff {
        if let Some(c) = char::from_u32(code) {
            assert_eq!(white_space(c), c.is_whitespace(), "{:?}", c);
        }
    }
}

#[test]
fn trimming_matches_the_standard_library() {
    for s in ["", " ", "\n\t \n", "a", "  a b  ", "\u{3000}é x\u{a0}", "x\n", "\r\nx y\r\n", "\u{200b}x"] {
        assert_eq!(trim(s), s.trim());
    }
    assert_eq!(trim("  what is this?\n"), "what is this?");
}

#[test]
fn trimming_leaves_bare_ends() {
    let inner = trim(" \t two words \u{85}");
    assert_eq!(inner, "two words");
    assert_eq!(trim(&inner), inner);
}

#[test]
fn prefixes_are_stripped_once() {
    assert_eq!(strip_prefix("files_read", "files_"), Some("read".to_string()));
    assert_eq!(strip_prefix("files_files_read", "files_"), Some("files_read".to_string()));
    assert_eq!(strip_prefix("files_", "files_"), Some("".to_string()));
    assert_eq!(strip_prefix("file", "files_"), None);
    assert_eq!(strip_prefix("filex_read", "files_"), None);
    assert_eq!(strip_prefix("größe_x", "größe_"), Some("x".to_string()));
    assert_eq!(strip_prefix("abc", ""), Some("abc".to_string()));
}

#[test]
fn first_characters_are_recognised() {
    assert!(starts_with_char("/help", '/'));
    assert!(!starts_with_char(" /help", '/'));
    assert!(!starts_with_char("", '/'));
}

#[test]
fn texts_are_compared_whole() {
    assert!(same_text("auth", "auth"));
    assert!(!same_text("auth", "Auth"));
    assert!(!same_text("auth", "auth "));
    assert!(any_is(&strings(&["a", "b"]), "b"));
    assert!(!any_is(&strings(&["a", "b"]), "c"));
    assert!(!any_is(&strings(&[]), ""));
}
