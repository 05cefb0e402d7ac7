use tuxwire::order::{find_text, sort_texts, text_le};
use tuxwire::text::{contains_text, decimal_string, is_blank_str, lines, same_text, trim};

#[test]
fn trim_removes_unicode_whitespace_at_both_ends() {
    assert_eq!(trim("  kernel \t\n"), "kernel");
    assert_eq!(trim("\u{3000}café\u{a0}"), "café");
    assert_eq!(trim("a b"), "a b");
    assert_eq!(trim("   "), "");
    assert!(is_blank_str(" \t\r\n"));
    assert!(!is_blank_str(" x "));
}

#[test]
fn lines_split_like_str_lines() {
    assert_eq!(lines("a\nb"), vec!["a".to_string(), "b".to_string()]);
    assert_eq!(lines("a\r\nb\n"), vec!["a".to_string(), "b".to_string()]);
    assert_eq!(lines("a\n\nb"), vec!["a".to_string(), "".to_string(), "b".to_string()]);
    assert_eq!(lines(""), Vec::<String>::new());
    assert_eq!(lines("x"), "x".lines().map(str::to_string).collect::<Vec<_>>());
}

#[test]
fn decimal_string_renders_numbers() {
    assert_eq!(decimal_string(0), "0");
    assert_eq!(decimal_string(42), "42");
    assert_eq!(decimal_string(u128::MAX), u128::MAX.to_string());
}

#[test]
fn texts_sort_like_strings() {
    let mut v = vec!["security".to_string(), "distros".to_string(), "kernel".to_string(), "Kernel".to_string()];
    let mut expected = v.clone();
    expected.sort();
    sort_texts(&mut v);
    assert_eq!(v, expected);
    assert!(text_le("abc", "abd"));
    assert!(text_le("ab", "abc"));
    assert!(!text_le("b", "abc"));
    assert_eq!(find_text(&v, "kernel"), Some(2));
    assert_eq!(find_text(&v, "gaming"), None);
    assert!(same_text("é", "é"));
    assert!(!same_text("e", "é"));
}

#[test]
fn whitespace_is_exactly_what_char_is_whitespace_says() {
    for code in 0..=0x10FFFFu32 {
        if let Some(c) = char::from_u32(code) {
            assert_eq!(tuxwire::text::is_whitespace(c), c.is_whitespace(), "U+{code:04X}");
        }
    }
}

#[test]
fn contains_text_finds_runs_of_characters() {
    assert!(contains_text("xmlns:media=\"http://search.yahoo.com/mrss/\"", "search.yahoo.com/mrss/"));
    assert!(contains_text("abc", ""));
    assert!(contains_text("abc", "abc"));
    assert!(!contains_text("abc", "abcd"));
    assert!(!contains_text("ab c", "bc"));
    assert!(contains_text("café au lait", "é a"));
}
