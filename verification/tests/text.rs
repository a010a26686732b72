use flavortime::text::{
    as_deref, char_is_whitespace, contains, decimal_string, non_empty_trimmed, starts_with, trim,
};

#[test]
fn trim_removes_outer_whitespace_only() {
    assert_eq!(trim("  a b \t\n"), "a b");
    assert_eq!(trim("abc"), "abc");
    assert_eq!(trim(""), "");
    assert_eq!(trim(" \u{3000}\u{a0} "), "");
    assert_eq!(trim("\u{2003}é x\u{85}"), "é x");
}

#[test]
fn trim_agrees_with_the_standard_library() {
    let samples = [
        "", " ", "a", " a", "a ", "\ta\tb\t", "\u{1680}x\u{2028}", "\u{200b}x", "x\u{feff}",
        "\u{1c}y\u{1f}", "  multi word  text  ",
    ];
    for sample in samples {
        assert_eq!(trim(sample), sample.trim());
    }
}

#[test]
fn whitespace_agrees_with_the_standard_library() {
    for code in 0..0x3100u32 {
        if let Some(c) = char::from_u32(code) {
            assert_eq!(char_is_whitespace(c), c.is_whitespace());
        }
    }
}

#[test]
fn non_empty_trimmed_drops_blank_text() {
    assert_eq!(non_empty_trimmed(None), None);
    assert_eq!(non_empty_trimmed(Some("   ")), None);
    assert_eq!(non_empty_trimmed(Some("")), None);
    assert_eq!(non_empty_trimmed(Some(" x ")), Some("x"));
}

#[test]
fn contains_finds_substrings() {
    assert!(contains("hello world", "lo w"));
    assert!(contains("hello", ""));
    assert!(contains("", ""));
    assert!(contains("hello", "hello"));
    assert!(contains("hello", "o"));
    assert!(!contains("hello", "hello!"));
    assert!(!contains("", "a"));
    assert!(!contains("aab", "abb"));
    assert!(contains("aaab", "aab"));
    assert!(contains("naïve café", "ve ca"));
}

#[test]
fn starts_with_checks_the_prefix() {
    assert!(starts_with("https://x", "https://"));
    assert!(!starts_with("http://x", "https://"));
    assert!(starts_with("abc", ""));
    assert!(!starts_with("ab", "abc"));
}

#[test]
fn decimal_rendering() {
    assert_eq!(decimal_string(0), "0");
    assert_eq!(decimal_string(7), "7");
    assert_eq!(decimal_string(10), "10");
    assert_eq!(decimal_string(1_234_567_890), "1234567890");
    assert_eq!(decimal_string(u64::MAX), "18446744073709551615");
}

#[test]
fn borrowing_optional_text() {
    let held = Some("y".to_string());
    assert_eq!(as_deref(&held), Some("y"));
    assert_eq!(as_deref(&None), None);
}
