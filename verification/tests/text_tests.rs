use flashtool::text::{chars_of, contains_str, decimal_string, ends_with_char, eq_ignore_ascii_case, trim};

#[test]
fn chars_of_keeps_every_character() {
    assert_eq!(chars_of("aé\u{3000}z"), vec!['a', 'é', '\u{3000}', 'z']);
    assert!(chars_of("").is_empty());
}

#[test]
fn substring_search() {
    assert!(contains_str("Cryptodome OK\n", "Cryptodome OK"));
    assert!(contains_str("abc", ""));
    assert!(contains_str("", ""));
    assert!(!contains_str("", "a"));
    assert!(!contains_str("Cryptodome O", "Cryptodome OK"));
    assert!(contains_str("xxkl5", "kl5"));
    assert!(!contains_str("kl", "kl5"));
}

#[test]
fn trim_removes_unicode_white_space_at_both_ends() {
    assert_eq!(trim("  a b \n"), "a b");
    assert_eq!(trim("\u{3000}\u{85}x\u{a0}\u{2029}"), "x");
    assert_eq!(trim(" \t\r\n"), "");
    assert_eq!(trim("x"), "x");
    assert_eq!(trim("\u{200b}x"), "\u{200b}x");
}

#[test]
fn trim_agrees_with_std() {
    for s in ["", " ", " a ", "\u{1680}b\u{205f}", "\u{feff}c", "a\u{2000} \u{200a}"] {
        assert_eq!(trim(s), s.trim());
    }
}

#[test]
fn ends_with_slash() {
    assert!(ends_with_char("python312/", '/'));
    assert!(!ends_with_char("python312/python.exe", '/'));
    assert!(!ends_with_char("", '/'));
}

#[test]
fn ascii_case_insensitive_equality() {
    assert!(eq_ignore_ascii_case("AuTo", "auto"));
    assert!(!eq_ignore_ascii_case("auto ", "auto"));
    assert!(!eq_ignore_ascii_case("ÀUTO", "àuto"));
    assert!(eq_ignore_ascii_case("", ""));
}

#[test]
fn decimal_text_matches_display() {
    for i in [0, 7, -1, 10, 1234, -2147483648, 2147483647] {
        assert_eq!(decimal_string(i), i.to_string());
    }
}
