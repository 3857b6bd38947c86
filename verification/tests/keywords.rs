use sqlite_glance::keywords::{is_keyword, KEYWORD_COUNT};
use sqlite_glance::text::{chars_of, i64_text, same_text, string_of, to_ascii_upper, u64_text, usize_text};

#[test]
fn reserved_words_are_recognised() {
    for word in ["ABORT", "SELECT", "TABLE", "WITHOUT", "CURRENT_TIMESTAMP", "MATERIALIZED", "AS"] {
        assert!(is_keyword(word), "{}", word);
    }
    assert_eq!(KEYWORD_COUNT, 147);
}

#[test]
fn letter_case_does_not_matter() {
    assert!(is_keyword("select"));
    assert!(is_keyword("Select"));
    assert!(is_keyword("sElEcT"));
    assert!(is_keyword("current_date"));
}

#[test]
fn other_words_are_not_reserved() {
    for word in ["", "t1", "name", "selec", "selects", "select ", " select", "s\u{00e9}lect", "ROWID"] {
        assert!(!is_keyword(word), "{:?}", word);
    }
}

#[test]
fn only_ascii_letters_are_folded() {
    assert_eq!(to_ascii_upper('a'), 'A');
    assert_eq!(to_ascii_upper('z'), 'Z');
    assert_eq!(to_ascii_upper('A'), 'A');
    assert_eq!(to_ascii_upper('_'), '_');
    assert_eq!(to_ascii_upper('\u{00e9}'), '\u{00e9}');
    assert_eq!(to_ascii_upper('\u{0131}'), '\u{0131}');
    assert!(!is_keyword("\u{0131}n"));
}

#[test]
fn numbers_in_decimal() {
    assert_eq!(u64_text(0), "0");
    assert_eq!(u64_text(7), "7");
    assert_eq!(u64_text(10), "10");
    assert_eq!(u64_text(u64::MAX), "18446744073709551615");
    assert_eq!(usize_text(12345), "12345");
    assert_eq!(i64_text(-1), "-1");
    assert_eq!(i64_text(i64::MIN), i64::MIN.to_string());
    for n in [0i64, 9, 10, 99, 100, 1_000_000_007, -10, -99, i64::MAX] {
        assert_eq!(i64_text(n), n.to_string());
    }
}

#[test]
fn strings_and_characters() {
    assert_eq!(chars_of("a\u{e9}\u{250c}"), vec!['a', '\u{e9}', '\u{250c}']);
    assert_eq!(string_of(&vec!['x', '\n', '"']), "x\n\"");
    assert!(same_text("abc", "abc"));
    assert!(!same_text("abc", "abd"));
    assert!(!same_text("abc", "ab"));
}
