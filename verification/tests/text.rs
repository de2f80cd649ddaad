use ws_tunnel::text::{chars_of, contains, push_decimal, read_port, same_text, strip_prefix, word_ranges};

#[test]
fn words_are_found_with_their_positions() {
    let chars = chars_of("  ab c\t\n def ");
    assert_eq!(word_ranges(&chars), vec![(2, 4), (5, 6), (9, 12)]);
    assert_eq!(word_ranges(&chars_of("")), vec![]);
    assert_eq!(word_ranges(&chars_of(" \r\n")), vec![]);
}

#[test]
fn prefixes_are_stripped_by_characters() {
    assert_eq!(strip_prefix("äöü", "ä"), Some("öü"));
    assert_eq!(strip_prefix("abc", ""), Some("abc"));
    assert_eq!(strip_prefix("abc", "abc"), Some(""));
    assert_eq!(strip_prefix("abc", "abcd"), None);
    assert_eq!(strip_prefix("abc", "b"), None);
}

#[test]
fn substrings_are_found() {
    assert!(contains("abcabd", "abd"));
    assert!(contains("aaab", "aab"));
    assert!(contains("abc", ""));
    assert!(contains("", ""));
    assert!(!contains("", "a"));
    assert!(!contains("abc", "abcd"));
    assert!(!contains("abc", "ac"));
}

#[test]
fn decimals_are_written_and_read() {
    let mut out = String::from("n=");
    push_decimal(&mut out, 40960);
    assert_eq!(out, "n=40960");
    let chars = chars_of(&out);
    assert_eq!(read_port(&chars, 2, 7), Some(40960));
    assert_eq!(read_port(&chars, 2, 2), None);
    assert_eq!(read_port(&chars, 1, 7), None);
}

#[test]
fn texts_are_compared() {
    assert!(same_text("x", "x"));
    assert!(!same_text("x", "X"));
}
