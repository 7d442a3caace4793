use baz_launcher::text::{
    chars_of, decimal_text, ends_with, join, joined_pair, replace_char, same_text, split, trim,
    trim_start_matches,
};

#[test]
fn numbers_in_decimal() {
    assert_eq!(decimal_text(0), "0");
    assert_eq!(decimal_text(47824), "47824");
    assert_eq!(decimal_text(u64::MAX), "18446744073709551615");
}

#[test]
fn splitting_keeps_empty_pieces() {
    assert_eq!(split("a//b/", '/'), vec!["a", "", "b", ""]);
    assert_eq!(split("", '/'), vec![""]);
}

#[test]
fn trimming_takes_unicode_white_space() {
    assert_eq!(trim("\u{3000} 1\r\n"), "1");
    assert_eq!(trim(" \t "), "");
}

#[test]
fn the_pieces_joined_again_are_the_text() {
    for text in vec!["", "/", "a/b", "//a/", "\u{e9}/\u{4e16}"] {
        let pieces = split(text, '/');
        assert_eq!(join(&pieces, "/"), text);
        assert!(pieces.iter().all(|p| !p.contains('/')));
    }
    assert_eq!(join(&Vec::new(), ","), "");
}

#[test]
fn endings_and_beginnings() {
    assert!(ends_with("a-windows.zip", "-windows.zip"));
    assert!(ends_with("zip", ""));
    assert!(!ends_with("zip", ".zip"));
    assert!(ends_with("caf\u{e9}", "\u{e9}"));
    assert_eq!(trim_start_matches("vv1v", 'v'), "1v");
    assert_eq!(trim_start_matches("", 'v'), "");
}

#[test]
fn characters_and_texts() {
    assert_eq!(chars_of("a\u{4e16}"), vec!['a', '\u{4e16}']);
    assert!(same_text("a\u{4e16}", "a\u{4e16}"));
    assert!(!same_text("a", "ab"));
    assert!(!same_text("a", "b"));
    assert_eq!(joined_pair("a", "b"), "ab");
    assert_eq!(replace_char("a b c", ' ', '-'), "a-b-c");
}
