use surrealist::json::{check_value_text, quoted};
use surrealist::text::{
    contains_text, decimal_text, from_chars, join, owned, same_text, to_chars,
};

#[test]
fn decimal_text_of_small_and_large_numbers() {
    assert_eq!(decimal_text(0), "0");
    assert_eq!(decimal_text(7), "7");
    assert_eq!(decimal_text(10), "10");
    assert_eq!(decimal_text(1234567890), "1234567890");
    assert_eq!(decimal_text(u64::MAX), "18446744073709551615");
}

#[test]
fn chars_round_trip() {
    let text = "a\u{1F600}µ\n";
    let chars = to_chars(text);
    assert_eq!(chars, vec!['a', '\u{1F600}', 'µ', '\n']);
    assert_eq!(from_chars(&chars), text);
    assert!(to_chars("").is_empty());
    assert_eq!(owned("abc"), "abc");
}

#[test]
fn same_text_compares_characters() {
    assert!(same_text("", ""));
    assert!(same_text("root", "root"));
    assert!(!same_text("root", "roof"));
    assert!(!same_text("root", "roo"));
}

#[test]
fn join_puts_the_separator_between_parts() {
    let parts = vec!["a".to_string(), "".to_string(), "c".to_string()];
    assert_eq!(join(&parts, ", "), "a, , c");
    assert_eq!(join(&vec!["only".to_string()], ", "), "only");
    assert_eq!(join(&Vec::new(), ", "), "");
}

#[test]
fn contains_text_finds_whole_entries() {
    let list = vec!["a".to_string(), "bc".to_string()];
    assert!(contains_text(&list, "bc"));
    assert!(!contains_text(&list, "b"));
    assert!(!contains_text(&Vec::new(), ""));
}

#[test]
fn quoted_escapes_as_json_does() {
    for text in ["", "plain", "a\"b\\c", "\n\r\t\u{8}\u{c}", "\u{0}\u{1f}\u{7f}", "µ\u{1F600}/"] {
        assert_eq!(quoted(text), serde_json::to_string(text).unwrap());
    }
    assert_eq!(quoted("a\"b"), "\"a\\\"b\"");
    assert_eq!(quoted("\u{1b}"), "\"\\u001b\"");
}

#[test]
fn value_texts_are_closed_and_single() {
    for text in ["1", "true", "\"a\"", "[]", "{}", "[1,[2,{\"a\":\"]\"}]]", "\"\\\"\"", "\"\\\\\""] {
        assert!(check_value_text(text), "{}", text);
    }
    for text in ["", ",", "1,2", "]", "}", "[", "{", "[1]]", "\"", "\"\\\"", "[\"]", "\"a\\"] {
        assert!(!check_value_text(text), "{}", text);
    }
}
