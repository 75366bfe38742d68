//! Dictionary parsing and line splitting.

use pegasus::app::dictionary_words;
use pegasus::text::{join_words, replace_all, split_lines};

#[test]
fn dictionary_keeps_only_real_entries_in_order() {
    let words = dictionary_words("foo\n# comment\n\nbar  \n");
    assert_eq!(words, vec!["foo".to_string(), "bar".to_string()]);
}

#[test]
fn dictionary_of_empty_content_is_empty() {
    let words = dictionary_words("");
    assert!(words.is_empty());
    let words = dictionary_words("\n\n   \n# only comments\n#\n");
    assert!(words.is_empty());
}

#[test]
fn dictionary_trims_entries_and_handles_crlf() {
    let words = dictionary_words("  alpha  \r\nbeta\r\n  # note\r\ngamma");
    assert_eq!(
        words,
        vec!["alpha".to_string(), "beta".to_string(), "gamma".to_string()]
    );
}

#[test]
fn dictionary_keeps_hash_inside_a_word() {
    let words = dictionary_words("a#b\n #lead\nc");
    assert_eq!(words, vec!["a#b".to_string(), "c".to_string()]);
}

#[test]
fn lines_split_like_std() {
    assert_eq!(
        split_lines("a\nb\r\nc\n"),
        vec!["a".to_string(), "b".to_string(), "c".to_string()]
    );
    assert_eq!(split_lines(""), Vec::<String>::new());
    assert_eq!(split_lines("\n"), vec![String::new()]);
    assert_eq!(split_lines("no newline"), vec!["no newline".to_string()]);
}

#[test]
fn final_line_keeps_a_bare_carriage_return() {
    assert_eq!(split_lines("a\r"), vec!["a\r".to_string()]);
    assert_eq!(split_lines("a\r\nb\r"), vec!["a".to_string(), "b\r".to_string()]);
}

#[test]
fn join_inserts_the_separator() {
    assert_eq!(join_words(&Vec::new(), ", "), "");
    assert_eq!(join_words(&vec!["one".to_string()], ", "), "one");
    assert_eq!(
        join_words(&vec!["one".to_string(), "two".to_string(), "three".to_string()], ", "),
        "one, two, three"
    );
}

#[test]
fn replace_substitutes_leftmost_without_overlap() {
    assert_eq!(replace_all("aaa", "aa", "b"), "ba");
    assert_eq!(replace_all("helo helo", "helo", "X"), "X X");
    assert_eq!(replace_all("abc", "z", "y"), "abc");
    assert_eq!(replace_all("ababab", "ab", "ba"), "bababa");
}
