use saucepan::text::{char_len, split};

#[test]
fn split_gives_each_piece() {
    assert_eq!(split("ab"), vec!["ab".to_string()]);
    assert_eq!(split("a\nb\nc"), vec!["a".to_string(), "b".to_string(), "c".to_string()]);
    assert_eq!(split(""), vec![String::new()]);
    assert_eq!(split("\n"), vec![String::new(), String::new()]);
    assert_eq!(split("x\n\ny\n"), vec!["x".to_string(), String::new(), "y".to_string(), String::new()]);
}

#[test]
fn split_agrees_with_the_standard_split() {
    for text in ["", "a", "\n", "a\nb", "\n\n\n", "one\ntwo\n", "\u{e9}\n\u{20ac}x"] {
        let expected: Vec<String> = text.split('\n').map(|piece| piece.to_string()).collect();
        assert_eq!(split(text), expected);
        assert_eq!(split(text).join("\n"), text);
    }
}

#[test]
fn char_len_counts_characters() {
    assert_eq!(char_len(""), 0);
    assert_eq!(char_len("abc"), 3);
    assert_eq!(char_len("h\u{e9}\u{20ac}"), 3);
}
