use saucepan::{CursorBox, EditorData, Span, TextRun, VisualMode};

fn doc(text: &str) -> EditorData {
    EditorData::from_file("notes.txt", text)
}

fn run(row: usize, text: &str, has_cursor: bool) -> TextRun {
    TextRun { row, text: text.to_string(), has_cursor }
}

#[test]
fn every_line_is_a_run() {
    let mut editor = doc("ab\n\ncd");
    assert!(editor.set_cursor(2, 1));
    let (runs, _, _) = editor.format_buffer();
    assert_eq!(runs, vec![run(0, "ab", false), run(1, "", false), run(2, "cd", true)]);
}

#[test]
fn cursor_box_uses_the_next_column() {
    let mut editor = doc("abc");
    assert!(editor.set_cursor(0, 1));
    let (_, cursor, _) = editor.format_buffer();
    assert_eq!(cursor, CursorBox { row: 0, col: 1, neighbor: Some(2) });
}

#[test]
fn cursor_box_behind_the_last_character_uses_the_column_before() {
    let mut editor = doc("abc");
    assert!(editor.set_cursor(0, 3));
    let (_, cursor, _) = editor.format_buffer();
    assert_eq!(cursor, CursorBox { row: 0, col: 3, neighbor: Some(2) });
}

#[test]
fn cursor_box_on_an_empty_line_has_no_neighbor() {
    let mut editor = doc("abc\n");
    assert!(editor.set_cursor(1, 0));
    let (_, cursor, _) = editor.format_buffer();
    assert_eq!(cursor, CursorBox { row: 1, col: 0, neighbor: None });
}

#[test]
fn empty_selection_is_one_empty_span() {
    let mut editor = doc("abc\ndef");
    assert!(editor.set_cursor(1, 2));
    assert!(editor.set_selection_start(1, 2));
    let (_, _, spans) = editor.format_buffer();
    assert_eq!(spans, vec![Span { row: 1, start: 2, end: 2 }]);
}

#[test]
fn selection_on_one_row() {
    let mut editor = doc("abcdef");
    assert!(editor.set_cursor(0, 4));
    assert!(editor.set_selection_start(0, 1));
    let (_, _, spans) = editor.format_buffer();
    assert_eq!(spans, vec![Span { row: 0, start: 1, end: 4 }]);
}

#[test]
fn selection_over_rows_covers_the_rows_between() {
    let mut editor = doc("zero\none\ntwenty\nthree\nfour");
    editor.set_visual(VisualMode::AllMove);
    assert!(editor.set_cursor(1, 2));
    assert!(editor.set_selection_start(3, 1));
    let expected = vec![
        Span { row: 1, start: 2, end: 3 },
        Span { row: 2, start: 0, end: 6 },
        Span { row: 3, start: 0, end: 1 },
    ];
    assert_eq!(editor.format_buffer().2, expected);
    assert!(editor.set_cursor(3, 1));
    assert!(editor.set_selection_start(1, 2));
    assert_eq!(editor.format_buffer().2, expected);
}

#[test]
fn same_compares_line_by_line() {
    let one = doc("ab\ncd");
    let mut two = doc("ab\ncd");
    assert!(one.same(&two));
    assert!(two.set_cursor(1, 1));
    assert!(one.same(&two));
    two.insert("x");
    assert!(!one.same(&two));
    assert!(!two.same(&one));
}

#[test]
fn same_looks_at_the_lines_of_the_first() {
    let short = doc("ab");
    let long = doc("ab\ncd");
    assert!(short.same(&long));
    assert!(!long.same(&short));
}
