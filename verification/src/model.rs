//! The editor as a mathematical value: the document, the cursor, the
//! selection and the modes, and each operation as a function from one such
//! value to the next. The executable editor is specified against these.

use vstd::prelude::*;
use crate::text::{split_lines, spliced};

verus! {

/// Which key bindings are active.
#[derive(Clone, Copy, Debug, PartialEq, Eq, Hash, Structural)]
pub enum EditorMode {
    Normal,
    Insert,
}

/// How the selection anchor follows the cursor when the cursor moves.
#[derive(Clone, Copy, Debug, PartialEq, Eq, Hash, Structural)]
pub enum VisualMode {
    /// The anchor snaps to the cursor on every move: nothing stays selected.
    PerMove,
    /// The anchor stays where it is, and the cursor extends the selection.
    AllMove,
    /// Selection by whole lines. The anchor stays where it is.
    Line,
    /// Selection of a block of columns. The anchor stays where it is.
    Block,
}

/// A place in the document: a row, and a column counted in characters.
pub struct Pos {
    pub row: int,
    pub col: int,
}

impl Pos {
    /// Strictly earlier in the document: rows first, then columns.
    pub open spec fn before(self, other: Pos) -> bool {
        self.row < other.row || (self.row == other.row && self.col < other.col)
    }
}

/// The earlier of the two ends of a selection.
pub open spec fn selection_first(cursor: Pos, anchor: Pos) -> Pos {
    if cursor.before(anchor) {
        cursor
    } else {
        anchor
    }
}

/// The later of the two ends of a selection.
pub open spec fn selection_last(cursor: Pos, anchor: Pos) -> Pos {
    if cursor.before(anchor) {
        anchor
    } else {
        cursor
    }
}

/// `x` brought into the range from `low` to `high`.
pub open spec fn clamp(x: int, low: int, high: int) -> int {
    if x < low {
        low
    } else if x > high {
        high
    } else {
        x
    }
}

/// An editing command as a mathematical value.
pub enum CommandView {
    Insert(Seq<char>),
    Backspace,
    Delete,
    Vmove(int),
    Hmove(int),
    Mode(EditorMode),
    Visual(VisualMode),
    Command,
}

/// A binding table as a mathematical map: what each key is bound to in each
/// mode.
pub type BindingMap = Map<(EditorMode, Seq<char>), CommandView>;

/// One line of the document as it is drawn.
pub struct TextRunView {
    pub row: int,
    pub text: Seq<char>,
    /// Whether the cursor is on this line.
    pub has_cursor: bool,
}

/// The selected columns of one line: from `start` up to, not including,
/// `end`.
pub struct SpanView {
    pub row: int,
    pub start: int,
    pub end: int,
}

/// Where the cursor is drawn. Its left edge is the place of column `col` on
/// line `row`. Its width is the distance to the place of column `neighbor`,
/// the next column, or the one before where the cursor is behind the last
/// character; on an empty line there is none.
pub struct CursorBoxView {
    pub row: int,
    pub col: int,
    pub neighbor: Option<int>,
}

/// The state of an editor.
#[verifier::ext_equal]
pub struct EditorView {
    /// What the document was loaded from, if it was loaded.
    pub file_name: Option<Seq<char>>,
    /// The document, line by line.
    pub lines: Seq<Seq<char>>,
    /// The text of the command line.
    pub command_buffer: Seq<char>,
    /// The offset of the command line's cursor.
    pub command_cursor: int,
    /// Whether typing goes to the command line.
    pub command_mode: bool,
    pub mode: EditorMode,
    pub visual: VisualMode,
    /// Rows and columns of the visible window.
    pub editor_size: (int, int),
    /// Row and column of the window's first cell.
    pub window_pos: (int, int),
    pub cursor: Pos,
    /// The other end of the selection.
    pub anchor: Pos,
}

impl EditorView {
    /// `p` names a row of the document and a column on it; the column just
    /// past the last character counts.
    pub open spec fn in_bounds(self, p: Pos) -> bool {
        &&& 0 <= p.row < self.lines.len()
        &&& 0 <= p.col <= self.lines[p.row].len()
    }

    /// The invariant of an editor: there is at least one line, cursor and
    /// anchor are places in the document, and the command cursor is an offset
    /// into the command line.
    pub open spec fn valid(self) -> bool {
        &&& self.lines.len() >= 1
        &&& self.in_bounds(self.cursor)
        &&& self.in_bounds(self.anchor)
        &&& 0 <= self.command_cursor <= self.command_buffer.len()
        &&& 0 <= self.window_pos.0
        &&& 0 <= self.window_pos.1
        &&& 0 <= self.editor_size.0
        &&& 0 <= self.editor_size.1
    }

    /// The earlier end of the selection.
    pub open spec fn first(self) -> Pos {
        selection_first(self.cursor, self.anchor)
    }

    /// The later end of the selection.
    pub open spec fn last(self) -> Pos {
        selection_last(self.cursor, self.anchor)
    }

    /// An editor on one empty line, with nothing loaded.
    pub open spec fn fresh() -> EditorView {
        EditorView {
            file_name: None,
            lines: seq![Seq::<char>::empty()],
            command_buffer: Seq::<char>::empty(),
            command_cursor: 0,
            command_mode: false,
            mode: EditorMode::Normal,
            visual: VisualMode::PerMove,
            editor_size: (10, 10),
            window_pos: (0, 0),
            cursor: Pos { row: 0, col: 0 },
            anchor: Pos { row: 0, col: 0 },
        }
    }

    /// An editor on the lines of `text`, loaded from `name`.
    pub open spec fn loaded(name: Seq<char>, text: Seq<char>) -> EditorView {
        EditorView { file_name: Some(name), lines: split_lines(text), ..Self::fresh() }
    }

    /// The cell just past the window's last row and column.
    pub open spec fn window_outer_bound(self) -> (int, int) {
        (self.window_pos.0 + self.editor_size.0, self.window_pos.1 + self.editor_size.1)
    }

    /// The state after the command line was handed over: the command line is
    /// empty again and typing goes back to the document.
    pub open spec fn exec_command(self) -> EditorView {
        EditorView {
            command_buffer: Seq::<char>::empty(),
            command_cursor: 0,
            command_mode: false,
            ..self
        }
    }

    /// The document after `text` went in at the cursor.
    ///
    /// Without a newline, `text` goes into the cursor's line. With newlines,
    /// the line is broken at the cursor: the first piece of `text` ends the
    /// head, the pieces between the first and the last become lines of their
    /// own, and the tail follows them. The piece after the last newline is
    /// not inserted.
    pub open spec fn inserted_lines(self, text: Seq<char>) -> Seq<Seq<char>> {
        let row = self.cursor.row;
        let col = self.cursor.col;
        let line = self.lines[row];
        if !text.contains('\n') {
            self.lines.update(row, spliced(line, col, text))
        } else {
            let parts = split_lines(text);
            self.lines.take(row) + seq![line.take(col) + parts[0]] + parts.subrange(
                1,
                parts.len() - 1,
            ) + seq![line.skip(col)] + self.lines.skip(row + 1)
        }
    }

    /// Where the cursor stands after `text` went in: behind the text on the
    /// same line, or, if the line was broken, at the start of the tail. The
    /// tail is a line of its own in every case, so this row exists.
    pub open spec fn inserted_cursor(self, text: Seq<char>) -> Pos {
        if !text.contains('\n') {
            Pos { row: self.cursor.row, col: self.cursor.col + text.len() }
        } else {
            Pos { row: self.cursor.row + split_lines(text).len() - 1, col: 0 }
        }
    }

    /// Typing `text`. On the command line a lone newline runs the command and
    /// any other text goes in at the command cursor. In the document the
    /// anchor marks where the text went in.
    pub open spec fn insert(self, text: Seq<char>) -> EditorView {
        if self.command_mode {
            if text == seq!['\n'] {
                self.exec_command()
            } else {
                EditorView {
                    command_buffer: spliced(self.command_buffer, self.command_cursor, text),
                    command_cursor: self.command_cursor + text.len(),
                    ..self
                }
            }
        } else {
            EditorView {
                lines: self.inserted_lines(text),
                cursor: self.inserted_cursor(text),
                anchor: self.cursor,
                ..self
            }
        }
    }

    /// The command that typing `text` hands over, if it hands one over.
    pub open spec fn insert_runs(self, text: Seq<char>) -> Option<Seq<char>> {
        if self.command_mode && text == seq!['\n'] {
            Some(self.command_buffer)
        } else {
            None
        }
    }

    /// Removing what lies between the two ends of the selection: the line of
    /// the earlier end up to it, then the line of the later end from it on,
    /// become one line, and the lines between are gone. Cursor and anchor
    /// meet at the earlier end.
    pub open spec fn delete_selection(self) -> EditorView {
        let first = self.first();
        let last = self.last();
        let joined = self.lines[first.row].take(first.col) + self.lines[last.row].skip(last.col);
        EditorView {
            lines: self.lines.take(first.row) + seq![joined] + self.lines.skip(last.row + 1),
            cursor: first,
            anchor: first,
            ..self
        }
    }

    /// Removing the character before the cursor; at the start of a line, the
    /// line joins the one above. The anchor keeps pointing at the same text.
    pub open spec fn backspace(self) -> EditorView {
        let row = self.cursor.row;
        let col = self.cursor.col;
        if self.command_mode {
            if self.command_cursor > 0 {
                EditorView {
                    command_buffer: self.command_buffer.remove(self.command_cursor - 1),
                    command_cursor: self.command_cursor - 1,
                    ..self
                }
            } else {
                self
            }
        } else if col > 0 {
            EditorView {
                lines: self.lines.update(row, self.lines[row].remove(col - 1)),
                cursor: Pos { row, col: col - 1 },
                anchor: if self.anchor.row == row && self.anchor.col >= col {
                    Pos { row, col: self.anchor.col - 1 }
                } else {
                    self.anchor
                },
                ..self
            }
        } else if row > 0 {
            let above = self.lines[row - 1];
            EditorView {
                lines: self.lines.remove(row).update(row - 1, above + self.lines[row]),
                cursor: Pos { row: row - 1, col: above.len() as int },
                anchor: if self.anchor.row == row {
                    Pos { row: row - 1, col: self.anchor.col + above.len() }
                } else if self.anchor.row > row {
                    Pos { row: self.anchor.row - 1, col: self.anchor.col }
                } else {
                    self.anchor
                },
                ..self
            }
        } else {
            self
        }
    }

    /// Where the anchor stands after the cursor moved to `cursor`.
    pub open spec fn moved_anchor(self, cursor: Pos) -> Pos {
        if self.visual == VisualMode::PerMove {
            cursor
        } else {
            self.anchor
        }
    }

    /// Moving the cursor `delta` rows down, or up if `delta` is negative, no
    /// further than the first and the last line, and no further right than
    /// the new line's end. The command line has no rows: there nothing moves.
    pub open spec fn vmove_cursor(self, delta: int) -> EditorView {
        if self.command_mode {
            self
        } else {
            let row = clamp(self.cursor.row + delta, 0, self.lines.len() - 1);
            let col = if self.cursor.col > self.lines[row].len() {
                self.lines[row].len() as int
            } else {
                self.cursor.col
            };
            let cursor = Pos { row, col };
            EditorView { cursor, anchor: self.moved_anchor(cursor), ..self }
        }
    }

    /// Moving the cursor `delta` columns right, or left if `delta` is
    /// negative, within its line; on the command line, within the command.
    pub open spec fn hmove_cursor(self, delta: int) -> EditorView {
        if self.command_mode {
            EditorView {
                command_cursor: clamp(self.command_cursor + delta, 0, self.command_buffer.len() as int),
                ..self
            }
        } else {
            let row = self.cursor.row;
            let cursor = Pos {
                row,
                col: clamp(self.cursor.col + delta, 0, self.lines[row].len() as int),
            };
            EditorView { cursor, anchor: self.moved_anchor(cursor), ..self }
        }
    }

    /// Entering the command line: typing is insertion, and it goes to the
    /// command line.
    pub open spec fn enter_command_mode(self) -> EditorView {
        EditorView { mode: EditorMode::Insert, command_mode: true, ..self }
    }

    /// The state after `command` was carried out.
    pub open spec fn apply(self, command: CommandView) -> EditorView {
        match command {
            CommandView::Insert(text) => self.insert(text),
            CommandView::Backspace => self.backspace(),
            CommandView::Delete => self.delete_selection(),
            CommandView::Vmove(delta) => self.vmove_cursor(delta),
            CommandView::Hmove(delta) => self.hmove_cursor(delta),
            CommandView::Mode(mode) => EditorView { mode, ..self },
            CommandView::Visual(visual) => EditorView { visual, ..self },
            CommandView::Command => self.enter_command_mode(),
        }
    }

    /// The command line that carrying out `command` hands over, if any.
    pub open spec fn apply_runs(self, command: CommandView) -> Option<Seq<char>> {
        match command {
            CommandView::Insert(text) => self.insert_runs(text),
            _ => None,
        }
    }

    /// The state after `key` was pressed: what `key` is bound to in the
    /// current mode is carried out, and a key that is not bound does nothing.
    pub open spec fn press(self, table: BindingMap, key: Seq<char>) -> EditorView {
        if table.contains_key((self.mode, key)) {
            self.apply(table[(self.mode, key)])
        } else {
            self
        }
    }

    /// The command line that pressing `key` hands over, if any.
    pub open spec fn press_runs(self, table: BindingMap, key: Seq<char>) -> Option<Seq<char>> {
        if table.contains_key((self.mode, key)) {
            self.apply_runs(table[(self.mode, key)])
        } else {
            None
        }
    }

    /// What is drawn of the text: every line, in order.
    pub open spec fn text_runs(self) -> Seq<TextRunView> {
        Seq::new(
            self.lines.len(),
            |row: int| TextRunView { row, text: self.lines[row], has_cursor: row == self.cursor.row },
        )
    }

    /// What is highlighted: one span for each line from that of the earlier
    /// end of the selection to that of the later end. The first span begins
    /// at the earlier end and the last one ends at the later end; otherwise a
    /// span covers its line.
    pub open spec fn selection_spans(self) -> Seq<SpanView> {
        let first = self.first();
        let last = self.last();
        Seq::new(
            (last.row - first.row + 1) as nat,
            |k: int|
                {
                    let row = first.row + k;
                    SpanView {
                        row,
                        start: if row == first.row {
                            first.col
                        } else {
                            0
                        },
                        end: if row == last.row {
                            last.col
                        } else {
                            self.lines[row].len() as int
                        },
                    }
                },
        )
    }

    /// Where the cursor is drawn.
    pub open spec fn cursor_box(self) -> CursorBoxView {
        let row = self.cursor.row;
        let col = self.cursor.col;
        CursorBoxView {
            row,
            col,
            neighbor: if col < self.lines[row].len() {
                Some(col + 1)
            } else if col > 0 {
                Some(col - 1)
            } else {
                None
            },
        }
    }

    /// Whether each line of this document is the line of `other` at the same
    /// place.
    pub open spec fn same(self, other: EditorView) -> bool {
        &&& self.lines.len() <= other.lines.len()
        &&& forall|row: int| 0 <= row < self.lines.len() ==> self.lines[row] == other.lines[row]
    }

    /// The state after each of `commands` was carried out in turn.
    pub open spec fn apply_all(self, commands: Seq<CommandView>) -> EditorView
        decreases commands.len(),
    {
        if commands.len() == 0 {
            self
        } else {
            self.apply_all(commands.drop_last()).apply(commands.last())
        }
    }
}

} // verus!
