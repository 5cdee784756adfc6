//! The editor's data: the document as a vector of lines, the cursor, the
//! selection anchor and the modes, with the operations that edit and move.

use vstd::prelude::*;
use vstd::string::StrSliceExecFns;
use crate::bindings::{CommandMap, EditorCommand};
use crate::model::{clamp, EditorMode, EditorView, Pos, VisualMode};
use crate::render::{run_views, span_views, CursorBox, Span, TextRun};
use crate::text::{char_len, cut, lemma_split_single, splice, split, texts, weld};

verus! {

/// A place in the document: a row, and a column counted in characters.
#[derive(Clone, Copy, Debug, PartialEq, Eq, Structural)]
pub struct Position {
    pub row: usize,
    pub col: usize,
}

impl View for Position {
    type V = Pos;

    open spec fn view(&self) -> Pos {
        Pos { row: self.row as int, col: self.col as int }
    }
}

/// What a string option holds, as characters.
pub open spec fn option_text(name: Option<String>) -> Option<Seq<char>> {
    match name {
        Some(s) => Some(s@),
        None => None,
    }
}

/// The size of a negative step.
fn magnitude(x: isize) -> (size: usize)
    requires
        x < 0,
    ensures
        size == -x,
{
    (-(x + 1)) as usize + 1
}

/// `at` moved by `delta` and kept within 0 and `limit`.
fn advance(at: usize, delta: isize, limit: usize) -> (to: usize)
    requires
        at <= limit,
    ensures
        to == clamp(at + delta, 0, limit as int),
{
    if delta >= 0 {
        let step = delta as usize;
        if step >= limit - at {
            limit
        } else {
            at + step
        }
    } else {
        let step = magnitude(delta);
        if step >= at {
            0
        } else {
            at - step
        }
    }
}

/// Whether `text` is one newline and nothing else.
fn is_newline(text: &str) -> (yes: bool)
    ensures
        yes == (text@ == seq!['\n']),
{
    if text.unicode_len() == 1 {
        let c = text.get_char(0);
        assert(c == '\n' ==> text@ =~= seq!['\n']);
        c == '\n'
    } else {
        false
    }
}

/// Puts copies of `parts[from..to]` into `lines`, in order, before the line
/// at index `at`.
fn insert_lines(lines: &mut Vec<String>, at: usize, parts: &Vec<String>, from: usize, to: usize)
    requires
        at <= old(lines)@.len(),
        from <= to <= parts@.len(),
    ensures
        texts(final(lines)@) == texts(old(lines)@).take(at as int) + texts(parts@).subrange(
            from as int,
            to as int,
        ) + texts(old(lines)@).skip(at as int),
{
    let ghost before = texts(lines@);
    let mut rest = lines.split_off(at);
    assert(texts(lines@) =~= before.take(at as int));
    assert(texts(rest@) =~= before.skip(at as int));
    let mut k = from;
    while k < to
        invariant
            from <= k <= to <= parts@.len(),
            texts(lines@) == before.take(at as int) + texts(parts@).subrange(from as int, k as int),
        decreases to - k,
    {
        let ghost sofar = texts(lines@);
        lines.push(parts[k].clone());
        assert(texts(lines@) =~= sofar.push(parts@[k as int]@));
        k = k + 1;
        assert(texts(lines@) =~= before.take(at as int) + texts(parts@).subrange(
            from as int,
            k as int,
        ));
    }
    let ghost middle = texts(lines@);
    lines.append(&mut rest);
    assert(texts(lines@) =~= middle + before.skip(at as int));
}

/// A document under edit.
pub struct EditorData {
    file_name: Option<String>,
    buffer: Vec<String>,
    command_buffer: String,
    command_cursor: usize,
    command_mode: bool,
    mode: EditorMode,
    visual: VisualMode,
    editor_size: (usize, usize),
    window_pos: (usize, usize),
    cursor_pos: Position,
    selection_start: Position,
}

impl View for EditorData {
    type V = EditorView;

    closed spec fn view(&self) -> EditorView {
        EditorView {
            file_name: option_text(self.file_name),
            lines: texts(self.buffer@),
            command_buffer: self.command_buffer@,
            command_cursor: self.command_cursor as int,
            command_mode: self.command_mode,
            mode: self.mode,
            visual: self.visual,
            editor_size: (self.editor_size.0 as int, self.editor_size.1 as int),
            window_pos: (self.window_pos.0 as int, self.window_pos.1 as int),
            cursor: self.cursor_pos@,
            anchor: self.selection_start@,
        }
    }
}

impl Clone for EditorData {
    /// A second editor in the same state.
    fn clone(&self) -> (copy: Self)
        ensures
            copy@ == self@,
    {
        let copy = Self {
            file_name: self.file_name.clone(),
            buffer: self.buffer.clone(),
            command_buffer: self.command_buffer.clone(),
            command_cursor: self.command_cursor,
            command_mode: self.command_mode,
            mode: self.mode,
            visual: self.visual,
            editor_size: self.editor_size,
            window_pos: self.window_pos,
            cursor_pos: self.cursor_pos,
            selection_start: self.selection_start,
        };
        assert(copy@ =~~= self@);
        copy
    }
}

impl EditorData {
    /// The editor's invariant: its state is valid, and the window's far
    /// corner can be computed.
    pub open spec fn wf(&self) -> bool {
        &&& self@.valid()
        &&& self@.window_outer_bound().0 <= usize::MAX
        &&& self@.window_outer_bound().1 <= usize::MAX
    }

    /// An editor on one empty line.
    pub fn new() -> (editor: Self)
        ensures
            editor@ == EditorView::fresh(),
            editor.wf(),
    {
        let mut buffer: Vec<String> = Vec::new();
        buffer.push(String::new());
        let editor = Self {
            file_name: None,
            buffer,
            command_buffer: String::new(),
            command_cursor: 0,
            command_mode: false,
            mode: EditorMode::Normal,
            visual: VisualMode::PerMove,
            editor_size: (10, 10),
            window_pos: (0, 0),
            cursor_pos: Position { row: 0, col: 0 },
            selection_start: Position { row: 0, col: 0 },
        };
        assert(editor@ =~~= EditorView::fresh());
        editor
    }

    /// An editor on the lines of `text`, which was loaded from `name`.
    pub fn from_file(name: &str, text: &str) -> (editor: Self)
        ensures
            editor@ == EditorView::loaded(name@, text@),
            editor.wf(),
    {
        let editor = Self {
            file_name: Some(name.to_owned()),
            buffer: split(text),
            command_buffer: String::new(),
            command_cursor: 0,
            command_mode: false,
            mode: EditorMode::Normal,
            visual: VisualMode::PerMove,
            editor_size: (10, 10),
            window_pos: (0, 0),
            cursor_pos: Position { row: 0, col: 0 },
            selection_start: Position { row: 0, col: 0 },
        };
        assert(editor@ =~~= EditorView::loaded(name@, text@));
        editor
    }

    /// Where the cursor is.
    pub fn cursor(&self) -> (at: Position)
        ensures
            at@ == self@.cursor,
    {
        self.cursor_pos
    }

    /// Where the other end of the selection is.
    pub fn selection_start(&self) -> (at: Position)
        ensures
            at@ == self@.anchor,
    {
        self.selection_start
    }

    /// The lines of the document.
    pub fn lines(&self) -> (lines: &Vec<String>)
        ensures
            texts(lines@) == self@.lines,
    {
        &self.buffer
    }

    /// What the document was loaded from, if it was loaded.
    pub fn file_name(&self) -> (name: Option<&str>)
        ensures
            match name {
                Some(text) => self@.file_name == Some(text@),
                None => self@.file_name is None,
            },
    {
        match &self.file_name {
            Some(name) => Some(name.as_str()),
            None => None,
        }
    }

    /// The text of the command line.
    pub fn command_buffer(&self) -> (text: &str)
        ensures
            text@ == self@.command_buffer,
    {
        self.command_buffer.as_str()
    }

    /// The offset of the command line's cursor.
    pub fn command_cursor(&self) -> (at: usize)
        ensures
            at == self@.command_cursor,
    {
        self.command_cursor
    }

    /// Whether typing goes to the command line.
    pub fn command_mode(&self) -> (on: bool)
        ensures
            on == self@.command_mode,
    {
        self.command_mode
    }

    /// The mode whose bindings are active.
    pub fn mode(&self) -> (mode: EditorMode)
        ensures
            mode == self@.mode,
    {
        self.mode
    }

    /// How the anchor follows the cursor.
    pub fn visual(&self) -> (visual: VisualMode)
        ensures
            visual == self@.visual,
    {
        self.visual
    }

    /// Whether the editor's invariant holds. It does for every editor that
    /// this library built.
    pub fn is_well_formed(&self) -> (ok: bool)
        ensures
            ok == self.wf(),
    {
        let rows = self.buffer.len();
        let cursor = self.cursor_pos;
        let anchor = self.selection_start;
        if rows == 0 || cursor.row >= rows || anchor.row >= rows {
            return false;
        }
        let in_lines = cursor.col <= char_len(self.buffer[cursor.row].as_str()) && anchor.col
            <= char_len(self.buffer[anchor.row].as_str());
        let in_command = self.command_cursor <= char_len(self.command_buffer.as_str());
        let in_window = self.window_pos.0 <= usize::MAX - self.editor_size.0 && self.window_pos.1
            <= usize::MAX - self.editor_size.1;
        in_lines && in_command && in_window
    }

    /// Puts the cursor at `row` and `col` if that is a place in the document,
    /// and says whether it is. The anchor stays.
    pub fn set_cursor(&mut self, row: usize, col: usize) -> (moved: bool)
        requires
            old(self).wf(),
        ensures
            moved == old(self)@.in_bounds(Pos { row: row as int, col: col as int }),
            moved ==> final(self)@ == (EditorView {
                cursor: Pos { row: row as int, col: col as int },
                ..old(self)@
            }),
            !moved ==> final(self)@ == old(self)@,
            final(self).wf(),
    {
        if row < self.buffer.len() && col <= char_len(self.buffer[row].as_str()) {
            self.cursor_pos = Position { row, col };
            true
        } else {
            false
        }
    }

    /// Puts the anchor at `row` and `col` if that is a place in the document,
    /// and says whether it is. The cursor stays.
    pub fn set_selection_start(&mut self, row: usize, col: usize) -> (moved: bool)
        requires
            old(self).wf(),
        ensures
            moved == old(self)@.in_bounds(Pos { row: row as int, col: col as int }),
            moved ==> final(self)@ == (EditorView {
                anchor: Pos { row: row as int, col: col as int },
                ..old(self)@
            }),
            !moved ==> final(self)@ == old(self)@,
            final(self).wf(),
    {
        if row < self.buffer.len() && col <= char_len(self.buffer[row].as_str()) {
            self.selection_start = Position { row, col };
            true
        } else {
            false
        }
    }

    /// Switches to `mode`.
    pub fn set_mode(&mut self, mode: EditorMode)
        requires
            old(self).wf(),
        ensures
            final(self)@ == (EditorView { mode, ..old(self)@ }),
            final(self).wf(),
    {
        self.mode = mode;
    }

    /// Switches how the anchor follows the cursor.
    pub fn set_visual(&mut self, visual: VisualMode)
        requires
            old(self).wf(),
        ensures
            final(self)@ == (EditorView { visual, ..old(self)@ }),
            final(self).wf(),
    {
        self.visual = visual;
    }

    /// Enters the command line: typing is insertion, and it goes to the
    /// command line.
    pub fn enter_command_mode(&mut self)
        requires
            old(self).wf(),
        ensures
            final(self)@ == old(self)@.enter_command_mode(),
            final(self).wf(),
    {
        self.mode = EditorMode::Insert;
        self.command_mode = true;
    }

    /// The cell just past the window's last row and column.
    pub fn window_outer_bound(&self) -> (corner: (usize, usize))
        requires
            self.wf(),
        ensures
            (corner.0 as int, corner.1 as int) == self@.window_outer_bound(),
    {
        (self.window_pos.0 + self.editor_size.0, self.window_pos.1 + self.editor_size.1)
    }

    /// Hands the command line over and empties it; typing goes to the
    /// document again.
    pub fn exec_command(&mut self) -> (command: String)
        requires
            old(self).wf(),
        ensures
            command@ == old(self)@.command_buffer,
            final(self)@ == old(self)@.exec_command(),
            final(self).wf(),
    {
        let mut command = String::new();
        std::mem::swap(&mut self.command_buffer, &mut command);
        self.command_cursor = 0;
        self.command_mode = false;
        command
    }

    /// Moves the cursor `x` rows down, or up if `x` is negative, and stops at
    /// the first and the last line.
    pub fn vmove_cursor(&mut self, x: isize)
        requires
            old(self).wf(),
        ensures
            final(self)@ == old(self)@.vmove_cursor(x as int),
            final(self).wf(),
    {
        if !self.command_mode {
            let target = advance(self.cursor_pos.row, x, self.buffer.len() - 1);
            let width = char_len(self.buffer[target].as_str());
            let col = if self.cursor_pos.col > width {
                width
            } else {
                self.cursor_pos.col
            };
            self.cursor_pos = Position { row: target, col };
            if self.visual == VisualMode::PerMove {
                self.selection_start = self.cursor_pos;
            }
        }
    }

    /// Moves the cursor `x` columns right, or left if `x` is negative, and
    /// stops at the ends of the line; on the command line, at the ends of
    /// the command.
    pub fn hmove_cursor(&mut self, x: isize)
        requires
            old(self).wf(),
        ensures
            final(self)@ == old(self)@.hmove_cursor(x as int),
            final(self).wf(),
    {
        if self.command_mode {
            let width = char_len(self.command_buffer.as_str());
            self.command_cursor = advance(self.command_cursor, x, width);
        } else {
            let row = self.cursor_pos.row;
            let width = char_len(self.buffer[row].as_str());
            self.cursor_pos = Position { row, col: advance(self.cursor_pos.col, x, width) };
            if self.visual == VisualMode::PerMove {
                self.selection_start = self.cursor_pos;
            }
        }
    }

    /// Types `text` at the cursor and leaves the anchor where the text went
    /// in. On the command line a lone newline hands the command over, which
    /// is then returned; any other text goes into the command.
    pub fn insert(&mut self, text: &str) -> (ran: Option<String>)
        requires
            old(self).wf(),
        ensures
            final(self)@ == old(self)@.insert(text@),
            final(self).wf(),
            option_text(ran) == old(self)@.insert_runs(text@),
    {
        if self.command_mode {
            if is_newline(text) {
                return Some(self.exec_command());
            }
            let (grown, end) = splice(self.command_buffer.as_str(), self.command_cursor, text);
            self.command_buffer = grown;
            self.command_cursor = end;
            None
        } else {
            let start = self.cursor_pos;
            let row = start.row;
            let col = start.col;
            let ghost lines = texts(self.buffer@);
            let parts = split(text);
            proof {
                lemma_split_single(text@);
            }
            if parts.len() == 1 {
                let (grown, end) = splice(self.buffer[row].as_str(), col, text);
                let ghost line = grown@;
                self.buffer[row] = grown;
                self.cursor_pos = Position { row, col: end };
                assert(texts(self.buffer@) =~= lines.update(row as int, line));
            } else {
                let breaks = parts.len() - 1;
                let line = self.buffer[row].as_str();
                let head = weld(line, col, parts[0].as_str(), 0);
                let tail = cut(line, 0, col);
                assert(head@ =~= lines[row as int].take(col as int) + texts(parts@)[0]);
                assert(tail@ =~= lines[row as int].skip(col as int));
                let ghost first = head@;
                self.buffer[row] = head;
                assert(texts(self.buffer@) =~= lines.update(row as int, first));
                assert(row < self.buffer.len());
                insert_lines(&mut self.buffer, row + 1, &parts, 1, breaks);
                let ghost grown = texts(self.buffer@);
                assert(grown.len() == lines.len() + breaks - 1);
                assert(row + breaks <= self.buffer.len());
                self.buffer.insert(row + breaks, tail);
                assert(texts(self.buffer@) =~= grown.insert(row + breaks, tail@));
                self.cursor_pos = Position { row: row + breaks, col: 0 };
                assert(texts(self.buffer@) =~= old(self)@.inserted_lines(text@));
            }
            self.selection_start = start;
            None
        }
    }

    /// Removes what lies between cursor and anchor, and puts both at the
    /// earlier of the two.
    pub fn delete_selection(&mut self)
        requires
            old(self).wf(),
        ensures
            final(self)@ == old(self)@.delete_selection(),
            final(self).wf(),
    {
        let (first, last) = self.selection();
        let ghost lines = texts(self.buffer@);
        assert(last.row < self.buffer.len());
        let joined = weld(
            self.buffer[first.row].as_str(),
            first.col,
            self.buffer[last.row].as_str(),
            last.col,
        );
        let mut rest = self.buffer.split_off(last.row + 1);
        self.buffer.truncate(first.row);
        assert(texts(self.buffer@) =~= lines.take(first.row as int));
        assert(texts(rest@) =~= lines.skip(last.row + 1));
        self.buffer.push(joined);
        self.buffer.append(&mut rest);
        assert(texts(self.buffer@) =~= lines.take(first.row as int) + seq![joined@] + lines.skip(
            last.row + 1,
        ));
        self.cursor_pos = first;
        self.selection_start = first;
    }

    /// The two ends of the selection, the earlier one first.
    pub fn selection(&self) -> (ends: (Position, Position))
        ensures
            ends.0@ == self@.first(),
            ends.1@ == self@.last(),
    {
        let cursor = self.cursor_pos;
        let anchor = self.selection_start;
        if cursor.row < anchor.row || (cursor.row == anchor.row && cursor.col < anchor.col) {
            (cursor, anchor)
        } else {
            (anchor, cursor)
        }
    }

    /// Removes the character before the cursor. At the start of a line the
    /// line joins the one above; at the start of the document nothing
    /// happens. The anchor keeps pointing at the same text.
    pub fn backspace(&mut self)
        requires
            old(self).wf(),
        ensures
            final(self)@ == old(self)@.backspace(),
            final(self).wf(),
    {
        let row = self.cursor_pos.row;
        let col = self.cursor_pos.col;
        let ghost lines = texts(self.buffer@);
        if self.command_mode {
            if self.command_cursor > 0 {
                let at = self.command_cursor;
                let shorter = cut(self.command_buffer.as_str(), at - 1, at);
                assert(shorter@ =~= self.command_buffer@.remove(at - 1));
                self.command_buffer = shorter;
                self.command_cursor = at - 1;
            }
        } else if col != 0 {
            let shorter = cut(self.buffer[row].as_str(), col - 1, col);
            assert(shorter@ =~= lines[row as int].remove(col - 1));
            self.buffer[row] = shorter;
            assert(texts(self.buffer@) =~= lines.update(row as int, shorter@));
            self.cursor_pos = Position { row, col: col - 1 };
            if self.selection_start.row == row && self.selection_start.col >= col {
                self.selection_start = Position { row, col: self.selection_start.col - 1 };
            }
        } else if row != 0 {
            let above = char_len(self.buffer[row - 1].as_str());
            let line = self.buffer.remove(row);
            let merged = weld(self.buffer[row - 1].as_str(), above, line.as_str(), 0);
            assert(merged@ =~= lines[row - 1] + lines[row as int]);
            let anchor = self.selection_start;
            if anchor.row == row {
                // The anchor's new column is one of the merged line, whose length fits.
                let _width = char_len(merged.as_str());
                self.selection_start = Position { row: row - 1, col: anchor.col + above };
            } else if anchor.row > row {
                self.selection_start = Position { row: anchor.row - 1, col: anchor.col };
            }
            let ghost joined = merged@;
            self.buffer[row - 1] = merged;
            assert(texts(self.buffer@) =~= lines.remove(row as int).update(row - 1, joined));
            self.cursor_pos = Position { row: row - 1, col: above };
        }
    }

    /// Carries out `command`. Returns the command line if this handed it
    /// over.
    pub fn apply(&mut self, command: &EditorCommand) -> (ran: Option<String>)
        requires
            old(self).wf(),
        ensures
            final(self)@ == old(self)@.apply(command@),
            final(self).wf(),
            option_text(ran) == old(self)@.apply_runs(command@),
    {
        match command {
            EditorCommand::Insert(text) => self.insert(text.as_str()),
            EditorCommand::Backspace => {
                self.backspace();
                None
            },
            EditorCommand::Delete => {
                self.delete_selection();
                None
            },
            EditorCommand::Vmove(rows) => {
                self.vmove_cursor(*rows);
                None
            },
            EditorCommand::Hmove(cols) => {
                self.hmove_cursor(*cols);
                None
            },
            EditorCommand::Mode(mode) => {
                self.set_mode(*mode);
                None
            },
            EditorCommand::Visual(visual) => {
                self.set_visual(*visual);
                None
            },
            EditorCommand::Command => {
                self.enter_command_mode();
                None
            },
        }
    }

    /// Handles the key `key_pressed`, given in key notation: carries out what
    /// the key is bound to in the current mode. A key without a binding does
    /// nothing. Returns the command line if this handed it over.
    pub fn handle_keybuffer(&mut self, key_pressed: String, command_map: &CommandMap) -> (ran: Option<
        String,
    >)
        requires
            old(self).wf(),
        ensures
            final(self)@ == old(self)@.press(command_map@, key_pressed@),
            final(self).wf(),
            option_text(ran) == old(self)@.press_runs(command_map@, key_pressed@),
    {
        match command_map.get(self.mode, key_pressed.as_str()) {
            Some(command) => self.apply(command),
            None => None,
        }
    }

    /// Whether each line of this document is the line of `other` at the same
    /// place.
    pub fn same(&self, other: &Self) -> (same: bool)
        ensures
            same == self@.same(other@),
    {
        if self.buffer.len() > other.buffer.len() {
            return false;
        }
        let mut row: usize = 0;
        while row < self.buffer.len()
            invariant
                row <= self.buffer@.len() <= other.buffer@.len(),
                forall|r: int| 0 <= r < row ==> self@.lines[r] == other@.lines[r],
            decreases self.buffer@.len() - row,
        {
            if self.buffer[row] != other.buffer[row] {
                assert(self@.lines[row as int] != other@.lines[row as int]);
                return false;
            }
            row = row + 1;
        }
        true
    }

    /// What to draw: the lines, the cursor's box and the highlighted spans,
    /// in rows and columns.
    pub fn format_buffer(&self) -> (plan: (Vec<TextRun>, CursorBox, Vec<Span>))
        requires
            self.wf(),
        ensures
            run_views(plan.0@) == self@.text_runs(),
            plan.1@ == self@.cursor_box(),
            span_views(plan.2@) == self@.selection_spans(),
    {
        let cursor = self.cursor_pos;
        let mut runs: Vec<TextRun> = Vec::new();
        let mut row: usize = 0;
        while row < self.buffer.len()
            invariant
                row <= self.buffer@.len(),
                cursor == self.cursor_pos,
                runs@.len() == row,
                forall|r: int| 0 <= r < row ==> (#[trigger] runs@[r])@ == self@.text_runs()[r],
            decreases self.buffer@.len() - row,
        {
            runs.push(
                TextRun { row, text: self.buffer[row].clone(), has_cursor: row == cursor.row },
            );
            row = row + 1;
        }
        assert(run_views(runs@) =~= self@.text_runs());

        let width = char_len(self.buffer[cursor.row].as_str());
        let neighbor = if cursor.col < width {
            Some(cursor.col + 1)
        } else if cursor.col > 0 {
            Some(cursor.col - 1)
        } else {
            None
        };
        let cursor_box = CursorBox { row: cursor.row, col: cursor.col, neighbor };

        let (first, last) = self.selection();
        let mut spans: Vec<Span> = Vec::new();
        let mut row = first.row;
        while row <= last.row
            invariant
                self.wf(),
                first@ == self@.first(),
                last@ == self@.last(),
                first.row <= row <= last.row + 1,
                last.row < self.buffer.len(),
                spans@.len() == row - first.row,
                forall|k: int| 0 <= k < spans@.len() ==> (#[trigger] spans@[k])@ == self@.selection_spans()[k],
            decreases last.row + 1 - row,
        {
            let start = if row == first.row {
                first.col
            } else {
                0
            };
            let end = if row == last.row {
                last.col
            } else {
                char_len(self.buffer[row].as_str())
            };
            spans.push(Span { row, start, end });
            row = row + 1;
        }
        assert(span_views(spans@) =~= self@.selection_spans());
        (runs, cursor_box, spans)
    }
}

} // verus!
