//! What the editor hands to whoever draws it: lines, spans and the cursor's
//! box, all in rows and columns. Measuring glyphs and painting is not done
//! here.

use vstd::prelude::*;
use crate::model::{CursorBoxView, SpanView, TextRunView};

verus! {

/// One line of the document as it is drawn.
#[derive(Clone, Debug, PartialEq, Eq)]
pub struct TextRun {
    pub row: usize,
    pub text: String,
    /// Whether the cursor is on this line.
    pub has_cursor: bool,
}

impl View for TextRun {
    type V = TextRunView;

    open spec fn view(&self) -> TextRunView {
        TextRunView { row: self.row as int, text: self.text@, has_cursor: self.has_cursor }
    }
}

/// The selected columns of one line: from `start` up to, not including,
/// `end`.
#[derive(Clone, Copy, Debug, PartialEq, Eq, Structural)]
pub struct Span {
    pub row: usize,
    pub start: usize,
    pub end: usize,
}

impl View for Span {
    type V = SpanView;

    open spec fn view(&self) -> SpanView {
        SpanView { row: self.row as int, start: self.start as int, end: self.end as int }
    }
}

/// Where the cursor is drawn: on line `row`, from the place of column `col`
/// as far as the distance to the place of column `neighbor`.
#[derive(Clone, Copy, Debug, PartialEq, Eq, Structural)]
pub struct CursorBox {
    pub row: usize,
    pub col: usize,
    pub neighbor: Option<usize>,
}

impl View for CursorBox {
    type V = CursorBoxView;

    open spec fn view(&self) -> CursorBoxView {
        CursorBoxView {
            row: self.row as int,
            col: self.col as int,
            neighbor: match self.neighbor {
                Some(col) => Some(col as int),
                None => None,
            },
        }
    }
}

/// The views of a run of text runs.
pub open spec fn run_views(runs: Seq<TextRun>) -> Seq<TextRunView> {
    Seq::new(runs.len(), |i: int| runs[i]@)
}

/// The views of a run of spans.
pub open spec fn span_views(spans: Seq<Span>) -> Seq<SpanView> {
    Seq::new(spans.len(), |i: int| spans[i]@)
}

} // verus!
