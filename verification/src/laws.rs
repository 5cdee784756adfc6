//! What holds of the editor's operations, whatever the document and wherever
//! the cursor: each statement is proved of the model in `model`.

use vstd::prelude::*;
use crate::bindings::{bindings_table, printable_of};
use crate::config::BindingsView;
use crate::keys::{character_keys_have_printable_notation, event_notation, key_notation, KeyEvent};
use crate::model::{selection_first, selection_last, CommandView, EditorMode, EditorView, Pos};
use crate::text::{lemma_split_nonempty, lemma_split_single, split_lines};

verus! {

/// The two ends of a selection come out in the same order whichever of them
/// is the cursor and whichever the anchor.
pub proof fn selection_order_symmetric(p: Pos, q: Pos)
    ensures
        selection_first(p, q) == selection_first(q, p),
        selection_last(p, q) == selection_last(q, p),
        !selection_last(p, q).before(selection_first(p, q)),
{
}

/// Typing keeps the editor valid, and tells how many lines the document has
/// afterwards: one more for each newline typed.
pub proof fn insert_keeps_valid(v: EditorView, text: Seq<char>)
    requires
        v.valid(),
    ensures
        v.insert(text).valid(),
        !v.command_mode ==> v.insert(text).lines.len() == v.lines.len() + split_lines(text).len() - 1,
{
    lemma_split_nonempty(text);
    lemma_split_single(text);
}

/// Removing the selection keeps the editor valid.
pub proof fn delete_selection_keeps_valid(v: EditorView)
    requires
        v.valid(),
    ensures
        v.delete_selection().valid(),
{
}

/// Backspace keeps the editor valid.
pub proof fn backspace_keeps_valid(v: EditorView)
    requires
        v.valid(),
    ensures
        v.backspace().valid(),
{
}

/// Moving the cursor keeps the editor valid and leaves the document alone.
pub proof fn moves_keep_valid(v: EditorView, delta: int)
    requires
        v.valid(),
    ensures
        v.vmove_cursor(delta).valid(),
        v.hmove_cursor(delta).valid(),
        v.vmove_cursor(delta).lines == v.lines,
        v.hmove_cursor(delta).lines == v.lines,
{
}

/// Every command keeps the editor valid.
pub proof fn apply_keeps_valid(v: EditorView, command: CommandView)
    requires
        v.valid(),
    ensures
        v.apply(command).valid(),
{
    match command {
        CommandView::Insert(text) => insert_keeps_valid(v, text),
        CommandView::Backspace => backspace_keeps_valid(v),
        CommandView::Delete => delete_selection_keeps_valid(v),
        CommandView::Vmove(delta) => moves_keep_valid(v, delta),
        CommandView::Hmove(delta) => moves_keep_valid(v, delta),
        _ => {},
    }
}

/// After any sequence of commands the cursor is on a line of the document
/// and on or just behind a character of that line.
pub proof fn cursor_stays_in_bounds(v: EditorView, commands: Seq<CommandView>)
    requires
        v.valid(),
    ensures
        v.apply_all(commands).valid(),
        0 <= v.apply_all(commands).cursor.row < v.apply_all(commands).lines.len(),
        0 <= v.apply_all(commands).cursor.col <= v.apply_all(commands).lines[v.apply_all(
            commands,
        ).cursor.row].len(),
    decreases commands.len(),
{
    if commands.len() > 0 {
        cursor_stays_in_bounds(v, commands.drop_last());
        apply_keeps_valid(v.apply_all(commands.drop_last()), commands.last());
    }
}

/// A vertical move that reaches past the first or the last line stops on
/// that line, and the same move again changes nothing.
pub proof fn vmove_clamps_once(v: EditorView, delta: int)
    requires
        v.valid(),
        v.cursor.row + delta <= 0 || v.cursor.row + delta >= v.lines.len() - 1,
    ensures
        !v.command_mode && v.cursor.row + delta <= 0 ==> v.vmove_cursor(delta).cursor.row == 0,
        !v.command_mode && v.cursor.row + delta >= v.lines.len() - 1 ==> v.vmove_cursor(
            delta,
        ).cursor.row == v.lines.len() - 1,
        v.vmove_cursor(delta).vmove_cursor(delta) == v.vmove_cursor(delta),
{
}

/// A horizontal move that reaches past either end of the line stops at that
/// end, and the same move again changes nothing. On the command line the
/// same holds of the ends of the command.
pub proof fn hmove_clamps_once(v: EditorView, delta: int)
    requires
        v.valid(),
        if v.command_mode {
            v.command_cursor + delta <= 0 || v.command_cursor + delta >= v.command_buffer.len()
        } else {
            v.cursor.col + delta <= 0 || v.cursor.col + delta >= v.lines[v.cursor.row].len()
        },
    ensures
        v.hmove_cursor(delta).hmove_cursor(delta) == v.hmove_cursor(delta),
{
}

/// Typing a text without a newline selects it, and removing the selection
/// then gives back the document and the cursor as they were.
pub proof fn insert_then_delete_restores(v: EditorView, text: Seq<char>)
    requires
        v.valid(),
        !v.command_mode,
        !text.contains('\n'),
    ensures
        v.insert(text).anchor == v.cursor,
        v.insert(text).cursor == (Pos { row: v.cursor.row, col: v.cursor.col + text.len() }),
        v.insert(text).delete_selection().lines == v.lines,
        v.insert(text).delete_selection().cursor == v.cursor,
        v.insert(text).delete_selection().anchor == v.cursor,
{
    let row = v.cursor.row;
    let col = v.cursor.col;
    let w = v.insert(text);
    let line = w.lines[row];
    assert(line.take(col) + line.skip(col + text.len()) =~= v.lines[row]);
    assert(w.delete_selection().lines =~= v.lines);
}

/// With nothing selected, removing the selection removes nothing.
pub proof fn delete_empty_selection(v: EditorView)
    requires
        v.valid(),
        v.cursor == v.anchor,
    ensures
        v.delete_selection() == v,
{
    let line = v.lines[v.cursor.row];
    assert(line.take(v.cursor.col) + line.skip(v.cursor.col) =~= line);
    assert(v.delete_selection().lines =~= v.lines);
}

/// Backspace right after typing one character other than a newline gives
/// back the document and the cursor as they were.
pub proof fn backspace_undoes_typing(v: EditorView, c: char)
    requires
        v.valid(),
        !v.command_mode,
        c != '\n',
    ensures
        v.insert(seq![c]).backspace().lines == v.lines,
        v.insert(seq![c]).backspace().cursor == v.cursor,
{
    let text = seq![c];
    let row = v.cursor.row;
    let col = v.cursor.col;
    if text.contains('\n') {
        let i = choose|i: int| 0 <= i < text.len() && text[i] == '\n';
        assert(text[i] == c);
    }
    let w = v.insert(text);
    assert(w.lines[row].remove(col) =~= v.lines[row]);
    assert(w.backspace().lines =~= v.lines);
}

/// Every span of the selection lies within its line, and so does the
/// cursor's box.
pub proof fn drawing_stays_in_lines(v: EditorView)
    requires
        v.valid(),
    ensures
        v.selection_spans().len() >= 1,
        forall|k: int|
            0 <= k < v.selection_spans().len() ==> {
                let span = #[trigger] v.selection_spans()[k];
                &&& 0 <= span.row < v.lines.len()
                &&& 0 <= span.start <= span.end <= v.lines[span.row].len()
            },
        v.cursor_box().neighbor matches Some(col) ==> 0 <= col <= v.lines[v.cursor.row].len(),
{
}

/// In insert mode a key press that types a character is bound to typing that
/// character, whatever keys are configured: pressed without control and alt,
/// a key whose notation is neither empty nor a name in braces inserts the
/// character that its notation is the key of.
pub proof fn character_keys_type_in_insert_mode(keys: BindingsView, key: KeyEvent)
    requires
        !key.mods.ctrl,
        !key.mods.alt,
        event_notation(key).len() > 0,
        event_notation(key)[0] != '{',
    ensures
        printable_of(event_notation(key)) is Some,
        bindings_table(keys).contains_key((EditorMode::Insert, event_notation(key))),
        bindings_table(keys)[(EditorMode::Insert, event_notation(key))] == CommandView::Insert(
            seq![printable_of(event_notation(key))->0],
        ),
{
    let notation = key_notation(
        key.code,
        key.mods.shift,
        key.mods.caps_lock,
        key.mods.num_lock,
        key.mods.function != key.mods.function_lock,
    );
    assert(event_notation(key) =~= notation);
    character_keys_have_printable_notation(
        key.code,
        key.mods.shift,
        key.mods.caps_lock,
        key.mods.num_lock,
        key.mods.function != key.mods.function_lock,
    );
}

} // verus!
