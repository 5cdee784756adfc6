//! Commands, and the table that binds a key in a mode to a command.

use vstd::prelude::*;
use vstd::hash_map::StringHashMap;
use crate::config::BindingsView;
use crate::model::{BindingMap, CommandView, EditorMode, VisualMode};

verus! {

/// What a key can be bound to.
#[derive(Clone, Debug, PartialEq, Eq)]
pub enum EditorCommand {
    /// Type the text.
    Insert(String),
    /// Remove the character before the cursor.
    Backspace,
    /// Remove the selection.
    Delete,
    /// Move the cursor by so many rows.
    Vmove(isize),
    /// Move the cursor by so many columns.
    Hmove(isize),
    /// Switch to the mode.
    Mode(EditorMode),
    /// Switch how the selection follows the cursor.
    Visual(VisualMode),
    /// Enter the command line.
    Command,
}

impl View for EditorCommand {
    type V = CommandView;

    open spec fn view(&self) -> CommandView {
        match *self {
            EditorCommand::Insert(text) => CommandView::Insert(text@),
            EditorCommand::Backspace => CommandView::Backspace,
            EditorCommand::Delete => CommandView::Delete,
            EditorCommand::Vmove(rows) => CommandView::Vmove(rows as int),
            EditorCommand::Hmove(cols) => CommandView::Hmove(cols as int),
            EditorCommand::Mode(mode) => CommandView::Mode(mode),
            EditorCommand::Visual(visual) => CommandView::Visual(visual),
            EditorCommand::Command => CommandView::Command,
        }
    }
}

/// The characters that mean something in key notation.
pub open spec fn is_meta(c: char) -> bool {
    c == '^' || c == '{' || c == '}' || c == '~'
}

/// The printable characters of ASCII, from the space to the tilde.
pub open spec fn is_printable(c: char) -> bool {
    32 <= (c as int) <= 126
}

/// The key that types the printable character `c`: the character itself,
/// behind a backslash if it means something in key notation.
pub open spec fn printable_key(c: char) -> Seq<char> {
    if is_meta(c) {
        seq!['\\', c]
    } else {
        seq![c]
    }
}

/// The printable character that `key` types, if it is the key of one.
pub open spec fn printable_of(key: Seq<char>) -> Option<char> {
    if key.len() == 1 && is_printable(key[0]) && !is_meta(key[0]) {
        Some(key[0])
    } else if key.len() == 2 && key[0] == '\\' && is_meta(key[1]) {
        Some(key[1])
    } else {
        None
    }
}

/// What `key` is bound to in normal mode. The arrow keys always move the
/// cursor; then come the configured keys, and where two commands are
/// configured on one key, the one that stands later in this list wins: up,
/// down, left, right, insert mode, command line.
pub open spec fn normal_binding(keys: BindingsView, key: Seq<char>) -> Option<CommandView> {
    if key == "{RARR}"@ {
        Some(CommandView::Hmove(1))
    } else if key == "{LARR}"@ {
        Some(CommandView::Hmove(-1))
    } else if key == "{DARR}"@ {
        Some(CommandView::Vmove(1))
    } else if key == "{UARR}"@ {
        Some(CommandView::Vmove(-1))
    } else if key == keys.command {
        Some(CommandView::Command)
    } else if key == keys.insert {
        Some(CommandView::Mode(EditorMode::Insert))
    } else if key == keys.right {
        Some(CommandView::Hmove(1))
    } else if key == keys.left {
        Some(CommandView::Hmove(-1))
    } else if key == keys.down {
        Some(CommandView::Vmove(1))
    } else if key == keys.up {
        Some(CommandView::Vmove(-1))
    } else {
        None
    }
}

/// What `key` is bound to in insert mode. The key of a printable character
/// types it, whatever else is configured on that key. Then come the arrow
/// keys, tab, enter and backspace, and last the configured key that leads
/// back to normal mode.
pub open spec fn insert_binding(keys: BindingsView, key: Seq<char>) -> Option<CommandView> {
    if let Some(c) = printable_of(key) {
        Some(CommandView::Insert(seq![c]))
    } else {
        named_binding(keys, key)
    }
}

/// The bindings of insert mode but for those of the printable characters.
pub open spec fn named_binding(keys: BindingsView, key: Seq<char>) -> Option<CommandView> {
    if key == "{RARR}"@ {
        Some(CommandView::Hmove(1))
    } else if key == "{LARR}"@ {
        Some(CommandView::Hmove(-1))
    } else if key == "{DARR}"@ {
        Some(CommandView::Vmove(1))
    } else if key == "{UARR}"@ {
        Some(CommandView::Vmove(-1))
    } else if key == "{TAB}"@ {
        Some(CommandView::Insert(seq!['\t']))
    } else if key == "{ENTER}"@ {
        Some(CommandView::Insert(seq!['\n']))
    } else if key == "{BACK}"@ {
        Some(CommandView::Backspace)
    } else if key == keys.normal {
        Some(CommandView::Mode(EditorMode::Normal))
    } else {
        None
    }
}

/// What `key` is bound to in `mode`, given the configured keys.
pub open spec fn bound_command(keys: BindingsView, mode: EditorMode, key: Seq<char>) -> Option<
    CommandView,
> {
    match mode {
        EditorMode::Normal => normal_binding(keys, key),
        EditorMode::Insert => insert_binding(keys, key),
    }
}

/// The whole table that the configured keys give.
pub open spec fn bindings_table(keys: BindingsView) -> BindingMap {
    Map::new(
        |at: (EditorMode, Seq<char>)| bound_command(keys, at.0, at.1) is Some,
        |at: (EditorMode, Seq<char>)| bound_command(keys, at.0, at.1)->0,
    )
}

/// A key types the printable character that it is the key of, and no two
/// printable characters share a key.
pub proof fn lemma_printable_key(c: char)
    requires
        is_printable(c),
    ensures
        printable_of(printable_key(c)) == Some(c),
        forall|key: Seq<char>| printable_of(key) == Some(c) ==> key == printable_key(c),
{
    assert forall|key: Seq<char>| printable_of(key) == Some(c) implies key == printable_key(c) by {
        assert(key =~= printable_key(c));
    }
}

/// In insert mode every printable character has a key of its own, and that
/// key types the character, whatever keys are configured.
pub proof fn every_printable_is_bound(keys: BindingsView, c: char)
    requires
        is_printable(c),
    ensures
        bindings_table(keys).contains_key((EditorMode::Insert, printable_key(c))),
        bindings_table(keys)[(EditorMode::Insert, printable_key(c))] == CommandView::Insert(seq![c]),
{
    lemma_printable_key(c);
}

/// The name of one of the four arrow keys.
pub open spec fn is_arrow_name(key: Seq<char>) -> bool {
    key == "{UARR}"@ || key == "{DARR}"@ || key == "{LARR}"@ || key == "{RARR}"@
}

/// Each configured key is bound in its mode, though a later binding may have
/// taken the key for another command.
pub proof fn configured_keys_are_bound(keys: BindingsView)
    ensures
        bindings_table(keys).contains_key((EditorMode::Normal, keys.up)),
        bindings_table(keys).contains_key((EditorMode::Normal, keys.down)),
        bindings_table(keys).contains_key((EditorMode::Normal, keys.left)),
        bindings_table(keys).contains_key((EditorMode::Normal, keys.right)),
        bindings_table(keys).contains_key((EditorMode::Normal, keys.insert)),
        bindings_table(keys).contains_key((EditorMode::Normal, keys.command)),
        bindings_table(keys).contains_key((EditorMode::Insert, keys.normal)),
{
}

/// When the configured keys change the mode. In normal mode the key of the
/// command line enters it unless the key is an arrow's name, and the key of
/// insert mode switches to it unless the key is an arrow's name or also the
/// key of the command line. In insert mode the key of normal mode switches
/// back unless it is the key of a printable character or the name of an
/// arrow, of tab, of enter or of backspace: on those keys the other binding
/// wins.
pub proof fn mode_keys_switch_modes(keys: BindingsView)
    ensures
        !is_arrow_name(keys.command) ==> bindings_table(keys)[(EditorMode::Normal, keys.command)]
            == CommandView::Command,
        !is_arrow_name(keys.insert) && keys.insert != keys.command ==> bindings_table(
            keys,
        )[(EditorMode::Normal, keys.insert)] == CommandView::Mode(EditorMode::Insert),
        printable_of(keys.normal) is None && !is_arrow_name(keys.normal) && keys.normal != "{TAB}"@
            && keys.normal != "{ENTER}"@ && keys.normal != "{BACK}"@ ==> bindings_table(
            keys,
        )[(EditorMode::Insert, keys.normal)] == CommandView::Mode(EditorMode::Normal),
{
}

/// Only printable characters have a key that types them.
pub proof fn lemma_printable_of(key: Seq<char>)
    ensures
        printable_of(key) matches Some(c) ==> is_printable(c),
{
    if key.len() == 2 && is_meta(key[1]) {
        assert('^' as u32 == 94);
        assert('{' as u32 == 123);
        assert('}' as u32 == 125);
        assert('~' as u32 == 126);
    }
}

/// The table of bindings: each mode has its own keys.
pub struct CommandMap {
    normal: StringHashMap<EditorCommand>,
    insert: StringHashMap<EditorCommand>,
}

impl View for CommandMap {
    type V = BindingMap;

    closed spec fn view(&self) -> BindingMap {
        Map::new(
            |at: (EditorMode, Seq<char>)| self.of_mode(at.0).contains_key(at.1),
            |at: (EditorMode, Seq<char>)| self.of_mode(at.0)[at.1]@,
        )
    }
}

impl CommandMap {
    spec fn of_mode(&self, mode: EditorMode) -> Map<Seq<char>, EditorCommand> {
        match mode {
            EditorMode::Normal => self.normal@,
            EditorMode::Insert => self.insert@,
        }
    }

    /// A table without bindings.
    pub fn new() -> (table: Self)
        ensures
            table@ == Map::<(EditorMode, Seq<char>), CommandView>::empty(),
    {
        let table = CommandMap { normal: StringHashMap::new(), insert: StringHashMap::new() };
        assert(table@ =~= Map::<(EditorMode, Seq<char>), CommandView>::empty());
        table
    }

    /// Binds `key` in `mode` to `command`, in place of what it was bound to.
    pub fn insert(&mut self, mode: EditorMode, key: String, command: EditorCommand)
        ensures
            final(self)@ == old(self)@.insert((mode, key@), command@),
    {
        match mode {
            EditorMode::Normal => self.normal.insert(key, command),
            EditorMode::Insert => self.insert.insert(key, command),
        }
        assert(self@ =~= old(self)@.insert((mode, key@), command@));
    }

    /// The command that `key` is bound to in `mode`, if it is bound.
    pub fn get(&self, mode: EditorMode, key: &str) -> (found: Option<&EditorCommand>)
        ensures
            match found {
                Some(command) => self@.contains_key((mode, key@)) && self@[(mode, key@)]
                    == command@,
                None => !self@.contains_key((mode, key@)),
            },
    {
        match mode {
            EditorMode::Normal => self.normal.get(key),
            EditorMode::Insert => self.insert.get(key),
        }
    }
}

} // verus!
