//! The editor that sits between key presses and the document: it holds the
//! binding table and the theme, and carries out what a key is bound to.

use vstd::prelude::*;
use crate::bindings::{
    bindings_table, lemma_printable_key, lemma_printable_of, printable_key, printable_of, CommandMap,
    EditorCommand,
};
use crate::buffer::{option_text, EditorData};
use crate::config::{Bindings, Colors, Config};
use crate::keys::{event_notation, keyevent_to_key, KeyEvent};
use crate::model::{BindingMap, CommandView, EditorMode};
use crate::text::push_char;

verus! {

/// The printable character that `at` is the key of in insert mode, if it is
/// the key of one whose code is below `upto`.
spec fn typed_below(at: (EditorMode, Seq<char>), upto: int) -> Option<char> {
    match printable_of(at.1) {
        Some(c) => if at.0 == EditorMode::Insert && (c as int) < upto {
            Some(c)
        } else {
            None
        },
        None => None,
    }
}

/// `named` with the printable characters whose code is below `upto` bound
/// on their keys in insert mode.
spec fn with_printable(named: BindingMap, upto: int) -> BindingMap {
    Map::new(
        |at: (EditorMode, Seq<char>)| named.contains_key(at) || typed_below(at, upto) is Some,
        |at: (EditorMode, Seq<char>)|
            match typed_below(at, upto) {
                Some(c) => CommandView::Insert(seq![c]),
                None => named[at],
            },
    )
}

/// Builds the key of the printable character `c`.
fn key_of(c: char) -> (key: String)
    ensures
        key@ == printable_key(c),
{
    let mut key = String::new();
    if c == '^' || c == '{' || c == '}' || c == '~' {
        push_char(&mut key, '\\');
    }
    push_char(&mut key, c);
    assert(key@ =~= printable_key(c));
    key
}

/// Builds the text that holds `c` and nothing else.
fn text_of(c: char) -> (text: String)
    ensures
        text@ == seq![c],
{
    let mut text = String::new();
    push_char(&mut text, c);
    assert(text@ =~= seq![c]);
    text
}

/// What the editor is told of.
#[derive(Clone, Copy, Debug, PartialEq, Eq, Structural)]
pub enum Event {
    /// The editor's window is there.
    WindowConnected,
    /// A key went down.
    KeyDown(KeyEvent),
    /// Anything else.
    Other,
}

/// What the editor asks for after an event.
#[derive(Clone, Debug, PartialEq, Eq)]
pub struct Response {
    /// Give the editor the keyboard.
    pub request_focus: bool,
    /// Draw the editor again.
    pub request_paint: bool,
    /// Dispatch this command line.
    pub command: Option<String>,
}

/// What an editor is set up with, as a mathematical value.
pub struct EditorSetup {
    /// The bytes of the font.
    pub font: Seq<u8>,
    pub theme: Colors,
    pub bindings: BindingMap,
}

/// An editor: a font and a theme to draw with, and the table of bindings.
pub struct Editor {
    font: &'static [u8],
    theme: Colors,
    command_map: CommandMap,
}

impl View for Editor {
    type V = EditorSetup;

    closed spec fn view(&self) -> EditorSetup {
        EditorSetup { font: self.font@, theme: self.theme, bindings: self.command_map@ }
    }
}

impl Editor {
    /// An editor that draws with `font` and with the colours of `config`,
    /// and whose keys are bound as `config` asks.
    pub fn new(font: &'static [u8], config: Config) -> (editor: Self)
        ensures
            editor@.font == font@,
            editor@.theme == config.colors,
            editor@.bindings == bindings_table(config.bindings@),
    {
        Self { font, theme: config.colors, command_map: Self::create_command_map(config.bindings) }
    }

    /// The bytes of the font.
    pub fn font(&self) -> (font: &'static [u8])
        ensures
            font@ == self@.font,
    {
        self.font
    }

    /// The colours.
    pub fn theme(&self) -> (theme: &Colors)
        ensures
            *theme == self@.theme,
    {
        &self.theme
    }

    /// The table of bindings.
    pub fn command_map(&self) -> (table: &CommandMap)
        ensures
            table@ == self@.bindings,
    {
        &self.command_map
    }

    /// Takes an event. A key press is named in key notation and what that
    /// key is bound to is carried out on `data`; no other event touches
    /// `data`. The response asks for the keyboard once the window is there,
    /// asks to be drawn again after every event, and holds the command line
    /// if the key press handed it over.
    pub fn event(&self, event: &Event, data: &mut EditorData) -> (response: Response)
        requires
            old(data).wf(),
        ensures
            final(data).wf(),
            response.request_paint,
            response.request_focus == (*event is WindowConnected),
            match *event {
                Event::KeyDown(key) => {
                    &&& final(data)@ == old(data)@.press(self@.bindings, event_notation(key))
                    &&& option_text(response.command) == old(data)@.press_runs(
                        self@.bindings,
                        event_notation(key),
                    )
                },
                _ => final(data)@ == old(data)@ && response.command is None,
            },
    {
        match event {
            Event::WindowConnected => Response {
                request_focus: true,
                request_paint: true,
                command: None,
            },
            Event::KeyDown(key) => {
                let command = data.handle_keybuffer(keyevent_to_key(key), &self.command_map);
                Response { request_focus: false, request_paint: true, command }
            },
            Event::Other => Response { request_focus: false, request_paint: true, command: None },
        }
    }

    /// Builds the binding table that `config` asks for.
    pub fn create_command_map(config: Bindings) -> (table: CommandMap)
        ensures
            table@ == bindings_table(config@),
    {
        let ghost keys = config@;
        let mut table = CommandMap::new();
        table.insert(EditorMode::Normal, config.up, EditorCommand::Vmove(-1));
        table.insert(EditorMode::Normal, config.down, EditorCommand::Vmove(1));
        table.insert(EditorMode::Normal, config.left, EditorCommand::Hmove(-1));
        table.insert(EditorMode::Normal, config.right, EditorCommand::Hmove(1));
        table.insert(EditorMode::Normal, config.insert, EditorCommand::Mode(EditorMode::Insert));
        table.insert(EditorMode::Normal, config.command, EditorCommand::Command);
        table.insert(EditorMode::Normal, "{UARR}".to_owned(), EditorCommand::Vmove(-1));
        table.insert(EditorMode::Normal, "{DARR}".to_owned(), EditorCommand::Vmove(1));
        table.insert(EditorMode::Normal, "{LARR}".to_owned(), EditorCommand::Hmove(-1));
        table.insert(EditorMode::Normal, "{RARR}".to_owned(), EditorCommand::Hmove(1));

        table.insert(EditorMode::Insert, config.normal, EditorCommand::Mode(EditorMode::Normal));
        table.insert(EditorMode::Insert, "{BACK}".to_owned(), EditorCommand::Backspace);
        table.insert(EditorMode::Insert, "{ENTER}".to_owned(), EditorCommand::Insert(text_of('\n')));
        table.insert(EditorMode::Insert, "{TAB}".to_owned(), EditorCommand::Insert(text_of('\t')));
        table.insert(EditorMode::Insert, "{UARR}".to_owned(), EditorCommand::Vmove(-1));
        table.insert(EditorMode::Insert, "{DARR}".to_owned(), EditorCommand::Vmove(1));
        table.insert(EditorMode::Insert, "{LARR}".to_owned(), EditorCommand::Hmove(-1));
        table.insert(EditorMode::Insert, "{RARR}".to_owned(), EditorCommand::Hmove(1));

        let ghost named = table@;
        assert(table@ =~= with_printable(named, 32)) by {
            assert forall|at: (EditorMode, Seq<char>)| typed_below(at, 32) is None by {
                lemma_printable_of(at.1);
            }
        }
        let mut code: u8 = 32;
        while code <= 126
            invariant
                32 <= code <= 127,
                table@ == with_printable(named, code as int),
            decreases 127 - code,
        {
            let c = code as char;
            table.insert(EditorMode::Insert, key_of(c), EditorCommand::Insert(text_of(c)));
            proof {
                lemma_printable_key(c);
                assert(table@ =~= with_printable(named, code + 1));
            }
            code = code + 1;
        }
        proof {
            assert forall|at: (EditorMode, Seq<char>)|
                printable_of(at.1) is Some implies (printable_of(at.1)->0 as int) < 127 by {
                lemma_printable_of(at.1);
            }
            assert(table@ =~= bindings_table(keys));
        }
        table
    }
}

} // verus!
