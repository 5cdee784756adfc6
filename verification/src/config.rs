//! The editor's configuration: which keys are bound to the basic commands,
//! and the colours it is drawn in.

use vstd::prelude::*;

verus! {

/// Everything that is configured.
#[derive(Clone, Debug, PartialEq, Eq)]
pub struct Config {
    pub bindings: Bindings,
    pub colors: Colors,
}

/// The key, in key notation, of each configurable command of normal mode,
/// and the key that leaves insert mode.
#[derive(Clone, Debug, PartialEq, Eq)]
pub struct Bindings {
    pub up: String,
    pub down: String,
    pub left: String,
    pub right: String,
    pub insert: String,
    pub normal: String,
    pub command: String,
}

/// The colours, each a hexadecimal colour string.
#[derive(Clone, Debug, PartialEq, Eq)]
pub struct Colors {
    pub editor: EditorColors,
}

#[derive(Clone, Debug, PartialEq, Eq)]
pub struct EditorColors {
    pub window: WindowColors,
    pub text: TextColors,
}

#[derive(Clone, Debug, PartialEq, Eq)]
pub struct WindowColors {
    pub background: String,
    pub cursor: String,
    pub highlight: String,
}

#[derive(Clone, Debug, PartialEq, Eq)]
pub struct TextColors {
    pub unselected: String,
    pub selected: String,
}

/// The configured keys as character sequences.
pub struct BindingsView {
    pub up: Seq<char>,
    pub down: Seq<char>,
    pub left: Seq<char>,
    pub right: Seq<char>,
    pub insert: Seq<char>,
    pub normal: Seq<char>,
    pub command: Seq<char>,
}

impl View for Bindings {
    type V = BindingsView;

    open spec fn view(&self) -> BindingsView {
        BindingsView {
            up: self.up@,
            down: self.down@,
            left: self.left@,
            right: self.right@,
            insert: self.insert@,
            normal: self.normal@,
            command: self.command@,
        }
    }
}

} // verus!
