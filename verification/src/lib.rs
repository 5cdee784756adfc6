//! A modal text editor's document engine: the line buffer with its cursor and
//! selection, the edit and movement operations on it, the key notation that
//! names a key press, and the table that binds keys to editor commands.

pub mod bindings;
pub mod buffer;
pub mod config;
pub mod editor;
pub mod keys;
pub mod laws;
pub mod model;
pub mod render;
pub mod text;

pub use bindings::{CommandMap, EditorCommand};
pub use buffer::{EditorData, Position};
pub use config::{Bindings, Colors, Config, EditorColors, TextColors, WindowColors};
pub use editor::{Editor, Event, Response};
pub use keys::{key_to_char, keyevent_to_key, Code, KeyEvent, Modifiers};
pub use model::{EditorMode, VisualMode};
pub use render::{CursorBox, Span, TextRun};
