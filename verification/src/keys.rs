//! Key notation: the text that names a key press, such as `a`, `A`, `^c` or
//! `{ENTER}`. Bindings are written in this notation.

use vstd::prelude::*;
use vstd::string::StringExecFns;
use crate::bindings::{is_printable, printable_key, printable_of};

verus! {

/// The physical key of a key press, by its place on the keyboard.
#[derive(Clone, Copy, Debug, PartialEq, Eq, Hash, Structural)]
pub enum Code {
    KeyA,
    KeyB,
    KeyC,
    KeyD,
    KeyE,
    KeyF,
    KeyG,
    KeyH,
    KeyI,
    KeyJ,
    KeyK,
    KeyL,
    KeyM,
    KeyN,
    KeyO,
    KeyP,
    KeyQ,
    KeyR,
    KeyS,
    KeyT,
    KeyU,
    KeyV,
    KeyW,
    KeyX,
    KeyY,
    KeyZ,
    Space,
    Escape,
    Enter,
    Tab,
    ArrowUp,
    ArrowDown,
    ArrowLeft,
    ArrowRight,
    PageUp,
    PageDown,
    Backspace,
    Delete,
    Home,
    End,
    Insert,
    Digit0,
    Digit1,
    Digit2,
    Digit3,
    Digit4,
    Digit5,
    Digit6,
    Digit7,
    Digit8,
    Digit9,
    F1,
    F2,
    F3,
    F4,
    F5,
    F6,
    F7,
    F8,
    F9,
    F10,
    F11,
    F12,
    F13,
    F14,
    F15,
    F16,
    F17,
    F18,
    F19,
    F20,
    F21,
    F22,
    F23,
    F24,
    Backquote,
    Equal,
    Minus,
    BracketLeft,
    BracketRight,
    Backslash,
    Semicolon,
    Quote,
    Comma,
    Period,
    Slash,
    Numpad0,
    Numpad1,
    Numpad2,
    Numpad3,
    Numpad4,
    Numpad5,
    Numpad6,
    Numpad7,
    Numpad8,
    Numpad9,
    NumpadAdd,
    NumpadSubtract,
    NumpadMultiply,
    NumpadDivide,
    NumpadDecimal,
    NumpadComma,
    NumpadParenLeft,
    NumpadParenRight,
    /// Any key that has no notation.
    Unidentified,
}

/// The modifier keys that are held or locked during a key press.
#[derive(Clone, Copy, Debug, PartialEq, Eq, Hash, Structural)]
pub struct Modifiers {
    pub shift: bool,
    pub ctrl: bool,
    pub alt: bool,
    pub caps_lock: bool,
    pub num_lock: bool,
    pub function: bool,
    pub function_lock: bool,
}

/// A key press.
#[derive(Clone, Copy, Debug, PartialEq, Eq, Hash, Structural)]
pub struct KeyEvent {
    pub code: Code,
    pub mods: Modifiers,
}

/// What a key stands for.
pub enum KeyKind {
    /// A letter, given in lower case.
    Letter(char),
    /// One character, whatever the modifiers.
    Plain(char),
    /// One character, and another while shift is held.
    Sign(char, char),
    /// No character: the key has a name, written in braces.
    Named(Seq<char>),
    /// A digit of the keypad, and the navigation key that the key stands for
    /// while the digits are off, if it stands for one.
    Keypad(char, Option<Code>),
    /// Nothing that the notation knows.
    Unbound,
}

/// What each key stands for.
pub open spec fn kind_of(code: Code) -> KeyKind {
    match code {
        Code::KeyA => KeyKind::Letter('a'),
        Code::KeyB => KeyKind::Letter('b'),
        Code::KeyC => KeyKind::Letter('c'),
        Code::KeyD => KeyKind::Letter('d'),
        Code::KeyE => KeyKind::Letter('e'),
        Code::KeyF => KeyKind::Letter('f'),
        Code::KeyG => KeyKind::Letter('g'),
        Code::KeyH => KeyKind::Letter('h'),
        Code::KeyI => KeyKind::Letter('i'),
        Code::KeyJ => KeyKind::Letter('j'),
        Code::KeyK => KeyKind::Letter('k'),
        Code::KeyL => KeyKind::Letter('l'),
        Code::KeyM => KeyKind::Letter('m'),
        Code::KeyN => KeyKind::Letter('n'),
        Code::KeyO => KeyKind::Letter('o'),
        Code::KeyP => KeyKind::Letter('p'),
        Code::KeyQ => KeyKind::Letter('q'),
        Code::KeyR => KeyKind::Letter('r'),
        Code::KeyS => KeyKind::Letter('s'),
        Code::KeyT => KeyKind::Letter('t'),
        Code::KeyU => KeyKind::Letter('u'),
        Code::KeyV => KeyKind::Letter('v'),
        Code::KeyW => KeyKind::Letter('w'),
        Code::KeyX => KeyKind::Letter('x'),
        Code::KeyY => KeyKind::Letter('y'),
        Code::KeyZ => KeyKind::Letter('z'),
        Code::Space => KeyKind::Plain(' '),
        Code::Escape => KeyKind::Named("{ESC}"@),
        Code::Enter => KeyKind::Named("{ENTER}"@),
        Code::Tab => KeyKind::Named("{TAB}"@),
        Code::ArrowUp => KeyKind::Named("{UARR}"@),
        Code::ArrowDown => KeyKind::Named("{DARR}"@),
        Code::ArrowLeft => KeyKind::Named("{LARR}"@),
        Code::ArrowRight => KeyKind::Named("{RARR}"@),
        Code::PageUp => KeyKind::Named("{PGUP}"@),
        Code::PageDown => KeyKind::Named("{PGDO}"@),
        Code::Backspace => KeyKind::Named("{BACK}"@),
        Code::Delete => KeyKind::Named("{DEL}"@),
        Code::Home => KeyKind::Named("{HOME}"@),
        Code::End => KeyKind::Named("{END}"@),
        Code::Insert => KeyKind::Named("{INS}"@),
        Code::Digit0 => KeyKind::Sign('0', ')'),
        Code::Digit1 => KeyKind::Sign('1', '!'),
        Code::Digit2 => KeyKind::Sign('2', '@'),
        Code::Digit3 => KeyKind::Sign('3', '#'),
        Code::Digit4 => KeyKind::Sign('4', '$'),
        Code::Digit5 => KeyKind::Sign('5', '%'),
        Code::Digit6 => KeyKind::Sign('6', '^'),
        Code::Digit7 => KeyKind::Sign('7', '&'),
        Code::Digit8 => KeyKind::Sign('8', '*'),
        Code::Digit9 => KeyKind::Sign('9', '('),
        Code::F1 => KeyKind::Named("{F1}"@),
        Code::F2 => KeyKind::Named("{F2}"@),
        Code::F3 => KeyKind::Named("{F3}"@),
        Code::F4 => KeyKind::Named("{F4}"@),
        Code::F5 => KeyKind::Named("{F5}"@),
        Code::F6 => KeyKind::Named("{F6}"@),
        Code::F7 => KeyKind::Named("{F7}"@),
        Code::F8 => KeyKind::Named("{F8}"@),
        Code::F9 => KeyKind::Named("{F9}"@),
        Code::F10 => KeyKind::Named("{F10}"@),
        Code::F11 => KeyKind::Named("{F11}"@),
        Code::F12 => KeyKind::Named("{F12}"@),
        Code::F13 => KeyKind::Named("{F13}"@),
        Code::F14 => KeyKind::Named("{F14}"@),
        Code::F15 => KeyKind::Named("{F15}"@),
        Code::F16 => KeyKind::Named("{F16}"@),
        Code::F17 => KeyKind::Named("{F17}"@),
        Code::F18 => KeyKind::Named("{F18}"@),
        Code::F19 => KeyKind::Named("{F19}"@),
        Code::F20 => KeyKind::Named("{F20}"@),
        Code::F21 => KeyKind::Named("{F21}"@),
        Code::F22 => KeyKind::Named("{F22}"@),
        Code::F23 => KeyKind::Named("{F23}"@),
        Code::F24 => KeyKind::Named("{F24}"@),
        Code::Backquote => KeyKind::Sign('`', '~'),
        Code::Equal => KeyKind::Sign('=', '+'),
        Code::Minus => KeyKind::Sign('-', '_'),
        Code::BracketLeft => KeyKind::Sign('[', '{'),
        Code::BracketRight => KeyKind::Sign(']', '}'),
        Code::Backslash => KeyKind::Sign('\\', '|'),
        Code::Semicolon => KeyKind::Sign(';', ':'),
        Code::Quote => KeyKind::Sign('\'', '"'),
        Code::Comma => KeyKind::Sign(',', '<'),
        Code::Period => KeyKind::Sign('.', '>'),
        Code::Slash => KeyKind::Sign('/', '?'),
        Code::Numpad0 => KeyKind::Keypad('0', Some(Code::Insert)),
        Code::Numpad1 => KeyKind::Keypad('1', Some(Code::End)),
        Code::Numpad2 => KeyKind::Keypad('2', Some(Code::ArrowDown)),
        Code::Numpad3 => KeyKind::Keypad('3', Some(Code::PageDown)),
        Code::Numpad4 => KeyKind::Keypad('4', Some(Code::ArrowLeft)),
        Code::Numpad5 => KeyKind::Keypad('5', None),
        Code::Numpad6 => KeyKind::Keypad('6', Some(Code::ArrowRight)),
        Code::Numpad7 => KeyKind::Keypad('7', Some(Code::Home)),
        Code::Numpad8 => KeyKind::Keypad('8', Some(Code::ArrowUp)),
        Code::Numpad9 => KeyKind::Keypad('9', Some(Code::PageUp)),
        Code::NumpadAdd => KeyKind::Plain('+'),
        Code::NumpadSubtract => KeyKind::Plain('-'),
        Code::NumpadMultiply => KeyKind::Plain('*'),
        Code::NumpadDivide => KeyKind::Plain('/'),
        Code::NumpadDecimal => KeyKind::Plain('.'),
        Code::NumpadComma => KeyKind::Plain(','),
        Code::NumpadParenLeft => KeyKind::Plain('('),
        Code::NumpadParenRight => KeyKind::Plain(')'),
        Code::Unidentified => KeyKind::Unbound,
    }
}

/// The name of a key that has one; a key without a name has the empty one.
pub open spec fn key_name(code: Code) -> Seq<char> {
    match kind_of(code) {
        KeyKind::Named(name) => name,
        _ => Seq::<char>::empty(),
    }
}

/// The navigation key that a keypad key stands for while the digits are off.
pub open spec fn keypad_alias(code: Code) -> Option<Code> {
    match kind_of(code) {
        KeyKind::Keypad(_, alias) => alias,
        _ => None,
    }
}

/// Whether `code` is one of the twenty-six letter keys.
pub open spec fn is_letter(code: Code) -> bool {
    kind_of(code) is Letter
}

/// The upper case letter of a lower case letter of ASCII.
pub open spec fn upper_case(c: char) -> char {
    ((c as int) - 32) as char
}

/// The notation of a key without its control and alt prefixes.
///
/// A letter is upper case when exactly one of shift and caps lock is on. A
/// key that types a character is written as that character, with a backslash
/// before it if the character means something in the notation itself (`^`,
/// `{`, `}` and `~` do). A key without a character is written as its name. A
/// keypad digit is a digit while `numpad` or `function` is on. While both are
/// off it is written as the navigation key that it stands for, and the 5,
/// which stands for none, has no notation.
pub open spec fn key_notation(code: Code, shift: bool, caps: bool, numpad: bool, function: bool) -> Seq<
    char,
> {
    match kind_of(code) {
        KeyKind::Letter(c) => if shift != caps {
            seq![upper_case(c)]
        } else {
            seq![c]
        },
        KeyKind::Plain(c) => printable_key(c),
        KeyKind::Sign(bare, shifted) => printable_key(
            if shift {
                shifted
            } else {
                bare
            },
        ),
        KeyKind::Named(name) => name,
        KeyKind::Keypad(digit, alias) => if numpad || function {
            seq![digit]
        } else {
            match alias {
                Some(navigation) => key_name(navigation),
                None => Seq::<char>::empty(),
            }
        },
        KeyKind::Unbound => Seq::<char>::empty(),
    }
}

/// The notation of a key press: `^` if control is held, then `~` if alt is
/// held, then the notation of the key.
pub open spec fn event_notation(key: KeyEvent) -> Seq<char> {
    let control = if key.mods.ctrl {
        seq!['^']
    } else {
        Seq::<char>::empty()
    };
    let alt = if key.mods.alt {
        seq!['~']
    } else {
        Seq::<char>::empty()
    };
    control + alt + key_notation(
        key.code,
        key.mods.shift,
        key.mods.caps_lock,
        key.mods.num_lock,
        key.mods.function != key.mods.function_lock,
    )
}

/// Names a key, without the control and alt prefixes.
pub fn key_to_char(key: &Code, shift: bool, caps: bool, numpad: bool, function: bool) -> (notation:
    &'static str)
    ensures
        notation@ == key_notation(*key, shift, caps, numpad, function),
{
    proof {
        reveal_strlit("A");
        reveal_strlit("a");
        reveal_strlit("B");
        reveal_strlit("b");
        reveal_strlit("C");
        reveal_strlit("c");
        reveal_strlit("D");
        reveal_strlit("d");
        reveal_strlit("E");
        reveal_strlit("e");
        reveal_strlit("F");
        reveal_strlit("f");
        reveal_strlit("G");
        reveal_strlit("g");
        reveal_strlit("H");
        reveal_strlit("h");
        reveal_strlit("I");
        reveal_strlit("i");
        reveal_strlit("J");
        reveal_strlit("j");
        reveal_strlit("K");
        reveal_strlit("k");
        reveal_strlit("L");
        reveal_strlit("l");
        reveal_strlit("M");
        reveal_strlit("m");
        reveal_strlit("N");
        reveal_strlit("n");
        reveal_strlit("O");
        reveal_strlit("o");
        reveal_strlit("P");
        reveal_strlit("p");
        reveal_strlit("Q");
        reveal_strlit("q");
        reveal_strlit("R");
        reveal_strlit("r");
        reveal_strlit("S");
        reveal_strlit("s");
        reveal_strlit("T");
        reveal_strlit("t");
        reveal_strlit("U");
        reveal_strlit("u");
        reveal_strlit("V");
        reveal_strlit("v");
        reveal_strlit("W");
        reveal_strlit("w");
        reveal_strlit("X");
        reveal_strlit("x");
        reveal_strlit("Y");
        reveal_strlit("y");
        reveal_strlit("Z");
        reveal_strlit("z");
        reveal_strlit(" ");
        reveal_strlit(")");
        reveal_strlit("0");
        reveal_strlit("!");
        reveal_strlit("1");
        reveal_strlit("@");
        reveal_strlit("2");
        reveal_strlit("#");
        reveal_strlit("3");
        reveal_strlit("$");
        reveal_strlit("4");
        reveal_strlit("%");
        reveal_strlit("5");
        reveal_strlit("\\^");
        reveal_strlit("6");
        reveal_strlit("&");
        reveal_strlit("7");
        reveal_strlit("*");
        reveal_strlit("8");
        reveal_strlit("(");
        reveal_strlit("9");
        reveal_strlit("\\~");
        reveal_strlit("`");
        reveal_strlit("+");
        reveal_strlit("=");
        reveal_strlit("_");
        reveal_strlit("-");
        reveal_strlit("\\{");
        reveal_strlit("[");
        reveal_strlit("\\}");
        reveal_strlit("]");
        reveal_strlit("|");
        reveal_strlit("\\");
        reveal_strlit(":");
        reveal_strlit(";");
        reveal_strlit("\"");
        reveal_strlit("'");
        reveal_strlit("<");
        reveal_strlit(",");
        reveal_strlit(">");
        reveal_strlit(".");
        reveal_strlit("?");
        reveal_strlit("/");
        reveal_strlit("");
    }
    match key {
        Code::KeyA => if shift != caps { "A" } else { "a" },
        Code::KeyB => if shift != caps { "B" } else { "b" },
        Code::KeyC => if shift != caps { "C" } else { "c" },
        Code::KeyD => if shift != caps { "D" } else { "d" },
        Code::KeyE => if shift != caps { "E" } else { "e" },
        Code::KeyF => if shift != caps { "F" } else { "f" },
        Code::KeyG => if shift != caps { "G" } else { "g" },
        Code::KeyH => if shift != caps { "H" } else { "h" },
        Code::KeyI => if shift != caps { "I" } else { "i" },
        Code::KeyJ => if shift != caps { "J" } else { "j" },
        Code::KeyK => if shift != caps { "K" } else { "k" },
        Code::KeyL => if shift != caps { "L" } else { "l" },
        Code::KeyM => if shift != caps { "M" } else { "m" },
        Code::KeyN => if shift != caps { "N" } else { "n" },
        Code::KeyO => if shift != caps { "O" } else { "o" },
        Code::KeyP => if shift != caps { "P" } else { "p" },
        Code::KeyQ => if shift != caps { "Q" } else { "q" },
        Code::KeyR => if shift != caps { "R" } else { "r" },
        Code::KeyS => if shift != caps { "S" } else { "s" },
        Code::KeyT => if shift != caps { "T" } else { "t" },
        Code::KeyU => if shift != caps { "U" } else { "u" },
        Code::KeyV => if shift != caps { "V" } else { "v" },
        Code::KeyW => if shift != caps { "W" } else { "w" },
        Code::KeyX => if shift != caps { "X" } else { "x" },
        Code::KeyY => if shift != caps { "Y" } else { "y" },
        Code::KeyZ => if shift != caps { "Z" } else { "z" },
        Code::Space => " ",
        Code::Escape => "{ESC}",
        Code::Enter => "{ENTER}",
        Code::Tab => "{TAB}",
        Code::ArrowUp => "{UARR}",
        Code::ArrowDown => "{DARR}",
        Code::ArrowLeft => "{LARR}",
        Code::ArrowRight => "{RARR}",
        Code::PageUp => "{PGUP}",
        Code::PageDown => "{PGDO}",
        Code::Backspace => "{BACK}",
        Code::Delete => "{DEL}",
        Code::Home => "{HOME}",
        Code::End => "{END}",
        Code::Insert => "{INS}",
        Code::Digit0 => if shift { ")" } else { "0" },
        Code::Digit1 => if shift { "!" } else { "1" },
        Code::Digit2 => if shift { "@" } else { "2" },
        Code::Digit3 => if shift { "#" } else { "3" },
        Code::Digit4 => if shift { "$" } else { "4" },
        Code::Digit5 => if shift { "%" } else { "5" },
        Code::Digit6 => if shift { "\\^" } else { "6" },
        Code::Digit7 => if shift { "&" } else { "7" },
        Code::Digit8 => if shift { "*" } else { "8" },
        Code::Digit9 => if shift { "(" } else { "9" },
        Code::F1 => "{F1}",
        Code::F2 => "{F2}",
        Code::F3 => "{F3}",
        Code::F4 => "{F4}",
        Code::F5 => "{F5}",
        Code::F6 => "{F6}",
        Code::F7 => "{F7}",
        Code::F8 => "{F8}",
        Code::F9 => "{F9}",
        Code::F10 => "{F10}",
        Code::F11 => "{F11}",
        Code::F12 => "{F12}",
        Code::F13 => "{F13}",
        Code::F14 => "{F14}",
        Code::F15 => "{F15}",
        Code::F16 => "{F16}",
        Code::F17 => "{F17}",
        Code::F18 => "{F18}",
        Code::F19 => "{F19}",
        Code::F20 => "{F20}",
        Code::F21 => "{F21}",
        Code::F22 => "{F22}",
        Code::F23 => "{F23}",
        Code::F24 => "{F24}",
        Code::Backquote => if shift { "\\~" } else { "`" },
        Code::Equal => if shift { "+" } else { "=" },
        Code::Minus => if shift { "_" } else { "-" },
        Code::BracketLeft => if shift { "\\{" } else { "[" },
        Code::BracketRight => if shift { "\\}" } else { "]" },
        Code::Backslash => if shift { "|" } else { "\\" },
        Code::Semicolon => if shift { ":" } else { ";" },
        Code::Quote => if shift { "\"" } else { "'" },
        Code::Comma => if shift { "<" } else { "," },
        Code::Period => if shift { ">" } else { "." },
        Code::Slash => if shift { "?" } else { "/" },
        Code::Numpad0 => if numpad || function { "0" } else { "{INS}" },
        Code::Numpad1 => if numpad || function { "1" } else { "{END}" },
        Code::Numpad2 => if numpad || function { "2" } else { "{DARR}" },
        Code::Numpad3 => if numpad || function { "3" } else { "{PGDO}" },
        Code::Numpad4 => if numpad || function { "4" } else { "{LARR}" },
        Code::Numpad5 => if numpad || function { "5" } else { "" },
        Code::Numpad6 => if numpad || function { "6" } else { "{RARR}" },
        Code::Numpad7 => if numpad || function { "7" } else { "{HOME}" },
        Code::Numpad8 => if numpad || function { "8" } else { "{UARR}" },
        Code::Numpad9 => if numpad || function { "9" } else { "{PGUP}" },
        Code::NumpadAdd => "+",
        Code::NumpadSubtract => "-",
        Code::NumpadMultiply => "*",
        Code::NumpadDivide => "/",
        Code::NumpadDecimal => ".",
        Code::NumpadComma => ",",
        Code::NumpadParenLeft => "(",
        Code::NumpadParenRight => ")",
        Code::Unidentified => "",
    }
}

/// Names a key press.
pub fn keyevent_to_key(key: &KeyEvent) -> (notation: String)
    ensures
        notation@ == event_notation(*key),
{
    proof {
        reveal_strlit("^");
        reveal_strlit("~");
    }
    let mut notation = String::new();
    if key.mods.ctrl {
        notation.append("^");
    }
    if key.mods.alt {
        notation.append("~");
    }
    notation.append(
        key_to_char(
            &key.code,
            key.mods.shift,
            key.mods.caps_lock,
            key.mods.num_lock,
            key.mods.function != key.mods.function_lock,
        ),
    );
    assert(notation@ =~= event_notation(*key));
    notation
}

/// On a letter key shift and caps lock cancel each other: the notation
/// depends on whether exactly one of them is on, and on nothing else. So
/// shift alone and caps lock alone give the same upper case letter, and
/// both together give the lower case letter of neither.
pub proof fn letter_case_is_exclusive_or(
    code: Code,
    shift: bool,
    caps: bool,
    numpad: bool,
    function: bool,
)
    requires
        is_letter(code),
    ensures
        key_notation(code, shift, caps, numpad, function) == key_notation(
            code,
            shift != caps,
            false,
            false,
            false,
        ),
        key_notation(code, true, false, numpad, function) == key_notation(
            code,
            false,
            true,
            numpad,
            function,
        ),
        key_notation(code, true, true, numpad, function) == key_notation(
            code,
            false,
            false,
            numpad,
            function,
        ),
{
}

/// What the notation of a letter key is: one letter, lower case when shift
/// and caps lock agree and the same letter in upper case when they differ.
pub proof fn letter_notation_is_a_letter(code: Code, numpad: bool, function: bool)
    requires
        is_letter(code),
    ensures
        key_notation(code, false, false, numpad, function).len() == 1,
        key_notation(code, true, false, numpad, function).len() == 1,
        'a' <= key_notation(code, false, false, numpad, function)[0] <= 'z',
        'A' <= key_notation(code, true, false, numpad, function)[0] <= 'Z',
        key_notation(code, true, false, numpad, function)[0] as int == key_notation(
            code,
            false,
            false,
            numpad,
            function,
        )[0] as int - 32,
{
}

/// Every character that a key types is a printable character of ASCII.
pub proof fn keys_type_printable_characters(code: Code)
    ensures
        match kind_of(code) {
            KeyKind::Letter(c) => 'a' <= c <= 'z' && is_printable(c) && is_printable(upper_case(c)),
            KeyKind::Plain(c) => is_printable(c),
            KeyKind::Sign(bare, shifted) => is_printable(bare) && is_printable(shifted),
            KeyKind::Keypad(digit, _) => '0' <= digit <= '9' && is_printable(digit),
            _ => true,
        },
{
}

/// The name of a key that has one starts with `{` and ends with `}`, with
/// something between them. Every navigation key that a keypad key stands for
/// has a name.
pub proof fn names_are_in_braces(code: Code)
    ensures
        kind_of(code) matches KeyKind::Named(name) ==> name.len() >= 4 && name[0] == '{' && name.last()
            == '}',
        keypad_alias(code) matches Some(navigation) ==> kind_of(navigation) is Named,
{
    reveal_strlit("{ESC}");
    reveal_strlit("{ENTER}");
    reveal_strlit("{TAB}");
    reveal_strlit("{UARR}");
    reveal_strlit("{DARR}");
    reveal_strlit("{LARR}");
    reveal_strlit("{RARR}");
    reveal_strlit("{PGUP}");
    reveal_strlit("{PGDO}");
    reveal_strlit("{BACK}");
    reveal_strlit("{DEL}");
    reveal_strlit("{HOME}");
    reveal_strlit("{END}");
    reveal_strlit("{INS}");
    reveal_strlit("{F1}");
    reveal_strlit("{F2}");
    reveal_strlit("{F3}");
    reveal_strlit("{F4}");
    reveal_strlit("{F5}");
    reveal_strlit("{F6}");
    reveal_strlit("{F7}");
    reveal_strlit("{F8}");
    reveal_strlit("{F9}");
    reveal_strlit("{F10}");
    reveal_strlit("{F11}");
    reveal_strlit("{F12}");
    reveal_strlit("{F13}");
    reveal_strlit("{F14}");
    reveal_strlit("{F15}");
    reveal_strlit("{F16}");
    reveal_strlit("{F17}");
    reveal_strlit("{F18}");
    reveal_strlit("{F19}");
    reveal_strlit("{F20}");
    reveal_strlit("{F21}");
    reveal_strlit("{F22}");
    reveal_strlit("{F23}");
    reveal_strlit("{F24}");
}

/// With num lock and the function modifier off, a keypad key that stands for
/// a navigation key is written exactly as that key is: the 0 as insert, the 1
/// as end, the 2 as the down arrow, the 3 as page down, the 4 as the left
/// arrow, the 6 as the right arrow, the 7 as home, the 8 as the up arrow and
/// the 9 as page up.
pub proof fn keypad_is_written_as_its_navigation_key(code: Code, shift: bool, caps: bool)
    ensures
        keypad_alias(code) matches Some(navigation) ==> key_notation(code, shift, caps, false, false)
            == key_notation(navigation, shift, caps, false, false),
        keypad_alias(Code::Numpad0) == Some(Code::Insert),
        keypad_alias(Code::Numpad1) == Some(Code::End),
        keypad_alias(Code::Numpad2) == Some(Code::ArrowDown),
        keypad_alias(Code::Numpad3) == Some(Code::PageDown),
        keypad_alias(Code::Numpad4) == Some(Code::ArrowLeft),
        keypad_alias(Code::Numpad5) == None::<Code>,
        keypad_alias(Code::Numpad6) == Some(Code::ArrowRight),
        keypad_alias(Code::Numpad7) == Some(Code::Home),
        keypad_alias(Code::Numpad8) == Some(Code::ArrowUp),
        keypad_alias(Code::Numpad9) == Some(Code::PageUp),
{
}

/// The notation of a key never begins with `^` or `~`: where a key press's
/// notation begins with one of them, control or alt was held. And it begins
/// with `{` only where it is a name in braces.
pub proof fn notation_prefixes_are_unambiguous(
    code: Code,
    shift: bool,
    caps: bool,
    numpad: bool,
    function: bool,
)
    ensures
        ({
            let notation = key_notation(code, shift, caps, numpad, function);
            notation.len() > 0 ==> {
                &&& notation[0] != '^'
                &&& notation[0] != '~'
                &&& notation[0] != '}'
                &&& notation[0] == '{' ==> notation.len() >= 4 && notation.last() == '}'
            }
        }),
{
    keys_type_printable_characters(code);
    names_are_in_braces(code);
    if let Some(navigation) = keypad_alias(code) {
        names_are_in_braces(navigation);
    }
}

/// A key that types a character has the key of a printable character as its
/// notation. Only a key with a name, or without notation, has any other.
pub proof fn character_keys_have_printable_notation(
    code: Code,
    shift: bool,
    caps: bool,
    numpad: bool,
    function: bool,
)
    ensures
        ({
            let notation = key_notation(code, shift, caps, numpad, function);
            notation.len() > 0 && notation[0] != '{' ==> printable_of(notation) is Some
        }),
{
    keys_type_printable_characters(code);
    names_are_in_braces(code);
    if let Some(navigation) = keypad_alias(code) {
        names_are_in_braces(navigation);
    }
}

} // verus!
