use saucepan::{key_to_char, keyevent_to_key, Code, KeyEvent, Modifiers};

fn plain() -> Modifiers {
    Modifiers {
        shift: false,
        ctrl: false,
        alt: false,
        caps_lock: false,
        num_lock: false,
        function: false,
        function_lock: false,
    }
}

fn press(code: Code, mods: Modifiers) -> String {
    keyevent_to_key(&KeyEvent { code, mods })
}

#[test]
fn letters_follow_shift_exclusive_or_caps_lock() {
    assert_eq!(key_to_char(&Code::KeyA, false, false, false, false), "a");
    assert_eq!(key_to_char(&Code::KeyA, true, false, false, false), "A");
    assert_eq!(key_to_char(&Code::KeyA, false, true, false, false), "A");
    assert_eq!(key_to_char(&Code::KeyA, true, true, false, false), "a");
    assert_eq!(key_to_char(&Code::KeyZ, false, false, true, true), "z");
    assert_eq!(key_to_char(&Code::KeyZ, true, false, true, true), "Z");
}

#[test]
fn every_letter_has_both_cases() {
    let letters = [
        Code::KeyA, Code::KeyB, Code::KeyC, Code::KeyD, Code::KeyE, Code::KeyF, Code::KeyG,
        Code::KeyH, Code::KeyI, Code::KeyJ, Code::KeyK, Code::KeyL, Code::KeyM, Code::KeyN,
        Code::KeyO, Code::KeyP, Code::KeyQ, Code::KeyR, Code::KeyS, Code::KeyT, Code::KeyU,
        Code::KeyV, Code::KeyW, Code::KeyX, Code::KeyY, Code::KeyZ,
    ];
    for (i, code) in letters.iter().enumerate() {
        let lower = (b'a' + i as u8) as char;
        let upper = (b'A' + i as u8) as char;
        assert_eq!(key_to_char(code, false, false, false, false), lower.to_string());
        assert_eq!(key_to_char(code, true, true, false, false), lower.to_string());
        assert_eq!(key_to_char(code, true, false, false, false), upper.to_string());
        assert_eq!(key_to_char(code, false, true, false, false), upper.to_string());
    }
}

#[test]
fn same_press_same_notation() {
    let mods = Modifiers { shift: true, ctrl: true, ..plain() };
    assert_eq!(press(Code::KeyQ, mods), press(Code::KeyQ, mods));
    assert_eq!(press(Code::KeyQ, mods), "^Q");
}

#[test]
fn named_keys_have_names_in_braces() {
    let named = [
        (Code::Escape, "{ESC}"), (Code::Enter, "{ENTER}"), (Code::Tab, "{TAB}"),
        (Code::ArrowUp, "{UARR}"), (Code::ArrowDown, "{DARR}"), (Code::ArrowLeft, "{LARR}"),
        (Code::ArrowRight, "{RARR}"), (Code::PageUp, "{PGUP}"), (Code::PageDown, "{PGDO}"),
        (Code::Backspace, "{BACK}"), (Code::Delete, "{DEL}"), (Code::Home, "{HOME}"),
        (Code::End, "{END}"), (Code::Insert, "{INS}"), (Code::F1, "{F1}"), (Code::F5, "{F5}"),
        (Code::F12, "{F12}"), (Code::F24, "{F24}"),
    ];
    for (code, name) in named {
        assert_eq!(key_to_char(&code, false, false, false, false), name);
        assert_eq!(key_to_char(&code, true, true, true, true), name);
    }
    assert_eq!(key_to_char(&Code::Space, false, false, false, false), " ");
}

#[test]
fn digits_and_their_shifted_signs() {
    let digits = [
        (Code::Digit0, "0", ")"), (Code::Digit1, "1", "!"), (Code::Digit2, "2", "@"),
        (Code::Digit3, "3", "#"), (Code::Digit4, "4", "$"), (Code::Digit5, "5", "%"),
        (Code::Digit6, "6", "\\^"), (Code::Digit7, "7", "&"), (Code::Digit8, "8", "*"),
        (Code::Digit9, "9", "("),
    ];
    for (code, digit, sign) in digits {
        assert_eq!(key_to_char(&code, false, false, false, false), digit);
        assert_eq!(key_to_char(&code, false, true, false, false), digit);
        assert_eq!(key_to_char(&code, true, false, false, false), sign);
    }
}

#[test]
fn punctuation_and_escapes() {
    let keys = [
        (Code::Backquote, "`", "\\~"), (Code::Equal, "=", "+"), (Code::Minus, "-", "_"),
        (Code::BracketLeft, "[", "\\{"), (Code::BracketRight, "]", "\\}"),
        (Code::Backslash, "\\", "|"), (Code::Semicolon, ";", ":"), (Code::Quote, "'", "\""),
        (Code::Comma, ",", "<"), (Code::Period, ".", ">"), (Code::Slash, "/", "?"),
    ];
    for (code, bare, shifted) in keys {
        assert_eq!(key_to_char(&code, false, false, false, false), bare);
        assert_eq!(key_to_char(&code, true, false, false, false), shifted);
    }
}

#[test]
fn keypad_digits_need_num_lock_or_function() {
    let keys = [
        (Code::Numpad0, "0", "{INS}"), (Code::Numpad1, "1", "{END}"), (Code::Numpad2, "2", "{DARR}"),
        (Code::Numpad3, "3", "{PGDO}"), (Code::Numpad4, "4", "{LARR}"), (Code::Numpad5, "5", ""),
        (Code::Numpad6, "6", "{RARR}"), (Code::Numpad7, "7", "{HOME}"), (Code::Numpad8, "8", "{UARR}"),
        (Code::Numpad9, "9", "{PGUP}"),
    ];
    for (code, digit, alias) in keys {
        assert_eq!(key_to_char(&code, false, false, true, false), digit);
        assert_eq!(key_to_char(&code, false, false, false, true), digit);
        assert_eq!(key_to_char(&code, false, false, true, true), digit);
        assert_eq!(key_to_char(&code, true, true, false, false), alias);
    }
}

#[test]
fn keypad_without_num_lock_is_its_navigation_key() {
    let pairs = [
        (Code::Numpad0, Code::Insert), (Code::Numpad1, Code::End), (Code::Numpad2, Code::ArrowDown),
        (Code::Numpad3, Code::PageDown), (Code::Numpad4, Code::ArrowLeft),
        (Code::Numpad6, Code::ArrowRight), (Code::Numpad7, Code::Home), (Code::Numpad8, Code::ArrowUp),
        (Code::Numpad9, Code::PageUp),
    ];
    for (keypad, navigation) in pairs {
        for shift in [false, true] {
            for caps in [false, true] {
                assert_eq!(
                    key_to_char(&keypad, shift, caps, false, false),
                    key_to_char(&navigation, shift, caps, false, false)
                );
            }
        }
        assert_eq!(
            press(keypad, plain()),
            press(navigation, plain())
        );
    }
    assert_eq!(key_to_char(&Code::Numpad3, false, false, false, false), "{PGDO}");
    assert_eq!(key_to_char(&Code::PageDown, false, false, false, false), "{PGDO}");
}

#[test]
fn keypad_signs() {
    let keys = [
        (Code::NumpadAdd, "+"), (Code::NumpadSubtract, "-"), (Code::NumpadMultiply, "*"),
        (Code::NumpadDivide, "/"), (Code::NumpadDecimal, "."), (Code::NumpadComma, ","),
        (Code::NumpadParenLeft, "("), (Code::NumpadParenRight, ")"),
    ];
    for (code, sign) in keys {
        assert_eq!(key_to_char(&code, false, false, false, false), sign);
    }
}

#[test]
fn unidentified_key_has_no_notation() {
    assert_eq!(key_to_char(&Code::Unidentified, true, false, true, false), "");
    assert_eq!(press(Code::Unidentified, plain()), "");
}

#[test]
fn control_and_alt_are_prefixes() {
    assert_eq!(press(Code::KeyC, plain()), "c");
    assert_eq!(press(Code::KeyC, Modifiers { ctrl: true, ..plain() }), "^c");
    assert_eq!(press(Code::KeyC, Modifiers { alt: true, ..plain() }), "~c");
    assert_eq!(press(Code::KeyC, Modifiers { ctrl: true, alt: true, ..plain() }), "^~c");
    assert_eq!(press(Code::KeyC, Modifiers { ctrl: true, alt: true, shift: true, ..plain() }), "^~C");
    assert_eq!(press(Code::Enter, Modifiers { ctrl: true, ..plain() }), "^{ENTER}");
    assert_eq!(press(Code::Digit6, Modifiers { shift: true, ..plain() }), "\\^");
}

#[test]
fn caps_lock_and_shift_cancel_in_a_key_press() {
    let shift = Modifiers { shift: true, ..plain() };
    let caps = Modifiers { caps_lock: true, ..plain() };
    let both = Modifiers { shift: true, caps_lock: true, ..plain() };
    assert_eq!(press(Code::KeyA, shift), "A");
    assert_eq!(press(Code::KeyA, caps), "A");
    assert_eq!(press(Code::KeyA, both), "a");
}

#[test]
fn function_and_function_lock_cancel() {
    let function = Modifiers { function: true, ..plain() };
    let lock = Modifiers { function_lock: true, ..plain() };
    let both = Modifiers { function: true, function_lock: true, ..plain() };
    let num_lock = Modifiers { num_lock: true, ..plain() };
    assert_eq!(press(Code::Numpad7, plain()), "{HOME}");
    assert_eq!(press(Code::Numpad7, function), "7");
    assert_eq!(press(Code::Numpad7, lock), "7");
    assert_eq!(press(Code::Numpad7, both), "{HOME}");
    assert_eq!(press(Code::Numpad7, num_lock), "7");
}
