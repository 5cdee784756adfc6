use saucepan::{
    Bindings, Code, Colors, Config, Editor, EditorColors, EditorCommand, EditorData, EditorMode, Event,
    KeyEvent, Modifiers, Position, Response, TextColors, VisualMode, WindowColors,
};

fn config() -> Config {
    Config {
        bindings: Bindings {
            up: "k".to_string(),
            down: "j".to_string(),
            left: "h".to_string(),
            right: "l".to_string(),
            insert: "i".to_string(),
            normal: "{ESC}".to_string(),
            command: ":".to_string(),
        },
        colors: Colors {
            editor: EditorColors {
                window: WindowColors {
                    background: "#101010".to_string(),
                    cursor: "#ffffff".to_string(),
                    highlight: "#404040".to_string(),
                },
                text: TextColors { unselected: "#c0c0c0".to_string(), selected: "#ffffff".to_string() },
            },
        },
    }
}

fn editor() -> Editor {
    Editor::new(b"font bytes", config())
}

fn key(code: Code) -> Event {
    shifted(code, false)
}

fn shifted(code: Code, shift: bool) -> Event {
    Event::KeyDown(KeyEvent {
        code,
        mods: Modifiers {
            shift,
            ctrl: false,
            alt: false,
            caps_lock: false,
            num_lock: false,
            function: false,
            function_lock: false,
        },
    })
}

fn lines_of(data: &EditorData) -> Vec<&str> {
    data.lines().iter().map(|line| line.as_str()).collect()
}

#[test]
fn new_editor_keeps_font_theme_and_bindings() {
    let editor = editor();
    assert_eq!(editor.font(), b"font bytes");
    assert_eq!(editor.theme(), &config().colors);
    assert_eq!(editor.theme().editor.window.cursor, "#ffffff");
    assert_eq!(editor.command_map().get(EditorMode::Normal, "k"), Some(&EditorCommand::Vmove(-1)));
    assert_eq!(editor.command_map().get(EditorMode::Insert, "{ESC}"), Some(&EditorCommand::Mode(EditorMode::Normal)));
}

#[test]
fn window_connected_asks_for_focus() {
    let editor = editor();
    let mut data = EditorData::from_file("f", "ab");
    let response = editor.event(&Event::WindowConnected, &mut data);
    assert_eq!(response, Response { request_focus: true, request_paint: true, command: None });
    assert_eq!(lines_of(&data), vec!["ab"]);
}

#[test]
fn other_events_only_ask_to_be_drawn() {
    let editor = editor();
    let mut data = EditorData::from_file("f", "ab");
    let response = editor.event(&Event::Other, &mut data);
    assert_eq!(response, Response { request_focus: false, request_paint: true, command: None });
    assert_eq!(data.cursor(), Position { row: 0, col: 0 });
}

#[test]
fn keys_drive_a_session() {
    let editor = editor();
    let mut data = EditorData::from_file("f", "abc\ndef");
    for code in [Code::KeyL, Code::KeyJ, Code::ArrowRight] {
        let response = editor.event(&key(code), &mut data);
        assert_eq!(response, Response { request_focus: false, request_paint: true, command: None });
    }
    assert_eq!(data.cursor(), Position { row: 1, col: 2 });
    editor.event(&key(Code::KeyX), &mut data);
    assert_eq!(lines_of(&data), vec!["abc", "def"]);
    editor.event(&key(Code::KeyI), &mut data);
    assert_eq!(data.mode(), EditorMode::Insert);
    editor.event(&shifted(Code::KeyX, true), &mut data);
    editor.event(&shifted(Code::Digit6, true), &mut data);
    editor.event(&key(Code::Enter), &mut data);
    editor.event(&key(Code::Tab), &mut data);
    assert_eq!(lines_of(&data), vec!["abc", "deX^", "\tf"]);
    assert_eq!(data.cursor(), Position { row: 2, col: 1 });
    editor.event(&key(Code::Backspace), &mut data);
    editor.event(&key(Code::Backspace), &mut data);
    assert_eq!(lines_of(&data), vec!["abc", "deX^f"]);
    editor.event(&key(Code::Escape), &mut data);
    assert_eq!(data.mode(), EditorMode::Normal);
    editor.event(&key(Code::KeyK), &mut data);
    assert_eq!(data.cursor(), Position { row: 0, col: 3 });
    editor.event(&key(Code::KeyH), &mut data);
    assert_eq!(data.cursor(), Position { row: 0, col: 2 });
}

#[test]
fn command_line_session() {
    let editor = editor();
    let mut data = EditorData::from_file("f", "abc");
    editor.event(&shifted(Code::Semicolon, true), &mut data);
    assert!(data.command_mode());
    assert_eq!(data.mode(), EditorMode::Insert);
    editor.event(&key(Code::KeyW), &mut data);
    editor.event(&key(Code::KeyQ), &mut data);
    assert_eq!(data.command_buffer(), "wq");
    let response = editor.event(&key(Code::Enter), &mut data);
    assert_eq!(
        response,
        Response { request_focus: false, request_paint: true, command: Some("wq".to_string()) }
    );
    assert!(!data.command_mode());
    assert_eq!(data.command_buffer(), "");
    assert_eq!(lines_of(&data), vec!["abc"]);
}

#[test]
fn handle_keybuffer_looks_the_key_up_in_the_current_mode() {
    let editor = editor();
    let table = editor.command_map();
    let mut data = EditorData::from_file("f", "abc\ndef");
    assert_eq!(data.handle_keybuffer("j".to_string(), table), None);
    assert_eq!(data.cursor(), Position { row: 1, col: 0 });
    assert_eq!(data.handle_keybuffer("{ESC}".to_string(), table), None);
    assert_eq!(data.mode(), EditorMode::Normal);
    assert_eq!(data.handle_keybuffer("nothing".to_string(), table), None);
    assert_eq!(data.cursor(), Position { row: 1, col: 0 });
    data.set_mode(EditorMode::Insert);
    assert_eq!(data.handle_keybuffer("j".to_string(), table), None);
    assert_eq!(lines_of(&data), vec!["abc", "jdef"]);
    assert_eq!(data.handle_keybuffer("^c".to_string(), table), None);
    assert_eq!(lines_of(&data), vec!["abc", "jdef"]);
}

#[test]
fn apply_carries_out_each_command() {
    let mut data = EditorData::from_file("f", "abc\ndef");
    assert_eq!(data.apply(&EditorCommand::Hmove(2)), None);
    assert_eq!(data.apply(&EditorCommand::Vmove(1)), None);
    assert_eq!(data.cursor(), Position { row: 1, col: 2 });
    assert_eq!(data.apply(&EditorCommand::Visual(VisualMode::AllMove)), None);
    assert_eq!(data.visual(), VisualMode::AllMove);
    assert_eq!(data.apply(&EditorCommand::Hmove(-2)), None);
    assert_eq!(data.selection_start(), Position { row: 1, col: 2 });
    assert_eq!(data.apply(&EditorCommand::Delete), None);
    assert_eq!(lines_of(&data), vec!["abc", "f"]);
    assert_eq!(data.apply(&EditorCommand::Insert("xy".to_string())), None);
    assert_eq!(data.apply(&EditorCommand::Backspace), None);
    assert_eq!(lines_of(&data), vec!["abc", "xf"]);
    assert_eq!(data.apply(&EditorCommand::Mode(EditorMode::Insert)), None);
    assert_eq!(data.mode(), EditorMode::Insert);
    assert_eq!(data.apply(&EditorCommand::Mode(EditorMode::Normal)), None);
    assert_eq!(data.apply(&EditorCommand::Command), None);
    assert!(data.command_mode());
    assert_eq!(data.mode(), EditorMode::Insert);
    assert_eq!(data.apply(&EditorCommand::Insert("q".to_string())), None);
    assert_eq!(data.apply(&EditorCommand::Insert("\n".to_string())), Some("q".to_string()));
}
