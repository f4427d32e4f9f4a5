use gloop::command::CommandError;
use gloop::editor::App;
use gloop::keys::{KeyCode, KeyEvent, Mode, VisualKind};

fn key(app: &mut App, code: KeyCode) -> Result<(), CommandError> {
    app.handle_keyevent(KeyEvent::press(code))
}

fn typ(app: &mut App, text: &str) {
    for c in text.chars() {
        let code = if c == '\n' { KeyCode::Enter } else { KeyCode::Char(c) };
        key(app, code).unwrap();
    }
}

/// An editor in Normal mode whose document is `text`.
fn with_text(text: &str) -> App {
    let mut app = App::new();
    typ(&mut app, text);
    key(&mut app, KeyCode::Esc).unwrap();
    app
}

fn run(app: &mut App, command: &str) -> Result<(), CommandError> {
    key(app, KeyCode::Char(';')).unwrap();
    typ(app, command);
    key(app, KeyCode::Enter)
}

#[test]
fn new_app_is_empty_insert() {
    let app = App::new();
    assert!(!app.should_exit);
    assert_eq!(app.mode, Mode::Insert);
    assert_eq!(app.lines(), vec![String::new()]);
    assert_eq!(app.command_lines(), vec![String::new()]);
}

#[test]
fn quit_scenario() {
    let mut app = App::new();
    key(&mut app, KeyCode::Esc).unwrap();
    assert_eq!(app.mode, Mode::Normal);
    key(&mut app, KeyCode::Char(';')).unwrap();
    assert_eq!(app.mode, Mode::Command);
    key(&mut app, KeyCode::Char('q')).unwrap();
    assert!(!app.should_exit);
    key(&mut app, KeyCode::Enter).unwrap();
    assert!(app.should_exit);
    assert_eq!(app.mode, Mode::Normal);
    assert_eq!(app.command_lines(), vec![String::new()]);
}

#[test]
fn space_enters_command_mode() {
    let mut app = with_text("");
    key(&mut app, KeyCode::Char(' ')).unwrap();
    assert_eq!(app.mode, Mode::Command);
    key(&mut app, KeyCode::Char('x')).unwrap();
    assert_eq!(app.command_lines(), vec!["x".to_string()]);
    key(&mut app, KeyCode::Esc).unwrap();
    assert_eq!(app.mode, Mode::Normal);
    assert_eq!(app.command_lines(), vec![String::new()]);
    assert!(!app.should_exit);
}

#[test]
fn insert_after_three_moves() {
    let mut app = with_text("hello");
    key(&mut app, KeyCode::Char('0')).unwrap();
    for _ in 0..3 {
        key(&mut app, KeyCode::Char('l')).unwrap();
    }
    key(&mut app, KeyCode::Char('i')).unwrap();
    assert_eq!(app.mode, Mode::Insert);
    key(&mut app, KeyCode::Char('X')).unwrap();
    assert_eq!(app.lines(), vec!["helXlo".to_string()]);
}

#[test]
fn visual_copy_of_two_characters() {
    let mut app = with_text("hello");
    key(&mut app, KeyCode::Char('0')).unwrap();
    key(&mut app, KeyCode::Char('v')).unwrap();
    assert_eq!(app.mode, Mode::Visual(VisualKind::Character));
    key(&mut app, KeyCode::Char('l')).unwrap();
    key(&mut app, KeyCode::Char('l')).unwrap();
    key(&mut app, KeyCode::Char('y')).unwrap();
    assert_eq!(app.mode, Mode::Normal);
    assert_eq!(app.editor.area.yank_text(), "he");
    assert_eq!(app.lines(), vec!["hello".to_string()]);
    key(&mut app, KeyCode::Char('p')).unwrap();
    assert_eq!(app.lines(), vec!["hehello".to_string()]);
}

#[test]
fn open_line_below_and_above() {
    let mut app = with_text("ab\ncd");
    key(&mut app, KeyCode::Char('o')).unwrap();
    assert_eq!(app.mode, Mode::Insert);
    typ(&mut app, "x");
    key(&mut app, KeyCode::Esc).unwrap();
    assert_eq!(app.lines(), vec!["ab", "cd", "x"]);
    key(&mut app, KeyCode::Char('O')).unwrap();
    typ(&mut app, "y");
    assert_eq!(app.lines(), vec!["ab", "cd", "y", "x"]);
}

#[test]
fn undo_and_redo() {
    let mut app = with_text("abc");
    key(&mut app, KeyCode::Char('A')).unwrap();
    typ(&mut app, "d");
    key(&mut app, KeyCode::Esc).unwrap();
    assert_eq!(app.lines(), vec!["abcd"]);
    key(&mut app, KeyCode::Char('u')).unwrap();
    assert_eq!(app.lines(), vec!["abc"]);
    key(&mut app, KeyCode::Char('U')).unwrap();
    assert_eq!(app.lines(), vec!["abcd"]);
}

#[test]
fn visual_cut_and_change() {
    let mut app = with_text("hello");
    key(&mut app, KeyCode::Char('0')).unwrap();
    key(&mut app, KeyCode::Char('v')).unwrap();
    key(&mut app, KeyCode::Char('l')).unwrap();
    key(&mut app, KeyCode::Char('d')).unwrap();
    assert_eq!(app.mode, Mode::Normal);
    assert_eq!(app.lines(), vec!["ello"]);
    key(&mut app, KeyCode::Char('v')).unwrap();
    key(&mut app, KeyCode::Char('l')).unwrap();
    key(&mut app, KeyCode::Char('c')).unwrap();
    assert_eq!(app.mode, Mode::Insert);
    assert_eq!(app.lines(), vec!["llo"]);
}

#[test]
fn json_format_command_twice() {
    let mut app = with_text("{\"a\":1,\"b\":[true]}");
    run(&mut app, "json format").unwrap();
    let once = app.lines();
    assert_eq!(once, vec!["{", "  \"a\": 1,", "  \"b\": [", "    true", "  ]", "}"]);
    run(&mut app, "json format").unwrap();
    assert_eq!(app.lines(), once);
}

#[test]
fn base64_commands_round_trip() {
    let mut app = with_text("héllo\nwörld");
    run(&mut app, "base64 encode").unwrap();
    assert_eq!(app.lines(), vec!["aMOpbGxvCnfDtnJsZA=="]);
    run(&mut app, "base64 decode").unwrap();
    assert_eq!(app.lines(), vec!["héllo", "wörld"]);
    assert_eq!(app.mode, Mode::Normal);
}

#[test]
fn base64_decode_of_non_utf8_leaves_buffer() {
    let mut app = with_text("/w==");
    assert_eq!(run(&mut app, "base64 decode"), Err(CommandError::InvalidUtf8));
    assert_eq!(app.lines(), vec!["/w=="]);
    assert_eq!(app.mode, Mode::Normal);
    assert_eq!(run(&mut app, "base64 decode now"), Err(CommandError::InvalidUtf8));
    let mut bad = with_text("%%%");
    assert_eq!(run(&mut bad, "base64 decode"), Err(CommandError::InvalidBase64));
    assert_eq!(bad.lines(), vec!["%%%"]);
}

#[test]
fn unknown_command_leaves_buffer() {
    let mut app = with_text("abc");
    assert_eq!(
        run(&mut app, "json pretty"),
        Err(CommandError::Unknown("json pretty".to_string()))
    );
    assert_eq!(app.lines(), vec!["abc"]);
    assert_eq!(app.mode, Mode::Normal);
    assert_eq!(app.command_lines(), vec![String::new()]);
}

#[test]
fn multi_line_command_fails() {
    let mut app = with_text("abc");
    key(&mut app, KeyCode::Char(';')).unwrap();
    typ(&mut app, "q");
    // A held Enter is text input for the command line, not a command.
    app.handle_keyevent(KeyEvent::repeat(KeyCode::Enter)).unwrap();
    assert_eq!(app.command_lines().len(), 2);
    assert_eq!(key(&mut app, KeyCode::Enter), Err(CommandError::TooManyLines));
    assert!(!app.should_exit);
    assert_eq!(app.lines(), vec!["abc"]);
    assert_eq!(app.mode, Mode::Normal);
}

#[test]
fn release_events_are_ignored() {
    let mut app = App::new();
    app.handle_keyevent(KeyEvent::release(KeyCode::Char('a'))).unwrap();
    assert_eq!(app.lines(), vec![String::new()]);
    app.handle_keyevent(KeyEvent::release(KeyCode::Esc)).unwrap();
    assert_eq!(app.mode, Mode::Insert);
}

#[test]
fn json_format_command_refuses_non_json() {
    let mut app = with_text("{oops");
    assert_eq!(run(&mut app, "json format"), Err(CommandError::InvalidJson));
    assert_eq!(app.lines(), vec!["{oops"]);
    assert_eq!(app.mode, Mode::Normal);
}

#[test]
fn rewrite_is_undone_by_two_undos() {
    let mut app = with_text("abc\ndef");
    run(&mut app, "base64 encode").unwrap();
    assert_eq!(app.lines(), vec!["YWJjCmRlZg=="]);
    key(&mut app, KeyCode::Char('u')).unwrap();
    assert_eq!(app.lines(), vec![""]);
    key(&mut app, KeyCode::Char('u')).unwrap();
    assert_eq!(app.lines(), vec!["abc", "def"]);
}

#[test]
fn rewrite_keeps_the_register() {
    let mut app = with_text("hello");
    key(&mut app, KeyCode::Char('0')).unwrap();
    key(&mut app, KeyCode::Char('v')).unwrap();
    key(&mut app, KeyCode::Char('l')).unwrap();
    key(&mut app, KeyCode::Char('y')).unwrap();
    run(&mut app, "base64 encode").unwrap();
    assert_eq!(app.lines(), vec!["aGVsbG8="]);
    assert_eq!(app.editor.area.yank_text(), "h");
}
