use gloop::dispatch::{step, Motion, Op};
use gloop::keys::{KeyCode, KeyEvent, Mode, VisualKind};

fn press(c: char) -> KeyEvent {
    KeyEvent::press(KeyCode::Char(c))
}

fn check(mode: Mode, key: KeyEvent, next: Mode, ops: Vec<Op>) {
    let t = step(mode, key);
    assert_eq!(t.mode, next, "mode after {:?} in {:?}", key, mode);
    assert_eq!(t.ops, ops, "ops after {:?} in {:?}", key, mode);
}

#[test]
fn insert_mode_table() {
    check(Mode::Insert, KeyEvent::press(KeyCode::Esc), Mode::Normal, vec![]);
    let x = press('x');
    check(Mode::Insert, x, Mode::Insert, vec![Op::EditorInput(x)]);
    let enter = KeyEvent::press(KeyCode::Enter);
    check(Mode::Insert, enter, Mode::Insert, vec![Op::EditorInput(enter)]);
    check(Mode::Insert, KeyEvent::release(KeyCode::Char('x')), Mode::Insert, vec![]);
}

#[test]
fn normal_mode_table() {
    let n = Mode::Normal;
    check(n, press('i'), Mode::Insert, vec![]);
    check(n, press('a'), Mode::Insert, vec![Op::Move(Motion::Forward)]);
    check(n, press('v'), Mode::Visual(VisualKind::Character), vec![Op::StartSelection]);
    check(n, press(';'), Mode::Command, vec![]);
    check(n, press(' '), Mode::Command, vec![]);
    check(n, press('p'), n, vec![Op::Paste]);
    check(n, press('h'), n, vec![Op::Move(Motion::Back)]);
    check(n, press('j'), n, vec![Op::Move(Motion::Down)]);
    check(n, press('k'), n, vec![Op::Move(Motion::Up)]);
    check(n, press('l'), n, vec![Op::Move(Motion::Forward)]);
    check(n, press('b'), n, vec![Op::Move(Motion::WordBack)]);
    check(n, press('w'), n, vec![Op::Move(Motion::WordForward)]);
    check(n, press('E'), n, vec![Op::Move(Motion::End)]);
    check(n, press('0'), n, vec![Op::Move(Motion::Head)]);
    check(n, press('I'), Mode::Insert, vec![Op::Move(Motion::Head)]);
    check(n, press('A'), Mode::Insert, vec![Op::Move(Motion::End)]);
    check(n, press('o'), Mode::Insert, vec![Op::Move(Motion::End), Op::NewLine]);
    check(
        n,
        press('O'),
        Mode::Insert,
        vec![Op::Move(Motion::Up), Op::Move(Motion::End), Op::NewLine],
    );
    check(n, press('u'), n, vec![Op::Undo]);
    check(n, press('U'), n, vec![Op::Redo]);
    check(n, press('z'), n, vec![]);
    check(n, KeyEvent::press(KeyCode::Esc), n, vec![]);
}

#[test]
fn normal_mode_held_keys() {
    let n = Mode::Normal;
    for (c, op) in [
        ('h', Op::Move(Motion::Back)),
        ('j', Op::Move(Motion::Down)),
        ('k', Op::Move(Motion::Up)),
        ('l', Op::Move(Motion::Forward)),
        ('b', Op::Move(Motion::WordBack)),
        ('w', Op::Move(Motion::WordForward)),
        ('u', Op::Undo),
        ('U', Op::Redo),
    ] {
        check(n, KeyEvent::repeat(KeyCode::Char(c)), n, vec![op]);
        check(n, KeyEvent::release(KeyCode::Char(c)), n, vec![]);
    }
    for c in ['i', 'a', 'v', ';', 'p', 'E', '0', 'I', 'A', 'o', 'O'] {
        check(n, KeyEvent::repeat(KeyCode::Char(c)), n, vec![]);
    }
}

#[test]
fn visual_mode_table() {
    for kind in [VisualKind::Character, VisualKind::Line, VisualKind::Block] {
        let v = Mode::Visual(kind);
        check(v, KeyEvent::press(KeyCode::Esc), Mode::Normal, vec![Op::CancelSelection]);
        check(v, press('y'), Mode::Normal, vec![Op::Copy]);
        check(v, press('d'), Mode::Normal, vec![Op::Cut]);
        check(v, press('c'), Mode::Insert, vec![Op::Cut]);
        check(v, press('E'), v, vec![Op::Move(Motion::End)]);
        check(v, press('0'), v, vec![Op::Move(Motion::Head)]);
        check(v, press('z'), v, vec![]);
        check(v, KeyEvent::repeat(KeyCode::Char('l')), v, vec![]);
    }
    let c = Mode::Visual(VisualKind::Character);
    check(c, press('h'), c, vec![Op::Move(Motion::Back)]);
    check(c, press('j'), c, vec![Op::Move(Motion::Down)]);
    check(c, press('k'), c, vec![Op::Move(Motion::Up)]);
    check(c, press('l'), c, vec![Op::Move(Motion::Forward)]);
    check(c, press('b'), c, vec![Op::Move(Motion::WordBack)]);
    check(c, press('w'), c, vec![Op::Move(Motion::WordForward)]);
    for kind in [VisualKind::Line, VisualKind::Block] {
        let v = Mode::Visual(kind);
        for m in ['h', 'j', 'k', 'l', 'b', 'w'] {
            check(v, press(m), v, vec![]);
        }
    }
}

#[test]
fn command_mode_table() {
    let c = Mode::Command;
    check(c, KeyEvent::press(KeyCode::Esc), Mode::Normal, vec![Op::ClearCommandLine]);
    check(
        c,
        KeyEvent::press(KeyCode::Enter),
        Mode::Normal,
        vec![Op::RunCommand, Op::ClearCommandLine],
    );
    let q = press('q');
    check(c, q, c, vec![Op::CommandInput(q)]);
    check(c, KeyEvent::release(KeyCode::Enter), c, vec![]);
}

#[test]
fn initial_mode_is_insert() {
    assert_eq!(Mode::initial(), Mode::Insert);
    assert!(Mode::Command.is_command());
    assert!(!Mode::Normal.is_command());
}
