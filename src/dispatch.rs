use vstd::prelude::*;

use crate::keys::{KeyEvent, KeyCode, KeyKind, Mode, VisualKind};

verus! {

/// A cursor motion inside the main buffer.
#[derive(Clone, Copy, Debug, PartialEq, Eq, Structural)]
pub enum Motion {
    Back,
    Forward,
    Up,
    Down,
    WordBack,
    WordForward,
    Head,
    End,
}

/// One operation that a key asks of the two buffers.
#[derive(Clone, Copy, Debug, PartialEq, Eq, Structural)]
pub enum Op {
    /// Hand the key to the main buffer as text input.
    EditorInput(KeyEvent),
    /// Move the main buffer's cursor (extending an ongoing selection).
    Move(Motion),
    Undo,
    Redo,
    Paste,
    StartSelection,
    CancelSelection,
    Copy,
    Cut,
    /// Insert a line break at the main buffer's cursor.
    NewLine,
    /// Hand the key to the command line as text input.
    CommandInput(KeyEvent),
    /// Empty the command line, keeping its undo history.
    ClearCommandLine,
    /// Parse the command line and run the command it names.
    RunCommand,
}

/// The outcome of one key: the next mode and the operations to perform, in order.
pub struct Transition {
    pub mode: Mode,
    pub ops: Vec<Op>,
}

/// Keys of Normal mode that act on a press and keep acting while held.
pub open spec fn normal_held_op(c: char) -> Option<Op> {
    if c == 'u' {
        Some(Op::Undo)
    } else if c == 'U' {
        Some(Op::Redo)
    } else if c == 'h' {
        Some(Op::Move(Motion::Back))
    } else if c == 'j' {
        Some(Op::Move(Motion::Down))
    } else if c == 'k' {
        Some(Op::Move(Motion::Up))
    } else if c == 'l' {
        Some(Op::Move(Motion::Forward))
    } else if c == 'b' {
        Some(Op::Move(Motion::WordBack))
    } else if c == 'w' {
        Some(Op::Move(Motion::WordForward))
    } else {
        None
    }
}

/// Keys of Normal mode that act on a press only.
pub open spec fn normal_press(c: char) -> (Mode, Seq<Op>) {
    if c == 'i' {
        (Mode::Insert, seq![])
    } else if c == 'a' {
        (Mode::Insert, seq![Op::Move(Motion::Forward)])
    } else if c == 'v' {
        (Mode::Visual(VisualKind::Character), seq![Op::StartSelection])
    } else if c == ';' || c == ' ' {
        (Mode::Command, seq![])
    } else if c == 'p' {
        (Mode::Normal, seq![Op::Paste])
    } else if c == 'E' {
        (Mode::Normal, seq![Op::Move(Motion::End)])
    } else if c == '0' {
        (Mode::Normal, seq![Op::Move(Motion::Head)])
    } else if c == 'I' {
        (Mode::Insert, seq![Op::Move(Motion::Head)])
    } else if c == 'A' {
        (Mode::Insert, seq![Op::Move(Motion::End)])
    } else if c == 'o' {
        (Mode::Insert, seq![Op::Move(Motion::End), Op::NewLine])
    } else if c == 'O' {
        (Mode::Insert, seq![Op::Move(Motion::Up), Op::Move(Motion::End), Op::NewLine])
    } else {
        (Mode::Normal, seq![])
    }
}

pub open spec fn normal_transition(key: KeyEvent) -> (Mode, Seq<Op>) {
    match key.code {
        KeyCode::Char(c) => if key.kind != KeyKind::Release && normal_held_op(c).is_some() {
            (Mode::Normal, seq![normal_held_op(c).unwrap()])
        } else if key.kind == KeyKind::Press {
            normal_press(c)
        } else {
            (Mode::Normal, seq![])
        },
        _ => (Mode::Normal, seq![]),
    }
}

/// Character motions of Visual mode; only a character-wise selection follows them.
pub open spec fn visual_motion(c: char) -> Option<Motion> {
    if c == 'h' {
        Some(Motion::Back)
    } else if c == 'j' {
        Some(Motion::Down)
    } else if c == 'k' {
        Some(Motion::Up)
    } else if c == 'l' {
        Some(Motion::Forward)
    } else if c == 'b' {
        Some(Motion::WordBack)
    } else if c == 'w' {
        Some(Motion::WordForward)
    } else {
        None
    }
}

pub open spec fn visual_transition(kind: VisualKind, key: KeyEvent) -> (Mode, Seq<Op>) {
    let stay = Mode::Visual(kind);
    if key.kind != KeyKind::Press {
        (stay, seq![])
    } else {
        match key.code {
            KeyCode::Esc => (Mode::Normal, seq![Op::CancelSelection]),
            KeyCode::Char(c) => if c == 'y' {
                (Mode::Normal, seq![Op::Copy])
            } else if c == 'd' {
                (Mode::Normal, seq![Op::Cut])
            } else if c == 'c' {
                (Mode::Insert, seq![Op::Cut])
            } else if c == 'E' {
                (stay, seq![Op::Move(Motion::End)])
            } else if c == '0' {
                (stay, seq![Op::Move(Motion::Head)])
            } else if visual_motion(c).is_some() && kind == VisualKind::Character {
                (stay, seq![Op::Move(visual_motion(c).unwrap())])
            } else {
                (stay, seq![])
            },
            _ => (stay, seq![]),
        }
    }
}

/// The full key table: for each mode and key, the next mode and the operations.
pub open spec fn transition(mode: Mode, key: KeyEvent) -> (Mode, Seq<Op>) {
    match mode {
        Mode::Insert => if key.code == KeyCode::Esc && key.kind == KeyKind::Press {
            (Mode::Normal, seq![])
        } else if key.kind == KeyKind::Release {
            (Mode::Insert, seq![])
        } else {
            (Mode::Insert, seq![Op::EditorInput(key)])
        },
        Mode::Normal => normal_transition(key),
        Mode::Visual(kind) => visual_transition(kind, key),
        Mode::Command => if key.code == KeyCode::Esc && key.kind == KeyKind::Press {
            (Mode::Normal, seq![Op::ClearCommandLine])
        } else if key.code == KeyCode::Enter && key.kind == KeyKind::Press {
            (Mode::Normal, seq![Op::RunCommand, Op::ClearCommandLine])
        } else if key.kind == KeyKind::Release {
            (Mode::Command, seq![])
        } else {
            (Mode::Command, seq![Op::CommandInput(key)])
        },
    }
}

/// Whether a key runs the command line.
pub open spec fn runs_command(mode: Mode, key: KeyEvent) -> bool {
    mode == Mode::Command && key.code == KeyCode::Enter && key.kind == KeyKind::Press
}

/// Whether an operation may change the main buffer's text.
pub open spec fn edits_text(op: Op) -> bool {
    match op {
        Op::EditorInput(_) | Op::Undo | Op::Redo | Op::Paste | Op::Cut | Op::NewLine
        | Op::RunCommand => true,
        _ => false,
    }
}

fn held_op(c: char) -> (r: Option<Op>)
    ensures
        r == normal_held_op(c),
{
    if c == 'u' {
        Some(Op::Undo)
    } else if c == 'U' {
        Some(Op::Redo)
    } else if c == 'h' {
        Some(Op::Move(Motion::Back))
    } else if c == 'j' {
        Some(Op::Move(Motion::Down))
    } else if c == 'k' {
        Some(Op::Move(Motion::Up))
    } else if c == 'l' {
        Some(Op::Move(Motion::Forward))
    } else if c == 'b' {
        Some(Op::Move(Motion::WordBack))
    } else if c == 'w' {
        Some(Op::Move(Motion::WordForward))
    } else {
        None
    }
}

fn press_op(c: char) -> (r: Transition)
    ensures
        (r.mode, r.ops@) == normal_press(c),
{
    if c == 'i' {
        Transition { mode: Mode::Insert, ops: vec![] }
    } else if c == 'a' {
        Transition { mode: Mode::Insert, ops: vec![Op::Move(Motion::Forward)] }
    } else if c == 'v' {
        Transition { mode: Mode::Visual(VisualKind::Character), ops: vec![Op::StartSelection] }
    } else if c == ';' || c == ' ' {
        Transition { mode: Mode::Command, ops: vec![] }
    } else if c == 'p' {
        Transition { mode: Mode::Normal, ops: vec![Op::Paste] }
    } else if c == 'E' {
        Transition { mode: Mode::Normal, ops: vec![Op::Move(Motion::End)] }
    } else if c == '0' {
        Transition { mode: Mode::Normal, ops: vec![Op::Move(Motion::Head)] }
    } else if c == 'I' {
        Transition { mode: Mode::Insert, ops: vec![Op::Move(Motion::Head)] }
    } else if c == 'A' {
        Transition { mode: Mode::Insert, ops: vec![Op::Move(Motion::End)] }
    } else if c == 'o' {
        Transition { mode: Mode::Insert, ops: vec![Op::Move(Motion::End), Op::NewLine] }
    } else if c == 'O' {
        Transition {
            mode: Mode::Insert,
            ops: vec![Op::Move(Motion::Up), Op::Move(Motion::End), Op::NewLine],
        }
    } else {
        Transition { mode: Mode::Normal, ops: vec![] }
    }
}

fn visual_step(kind: VisualKind, key: KeyEvent) -> (r: Transition)
    ensures
        (r.mode, r.ops@) == visual_transition(kind, key),
{
    let stay = Mode::Visual(kind);
    match key.kind {
        KeyKind::Press => {},
        _ => {
            return Transition { mode: stay, ops: vec![] };
        },
    }
    match key.code {
        KeyCode::Esc => Transition { mode: Mode::Normal, ops: vec![Op::CancelSelection] },
        KeyCode::Char(c) => {
            if c == 'y' {
                Transition { mode: Mode::Normal, ops: vec![Op::Copy] }
            } else if c == 'd' {
                Transition { mode: Mode::Normal, ops: vec![Op::Cut] }
            } else if c == 'c' {
                Transition { mode: Mode::Insert, ops: vec![Op::Cut] }
            } else if c == 'E' {
                Transition { mode: stay, ops: vec![Op::Move(Motion::End)] }
            } else if c == '0' {
                Transition { mode: stay, ops: vec![Op::Move(Motion::Head)] }
            } else {
                let m = if c == 'h' {
                    Some(Motion::Back)
                } else if c == 'j' {
                    Some(Motion::Down)
                } else if c == 'k' {
                    Some(Motion::Up)
                } else if c == 'l' {
                    Some(Motion::Forward)
                } else if c == 'b' {
                    Some(Motion::WordBack)
                } else if c == 'w' {
                    Some(Motion::WordForward)
                } else {
                    None
                };
                match (m, kind) {
                    (Some(motion), VisualKind::Character) => Transition {
                        mode: stay,
                        ops: vec![Op::Move(motion)],
                    },
                    _ => Transition { mode: stay, ops: vec![] },
                }
            }
        },
        _ => Transition { mode: stay, ops: vec![] },
    }
}

/// Decides what one key does in the given mode.
pub fn step(mode: Mode, key: KeyEvent) -> (r: Transition)
    ensures
        (r.mode, r.ops@) == transition(mode, key),
{
    match mode {
        Mode::Insert => match (key.code, key.kind) {
            (KeyCode::Esc, KeyKind::Press) => Transition { mode: Mode::Normal, ops: vec![] },
            (_, KeyKind::Release) => Transition { mode: Mode::Insert, ops: vec![] },
            _ => Transition { mode: Mode::Insert, ops: vec![Op::EditorInput(key)] },
        },
        Mode::Normal => match key.code {
            KeyCode::Char(c) => {
                let held = held_op(c);
                match (held, key.kind) {
                    (Some(op), KeyKind::Press) | (Some(op), KeyKind::Repeat) => Transition {
                        mode: Mode::Normal,
                        ops: vec![op],
                    },
                    (_, KeyKind::Press) => press_op(c),
                    _ => Transition { mode: Mode::Normal, ops: vec![] },
                }
            },
            _ => Transition { mode: Mode::Normal, ops: vec![] },
        },
        Mode::Visual(kind) => visual_step(kind, key),
        Mode::Command => match (key.code, key.kind) {
            (KeyCode::Esc, KeyKind::Press) => Transition {
                mode: Mode::Normal,
                ops: vec![Op::ClearCommandLine],
            },
            (KeyCode::Enter, KeyKind::Press) => Transition {
                mode: Mode::Normal,
                ops: vec![Op::RunCommand, Op::ClearCommandLine],
            },
            (_, KeyKind::Release) => Transition { mode: Mode::Command, ops: vec![] },
            _ => Transition { mode: Mode::Command, ops: vec![Op::CommandInput(key)] },
        },
    }
}

} // verus!
