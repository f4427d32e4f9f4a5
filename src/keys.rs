use vstd::prelude::*;

verus! {

/// The kind of visual selection entered from Normal mode.
#[derive(Clone, Copy, Debug, PartialEq, Eq, Structural)]
pub enum VisualKind {
    Character,
    Line,
    Block,
}

/// The interaction state that decides how a key is interpreted.
#[derive(Clone, Copy, Debug, PartialEq, Eq, Structural)]
pub enum Mode {
    Insert,
    Normal,
    Visual(VisualKind),
    Command,
}

impl Mode {
    /// The mode an editor starts in.
    pub fn initial() -> (r: Mode)
        ensures
            r == Mode::Insert,
    {
        Mode::Insert
    }

    /// Whether this is the command-line mode (the only one that shows the command pane).
    pub fn is_command(&self) -> (r: bool)
        ensures
            r == (*self == Mode::Command),
    {
        match self {
            Mode::Command => true,
            _ => false,
        }
    }
}

/// A key on the keyboard, as far as the editor distinguishes keys.
#[derive(Clone, Copy, Debug, PartialEq, Eq, Structural)]
pub enum KeyCode {
    Char(char),
    F(u8),
    Backspace,
    Enter,
    Left,
    Right,
    Up,
    Down,
    Tab,
    Delete,
    Home,
    End,
    PageUp,
    PageDown,
    Esc,
    /// Any key the editor does not tell apart from the others.
    Null,
}

/// Whether a key went down, is auto-repeating while held, or went up.
#[derive(Clone, Copy, Debug, PartialEq, Eq, Structural)]
pub enum KeyKind {
    Press,
    Repeat,
    Release,
}

/// One key event with its modifier state.
#[derive(Clone, Copy, Debug, PartialEq, Eq, Structural)]
pub struct KeyEvent {
    pub code: KeyCode,
    pub kind: KeyKind,
    pub ctrl: bool,
    pub alt: bool,
    pub shift: bool,
}

impl KeyEvent {
    /// A key press without modifiers.
    pub fn press(code: KeyCode) -> (r: KeyEvent)
        ensures
            r == (KeyEvent { code, kind: KeyKind::Press, ctrl: false, alt: false, shift: false }),
    {
        KeyEvent { code, kind: KeyKind::Press, ctrl: false, alt: false, shift: false }
    }

    /// An auto-repeat of a held key, without modifiers.
    pub fn repeat(code: KeyCode) -> (r: KeyEvent)
        ensures
            r == (KeyEvent { code, kind: KeyKind::Repeat, ctrl: false, alt: false, shift: false }),
    {
        KeyEvent { code, kind: KeyKind::Repeat, ctrl: false, alt: false, shift: false }
    }

    /// A key release, without modifiers.
    pub fn release(code: KeyCode) -> (r: KeyEvent)
        ensures
            r == (KeyEvent { code, kind: KeyKind::Release, ctrl: false, alt: false, shift: false }),
    {
        KeyEvent { code, kind: KeyKind::Release, ctrl: false, alt: false, shift: false }
    }
}

} // verus!
