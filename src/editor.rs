use vstd::prelude::*;

use tui_textarea::{CursorMove, TextArea};

use crate::command::{parse_agrees, parse_lines_spec, Command, CommandError};
use crate::dispatch::{edits_text, runs_command, step, transition, Motion, Op};
use crate::keys::{KeyCode, KeyEvent, KeyKind, Mode};
use crate::transform::{
    base64_decode_spec, base64_has_no_line_break, base64_std, command_effect, joined, transform_spec,
    Effect,
};
use vstd::utf8::encode_utf8;

verus! {

/// A text buffer: lines of text with a cursor, a selection, a clipboard
/// register and an undo history, kept by a `tui_textarea::TextArea`.
#[verifier::external_body]
pub struct TextBuffer {
    pub area: TextArea<'static>,
}

#[verifier::external_type_specification]
pub struct ExInputKey(tui_textarea::Key);

#[verifier::external_type_specification]
pub struct ExInput(tui_textarea::Input);

/// The lines of text that a buffer holds.
pub uninterp spec fn text_lines(t: TextBuffer) -> Seq<Seq<char>>;

/// A buffer's cursor, as (row, column in characters).
pub uninterp spec fn cursor_of(t: TextBuffer) -> (nat, nat);

/// Where a buffer's ongoing selection started, if one is ongoing.
pub uninterp spec fn anchor_of(t: TextBuffer) -> Option<(nat, nat)>;

/// The text in a buffer's clipboard register.
pub uninterp spec fn register_of(t: TextBuffer) -> Seq<char>;

/// The texts a buffer held before each edit that undo can revert, oldest first.
pub uninterp spec fn past_texts(t: TextBuffer) -> Seq<Seq<Seq<char>>>;

/// How many edits a buffer keeps for undo.
pub uninterp spec fn max_histories_of(t: TextBuffer) -> nat;

/// How many edits each buffer keeps for undo: in effect, all of them.
pub const MAX_HISTORIES: usize = usize::MAX;

/// Whether a position lies inside the lines (a column may be one past the line's end).
pub open spec fn position_in(lines: Seq<Seq<char>>, p: (nat, nat)) -> bool {
    p.0 < lines.len() && p.1 <= lines[p.0 as int].len()
}

pub open spec fn min_nat(a: nat, b: nat) -> nat {
    if a <= b { a } else { b }
}

/// Where a motion takes the cursor `c`; `None` for the word motions, whose
/// target is not described here.
pub open spec fn motion_target(lines: Seq<Seq<char>>, c: (nat, nat), m: Motion) -> Option<(nat, nat)> {
    let (row, col) = c;
    match m {
        Motion::Head => Some((row, 0)),
        Motion::End => Some((row, lines[row as int].len())),
        Motion::Forward => if col >= lines[row as int].len() {
            if row + 1 < lines.len() { Some(((row + 1) as nat, 0)) } else { Some(c) }
        } else {
            Some((row, (col + 1) as nat))
        },
        Motion::Back => if col == 0 {
            if row == 0 { Some(c) } else { Some(((row - 1) as nat, lines[row - 1int].len())) }
        } else {
            Some((row, (col - 1) as nat))
        },
        Motion::Up => if row == 0 {
            Some(c)
        } else {
            Some(((row - 1) as nat, min_nat(col, lines[row - 1int].len())))
        },
        Motion::Down => if row + 1 < lines.len() {
            Some(((row + 1) as nat, min_nat(col, lines[row + 1int].len())))
        } else {
            Some(c)
        },
        _ => None,
    }
}

/// The lines after the character `ch` is typed at `c`.
pub open spec fn insert_char(lines: Seq<Seq<char>>, c: (nat, nat), ch: char) -> Seq<Seq<char>> {
    let line = lines[c.0 as int];
    lines.update(c.0 as int, line.take(c.1 as int) + seq![ch] + line.skip(c.1 as int))
}

/// A text cut at each line feed.
pub open spec fn split_raw(s: Seq<char>) -> Seq<Seq<char>>
    decreases s.len(),
{
    if s.len() == 0 {
        seq![Seq::<char>::empty()]
    } else {
        let rest = split_raw(s.drop_first());
        if s[0] == '\n' {
            seq![Seq::<char>::empty()] + rest
        } else {
            rest.update(0, seq![s[0]] + rest[0])
        }
    }
}

pub open spec fn strip_cr(s: Seq<char>) -> Seq<char> {
    if s.len() > 0 && s.last() == '\r' { s.drop_last() } else { s }
}

/// The lines a text becomes when it is inserted into an empty buffer: cut at
/// line feeds, with one carriage return dropped from the end of each piece.
pub open spec fn split_lines(s: Seq<char>) -> Seq<Seq<char>> {
    split_raw(s).map_values(|p: Seq<char>| strip_cr(p))
}

/// A text without line breaks is inserted as one line.
pub proof fn one_line_text(s: Seq<char>)
    requires
        forall|i: int| 0 <= i < s.len() ==> s[i] != '\n' && s[i] != '\r',
    ensures
        split_lines(s) == seq![s],
{
    split_raw_without_line_feed(s);
    assert(split_lines(s) =~= seq![strip_cr(s)]);
}

proof fn split_raw_without_line_feed(s: Seq<char>)
    requires
        forall|i: int| 0 <= i < s.len() ==> s[i] != '\n',
    ensures
        split_raw(s) == seq![s],
    decreases s.len(),
{
    if s.len() > 0 {
        let t = s.drop_first();
        assert forall|i: int| 0 <= i < t.len() implies t[i] != '\n' by {
            assert(t[i] == s[i + 1]);
        }
        split_raw_without_line_feed(t);
        assert(seq![s[0]] + t =~= s);
        assert(split_raw(s) =~= seq![s]);
    } else {
        assert(s =~= Seq::<char>::empty());
    }
}

/// `b` is `a` with at most the cursor changed.
pub open spec fn same_but_cursor(a: TextBuffer, b: TextBuffer) -> bool {
    &&& text_lines(b) == text_lines(a)
    &&& anchor_of(b) == anchor_of(a)
    &&& register_of(b) == register_of(a)
    &&& max_histories_of(b) == max_histories_of(a)
    &&& past_texts(b) == past_texts(a)
}

/// What undo does: the text goes back to what it was before the last
/// recorded edit, which leaves the record.
pub open spec fn undo_post(a: TextBuffer, b: TextBuffer) -> bool {
    let past = past_texts(a);
    &&& max_histories_of(b) == max_histories_of(a)
    &&& past.len() > 0 ==> text_lines(b) == past.last() && past_texts(b) == past.drop_last()
    &&& past.len() == 0 ==> text_lines(b) == text_lines(a) && past_texts(b) == past
}

/// What a cursor motion does.
pub open spec fn move_post(m: Motion, a: TextBuffer, b: TextBuffer) -> bool {
    &&& same_but_cursor(a, b)
    &&& position_in(text_lines(a), cursor_of(a)) && motion_target(text_lines(a), cursor_of(a), m)
        is Some ==> cursor_of(b) == motion_target(text_lines(a), cursor_of(a), m)->Some_0
}

/// What handing a key to a buffer does, where it types a character.
pub open spec fn input_post(i: tui_textarea::Input, a: TextBuffer, b: TextBuffer) -> bool {
    match i.key {
        tui_textarea::Key::Char(ch) => (!i.ctrl && !i.alt && ch != '\n' && ch != '\r'
            && anchor_of(a) is None && position_in(text_lines(a), cursor_of(a))) ==> {
            &&& text_lines(b) == insert_char(text_lines(a), cursor_of(a), ch)
            &&& cursor_of(b) == (cursor_of(a).0, (cursor_of(a).1 + 1) as nat)
            &&& anchor_of(b) is None
            &&& register_of(b) == register_of(a)
        },
        _ => true,
    }
}

/// What copying the selection does (described for a selection within one line).
pub open spec fn copy_post(a: TextBuffer, b: TextBuffer) -> bool {
    let lines = text_lines(a);
    let (row, col) = cursor_of(a);
    &&& text_lines(b) == lines
    &&& cursor_of(b) == cursor_of(a)
    &&& anchor_of(b) is None
    &&& max_histories_of(b) == max_histories_of(a)
    &&& past_texts(b) == past_texts(a)
    &&& anchor_of(a) is None ==> register_of(b) == register_of(a)
    &&& match anchor_of(a) {
        Some(s) => (s.0 == row && position_in(lines, s) && position_in(lines, cursor_of(a)))
            ==> register_of(b) == (if s.1 < col {
            lines[row as int].subrange(s.1 as int, col as int)
        } else if col < s.1 {
            lines[row as int].subrange(col as int, s.1 as int)
        } else {
            register_of(a)
        }),
        None => true,
    }
}

/// Whether the whole text is selected, the cursor at its very end.
pub open spec fn all_selected(t: TextBuffer) -> bool {
    let lines = text_lines(t);
    &&& lines.len() >= 1
    &&& anchor_of(t) == Some((0nat, 0nat))
    &&& cursor_of(t) == ((lines.len() - 1) as nat, lines.last().len())
}

/// Whether `select_all` reaches the end of the text: it jumps to row and
/// column 65535 at most.
pub open spec fn fits_select_all(lines: Seq<Seq<char>>) -> bool {
    1 <= lines.len() <= 65536 && lines.last().len() <= 65535
}

/// What cutting the selection does (described for no selection and for all selected).
pub open spec fn cut_post(a: TextBuffer, b: TextBuffer) -> bool {
    &&& anchor_of(b) is None
    &&& max_histories_of(b) == max_histories_of(a)
    &&& anchor_of(a) is None ==> same_but_cursor(a, b) && cursor_of(b) == cursor_of(a)
    &&& all_selected(a) ==> text_lines(b) == seq![Seq::<char>::empty()] && cursor_of(b) == (
        0nat,
        0nat,
    )
    &&& (all_selected(a) && max_histories_of(a) == usize::MAX) ==> past_texts(b) == (if text_lines(
        a,
    ) == seq![Seq::<char>::empty()] {
        past_texts(a)
    } else {
        past_texts(a).push(text_lines(a))
    })
}

/// What deleting does when the whole text is selected: the text goes, the
/// register stays.
pub open spec fn delete_post(a: TextBuffer, b: TextBuffer) -> bool {
    &&& max_histories_of(b) == max_histories_of(a)
    &&& all_selected(a) ==> {
        &&& text_lines(b) == seq![Seq::<char>::empty()]
        &&& cursor_of(b) == (0nat, 0nat)
        &&& anchor_of(b) is None
        &&& register_of(b) == register_of(a)
    }
    &&& (all_selected(a) && max_histories_of(a) == usize::MAX) ==> past_texts(b) == (if text_lines(
        a,
    ) == seq![Seq::<char>::empty()] {
        past_texts(a)
    } else {
        past_texts(a).push(text_lines(a))
    })
}

/// The lines after a line break is inserted at `c`.
pub open spec fn break_line(lines: Seq<Seq<char>>, c: (nat, nat)) -> Seq<Seq<char>> {
    let line = lines[c.0 as int];
    lines.take(c.0 as int) + seq![line.take(c.1 as int), line.skip(c.1 as int)] + lines.skip(
        c.0 + 1int,
    )
}

/// What inserting a line break does (described without a selection).
pub open spec fn newline_post(a: TextBuffer, b: TextBuffer) -> bool {
    &&& max_histories_of(b) == max_histories_of(a)
    &&& (anchor_of(a) is None && position_in(text_lines(a), cursor_of(a))) ==> {
        &&& text_lines(b) == break_line(text_lines(a), cursor_of(a))
        &&& cursor_of(b) == ((cursor_of(a).0 + 1) as nat, 0nat)
        &&& anchor_of(b) is None
        &&& register_of(b) == register_of(a)
    }
}

/// What emptying a one-line buffer from its end does.
pub open spec fn clear_line_post(a: TextBuffer, b: TextBuffer) -> bool {
    let lines = text_lines(a);
    &&& max_histories_of(b) == max_histories_of(a)
    &&& (lines.len() == 1 && anchor_of(a) is None && cursor_of(a) == (0nat, lines[0].len()))
        ==> text_lines(b) == seq![Seq::<char>::empty()] && cursor_of(b) == (0nat, 0nat)
        && anchor_of(b) is None
    &&& (lines.len() == 1 && anchor_of(a) is None && cursor_of(a) == (0nat, lines[0].len())
        && max_histories_of(a) == usize::MAX) ==> past_texts(b) == (if lines[0].len() == 0 {
        past_texts(a)
    } else {
        past_texts(a).push(lines)
    })
}

/// Relies on `TextArea::default`: one empty line, the cursor at its start,
/// no selection, an empty register.
#[verifier::external_body]
fn new_text_area() -> (r: TextBuffer)
    ensures
        text_lines(r) == seq![Seq::<char>::empty()],
        cursor_of(r) == (0nat, 0nat),
        anchor_of(r) is None,
        register_of(r) == Seq::<char>::empty(),
        past_texts(r) == Seq::<Seq<Seq<char>>>::empty(),
{
    TextBuffer { area: TextArea::default() }
}

/// Relies on `TextArea::set_max_histories`: it replaces the undo history only.
#[verifier::external_body]
fn set_max_histories(t: &mut TextBuffer, max: usize)
    ensures
        text_lines(*final(t)) == text_lines(*old(t)),
        cursor_of(*final(t)) == cursor_of(*old(t)),
        anchor_of(*final(t)) == anchor_of(*old(t)),
        register_of(*final(t)) == register_of(*old(t)),
        max_histories_of(*final(t)) == max,
        past_texts(*final(t)) == Seq::<Seq<Seq<char>>>::empty(),
{
    t.area.set_max_histories(max)
}

/// Relies on `TextArea::lines`: the lines the text area holds.
#[verifier::external_body]
fn lines_of(t: &TextBuffer) -> (r: Vec<String>)
    ensures
        r@.map_values(|l: String| l@) == text_lines(*t),
{
    t.area.lines().to_vec()
}

/// Relies on `TextArea::input`: a character without Ctrl or Alt (other than a
/// line break) is typed at the cursor; other keys go to its own key handling.
#[verifier::external_body]
fn feed(t: &mut TextBuffer, input: tui_textarea::Input)
    ensures
        input_post(input, *old(t), *final(t)),
{
    t.area.input(input);
}

/// Relies on `TextArea::move_cursor` (and `CursorMove::next_cursor`): it moves
/// the cursor (and so the end of an ongoing selection), never the text.
#[verifier::external_body]
fn move_cursor(t: &mut TextBuffer, m: Motion)
    ensures
        move_post(m, *old(t), *final(t)),
{
    t.area.move_cursor(
        match m {
            Motion::Back => CursorMove::Back,
            Motion::Forward => CursorMove::Forward,
            Motion::Up => CursorMove::Up,
            Motion::Down => CursorMove::Down,
            Motion::WordBack => CursorMove::WordBack,
            Motion::WordForward => CursorMove::WordForward,
            Motion::Head => CursorMove::Head,
            Motion::End => CursorMove::End,
        },
    )
}

/// Relies on `TextArea::start_selection`: the anchor is set at the cursor.
#[verifier::external_body]
fn start_selection(t: &mut TextBuffer)
    ensures
        text_lines(*final(t)) == text_lines(*old(t)),
        cursor_of(*final(t)) == cursor_of(*old(t)),
        anchor_of(*final(t)) == Some(cursor_of(*old(t))),
        register_of(*final(t)) == register_of(*old(t)),
        max_histories_of(*final(t)) == max_histories_of(*old(t)),
        past_texts(*final(t)) == past_texts(*old(t)),
{
    t.area.start_selection()
}

/// Relies on `TextArea::cancel_selection`: the anchor is dropped.
#[verifier::external_body]
fn cancel_selection(t: &mut TextBuffer)
    ensures
        text_lines(*final(t)) == text_lines(*old(t)),
        cursor_of(*final(t)) == cursor_of(*old(t)),
        anchor_of(*final(t)) is None,
        register_of(*final(t)) == register_of(*old(t)),
        max_histories_of(*final(t)) == max_histories_of(*old(t)),
        past_texts(*final(t)) == past_texts(*old(t)),
{
    t.area.cancel_selection()
}

/// Relies on `TextArea::select_all`: the anchor at the start, the cursor
/// jumped to row and column 65535 at most.
#[verifier::external_body]
fn select_all(t: &mut TextBuffer)
    ensures
        text_lines(*final(t)) == text_lines(*old(t)),
        register_of(*final(t)) == register_of(*old(t)),
        max_histories_of(*final(t)) == max_histories_of(*old(t)),
        past_texts(*final(t)) == past_texts(*old(t)),
        anchor_of(*final(t)) == Some((0nat, 0nat)),
        text_lines(*old(t)).len() >= 1 ==> ({
            let lines = text_lines(*old(t));
            let row = min_nat((lines.len() - 1) as nat, 65535);
            cursor_of(*final(t)) == (row, min_nat(lines[row as int].len(), 65535))
        }),
{
    t.area.select_all()
}

/// Relies on `TextArea::copy`: the selection goes to the register and ends.
#[verifier::external_body]
fn copy(t: &mut TextBuffer)
    ensures
        copy_post(*old(t), *final(t)),
{
    t.area.copy()
}

/// Relies on `TextArea::cut`: the selection is deleted into the register, the
/// cursor put at its start.
#[verifier::external_body]
fn cut(t: &mut TextBuffer)
    ensures
        cut_post(*old(t), *final(t)),
{
    t.area.cut();
}

/// Relies on `TextArea::delete_char`: a selection is deleted without
/// touching the register.
#[verifier::external_body]
fn delete_char(t: &mut TextBuffer)
    ensures
        delete_post(*old(t), *final(t)),
{
    t.area.delete_char();
}

/// Relies on `TextArea::paste`: inserts the register at the cursor.
#[verifier::external_body]
fn paste(t: &mut TextBuffer) {
    t.area.paste();
}

/// Relies on `TextArea::undo` (and `History::undo`): the last recorded edit is
/// reverted.
#[verifier::external_body]
fn undo(t: &mut TextBuffer)
    ensures
        undo_post(*old(t), *final(t)),
{
    t.area.undo();
}

/// Relies on `TextArea::redo`.
#[verifier::external_body]
fn redo(t: &mut TextBuffer) {
    t.area.redo();
}

/// Relies on `TextArea::insert_newline`: the line is broken at the cursor,
/// which moves to the head of the new line.
#[verifier::external_body]
fn insert_newline(t: &mut TextBuffer)
    ensures
        newline_post(*old(t), *final(t)),
{
    t.area.insert_newline()
}

/// Relies on `TextArea::delete_line_by_head`: deletes from the line's head to
/// the cursor.
#[verifier::external_body]
fn delete_line_by_head(t: &mut TextBuffer)
    ensures
        clear_line_post(*old(t), *final(t)),
{
    t.area.delete_line_by_head();
}

/// Relies on `TextArea::insert_str`: inserts the text at the cursor, split
/// into lines as `split_lines` says.
#[verifier::external_body]
fn insert_str(t: &mut TextBuffer, s: String)
    ensures
        max_histories_of(*final(t)) == max_histories_of(*old(t)),
        (text_lines(*old(t)) == seq![Seq::<char>::empty()] && anchor_of(*old(t)) is None
            && position_in(text_lines(*old(t)), cursor_of(*old(t)))) ==> text_lines(*final(t))
            == split_lines(s@),
        (text_lines(*old(t)) == seq![Seq::<char>::empty()] && anchor_of(*old(t)) is None
            && position_in(text_lines(*old(t)), cursor_of(*old(t))) && max_histories_of(*old(t))
            == usize::MAX) ==> past_texts(*final(t)) == (if split_lines(s@) == seq![
            Seq::<char>::empty(),
        ] {
            past_texts(*old(t))
        } else {
            past_texts(*old(t)).push(seq![Seq::<char>::empty()])
        }),
{
    t.area.insert_str(s);
}

/// The text area's form of a key code.
pub open spec fn input_key(code: KeyCode) -> tui_textarea::Key {
    match code {
        KeyCode::Char(c) => tui_textarea::Key::Char(c),
        KeyCode::F(n) => tui_textarea::Key::F(n),
        KeyCode::Backspace => tui_textarea::Key::Backspace,
        KeyCode::Enter => tui_textarea::Key::Enter,
        KeyCode::Left => tui_textarea::Key::Left,
        KeyCode::Right => tui_textarea::Key::Right,
        KeyCode::Up => tui_textarea::Key::Up,
        KeyCode::Down => tui_textarea::Key::Down,
        KeyCode::Tab => tui_textarea::Key::Tab,
        KeyCode::Delete => tui_textarea::Key::Delete,
        KeyCode::Home => tui_textarea::Key::Home,
        KeyCode::End => tui_textarea::Key::End,
        KeyCode::PageUp => tui_textarea::Key::PageUp,
        KeyCode::PageDown => tui_textarea::Key::PageDown,
        KeyCode::Esc => tui_textarea::Key::Esc,
        KeyCode::Null => tui_textarea::Key::Null,
    }
}

/// The text area's form of a key event.
pub open spec fn input_of(key: KeyEvent) -> tui_textarea::Input {
    tui_textarea::Input { key: input_key(key.code), ctrl: key.ctrl, alt: key.alt, shift: key.shift }
}

/// The text area's form of a key event.
fn text_input(key: KeyEvent) -> (r: tui_textarea::Input)
    ensures
        r == input_of(key),
{
    let code = match key.code {
        KeyCode::Char(c) => tui_textarea::Key::Char(c),
        KeyCode::F(n) => tui_textarea::Key::F(n),
        KeyCode::Backspace => tui_textarea::Key::Backspace,
        KeyCode::Enter => tui_textarea::Key::Enter,
        KeyCode::Left => tui_textarea::Key::Left,
        KeyCode::Right => tui_textarea::Key::Right,
        KeyCode::Up => tui_textarea::Key::Up,
        KeyCode::Down => tui_textarea::Key::Down,
        KeyCode::Tab => tui_textarea::Key::Tab,
        KeyCode::Delete => tui_textarea::Key::Delete,
        KeyCode::Home => tui_textarea::Key::Home,
        KeyCode::End => tui_textarea::Key::End,
        KeyCode::PageUp => tui_textarea::Key::PageUp,
        KeyCode::PageDown => tui_textarea::Key::PageDown,
        KeyCode::Esc => tui_textarea::Key::Esc,
        KeyCode::Null => tui_textarea::Key::Null,
    };
    tui_textarea::Input { key: code, ctrl: key.ctrl, alt: key.alt, shift: key.shift }
}

/// Whether `r` is what running the command line `cmd` against the document
/// text `doc` gives.
pub open spec fn command_agrees(
    cmd: Seq<Seq<char>>,
    doc: Seq<char>,
    r: Result<(), CommandError>,
) -> bool {
    match parse_lines_spec(cmd) {
        Err(_) => match r {
            Ok(_) => false,
            Err(e) => parse_agrees(cmd, Err(e)),
        },
        Ok(None) => r is Ok,
        Ok(Some(c)) => match transform_spec(c, doc) {
            Ok(_) => r is Ok,
            Err(e) => r == Err::<(), CommandError>(e),
        },
    }
}

/// A command line of more than one line fails with `TooManyLines`, whatever
/// the document holds; the document is then left as it was (see `parse_command`).
pub proof fn multi_line_command_fails(cmd: Seq<Seq<char>>, doc: Seq<char>, r: Result<(), CommandError>)
    requires
        cmd.len() > 1,
        command_agrees(cmd, doc, r),
    ensures
        r == Err::<(), CommandError>(CommandError::TooManyLines),
{
}

/// Whether the command line `cmd` is the quit command.
pub open spec fn quits(cmd: Seq<Seq<char>>) -> bool {
    parse_lines_spec(cmd) == Ok::<Option<Command>, Seq<char>>(Some(Command::Quit))
}

/// What starting a selection does.
pub open spec fn start_post(a: TextBuffer, b: TextBuffer) -> bool {
    &&& text_lines(b) == text_lines(a)
    &&& cursor_of(b) == cursor_of(a)
    &&& anchor_of(b) == Some(cursor_of(a))
    &&& register_of(b) == register_of(a)
    &&& max_histories_of(b) == max_histories_of(a)
    &&& past_texts(b) == past_texts(a)
}

/// What cancelling a selection does.
pub open spec fn cancel_post(a: TextBuffer, b: TextBuffer) -> bool {
    &&& text_lines(b) == text_lines(a)
    &&& cursor_of(b) == cursor_of(a)
    &&& anchor_of(b) is None
    &&& register_of(b) == register_of(a)
    &&& max_histories_of(b) == max_histories_of(a)
    &&& past_texts(b) == past_texts(a)
}

/// What emptying the command line does: a one-line buffer without a
/// selection ends as one empty line, and undo can bring the line back.
pub open spec fn clear_post(a: TextBuffer, b: TextBuffer) -> bool {
    &&& max_histories_of(b) == max_histories_of(a)
    &&& (text_lines(a).len() == 1 && anchor_of(a) is None && position_in(
        text_lines(a),
        cursor_of(a),
    )) ==> text_lines(b) == seq![Seq::<char>::empty()] && cursor_of(b) == (0nat, 0nat)
        && anchor_of(b) is None
    &&& (text_lines(a).len() == 1 && anchor_of(a) is None && position_in(
        text_lines(a),
        cursor_of(a),
    ) && max_histories_of(a) == usize::MAX) ==> past_texts(b) == (if text_lines(a)[0].len()
        == 0 {
        past_texts(a)
    } else {
        past_texts(a).push(text_lines(a))
    })
}

/// Whether an operation touches the command line.
pub open spec fn touches_command(op: Op) -> bool {
    op is CommandInput || op is ClearCommandLine
}

/// What one operation (other than running the command line) does to the
/// document buffer (`eb` before, `ea` after) and the command line (`cb`, `ca`).
/// Redo and paste are only said to leave the command line alone.
pub open spec fn op_post(op: Op, eb: TextBuffer, ea: TextBuffer, cb: TextBuffer, ca: TextBuffer) -> bool {
    match op {
        Op::EditorInput(k) => ca == cb && input_post(input_of(k), eb, ea),
        Op::Move(m) => ca == cb && move_post(m, eb, ea),
        Op::StartSelection => ca == cb && start_post(eb, ea),
        Op::CancelSelection => ca == cb && cancel_post(eb, ea),
        Op::Copy => ca == cb && copy_post(eb, ea),
        Op::Cut => ca == cb && cut_post(eb, ea),
        Op::Undo => ca == cb && undo_post(eb, ea),
        Op::NewLine => ca == cb && newline_post(eb, ea),
        Op::Redo | Op::Paste => ca == cb,
        Op::CommandInput(k) => ea == eb && input_post(input_of(k), cb, ca),
        Op::ClearCommandLine => ea == eb && clear_post(cb, ca),
        Op::RunCommand => false,
    }
}

/// Whether `es` and `cs` are the states the two buffers pass through while
/// the operations are performed in order: one more state than operations.
pub open spec fn trace_ok(ops: Seq<Op>, es: Seq<TextBuffer>, cs: Seq<TextBuffer>) -> bool {
    &&& es.len() == ops.len() + 1
    &&& cs.len() == ops.len() + 1
    &&& forall|i: int|
        0 <= i < ops.len() ==> op_post(#[trigger] ops[i], es[i], es[i + 1], cs[i], cs[i + 1])
}

/// What a list of operations, performed in order, does to the two buffers.
pub open spec fn ops_post(
    ops: Seq<Op>,
    eb: TextBuffer,
    cb: TextBuffer,
    ea: TextBuffer,
    ca: TextBuffer,
) -> bool {
    exists|es: Seq<TextBuffer>, cs: Seq<TextBuffer>|
        #[trigger] trace_ok(ops, es, cs) && es[0] == eb && cs[0] == cb && es.last() == ea
            && cs.last() == ca
}

/// The undo record after the document `before` is replaced by `after`: the
/// deletion of a non-empty document, then the insertion of a non-empty text,
/// each add one entry, so as many undos give the old text back.
pub open spec fn rewrite_record(
    past: Seq<Seq<Seq<char>>>,
    before: Seq<Seq<char>>,
    after: Seq<Seq<char>>,
) -> Seq<Seq<Seq<char>>> {
    let empty = seq![Seq::<char>::empty()];
    let p1 = if before == empty {
        past
    } else {
        past.push(before)
    };
    if after == empty {
        p1
    } else {
        p1.push(empty)
    }
}

/// A rewrite of a non-empty document by a non-empty text is undone by two
/// undos: the first takes back the insertion, the second the deletion.
pub proof fn rewrite_undone_by_two_undos(
    past: Seq<Seq<Seq<char>>>,
    before: Seq<Seq<char>>,
    after: Seq<Seq<char>>,
    t0: TextBuffer,
    t1: TextBuffer,
    t2: TextBuffer,
)
    requires
        before != seq![Seq::<char>::empty()],
        after != seq![Seq::<char>::empty()],
        past_texts(t0) == rewrite_record(past, before, after),
        undo_post(t0, t1),
        undo_post(t1, t2),
    ensures
        text_lines(t2) == before,
        past_texts(t2) == past,
{
    assert(past.push(before).push(seq![Seq::<char>::empty()]).drop_last() =~= past.push(before));
    assert(past.push(before).drop_last() =~= past);
}

/// What running the command line `cmd` does to the document (`eb` before,
/// `ea` after) with result `r`. The new text is given where `select_all`
/// reaches the end of the document.
pub open spec fn command_post(
    cmd: Seq<Seq<char>>,
    eb: TextBuffer,
    ea: TextBuffer,
    r: Result<(), CommandError>,
) -> bool {
    let doc = joined(text_lines(eb));
    &&& command_agrees(cmd, doc, r)
    &&& r is Err ==> ea == eb
    &&& quits(cmd) ==> ea == eb
    &&& parse_lines_spec(cmd) == Ok::<Option<Command>, Seq<char>>(None) ==> ea == eb
    &&& match parse_lines_spec(cmd) {
        Ok(Some(c)) => (c != Command::Quit && r is Ok && fits_select_all(text_lines(eb)))
            ==> text_lines(ea) == split_lines(transform_spec(c, doc)->Ok_0),
        _ => true,
    }
    &&& match parse_lines_spec(cmd) {
        Ok(Some(c)) => (c != Command::Quit && r is Ok && fits_select_all(text_lines(eb))
            && max_histories_of(eb) == usize::MAX) ==> past_texts(ea) == rewrite_record(
            past_texts(eb),
            text_lines(eb),
            split_lines(transform_spec(c, doc)->Ok_0),
        ),
        _ => true,
    }
    &&& (parse_lines_spec(cmd) == Ok::<Option<Command>, Seq<char>>(Some(Command::Base64Encode))
        && fits_select_all(text_lines(eb))) ==> {
        &&& text_lines(ea) == seq![base64_std(encode_utf8(doc))]
        &&& base64_decode_spec(joined(text_lines(ea))) == Ok::<Seq<char>, CommandError>(doc)
    }
}

/// The editor: the document buffer, the one-line command buffer, the mode,
/// and whether the user asked to leave.
pub struct App {
    pub should_exit: bool,
    pub mode: Mode,
    pub editor: TextBuffer,
    pub commandline: TextBuffer,
}

impl App {
    /// A fresh editor in Insert mode with two empty buffers.
    pub fn new() -> (r: App)
        ensures
            !r.should_exit,
            r.mode == Mode::Insert,
            text_lines(r.editor) == seq![Seq::<char>::empty()],
            text_lines(r.commandline) == seq![Seq::<char>::empty()],
            cursor_of(r.editor) == (0nat, 0nat) && cursor_of(r.commandline) == (0nat, 0nat),
            anchor_of(r.editor) is None && anchor_of(r.commandline) is None,
            max_histories_of(r.editor) == usize::MAX,
            max_histories_of(r.commandline) == usize::MAX,
            past_texts(r.editor) == Seq::<Seq<Seq<char>>>::empty(),
            past_texts(r.commandline) == Seq::<Seq<Seq<char>>>::empty(),
    {
        let mut editor = new_text_area();
        set_max_histories(&mut editor, MAX_HISTORIES);
        let mut commandline = new_text_area();
        set_max_histories(&mut commandline, MAX_HISTORIES);
        App { should_exit: false, mode: Mode::initial(), editor, commandline }
    }

    /// The document's lines.
    pub fn lines(&self) -> (r: Vec<String>)
        ensures
            r@.map_values(|l: String| l@) == text_lines(self.editor),
    {
        lines_of(&self.editor)
    }

    /// The command line's lines.
    pub fn command_lines(&self) -> (r: Vec<String>)
        ensures
            r@.map_values(|l: String| l@) == text_lines(self.commandline),
    {
        lines_of(&self.commandline)
    }

    /// Replaces the whole document by `text`, as one select-all, delete and
    /// insert; the clipboard register is not touched by the delete.
    fn replace_document(&mut self, text: String)
        ensures
            fits_select_all(text_lines(old(self).editor)) ==> text_lines(final(self).editor)
                == split_lines(text@),
            (fits_select_all(text_lines(old(self).editor)) && max_histories_of(old(self).editor)
                == usize::MAX) ==> past_texts(final(self).editor) == rewrite_record(
                past_texts(old(self).editor),
                text_lines(old(self).editor),
                split_lines(text@),
            ),
            final(self).should_exit == old(self).should_exit,
            final(self).mode == old(self).mode,
            final(self).commandline == old(self).commandline,
    {
        select_all(&mut self.editor);
        delete_char(&mut self.editor);
        insert_str(&mut self.editor, text);
    }

    /// Empties the command line, keeping its undo history.
    fn clear_commandline(&mut self)
        ensures
            final(self).should_exit == old(self).should_exit,
            final(self).mode == old(self).mode,
            final(self).editor == old(self).editor,
            clear_post(old(self).commandline, final(self).commandline),
    {
        move_cursor(&mut self.commandline, Motion::End);
        delete_line_by_head(&mut self.commandline);
    }

    /// Runs the command that the command line names. `q` asks to leave; the
    /// other commands replace the whole document by the text that
    /// `command_effect` gives. On an error the document is left as it was.
    pub fn parse_command(&mut self) -> (r: Result<(), CommandError>)
        ensures
            command_post(text_lines(old(self).commandline), old(self).editor, final(self).editor, r),
            final(self).should_exit == (old(self).should_exit || quits(
                text_lines(old(self).commandline),
            )),
            final(self).mode == old(self).mode,
            final(self).commandline == old(self).commandline,
    {
        let cmd = lines_of(&self.commandline);
        let doc = lines_of(&self.editor);
        match command_effect(&cmd, &doc) {
            Err(e) => Err(e),
            Ok(Effect::Nothing) => Ok(()),
            Ok(Effect::Quit) => {
                self.should_exit = true;
                Ok(())
            },
            Ok(Effect::Replace(text)) => {
                proof {
                    base64_has_no_line_break(encode_utf8(joined(text_lines(self.editor))));
                    if parse_lines_spec(text_lines(self.commandline)) == Ok::<
                        Option<Command>,
                        Seq<char>,
                    >(Some(Command::Base64Encode)) {
                        one_line_text(text@);
                    }
                }
                self.replace_document(text);
                Ok(())
            },
        }
    }

    /// Performs one operation other than running the command line.
    fn apply(&mut self, op: Op)
        requires
            op != Op::RunCommand,
        ensures
            final(self).should_exit == old(self).should_exit,
            final(self).mode == old(self).mode,
            !edits_text(op) ==> text_lines(final(self).editor) == text_lines(old(self).editor),
            op_post(op, old(self).editor, final(self).editor, old(self).commandline, final(self).commandline),
    {
        match op {
            Op::EditorInput(k) => feed(&mut self.editor, text_input(k)),
            Op::Move(m) => move_cursor(&mut self.editor, m),
            Op::Undo => undo(&mut self.editor),
            Op::Redo => redo(&mut self.editor),
            Op::Paste => paste(&mut self.editor),
            Op::StartSelection => start_selection(&mut self.editor),
            Op::CancelSelection => cancel_selection(&mut self.editor),
            Op::Copy => copy(&mut self.editor),
            Op::Cut => cut(&mut self.editor),
            Op::NewLine => insert_newline(&mut self.editor),
            Op::CommandInput(k) => feed(&mut self.commandline, text_input(k)),
            Op::ClearCommandLine => self.clear_commandline(),
            Op::RunCommand => {},
        }
    }

    /// Handles one key event: moves to the mode the key table gives and
    /// performs its operations in order. Enter in Command mode runs the
    /// command line, then empties it and returns to Normal mode whether or not
    /// the command succeeded; its error is returned.
    pub fn handle_keyevent(&mut self, key: KeyEvent) -> (r: Result<(), CommandError>)
        ensures
            final(self).mode == transition(old(self).mode, key).0,
            runs_command(old(self).mode, key) ==> {
                &&& command_post(
                    text_lines(old(self).commandline),
                    old(self).editor,
                    final(self).editor,
                    r,
                )
                &&& final(self).should_exit == (old(self).should_exit || quits(
                    text_lines(old(self).commandline),
                ))
                &&& clear_post(old(self).commandline, final(self).commandline)
            },
            !runs_command(old(self).mode, key) ==> {
                &&& r is Ok
                &&& final(self).should_exit == old(self).should_exit
                &&& ops_post(
                    transition(old(self).mode, key).1,
                    old(self).editor,
                    old(self).commandline,
                    final(self).editor,
                    final(self).commandline,
                )
            },
            (forall|i: int|
                0 <= i < transition(old(self).mode, key).1.len() ==> !touches_command(
                    #[trigger] transition(old(self).mode, key).1[i],
                )) ==> final(self).commandline == old(self).commandline,
            transition(old(self).mode, key).1.len() == 0 ==> final(self).editor == old(self).editor
                && final(self).commandline == old(self).commandline,
            (forall|i: int|
                0 <= i < transition(old(self).mode, key).1.len() ==> !edits_text(
                    #[trigger] transition(old(self).mode, key).1[i],
                )) ==> text_lines(final(self).editor) == text_lines(old(self).editor),
    {
        let t = step(self.mode, key);
        let runs = match (self.mode, key.code, key.kind) {
            (Mode::Command, KeyCode::Enter, KeyKind::Press) => true,
            _ => false,
        };
        if runs {
            assert(edits_text(transition(old(self).mode, key).1[0]));
            assert(touches_command(transition(old(self).mode, key).1[1]));
            let r = self.parse_command();
            self.clear_commandline();
            self.mode = t.mode;
            return r;
        }
        assert(forall|i: int| 0 <= i < t.ops@.len() ==> t.ops@[i] != Op::RunCommand);
        let mut i: usize = 0;
        let ghost mut es: Seq<TextBuffer> = seq![self.editor];
        let ghost mut cs: Seq<TextBuffer> = seq![self.commandline];
        while i < t.ops.len()
            invariant
                !runs_command(old(self).mode, key),
                (t.mode, t.ops@) == transition(old(self).mode, key),
                forall|j: int| 0 <= j < t.ops@.len() ==> t.ops@[j] != Op::RunCommand,
                i <= t.ops@.len(),
                self.should_exit == old(self).should_exit,
                trace_ok(t.ops@.take(i as int), es, cs),
                es[0] == old(self).editor && cs[0] == old(self).commandline,
                es.last() == self.editor && cs.last() == self.commandline,
                i == 0 ==> self.editor == old(self).editor && self.commandline == old(
                    self,
                ).commandline,
                (forall|j: int| 0 <= j < i ==> !touches_command(#[trigger] t.ops@[j]))
                    ==> self.commandline == old(self).commandline,
                (forall|j: int| 0 <= j < i ==> !edits_text(#[trigger] t.ops@[j])) ==> text_lines(
                    self.editor,
                ) == text_lines(old(self).editor),
            decreases t.ops@.len() - i,
        {
            self.apply(t.ops[i]);
            proof {
                let pre = t.ops@.take(i + 1);
                let es2 = es.push(self.editor);
                let cs2 = cs.push(self.commandline);
                assert forall|j: int| 0 <= j < pre.len() implies op_post(
                    #[trigger] pre[j],
                    es2[j],
                    es2[j + 1],
                    cs2[j],
                    cs2[j + 1],
                ) by {
                    if j < i {
                        assert(t.ops@.take(i as int)[j] == pre[j]);
                    }
                }
                es = es2;
                cs = cs2;
            }
            i = i + 1;
        }
        proof {
            let ops = transition(old(self).mode, key).1;
            assert(ops == t.ops@);
            assert(t.ops@.take(i as int) =~= ops);
            assert(trace_ok(ops, es, cs));
            assert((forall|j: int| 0 <= j < ops.len() ==> !edits_text(#[trigger] ops[j])) ==> (
            forall|j: int| 0 <= j < i ==> !edits_text(#[trigger] t.ops@[j])));
            assert((forall|j: int| 0 <= j < ops.len() ==> !touches_command(#[trigger] ops[j])) ==> (
            forall|j: int| 0 <= j < i ==> !touches_command(#[trigger] t.ops@[j])));
        }
        self.mode = t.mode;
        Ok(())
    }
}

} // verus!
