use vstd::prelude::*;
use vstd::string::*;

verus! {

/// A command that the command line can name.
#[derive(Clone, Copy, Debug, PartialEq, Eq, Structural)]
pub enum Command {
    /// `q`: leave the editor.
    Quit,
    /// `json format`: pretty-print the buffer, which must be one JSON value.
    JsonFormat,
    /// `base64 encode`: replace the buffer by the base64 form of its UTF-8 bytes.
    Base64Encode,
    /// `base64 decode`: replace the buffer by the UTF-8 text its base64 content decodes to.
    Base64Decode,
}

/// Why a command failed.
#[derive(Clone, Debug, PartialEq, Eq)]
pub enum CommandError {
    /// The command line held more than one line.
    TooManyLines,
    /// The line (kept here whole) names no known command.
    Unknown(String),
    /// The buffer is not one well-formed JSON value.
    InvalidJson,
    /// The buffer is not valid base64.
    InvalidBase64,
    /// The buffer's base64 decodes to bytes that are not UTF-8.
    InvalidUtf8,
}

impl CommandError {
    /// The message shown to the user.
    pub fn message(&self) -> (r: String)
        ensures
            self is TooManyLines ==> r@ == "more lines than expected in commandline"@,
            self is Unknown ==> r@ == "unknown command: "@ + self->Unknown_0@,
            self is InvalidJson ==> r@ == "invalid JSON"@,
            self is InvalidBase64 ==> r@ == "invalid base64"@,
            self is InvalidUtf8 ==> r@ == "decoded bytes are not UTF-8"@,
    {
        match self {
            CommandError::TooManyLines => String::from_str("more lines than expected in commandline"),
            CommandError::Unknown(line) => {
                let mut m = String::from_str("unknown command: ");
                m.append(line.as_str());
                m
            },
            CommandError::InvalidJson => String::from_str("invalid JSON"),
            CommandError::InvalidBase64 => String::from_str("invalid base64"),
            CommandError::InvalidUtf8 => String::from_str("decoded bytes are not UTF-8"),
        }
    }
}

/// Unicode's White_Space property.
pub open spec fn is_white_space(c: char) -> bool {
    let u = c as u32;
    (0x9 <= u && u <= 0xD) || u == 0x20 || u == 0x85 || u == 0xA0 || u == 0x1680 || (0x2000 <= u
        && u <= 0x200A) || u == 0x2028 || u == 0x2029 || u == 0x202F || u == 0x205F || u == 0x3000
}

/// The first index at or after `i` that does not hold white space.
pub open spec fn white_end(s: Seq<char>, i: int) -> int
    decreases s.len() - i,
{
    if 0 <= i < s.len() && is_white_space(s[i]) {
        white_end(s, i + 1)
    } else {
        i
    }
}

/// The first index at or after `i` that holds white space (or the end).
pub open spec fn word_end(s: Seq<char>, i: int) -> int
    decreases s.len() - i,
{
    if 0 <= i < s.len() && !is_white_space(s[i]) {
        word_end(s, i + 1)
    } else {
        i
    }
}

/// The white-space separated word that starts at or after `i` (empty if none is left).
pub open spec fn word_from(s: Seq<char>, i: int) -> Seq<char> {
    s.subrange(white_end(s, i), word_end(s, white_end(s, i)))
}

pub open spec fn first_word(s: Seq<char>) -> Seq<char> {
    word_from(s, 0)
}

pub open spec fn second_word(s: Seq<char>) -> Seq<char> {
    word_from(s, word_end(s, white_end(s, 0)))
}

/// What a single command line means: the verb is the first word; `json` and
/// `base64` take their operation from the second.
pub open spec fn parse_line_spec(s: Seq<char>) -> Option<Command> {
    let verb = first_word(s);
    let arg = second_word(s);
    if verb == seq!['q'] {
        Some(Command::Quit)
    } else if verb == seq!['j', 's', 'o', 'n'] && arg == seq!['f', 'o', 'r', 'm', 'a', 't'] {
        Some(Command::JsonFormat)
    } else if verb == seq!['b', 'a', 's', 'e', '6', '4'] && arg == seq!['e', 'n', 'c', 'o', 'd', 'e'] {
        Some(Command::Base64Encode)
    } else if verb == seq!['b', 'a', 's', 'e', '6', '4'] && arg == seq!['d', 'e', 'c', 'o', 'd', 'e'] {
        Some(Command::Base64Decode)
    } else {
        None
    }
}

/// What the command line's lines mean: nothing to do when there are none,
/// an error when there are several.
pub open spec fn parse_lines_spec(lines: Seq<Seq<char>>) -> Result<Option<Command>, Seq<char>> {
    if lines.len() > 1 {
        Err(seq![])
    } else if lines.len() == 0 {
        Ok(None)
    } else {
        match parse_line_spec(lines[0]) {
            Some(c) => Ok(Some(c)),
            None => Err(lines[0]),
        }
    }
}

/// Whether a result of the parser agrees with `parse_lines_spec`.
pub open spec fn parse_agrees(lines: Seq<Seq<char>>, r: Result<Option<Command>, CommandError>) -> bool {
    match r {
        Ok(c) => parse_lines_spec(lines) == Ok::<Option<Command>, Seq<char>>(c),
        Err(CommandError::TooManyLines) => lines.len() > 1,
        Err(CommandError::Unknown(line)) => lines.len() == 1 && parse_lines_spec(lines) == Err::<
            Option<Command>,
            Seq<char>,
        >(line@),
        Err(_) => false,
    }
}

pub fn is_white(c: char) -> (r: bool)
    ensures
        r == is_white_space(c),
{
    let u = c as u32;
    (0x9 <= u && u <= 0xD) || u == 0x20 || u == 0x85 || u == 0xA0 || u == 0x1680 || (0x2000 <= u
        && u <= 0x200A) || u == 0x2028 || u == 0x2029 || u == 0x202F || u == 0x205F || u == 0x3000
}

fn skip_white(s: &str, i: usize) -> (r: usize)
    requires
        i <= s@.len(),
    ensures
        r == white_end(s@, i as int),
        i <= r <= s@.len(),
{
    let n = s.unicode_len();
    let mut j = i;
    while j < n && is_white(s.get_char(j))
        invariant
            n == s@.len(),
            i <= j <= n,
            white_end(s@, i as int) == white_end(s@, j as int),
        decreases n - j,
    {
        j = j + 1;
    }
    j
}

fn skip_word(s: &str, i: usize) -> (r: usize)
    requires
        i <= s@.len(),
    ensures
        r == word_end(s@, i as int),
        i <= r <= s@.len(),
{
    let n = s.unicode_len();
    let mut j = i;
    while j < n && !is_white(s.get_char(j))
        invariant
            n == s@.len(),
            i <= j <= n,
            word_end(s@, i as int) == word_end(s@, j as int),
        decreases n - j,
    {
        j = j + 1;
    }
    j
}

/// Whether the characters of `s` from `start` to `end` are exactly `w`.
fn span_is(s: &str, start: usize, end: usize, w: &Vec<char>) -> (r: bool)
    requires
        start <= end <= s@.len(),
    ensures
        r == (s@.subrange(start as int, end as int) == w@),
{
    if end - start != w.len() {
        return false;
    }
    let mut k: usize = 0;
    while k < w.len()
        invariant
            start <= end <= s@.len(),
            end - start == w@.len(),
            k <= w@.len(),
            forall|m: int| 0 <= m < k ==> s@[start + m] == w@[m],
        decreases w@.len() - k,
    {
        if s.get_char(start + k) != w[k] {
            assert(s@.subrange(start as int, end as int)[k as int] != w@[k as int]);
            return false;
        }
        k = k + 1;
    }
    assert(s@.subrange(start as int, end as int) =~= w@);
    true
}

/// Reads the command that one command line names.
pub fn parse_line(line: &str) -> (r: Option<Command>)
    ensures
        r == parse_line_spec(line@),
{
    let a = skip_white(line, 0);
    let b = skip_word(line, a);
    let c = skip_white(line, b);
    let d = skip_word(line, c);
    let q = vec!['q'];
    let json = vec!['j', 's', 'o', 'n'];
    let format = vec!['f', 'o', 'r', 'm', 'a', 't'];
    let base64 = vec!['b', 'a', 's', 'e', '6', '4'];
    let encode = vec!['e', 'n', 'c', 'o', 'd', 'e'];
    let decode = vec!['d', 'e', 'c', 'o', 'd', 'e'];
    assert(q@ =~= seq!['q']);
    assert(json@ =~= seq!['j', 's', 'o', 'n']);
    assert(format@ =~= seq!['f', 'o', 'r', 'm', 'a', 't']);
    assert(base64@ =~= seq!['b', 'a', 's', 'e', '6', '4']);
    assert(encode@ =~= seq!['e', 'n', 'c', 'o', 'd', 'e']);
    assert(decode@ =~= seq!['d', 'e', 'c', 'o', 'd', 'e']);
    if span_is(line, a, b, &q) {
        Some(Command::Quit)
    } else if span_is(line, a, b, &json) {
        if span_is(line, c, d, &format) {
            Some(Command::JsonFormat)
        } else {
            None
        }
    } else if span_is(line, a, b, &base64) {
        if span_is(line, c, d, &encode) {
            Some(Command::Base64Encode)
        } else if span_is(line, c, d, &decode) {
            Some(Command::Base64Decode)
        } else {
            None
        }
    } else {
        None
    }
}

/// Reads the command that the command line's lines name. No lines means no
/// command; more than one line, or a line that names no known command, is an error.
pub fn parse_command(lines: &Vec<String>) -> (r: Result<Option<Command>, CommandError>)
    ensures
        parse_agrees(lines@.map_values(|l: String| l@), r),
{
    let ghost views = lines@.map_values(|l: String| l@);
    if lines.len() > 1 {
        return Err(CommandError::TooManyLines);
    }
    if lines.len() == 0 {
        return Ok(None);
    }
    let line = &lines[0];
    assert(views[0] == line@);
    match parse_line(line.as_str()) {
        Some(c) => Ok(Some(c)),
        None => Err(CommandError::Unknown(line.clone())),
    }
}

} // verus!
