use vstd::prelude::*;
use vstd::string::*;
use vstd::utf8::*;

use base64::Engine;

use crate::json::{check_json, is_json};
use crate::command::{parse_agrees, parse_command, parse_lines_spec, Command, CommandError};

verus! {

#[verifier::external_type_specification]
#[verifier::external_body]
pub struct ExDecodeError(base64::DecodeError);

#[verifier::external_type_specification]
#[verifier::external_body]
pub struct ExFromUtf8Error(std::string::FromUtf8Error);

/// The JSON formatter's output for a text.
pub uninterp spec fn pretty_json(s: Seq<char>) -> Seq<char>;

/// The standard base64 alphabet.
pub open spec fn base64_alphabet() -> Seq<char> {
    seq!['A', 'B', 'C', 'D', 'E', 'F', 'G', 'H', 'I', 'J', 'K', 'L', 'M', 'N', 'O', 'P', 'Q', 'R', 'S', 'T', 'U', 'V', 'W', 'X', 'Y', 'Z', 'a', 'b', 'c', 'd', 'e', 'f', 'g', 'h', 'i', 'j', 'k', 'l', 'm', 'n', 'o', 'p', 'q', 'r', 's', 't', 'u', 'v', 'w', 'x', 'y', 'z', '0', '1', '2', '3', '4', '5', '6', '7', '8', '9', '+', '/']
}

/// The base64 digit for a six-bit value.
pub open spec fn base64_digit(v: int) -> char {
    if 0 <= v < 64 {
        base64_alphabet()[v]
    } else {
        'A'
    }
}

/// Standard base64 (RFC 4648, padded with `=`): each group of three bytes
/// becomes four digits; a last group of one or two bytes is padded.
pub open spec fn base64_std(b: Seq<u8>) -> Seq<char>
    decreases b.len(),
{
    if b.len() == 0 {
        seq![]
    } else if b.len() == 1 {
        seq![base64_digit((b[0] as int) / 4), base64_digit(((b[0] as int) % 4) * 16), '=', '=']
    } else if b.len() == 2 {
        seq![
            base64_digit((b[0] as int) / 4),
            base64_digit(((b[0] as int) % 4) * 16 + (b[1] as int) / 16),
            base64_digit(((b[1] as int) % 16) * 4),
            '=',
        ]
    } else {
        seq![
            base64_digit((b[0] as int) / 4),
            base64_digit(((b[0] as int) % 4) * 16 + (b[1] as int) / 16),
            base64_digit(((b[1] as int) % 16) * 4 + (b[2] as int) / 64),
            base64_digit((b[2] as int) % 64),
        ] + base64_std(b.skip(3))
    }
}

/// The bytes that a standard, padded base64 text decodes to, or `None` where it is not such a text.
pub uninterp spec fn base64_bytes(s: Seq<char>) -> Option<Seq<u8>>;

/// Relies on `jsonxf::pretty_print`: the text re-indented (two spaces, line
/// feeds), a function of the input alone. It formats in memory and does not
/// fail on a `&str`.
#[verifier::external_body]
fn jsonxf_pretty(s: &str) -> (r: Result<String, String>)
    ensures
        r is Ok,
        r matches Ok(p) ==> p@ == pretty_json(s@),
{
    jsonxf::pretty_print(s)
}

/// Relies on `Engine::encode` of base64's `STANDARD` engine: padded text in the
/// standard alphabet, which the same engine decodes back to the input bytes.
#[verifier::external_body]
fn encode_standard(b: &[u8]) -> (r: String)
    ensures
        r@ == base64_std(b@),
        base64_bytes(r@) == Some(b@),
{
    base64::engine::general_purpose::STANDARD.encode(b)
}

/// Relies on `Engine::decode` of base64's `STANDARD` engine: the decoded bytes,
/// or an error where the text is not canonical padded base64.
#[verifier::external_body]
fn decode_standard(s: &str) -> (r: Result<Vec<u8>, base64::DecodeError>)
    ensures
        match r {
            Ok(b) => base64_bytes(s@) == Some(b@),
            Err(_) => base64_bytes(s@) is None,
        },
{
    base64::engine::general_purpose::STANDARD.decode(s)
}

/// Relies on `String::from_utf8`: succeeds exactly on valid UTF-8, with the
/// characters the bytes encode.
#[verifier::external_body]
fn string_from_utf8(b: Vec<u8>) -> (r: Result<String, std::string::FromUtf8Error>)
    ensures
        match r {
            Ok(s) => valid_utf8(b@) && s@ == decode_utf8(b@),
            Err(_) => !valid_utf8(b@),
        },
{
    String::from_utf8(b)
}

/// The lines joined into one text, a line feed between each two.
pub open spec fn joined(lines: Seq<Seq<char>>) -> Seq<char>
    decreases lines.len(),
{
    if lines.len() == 0 {
        seq![]
    } else if lines.len() == 1 {
        lines[0]
    } else {
        joined(lines.drop_last()) + seq!['\n'] + lines.last()
    }
}

/// What `base64 decode` makes of a text.
pub open spec fn base64_decode_spec(s: Seq<char>) -> Result<Seq<char>, CommandError> {
    match base64_bytes(s) {
        None => Err(CommandError::InvalidBase64),
        Some(b) => if valid_utf8(b) {
            Ok(decode_utf8(b))
        } else {
            Err(CommandError::InvalidUtf8)
        },
    }
}

/// What `json format` makes of a text.
pub open spec fn json_format_spec(s: Seq<char>) -> Result<Seq<char>, CommandError> {
    if is_json(encode_utf8(s)) {
        Ok(pretty_json(s))
    } else {
        Err(CommandError::InvalidJson)
    }
}

/// What a buffer-rewriting command makes of the buffer's text (`q` leaves it as it is).
pub open spec fn transform_spec(cmd: Command, s: Seq<char>) -> Result<Seq<char>, CommandError> {
    match cmd {
        Command::Quit => Ok(s),
        Command::JsonFormat => json_format_spec(s),
        Command::Base64Encode => Ok(base64_std(encode_utf8(s))),
        Command::Base64Decode => base64_decode_spec(s),
    }
}

/// Whether an executable result is the given abstract one.
pub open spec fn agrees(r: Result<String, CommandError>, s: Result<Seq<char>, CommandError>) -> bool {
    match r {
        Ok(t) => s == Ok::<Seq<char>, CommandError>(t@),
        Err(e) => s == Err::<Seq<char>, CommandError>(e),
    }
}

/// Joins the lines into one text with a line feed between each two.
pub fn join_lines(lines: &Vec<String>) -> (r: String)
    ensures
        r@ == joined(lines@.map_values(|l: String| l@)),
{
    let ghost views = lines@.map_values(|l: String| l@);
    let mut out = String::new();
    let mut i: usize = 0;
    while i < lines.len()
        invariant
            i <= lines@.len(),
            views == lines@.map_values(|l: String| l@),
            out@ == joined(views.subrange(0, i as int)),
        decreases lines@.len() - i,
    {
        assert(views.subrange(0, i + 1).drop_last() =~= views.subrange(0, i as int));
        if i > 0 {
            proof {
                reveal_strlit("\n");
            }
            out.append("\n");
        }
        out.append(lines[i].as_str());
        i = i + 1;
    }
    assert(views.subrange(0, lines@.len() as int) =~= views);
    out
}

/// Pretty-prints a JSON text; text that is not one well-formed JSON value is
/// refused with `InvalidJson`.
pub fn json_format(text: &str) -> (r: Result<String, CommandError>)
    ensures
        agrees(r, json_format_spec(text@)),
{
    if !check_json(text.as_bytes()) {
        return Err(CommandError::InvalidJson);
    }
    match jsonxf_pretty(text) {
        Ok(p) => Ok(p),
        Err(_) => Err(CommandError::InvalidJson),
    }
}

/// Encodes the text's UTF-8 bytes as standard base64; decoding the result
/// gives the text back.
pub fn base64_encode(text: &str) -> (r: String)
    ensures
        r@ == base64_std(encode_utf8(text@)),
        base64_decode_spec(r@) == Ok::<Seq<char>, CommandError>(text@),
{
    let r = encode_standard(text.as_bytes());
    proof {
        encode_utf8_valid_utf8(text@);
        encode_utf8_decode_utf8(text@);
    }
    r
}

/// Decodes standard base64 into the UTF-8 text it holds.
pub fn base64_decode(text: &str) -> (r: Result<String, CommandError>)
    ensures
        agrees(r, base64_decode_spec(text@)),
{
    match decode_standard(text) {
        Err(_) => Err(CommandError::InvalidBase64),
        Ok(bytes) => match string_from_utf8(bytes) {
            Ok(s) => Ok(s),
            Err(_) => Err(CommandError::InvalidUtf8),
        },
    }
}

/// Rewrites a buffer's text as a command asks.
pub fn apply_transform(cmd: Command, text: &str) -> (r: Result<String, CommandError>)
    ensures
        agrees(r, transform_spec(cmd, text@)),
        cmd == Command::Base64Encode ==> (r matches Ok(t) && base64_decode_spec(t@) == Ok::<
            Seq<char>,
            CommandError,
        >(text@)),
{
    match cmd {
        Command::Quit => Ok(text.to_string()),
        Command::JsonFormat => json_format(text),
        Command::Base64Encode => Ok(base64_encode(text)),
        Command::Base64Decode => base64_decode(text),
    }
}

/// No base64 digit is a line feed or a carriage return.
pub proof fn base64_digit_is_not_line_break(v: int)
    ensures
        base64_digit(v) != '\n' && base64_digit(v) != '\r',
{
    if v == 0 {
    } else if v == 1 {
    } else if v == 2 {
    } else if v == 3 {
    } else if v == 4 {
    } else if v == 5 {
    } else if v == 6 {
    } else if v == 7 {
    } else if v == 8 {
    } else if v == 9 {
    } else if v == 10 {
    } else if v == 11 {
    } else if v == 12 {
    } else if v == 13 {
    } else if v == 14 {
    } else if v == 15 {
    } else if v == 16 {
    } else if v == 17 {
    } else if v == 18 {
    } else if v == 19 {
    } else if v == 20 {
    } else if v == 21 {
    } else if v == 22 {
    } else if v == 23 {
    } else if v == 24 {
    } else if v == 25 {
    } else if v == 26 {
    } else if v == 27 {
    } else if v == 28 {
    } else if v == 29 {
    } else if v == 30 {
    } else if v == 31 {
    } else if v == 32 {
    } else if v == 33 {
    } else if v == 34 {
    } else if v == 35 {
    } else if v == 36 {
    } else if v == 37 {
    } else if v == 38 {
    } else if v == 39 {
    } else if v == 40 {
    } else if v == 41 {
    } else if v == 42 {
    } else if v == 43 {
    } else if v == 44 {
    } else if v == 45 {
    } else if v == 46 {
    } else if v == 47 {
    } else if v == 48 {
    } else if v == 49 {
    } else if v == 50 {
    } else if v == 51 {
    } else if v == 52 {
    } else if v == 53 {
    } else if v == 54 {
    } else if v == 55 {
    } else if v == 56 {
    } else if v == 57 {
    } else if v == 58 {
    } else if v == 59 {
    } else if v == 60 {
    } else if v == 61 {
    } else if v == 62 {
    } else if v == 63 {
    }
}

/// Standard base64 holds no line break.
pub proof fn base64_has_no_line_break(b: Seq<u8>)
    ensures
        forall|i: int| 0 <= i < base64_std(b).len() ==> base64_std(b)[i] != '\n' && base64_std(b)[i] != '\r',
    decreases b.len(),
{
    assert forall|v: int| #![trigger base64_digit(v)] base64_digit(v) != '\n' && base64_digit(v) != '\r' by {
        base64_digit_is_not_line_break(v);
    }
    let r = base64_std(b);
    if b.len() > 2 {
        let rest = base64_std(b.skip(3));
        base64_has_no_line_break(b.skip(3));
        assert forall|i: int| 0 <= i < r.len() implies r[i] != '\n' && r[i] != '\r' by {
            if i >= 4 {
                assert(r[i] == rest[i - 4]);
            }
        }
    }
}

/// What running a command line does to the editor.
#[derive(Clone, Debug, PartialEq, Eq)]
pub enum Effect {
    /// There was no command to run.
    Nothing,
    /// Leave the editor.
    Quit,
    /// Replace the whole document by this text.
    Replace(String),
}

/// Whether `r` is the effect of the command line `cmd` on the document text `doc`.
pub open spec fn effect_agrees(cmd: Seq<Seq<char>>, doc: Seq<char>, r: Result<Effect, CommandError>) -> bool {
    match parse_lines_spec(cmd) {
        Err(_) => match r {
            Ok(_) => false,
            Err(e) => parse_agrees(cmd, Err(e)),
        },
        Ok(None) => r == Ok::<Effect, CommandError>(Effect::Nothing),
        Ok(Some(Command::Quit)) => r == Ok::<Effect, CommandError>(Effect::Quit),
        Ok(Some(c)) => match transform_spec(c, doc) {
            Ok(t) => match r {
                Ok(Effect::Replace(s)) => s@ == t,
                _ => false,
            },
            Err(e) => r == Err::<Effect, CommandError>(e),
        },
    }
}

/// Works out what the command line (`cmd`, its lines) does to the document
/// (`doc`, its lines, joined by line feeds before a rewrite).
pub fn command_effect(cmd: &Vec<String>, doc: &Vec<String>) -> (r: Result<Effect, CommandError>)
    ensures
        effect_agrees(
            cmd@.map_values(|l: String| l@),
            joined(doc@.map_values(|l: String| l@)),
            r,
        ),
        parse_lines_spec(cmd@.map_values(|l: String| l@)) == Ok::<Option<Command>, Seq<char>>(
            Some(Command::Base64Encode),
        ) ==> (r matches Ok(Effect::Replace(t)) && base64_decode_spec(t@) == Ok::<
            Seq<char>,
            CommandError,
        >(joined(doc@.map_values(|l: String| l@)))),
{
    match parse_command(cmd) {
        Err(e) => Err(e),
        Ok(None) => Ok(Effect::Nothing),
        Ok(Some(Command::Quit)) => Ok(Effect::Quit),
        Ok(Some(c)) => {
            let text = join_lines(doc);
            match apply_transform(c, text.as_str()) {
                Ok(t) => Ok(Effect::Replace(t)),
                Err(e) => Err(e),
            }
        },
    }
}

} // verus!
