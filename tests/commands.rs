use gloop::command::{is_white, parse_command, parse_line, Command, CommandError};
use gloop::transform::{
    apply_transform, base64_decode, base64_encode, command_effect, join_lines, json_format,
    Effect,
};

fn lines(v: &[&str]) -> Vec<String> {
    v.iter().map(|s| s.to_string()).collect()
}

#[test]
fn parses_each_verb() {
    assert_eq!(parse_line("q"), Some(Command::Quit));
    assert_eq!(parse_line("json format"), Some(Command::JsonFormat));
    assert_eq!(parse_line("base64 encode"), Some(Command::Base64Encode));
    assert_eq!(parse_line("base64 decode"), Some(Command::Base64Decode));
    assert_eq!(parse_line("  json \t  format  extra"), Some(Command::JsonFormat));
    assert_eq!(parse_line("q now"), Some(Command::Quit));
}

#[test]
fn rejects_unknown_lines() {
    assert_eq!(parse_line(""), None);
    assert_eq!(parse_line("   "), None);
    assert_eq!(parse_line("json"), None);
    assert_eq!(parse_line("json pretty"), None);
    assert_eq!(parse_line("base64"), None);
    assert_eq!(parse_line("base64 format"), None);
    assert_eq!(parse_line("Q"), None);
    assert_eq!(parse_line("quit"), None);
    assert_eq!(parse_line("jsonformat"), None);
}

#[test]
fn parse_command_by_line_count() {
    assert_eq!(parse_command(&lines(&[])), Ok(None));
    assert_eq!(parse_command(&lines(&["q"])), Ok(Some(Command::Quit)));
    assert_eq!(parse_command(&lines(&["q", ""])), Err(CommandError::TooManyLines));
    assert_eq!(
        parse_command(&lines(&["frobnicate it"])),
        Err(CommandError::Unknown("frobnicate it".to_string()))
    );
}

#[test]
fn error_messages() {
    assert_eq!(
        CommandError::Unknown("json pretty".to_string()).message(),
        "unknown command: json pretty"
    );
    assert_eq!(
        CommandError::TooManyLines.message(),
        "more lines than expected in commandline"
    );
}

#[test]
fn white_space_is_unicode_white_space() {
    for c in [' ', '\t', '\n', '\r', '\u{0B}', '\u{0C}', '\u{85}', '\u{A0}', '\u{2003}', '\u{3000}'] {
        assert!(is_white(c));
        assert_eq!(is_white(c), c.is_whitespace());
    }
    for c in ['a', '0', '_', '\u{200B}', 'é'] {
        assert!(!is_white(c));
        assert_eq!(is_white(c), c.is_whitespace());
    }
}

#[test]
fn joins_lines_with_line_feeds() {
    assert_eq!(join_lines(&lines(&[])), "");
    assert_eq!(join_lines(&lines(&["a"])), "a");
    assert_eq!(join_lines(&lines(&["a", "", "bc"])), "a\n\nbc");
}

#[test]
fn json_format_pretty_prints() {
    assert_eq!(json_format("{\"a\":1,\"b\":2}").unwrap(), "{\n  \"a\": 1,\n  \"b\": 2\n}");
    assert_eq!(
        json_format("{\"empty\":{},\n\n\"one\":[1]}").unwrap(),
        "{\n  \"empty\": {},\n  \"one\": [\n    1\n  ]\n}"
    );
}

#[test]
fn json_format_is_idempotent() {
    let once = json_format("{\"a\":[1,2,{\"b\":null}],\"c\":\"x y\"}").unwrap();
    let twice = json_format(&once).unwrap();
    assert_eq!(once, twice);
    assert_eq!(json_format(&twice).unwrap(), twice);
}

#[test]
fn base64_encode_known_values() {
    assert_eq!(base64_encode(""), "");
    assert_eq!(base64_encode("hello"), "aGVsbG8=");
    assert_eq!(base64_encode("hé"), "aMOp");
    assert_eq!(base64_encode("a\nb"), "YQpi");
}

#[test]
fn base64_decode_known_values() {
    assert_eq!(base64_decode("aGVsbG8="), Ok("hello".to_string()));
    assert_eq!(base64_decode("aMOp"), Ok("hé".to_string()));
}

#[test]
fn base64_round_trip() {
    for text in ["", "x", "hello world", "héllo\nwörld ✓", "{\"a\": 1}"] {
        let encoded = base64_encode(text);
        assert_eq!(base64_decode(&encoded), Ok(text.to_string()));
    }
}

#[test]
fn base64_decode_errors() {
    assert_eq!(base64_decode("not base64!"), Err(CommandError::InvalidBase64));
    assert_eq!(base64_decode("aGVsbG8"), Err(CommandError::InvalidBase64));
    // 0xFF is valid base64 content but never valid UTF-8.
    assert_eq!(base64_decode("/w=="), Err(CommandError::InvalidUtf8));
}

#[test]
fn apply_transform_by_command() {
    assert_eq!(apply_transform(Command::Quit, "abc"), Ok("abc".to_string()));
    assert_eq!(apply_transform(Command::Base64Encode, "abc"), Ok("YWJj".to_string()));
    assert_eq!(apply_transform(Command::Base64Decode, "YWJj"), Ok("abc".to_string()));
    assert_eq!(apply_transform(Command::JsonFormat, "[1]"), Ok("[\n  1\n]".to_string()));
    assert_eq!(apply_transform(Command::JsonFormat, "[1"), Err(CommandError::InvalidJson));
}

#[test]
fn command_effects() {
    let doc = lines(&["{\"a\":", "1}"]);
    assert_eq!(command_effect(&lines(&[]), &doc), Ok(Effect::Nothing));
    assert_eq!(command_effect(&lines(&["q"]), &doc), Ok(Effect::Quit));
    assert_eq!(
        command_effect(&lines(&["json format"]), &doc),
        Ok(Effect::Replace("{\n  \"a\": 1\n}".to_string()))
    );
    assert_eq!(
        command_effect(&lines(&["base64 encode"]), &lines(&["a", "b"])),
        Ok(Effect::Replace("YQpi".to_string()))
    );
    assert_eq!(
        command_effect(&lines(&["base64 decode"]), &lines(&["YQpi"])),
        Ok(Effect::Replace("a\nb".to_string()))
    );
    assert_eq!(
        command_effect(&lines(&["base64 decode"]), &lines(&["/w=="])),
        Err(CommandError::InvalidUtf8)
    );
    assert_eq!(
        command_effect(&lines(&["json format", ""]), &doc),
        Err(CommandError::TooManyLines)
    );
    assert_eq!(
        command_effect(&lines(&["base64"]), &doc),
        Err(CommandError::Unknown("base64".to_string()))
    );
}

#[test]
fn json_format_rejects_non_json() {
    for text in ["not json at all", "{\"a\":}", "[1,]", "{\"a\" 1}", "01", "\"open", "[1] 2", ""] {
        assert_eq!(json_format(text), Err(CommandError::InvalidJson), "{text:?}");
    }
    for text in ["1", " -0.5e+3 ", "\"a\\u00e9\\n\"", "[]", "{}", "[true,false,null]", "{\"é\": [1, {\"b\": \"x\"}]}"] {
        assert!(json_format(text).is_ok(), "{text:?}");
    }
}
