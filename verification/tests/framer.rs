use dygma_api::focus::{commands_from_help, serialize_command};
use dygma_api::response::{ParseResponseError, Response};

#[test]
fn parser_succeeds_on_single_response() {
    let data = "this.is a test\r\nto test the parser\r\n.";

    let (res, _) = Response::parse(data).unwrap();

    assert_eq!(
        "this.is a test\n\
        to test the parser",
        res.0
    );
}

#[test]
fn parser_succeeds_on_multiple_response() {
    let data = "\
        this.is a test\r\n\
        to test the parser\r\n.\
        this.is another test\r\n\
        to test the parser\r\n.\
        ";

    let (res, consumed) = Response::parse(data).unwrap();

    let new_input = &data[consumed..];

    assert_eq!(
        res.0,
        "this.is a test\n\
        to test the parser",
    );

    assert_eq!(
        new_input,
        "this.is another test\r\n\
        to test the parser\r\n.",
    );
}

#[test]
fn parser_fails_on_incomplete_data() {
    let data = "\
        This is a test\r\n\
        to test the parser\r\n\
        ";

    let res = Response::parse(data).unwrap_err();

    assert!(matches!(res, ParseResponseError::Incomplete));
}

#[test]
fn parser_needs_more_then_completes() {
    // a chunk with a line but no terminating dot line asks for more
    let chunk = "version 1.2\r\n";
    assert_eq!(
        Response::parse(chunk),
        Err(ParseResponseError::Incomplete)
    );

    // feeding the rest afterwards yields the accumulated response
    let mut buffer = String::from(chunk);
    buffer.push_str("extra line\r\n.");
    let (res, consumed) = Response::parse(&buffer).unwrap();
    assert_eq!(res.0, "version 1.2\nextra line");
    assert_eq!(consumed, buffer.len());
}

#[test]
fn parser_accepts_bare_newlines() {
    let (res, _) = Response::parse("a\nb\n.").unwrap();
    assert_eq!(res.0, "a\nb");
}

#[test]
fn parser_rejects_lone_carriage_return() {
    let res = Response::parse("bad\rline\r\n.").unwrap_err();
    assert!(matches!(res, ParseResponseError::Malformed));
}

#[test]
fn parser_carriage_return_at_end_is_incomplete() {
    let res = Response::parse("line\r").unwrap_err();
    assert!(matches!(res, ParseResponseError::Incomplete));
}

#[test]
fn command_serializes_with_data() {
    assert_eq!(serialize_command("help", None), "help\n");
    assert_eq!(
        serialize_command("keymap.custom", Some("1 2 3")),
        "keymap.custom 1 2 3\n"
    );
}

#[test]
fn help_response_splits_into_commands() {
    let cmds = commands_from_help("help\nkeymap.custom\nsuperkeys.map");
    assert_eq!(cmds, vec!["help", "keymap.custom", "superkeys.map"]);

    let cmds = commands_from_help("one\r\ntwo\r\n");
    assert_eq!(cmds, vec!["one", "two"]);

    let none = commands_from_help("");
    assert!(none.is_empty());
}

#[test]
fn framer_errors_describe_themselves() {
    let err = Response::parse("line\r\n").unwrap_err();
    assert_eq!(err.message(), "data is incomplete");
    let err = Response::parse("bad\rline\r\n.").unwrap_err();
    assert!(err.message().contains("carriage return"));
}
