//! The literal cases of the ACK error grammar: well-formed error lines
//! parse into their kind, list index, command and message; malformed ones
//! are rejected with the exact failure position.

use mpdris::error::{Error, ErrorDetail, ErrorKind, ParseMPDError, ParseMPDErrorKind};

fn expect_parsed(result: Result<Error, ParseMPDError>) -> (ErrorKind, String, u8, String) {
    match result {
        Ok(e) => match e.detail {
            ErrorDetail::Parsed {
                command,
                list_num,
                message,
            } => (e.kind, command, list_num, message),
            ErrorDetail::Message(m) => panic!("expected a parsed detail, got message {m}"),
        },
        Err(p) => panic!("expected a parsed error, got {p:?}"),
    }
}

fn expect_rejected(result: Result<Error, ParseMPDError>) -> ParseMPDError {
    match result {
        Ok(e) => panic!("expected a parse failure, got kind {:?}", e.kind),
        Err(p) => p,
    }
}

#[test]
fn test_valid_mpd_error() {
    let output = String::from("ACK [5@0] {play} No such song");
    let (kind, command, list_num, message) = expect_parsed(Error::try_from_mpd(output));
    assert_eq!(kind, ErrorKind::from_code(5).unwrap());
    assert_eq!(command, "play");
    assert_eq!(list_num, 0);
    assert_eq!(message, "No such song");
}

#[test]
fn test_large_error_code() {
    let output = String::from("ACK [50@0] {load} No such playlist");
    let (kind, command, list_num, message) = expect_parsed(Error::try_from_mpd(output));
    assert_eq!(kind, ErrorKind::from_code(50).unwrap());
    assert_eq!(kind, ErrorKind::DoesNotExist);
    assert_eq!(command, "load");
    assert_eq!(list_num, 0);
    assert_eq!(message, "No such playlist");
}

#[test]
fn test_overflowing_error_code() {
    let output = String::from("ACK [340282366920938463463374607431768211456@0] {load} No such playlist");
    let result = expect_rejected(Error::try_from_mpd(output));
    assert_eq!(result, ParseMPDError::new(ParseMPDErrorKind::InvalidCode, 5));
}

#[test]
fn test_invalid_format_no_ack() {
    let output = String::from("5@0 {play} No such song");
    let result = expect_rejected(Error::try_from_mpd(output));
    assert_eq!(result, ParseMPDError::expected('A', 0));
}

#[test]
fn test_invalid_format_no_brackets() {
    let output = String::from("ACK 5@0 play No such song");
    let result = expect_rejected(Error::try_from_mpd(output));
    assert_eq!(result, ParseMPDError::expected('[', 4));
}

#[test]
fn test_missing_fields() {
    let output = String::from("ACK [5@] {play} No such song");
    let result = expect_rejected(Error::try_from_mpd(output));
    assert_eq!(result, ParseMPDError::number(7));
}

#[test]
fn test_invalid_error_code() {
    let output = String::from("ACK [10@0] {play} No such song");
    let result = expect_rejected(Error::try_from_mpd(output));
    assert_eq!(result, ParseMPDError::new(ParseMPDErrorKind::InvalidCode, 5));
}

#[test]
fn test_invalid_command_list_num() {
    let output = String::from("ACK [5@y] {play} No such song");
    let result = expect_rejected(Error::try_from_mpd(output));
    assert_eq!(result, ParseMPDError::number(7));
}

#[test]
fn test_missing_message_text() {
    let output = String::from("ACK [5@0] {play}");
    let result = expect_rejected(Error::try_from_mpd(output));
    assert_eq!(
        result,
        ParseMPDError::new(ParseMPDErrorKind::UnexpectedSymbol, 15)
    );
}

#[test]
fn test_missing_command() {
    let output = String::from("ACK [5@0] {} No such song");
    let (kind, command, list_num, message) = expect_parsed(Error::try_from_mpd(output));
    assert_eq!(kind, ErrorKind::UnknownCommand);
    assert_eq!(command, "");
    assert_eq!(list_num, 0);
    assert_eq!(message, "No such song");
}

#[test]
fn test_empty_error_line() {
    let result = expect_rejected(Error::try_from_mpd(String::new()));
    assert_eq!(result, ParseMPDError::new(ParseMPDErrorKind::EmptyString, 0));
}

#[test]
fn errors_write_themselves_out() {
    let output = String::from("ACK [5@0] {play} No such song");
    let e = Error::try_from_mpd(output).unwrap();
    assert_eq!(e.describe(), "No such song: at command play (#0)");

    let e = Error::new(ErrorKind::IO, "connection reset");
    assert_eq!(e.describe(), "connection reset");

    let p = ParseMPDError::expected('[', 4);
    assert_eq!(
        p.describe(),
        "encountered an unexpected symbol, expected char '[' at position 4"
    );
    let p = ParseMPDError::number(7);
    assert_eq!(p.describe(), "expected a number at position 7");
}

#[test]
fn test_all_known_codes_map() {
    let cases = [
        (1, ErrorKind::NotAList),
        (2, ErrorKind::WrongArgument),
        (3, ErrorKind::IncorrectPassword),
        (4, ErrorKind::PermissionDenied),
        (5, ErrorKind::UnknownCommand),
        (50, ErrorKind::DoesNotExist),
        (51, ErrorKind::PlaylistTooLarge),
        (52, ErrorKind::System),
        (53, ErrorKind::PlaylistLoad),
        (54, ErrorKind::CannotUpdate),
        (55, ErrorKind::PlayerSync),
        (56, ErrorKind::AlreadyExists),
    ];
    for (code, kind) in cases {
        assert_eq!(ErrorKind::from_code(code), Some(kind));
    }
    assert_eq!(ErrorKind::from_code(6), None);
    assert_eq!(ErrorKind::from_code(0), None);
    assert_eq!(ErrorKind::from_code(255), None);
}
