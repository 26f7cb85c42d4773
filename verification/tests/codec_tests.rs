//! The wire codec: command encoding, response decoding line by line, the
//! key-value round trip, and the tolerance for malformed lines.

use mpdris::codec::{decode_lines, encode_command, DecodeStep, ResponseDecoder};
use mpdris::error::{ErrorDetail, ErrorKind};

fn lines(ls: &[&str]) -> Vec<String> {
    ls.iter().map(|l| String::from(*l)).collect()
}

#[test]
fn encode_appends_one_newline() {
    assert_eq!(encode_command("status"), "status\n");
    assert_eq!(encode_command("pause 1"), "pause 1\n");
    assert_eq!(encode_command(""), "\n");
}

#[test]
fn round_trip_preserves_pairs_in_order() {
    let command = encode_command("status");
    assert_eq!(command, "status\n");
    let response = lines(&["volume: 50", "state: play", "songid: 7", "OK"]);
    let pairs = decode_lines(&response).unwrap();
    assert_eq!(pairs.len(), 3);
    assert_eq!(pairs[0], (String::from("volume"), String::from("50")));
    assert_eq!(pairs[1], (String::from("state"), String::from("play")));
    assert_eq!(pairs[2], (String::from("songid"), String::from("7")));
}

#[test]
fn empty_response_decodes_to_no_pairs() {
    let pairs = decode_lines(&lines(&["OK"])).unwrap();
    assert!(pairs.is_empty());
}

#[test]
fn value_splits_at_first_separator_only() {
    let pairs = decode_lines(&lines(&["Title: Foo: Bar", "OK"])).unwrap();
    assert_eq!(pairs[0], (String::from("Title"), String::from("Foo: Bar")));
}

#[test]
fn value_is_trimmed() {
    let pairs = decode_lines(&lines(&["file:  a path \t", "OK"])).unwrap();
    assert_eq!(pairs[0], (String::from("file"), String::from("a path")));
}

#[test]
fn two_malformed_lines_are_tolerated() {
    let pairs = decode_lines(&lines(&["garbage", "more garbage", "OK"])).unwrap();
    assert!(pairs.is_empty());
}

#[test]
fn three_malformed_lines_fail_the_response() {
    let err = decode_lines(&lines(&["garbage", "more", "even more", "OK"])).unwrap_err();
    assert_eq!(err.kind, ErrorKind::KeyValueError);
}

#[test]
fn malformed_count_resets_on_a_good_line() {
    let response = lines(&["bad", "bad", "key: value", "bad", "bad", "OK"]);
    let pairs = decode_lines(&response).unwrap();
    assert_eq!(pairs.len(), 1);
    assert_eq!(pairs[0], (String::from("key"), String::from("value")));
}

#[test]
fn ack_line_aborts_with_parsed_error() {
    let response = lines(&["volume: 50", "ACK [2@0] {setvol} Bad volume", "OK"]);
    let err = decode_lines(&response).unwrap_err();
    assert_eq!(err.kind, ErrorKind::WrongArgument);
    match err.detail {
        ErrorDetail::Parsed {
            command, message, ..
        } => {
            assert_eq!(command, "setvol");
            assert_eq!(message, "Bad volume");
        }
        ErrorDetail::Message(m) => panic!("expected a parsed ACK error, got {m}"),
    }
}

#[test]
fn unparsable_ack_line_is_a_protocol_error() {
    let err = decode_lines(&lines(&["ACK gibberish"])).unwrap_err();
    assert_eq!(err.kind, ErrorKind::Other);
}

#[test]
fn unterminated_response_is_an_error() {
    let err = decode_lines(&lines(&["key: value"])).unwrap_err();
    assert_eq!(err.kind, ErrorKind::Other);
}

#[test]
fn decoder_completes_on_exact_ok_only() {
    let mut dec = ResponseDecoder::new();
    assert!(matches!(dec.feed_line("OKeydokey: fine"), DecodeStep::Continue));
    assert!(matches!(dec.feed_line("OK"), DecodeStep::Complete));
    let pairs = dec.into_pairs();
    assert_eq!(pairs.len(), 1);
    assert_eq!(pairs[0], (String::from("OKeydokey"), String::from("fine")));
}
