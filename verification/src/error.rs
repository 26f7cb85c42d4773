//! Typed errors for the backend protocol, and the parser for the backend's
//! structured `ACK` failure line.
//!
//! An `ACK` line has the shape `ACK [<code>@<index>] {<command>} <message>`.
//! [`Error::try_from_mpd`] parses it with a strict left-to-right state
//! machine whose behaviour is pinned down, position by position, by the
//! specification functions [`parse_ack`], [`run`] and [`step`] below.  A
//! line the parser cannot interpret yields a [`ParseMPDError`], a type
//! distinct from the [`Error`] that a successfully parsed `ACK` produces.

use vstd::prelude::*;
use vstd::string::*;

use crate::strutil::{
    all_digits, dec_rep, dec_value, fmt_u64, is_digit, parse_u8, spec_parse_u8, trim_seq, trimmed,
};

verus! {

/// The kind of a protocol error: the twelve application codes the backend
/// reports in an `ACK` line, plus the client-side kinds for transport and
/// framing failures.
#[derive(Clone, Copy, Debug, PartialEq, Eq, Structural)]
pub enum ErrorKind {
    /// A list operation was applied to something that is not a list.
    NotAList,
    /// Another argument type or number of arguments was expected.
    WrongArgument,
    /// The password is wrong, or none is set.
    IncorrectPassword,
    /// No permission to execute the command.
    PermissionDenied,
    /// An unknown command was sent.
    UnknownCommand,
    /// The addressed item does not exist.
    DoesNotExist,
    /// The playlist is too large.
    PlaylistTooLarge,
    /// A system error on the backend's side.
    System,
    /// A playlist could not be loaded.
    PlaylistLoad,
    /// The database cannot be updated right now.
    CannotUpdate,
    /// There is no current song.
    PlayerSync,
    /// The result of the command already exists.
    AlreadyExists,
    /// An I/O failure on the connection.
    IO,
    /// A line that is not valid UTF-8.
    UTF8,
    /// The handshake greeting did not come from the expected backend.
    InvalidConnection,
    /// Too many response lines could not be split into key-value pairs.
    KeyValueError,
    /// Any other error.
    Other,
}

/// The numeric application code of an `ACK` line, mapped to its kind;
/// `None` for any number outside the documented vocabulary.
pub open spec fn spec_from_code(v: int) -> Option<ErrorKind> {
    if v == 1 {
        Some(ErrorKind::NotAList)
    } else if v == 2 {
        Some(ErrorKind::WrongArgument)
    } else if v == 3 {
        Some(ErrorKind::IncorrectPassword)
    } else if v == 4 {
        Some(ErrorKind::PermissionDenied)
    } else if v == 5 {
        Some(ErrorKind::UnknownCommand)
    } else if v == 50 {
        Some(ErrorKind::DoesNotExist)
    } else if v == 51 {
        Some(ErrorKind::PlaylistTooLarge)
    } else if v == 52 {
        Some(ErrorKind::System)
    } else if v == 53 {
        Some(ErrorKind::PlaylistLoad)
    } else if v == 54 {
        Some(ErrorKind::CannotUpdate)
    } else if v == 55 {
        Some(ErrorKind::PlayerSync)
    } else if v == 56 {
        Some(ErrorKind::AlreadyExists)
    } else {
        None
    }
}

/// True of the kinds that stand for an application-level rejection reported
/// by the backend, as opposed to a transport or framing failure of the
/// client's own.  An application rejection is never retried.
pub open spec fn spec_is_application_kind(k: ErrorKind) -> bool {
    exists|v: int| spec_from_code(v) == Some(k)
}

impl ErrorKind {
    /// Converts an error code from an `ACK` line into its kind.
    pub fn from_code(value: u8) -> (r: Option<ErrorKind>)
        ensures
            r == spec_from_code(value as int),
    {
        match value {
            1 => Some(ErrorKind::NotAList),
            2 => Some(ErrorKind::WrongArgument),
            3 => Some(ErrorKind::IncorrectPassword),
            4 => Some(ErrorKind::PermissionDenied),
            5 => Some(ErrorKind::UnknownCommand),
            50 => Some(ErrorKind::DoesNotExist),
            51 => Some(ErrorKind::PlaylistTooLarge),
            52 => Some(ErrorKind::System),
            53 => Some(ErrorKind::PlaylistLoad),
            54 => Some(ErrorKind::CannotUpdate),
            55 => Some(ErrorKind::PlayerSync),
            56 => Some(ErrorKind::AlreadyExists),
            _ => None,
        }
    }

    /// True of the kinds the backend reports in an `ACK` line.
    pub fn is_application(&self) -> (r: bool)
        ensures
            r == spec_is_application_kind(*self),
    {
        let r = match self {
            ErrorKind::NotAList => true,
            ErrorKind::WrongArgument => true,
            ErrorKind::IncorrectPassword => true,
            ErrorKind::PermissionDenied => true,
            ErrorKind::UnknownCommand => true,
            ErrorKind::DoesNotExist => true,
            ErrorKind::PlaylistTooLarge => true,
            ErrorKind::System => true,
            ErrorKind::PlaylistLoad => true,
            ErrorKind::CannotUpdate => true,
            ErrorKind::PlayerSync => true,
            ErrorKind::AlreadyExists => true,
            _ => false,
        };
        proof {
            if r {
                let v: int = match *self {
                    ErrorKind::NotAList => 1,
                    ErrorKind::WrongArgument => 2,
                    ErrorKind::IncorrectPassword => 3,
                    ErrorKind::PermissionDenied => 4,
                    ErrorKind::UnknownCommand => 5,
                    ErrorKind::DoesNotExist => 50,
                    ErrorKind::PlaylistTooLarge => 51,
                    ErrorKind::System => 52,
                    ErrorKind::PlaylistLoad => 53,
                    ErrorKind::CannotUpdate => 54,
                    ErrorKind::PlayerSync => 55,
                    _ => 56,
                };
                assert(spec_from_code(v) == Some(*self));
            } else {
                assert forall|v: int| spec_from_code(v) != Some(*self) by {
                    if 1 <= v <= 56 {
                    }
                }
            }
        }
        r
    }
}

/// What an [`Error`] carries besides its kind: either a plain message, or
/// the three fields of a successfully parsed `ACK` line.
#[derive(Debug, Clone)]
pub enum ErrorDetail {
    /// A message chosen by the caller.
    Message(String),
    /// The fields of a parsed `ACK` line.
    Parsed { command: String, list_num: u8, message: String },
}

/// An error of the backend protocol: an application rejection parsed from an
/// `ACK` response, or a client-side transport or framing failure.
#[derive(Debug, Clone)]
pub struct Error {
    pub kind: ErrorKind,
    pub detail: ErrorDetail,
}

/// The kinds of failure the `ACK` parser itself can report.
#[derive(Clone, Copy, Debug, PartialEq, Eq, Structural)]
pub enum ParseMPDErrorKind {
    EmptyString,
    UnexpectedSymbol,
    ExpectedNumber,
    InvalidCode,
}

/// A failure to interpret a line as an `ACK` error: the kind of mismatch,
/// the character position at which parsing failed, and the character the
/// parser expected there, if it expected one in particular.
#[derive(Clone, Copy, Debug)]
pub struct ParseMPDError {
    pub kind: ParseMPDErrorKind,
    /// The character position (zero indexed) at which the parsing failed.
    pub pos: usize,
    /// The character the parser expected to find.
    pub expected_char: Option<char>,
}

impl PartialEq for ParseMPDError {
    fn eq(&self, other: &Self) -> (r: bool) {
        self.kind == other.kind && self.pos == other.pos && match (self.expected_char,
        other.expected_char) {
            (Some(a), Some(b)) => a == b,
            (None, None) => true,
            _ => false,
        }
    }
}

impl Eq for ParseMPDError {

}

impl vstd::std_specs::cmp::PartialEqSpecImpl for ParseMPDError {
    open spec fn obeys_eq_spec() -> bool {
        true
    }

    open spec fn eq_spec(&self, other: &Self) -> bool {
        self.kind == other.kind && self.pos == other.pos && self.expected_char
            == other.expected_char
    }
}

impl ParseMPDError {
    pub fn new(kind: ParseMPDErrorKind, pos: usize) -> (r: Self)
        ensures
            r.kind == kind,
            r.pos == pos,
            r.expected_char is None,
    {
        Self { kind, pos, expected_char: None }
    }

    pub fn expected(c: char, pos: usize) -> (r: Self)
        ensures
            r.kind == ParseMPDErrorKind::UnexpectedSymbol,
            r.pos == pos,
            r.expected_char == Some(c),
    {
        Self { kind: ParseMPDErrorKind::UnexpectedSymbol, pos, expected_char: Some(c) }
    }

    pub fn number(pos: usize) -> (r: Self)
        ensures
            r.kind == ParseMPDErrorKind::ExpectedNumber,
            r.pos == pos,
            r.expected_char is None,
    {
        Self { kind: ParseMPDErrorKind::ExpectedNumber, pos, expected_char: None }
    }
}

impl Error {
    /// The error written out for a log line: the message alone, or, for a
    /// parsed `ACK`, the message with the failed command and list index.
    pub fn describe(&self) -> (r: String)
        ensures
            r@ == (match self.detail {
                ErrorDetail::Message(m) => m@,
                ErrorDetail::Parsed { command, list_num, message } => message@ + ": at command "@
                    + command@ + " (#"@ + dec_rep(list_num as int) + ")"@,
            }),
    {
        match &self.detail {
            ErrorDetail::Message(m) => m.clone(),
            ErrorDetail::Parsed { command, list_num, message } => {
                let mut s = message.clone();
                s.append(": at command ");
                s.append(command.as_str());
                s.append(" (#");
                let num = fmt_u64(*list_num as u64);
                s.append(num.as_str());
                s.append(")");
                s
            },
        }
    }
}

/// The wording of each parse-failure kind.
pub open spec fn parse_error_text(kind: ParseMPDErrorKind) -> Seq<char> {
    match kind {
        ParseMPDErrorKind::EmptyString => "cannot parse error from empty string"@,
        ParseMPDErrorKind::UnexpectedSymbol => "encountered an unexpected symbol"@,
        ParseMPDErrorKind::ExpectedNumber => "expected a number"@,
        ParseMPDErrorKind::InvalidCode => "got invalid error code"@,
    }
}

impl ParseMPDError {
    /// The failure written out for a log line: its kind, the character the
    /// parser wanted when it wanted one in particular, and the position.
    pub fn describe(&self) -> (r: String)
        ensures
            r@ == parse_error_text(self.kind) + (match self.expected_char {
                Some(c) => ", expected char '"@ + seq![c] + "'"@,
                None => Seq::<char>::empty(),
            }) + " at position "@ + dec_rep(self.pos as int),
    {
        let mut s = match self.kind {
            ParseMPDErrorKind::EmptyString => String::from_str(
                "cannot parse error from empty string",
            ),
            ParseMPDErrorKind::UnexpectedSymbol => String::from_str(
                "encountered an unexpected symbol",
            ),
            ParseMPDErrorKind::ExpectedNumber => String::from_str("expected a number"),
            ParseMPDErrorKind::InvalidCode => String::from_str("got invalid error code"),
        };
        match self.expected_char {
            Some(c) => {
                s.append(", expected char '");
                crate::strutil::push_char(&mut s, c);
                s.append("'");
            },
            None => {},
        }
        s.append(" at position ");
        let num = fmt_u64(self.pos as u64);
        s.append(num.as_str());
        proof {
            if self.expected_char is None {
                assert(parse_error_text(self.kind) + Seq::<char>::empty() =~= parse_error_text(
                    self.kind,
                ));
            }
        }
        s
    }
}

/// The states of the `ACK` parser, in the order the grammar visits them.
#[derive(Clone, Copy, Debug, PartialEq, Eq, Structural)]
pub enum AckPhase {
    /// Matching the literal `ACK`.
    FindAck,
    /// Skipping spaces up to `[`.
    FindLeftBracket,
    /// Reading the digits of the error code, up to `@`.
    GetErrorType,
    /// Reading the digits of the list index, up to `]`.
    GetListNum,
    /// Skipping spaces up to `{`.
    FindLeftBrace,
    /// Reading the failed command, up to `}`.
    GetFailedCommand,
    /// Past the closing brace; the rest of the line is the message.
    Done,
}

/// The parser's intermediate state: the phase, where the field being read
/// began, and the fields gathered so far.
pub struct AckState {
    pub phase: AckPhase,
    pub begin: int,
    pub kind: Option<ErrorKind>,
    pub list_num: Option<u8>,
    pub command: Option<Seq<char>>,
}

/// The parser's verdict on a whole line.
pub enum AckParse {
    /// The line is a well-formed `ACK` error with these fields.
    Parsed { kind: ErrorKind, list_num: u8, command: Seq<char>, message: Seq<char> },
    /// The line could not be interpreted.
    Rejected { kind: ParseMPDErrorKind, pos: int, expected: Option<char> },
}

pub open spec fn ack_literal_char(i: int) -> char {
    if i == 0 {
        'A'
    } else if i == 1 {
        'C'
    } else {
        'K'
    }
}

pub open spec fn ack_init() -> AckState {
    AckState { phase: AckPhase::FindAck, begin: 0, kind: None, list_num: None, command: None }
}

/// One transition of the parser on the character at position `i`, or the
/// rejection it aborts with.
pub open spec fn step(s: Seq<char>, st: AckState, i: int) -> Result<AckState, AckParse> {
    let c = s[i];
    match st.phase {
        AckPhase::FindAck => {
            if i < 3 {
                if c != ack_literal_char(i) {
                    Err(
                        AckParse::Rejected {
                            kind: ParseMPDErrorKind::UnexpectedSymbol,
                            pos: i,
                            expected: Some(ack_literal_char(i)),
                        },
                    )
                } else {
                    Ok(st)
                }
            } else {
                // The character right after the literal is not examined; the
                // bracket search begins at the next one.
                Ok(AckState { phase: AckPhase::FindLeftBracket, ..st })
            }
        },
        AckPhase::FindLeftBracket => {
            if c == '[' {
                Ok(AckState { phase: AckPhase::GetErrorType, begin: i + 1, ..st })
            } else if c == ' ' {
                Ok(st)
            } else {
                Err(
                    AckParse::Rejected {
                        kind: ParseMPDErrorKind::UnexpectedSymbol,
                        pos: i,
                        expected: Some('['),
                    },
                )
            }
        },
        AckPhase::GetErrorType => {
            if c == '@' {
                let code = spec_from_code(dec_value(s.subrange(st.begin, i)));
                if code is None {
                    // An empty, overflowing or unmapped code is rejected at
                    // the position where its digits began.
                    Err(
                        AckParse::Rejected {
                            kind: ParseMPDErrorKind::InvalidCode,
                            pos: st.begin,
                            expected: None,
                        },
                    )
                } else {
                    Ok(AckState { phase: AckPhase::GetListNum, begin: i + 1, kind: code, ..st })
                }
            } else if is_digit(c) {
                Ok(st)
            } else {
                Err(
                    AckParse::Rejected {
                        kind: ParseMPDErrorKind::ExpectedNumber,
                        pos: i,
                        expected: None,
                    },
                )
            }
        },
        AckPhase::GetListNum => {
            if c == ']' {
                let ds = s.subrange(st.begin, i);
                if ds.len() == 0 || dec_value(ds) > 255 {
                    Err(
                        AckParse::Rejected {
                            kind: ParseMPDErrorKind::ExpectedNumber,
                            pos: i,
                            expected: None,
                        },
                    )
                } else {
                    Ok(
                        AckState {
                            phase: AckPhase::FindLeftBrace,
                            list_num: Some(dec_value(ds) as u8),
                            ..st
                        },
                    )
                }
            } else if is_digit(c) {
                Ok(st)
            } else {
                Err(
                    AckParse::Rejected {
                        kind: ParseMPDErrorKind::ExpectedNumber,
                        pos: i,
                        expected: None,
                    },
                )
            }
        },
        AckPhase::FindLeftBrace => {
            if c == '{' {
                Ok(AckState { phase: AckPhase::GetFailedCommand, begin: i + 1, ..st })
            } else if c == ' ' {
                Ok(st)
            } else {
                Err(
                    AckParse::Rejected {
                        kind: ParseMPDErrorKind::UnexpectedSymbol,
                        pos: i,
                        expected: Some('{'),
                    },
                )
            }
        },
        AckPhase::GetFailedCommand => {
            if c == '}' {
                Ok(
                    AckState {
                        phase: AckPhase::Done,
                        begin: i + 1,
                        command: Some(s.subrange(st.begin, i)),
                        ..st
                    },
                )
            } else {
                Ok(st)
            }
        },
        AckPhase::Done => Ok(st),
    }
}

/// The verdict once scanning has stopped: everything after the last consumed
/// field, trimmed, is the message; a parse that did not gather all three
/// fields, or an empty message, is rejected at the line's last position.
pub open spec fn finalize(s: Seq<char>, st: AckState) -> AckParse {
    let message = trim_seq(s.subrange(st.begin, s.len() as int));
    match (st.kind, st.list_num, st.command) {
        (Some(kind), Some(list_num), Some(command)) => {
            if message.len() == 0 {
                AckParse::Rejected {
                    kind: ParseMPDErrorKind::UnexpectedSymbol,
                    pos: s.len() - 1,
                    expected: None,
                }
            } else {
                AckParse::Parsed { kind, list_num, command, message }
            }
        },
        _ => AckParse::Rejected {
            kind: ParseMPDErrorKind::UnexpectedSymbol,
            pos: s.len() - 1,
            expected: None,
        },
    }
}

/// Runs the parser from position `i` in state `st` to its verdict.
pub open spec fn run(s: Seq<char>, i: int, st: AckState) -> AckParse
    decreases s.len() - i,
{
    if i >= s.len() || st.phase == AckPhase::Done {
        finalize(s, st)
    } else {
        match step(s, st, i) {
            Ok(st2) => run(s, i + 1, st2),
            Err(rej) => rej,
        }
    }
}

/// The verdict of the `ACK` parser on a whole line.
pub open spec fn parse_ack(s: Seq<char>) -> AckParse {
    if s.len() == 0 {
        AckParse::Rejected { kind: ParseMPDErrorKind::EmptyString, pos: 0, expected: None }
    } else {
        run(s, 0, ack_init())
    }
}

impl Error {
    /// Creates a new error with a static message.
    pub fn new(kind: ErrorKind, message: &'static str) -> (r: Self)
        ensures
            r.kind == kind,
            r.detail matches ErrorDetail::Message(m) && m@ == message@,
    {
        Self { kind, detail: ErrorDetail::Message(message.to_owned()) }
    }

    /// Creates a new error with an owned message.
    pub fn new_string(kind: ErrorKind, message: String) -> (r: Self)
        ensures
            r.kind == kind,
            r.detail matches ErrorDetail::Message(m) && m@ == message@,
    {
        Self { kind, detail: ErrorDetail::Message(message) }
    }

    /// Parses the backend's `ACK` error line.  Returns the parsed error, or,
    /// when the line cannot be interpreted, the [`ParseMPDError`] saying
    /// where and why — exactly as [`parse_ack`] judges the line.
    pub fn try_from_mpd(output: String) -> (r: Result<Self, ParseMPDError>)
        ensures
            match r {
                Ok(e) => e.detail matches ErrorDetail::Parsed { command, list_num, message }
                    && parse_ack(output@) == (AckParse::Parsed {
                    kind: e.kind,
                    list_num,
                    command: command@,
                    message: message@,
                }),
                Err(p) => parse_ack(output@) == (AckParse::Rejected {
                    kind: p.kind,
                    pos: p.pos as int,
                    expected: p.expected_char,
                }),
            },
    {
        let s: &str = output.as_str();
        let n = s.unicode_len();
        if n == 0 {
            return Err(ParseMPDError::new(ParseMPDErrorKind::EmptyString, 0));
        }
        let mut phase = AckPhase::FindAck;
        let mut begin: usize = 0;
        let mut kind: Option<ErrorKind> = None;
        let mut list_num: Option<u8> = None;
        let mut command: Option<String> = None;
        let ghost mut st = ack_init();
        let mut i: usize = 0;
        while i < n && phase != AckPhase::Done
            invariant
                i <= n,
                n == s@.len(),
                s@ == output@,
                begin <= i,
                st == (AckState {
                    phase,
                    begin: begin as int,
                    kind,
                    list_num,
                    command: match command {
                        Some(c) => Some(c@),
                        None => None,
                    },
                }),
                phase == AckPhase::GetErrorType || phase == AckPhase::GetListNum ==> all_digits(
                    s@.subrange(begin as int, i as int),
                ),
                run(s@, 0, ack_init()) == run(s@, i as int, st),
            decreases n - i,
        {
            let c = s.get_char(i);
            match phase {
                AckPhase::FindAck => {
                    if i < 3 {
                        let expect: char = if i == 0 {
                            'A'
                        } else if i == 1 {
                            'C'
                        } else {
                            'K'
                        };
                        if c != expect {
                            return Err(ParseMPDError::expected(expect, i));
                        }
                    } else {
                        phase = AckPhase::FindLeftBracket;
                        proof {
                            st = AckState { phase: AckPhase::FindLeftBracket, ..st };
                        }
                    }
                },
                AckPhase::FindLeftBracket => {
                    if c == '[' {
                        begin = i + 1;
                        phase = AckPhase::GetErrorType;
                        proof {
                            st = AckState {
                                phase: AckPhase::GetErrorType,
                                begin: i + 1 as int,
                                ..st
                            };
                            assert(s@.subrange(i + 1, i + 1) =~= Seq::<char>::empty());
                        }
                    } else if c != ' ' {
                        return Err(ParseMPDError::expected('[', i));
                    }
                },
                AckPhase::GetErrorType => {
                    if c == '@' {
                        let ds = s.substring_char(begin, i);
                        let code: Option<ErrorKind> = match parse_u8(ds) {
                            Some(v) => ErrorKind::from_code(v),
                            None => None,
                        };
                        proof {
                            let dsv = s@.subrange(begin as int, i as int);
                            crate::strutil::lemma_dec_value_nonneg(dsv);
                            if spec_parse_u8(dsv) is None {
                                // All characters scanned so far are digits, so
                                // the parse can only have failed on emptiness
                                // or overflow; either way no kind matches.
                                assert(spec_from_code(dec_value(dsv)) is None);
                            }
                            assert(code == spec_from_code(dec_value(dsv)));
                        }
                        match code {
                            None => {
                                return Err(
                                    ParseMPDError::new(ParseMPDErrorKind::InvalidCode, begin),
                                );
                            },
                            Some(k) => {
                                kind = Some(k);
                                begin = i + 1;
                                phase = AckPhase::GetListNum;
                                proof {
                                    st = AckState {
                                        phase: AckPhase::GetListNum,
                                        begin: i + 1 as int,
                                        kind: Some(k),
                                        ..st
                                    };
                                    assert(s@.subrange(i + 1, i + 1) =~= Seq::<char>::empty());
                                }
                            },
                        }
                    } else if '0' <= c && c <= '9' {
                        proof {
                            assert(s@.subrange(begin as int, i + 1) =~= s@.subrange(
                                begin as int,
                                i as int,
                            ).push(s@[i as int]));
                        }
                    } else {
                        return Err(ParseMPDError::number(i));
                    }
                },
                AckPhase::GetListNum => {
                    if c == ']' {
                        let ds = s.substring_char(begin, i);
                        match parse_u8(ds) {
                            Some(v) => {
                                list_num = Some(v);
                                phase = AckPhase::FindLeftBrace;
                                proof {
                                    st = AckState {
                                        phase: AckPhase::FindLeftBrace,
                                        list_num: Some(v),
                                        ..st
                                    };
                                }
                            },
                            None => {
                                return Err(ParseMPDError::number(i));
                            },
                        }
                    } else if '0' <= c && c <= '9' {
                        proof {
                            assert(s@.subrange(begin as int, i + 1) =~= s@.subrange(
                                begin as int,
                                i as int,
                            ).push(s@[i as int]));
                        }
                    } else {
                        return Err(ParseMPDError::number(i));
                    }
                },
                AckPhase::FindLeftBrace => {
                    if c == '{' {
                        begin = i + 1;
                        phase = AckPhase::GetFailedCommand;
                        proof {
                            st = AckState {
                                phase: AckPhase::GetFailedCommand,
                                begin: i + 1 as int,
                                ..st
                            };
                        }
                    } else if c != ' ' {
                        return Err(ParseMPDError::expected('{', i));
                    }
                },
                AckPhase::GetFailedCommand => {
                    if c == '}' {
                        let ghost field_start = begin as int;
                        let cmd = s.substring_char(begin, i);
                        command = Some(cmd.to_owned());
                        begin = i + 1;
                        phase = AckPhase::Done;
                        proof {
                            st = AckState {
                                phase: AckPhase::Done,
                                begin: i + 1 as int,
                                command: Some(s@.subrange(field_start, i as int)),
                                ..st
                            };
                        }
                    }
                },
                AckPhase::Done => {
                    // unreachable: the loop condition stops at this phase
                },
            }
            i = i + 1;
        }
        let message = trimmed(s.substring_char(begin, n));
        proof {
            assert(run(s@, i as int, st) == finalize(s@, st));
        }
        if message.as_str().unicode_len() == 0 {
            return Err(ParseMPDError::new(ParseMPDErrorKind::UnexpectedSymbol, n - 1));
        }
        match (kind, list_num, command) {
            (Some(k), Some(ln), Some(cmd)) => {
                Ok(
                    Self {
                        kind: k,
                        detail: ErrorDetail::Parsed { command: cmd, list_num: ln, message },
                    },
                )
            },
            _ => Err(ParseMPDError::new(ParseMPDErrorKind::UnexpectedSymbol, n - 1)),
        }
    }
}

} // verus!
