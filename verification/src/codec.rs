//! The wire codec for the line-oriented backend protocol.
//!
//! A request is one line; [`encode_command`] appends the newline terminator.
//! A response is a run of `key: value` lines closed by a line that is
//! exactly `OK`, or aborted by a line starting with `ACK`.  The
//! [`ResponseDecoder`] consumes a response line by line: the caller reads
//! one line from the connection, strips its terminator, and feeds it in;
//! the decoder says whether to read on, and collects the pairs.

use vstd::prelude::*;
use vstd::string::*;

use crate::error::{parse_ack, AckParse, Error, ErrorDetail, ErrorKind};
use crate::strutil::{eq_str, push_char, seq_starts_with, starts_with_str, trim_seq, trimmed};

verus! {

/// How a single response line is read: the success terminator, the failure
/// marker, a key-value pair, or a line that fits none of these.
pub enum LineClass {
    /// The line is exactly `OK`.
    Terminator,
    /// The line starts with `ACK`.
    AckLine,
    /// The line splits at its first `": "` into this key and this value
    /// (the value trimmed of surrounding whitespace).
    Pair(Seq<char>, Seq<char>),
    /// The line has no `": "` separator.
    Malformed,
}

/// The position of the first `": "` at or after `i`, if any.
pub open spec fn find_sep_from(l: Seq<char>, i: int) -> Option<int>
    decreases l.len() - i,
{
    if i < 0 || i + 2 > l.len() {
        None
    } else if l[i] == ':' && l[i + 1] == ' ' {
        Some(i)
    } else {
        find_sep_from(l, i + 1)
    }
}

pub open spec fn classify(l: Seq<char>) -> LineClass {
    if l == "OK"@ {
        LineClass::Terminator
    } else if seq_starts_with(l, "ACK"@) {
        LineClass::AckLine
    } else {
        match find_sep_from(l, 0) {
            Some(i) => LineClass::Pair(l.subrange(0, i), trim_seq(l.subrange(i + 2, l.len() as int))),
            None => LineClass::Malformed,
        }
    }
}

/// The error kind with which a response aborts on an `ACK` line: the parsed
/// application kind, or `Other` when the `ACK` line itself cannot be parsed.
pub open spec fn abort_kind(l: Seq<char>) -> ErrorKind {
    match parse_ack(l) {
        AckParse::Parsed { kind, .. } => kind,
        AckParse::Rejected { .. } => ErrorKind::Other,
    }
}

/// How many consecutive malformed lines a response tolerates before it
/// fails as a whole.
pub open spec fn malformed_limit() -> int {
    3
}

/// What the decoder answers for one fed line.
pub enum DecodeStep {
    /// The line was consumed; feed the next one.
    Continue,
    /// The line was the success terminator; the response is complete.
    Complete,
    /// The response failed: an `ACK` error, or too many malformed lines.
    Failed(Error),
}

/// Finds the first `": "` in a line.
fn find_kv_sep(line: &str) -> (r: Option<usize>)
    ensures
        match r {
            Some(p) => find_sep_from(line@, 0) == Some(p as int) && p + 2 <= line@.len(),
            None => find_sep_from(line@, 0) is None,
        },
{
    let n = line.unicode_len();
    if n < 2 {
        return None;
    }
    let mut i: usize = 0;
    while i + 1 < n
        invariant
            0 <= i <= n - 1,
            2 <= n == line@.len(),
            find_sep_from(line@, 0) == find_sep_from(line@, i as int),
        decreases n - i,
    {
        if line.get_char(i) == ':' && line.get_char(i + 1) == ' ' {
            return Some(i);
        }
        i = i + 1;
    }
    proof {
        assert(find_sep_from(line@, i as int) is None);
    }
    None
}

/// Collects the key-value pairs of one response, fed line by line.
pub struct ResponseDecoder {
    pairs: Vec<(String, String)>,
    misses: u8,
}

/// The views of a pair list's keys and values.
pub open spec fn pairs_view(ps: Seq<(String, String)>) -> Seq<(Seq<char>, Seq<char>)> {
    ps.map_values(|p: (String, String)| (p.0@, p.1@))
}

impl ResponseDecoder {
    /// The pairs gathered so far, by view.
    pub closed spec fn pairs_seq(&self) -> Seq<(Seq<char>, Seq<char>)> {
        pairs_view(self.pairs@)
    }

    /// How many malformed lines have been seen in a row.
    pub closed spec fn miss_count(&self) -> int {
        self.misses as int
    }

    /// A decoder that may still be fed: the malformed-line budget is not
    /// exhausted.
    pub open spec fn wf(&self) -> bool {
        self.miss_count() < malformed_limit()
    }

    pub fn new() -> (r: Self)
        ensures
            r.pairs_seq() == Seq::<(Seq<char>, Seq<char>)>::empty(),
            r.miss_count() == 0,
            r.wf(),
    {
        let r = ResponseDecoder { pairs: Vec::new(), misses: 0 };
        proof {
            assert(r.pairs_seq() =~= Seq::<(Seq<char>, Seq<char>)>::empty());
        }
        r
    }

    /// Consumes the pairs of a completed response.
    pub fn into_pairs(self) -> (r: Vec<(String, String)>)
        ensures
            pairs_view(r@) == self.pairs_seq(),
    {
        self.pairs
    }

    /// Feeds one response line, without its line terminator.  Answers
    /// whether the response goes on, is complete, or has failed, exactly as
    /// [`classify`] reads the line: a terminator completes it, an `ACK`
    /// line fails it with the parsed error, a pair is appended and resets
    /// the malformed-line count, and a third consecutive malformed line
    /// fails the response with a `KeyValueError`.
    pub fn feed_line(&mut self, line: &str) -> (r: DecodeStep)
        requires
            old(self).wf(),
        ensures
            match classify(line@) {
                LineClass::Terminator => r is Complete && *final(self) == *old(self),
                LineClass::AckLine => *final(self) == *old(self) && (match parse_ack(line@) {
                    AckParse::Parsed { kind, list_num, command, message } => r matches DecodeStep::Failed(e)
                        && e.kind == kind && (e.detail matches ErrorDetail::Parsed {
                        command: c,
                        list_num: n,
                        message: m,
                    } && c@ == command && n == list_num && m@ == message),
                    AckParse::Rejected { .. } => r matches DecodeStep::Failed(e) && e.kind
                        == ErrorKind::Other,
                }),
                LineClass::Pair(k, v) => r is Continue && final(self).pairs_seq() == old(self).pairs_seq().push((k, v)) && final(self).miss_count() == 0 && final(self).wf(),
                LineClass::Malformed => {
                    if old(self).miss_count() + 1 >= malformed_limit() {
                        r matches DecodeStep::Failed(e) && e.kind == ErrorKind::KeyValueError
                    } else {
                        r is Continue && final(self).pairs_seq() == old(self).pairs_seq() && final(self).miss_count() == old(self).miss_count() + 1 && final(self).wf()
                    }
                },
            },
    {
        if eq_str(line, "OK") {
            return DecodeStep::Complete;
        }
        if starts_with_str(line, "ACK") {
            let e = match Error::try_from_mpd(line.to_owned()) {
                Ok(e) => e,
                Err(_) => Error::new(
                    ErrorKind::Other,
                    "could not parse the error response from the backend",
                ),
            };
            return DecodeStep::Failed(e);
        }
        let n = line.unicode_len();
        let sep = find_kv_sep(line);
        match sep {
            Some(p) => {
                let key = line.substring_char(0, p).to_owned();
                let value = trimmed(line.substring_char(p + 2, n));
                let ghost prior = self.pairs_seq();
                self.pairs.push((key, value));
                self.misses = 0;
                proof {
                    assert(self.pairs_seq() =~= prior.push((key@, value@)));
                }
                DecodeStep::Continue
            },
            None => {
                self.misses = self.misses + 1;
                if self.misses >= 3 {
                    DecodeStep::Failed(
                        Error::new(
                            ErrorKind::KeyValueError,
                            "failed to split 3 lines in a row into key-value pairs",
                        ),
                    )
                } else {
                    DecodeStep::Continue
                }
            },
        }
    }
}

/// The verdict on a whole response, given as a list of lines.
pub enum DecodeOutcome {
    /// A terminator was reached; these are the pairs before it.
    Done(Seq<(Seq<char>, Seq<char>)>),
    /// The response aborted with an error of this kind.
    Aborted(ErrorKind),
    /// The lines ran out before a terminator.
    Unterminated,
}

/// Decodes the lines from position `i` on, with the pairs and the
/// consecutive-malformed-line count gathered so far.
pub open spec fn decode_from(
    ls: Seq<Seq<char>>,
    i: int,
    pairs: Seq<(Seq<char>, Seq<char>)>,
    misses: int,
) -> DecodeOutcome
    decreases ls.len() - i,
{
    if i < 0 || i >= ls.len() {
        DecodeOutcome::Unterminated
    } else {
        match classify(ls[i]) {
            LineClass::Terminator => DecodeOutcome::Done(pairs),
            LineClass::AckLine => DecodeOutcome::Aborted(abort_kind(ls[i])),
            LineClass::Pair(k, v) => decode_from(ls, i + 1, pairs.push((k, v)), 0),
            LineClass::Malformed => {
                if misses + 1 >= malformed_limit() {
                    DecodeOutcome::Aborted(ErrorKind::KeyValueError)
                } else {
                    decode_from(ls, i + 1, pairs, misses + 1)
                }
            },
        }
    }
}

pub open spec fn lines_view(ls: Seq<String>) -> Seq<Seq<char>> {
    ls.map_values(|l: String| l@)
}

/// The verdict on a whole response.
pub open spec fn decode_spec(ls: Seq<Seq<char>>) -> DecodeOutcome {
    decode_from(ls, 0, Seq::empty(), 0)
}

/// Decodes a complete response given as its lines (each without its line
/// terminator): the key-value pairs before the `OK` line, or the error the
/// response aborted with.  Lines that run out before a terminator are a
/// protocol error.
pub fn decode_lines(lines: &Vec<String>) -> (r: Result<Vec<(String, String)>, Error>)
    ensures
        match r {
            Ok(ps) => decode_spec(lines_view(lines@)) == DecodeOutcome::Done(pairs_view(ps@)),
            Err(e) => match decode_spec(lines_view(lines@)) {
                DecodeOutcome::Aborted(k) => e.kind == k,
                DecodeOutcome::Unterminated => e.kind == ErrorKind::Other,
                DecodeOutcome::Done(_) => false,
            },
        },
{
    let ghost ls = lines_view(lines@);
    let mut dec = ResponseDecoder::new();
    let mut i: usize = 0;
    proof {
        assert(ls.len() == lines@.len());
    }
    while i < lines.len()
        invariant
            0 <= i <= lines.len(),
            ls == lines_view(lines@),
            ls.len() == lines@.len(),
            dec.wf(),
            decode_spec(ls) == decode_from(ls, i as int, dec.pairs_seq(), dec.miss_count()),
        decreases lines.len() - i,
    {
        proof {
            assert(ls[i as int] == lines@[i as int]@);
        }
        let step = dec.feed_line(lines[i].as_str());
        match step {
            DecodeStep::Continue => {
                i = i + 1;
            },
            DecodeStep::Complete => {
                return Ok(dec.into_pairs());
            },
            DecodeStep::Failed(e) => {
                return Err(e);
            },
        }
    }
    Err(Error::new(ErrorKind::Other, "the response ended without a terminator line"))
}

/// Encodes one command for the wire by appending the line terminator.  The
/// protocol has no escaping, so a command must not contain a newline.
pub fn encode_command(command: &str) -> (r: String)
    requires
        forall|i: int| 0 <= i < command@.len() ==> command@[i] != '\n',
    ensures
        r@ == command@.push('\n'),
{
    let mut s = command.to_owned();
    push_char(&mut s, '\n');
    s
}

/// The key and value of a line that splits at its first `": "`.
pub open spec fn pair_of(l: Seq<char>) -> (Seq<char>, Seq<char>) {
    match find_sep_from(l, 0) {
        Some(i) => (l.subrange(0, i), trim_seq(l.subrange(i + 2, l.len() as int))),
        None => (Seq::empty(), Seq::empty()),
    }
}

/// Every well-formed response decodes to exactly its pairs, in order: lines
/// that each split as `key: value`, followed by the `OK` terminator, yield
/// one pair per line, each line's own key and value, in the order fed.
pub proof fn lemma_decode_pairs(ls: Seq<Seq<char>>)
    requires
        ls.len() > 0,
        ls.last() == "OK"@,
        forall|i: int| 0 <= i < ls.len() - 1 ==> classify(#[trigger] ls[i]) is Pair,
    ensures
        decode_spec(ls) == DecodeOutcome::Done(
            ls.subrange(0, ls.len() - 1).map_values(|l: Seq<char>| pair_of(l)),
        ),
{
    lemma_decode_pairs_from(ls, 0, Seq::empty());
    assert(Seq::<(Seq<char>, Seq<char>)>::empty() + ls.subrange(0, ls.len() - 1).map_values(
        |l: Seq<char>| pair_of(l),
    ) =~= ls.subrange(0, ls.len() - 1).map_values(|l: Seq<char>| pair_of(l)));
}

proof fn lemma_decode_pairs_from(ls: Seq<Seq<char>>, i: int, pairs: Seq<(Seq<char>, Seq<char>)>)
    requires
        ls.len() > 0,
        ls.last() == "OK"@,
        0 <= i <= ls.len() - 1,
        forall|j: int| 0 <= j < ls.len() - 1 ==> classify(#[trigger] ls[j]) is Pair,
    ensures
        decode_from(ls, i, pairs, 0) == DecodeOutcome::Done(
            pairs + ls.subrange(i, ls.len() - 1).map_values(|l: Seq<char>| pair_of(l)),
        ),
    decreases ls.len() - i,
{
    let f = |l: Seq<char>| pair_of(l);
    if i == ls.len() - 1 {
        assert(classify(ls[i]) is Terminator);
        assert(pairs + ls.subrange(i, ls.len() - 1).map_values(f) =~= pairs);
    } else {
        let cl = classify(ls[i]);
        match cl {
            LineClass::Pair(k, v) => {
                assert((k, v) == pair_of(ls[i]));
                lemma_decode_pairs_from(ls, i + 1, pairs.push((k, v)));
                assert(pairs.push((k, v)) + ls.subrange(i + 1, ls.len() - 1).map_values(f)
                    =~= pairs + ls.subrange(i, ls.len() - 1).map_values(f));
            },
            _ => {
                assert(false);
            },
        }
    }
}

/// A response whose malformed lines never come three in a row still
/// succeeds: two unsplittable lines right before the terminator are
/// tolerated and contribute no pair.
pub proof fn lemma_two_malformed_tolerated(a: Seq<char>, b: Seq<char>)
    requires
        classify(a) is Malformed,
        classify(b) is Malformed,
    ensures
        decode_spec(seq![a, b, "OK"@]) == DecodeOutcome::Done(Seq::<(Seq<char>, Seq<char>)>::empty()),
{
    let ls = seq![a, b, "OK"@];
    let none: Seq<(Seq<char>, Seq<char>)> = Seq::empty();
    assert(ls[0] == a && ls[1] == b && ls[2] == "OK"@);
    assert(classify(ls[2]) is Terminator);
    assert(decode_from(ls, 2, none, 2) == DecodeOutcome::Done(none));
    assert(decode_from(ls, 1, none, 1) == DecodeOutcome::Done(none));
    assert(decode_from(ls, 0, none, 0) == DecodeOutcome::Done(none));
}

/// Three unsplittable lines before any terminator fail the whole response
/// with a `KeyValueError`, whatever follows them.
pub proof fn lemma_three_malformed_fail(a: Seq<char>, b: Seq<char>, c: Seq<char>, rest: Seq<Seq<char>>)
    requires
        classify(a) is Malformed,
        classify(b) is Malformed,
        classify(c) is Malformed,
    ensures
        decode_spec(seq![a, b, c] + rest) == DecodeOutcome::Aborted(ErrorKind::KeyValueError),
{
    let ls = seq![a, b, c] + rest;
    let none: Seq<(Seq<char>, Seq<char>)> = Seq::empty();
    assert(ls[0] == a && ls[1] == b && ls[2] == c);
    assert(decode_from(ls, 2, none, 2) == DecodeOutcome::Aborted(ErrorKind::KeyValueError));
    assert(decode_from(ls, 1, none, 1) == DecodeOutcome::Aborted(ErrorKind::KeyValueError));
    assert(decode_from(ls, 0, none, 0) == DecodeOutcome::Aborted(ErrorKind::KeyValueError));
}

} // verus!
