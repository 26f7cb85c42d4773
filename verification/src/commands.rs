//! The commands this client sends to the backend, each built as the exact
//! line the protocol asks for.  Durations travel as seconds with
//! millisecond precision; relative seeks carry a sign; several commands
//! can be framed as one atomic list between the begin and end markers.

use vstd::prelude::*;
use vstd::string::*;

use crate::codec::lines_view;
use crate::strutil::{dec3, dec_rep, fmt_u64, fmt_u64_pad3};

verus! {

/// How many bytes of binary payload the backend may send at once; set
/// right after the handshake.
pub const SIZE_LIMIT: usize = 1024;

pub fn status_request() -> (r: String)
    ensures
        r@ == "status"@,
{
    String::from_str("status")
}

pub fn currentsong_request() -> (r: String)
    ensures
        r@ == "currentsong"@,
{
    String::from_str("currentsong")
}

pub fn ping_request() -> (r: String)
    ensures
        r@ == "ping"@,
{
    String::from_str("ping")
}

/// The long-poll command naming the watched subsystems.
pub fn idle_request() -> (r: String)
    ensures
        r@ == "idle stored_playlist playlist player mixer options"@,
{
    String::from_str("idle stored_playlist playlist player mixer options")
}

/// The post-handshake configuration command setting the binary payload
/// ceiling to [`SIZE_LIMIT`] bytes.
pub fn binarylimit_request() -> (r: String)
    ensures
        r@ == "binarylimit 1024"@,
{
    String::from_str("binarylimit 1024")
}

pub fn play_command() -> (r: String)
    ensures
        r@ == "play"@,
{
    String::from_str("play")
}

pub fn stop_command() -> (r: String)
    ensures
        r@ == "stop"@,
{
    String::from_str("stop")
}

/// Toggles playback: pauses when playing, plays when paused.
pub fn toggle_command() -> (r: String)
    ensures
        r@ == "pause"@,
{
    String::from_str("pause")
}

pub fn pause_command() -> (r: String)
    ensures
        r@ == "pause 1"@,
{
    String::from_str("pause 1")
}

/// Jumps to the song with this id, at its beginning.
pub fn play_song_command(id: u32) -> (r: String)
    ensures
        r@ == "seekid "@ + dec_rep(id as int) + " 0"@,
{
    let mut s = String::from_str("seekid ");
    let num = fmt_u64(id as u64);
    s.append(num.as_str());
    s.append(" 0");
    s
}

/// A duration written for the wire: whole seconds, a dot, and exactly
/// three millisecond digits.
pub open spec fn seconds_millis(us: int) -> Seq<char> {
    dec_rep(us / 1000000) + "."@ + dec3((us / 1000) % 1000)
}

/// Seeks to an absolute position, given in microseconds, in the current
/// song.
pub fn seek_command(position_us: u64) -> (r: String)
    ensures
        r@ == "seekcur "@ + seconds_millis(position_us as int),
{
    let mut s = String::from_str("seekcur ");
    append_seconds(&mut s, position_us);
    s
}

/// Seeks relative to the current position by this many microseconds, in
/// the given direction.
pub fn seek_relative_command(is_positive: bool, offset_us: u64) -> (r: String)
    ensures
        r@ == "seekcur "@ + seq![if is_positive { '+' } else { '-' }] + seconds_millis(
            offset_us as int,
        ),
{
    let mut s = String::from_str("seekcur ");
    crate::strutil::push_char(&mut s, if is_positive { '+' } else { '-' });
    append_seconds(&mut s, offset_us);
    s
}

fn append_seconds(s: &mut String, us: u64)
    ensures
        final(s)@ == old(s)@ + seconds_millis(us as int),
{
    let secs = fmt_u64(us / 1000000);
    s.append(secs.as_str());
    s.append(".");
    let millis = fmt_u64_pad3((us / 1000) % 1000);
    s.append(millis.as_str());
}

/// Sets the output volume, in percent.
pub fn setvol_command(volume: u8) -> (r: String)
    ensures
        r@ == "setvol "@ + dec_rep(volume as int),
{
    let mut s = String::from_str("setvol ");
    let num = fmt_u64(volume as u64);
    s.append(num.as_str());
    s
}

/// Turns shuffling on or off.
pub fn random_command(on: bool) -> (r: String)
    ensures
        r@ == (if on {
            "random 1"@
        } else {
            "random 0"@
        }),
{
    if on {
        String::from_str("random 1")
    } else {
        String::from_str("random 0")
    }
}

pub fn repeat_command(on: bool) -> (r: String)
    ensures
        r@ == (if on {
            "repeat 1"@
        } else {
            "repeat 0"@
        }),
{
    if on {
        String::from_str("repeat 1")
    } else {
        String::from_str("repeat 0")
    }
}

pub fn single_command(on: bool) -> (r: String)
    ensures
        r@ == (if on {
            "single 1"@
        } else {
            "single 0"@
        }),
{
    if on {
        String::from_str("single 1")
    } else {
        String::from_str("single 0")
    }
}

pub fn previous_command() -> (r: String)
    ensures
        r@ == "previous"@,
{
    String::from_str("previous")
}

/// Wraps commands between the begin and end markers so the backend
/// executes them atomically as one list.
pub fn command_list(commands: &Vec<String>) -> (r: Vec<String>)
    ensures
        r@.len() == commands@.len() + 2,
        r@[0]@ == "command_list_begin"@,
        r@[r@.len() - 1]@ == "command_list_end"@,
        forall|j: int| 0 <= j < commands@.len() ==> (#[trigger] r@[j + 1])@ == commands@[j]@,
{
    let mut out: Vec<String> = Vec::new();
    out.push(String::from_str("command_list_begin"));
    let n = commands.len();
    let mut i: usize = 0;
    while i < n
        invariant
            0 <= i <= n,
            n == commands.len(),
            out@.len() == i + 1,
            out@[0]@ == "command_list_begin"@,
            forall|j: int| 0 <= j < i ==> (#[trigger] out@[j + 1])@ == commands@[j]@,
        decreases n - i,
    {
        let line: &String = &commands[i];
        out.push(line.clone());
        i = i + 1;
    }
    out.push(String::from_str("command_list_end"));
    out
}

/// The atomic pair of commands that sets the repeat mode: the `repeat`
/// and `single` flags together, framed as one list.
pub fn loop_status_commands(repeat_on: bool, single_on: bool) -> (r: Vec<String>)
    ensures
        r@.len() == 4,
        r@[0]@ == "command_list_begin"@,
        r@[1]@ == (if repeat_on {
            "repeat 1"@
        } else {
            "repeat 0"@
        }),
        r@[2]@ == (if single_on {
            "single 1"@
        } else {
            "single 0"@
        }),
        r@[3]@ == "command_list_end"@,
{
    let mut inner: Vec<String> = Vec::new();
    inner.push(repeat_command(repeat_on));
    inner.push(single_command(single_on));
    command_list(&inner)
}

/// The atomic pair of commands that steps to the previous song and keeps
/// playback paused.
pub fn previous_paused_commands() -> (r: Vec<String>)
    ensures
        r@.len() == 4,
        r@[0]@ == "command_list_begin"@,
        r@[1]@ == "previous"@,
        r@[2]@ == "pause"@,
        r@[3]@ == "command_list_end"@,
{
    let mut inner: Vec<String> = Vec::new();
    inner.push(previous_command());
    inner.push(toggle_command());
    command_list(&inner)
}

/// The bytes of several command lines sent in one write: each line with
/// its terminator, in order.
pub open spec fn encoded_lines(ls: Seq<Seq<char>>) -> Seq<char>
    decreases ls.len(),
{
    if ls.len() == 0 {
        Seq::empty()
    } else {
        encoded_lines(ls.drop_last()) + ls.last().push('\n')
    }
}

/// Encodes a list of command lines for the wire, each with its newline
/// terminator.  No single line may contain a newline of its own.
pub fn encode_batch(commands: &Vec<String>) -> (r: String)
    requires
        forall|i: int, j: int|
            0 <= i < commands@.len() && 0 <= j < commands@[i]@.len() ==> #[trigger] commands@[i]@[j]
                != '\n',
    ensures
        r@ == encoded_lines(lines_view(commands@)),
{
    let mut out = String::new();
    let n = commands.len();
    let mut i: usize = 0;
    while i < n
        invariant
            0 <= i <= n,
            n == commands.len(),
            out@ == encoded_lines(lines_view(commands@.subrange(0, i as int))),
        decreases n - i,
    {
        out.append(commands[i].as_str());
        crate::strutil::push_char(&mut out, '\n');
        proof {
            let ls = lines_view(commands@.subrange(0, i + 1));
            assert(ls.drop_last() =~= lines_view(commands@.subrange(0, i as int)));
            assert(ls.last() == commands@[i as int]@);
            assert(out@ =~= encoded_lines(ls.drop_last()) + ls.last().push('\n'));
        }
        i = i + 1;
    }
    proof {
        assert(commands@.subrange(0, n as int) =~= commands@);
        if n == 0 {
            assert(out@ =~= Seq::<char>::empty());
        }
    }
    out
}

} // verus!
