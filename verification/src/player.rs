//! The decision logic behind the published player controls: what command
//! each remote call turns into, given the cached status.  The calls
//! themselves, and the bus they arrive on, live outside this crate; these
//! functions take the cached [`Status`] and plain arguments and answer
//! with plain decisions.

use vstd::prelude::*;
use vstd::string::*;

use crate::status::{PlayState, Repeat, Song, Status};
use crate::strutil::{dec_rep, eq_str, fmt_u64, push_char};

verus! {

/// What the next-track call does.
#[derive(PartialEq, Eq, Structural, Debug, Clone, Copy)]
pub enum NextAction {
    /// Jump to the song with this id.
    PlaySong(u32),
    /// No next song and repeat is off: degrade to pausing.
    Pause,
    /// Nothing to do.
    Nothing,
}

/// Decides the next-track call: jump to the known next song; without one,
/// pause when repeat is off, and otherwise do nothing.
pub fn next_action(s: &Status) -> (r: NextAction)
    ensures
        r == (match s.next_song {
            Some(id) => NextAction::PlaySong(id),
            None => {
                if s.repeat == Repeat::Off {
                    NextAction::Pause
                } else {
                    NextAction::Nothing
                }
            },
        }),
{
    match s.next_song {
        Some(id) => NextAction::PlaySong(id),
        None => {
            if matches!(s.repeat, Repeat::Off) {
                NextAction::Pause
            } else {
                NextAction::Nothing
            }
        },
    }
}

/// What the previous-track call does.
#[derive(PartialEq, Eq, Structural, Debug, Clone, Copy)]
pub enum PrevAction {
    /// Step back and keep playback paused, as one atomic list.
    PreviousKeepPaused,
    /// Step back.
    Previous,
    /// Empty queue and repeat off: degrade to stopping.
    Stop,
    /// Nothing to do.
    Nothing,
}

/// Decides the previous-track call: with anything queued, step back —
/// keeping playback paused when it was not playing; with an empty queue,
/// stop when repeat is off and otherwise do nothing.
pub fn previous_action(s: &Status) -> (r: PrevAction)
    ensures
        r == (if s.playlist_length >= 1 {
            if s.state != PlayState::Playing {
                PrevAction::PreviousKeepPaused
            } else {
                PrevAction::Previous
            }
        } else if s.repeat == Repeat::Off {
            PrevAction::Stop
        } else {
            PrevAction::Nothing
        }),
{
    if s.playlist_length >= 1 {
        if !matches!(s.state, PlayState::Playing) {
            PrevAction::PreviousKeepPaused
        } else {
            PrevAction::Previous
        }
    } else if matches!(s.repeat, Repeat::Off) {
        PrevAction::Stop
    } else {
        PrevAction::Nothing
    }
}

/// Whether the toggle-playback call is allowed: only while a song is
/// loaded.
pub fn play_pause_allowed(s: &Status) -> (r: bool)
    ensures
        r == (s.current_song is Some),
{
    s.current_song.is_some()
}

/// The magnitude of a signed microsecond offset.
pub open spec fn offset_abs(offset_us: i64) -> u64 {
    if offset_us >= 0 {
        offset_us as u64
    } else {
        (-(offset_us as int)) as u64
    }
}

fn offset_magnitude(offset_us: i64) -> (r: u64)
    ensures
        r == offset_abs(offset_us),
{
    if offset_us >= 0 {
        offset_us as u64
    } else if offset_us == i64::MIN {
        9223372036854775808u64
    } else {
        (-offset_us) as u64
    }
}

/// Addition on microsecond counters that wraps around like the machine's.
pub open spec fn wrap_add64(a: u64, b: u64) -> u64 {
    if a + b <= u64::MAX {
        (a + b) as u64
    } else {
        (a + b - 0x10000000000000000) as u64
    }
}

fn wrapping_sum(a: u64, b: u64) -> (r: u64)
    ensures
        r == wrap_add64(a, b),
{
    match a.checked_add(b) {
        Some(s) => s,
        None => a - (u64::MAX - b) - 1,
    }
}

/// The cached elapsed time, zero when none is known.
pub open spec fn elapsed_or_zero(s: Status) -> u64 {
    match s.elapsed {
        Some(us) => us,
        None => 0,
    }
}

/// What a relative seek does.
#[derive(PartialEq, Eq, Structural, Debug, Clone, Copy)]
pub enum SeekAction {
    /// The offset runs past the song's end: treat it as the next-track
    /// call.
    Next,
    /// Seek by this magnitude, in this direction.
    Relative(bool, u64),
}

/// Decides a relative seek: when the offset's magnitude added to the
/// elapsed time runs past the song's duration, the seek becomes the
/// next-track call; otherwise it is sent as a signed offset.  An offset
/// of zero counts as backward.
pub open spec fn spec_seek_action(s: Status, offset_us: i64) -> SeekAction {
    let mag = offset_abs(offset_us);
    match s.duration {
        Some(d) => {
            if elapsed_or_zero(s) + mag > d {
                SeekAction::Next
            } else {
                SeekAction::Relative(offset_us > 0, mag)
            }
        },
        None => SeekAction::Relative(offset_us > 0, mag),
    }
}

pub fn seek_action(s: &Status, offset_us: i64) -> (r: SeekAction)
    ensures
        r == spec_seek_action(*s, offset_us),
{
    let mag = offset_magnitude(offset_us);
    let elapsed: u64 = match s.elapsed {
        Some(us) => us,
        None => 0,
    };
    match s.duration {
        Some(d) => {
            let past_end = match elapsed.checked_add(mag) {
                Some(sum) => sum > d,
                None => true,
            };
            if past_end {
                SeekAction::Next
            } else {
                SeekAction::Relative(offset_us > 0, mag)
            }
        },
        None => SeekAction::Relative(offset_us > 0, mag),
    }
}

/// The position the seeked signal reports after a relative seek: the
/// elapsed time plus the magnitude, wrapped like the machine's counter.
pub open spec fn spec_seek_signal(s: Status, offset_us: i64) -> i64 {
    wrap_add64(elapsed_or_zero(s), offset_abs(offset_us)) as i64
}

pub fn seek_signal(s: &Status, offset_us: i64) -> (r: i64)
    ensures
        r == spec_seek_signal(*s, offset_us),
{
    let elapsed: u64 = match s.elapsed {
        Some(us) => us,
        None => 0,
    };
    let sum = wrapping_sum(elapsed, offset_magnitude(offset_us));
    #[verifier::truncate] (sum as i64)
}

/// Decides the set-position call: the target in microseconds when it is
/// honoured, `None` when it is silently ignored — a negative position, no
/// recognizable track, a position past the duration, or a track id that
/// is not the current song's.
pub open spec fn spec_set_position_target(s: Status, track_id: Option<u32>, pos_us: i64) -> Option<
    u64,
> {
    if pos_us < 0 {
        None
    } else {
        match track_id {
            None => None,
            Some(tid) => {
                let pos = pos_us as u64;
                if (match s.duration {
                    Some(d) => pos > d,
                    None => false,
                }) {
                    None
                } else {
                    match s.current_song {
                        None => None,
                        Some(song) => {
                            if song.id != tid {
                                None
                            } else {
                                Some(pos)
                            }
                        },
                    }
                }
            },
        }
    }
}

pub fn set_position_target(s: &Status, track_id: Option<u32>, pos_us: i64) -> (r: Option<u64>)
    ensures
        r == spec_set_position_target(*s, track_id, pos_us),
{
    if pos_us < 0 {
        return None;
    }
    let tid = match track_id {
        None => {
            return None;
        },
        Some(tid) => tid,
    };
    let pos = pos_us as u64;
    let past_end = match s.duration {
        Some(d) => pos > d,
        None => false,
    };
    if past_end {
        return None;
    }
    match &s.current_song {
        None => None,
        Some(song) => {
            if song.id != tid {
                None
            } else {
                Some(pos)
            }
        },
    }
}

/// Reads a loop-status name into the backend's two flags, `(repeat,
/// single)`; `None` for a name outside the vocabulary.
pub fn loop_flags(name: &str) -> (r: Option<(bool, bool)>)
    ensures
        r == (if name@ == "None"@ {
            Some((false, false))
        } else if name@ == "Playlist"@ {
            Some((true, false))
        } else if name@ == "Track"@ {
            Some((true, true))
        } else {
            None::<(bool, bool)>
        }),
{
    if eq_str(name, "None") {
        Some((false, false))
    } else if eq_str(name, "Playlist") {
        Some((true, false))
    } else if eq_str(name, "Track") {
        Some((true, true))
    } else {
        None
    }
}

/// The published name of the playback state.
pub fn playback_status_str(s: &Status) -> (r: &'static str)
    ensures
        r@ == (match s.state {
            PlayState::Playing => "Playing"@,
            PlayState::Paused => "Paused"@,
            PlayState::Stopped => "Stopped"@,
        }),
{
    match s.state {
        PlayState::Playing => "Playing",
        PlayState::Paused => "Paused",
        PlayState::Stopped => "Stopped",
    }
}

/// The published name of the repeat mode.
pub fn loop_status_str(s: &Status) -> (r: &'static str)
    ensures
        r@ == (match s.repeat {
            Repeat::Off => "None"@,
            Repeat::On => "Playlist"@,
            Repeat::Single => "Track"@,
        }),
{
    match s.repeat {
        Repeat::Off => "None",
        Repeat::On => "Playlist",
        Repeat::Single => "Track",
    }
}

pub fn can_go_next(s: &Status) -> (r: bool)
    ensures
        r == (s.next_song is Some),
{
    s.next_song.is_some()
}

pub fn can_go_previous(s: &Status) -> (r: bool)
    ensures
        r == (s.playlist_length > 1),
{
    s.playlist_length > 1
}

pub fn can_play(s: &Status) -> (r: bool)
    ensures
        r == (s.current_song is Some),
{
    s.current_song.is_some()
}

pub fn can_pause(s: &Status) -> (r: bool)
    ensures
        r == (s.current_song is Some),
{
    s.current_song.is_some()
}

pub fn can_seek(s: &Status) -> (r: bool)
    ensures
        r == (s.current_song is Some),
{
    s.current_song.is_some()
}

pub fn can_control(s: &Status) -> (r: bool)
    ensures
        r == true,
{
    true
}

/// The metadata record published for the current song: every field the
/// fixed vocabulary maps one-to-one onto the song's, plus the derived
/// track path and file URL.  The publishing layer turns the present
/// fields into its keyed map.
#[derive(Debug)]
pub struct Metadata {
    /// The track's published object path, derived from its id.
    pub track_path: String,
    /// The `file://` URL of the track under the music directory.
    pub url: String,
    /// The song's duration in microseconds.
    pub length_us: Option<i64>,
    /// The song's year written as a timestamp.
    pub content_created: Option<String>,
    pub art_url: Option<String>,
    pub album: Option<String>,
    pub disc: Option<u8>,
    pub title: Option<String>,
    pub track: Option<u8>,
    pub artists: Vec<String>,
    pub album_artists: Vec<String>,
    pub comments: Vec<String>,
    pub composers: Vec<String>,
    pub genres: Vec<String>,
}

/// The base of every published track path.
pub fn track_path_base() -> (r: &'static str)
    ensures
        r@ == "/org/musicpd/mpris/"@,
{
    "/org/musicpd/mpris/"
}

/// The published object path of a track id.
pub fn track_id_path(id: u32) -> (r: String)
    ensures
        r@ == "/org/musicpd/mpris/"@ + dec_rep(id as int),
{
    let mut s = String::from_str("/org/musicpd/mpris/");
    let num = fmt_u64(id as u64);
    s.append(num.as_str());
    s
}

/// Reads a track id back out of its published object path: the number
/// after the fixed base, when the path has that shape.
pub fn track_path_to_id(path: &str) -> (r: Option<u32>)
    ensures
        r == (if crate::strutil::seq_starts_with(path@, "/org/musicpd/mpris/"@) {
            crate::strutil::spec_parse_u32(path@.skip("/org/musicpd/mpris/"@.len() as int))
        } else {
            None::<u32>
        }),
{
    let base = track_path_base();
    if !crate::strutil::starts_with_str(path, base) {
        return None;
    }
    let bn = base.unicode_len();
    let n = path.unicode_len();
    let rest = path.substring_char(bn, n);
    proof {
        assert(rest@ =~= path@.skip("/org/musicpd/mpris/"@.len() as int));
    }
    crate::strutil::parse_u32(rest)
}

/// Builds the metadata record for the cached status: `None` when no song
/// is loaded.
pub fn metadata_of(s: &Status, music_dir: &str) -> (r: Option<Metadata>)
    ensures
        match s.current_song {
            None => r is None,
            Some(song) => r matches Some(m) && ({
                &&& m.track_path@ == "/org/musicpd/mpris/"@ + dec_rep(song.id as int)
                &&& m.url@ == "file://"@ + music_dir@ + "/"@ + song.uri@
                &&& m.length_us == (match s.duration {
                    Some(d) => Some(d as i64),
                    None => None::<i64>,
                })
                &&& (match song.date {
                    Some(d) => m.content_created matches Some(c) && c@ == dec_rep(d as int)
                        + "-01-01T00:00+0000"@,
                    None => m.content_created is None,
                })
                &&& m.art_url == song.cover
                &&& m.album == song.album
                &&& m.disc == song.disc
                &&& m.title == song.title
                &&& m.track == song.track
                &&& m.artists@ == song.artists@
                &&& m.album_artists@ == song.album_artists@
                &&& m.comments@ == song.comments@
                &&& m.composers@ == song.composers@
                &&& m.genres@ == song.genres@
            }),
        },
{
    let song = match &s.current_song {
        None => {
            return None;
        },
        Some(song) => song,
    };
    let mut url = String::from_str("file://");
    url.append(music_dir);
    url.append("/");
    url.append(song.uri.as_str());
    let content_created: Option<String> = match song.date {
        Some(d) => {
            let mut c = fmt_u64(d as u64);
            c.append("-01-01T00:00+0000");
            Some(c)
        },
        None => None,
    };
    let length_us: Option<i64> = match s.duration {
        Some(d) => Some(#[verifier::truncate] (d as i64)),
        None => None,
    };
    Some(
        Metadata {
            track_path: track_id_path(song.id),
            url,
            length_us,
            content_created,
            art_url: clone_opt_string(&song.cover),
            album: clone_opt_string(&song.album),
            disc: song.disc,
            title: clone_opt_string(&song.title),
            track: song.track,
            artists: clone_strings(&song.artists),
            album_artists: clone_strings(&song.album_artists),
            comments: clone_strings(&song.comments),
            composers: clone_strings(&song.composers),
            genres: clone_strings(&song.genres),
        },
    )
}

fn clone_opt_string(v: &Option<String>) -> (r: Option<String>)
    ensures
        r == *v,
{
    match v {
        Some(s) => Some(s.clone()),
        None => None,
    }
}

fn clone_strings(v: &Vec<String>) -> (r: Vec<String>)
    ensures
        r@ == v@,
{
    let mut out: Vec<String> = Vec::new();
    let n = v.len();
    let mut i: usize = 0;
    while i < n
        invariant
            0 <= i <= n,
            n == v@.len(),
            out@.len() == i,
            forall|j: int| 0 <= j < i ==> #[trigger] out@[j] == v@[j],
        decreases n - i,
    {
        let s: &String = &v[i];
        out.push(s.clone());
        i = i + 1;
    }
    proof {
        assert(out@ =~= v@);
    }
    out
}

} // verus!
