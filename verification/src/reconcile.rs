//! The status reconciler: turns a raw `status` snapshot into a fresh typed
//! [`Status`], decides whether the current song's metadata must be fetched
//! anew, and diffs the new status against the old one into an ordered list
//! of [`StateChanged`] notifications.
//!
//! The reconciler is pure: the caller queries the backend, hands the
//! key-value pairs in, asks [`needs_song_fetch`] whether a `currentsong`
//! follow-up is due, and applies the snapshot with [`apply_status`].

use vstd::prelude::*;
use vstd::string::*;

use crate::codec::pairs_view;
use crate::status::{same_song, PlayState, Repeat, Song, StateChanged, Status};
use crate::strutil::{
    eq_str, parse_seconds_micros, parse_u32, parse_u64, parse_u8, spec_parse_seconds_micros,
    spec_parse_u32, spec_parse_u64, spec_parse_u8,
};

verus! {

/// The typed content of one raw `status` snapshot, before it is reconciled
/// against the cached status.  Every field carries the last value its key
/// took in the snapshot, or the field's default when the key is absent.
#[derive(Debug, Clone, Copy)]
pub struct RawStatus {
    /// The playback state; an unrecognized value leaves the previous one.
    pub state: PlayState,
    /// Whether any `single` key in the snapshot was positive.
    pub single: bool,
    /// Whether the last `repeat` key was positive.
    pub repeat_on: bool,
    /// The last `volume` value, 0 when unparsable, 100 when absent.
    pub volume: u8,
    /// Whether the last `random` key was positive.
    pub shuffle: bool,
    /// The last `elapsed` value in microseconds, `None` when absent or
    /// unparsable.
    pub elapsed: Option<u64>,
    /// The last `duration` value in microseconds, `None` when absent or
    /// unparsable.
    pub duration: Option<u64>,
    /// The last `songid` value, `u32::MAX` when unparsable, `None` when
    /// absent.
    pub songid: Option<u32>,
    /// The last `nextsongid` value, `None` when absent or unparsable.
    pub next_song: Option<u32>,
    /// The last `playlistlength` value, 0 when unparsable or absent.
    pub playlist_length: u32,
}

/// The snapshot before any field is read: the defaults of a fresh
/// [`Status`].
pub open spec fn raw_init() -> RawStatus {
    RawStatus {
        state: PlayState::Paused,
        single: false,
        repeat_on: false,
        volume: 100,
        shuffle: false,
        elapsed: None,
        duration: None,
        songid: None,
        next_song: None,
        playlist_length: 0,
    }
}

/// A numeric value read as the backend sends flags and counts: the parsed
/// number, or 0 when it does not parse.
pub open spec fn num_or_zero(v: Seq<char>) -> int {
    match spec_parse_u64(v) {
        Some(n) => n as int,
        None => 0,
    }
}

/// One `key: value` field of a `status` snapshot applied to the fields
/// gathered so far.
pub open spec fn apply_raw_field(r: RawStatus, k: Seq<char>, v: Seq<char>) -> RawStatus {
    if k == "state"@ {
        if v == "play"@ {
            RawStatus { state: PlayState::Playing, ..r }
        } else if v == "pause"@ {
            RawStatus { state: PlayState::Paused, ..r }
        } else if v == "stop"@ {
            RawStatus { state: PlayState::Stopped, ..r }
        } else {
            r
        }
    } else if k == "single"@ {
        if num_or_zero(v) > 0 {
            RawStatus { single: true, ..r }
        } else {
            r
        }
    } else if k == "repeat"@ {
        RawStatus { repeat_on: num_or_zero(v) > 0, ..r }
    } else if k == "duration"@ {
        RawStatus { duration: spec_parse_seconds_micros(v), ..r }
    } else if k == "elapsed"@ {
        RawStatus { elapsed: spec_parse_seconds_micros(v), ..r }
    } else if k == "songid"@ {
        RawStatus {
            songid: Some(
                match spec_parse_u32(v) {
                    Some(n) => n,
                    None => u32::MAX,
                },
            ),
            ..r
        }
    } else if k == "volume"@ {
        RawStatus {
            volume: match spec_parse_u8(v) {
                Some(n) => n,
                None => 0,
            },
            ..r
        }
    } else if k == "random"@ {
        RawStatus { shuffle: num_or_zero(v) > 0, ..r }
    } else if k == "nextsongid"@ {
        RawStatus { next_song: spec_parse_u32(v), ..r }
    } else if k == "playlistlength"@ {
        RawStatus {
            playlist_length: match spec_parse_u32(v) {
                Some(n) => n,
                None => 0,
            },
            ..r
        }
    } else {
        r
    }
}

/// The snapshot that a whole `status` response denotes: its fields folded
/// over the defaults, first pair first.
pub open spec fn raw_of_pairs(ps: Seq<(Seq<char>, Seq<char>)>) -> RawStatus
    decreases ps.len(),
{
    if ps.len() == 0 {
        raw_init()
    } else {
        apply_raw_field(raw_of_pairs(ps.drop_last()), ps.last().0, ps.last().1)
    }
}

/// Reads the key-value pairs of a `status` response into a typed snapshot,
/// exactly as [`raw_of_pairs`] folds them.
pub fn parse_status_fields(pairs: &Vec<(String, String)>) -> (r: RawStatus)
    ensures
        r == raw_of_pairs(pairs_view(pairs@)),
{
    let ghost pv = pairs_view(pairs@);
    let mut raw = RawStatus {
        state: PlayState::Paused,
        single: false,
        repeat_on: false,
        volume: 100,
        shuffle: false,
        elapsed: None,
        duration: None,
        songid: None,
        next_song: None,
        playlist_length: 0,
    };
    let n = pairs.len();
    proof {
        assert(pv.subrange(0, 0) =~= Seq::<(Seq<char>, Seq<char>)>::empty());
    }
    let mut i: usize = 0;
    while i < n
        invariant
            0 <= i <= n,
            n == pairs.len(),
            pv == pairs_view(pairs@),
            pv.len() == n,
            raw == raw_of_pairs(pv.subrange(0, i as int)),
        decreases n - i,
    {
        proof {
            reveal_strlit("state");
            reveal_strlit("play");
            reveal_strlit("pause");
            reveal_strlit("stop");
            reveal_strlit("single");
            reveal_strlit("repeat");
            reveal_strlit("duration");
            reveal_strlit("elapsed");
            reveal_strlit("songid");
            reveal_strlit("volume");
            reveal_strlit("random");
            reveal_strlit("nextsongid");
            reveal_strlit("playlistlength");
            assert(pv.subrange(0, i + 1).drop_last() =~= pv.subrange(0, i as int));
            assert(pv[i as int] == (pairs@[i as int].0@, pairs@[i as int].1@));
        }
        let k: &String = &pairs[i].0;
        let v: &String = &pairs[i].1;
        let ghost prior = raw;
        let ghost fld = apply_raw_field(prior, pv[i as int].0, pv[i as int].1);
        if eq_str(k.as_str(), "state") {
            if eq_str(v.as_str(), "play") {
                raw.state = PlayState::Playing;
            } else if eq_str(v.as_str(), "pause") {
                raw.state = PlayState::Paused;
            } else if eq_str(v.as_str(), "stop") {
                raw.state = PlayState::Stopped;
            }
            proof {
                assert(raw == fld);
            }
        } else if eq_str(k.as_str(), "single") {
            if num_above_zero(v.as_str()) {
                raw.single = true;
            }
            proof {
                assert(raw == fld);
            }
        } else if eq_str(k.as_str(), "repeat") {
            raw.repeat_on = num_above_zero(v.as_str());
            proof {
                assert(raw == fld);
            }
        } else if eq_str(k.as_str(), "duration") {
            raw.duration = parse_seconds_micros(v.as_str());
            proof {
                assert(raw == fld);
            }
        } else if eq_str(k.as_str(), "elapsed") {
            raw.elapsed = parse_seconds_micros(v.as_str());
            proof {
                assert(raw == fld);
            }
        } else if eq_str(k.as_str(), "songid") {
            raw.songid = Some(
                match parse_u32(v.as_str()) {
                    Some(id) => id,
                    None => u32::MAX,
                },
            );
            proof {
                assert(raw == fld);
            }
        } else if eq_str(k.as_str(), "volume") {
            raw.volume = match parse_u8(v.as_str()) {
                Some(n2) => n2,
                None => 0,
            };
            proof {
                assert(raw == fld);
            }
        } else if eq_str(k.as_str(), "random") {
            raw.shuffle = num_above_zero(v.as_str());
            proof {
                assert(raw == fld);
            }
        } else if eq_str(k.as_str(), "nextsongid") {
            raw.next_song = parse_u32(v.as_str());
            proof {
                assert(raw == fld);
            }
        } else if eq_str(k.as_str(), "playlistlength") {
            raw.playlist_length = match parse_u32(v.as_str()) {
                Some(n2) => n2,
                None => 0,
            };
            proof {
                assert(raw == fld);
            }
        } else {
            proof {
                assert(raw == fld);
            }
        }
        i = i + 1;
    }
    proof {
        assert(pv.subrange(0, n as int) =~= pv);
    }
    raw
}

/// Whether a flag value counts as set: it parses to a positive number.
fn num_above_zero(v: &str) -> (r: bool)
    ensures
        r == (num_or_zero(v@) > 0),
{
    match parse_u64(v) {
        Some(n) => n > 0,
        None => false,
    }
}

/// The id that the cached status answers for the current song: the song's
/// id, or 0 when none is cached.
pub open spec fn cached_song_id(s: Status) -> u32 {
    match s.current_song {
        Some(song) => song.id,
        None => 0,
    }
}

/// Whether a snapshot demands a `currentsong` follow-up query: it names a
/// song id different from the cached one.  When the ids agree the cached
/// metadata is carried over and no query is issued.
pub open spec fn spec_needs_song_fetch(old: Status, raw: RawStatus) -> bool {
    match raw.songid {
        Some(id) => id != cached_song_id(old),
        None => false,
    }
}

pub fn needs_song_fetch(old: &Status, raw: &RawStatus) -> (r: bool)
    ensures
        r == spec_needs_song_fetch(*old, *raw),
{
    match raw.songid {
        Some(id) => {
            let cached: u32 = match &old.current_song {
                Some(song) => song.id,
                None => 0,
            };
            id != cached
        },
        None => false,
    }
}

/// The repeat mode that the two backend flags denote: `single` wins over
/// `repeat`, because repeating one track refines repeating the playlist.
pub open spec fn repeat_of_flags(single: bool, repeat_on: bool) -> Repeat {
    if single {
        Repeat::Single
    } else if repeat_on {
        Repeat::On
    } else {
        Repeat::Off
    }
}

/// Resolves the backend's two flags into the repeat mode, exactly as
/// [`repeat_of_flags`] does.
pub fn repeat_mode(single: bool, repeat_on: bool) -> (r: Repeat)
    ensures
        r == repeat_of_flags(single, repeat_on),
{
    if single {
        Repeat::Single
    } else if repeat_on {
        Repeat::On
    } else {
        Repeat::Off
    }
}

/// The status that a snapshot produces over the cached one: every field
/// from the snapshot, and the current song fetched anew when the id
/// changed, carried over otherwise.
pub open spec fn spec_new_status(old: Status, raw: RawStatus, fetched: Option<Song>) -> Status {
    Status {
        state: raw.state,
        volume: raw.volume,
        repeat: repeat_of_flags(raw.single, raw.repeat_on),
        shuffle: raw.shuffle,
        elapsed: raw.elapsed,
        duration: raw.duration,
        current_song: match raw.songid {
            Some(id) => {
                if id != cached_song_id(old) {
                    fetched
                } else {
                    old.current_song
                }
            },
            None => None,
        },
        next_song: raw.next_song,
        playlist_length: raw.playlist_length,
    }
}

/// The new elapsed position as the signed microsecond count the
/// notification carries.
pub open spec fn elapsed_signal(new: Status) -> i64 {
    match new.elapsed {
        Some(us) => us as i64,
        None => 0,
    }
}

/// Whether the playlist's emptiness flipped: the length crossed the zero
/// boundary, so the previous-track capability changed.
pub open spec fn prev_changed(old: Status, new: Status) -> bool {
    old.playlist_length != new.playlist_length && ((new.playlist_length < 1) != (
    old.playlist_length < 1))
}

/// The notifications one reconciliation pass emits, in their fixed order:
/// Position, PlayState, Volume, Repeat, Shuffle, Song, Playlist.  Every
/// applicable one fires; none excludes another.
pub open spec fn spec_events(old: Status, new: Status) -> Seq<StateChanged> {
    let position: Seq<StateChanged> = if old.state != PlayState::Playing && new.state
        != PlayState::Playing && old.elapsed != new.elapsed && new.elapsed is Some {
        seq![StateChanged::Position(elapsed_signal(new))]
    } else {
        Seq::empty()
    };
    let play_state: Seq<StateChanged> = if old.state != new.state {
        seq![StateChanged::PlayState]
    } else {
        Seq::empty()
    };
    let volume: Seq<StateChanged> = if old.volume != new.volume {
        seq![StateChanged::Volume]
    } else {
        Seq::empty()
    };
    let repeat: Seq<StateChanged> = if old.repeat != new.repeat {
        seq![StateChanged::Repeat]
    } else {
        Seq::empty()
    };
    let shuffle: Seq<StateChanged> = if old.shuffle != new.shuffle {
        seq![StateChanged::Shuffle]
    } else {
        Seq::empty()
    };
    let song: Seq<StateChanged> = if !same_song(old.current_song, new.current_song) {
        seq![
            StateChanged::Song(prev_changed(old, new), old.next_song != new.next_song),
        ]
    } else {
        Seq::empty()
    };
    let playlist: Seq<StateChanged> = if (old.next_song is Some) != (new.next_song is Some)
        || old.playlist_length != new.playlist_length {
        seq![StateChanged::Playlist]
    } else {
        Seq::empty()
    };
    position + play_state + volume + repeat + shuffle + song + playlist
}

/// Whether the pass may stand for a seek: the song and the play state did
/// not change and the backend keeps playing.  The idle loop then treats a
/// `player` change notice as a position change.
pub open spec fn spec_could_be_seeking(old: Status, new: Status) -> bool {
    same_song(old.current_song, new.current_song) && old.state == new.state && new.state
        == PlayState::Playing
}

/// Applies a parsed snapshot to the cached status: returns the new status,
/// the change notifications in their fixed order, and whether the pass may
/// stand for a seek.  When the snapshot demands a metadata fetch (see
/// [`needs_song_fetch`]), the caller must supply the fetched song.
#[verifier::rlimit(30)]
pub fn apply_status(old: Status, raw: &RawStatus, fetched: Option<Song>) -> (r: (
    Status,
    Vec<StateChanged>,
    bool,
))
    requires
        spec_needs_song_fetch(old, *raw) ==> fetched is Some,
    ensures
        r.0 == spec_new_status(old, *raw, fetched),
        r.1@ == spec_events(old, r.0),
        r.2 == spec_could_be_seeking(old, r.0),
{
    let ghost gold = old;
    let old_state = old.state;
    let old_volume = old.volume;
    let old_repeat = old.repeat;
    let old_shuffle = old.shuffle;
    let old_elapsed = old.elapsed;
    let old_next = old.next_song;
    let old_len = old.playlist_length;
    let old_song_id: Option<u32> = match &old.current_song {
        Some(s) => Some(s.id),
        None => None,
    };
    let cached_id: u32 = match old_song_id {
        Some(id) => id,
        None => 0,
    };
    let current_song: Option<Song> = match raw.songid {
        Some(id) => {
            if id != cached_id {
                fetched
            } else {
                old.current_song
            }
        },
        None => None,
    };
    let new_song_id: Option<u32> = match &current_song {
        Some(s) => Some(s.id),
        None => None,
    };
    let repeat = if raw.single {
        Repeat::Single
    } else if raw.repeat_on {
        Repeat::On
    } else {
        Repeat::Off
    };
    let new_status = Status {
        state: raw.state,
        volume: raw.volume,
        repeat,
        shuffle: raw.shuffle,
        elapsed: raw.elapsed,
        duration: raw.duration,
        current_song,
        next_song: raw.next_song,
        playlist_length: raw.playlist_length,
    };
    proof {
        assert(new_status == spec_new_status(gold, *raw, fetched));
    }
    let song_same: bool = match (old_song_id, new_song_id) {
        (None, None) => true,
        (Some(a), Some(b)) => a == b,
        _ => false,
    };
    proof {
        assert(song_same == same_song(gold.current_song, new_status.current_song));
    }
    let events = diff_events(
        Ghost(gold),
        old_state,
        old_volume,
        old_repeat,
        old_shuffle,
        old_elapsed,
        old_next,
        old_len,
        song_same,
        &new_status,
    );
    let could_be_seeking = song_same && old_state == new_status.state && match new_status.state {
        PlayState::Playing => true,
        _ => false,
    };
    (new_status, events, could_be_seeking)
}

/// Diffs the cached status (handed over as its plain fields) against the
/// freshly built one into the ordered notification list.
fn diff_events(
    Ghost(gold): Ghost<Status>,
    old_state: PlayState,
    old_volume: u8,
    old_repeat: Repeat,
    old_shuffle: bool,
    old_elapsed: Option<u64>,
    old_next: Option<u32>,
    old_len: u32,
    song_same: bool,
    new_status: &Status,
) -> (r: Vec<StateChanged>)
    requires
        old_state == gold.state,
        old_volume == gold.volume,
        old_repeat == gold.repeat,
        old_shuffle == gold.shuffle,
        old_elapsed == gold.elapsed,
        old_next == gold.next_song,
        old_len == gold.playlist_length,
        song_same == same_song(gold.current_song, new_status.current_song),
    ensures
        r@ == spec_events(gold, *new_status),
{
    let not_playing = match (old_state, new_status.state) {
        (PlayState::Playing, _) => false,
        (_, PlayState::Playing) => false,
        _ => true,
    };
    let c_position = not_playing && !opt_u64_eq(old_elapsed, new_status.elapsed)
        && new_status.elapsed.is_some();
    let position_value: i64 = match new_status.elapsed {
        Some(us) => #[verifier::truncate] (us as i64),
        None => 0,
    };
    proof {
        assert(position_value == elapsed_signal(*new_status));
    }
    let c_play_state = old_state != new_status.state;
    let c_volume = old_volume != new_status.volume;
    let c_repeat = old_repeat != new_status.repeat;
    let c_shuffle = old_shuffle != new_status.shuffle;
    let c_playlist = old_next.is_some() != new_status.next_song.is_some() || old_len
        != new_status.playlist_length;
    let prev = old_len != new_status.playlist_length && ((new_status.playlist_length < 1) != (
    old_len < 1));
    let next = !opt_u32_eq(old_next, new_status.next_song);
    proof {
        assert(prev == prev_changed(gold, *new_status));
        assert(next == (gold.next_song != new_status.next_song));
    }
    let mut events = single_event(c_position, StateChanged::Position(position_value));
    let mut part = single_event(c_play_state, StateChanged::PlayState);
    events.append(&mut part);
    let mut part = single_event(c_volume, StateChanged::Volume);
    events.append(&mut part);
    let mut part = single_event(c_repeat, StateChanged::Repeat);
    events.append(&mut part);
    let mut part = single_event(c_shuffle, StateChanged::Shuffle);
    events.append(&mut part);
    let mut part = single_event(!song_same, StateChanged::Song(prev, next));
    events.append(&mut part);
    let mut part = single_event(c_playlist, StateChanged::Playlist);
    events.append(&mut part);
    proof {
        assert(events@ == spec_events(gold, *new_status));
    }
    events
}

/// A one-notification list when the condition holds, an empty one
/// otherwise.
fn single_event(cond: bool, e: StateChanged) -> (r: Vec<StateChanged>)
    ensures
        r@ == (if cond {
            seq![e]
        } else {
            Seq::<StateChanged>::empty()
        }),
{
    let mut v: Vec<StateChanged> = Vec::new();
    if cond {
        v.push(e);
    }
    proof {
        if cond {
            assert(v@ =~= seq![e]);
        } else {
            assert(v@ =~= Seq::<StateChanged>::empty());
        }
    }
    v
}


fn opt_u64_eq(a: Option<u64>, b: Option<u64>) -> (r: bool)
    ensures
        r == (a == b),
{
    match (a, b) {
        (None, None) => true,
        (Some(x), Some(y)) => x == y,
        _ => false,
    }
}

fn opt_u32_eq(a: Option<u32>, b: Option<u32>) -> (r: bool)
    ensures
        r == (a == b),
{
    match (a, b) {
        (None, None) => true,
        (Some(x), Some(y)) => x == y,
        _ => false,
    }
}

/// Reconciliation is idempotent: applying one snapshot, and then applying
/// the same snapshot again over the status it produced, changes nothing
/// and emits no notification.  The one assumption is the backend's own
/// consistency: when the first pass fetched the current song, the fetched
/// metadata carries the id the snapshot named.
pub proof fn lemma_reconcile_idempotent(old: Status, raw: RawStatus, fetched: Option<Song>)
    requires
        spec_needs_song_fetch(old, raw) ==> (match (fetched, raw.songid) {
            (Some(song), Some(id)) => song.id == id,
            _ => false,
        }),
    ensures
        ({
            let first = spec_new_status(old, raw, fetched);
            spec_new_status(first, raw, None) == first && spec_events(
                first,
                spec_new_status(first, raw, None),
            ) == Seq::<StateChanged>::empty()
        }),
{
    let first = spec_new_status(old, raw, fetched);
    let second = spec_new_status(first, raw, None);
    assert(second.current_song == first.current_song);
    assert(second == first);
    assert(spec_events(first, second) =~= Seq::<StateChanged>::empty());
}

/// A snapshot whose song id equals the cached one asks for no metadata
/// fetch, and the cached song is carried over unchanged, whatever was
/// passed for the fetched song.
pub proof fn lemma_song_fetch_gated(old: Status, raw: RawStatus, fetched: Option<Song>)
    requires
        raw.songid matches Some(id) && id == cached_song_id(old),
    ensures
        !spec_needs_song_fetch(old, raw),
        spec_new_status(old, raw, fetched).current_song == old.current_song,
{
}

/// `single` overrides `repeat`: the backend's two flags map to the three
/// repeat modes with `single` taking precedence.
pub proof fn lemma_single_overrides_repeat()
    ensures
        repeat_of_flags(true, false) == Repeat::Single,
        repeat_of_flags(true, true) == Repeat::Single,
        repeat_of_flags(false, true) == Repeat::On,
        repeat_of_flags(false, false) == Repeat::Off,
{
}

} // verus!
