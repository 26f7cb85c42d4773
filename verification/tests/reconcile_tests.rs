//! The status reconciler: snapshot parsing, the song-fetch gate, the
//! single-over-repeat precedence, the emitted notifications and their
//! fixed order, and idempotence on a repeated snapshot.

use mpdris::reconcile::{apply_status, needs_song_fetch, parse_status_fields};
use mpdris::status::{PlayState, Repeat, Song, StateChanged, Status};

fn pairs(ps: &[(&str, &str)]) -> Vec<(String, String)> {
    ps.iter()
        .map(|(k, v)| (String::from(*k), String::from(*v)))
        .collect()
}

fn song_with_id(id: u32) -> Song {
    let mut song = Song::new();
    song.id = id;
    song
}

#[test]
fn snapshot_fields_are_parsed() {
    let raw = parse_status_fields(&pairs(&[
        ("state", "play"),
        ("volume", "80"),
        ("repeat", "1"),
        ("random", "1"),
        ("elapsed", "123.456"),
        ("duration", "300.5"),
        ("songid", "7"),
        ("nextsongid", "9"),
        ("playlistlength", "12"),
    ]));
    assert_eq!(raw.state, PlayState::Playing);
    assert_eq!(raw.volume, 80);
    assert!(raw.repeat_on);
    assert!(!raw.single);
    assert!(raw.shuffle);
    assert_eq!(raw.elapsed, Some(123_456_000));
    assert_eq!(raw.duration, Some(300_500_000));
    assert_eq!(raw.songid, Some(7));
    assert_eq!(raw.next_song, Some(9));
    assert_eq!(raw.playlist_length, 12);
}

#[test]
fn absent_fields_take_defaults() {
    let raw = parse_status_fields(&pairs(&[]));
    assert_eq!(raw.state, PlayState::Paused);
    assert_eq!(raw.volume, 100);
    assert!(!raw.repeat_on);
    assert!(!raw.single);
    assert!(!raw.shuffle);
    assert_eq!(raw.elapsed, None);
    assert_eq!(raw.duration, None);
    assert_eq!(raw.songid, None);
    assert_eq!(raw.next_song, None);
    assert_eq!(raw.playlist_length, 0);
}

#[test]
fn unparsable_numbers_fall_back() {
    let raw = parse_status_fields(&pairs(&[
        ("volume", "loud"),
        ("elapsed", "soon"),
        ("playlistlength", "many"),
        ("songid", "mystery"),
    ]));
    assert_eq!(raw.volume, 0);
    assert_eq!(raw.elapsed, None);
    assert_eq!(raw.playlist_length, 0);
    assert_eq!(raw.songid, Some(u32::MAX));
}

#[test]
fn single_overrides_repeat() {
    let old = Status::new();
    let raw = parse_status_fields(&pairs(&[("single", "1"), ("repeat", "0")]));
    let (s, _, _) = apply_status(old, &raw, None);
    assert_eq!(s.repeat, Repeat::Single);

    let raw = parse_status_fields(&pairs(&[("single", "0"), ("repeat", "1")]));
    let (s, _, _) = apply_status(Status::new(), &raw, None);
    assert_eq!(s.repeat, Repeat::On);

    let raw = parse_status_fields(&pairs(&[("single", "0"), ("repeat", "0")]));
    let (s, _, _) = apply_status(Status::new(), &raw, None);
    assert_eq!(s.repeat, Repeat::Off);

    let raw = parse_status_fields(&pairs(&[("single", "1"), ("repeat", "1")]));
    let (s, _, _) = apply_status(Status::new(), &raw, None);
    assert_eq!(s.repeat, Repeat::Single);
}

#[test]
fn song_change_is_gated_on_the_id() {
    let mut old = Status::new();
    let mut cached = song_with_id(7);
    cached.title = Some(String::from("cached title"));
    old.current_song = Some(cached);

    // The id matches the cached song: no follow-up query is due, and the
    // metadata is carried over untouched.
    let raw = parse_status_fields(&pairs(&[("songid", "7")]));
    assert!(!needs_song_fetch(&old, &raw));
    let (s, _, _) = apply_status(old, &raw, None);
    let carried = s.current_song.as_ref().unwrap();
    assert_eq!(carried.id, 7);
    assert_eq!(carried.title.as_deref(), Some("cached title"));

    // A different id demands the fetch and takes the fetched metadata.
    let raw = parse_status_fields(&pairs(&[("songid", "8")]));
    assert!(needs_song_fetch(&s, &raw));
    let mut fetched = song_with_id(8);
    fetched.title = Some(String::from("fresh title"));
    let (s2, _, _) = apply_status(s, &raw, Some(fetched));
    let current = s2.current_song.as_ref().unwrap();
    assert_eq!(current.id, 8);
    assert_eq!(current.title.as_deref(), Some("fresh title"));
}

#[test]
fn snapshot_without_songid_drops_the_song() {
    let mut old = Status::new();
    old.current_song = Some(song_with_id(7));
    let raw = parse_status_fields(&pairs(&[("state", "stop")]));
    assert!(!needs_song_fetch(&old, &raw));
    let (s, _, _) = apply_status(old, &raw, None);
    assert!(s.current_song.is_none());
}

#[test]
fn reconciliation_is_idempotent() {
    let snapshot = pairs(&[
        ("state", "play"),
        ("volume", "65"),
        ("repeat", "1"),
        ("elapsed", "10.5"),
        ("duration", "180.0"),
        ("songid", "3"),
        ("nextsongid", "4"),
        ("playlistlength", "5"),
    ]);
    let raw = parse_status_fields(&snapshot);
    let (first, first_events, _) = apply_status(Status::new(), &raw, Some(song_with_id(3)));
    assert!(!first_events.is_empty());

    // The same snapshot again: nothing changed, nothing fires.
    let raw_again = parse_status_fields(&snapshot);
    assert!(!needs_song_fetch(&first, &raw_again));
    let (second, second_events, _) = apply_status(first, &raw_again, None);
    assert_eq!(second_events, vec![]);
    assert_eq!(second.volume, 65);
    assert_eq!(second.current_song.as_ref().unwrap().id, 3);
}

#[test]
fn events_fire_in_fixed_order() {
    let mut old = Status::new();
    old.state = PlayState::Stopped;
    old.elapsed = Some(1_000_000);
    let raw = parse_status_fields(&pairs(&[
        ("state", "pause"),
        ("volume", "10"),
        ("repeat", "1"),
        ("random", "1"),
        ("elapsed", "2.0"),
        ("songid", "1"),
        ("nextsongid", "2"),
        ("playlistlength", "9"),
    ]));
    let (_, events, _) = apply_status(old, &raw, Some(song_with_id(1)));
    assert_eq!(
        events,
        vec![
            StateChanged::Position(2_000_000),
            StateChanged::PlayState,
            StateChanged::Volume,
            StateChanged::Repeat,
            StateChanged::Shuffle,
            StateChanged::Song(true, true),
            StateChanged::Playlist,
        ]
    );
}

#[test]
fn position_fires_only_while_not_playing() {
    let mut old = Status::new();
    old.state = PlayState::Playing;
    old.elapsed = Some(1_000_000);
    let raw = parse_status_fields(&pairs(&[("state", "play"), ("elapsed", "5.0")]));
    let (_, events, could_be_seeking) = apply_status(old, &raw, None);
    assert!(!events.contains(&StateChanged::Position(5_000_000)));
    assert!(could_be_seeking);
}

#[test]
fn song_event_flags_previous_and_next_changes() {
    let mut old = Status::new();
    old.playlist_length = 0;
    old.next_song = None;
    let raw = parse_status_fields(&pairs(&[
        ("songid", "1"),
        ("nextsongid", "2"),
        ("playlistlength", "3"),
    ]));
    let (_, events, _) = apply_status(old, &raw, Some(song_with_id(1)));
    // The queue's emptiness flipped and the next song appeared.
    assert!(events.contains(&StateChanged::Song(true, true)));

    let mut old = Status::new();
    old.playlist_length = 3;
    old.next_song = Some(2);
    old.current_song = Some(song_with_id(1));
    let raw = parse_status_fields(&pairs(&[
        ("songid", "2"),
        ("nextsongid", "2"),
        ("playlistlength", "3"),
    ]));
    let (_, events, _) = apply_status(old, &raw, Some(song_with_id(2)));
    assert!(events.contains(&StateChanged::Song(false, false)));
}

#[test]
fn vanished_elapsed_emits_no_position() {
    // The old status knew a position, the new snapshot reports none: the
    // position notification has no value to carry and stays silent.
    let mut old = Status::new();
    old.state = PlayState::Stopped;
    old.elapsed = Some(1_000_000);
    let raw = parse_status_fields(&pairs(&[("state", "stop")]));
    let (s, events, _) = apply_status(old, &raw, None);
    assert!(s.elapsed.is_none());
    assert!(!events
        .iter()
        .any(|e| matches!(e, StateChanged::Position(_))));
}

#[test]
fn could_be_seeking_needs_same_song_and_playing() {
    let mut old = Status::new();
    old.state = PlayState::Playing;
    old.current_song = Some(song_with_id(1));
    let raw = parse_status_fields(&pairs(&[("state", "play"), ("songid", "1")]));
    let (s, _, could_be_seeking) = apply_status(old, &raw, None);
    assert!(could_be_seeking);

    let raw = parse_status_fields(&pairs(&[("state", "pause"), ("songid", "1")]));
    let (_, _, could_be_seeking) = apply_status(s, &raw, None);
    assert!(!could_be_seeking);
}
