//! The data model: default status values, song identity, and building a
//! song from a `currentsong` response.

use mpdris::status::{PlayState, Repeat, Song, Status};

fn pairs(ps: &[(&str, &str)]) -> Vec<(String, String)> {
    ps.iter()
        .map(|(k, v)| (String::from(*k), String::from(*v)))
        .collect()
}

#[test]
fn new_status_has_the_documented_defaults() {
    let s = Status::new();
    assert_eq!(s.state, PlayState::Paused);
    assert_eq!(s.volume, 100);
    assert_eq!(s.repeat, Repeat::Off);
    assert!(!s.shuffle);
    assert!(s.elapsed.is_none());
    assert!(s.duration.is_none());
    assert!(s.current_song.is_none());
    assert!(s.next_song.is_none());
    assert_eq!(s.playlist_length, 0);
}

#[test]
fn new_song_is_empty() {
    let song = Song::new();
    assert_eq!(song.uri, "");
    assert_eq!(song.id, 0);
    assert!(song.title.is_none());
    assert!(song.artists.is_empty());
    assert!(song.cover.is_none());
}

#[test]
fn song_identity_is_the_id_alone() {
    let mut a = Song::new();
    a.id = 5;
    a.title = Some(String::from("one title"));
    let mut b = Song::new();
    b.id = 5;
    b.title = Some(String::from("another title"));
    assert_eq!(a, b);
    b.id = 6;
    assert_ne!(a, b);
}

#[test]
fn song_is_built_from_response_fields() {
    let song = Song::from_response(pairs(&[
        ("file", "albums/x/1.flac"),
        ("Artist", "First"),
        ("Artist", "Second"),
        ("Album", "The Album"),
        ("AlbumArtist", "Band"),
        ("Title", "The Title"),
        ("Track", "3"),
        ("Genre", "Genre A"),
        ("Date", "2004"),
        ("Composer", "Someone"),
        ("Comment", "a remark"),
        ("Disc", "1"),
        ("Id", "17"),
        ("Unknown", "ignored"),
    ]));
    assert_eq!(song.uri, "albums/x/1.flac");
    assert_eq!(song.artists, vec!["First", "Second"]);
    assert_eq!(song.album.as_deref(), Some("The Album"));
    assert_eq!(song.album_artists, vec!["Band"]);
    assert_eq!(song.title.as_deref(), Some("The Title"));
    assert_eq!(song.track, Some(3));
    assert_eq!(song.genres, vec!["Genre A"]);
    assert_eq!(song.date, Some(2004));
    assert_eq!(song.composers, vec!["Someone"]);
    assert_eq!(song.comments, vec!["a remark"]);
    assert_eq!(song.disc, Some(1));
    assert_eq!(song.id, 17);
    assert!(song.cover.is_none());
}

#[test]
fn unparsable_song_numbers_fall_back() {
    let song = Song::from_response(pairs(&[
        ("Track", "many"),
        ("Disc", "300"),
        ("Date", "unknown"),
        ("Id", "broken"),
    ]));
    assert_eq!(song.track, None);
    assert_eq!(song.disc, None);
    assert_eq!(song.date, None);
    // The id falls back to zero rather than staying absent.
    assert_eq!(song.id, 0);
}

#[test]
fn later_scalar_fields_win() {
    let song = Song::from_response(pairs(&[
        ("Title", "First Title"),
        ("Title", "Second Title"),
    ]));
    assert_eq!(song.title.as_deref(), Some("Second Title"));
}
