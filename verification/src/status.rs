//! The cached view of the backend's playback state: the [`Status`] that the
//! reconciler keeps up to date, the [`Song`] metadata of the current track,
//! and the typed [`StateChanged`] notifications handed to the publishing
//! layer.

use vstd::prelude::*;
use vstd::string::*;

use crate::strutil::{eq_str, spec_parse_u32, spec_parse_u8};

verus! {

/// The playback state of the backend.
#[derive(PartialEq, Eq, Structural, Debug, Clone, Copy)]
pub enum PlayState {
    Playing,
    Paused,
    Stopped,
}

/// The repeat behaviour of the backend.  `On` repeats the playlist,
/// `Single` repeats one track; when the backend sets both of its flags,
/// `Single` takes precedence.
#[derive(PartialEq, Eq, Structural, Debug, Clone, Copy)]
pub enum Repeat {
    Off,
    On,
    Single,
}

/// One track's metadata, built fresh from a `currentsong` response.  Two
/// songs are the same exactly when their backend-assigned ids are equal;
/// metadata plays no part in identity.
#[derive(Debug)]
pub struct Song {
    /// The track's path, relative to the music directory.
    pub uri: String,
    /// A `file://` URL of the cover art, when one was found on disk.
    pub cover: Option<String>,
    pub artists: Vec<String>,
    pub album: Option<String>,
    pub album_artists: Vec<String>,
    pub title: Option<String>,
    pub track: Option<u8>,
    pub genres: Vec<String>,
    pub date: Option<u32>,
    pub composers: Vec<String>,
    pub comments: Vec<String>,
    pub disc: Option<u8>,
    /// The backend-assigned identity of the track.
    pub id: u32,
}

/// The mathematical value of a [`Song`]: every text field by view.
pub struct SongView {
    pub uri: Seq<char>,
    pub cover: Option<Seq<char>>,
    pub artists: Seq<Seq<char>>,
    pub album: Option<Seq<char>>,
    pub album_artists: Seq<Seq<char>>,
    pub title: Option<Seq<char>>,
    pub track: Option<u8>,
    pub genres: Seq<Seq<char>>,
    pub date: Option<u32>,
    pub composers: Seq<Seq<char>>,
    pub comments: Seq<Seq<char>>,
    pub disc: Option<u8>,
    pub id: u32,
}

pub open spec fn strs_view(v: Seq<String>) -> Seq<Seq<char>> {
    v.map_values(|s: String| s@)
}

pub open spec fn opt_str_view(v: Option<String>) -> Option<Seq<char>> {
    match v {
        Some(s) => Some(s@),
        None => None,
    }
}

impl View for Song {
    type V = SongView;

    open spec fn view(&self) -> SongView {
        SongView {
            uri: self.uri@,
            cover: opt_str_view(self.cover),
            artists: strs_view(self.artists@),
            album: opt_str_view(self.album),
            album_artists: strs_view(self.album_artists@),
            title: opt_str_view(self.title),
            track: self.track,
            genres: strs_view(self.genres@),
            date: self.date,
            composers: strs_view(self.composers@),
            comments: strs_view(self.comments@),
            disc: self.disc,
            id: self.id,
        }
    }
}

impl PartialEq for Song {
    /// Song identity is the backend's numeric id alone.
    fn eq(&self, other: &Self) -> bool {
        self.id == other.id
    }
}

impl Eq for Song {

}

impl vstd::std_specs::cmp::PartialEqSpecImpl for Song {
    open spec fn obeys_eq_spec() -> bool {
        true
    }

    open spec fn eq_spec(&self, other: &Self) -> bool {
        self.id == other.id
    }
}

/// An empty song: no metadata, id 0.
pub open spec fn empty_song_view() -> SongView {
    SongView {
        uri: Seq::empty(),
        cover: None,
        artists: Seq::empty(),
        album: None,
        album_artists: Seq::empty(),
        title: None,
        track: None,
        genres: Seq::empty(),
        date: None,
        composers: Seq::empty(),
        comments: Seq::empty(),
        disc: None,
        id: 0,
    }
}

/// One `key: value` field of a `currentsong` response applied to the song
/// gathered so far: list fields accumulate, scalar fields take the latest
/// value, and an unknown key changes nothing.  Numeric fields hold the
/// parse of the value, absent on failure, except the id, which falls back
/// to 0.
pub open spec fn apply_song_field(sv: SongView, k: Seq<char>, v: Seq<char>) -> SongView {
    if k == "file"@ {
        SongView { uri: v, ..sv }
    } else if k == "Artist"@ {
        SongView { artists: sv.artists.push(v), ..sv }
    } else if k == "Album"@ {
        SongView { album: Some(v), ..sv }
    } else if k == "AlbumArtist"@ {
        SongView { album_artists: sv.album_artists.push(v), ..sv }
    } else if k == "Title"@ {
        SongView { title: Some(v), ..sv }
    } else if k == "Track"@ {
        SongView { track: spec_parse_u8(v), ..sv }
    } else if k == "Genre"@ {
        SongView { genres: sv.genres.push(v), ..sv }
    } else if k == "Date"@ {
        SongView { date: spec_parse_u32(v), ..sv }
    } else if k == "Composer"@ {
        SongView { composers: sv.composers.push(v), ..sv }
    } else if k == "Comment"@ {
        SongView { comments: sv.comments.push(v), ..sv }
    } else if k == "Disc"@ {
        SongView { disc: spec_parse_u8(v), ..sv }
    } else if k == "Id"@ {
        SongView {
            id: match spec_parse_u32(v) {
                Some(n) => n,
                None => 0,
            },
            ..sv
        }
    } else {
        sv
    }
}

/// The song that a whole `currentsong` response denotes: its fields folded
/// over the empty song, first pair first.
pub open spec fn song_of_pairs(ps: Seq<(Seq<char>, Seq<char>)>) -> SongView
    decreases ps.len(),
{
    if ps.len() == 0 {
        empty_song_view()
    } else {
        apply_song_field(song_of_pairs(ps.drop_last()), ps.last().0, ps.last().1)
    }
}

impl Song {
    /// Creates a new empty song.
    pub fn new() -> (r: Self)
        ensures
            r@ == empty_song_view(),
    {
        let r = Song {
            uri: String::new(),
            cover: None,
            artists: Vec::new(),
            album: None,
            album_artists: Vec::new(),
            title: None,
            track: None,
            genres: Vec::new(),
            date: None,
            composers: Vec::new(),
            comments: Vec::new(),
            disc: None,
            id: 0,
        };
        proof {
            assert(strs_view(r.artists@) =~= Seq::<Seq<char>>::empty());
            assert(strs_view(r.album_artists@) =~= Seq::<Seq<char>>::empty());
            assert(strs_view(r.genres@) =~= Seq::<Seq<char>>::empty());
            assert(strs_view(r.composers@) =~= Seq::<Seq<char>>::empty());
            assert(strs_view(r.comments@) =~= Seq::<Seq<char>>::empty());
        }
        r
    }

    /// Builds a song from the key-value pairs of a `currentsong` response,
    /// exactly as [`song_of_pairs`] folds them.  The cover field stays
    /// empty: resolving cover art probes the filesystem and is the caller's
    /// concern.
    pub fn from_response(pairs: Vec<(String, String)>) -> (r: Self)
        ensures
            r@ == song_of_pairs(crate::codec::pairs_view(pairs@)),
            r.cover is None,
    {
        let ghost pv = crate::codec::pairs_view(pairs@);
        let mut song = Song::new();
        let n = pairs.len();
        proof {
            assert(pv.subrange(0, 0) =~= Seq::<(Seq<char>, Seq<char>)>::empty());
        }
        let mut i: usize = 0;
        while i < n
            invariant
                0 <= i <= n,
                n == pairs.len(),
                pv == crate::codec::pairs_view(pairs@),
                pv.len() == n,
                song@ == song_of_pairs(pv.subrange(0, i as int)),
                song.cover is None,
            decreases n - i,
        {
            proof {
                reveal_strlit("file");
                reveal_strlit("Artist");
                reveal_strlit("Album");
                reveal_strlit("AlbumArtist");
                reveal_strlit("Title");
                reveal_strlit("Track");
                reveal_strlit("Genre");
                reveal_strlit("Date");
                reveal_strlit("Composer");
                reveal_strlit("Comment");
                reveal_strlit("Disc");
                reveal_strlit("Id");
                assert(pv.subrange(0, i + 1).drop_last() =~= pv.subrange(0, i as int));
                assert(pv[i as int] == (pairs@[i as int].0@, pairs@[i as int].1@));
            }
            let k: &String = &pairs[i].0;
            let v: &String = &pairs[i].1;
            let ghost prior = song@;
            let ghost fld = apply_song_field(prior, pv[i as int].0, pv[i as int].1);
            if eq_str(k.as_str(), "file") {
                song.uri = v.clone();
                proof {
                    assert(song@ == fld);
                }
            } else if eq_str(k.as_str(), "Artist") {
                song.artists.push(v.clone());
                proof {
                    assert(strs_view(song.artists@) =~= prior.artists.push(pv[i as int].1));
                    assert(song@ == fld);
                }
            } else if eq_str(k.as_str(), "Album") {
                song.album = Some(v.clone());
                proof {
                    assert(song@ == fld);
                }
            } else if eq_str(k.as_str(), "AlbumArtist") {
                song.album_artists.push(v.clone());
                proof {
                    assert(strs_view(song.album_artists@) =~= prior.album_artists.push(
                        pv[i as int].1,
                    ));
                    assert(song@ == fld);
                }
            } else if eq_str(k.as_str(), "Title") {
                song.title = Some(v.clone());
                proof {
                    assert(song@ == fld);
                }
            } else if eq_str(k.as_str(), "Track") {
                song.track = crate::strutil::parse_u8(v.as_str());
                proof {
                    assert(song@ == fld);
                }
            } else if eq_str(k.as_str(), "Genre") {
                song.genres.push(v.clone());
                proof {
                    assert(strs_view(song.genres@) =~= prior.genres.push(pv[i as int].1));
                    assert(song@ == fld);
                }
            } else if eq_str(k.as_str(), "Date") {
                song.date = crate::strutil::parse_u32(v.as_str());
                proof {
                    assert(song@ == fld);
                }
            } else if eq_str(k.as_str(), "Composer") {
                song.composers.push(v.clone());
                proof {
                    assert(strs_view(song.composers@) =~= prior.composers.push(pv[i as int].1));
                    assert(song@ == fld);
                }
            } else if eq_str(k.as_str(), "Comment") {
                song.comments.push(v.clone());
                proof {
                    assert(strs_view(song.comments@) =~= prior.comments.push(pv[i as int].1));
                    assert(song@ == fld);
                }
            } else if eq_str(k.as_str(), "Disc") {
                song.disc = crate::strutil::parse_u8(v.as_str());
                proof {
                    assert(song@ == fld);
                }
            } else if eq_str(k.as_str(), "Id") {
                song.id = match crate::strutil::parse_u32(v.as_str()) {
                    Some(n2) => n2,
                    None => 0,
                };
                proof {
                    assert(song@ == fld);
                }
            } else {
                proof {
                    assert(song@ == fld);
                }
            }
            i = i + 1;
        }
        proof {
            assert(pv.subrange(0, n as int) =~= pv);
        }
        song
    }
}

/// The cached playback state.
#[derive(Debug)]
pub struct Status {
    /// The playback state.
    pub state: PlayState,
    /// The output volume, in percent.
    pub volume: u8,
    /// The repeat behaviour.
    pub repeat: Repeat,
    /// Whether shuffling is turned on.
    pub shuffle: bool,
    /// Elapsed time of the current song in microseconds, or `None` when no
    /// song is selected.
    pub elapsed: Option<u64>,
    /// Duration of the current song in microseconds, or `None` when no
    /// song is selected.
    pub duration: Option<u64>,
    /// The currently playing song.
    pub current_song: Option<Song>,
    /// The id of the song that will play after the current one.
    pub next_song: Option<u32>,
    /// The number of items in the active queue.
    pub playlist_length: u32,
}

/// The defaults a status starts from: paused, full volume, no repeat, no
/// shuffle, nothing loaded.
pub open spec fn default_status(s: Status) -> bool {
    &&& s.state == PlayState::Paused
    &&& s.volume == 100
    &&& s.repeat == Repeat::Off
    &&& s.shuffle == false
    &&& s.elapsed is None
    &&& s.duration is None
    &&& s.current_song is None
    &&& s.next_song is None
    &&& s.playlist_length == 0
}

impl Status {
    /// Creates a status with the default values.
    pub fn new() -> (r: Self)
        ensures
            default_status(r),
    {
        Status {
            state: PlayState::Paused,
            volume: 100,
            repeat: Repeat::Off,
            shuffle: false,
            elapsed: None,
            duration: None,
            current_song: None,
            next_song: None,
            playlist_length: 0,
        }
    }
}

/// Whether two optional songs are the same: both absent, or both present
/// with the same id.
pub open spec fn same_song(a: Option<Song>, b: Option<Song>) -> bool {
    match (a, b) {
        (None, None) => true,
        (Some(x), Some(y)) => x.id == y.id,
        _ => false,
    }
}

/// One typed change notification from a reconciliation pass.
#[derive(PartialEq, Eq, Structural, Debug, Clone, Copy)]
pub enum StateChanged {
    /// The playback position moved to this many microseconds.
    Position(i64),
    /// The current song changed; the flags say whether the previous-track
    /// capability and the next-track capability changed with it.
    Song(bool, bool),
    /// The playlist grew, shrank, or its next entry appeared or vanished.
    Playlist,
    PlayState,
    Volume,
    Repeat,
    Shuffle,
}

} // verus!
