//! The configuration the core reads: where the backend listens, how often
//! to retry a failed connection, and where music and cover files live.
//! Loading it from a file, the environment or the command line is the
//! surrounding program's concern; the core only consumes the values.

use vstd::prelude::*;
use vstd::string::*;

verus! {

/// The configuration values the core consumes.
#[derive(Debug)]
pub struct Config {
    /// The address of the backend, as text.
    pub addr: String,
    /// The port of the backend.
    pub port: u16,
    /// How many times to retry a failed connection; a negative value
    /// retries without bound.
    pub retries: isize,
    /// The root directory the backend plays music from.
    pub music_directory: String,
    /// The directory searched for cover art.
    pub cover_directory: String,
}

pub fn default_addr() -> (r: String)
    ensures
        r@ == "127.0.0.1"@,
{
    String::from_str("127.0.0.1")
}

pub fn default_port() -> (r: u16)
    ensures
        r == 6600,
{
    6600
}

pub fn default_retries() -> (r: isize)
    ensures
        r == 3,
{
    3
}

/// The default music root: `Music` under the home directory.
pub fn default_music_dir(home: &str) -> (r: String)
    ensures
        r@ == home@ + "/Music"@,
{
    let mut s = home.to_owned();
    s.append("/Music");
    s
}

/// The default cover root: `Music/covers` under the home directory.
pub fn default_cover_dir(home: &str) -> (r: String)
    ensures
        r@ == home@ + "/Music/covers"@,
{
    let mut s = home.to_owned();
    s.append("/Music/covers");
    s
}

impl Config {
    /// The default configuration for a given home directory.
    pub fn new(home: &str) -> (r: Self)
        ensures
            r.addr@ == "127.0.0.1"@,
            r.port == 6600,
            r.retries == 3,
            r.music_directory@ == home@ + "/Music"@,
            r.cover_directory@ == home@ + "/Music/covers"@,
    {
        Config {
            addr: default_addr(),
            port: default_port(),
            retries: default_retries(),
            music_directory: default_music_dir(home),
            cover_directory: default_cover_dir(home),
        }
    }
}

} // verus!
