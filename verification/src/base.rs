//! The media player's identity surface: the constant answers the
//! publishing layer gives about the application itself.  This player
//! cannot be raised, quit remotely, or made fullscreen, and it serves no
//! track list yet.

use vstd::prelude::*;

verus! {

/// The application-level face of the published media player.
#[derive(Debug)]
pub struct BaseInterface {
}

impl BaseInterface {
    pub fn new() -> (r: Self) {
        BaseInterface {  }
    }

    pub fn can_quit(&self) -> (r: bool)
        ensures
            r == false,
    {
        false
    }

    pub fn fullscreen(&self) -> (r: bool)
        ensures
            r == false,
    {
        false
    }

    pub fn can_set_fullscreen(&self) -> (r: bool)
        ensures
            r == false,
    {
        false
    }

    pub fn can_raise(&self) -> (r: bool)
        ensures
            r == false,
    {
        false
    }

    pub fn has_tracklist(&self) -> (r: bool)
        ensures
            r == false,
    {
        false
    }

    pub fn identity(&self) -> (r: &'static str)
        ensures
            r@ == "Music Player Daemon"@,
    {
        "Music Player Daemon"
    }

    pub fn supported_uri_schemes(&self) -> (r: Vec<String>)
        ensures
            r@.len() == 0,
    {
        Vec::new()
    }

    pub fn supported_mime_types(&self) -> (r: Vec<String>)
        ensures
            r@.len() == 0,
    {
        Vec::new()
    }
}

} // verus!
