//! A song of the library.

use vstd::prelude::*;

verus! {

/// One track: its title and artist as shown, where its file lies, and its
/// length in whole seconds (0 when unknown).
#[derive(Debug, PartialEq, Eq)]
pub struct Song {
    pub title: String,
    pub artist: String,
    pub path: String,
    pub duration_sec: u32,
}

impl Clone for Song {
    fn clone(&self) -> (r: Self)
        ensures
            r == *self,
    {
        Song {
            title: self.title.clone(),
            artist: self.artist.clone(),
            path: self.path.clone(),
            duration_sec: self.duration_sec,
        }
    }
}

} // verus!
