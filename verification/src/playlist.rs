//! A named playlist of songs.

use vstd::prelude::*;

use crate::song::Song;

verus! {

/// A named list of songs stored at `path`.
pub struct PlayList {
    pub name: String,
    pub songs: Vec<Song>,
    pub path: String,
}

/// Whether no song before position `end` has the title `title`.
pub open spec fn no_title_before(songs: Seq<Song>, title: Seq<char>, end: int) -> bool {
    forall|j: int| 0 <= j < end ==> (#[trigger] songs[j]).title@ != title
}

impl PlayList {
    /// Appends `song` at the end.
    pub fn add_song(&mut self, song: Song)
        ensures
            final(self).songs@ == old(self).songs@.push(song),
            final(self).name == old(self).name,
            final(self).path == old(self).path,
    {
        self.songs.push(song);
    }

    /// The first song whose title is exactly `title`, if any.
    pub fn find_song(&self, title: &str) -> (r: Option<&Song>)
        ensures
            r is None <==> no_title_before(self.songs@, title@, self.songs@.len() as int),
            r matches Some(s) ==> exists|i: int|
                0 <= i < self.songs@.len() && self.songs@[i] == *s && s.title@ == title@
                    && no_title_before(self.songs@, title@, i),
    {
        let wanted = title.to_owned();
        let mut i: usize = 0;
        while i < self.songs.len()
            invariant
                i <= self.songs@.len(),
                wanted@ == title@,
                no_title_before(self.songs@, title@, i as int),
            decreases self.songs@.len() - i,
        {
            if self.songs[i].title == wanted {
                return Some(&self.songs[i]);
            }
            i = i + 1;
        }
        None
    }
}

/// What a search gives back of an append: after adding a song, a search for
/// its title finds a song with that title, and finds the added song itself
/// when no earlier song has the title.
pub proof fn lemma_find_after_add(songs: Seq<Song>, song: Song)
    ensures
        !no_title_before(songs.push(song), song.title@, songs.push(song).len() as int),
        no_title_before(songs, song.title@, songs.len() as int) ==> forall|i: int|
            0 <= i < songs.push(song).len() && songs.push(song)[i].title@ == song.title@
                && no_title_before(songs.push(song), song.title@, i) ==> i == songs.len()
                && songs.push(song)[i] == song,
{
    let all = songs.push(song);
    assert(all[songs.len() as int] == song);
    assert forall|i: int|
        0 <= i < all.len() && all[i].title@ == song.title@ && no_title_before(all, song.title@, i)
            && no_title_before(songs, song.title@, songs.len() as int) implies i == songs.len() by {
        if i < songs.len() {
            assert(all[i] == songs[i]);
        }
    }
}

} // verus!
