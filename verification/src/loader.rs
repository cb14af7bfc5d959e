//! Building songs: from the ID3 tag of a file's bytes, from a file name, and
//! the library shown at start.

use vstd::prelude::*;

use crate::song::Song;

verus! {

/// Whether `id3::Tag::read_from2` finds a tag in a stream holding exactly
/// `data`. This is a function of the bytes alone.
pub uninterp spec fn id3_tag_readable(data: Seq<u8>) -> bool;

/// The title (TIT2 text) of the tag that `id3::Tag::read_from2` reads from
/// `data`, if the tag has one.
pub uninterp spec fn id3_tag_title(data: Seq<u8>) -> Option<Seq<char>>;

/// The artist (TPE1 text) of the tag that `id3::Tag::read_from2` reads from
/// `data`, if the tag has one.
pub uninterp spec fn id3_tag_artist(data: Seq<u8>) -> Option<Seq<char>>;

/// The message (`Display` text) of the error that `id3::Tag::read_from2`
/// gives on `data`.
pub uninterp spec fn id3_error_message(data: Seq<u8>) -> Seq<char>;

/// The text of an optional string.
pub open spec fn opt_text(s: Option<String>) -> Option<Seq<char>> {
    match s {
        Some(t) => Some(t@),
        None => None,
    }
}

/// Reads the ID3 tag of a file whose content is `data`
/// (`id3::Tag::read_from2` over the bytes, which is what
/// `id3::Tag::read_from_path` does over the opened file) and takes its
/// title and artist (`id3::TagLike::title`, `id3::TagLike::artist`), or the
/// error's message. Claimed: it succeeds exactly when the bytes hold a
/// readable tag, and the texts are those that these functions give on the
/// bytes; all of them depend on the bytes alone.
#[verifier::external_body]
fn read_tag_fields(data: &[u8]) -> (r: Result<(Option<String>, Option<String>), String>)
    ensures
        r is Ok <==> id3_tag_readable(data@),
        r matches Ok(fields) ==> opt_text(fields.0) == id3_tag_title(data@) && opt_text(fields.1)
            == id3_tag_artist(data@),
        r matches Err(m) ==> m@ == id3_error_message(data@),
{
    match id3::Tag::read_from2(std::io::Cursor::new(data)) {
        Ok(tag) => Ok((
            id3::TagLike::title(&tag).map(|t| t.to_string()),
            id3::TagLike::artist(&tag).map(|a| a.to_string()),
        )),
        Err(e) => Err(e.to_string()),
    }
}

/// The text for a missing tag field.
pub open spec fn or_unknown(field: Option<Seq<char>>) -> Seq<char> {
    match field {
        Some(t) => t,
        None => "unknown"@,
    }
}

/// The song that a tag with these title and artist texts describes: the
/// missing ones read "unknown", the length is not known (0).
pub fn song_from_tag_fields(path: String, title: Option<&str>, artist: Option<&str>) -> (song: Song)
    ensures
        song.title@ == or_unknown(
            match title {
                Some(t) => Some(t@),
                None => None,
            },
        ),
        song.artist@ == or_unknown(
            match artist {
                Some(a) => Some(a@),
                None => None,
            },
        ),
        song.path == path,
        song.duration_sec == 0,
{
    let title = match title {
        Some(t) => t.to_owned(),
        None => "unknown".to_owned(),
    };
    let artist = match artist {
        Some(a) => a.to_owned(),
        None => "unknown".to_owned(),
    };
    Song { title, artist, duration_sec: 0, path }
}

/// The song that the ID3 tag of the file at `path`, whose content is `data`,
/// describes; the error message when no tag can be read.
pub fn load_song(path: String, data: &[u8]) -> (r: Result<Song, String>)
    ensures
        r is Ok <==> id3_tag_readable(data@),
        r matches Ok(song) ==> song.title@ == or_unknown(id3_tag_title(data@)) && song.artist@
            == or_unknown(id3_tag_artist(data@)) && song.path == path && song.duration_sec == 0,
        r matches Err(m) ==> m@ == id3_error_message(data@),
{
    match read_tag_fields(data) {
        Ok((title, artist)) => {
            let t = match &title {
                Some(s) => Some(s.as_str()),
                None => None,
            };
            let a = match &artist {
                Some(s) => Some(s.as_str()),
                None => None,
            };
            Ok(song_from_tag_fields(path, t, a))
        },
        Err(m) => Err(m),
    }
}

/// The songs that loaded, in their order.
pub open spec fn loaded_songs(results: Seq<Result<Song, String>>) -> Seq<Song>
    decreases results.len(),
{
    if results.len() == 0 {
        Seq::empty()
    } else {
        let rest = loaded_songs(results.drop_last());
        match results.last() {
            Ok(s) => rest.push(s),
            Err(_) => rest,
        }
    }
}

/// Keeping the loaded songs drops only failures: every song kept came from
/// a successful load, every successful load is kept, and there are never
/// more songs than loads.
pub proof fn lemma_loaded_songs_are_the_successes(results: Seq<Result<Song, String>>)
    ensures
        loaded_songs(results).len() <= results.len(),
        forall|i: int|
            0 <= i < results.len() && (#[trigger] results[i]) is Ok ==> loaded_songs(
                results,
            ).contains(results[i]->Ok_0),
        forall|j: int|
            0 <= j < loaded_songs(results).len() ==> exists|i: int|
                0 <= i < results.len() && #[trigger] results[i] == Ok::<Song, String>(
                    #[trigger] loaded_songs(results)[j],
                ),
        (forall|i: int| 0 <= i < results.len() ==> (#[trigger] results[i]) is Err) ==> loaded_songs(
            results,
        ).len() == 0,
    decreases results.len(),
{
    if results.len() > 0 {
        let rest = results.drop_last();
        lemma_loaded_songs_are_the_successes(rest);
        let l = loaded_songs(results);
        let lr = loaded_songs(rest);
        assert forall|i: int|
            0 <= i < results.len() && (#[trigger] results[i]) is Ok implies l.contains(
                results[i]->Ok_0,
            ) by {
            if i < results.len() - 1 {
                assert(results[i] == rest[i]);
                let k = choose|k: int| 0 <= k < lr.len() && lr[k] == rest[i]->Ok_0;
                assert(l[k] == lr[k]);
            } else {
                assert(l[l.len() - 1] == results[i]->Ok_0);
            }
        }
        assert forall|j: int| 0 <= j < l.len() implies exists|i: int|
            0 <= i < results.len() && #[trigger] results[i] == Ok::<Song, String>(
                #[trigger] l[j],
            ) by {
            if j < lr.len() {
                assert(l[j] == lr[j]);
                let i = choose|i: int|
                    0 <= i < rest.len() && #[trigger] rest[i] == Ok::<Song, String>(lr[j]);
                assert(results[i] == rest[i]);
            } else {
                assert(results[results.len() - 1] == Ok::<Song, String>(l[j]));
            }
        }
        if forall|i: int| 0 <= i < results.len() ==> (#[trigger] results[i]) is Err {
            assert forall|i: int| 0 <= i < rest.len() implies (#[trigger] rest[i]) is Err by {
                assert(rest[i] == results[i]);
            }
            assert(results[results.len() - 1] is Err);
        }
    }
}

/// Keeps the songs that loaded and drops the files that did not.
pub fn keep_loaded(results: &Vec<Result<Song, String>>) -> (songs: Vec<Song>)
    ensures
        songs@ == loaded_songs(results@),
{
    let mut songs: Vec<Song> = Vec::new();
    let n = results.len();
    let mut i: usize = 0;
    while i < n
        invariant
            n == results@.len(),
            i <= n,
            songs@ == loaded_songs(results@.subrange(0, i as int)),
        decreases n - i,
    {
        assert(results@.subrange(0, i + 1).drop_last() =~= results@.subrange(0, i as int));
        match &results[i] {
            Ok(s) => songs.push(s.clone()),
            Err(_) => {},
        }
        i = i + 1;
    }
    assert(results@.subrange(0, n as int) =~= results@);
    songs
}

/// The file name stem with every underscore turned into a space.
pub open spec fn title_from_stem(stem: Seq<char>) -> Seq<char> {
    stem.map_values(|c: char| if c == '_' { ' ' } else { c })
}

/// A title from a file name has one character per character of the stem:
/// a space where the stem has an underscore, and the stem's own character
/// everywhere else.
pub proof fn lemma_title_keeps_all_but_underscores(stem: Seq<char>)
    ensures
        title_from_stem(stem).len() == stem.len(),
        forall|i: int|
            0 <= i < stem.len() ==> (stem[i] == '_' ==> #[trigger] title_from_stem(stem)[i] == ' ')
                && (stem[i] != '_' ==> title_from_stem(stem)[i] == stem[i]),
{
}

/// Whether a file extension marks an MP3 file (exactly `mp3`).
pub fn is_mp3_extension(ext: &str) -> (b: bool)
    ensures
        b == (ext@ == "mp3"@),
{
    let e = ext.to_owned();
    let mp3 = "mp3".to_owned();
    e == mp3
}

/// A song for an audio file of the library folder: titled by its file name
/// stem with underscores as spaces, by "Local Audio", with the whole seconds
/// of its decoded length cut to 32 bits (0 when unknown).
pub fn local_song(stem: &str, path: String, duration_secs: Option<u64>) -> (song: Song)
    ensures
        song.title@ == title_from_stem(stem@),
        song.title@.len() == stem@.len(),
        forall|i: int|
            0 <= i < stem@.len() ==> (stem@[i] == '_' ==> #[trigger] song.title@[i] == ' ') && (
            stem@[i] != '_' ==> song.title@[i] == stem@[i]),
        song.artist@ == "Local Audio"@,
        song.path == path,
        song.duration_sec == (match duration_secs {
            Some(s) => (s % 0x1_0000_0000) as u32,
            None => 0u32,
        }),
{
    let n = stem.unicode_len();
    let mut title = String::new();
    let mut i: usize = 0;
    while i < n
        invariant
            n == stem@.len(),
            i <= n,
            title@ == title_from_stem(stem@.subrange(0, i as int)),
        decreases n - i,
    {
        let c = stem.get_char(i);
        let d = if c == '_' {
            ' '
        } else {
            c
        };
        crate::text::push_char(&mut title, d);
        i = i + 1;
        assert(title@ =~= title_from_stem(stem@.subrange(0, i as int)));
    }
    assert(stem@.subrange(0, n as int) =~= stem@);
    let duration_sec: u32 = match duration_secs {
        Some(s) => (s % 0x1_0000_0000) as u32,
        None => 0,
    };
    Song { title, artist: "Local Audio".to_owned(), path, duration_sec }
}

/// The one entry of an empty library: a warning where songs would be.
pub open spec fn is_placeholder(song: Song) -> bool {
    &&& song.title@ == "⚠️ No MP3 files found in ./data folder"@
    &&& song.artist@ == "System"@
    &&& song.path@ == Seq::<char>::empty()
    &&& song.duration_sec == 0
}

/// The library to show: the songs found, or a single warning entry when
/// none was.
pub fn library_or_placeholder(songs: Vec<Song>) -> (library: Vec<Song>)
    ensures
        songs@.len() > 0 ==> library@ == songs@,
        songs@.len() == 0 ==> library@.len() == 1 && is_placeholder(library@[0]),
        library@.len() > 0,
{
    if songs.len() > 0 {
        songs
    } else {
        let mut library = songs;
        library.push(
            Song {
                title: "⚠️ No MP3 files found in ./data folder".to_owned(),
                artist: "System".to_owned(),
                path: String::new(),
                duration_sec: 0,
            },
        );
        library
    }
}

} // verus!
