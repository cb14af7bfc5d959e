use alloy::loader::{
    is_mp3_extension, keep_loaded, library_or_placeholder, load_song, local_song,
    song_from_tag_fields,
};
use alloy::playlist::PlayList;
use alloy::song::Song;
use id3::TagLike;

fn song(title: &str, artist: &str) -> Song {
    Song {
        title: title.to_string(),
        artist: artist.to_string(),
        path: format!("/music/{}.mp3", title),
        duration_sec: 180,
    }
}

fn tagged_bytes(title: Option<&str>, artist: Option<&str>) -> Vec<u8> {
    let mut tag = id3::Tag::new();
    if let Some(t) = title {
        tag.set_title(t);
    }
    if let Some(a) = artist {
        tag.set_artist(a);
    }
    let mut bytes = Vec::new();
    tag.write_to(&mut bytes, id3::Version::Id3v24).unwrap();
    bytes.extend_from_slice(&[0xff, 0xfb, 0x90, 0x00]);
    bytes
}

#[test]
fn add_song_appends() {
    let mut list = PlayList { name: "mix".to_string(), songs: Vec::new(), path: "mix.m3u".to_string() };
    list.add_song(song("a", "x"));
    list.add_song(song("b", "y"));
    assert_eq!(list.songs, vec![song("a", "x"), song("b", "y")]);
    assert_eq!(list.name, "mix");
    assert_eq!(list.path, "mix.m3u");
}

#[test]
fn find_song_returns_first_match() {
    let mut list = PlayList { name: String::new(), songs: Vec::new(), path: String::new() };
    list.add_song(song("a", "first"));
    list.add_song(song("b", "x"));
    list.add_song(song("a", "second"));
    assert_eq!(list.find_song("a").map(|s| s.artist.as_str()), Some("first"));
    assert_eq!(list.find_song("b"), Some(&song("b", "x")));
    assert_eq!(list.find_song("A"), None);
    assert_eq!(list.find_song(""), None);
}

#[test]
fn find_after_add_finds_the_added_song() {
    let mut list = PlayList { name: String::new(), songs: vec![song("a", "x")], path: String::new() };
    list.add_song(song("new", "z"));
    assert_eq!(list.find_song("new"), Some(&song("new", "z")));
}

#[test]
fn song_from_tag_fields_fills_unknown() {
    let s = song_from_tag_fields("p.mp3".to_string(), Some("T"), None);
    assert_eq!(s.title, "T");
    assert_eq!(s.artist, "unknown");
    assert_eq!(s.path, "p.mp3");
    assert_eq!(s.duration_sec, 0);
    let s = song_from_tag_fields("q".to_string(), None, Some("A"));
    assert_eq!(s.title, "unknown");
    assert_eq!(s.artist, "A");
}

#[test]
fn load_song_reads_tag_title_and_artist() {
    let bytes = tagged_bytes(Some("Blue Song"), Some("The Band"));
    let s = load_song("data/blue.mp3".to_string(), &bytes).unwrap();
    assert_eq!(s.title, "Blue Song");
    assert_eq!(s.artist, "The Band");
    assert_eq!(s.path, "data/blue.mp3");
    assert_eq!(s.duration_sec, 0);
}

#[test]
fn load_song_without_title_says_unknown() {
    let bytes = tagged_bytes(None, Some("Solo"));
    let s = load_song("x.mp3".to_string(), &bytes).unwrap();
    assert_eq!(s.title, "unknown");
    assert_eq!(s.artist, "Solo");
    let s = load_song("y.mp3".to_string(), &tagged_bytes(Some("Only Title"), None)).unwrap();
    assert_eq!(s.title, "Only Title");
    assert_eq!(s.artist, "unknown");
}

#[test]
fn load_song_without_tag_fails() {
    let r = load_song("noise.mp3".to_string(), &[0u8, 1, 2, 3, 4, 5, 6, 7, 8, 9, 10, 11]);
    assert!(r.is_err());
    assert!(r.unwrap_err().contains("NoTag"));
    let again = load_song("other.mp3".to_string(), &[0u8, 1, 2, 3, 4, 5, 6, 7, 8, 9, 10, 11]);
    assert_eq!(again, load_song("noise.mp3".to_string(), &[0u8, 1, 2, 3, 4, 5, 6, 7, 8, 9, 10, 11]));
}

#[test]
fn keep_loaded_drops_failures() {
    let results = vec![
        Ok(song("a", "x")),
        Err("bad".to_string()),
        Ok(song("b", "y")),
        Err("worse".to_string()),
    ];
    assert_eq!(keep_loaded(&results), vec![song("a", "x"), song("b", "y")]);
    assert_eq!(keep_loaded(&Vec::new()), Vec::<Song>::new());
}

#[test]
fn local_song_turns_underscores_into_spaces() {
    let s = local_song("my_best_song", "data/my_best_song.mp3".to_string(), Some(215));
    assert_eq!(s.title, "my best song");
    assert_eq!(s.artist, "Local Audio");
    assert_eq!(s.path, "data/my_best_song.mp3");
    assert_eq!(s.duration_sec, 215);
}

#[test]
fn local_song_without_length_is_zero() {
    let s = local_song("x", "x.mp3".to_string(), None);
    assert_eq!(s.duration_sec, 0);
    assert_eq!(s.title, "x");
}

#[test]
fn local_song_length_cut_to_32_bits() {
    let s = local_song("long", "l.mp3".to_string(), Some((1u64 << 32) + 7));
    assert_eq!(s.duration_sec, 7);
}

#[test]
fn mp3_extension_is_exact() {
    assert!(is_mp3_extension("mp3"));
    assert!(!is_mp3_extension("MP3"));
    assert!(!is_mp3_extension("mp33"));
    assert!(!is_mp3_extension(""));
}

#[test]
fn empty_library_gets_placeholder() {
    let lib = library_or_placeholder(Vec::new());
    assert_eq!(lib.len(), 1);
    assert_eq!(lib[0].title, "⚠️ No MP3 files found in ./data folder");
    assert_eq!(lib[0].artist, "System");
    assert_eq!(lib[0].path, "");
    assert_eq!(lib[0].duration_sec, 0);
}

#[test]
fn nonempty_library_is_kept() {
    let songs = vec![song("a", "x")];
    assert_eq!(library_or_placeholder(songs.clone()), songs);
}

#[test]
fn song_clone_keeps_fields() {
    let s = song("c", "d");
    assert_eq!(s.clone(), s);
}
