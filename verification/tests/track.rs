use tracklib::error::Error;
use tracklib::track::format::Format;
use tracklib::track::key::TagKey;
use tracklib::track::{dedup, take_first, Tag, TagClone, TagFrom, TagMap, TrackFile, TrackLike};

fn strings(list: &[&str]) -> Vec<String> {
    list.iter().map(|s| s.to_string()).collect()
}

fn flac_head() -> Vec<u8> {
    let mut head = b"fLaC".to_vec();
    head.extend_from_slice(&[0u8; 60]);
    head
}

fn tags() -> TagMap {
    TagMap::from_pairs(vec![
        ("albumartist".to_string(), strings(&["A", "B", "A"])),
        ("title".to_string(), strings(&["Song", "Alt"])),
        ("album".to_string(), strings(&["Album"])),
    ])
}

#[test]
fn extensions_name_formats() {
    assert_eq!(Format::from_ext("flac"), Some(Format::FLAC));
    assert_eq!(Format::from_ext("m4a"), Some(Format::MP4));
    assert_eq!(Format::from_ext("mp3"), Some(Format::ID3));
    assert_eq!(Format::from_ext("ape"), Some(Format::APE));
    assert_eq!(Format::from_ext("FLAC"), None);
    assert_eq!(Format::from_ext(""), None);
    for f in [Format::FLAC, Format::MP4, Format::ID3, Format::APE] {
        assert_eq!(Format::from_ext(f.ext()), Some(f));
    }
}

#[test]
fn media_types_name_formats() {
    assert_eq!(Format::from_mime("audio/x-flac"), Some(Format::FLAC));
    assert_eq!(Format::from_mime("audio/m4a"), Some(Format::MP4));
    assert_eq!(Format::from_mime("audio/mpeg"), Some(Format::ID3));
    assert_eq!(Format::from_mime("audio/x-ape"), Some(Format::APE));
    assert_eq!(Format::from_mime("audio/ogg"), None);
    assert_eq!(Format::from_mime("image/png"), None);
}

#[test]
fn first_bytes_tell_the_format() {
    assert_eq!(Format::from_bytes(&flac_head()), Ok(Format::FLAC));
    assert_eq!(Format::from_bytes(b"ID3\x03\x00\x00\x00\x00\x00\x00"), Ok(Format::ID3));
    assert_eq!(Format::from_bytes(b"MAC \x96\x0f\x00\x00"), Ok(Format::APE));
    assert_eq!(
        Format::from_bytes(b"\x00\x00\x00\x20ftypM4A \x00\x00\x00\x00"),
        Ok(Format::MP4)
    );
}

#[test]
fn unknown_bytes_tell_no_format() {
    let unknown = Err(Error::Decode("Could not identify format for file".to_string()));
    assert_eq!(Format::from_bytes(b"hello world"), unknown);
    assert_eq!(Format::from_bytes(b""), unknown);
    assert_eq!(Format::from_bytes(b"\x89PNG\r\n\x1a\n"), unknown);
}

#[test]
fn open_reads_tags_for_the_format_it_found() {
    let path = "/music/a.flac".to_string();
    let file = TrackFile::open(&path, &flac_head(), |format| {
        assert_eq!(format, Format::FLAC);
        Ok(tags())
    })
    .unwrap();
    assert_eq!(file.path(), &path);
    assert_eq!(file.format(), Format::FLAC);
    assert_eq!(file.tag(), &tags());
}

#[test]
fn open_fails_where_the_format_is_unknown() {
    let path = "/music/a.txt".to_string();
    let r = TrackFile::open(&path, b"plain text", |_| Ok(tags()));
    assert_eq!(
        r,
        Err(Error::Decode("Could not identify format for file: /music/a.txt".to_string()))
    );
}

#[test]
fn open_fails_where_the_tags_cannot_be_read() {
    let path = "/music/a.flac".to_string();
    let r = TrackFile::open(&path, &flac_head(), |_| Err(Error::Decode("broken".to_string())));
    assert_eq!(
        r,
        Err(Error::Decode("Could not read metadata from file: /music/a.flac".to_string()))
    );
    let r = TrackFile::open_as(&path, Format::APE, |_| Err(Error::NotFound));
    assert_eq!(
        r,
        Err(Error::Decode("Could not read metadata from file: /music/a.flac".to_string()))
    );
}

#[test]
fn relocate_returns_the_old_place() {
    let path = "/music/a.flac".to_string();
    let mut file = TrackFile::open_as(&path, Format::FLAC, |_| Ok(tags())).unwrap();
    assert_eq!(file.relocate("/library/a.flac".to_string()), "/music/a.flac");
    assert_eq!(file.path(), "/library/a.flac");
    assert_eq!(file.format(), Format::FLAC);
    assert_eq!(file.tag(), &tags());
}

#[test]
fn write_hands_out_place_and_tags() {
    let path = "/music/a.flac".to_string();
    let file = TrackFile::open_as(&path, Format::FLAC, |_| Ok(tags())).unwrap();
    let (place, pairs) = file.write();
    assert_eq!(place, path);
    assert_eq!(pairs, tags().entries);
}

#[test]
fn tags_are_found_by_key() {
    let t = tags();
    assert_eq!(t.get_str("title"), Some(strings(&["Song", "Alt"])));
    assert_eq!(t.get_str("missing"), None);
    assert_eq!(t.get_all(), tags().entries);
    assert_eq!(t.find("album"), 2);
    assert_eq!(t.find("none"), 3);
}

#[test]
fn set_str_replaces_or_appends() {
    let mut t = tags();
    assert_eq!(t.set_str("title", strings(&["New"])), Ok(()));
    assert_eq!(t.get_str("title"), Some(strings(&["New"])));
    assert_eq!(t.entries.len(), 3);
    assert_eq!(t.entries[1].0, "title");
    assert_eq!(t.set_str("genre", strings(&["rock"])), Ok(()));
    assert_eq!(t.entries.len(), 4);
    assert_eq!(t.entries[3], ("genre".to_string(), strings(&["rock"])));
    assert_eq!(t.get_str("albumartist"), Some(strings(&["A", "B", "A"])));
}

#[test]
fn clone_box_copies_the_pairs() {
    let t = tags();
    let copy = t.clone_box();
    assert_eq!(*copy, t);
}

#[test]
fn keys_have_names() {
    let t = tags();
    for key in [
        TagKey::Artist,
        TagKey::Artists,
        TagKey::OriginalArtist,
        TagKey::ArtistSortOrder,
        TagKey::AlbumArtist,
        TagKey::AlbumArtistSortOrder,
        TagKey::TrackTitle,
        TagKey::Album,
    ] {
        let name = t.key_to_str(key).unwrap();
        assert_eq!(t.str_to_key(name), Some(key));
        assert_eq!(TagKey::from_name(key.name()), Some(key));
        assert_eq!(key.to_string(), name);
    }
    assert_eq!(TagKey::TrackTitle.name(), "title");
    assert_eq!(TagKey::from_name("nothing"), None);
}

#[test]
fn dedup_keeps_the_first_of_equals() {
    assert_eq!(dedup(strings(&["a", "b", "a", "c", "b"])), strings(&["a", "b", "c"]));
    assert_eq!(dedup(strings(&[])), strings(&[]));
    assert_eq!(dedup(strings(&["x", "x", "x"])), strings(&["x"]));
}

#[test]
fn take_first_needs_a_member() {
    assert_eq!(take_first(strings(&["a", "b"]), "none"), Ok("a".to_string()));
    assert_eq!(take_first(strings(&[]), "none"), Err(Error::Precondition("none".to_string())));
}

#[test]
fn a_file_says_what_its_tags_say() {
    let path = "/music/a.flac".to_string();
    let file = TrackFile::open_as(&path, Format::FLAC, |_| Ok(tags())).unwrap();
    assert_eq!(file.artists(), Ok(strings(&["A", "B"])));
    assert_eq!(file.album_artists(), Ok(strings(&["A", "B", "A"])));
    assert_eq!(file.title(), Ok("Song".to_string()));
    assert_eq!(file.album_title(), Ok("Album".to_string()));
    assert_eq!(file.get_tag(TagKey::Artist), Ok(strings(&[])));
}

#[test]
fn a_file_without_titles_says_so() {
    let path = "/music/a.flac".to_string();
    let file =
        TrackFile::open_as(&path, Format::FLAC, |_| Ok(TagMap::from_pairs(vec![]))).unwrap();
    assert_eq!(file.title(), Err(Error::Precondition("Track has no title".to_string())));
    assert_eq!(
        file.album_title(),
        Err(Error::Precondition("Track has no album title".to_string()))
    );
    assert_eq!(file.artists(), Ok(strings(&[])));
}
