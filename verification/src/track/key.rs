//! The keys by which tags are known, whatever the format of the file.

use crate::text::same_text;
use vstd::prelude::*;

verus! {

/// What a tag says of a track.
#[derive(Clone, Copy, Debug, PartialEq, Eq)]
pub enum TagKey {
    Artist,
    Artists,
    OriginalArtist,
    ArtistSortOrder,
    AlbumArtist,
    AlbumArtistSortOrder,
    TrackTitle,
    Album,
}

impl TagKey {
    /// The name of the key.
    pub open spec fn name_spec(self) -> Seq<char> {
        match self {
            TagKey::Artist => "artist"@,
            TagKey::Artists => "artists"@,
            TagKey::OriginalArtist => "originalartist"@,
            TagKey::ArtistSortOrder => "artistsort"@,
            TagKey::AlbumArtist => "albumartist"@,
            TagKey::AlbumArtistSortOrder => "albumartistsort"@,
            TagKey::TrackTitle => "title"@,
            TagKey::Album => "album"@,
        }
    }

    /// The key with the name `name`, if there is one.
    pub open spec fn of_name(name: Seq<char>) -> Option<TagKey> {
        if name == "artist"@ {
            Some(TagKey::Artist)
        } else if name == "artists"@ {
            Some(TagKey::Artists)
        } else if name == "originalartist"@ {
            Some(TagKey::OriginalArtist)
        } else if name == "artistsort"@ {
            Some(TagKey::ArtistSortOrder)
        } else if name == "albumartist"@ {
            Some(TagKey::AlbumArtist)
        } else if name == "albumartistsort"@ {
            Some(TagKey::AlbumArtistSortOrder)
        } else if name == "title"@ {
            Some(TagKey::TrackTitle)
        } else if name == "album"@ {
            Some(TagKey::Album)
        } else {
            None
        }
    }

    /// The name of the key.
    pub fn name(self) -> (r: &'static str)
        ensures
            r@ == self.name_spec(),
    {
        match self {
            TagKey::Artist => "artist",
            TagKey::Artists => "artists",
            TagKey::OriginalArtist => "originalartist",
            TagKey::ArtistSortOrder => "artistsort",
            TagKey::AlbumArtist => "albumartist",
            TagKey::AlbumArtistSortOrder => "albumartistsort",
            TagKey::TrackTitle => "title",
            TagKey::Album => "album",
        }
    }

    /// The key with the name `name`, if there is one.
    pub fn from_name(name: &str) -> (r: Option<TagKey>)
        ensures
            r == TagKey::of_name(name@),
    {
        if same_text(name, "artist") {
            Some(TagKey::Artist)
        } else if same_text(name, "artists") {
            Some(TagKey::Artists)
        } else if same_text(name, "originalartist") {
            Some(TagKey::OriginalArtist)
        } else if same_text(name, "artistsort") {
            Some(TagKey::ArtistSortOrder)
        } else if same_text(name, "albumartist") {
            Some(TagKey::AlbumArtist)
        } else if same_text(name, "albumartistsort") {
            Some(TagKey::AlbumArtistSortOrder)
        } else if same_text(name, "title") {
            Some(TagKey::TrackTitle)
        } else if same_text(name, "album") {
            Some(TagKey::Album)
        } else {
            None
        }
    }

    /// The name of the key, as a `String`.
    pub fn to_string(self) -> (r: String)
        ensures
            r@ == self.name_spec(),
    {
        crate::text::owned(self.name())
    }
}

} // verus!
