//! The audio container formats whose tags the library understands.

use crate::error::{Error, ErrorView};
use crate::text::same_text;
use vstd::prelude::*;
use vstd::string::*;

verus! {

/// The media type that the first bytes of a file give away, where they give
/// one away: what the crate infer recognises in them.
pub uninterp spec fn sniffed_mime(head: Seq<u8>) -> Option<Seq<char>>;

/// Calls `get` of the crate infer on the first bytes of a file and takes the
/// media type of what it recognises. The result depends on the bytes alone.
#[verifier::external_body]
fn sniff(head: &[u8]) -> (r: Option<&'static str>)
    ensures
        r.deep_view() == sniffed_mime(head@),
{
    infer::get(head).map(|kind| kind.mime_type())
}

/// The text of the error that is reported where the format of a file cannot
/// be told.
pub open spec fn unidentified() -> ErrorView {
    ErrorView::Decode("Could not identify format for file"@)
}

/// A tag format. The set is closed.
#[derive(Clone, Copy, Debug, PartialEq, Eq)]
pub enum Format {
    FLAC,
    MP4,
    ID3,
    APE,
}

impl Format {
    /// The file extension that names this format.
    pub open spec fn ext_spec(self) -> Seq<char> {
        match self {
            Format::FLAC => "flac"@,
            Format::MP4 => "m4a"@,
            Format::ID3 => "mp3"@,
            Format::APE => "ape"@,
        }
    }

    /// The format that the file extension `ext` names, if it names one.
    pub open spec fn of_ext(ext: Seq<char>) -> Option<Format> {
        if ext == "flac"@ {
            Some(Format::FLAC)
        } else if ext == "m4a"@ {
            Some(Format::MP4)
        } else if ext == "mp3"@ {
            Some(Format::ID3)
        } else if ext == "ape"@ {
            Some(Format::APE)
        } else {
            None
        }
    }

    /// The file extension that names this format.
    pub fn ext(&self) -> (r: &'static str)
        ensures
            r@ == self.ext_spec(),
    {
        match self {
            Format::FLAC => "flac",
            Format::MP4 => "m4a",
            Format::ID3 => "mp3",
            Format::APE => "ape",
        }
    }

    /// The format that the file extension `ext` names, if it names one.
    pub fn from_ext(ext: &str) -> (r: Option<Format>)
        ensures
            r == Format::of_ext(ext@),
    {
        if same_text(ext, "flac") {
            Some(Format::FLAC)
        } else if same_text(ext, "m4a") {
            Some(Format::MP4)
        } else if same_text(ext, "mp3") {
            Some(Format::ID3)
        } else if same_text(ext, "ape") {
            Some(Format::APE)
        } else {
            None
        }
    }

    /// The format of files of the media type `mime`, if the library
    /// understands their tags.
    pub open spec fn of_mime(mime: Seq<char>) -> Option<Format> {
        if mime == "audio/x-flac"@ {
            Some(Format::FLAC)
        } else if mime == "audio/m4a"@ {
            Some(Format::MP4)
        } else if mime == "audio/mpeg"@ {
            Some(Format::ID3)
        } else if mime == "audio/x-ape"@ {
            Some(Format::APE)
        } else {
            None
        }
    }

    /// The format that a sniffed media type stands for.
    pub open spec fn identified(mime: Option<Seq<char>>) -> Option<Format> {
        match mime {
            Some(m) => Format::of_mime(m),
            None => None,
        }
    }

    /// The format of files of the media type `mime`, if the library
    /// understands their tags.
    pub fn from_mime(mime: &str) -> (r: Option<Format>)
        ensures
            r == Format::of_mime(mime@),
    {
        if same_text(mime, "audio/x-flac") {
            Some(Format::FLAC)
        } else if same_text(mime, "audio/m4a") {
            Some(Format::MP4)
        } else if same_text(mime, "audio/mpeg") {
            Some(Format::ID3)
        } else if same_text(mime, "audio/x-ape") {
            Some(Format::APE)
        } else {
            None
        }
    }

    /// The format of a file, told from its first bytes. Fails where the
    /// bytes give away no media type or one whose tags the library does not
    /// understand.
    pub fn from_bytes(head: &[u8]) -> (r: Result<Format, Error>)
        ensures
            match Format::identified(sniffed_mime(head@)) {
                Some(format) => r == Ok::<Format, Error>(format),
                None => r is Err && r->Err_0@ == unidentified(),
            },
    {
        let found = match sniff(head) {
            Some(mime) => Format::from_mime(mime),
            None => None,
        };
        match found {
            Some(format) => Ok(format),
            None => Err(Error::Decode(String::from_str("Could not identify format for file"))),
        }
    }

    /// Every format is named by an extension that names it and no other.
    pub proof fn lemma_ext_names_format(self)
        ensures
            Format::of_ext(self.ext_spec()) == Some(self),
    {
        reveal_strlit("flac");
        reveal_strlit("m4a");
        reveal_strlit("mp3");
        reveal_strlit("ape");
        assert("flac"@.len() == 4);
        assert("m4a"@[0] == 'm');
        assert("mp3"@[1] == 'p');
        assert("ape"@[0] == 'a');
        assert("flac"@[0] == 'f');
    }
}

} // verus!
