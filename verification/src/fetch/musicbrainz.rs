//! The MusicBrainz catalog: the requests it takes and what its answers mean.

use crate::error::Error;
use crate::fetch::structures::{Release, ReleaseSearch};
use crate::fetch::{Fetch, Request, RequestView, Response};
use crate::text::{decimal, decimal_text, join_strings, joined};
use vstd::prelude::*;
use vstd::string::*;

verus! {

/// The number of candidates that a search asks for where none was chosen.
pub const DEFAULT_COUNT: u32 = 50;

/// How the library names itself to the catalog.
pub const MB_USER_AGENT: &'static str = "tracklib/0.1.0";

/// The MusicBrainz catalog, with the number of candidates to ask for.
#[derive(Clone, Debug, PartialEq, Eq)]
pub struct MusicBrainz {
    count: u32,
}

/// The address that searches releases by title and artists, asking for
/// `count` candidates.
pub open spec fn search_url(title: Seq<char>, artists: Seq<Seq<char>>, count: u32) -> Seq<char> {
    "http://musicbrainz.org/ws/2/release/?query=release:"@ + title + " artist:"@ + joined(
        artists,
        ", "@,
    ) + "&fmt=json&limit="@ + decimal_text(count as nat)
}

/// The address of the full record of the release with the identifier `id`.
pub open spec fn get_url(id: Seq<char>) -> Seq<char> {
    "http://musicbrainz.org/ws/2/release/"@ + id
        + "?fmt=json&inc=artists+labels+recordings+release-groups"@
}

impl MusicBrainz {
    /// The number of candidates that a search asks for.
    pub closed spec fn count_spec(&self) -> u32 {
        self.count
    }

    /// The catalog, asking for `count` candidates or, where none is given,
    /// for `DEFAULT_COUNT`.
    pub fn new(_token: Option<String>, count: Option<u32>) -> (r: Self)
        ensures
            r.count_spec() == match count {
                Some(c) => c,
                None => DEFAULT_COUNT,
            },
    {
        MusicBrainz {
            count: match count {
                Some(c) => c,
                None => DEFAULT_COUNT,
            },
        }
    }

    /// The number of candidates that a search asks for.
    pub fn count(&self) -> (r: u32)
        ensures
            r == self.count_spec(),
    {
        self.count
    }
}

impl Fetch for MusicBrainz {
    open spec fn search_spec(&self, title: Seq<char>, artists: Seq<Seq<char>>) -> RequestView {
        RequestView {
            url: search_url(title, artists, self.count_spec()),
            user_agent: MB_USER_AGENT@,
        }
    }

    open spec fn get_spec(&self, id: Seq<char>) -> RequestView {
        RequestView { url: get_url(id), user_agent: MB_USER_AGENT@ }
    }

    fn search(&self, title: &str, artists: &Vec<String>) -> (r: Request) {
        let mut url = String::from_str("http://musicbrainz.org/ws/2/release/?query=release:");
        url.append(title);
        url.append(" artist:");
        let names = join_strings(artists, ", ");
        url.append(names.as_str());
        url.append("&fmt=json&limit=");
        let limit = decimal(self.count as u64);
        url.append(limit.as_str());
        Request { url, user_agent: String::from_str(MB_USER_AGENT) }
    }

    fn get(&self, id: Option<&String>) -> (r: Result<Request, Error>) {
        match id {
            Some(id) => {
                let mut url = String::from_str("http://musicbrainz.org/ws/2/release/");
                url.append(id.as_str());
                url.append("?fmt=json&inc=artists+labels+recordings+release-groups");
                Ok(Request { url, user_agent: String::from_str(MB_USER_AGENT) })
            },
            None => Err(
                Error::Precondition(
                    String::from_str(
                        "The given release doesn't have an ID associated with it, can not fetch specific metadata",
                    ),
                ),
            ),
        }
    }
}

/// The candidates of a search answer, in the catalog's order of relevance.
pub fn candidates(found: ReleaseSearch) -> (r: Vec<Release>)
    ensures
        r == found.releases,
{
    found.releases
}

} // verus!
