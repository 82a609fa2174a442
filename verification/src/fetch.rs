//! The exchange with a remote catalog: the requests to send, what an answer
//! means, the wire structures and how they become entities of the domain.
//!
//! Nothing here touches the network. A caller sends the request, hands the
//! answer's status and body to `Response::body`, and decodes the text.

pub mod musicbrainz;
pub mod structures;

use crate::error::{Error, ErrorView};
use vstd::prelude::*;

verus! {

/// A request to send: one `GET` of `url` that names the client in its
/// `User-Agent` header.
#[derive(Clone, Debug, PartialEq, Eq)]
pub struct Request {
    pub url: String,
    pub user_agent: String,
}

/// A request with its texts as character sequences.
pub struct RequestView {
    pub url: Seq<char>,
    pub user_agent: Seq<char>,
}

impl View for Request {
    type V = RequestView;

    open spec fn view(&self) -> RequestView {
        RequestView { url: self.url@, user_agent: self.user_agent@ }
    }
}

/// An answer as it arrived: its status code and its body.
#[derive(Clone, Debug, PartialEq, Eq)]
pub struct Response {
    pub status: u16,
    pub body: String,
}

/// A status code in the success range.
pub open spec fn is_success(status: u16) -> bool {
    200 <= status < 300
}

impl Response {
    /// The body of an answer with a success status. Any other status is a
    /// failure that carries the status and the body.
    pub fn body(self) -> (r: Result<String, Error>)
        ensures
            is_success(self.status) ==> r is Ok && r->Ok_0@ == self.body@,
            !is_success(self.status) ==> r is Err && r->Err_0@ == (ErrorView::Catalog {
                status: self.status,
                body: self.body@,
            }),
    {
        if 200 <= self.status && self.status < 300 {
            Ok(self.body)
        } else {
            Err(Error::Catalog { status: self.status, body: self.body })
        }
    }
}

/// The text of the error that is reported where a release to look up has no
/// identifier.
pub open spec fn no_identifier() -> ErrorView {
    ErrorView::Precondition(
        "The given release doesn't have an ID associated with it, can not fetch specific metadata"@,
    )
}

/// A remote catalog that can be searched for candidates and asked for the
/// full record of one.
pub trait Fetch {
    /// The request that searches for releases with the given title and
    /// artists.
    spec fn search_spec(&self, title: Seq<char>, artists: Seq<Seq<char>>) -> RequestView;

    /// The request that asks for the release with the given identifier.
    spec fn get_spec(&self, id: Seq<char>) -> RequestView;

    /// The request that searches the catalog for candidates for a release
    /// with the given title and artists.
    fn search(&self, title: &str, artists: &Vec<String>) -> (r: Request)
        ensures
            r@ == self.search_spec(title@, artists.deep_view()),
    ;

    /// The request that asks the catalog for the full record of a release.
    /// The release must have an identifier.
    fn get(&self, id: Option<&String>) -> (r: Result<Request, Error>)
        ensures
            match id {
                Some(id) => r is Ok && r->Ok_0@ == self.get_spec(id@),
                None => r is Err && r->Err_0@ == no_identifier(),
            },
    ;
}

} // verus!
