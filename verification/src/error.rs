//! The failure kinds that every component reports.

use vstd::prelude::*;

verus! {

/// A recoverable failure. No kind is fatal to the process.
#[derive(Clone, Debug, PartialEq, Eq)]
pub enum Error {
    /// The transport failed before an answer arrived.
    Network(String),
    /// The catalog answered with a status outside the success range.
    Catalog { status: u16, body: String },
    /// Wire or row data was malformed.
    Decode(String),
    /// A required field was missing.
    Precondition(String),
    /// A shared aggregate still had another holder.
    Ownership,
    /// Storage or settings were not initialised.
    Configuration(String),
    /// No row matched an identifier.
    NotFound,
    /// More than one row matched an identifier.
    Ambiguous,
}

/// What an error is, with its texts as character sequences.
pub enum ErrorView {
    Network(Seq<char>),
    Catalog { status: u16, body: Seq<char> },
    Decode(Seq<char>),
    Precondition(Seq<char>),
    Ownership,
    Configuration(Seq<char>),
    NotFound,
    Ambiguous,
}

impl View for Error {
    type V = ErrorView;

    open spec fn view(&self) -> ErrorView {
        match *self {
            Error::Network(s) => ErrorView::Network(s@),
            Error::Catalog { status, body } => ErrorView::Catalog { status, body: body@ },
            Error::Decode(s) => ErrorView::Decode(s@),
            Error::Precondition(s) => ErrorView::Precondition(s@),
            Error::Ownership => ErrorView::Ownership,
            Error::Configuration(s) => ErrorView::Configuration(s@),
            Error::NotFound => ErrorView::NotFound,
            Error::Ambiguous => ErrorView::Ambiguous,
        }
    }
}

impl DeepView for Error {
    type V = ErrorView;

    open spec fn deep_view(&self) -> ErrorView {
        self@
    }
}

} // verus!
