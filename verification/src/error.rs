//! The errors of the library.

use vstd::prelude::*;
use vstd::string::StringExecFns;

verus! {

/// What can go wrong in a lookup, an archival, a probe or a crawl step.
#[derive(Debug, Clone)]
pub enum Error {
    /// A query was given no segment, or more than five.
    IncorrectNumberOfItems,
    /// No source of the registry has the id.
    NoSource(String),
    /// More than one source of the registry has the id.
    AmbiguousSource(String),
    /// The text is no URL, or no URL can be made of it.
    InvalidUrl(String),
    /// The URL has no host.
    NoHost(String),
    /// The value of the named header is not visible ASCII text.
    HeaderNotText(String),
    /// The named header could not be set.
    HeaderRefused(String),
    /// The body of the request is a stream, not bytes.
    BodyNotBytes,
    /// The body of the response has not been read.
    NoBody,
    /// The response names no content type.
    NoContentType,
    /// The response has a content type that is not JSON.
    InvalidContentType(String),
    /// The body of the response from the URL is no document of the kind
    /// expected.
    InvalidJson(String),
    /// The document lists no dataflows.
    MissingDataflows,
    /// Request and response do not name the same URL.
    UrlMismatch,
    /// A record could not be written.
    RecordNotWritten,
    /// A request got no answer; the text says why.
    Transport(String),
    /// An answer was handed to a probe that has tried all its candidates.
    ProbeComplete,
    /// A probe was closed before all its candidates were tried.
    ProbeIncomplete,
}

/// An error as a value of specifications: the same cases, with texts in
/// place of strings.
pub enum ErrorView {
    IncorrectNumberOfItems,
    NoSource(Seq<char>),
    AmbiguousSource(Seq<char>),
    InvalidUrl(Seq<char>),
    NoHost(Seq<char>),
    HeaderNotText(Seq<char>),
    HeaderRefused(Seq<char>),
    BodyNotBytes,
    NoBody,
    NoContentType,
    InvalidContentType(Seq<char>),
    InvalidJson(Seq<char>),
    MissingDataflows,
    UrlMismatch,
    RecordNotWritten,
    Transport(Seq<char>),
    ProbeComplete,
    ProbeIncomplete,
}

impl View for Error {
    type V = ErrorView;

    open spec fn view(&self) -> ErrorView {
        match self {
            Error::IncorrectNumberOfItems => ErrorView::IncorrectNumberOfItems,
            Error::NoSource(id) => ErrorView::NoSource(id@),
            Error::AmbiguousSource(id) => ErrorView::AmbiguousSource(id@),
            Error::InvalidUrl(text) => ErrorView::InvalidUrl(text@),
            Error::NoHost(url) => ErrorView::NoHost(url@),
            Error::HeaderNotText(name) => ErrorView::HeaderNotText(name@),
            Error::HeaderRefused(name) => ErrorView::HeaderRefused(name@),
            Error::BodyNotBytes => ErrorView::BodyNotBytes,
            Error::NoBody => ErrorView::NoBody,
            Error::NoContentType => ErrorView::NoContentType,
            Error::InvalidContentType(found) => ErrorView::InvalidContentType(found@),
            Error::InvalidJson(url) => ErrorView::InvalidJson(url@),
            Error::MissingDataflows => ErrorView::MissingDataflows,
            Error::UrlMismatch => ErrorView::UrlMismatch,
            Error::RecordNotWritten => ErrorView::RecordNotWritten,
            Error::Transport(why) => ErrorView::Transport(why@),
            Error::ProbeComplete => ErrorView::ProbeComplete,
            Error::ProbeIncomplete => ErrorView::ProbeIncomplete,
        }
    }
}

impl ErrorView {
    /// What the error says.
    pub open spec fn message(self) -> Seq<char> {
        match self {
            ErrorView::IncorrectNumberOfItems => "Incorrect number of items"@,
            ErrorView::NoSource(id) => "No source found for ID "@ + id,
            ErrorView::AmbiguousSource(id) => "More than one source found for ID "@ + id,
            ErrorView::InvalidUrl(text) => "Invalid URL "@ + text,
            ErrorView::NoHost(url) => "No host string for url "@ + url,
            ErrorView::HeaderNotText(name) => "Header value is not visible ASCII: "@ + name,
            ErrorView::HeaderRefused(name) => "Header could not be set: "@ + name,
            ErrorView::BodyNotBytes => "Could not convert request body to bytes"@,
            ErrorView::NoBody => "No body from response"@,
            ErrorView::NoContentType => "No Content Type from response"@,
            ErrorView::InvalidContentType(found) => "Invalid content type "@ + found,
            ErrorView::InvalidJson(url) => "Failed to parse JSON from response "@ + url,
            ErrorView::MissingDataflows => "missing dataflows"@,
            ErrorView::UrlMismatch => "URLs on request and response are not equal"@,
            ErrorView::RecordNotWritten => "Could not write record"@,
            ErrorView::Transport(why) => "No answer to the request: "@ + why,
            ErrorView::ProbeComplete => "All candidates have been probed"@,
            ErrorView::ProbeIncomplete => "Not all candidates have been probed"@,
        }
    }
}

impl Error {
    /// The error in words.
    pub fn message(&self) -> (out: String)
        ensures
            out@ == self@.message(),
    {
        match self {
            Error::IncorrectNumberOfItems => "Incorrect number of items".to_owned(),
            Error::NoSource(id) => "No source found for ID ".to_owned().concat(id.as_str()),
            Error::AmbiguousSource(id) => "More than one source found for ID ".to_owned().concat(
                id.as_str(),
            ),
            Error::InvalidUrl(text) => "Invalid URL ".to_owned().concat(text.as_str()),
            Error::NoHost(url) => "No host string for url ".to_owned().concat(url.as_str()),
            Error::HeaderNotText(name) => "Header value is not visible ASCII: ".to_owned().concat(
                name.as_str(),
            ),
            Error::HeaderRefused(name) => "Header could not be set: ".to_owned().concat(
                name.as_str(),
            ),
            Error::BodyNotBytes => "Could not convert request body to bytes".to_owned(),
            Error::NoBody => "No body from response".to_owned(),
            Error::NoContentType => "No Content Type from response".to_owned(),
            Error::InvalidContentType(found) => "Invalid content type ".to_owned().concat(
                found.as_str(),
            ),
            Error::InvalidJson(url) => "Failed to parse JSON from response ".to_owned().concat(
                url.as_str(),
            ),
            Error::MissingDataflows => "missing dataflows".to_owned(),
            Error::UrlMismatch => "URLs on request and response are not equal".to_owned(),
            Error::RecordNotWritten => "Could not write record".to_owned(),
            Error::Transport(why) => "No answer to the request: ".to_owned().concat(why.as_str()),
            Error::ProbeComplete => "All candidates have been probed".to_owned(),
            Error::ProbeIncomplete => "Not all candidates have been probed".to_owned(),
        }
    }
}

} // verus!
