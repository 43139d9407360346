//! Requests and responses as the library sees them: plain values, whatever
//! transport made the exchange.

use http::{HeaderMap, Version};
use vstd::prelude::*;

verus! {

/// `http::Version`: the protocol version of an exchange, carried as it is.
#[verifier::external_type_specification]
#[verifier::external_body]
pub struct ExVersion(Version);

/// A protocol version is a plain value; its clone is the same version.
pub assume_specification[ <Version as Clone>::clone ](version: &Version) -> (out: Version)
    ensures
        out == *version,
;

/// A response: status, headers, the URL that answered after redirects, the
/// protocol version, and the body text once it has been read.
#[derive(Debug, Clone)]
pub struct Response {
    pub status: u16,
    pub headers: HeaderMap,
    pub url: String,
    /// Absent until the body has been read.
    pub body: Option<String>,
    pub version: Version,
}

/// The body that a request was built with.
#[derive(Debug, Clone)]
pub enum RequestBody {
    /// The request has no body.
    Empty,
    /// The body is held as bytes.
    Bytes(Vec<u8>),
    /// The body is a stream, of which no bytes can be had.
    Stream,
}

/// A request as it was sent: target URL, headers and body.
#[derive(Debug, Clone)]
pub struct Request {
    pub url: String,
    pub headers: HeaderMap,
    pub body: RequestBody,
}

/// A status of the success class, 200 to 299.
pub open spec fn is_success_status(status: u16) -> bool {
    200 <= status < 300
}

impl Response {
    /// A response whose body has not been read.
    pub fn new(status: u16, headers: HeaderMap, url: String, version: Version) -> (out: Response)
        ensures
            out.status == status,
            out.headers == headers,
            out.url == url,
            out.version == version,
            out.body is None,
    {
        Response { status, headers, url, body: None, version }
    }

    /// A response together with the text of its body.
    pub fn parse(
        status: u16,
        headers: HeaderMap,
        url: String,
        version: Version,
        body: String,
    ) -> (out: Response)
        ensures
            out.status == status,
            out.headers == headers,
            out.url == url,
            out.version == version,
            out.body == Some(body),
    {
        Response { status, headers, url, body: Some(body), version }
    }

    /// Whether the status is of the success class.
    pub fn is_success(&self) -> (out: bool)
        ensures
            out == is_success_status(self.status),
    {
        200 <= self.status && self.status < 300
    }
}

} // verus!
