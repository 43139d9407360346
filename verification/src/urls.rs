//! URLs. A URL is held as its text; parsing, joining and reading the host are
//! the work of the `url` crate, whose results are named here.

use url::{ParseError, Url};
use vstd::prelude::*;

verus! {

/// `url::ParseError`: why a text is no URL, carried as it is.
#[verifier::external_type_specification]
#[verifier::external_body]
pub struct ExParseError(ParseError);

/// The serialization of the URL that `Url::parse` reads from `text`, or
/// `None` where it reads none.
pub uninterp spec fn url_parsed(text: Seq<char>) -> Option<Seq<char>>;

/// The serialization of the URL that `Url::join` makes of `relative` on the
/// URL parsed from `base`, or `None` where either fails.
pub uninterp spec fn url_joined(base: Seq<char>, relative: Seq<char>) -> Option<Seq<char>>;

/// The host that `Url::host_str` gives for the URL parsed from `text`, or
/// `None` where `text` is no URL or the URL has no host.
pub uninterp spec fn url_host(text: Seq<char>) -> Option<Seq<char>>;

/// Parses `text` with `Url::parse` and hands back the serialization of the
/// URL, which is a function of the text alone.
#[verifier::external_body]
pub(crate) fn parse_url(text: &str) -> (out: Result<String, ParseError>)
    ensures
        match out {
            Ok(url) => url_parsed(text@) == Some(url@),
            Err(_) => url_parsed(text@) is None,
        },
{
    Url::parse(text).map(String::from)
}

/// Parses `base` and resolves `relative` against it with `Url::join`; hands
/// back the serialization of the result, a function of the two texts alone.
#[verifier::external_body]
pub(crate) fn join_url(base: &str, relative: &str) -> (out: Result<String, ParseError>)
    ensures
        match out {
            Ok(url) => url_joined(base@, relative@) == Some(url@),
            Err(_) => url_joined(base@, relative@) is None,
        },
{
    Url::parse(base)?.join(relative).map(String::from)
}

/// Parses `text` and reads the host of the URL with `Url::host_str`.
#[verifier::external_body]
pub(crate) fn host_of(text: &str) -> (out: Option<String>)
    ensures
        out.deep_view() == url_host(text@),
{
    Url::parse(text).ok()?.host_str().map(String::from)
}

} // verus!
