//! The registry of sources: the remote services that are probed and crawled.

use std::time::Duration;
use vstd::prelude::*;

verus! {

/// The registry, in the order of its document.
pub type Sources = Vec<Source>;

/// One remote statistical-data service.
#[derive(Debug, Clone)]
pub struct Source {
    pub id: String,
    pub data_content_type: Option<String>,
    /// The base URL of the service.
    pub url: String,
    pub name: String,
    pub supports: Option<Supports>,
    pub documentation: Option<String>,
    pub headers: Option<Headers>,
    /// Accept headers for structure queries (dataflows, data structures).
    pub structural_accept: Option<Accept>,
    /// The content types that the service answered with, one for each probe.
    pub response_content_types: Vec<String>,
    /// Accept headers for data queries.
    pub data_accept: Option<Accept>,
    /// How long each probe took.
    pub elapsed: Vec<Duration>,
}

/// What a probe run found: each Accept value that was tried is in one of
/// the two lists, in the order in which the values were tried.
#[derive(Debug, Clone)]
pub struct Accept {
    /// Accept headers answered with a success status.
    pub supported_accept_headers: Vec<String>,
    /// Accept headers answered with any other status.
    pub denied_accept_headers: Vec<String>,
}

/// Request headers that a source declares for itself.
#[derive(Debug, Clone)]
pub struct Headers {
    pub accept: String,
}

/// The kinds of query that a source declares to support.
#[derive(Debug, Clone)]
pub struct Supports {
    pub preview: Option<bool>,
    pub agencyscheme: Option<bool>,
    pub categoryscheme: Option<bool>,
    pub codelist: Option<bool>,
    pub conceptscheme: Option<bool>,
    pub provisionagreement: Option<bool>,
    pub structure_specific_data: Option<bool>,
    pub datastructure: Option<bool>,
}

} // verus!
