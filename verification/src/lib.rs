//! Probing and archiving of remote statistical-data web services.
//!
//! The library decides and records; it makes no request and touches no
//! file. A program around it sends the requests that a [`probe::Probe`] or a
//! [`crawler::Crawl`] asks for, hands back the answers, and stores the
//! archives that [`reqwest_warc::write_warc`] makes of each exchange.
//!
//! Every function states what it returns in terms of a few plain notions:
//! texts as sequences of characters ([`text`]), what a header map holds
//! ([`headers`]), and what the `url`, `ulid`, `serde_json` and `warc` crates
//! give back ([`urls`], [`ids`], [`json`], [`reqwest_warc`]).

pub mod crawler;
pub mod error;
pub mod headers;
pub mod ids;
pub mod json;
pub mod minimal_structure;
pub mod payload;
pub mod probe;
pub mod queries;
pub mod reqwest_layer;
pub mod reqwest_warc;
pub mod sdmx_sources;
pub mod stage;
pub mod structure;
pub mod text;
pub mod urls;
pub mod util;
