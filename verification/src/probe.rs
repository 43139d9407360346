//! Probing content negotiation: one request for each candidate Accept
//! value, each answer classified by its status.

use crate::error::Error;
use crate::headers::{first_value, header_entries, is_text, value_of, value_text};
use crate::queries::{dataflows_path, lemma_dataflows_path, metadata_query, slices};
use crate::reqwest_layer::{is_success_status, Response};
use crate::sdmx_sources::{Accept, Source};
use crate::text::{bytes_as_chars, texts};
use crate::urls::{join_url, parse_url, url_joined, url_parsed};
use std::time::Duration;
use vstd::prelude::*;
use vstd::string::StringExecFns;

verus! {

/// A duration is a plain value; its clone is the same duration.
pub assume_specification[ <std::time::Duration as Clone>::clone ](
    duration: &std::time::Duration,
) -> (out: std::time::Duration)
    ensures
        out == *duration,
;

/// What one probe observed: the status of the answer, its content type and
/// how long the exchange took.
#[derive(Debug, Clone)]
pub struct Observation {
    pub status: u16,
    pub content_type: String,
    pub elapsed: Duration,
}

/// The candidates answered with a status of the wanted class: those with a
/// success status where `supported` holds, the others where it does not.
/// The order of the candidates is kept.
pub open spec fn classified(
    candidates: Seq<Seq<char>>,
    statuses: Seq<u16>,
    supported: bool,
) -> Seq<Seq<char>>
    decreases candidates.len(),
{
    if candidates.len() == 0 || statuses.len() == 0 {
        Seq::empty()
    } else {
        let before = classified(candidates.drop_last(), statuses.drop_last(), supported);
        if is_success_status(statuses.last()) == supported {
            before.push(candidates.last())
        } else {
            before
        }
    }
}

/// What is recorded for an answer without a content type.
pub open spec fn no_content_type() -> Seq<char> {
    "NONE"@
}

/// The content type that an answer is recorded with: the text of its
/// `content-type` header, or the stand-in where it has none. `None` where
/// the header is there and is not text.
pub open spec fn content_type_of(entries: Seq<(Seq<char>, Seq<u8>)>) -> Option<Seq<char>> {
    match first_value(entries, "content-type"@) {
        None => Some(no_content_type()),
        Some(value) => if is_text(value) {
            Some(bytes_as_chars(value))
        } else {
            None
        },
    }
}

/// The statuses of a list of observations.
pub open spec fn statuses_of(observations: Seq<Observation>) -> Seq<u16> {
    Seq::new(observations.len(), |i: int| observations[i].status)
}

/// The content types of a list of observations.
pub open spec fn content_types_of(observations: Seq<Observation>) -> Seq<Seq<char>> {
    Seq::new(observations.len(), |i: int| observations[i].content_type@)
}

/// The durations of a list of observations.
pub open spec fn elapsed_of(observations: Seq<Observation>) -> Seq<Duration> {
    Seq::new(observations.len(), |i: int| observations[i].elapsed)
}

/// The Accept values that are tried, in the order in which they are tried.
pub fn accept_candidates() -> (out: Vec<String>)
    ensures
        texts(out@) == seq![
            "application/xml"@,
            "application/json"@,
            "application/vnd.sdmx.structure+xml;version=2.1"@,
            "application/vnd.sdmx.structure+json;version=1.0.0"@,
        ],
{
    let mut out: Vec<String> = Vec::new();
    out.push("application/xml".to_owned());
    out.push("application/json".to_owned());
    out.push("application/vnd.sdmx.structure+xml;version=2.1".to_owned());
    out.push("application/vnd.sdmx.structure+json;version=1.0.0".to_owned());
    out
}

/// The URL that is probed for a source: the probed path resolved against
/// the base URL of the source with a slash behind it, so that the path is
/// added to the base and does not replace its last segment.
pub fn probe_url(source_url: &str) -> (out: Result<String, Error>)
    ensures
        match out {
            Ok(url) => {
                &&& url_parsed(source_url@ + "/"@) matches Some(base)
                &&& url_joined(base, dataflows_path()) == Some(url@)
            },
            Err(Error::InvalidUrl(text)) => {
                &&& text@ == source_url@
                &&& url_parsed(source_url@ + "/"@) matches Some(base) ==> url_joined(
                    base,
                    dataflows_path(),
                ) is None
            },
            Err(_) => false,
        },
{
    let with_slash = source_url.to_owned().concat("/");
    let base = match parse_url(with_slash.as_str()) {
        Ok(base) => base,
        Err(_) => { return Err(Error::InvalidUrl(source_url.to_owned())); },
    };
    let mut segments: Vec<&str> = Vec::new();
    segments.push("dataflow");
    segments.push("all");
    segments.push("all");
    segments.push("latest");
    assert(slices(segments@) =~= seq!["dataflow"@, "all"@, "all"@, "latest"@]);
    proof {
        lemma_dataflows_path();
    }
    let path = metadata_query(segments);
    match join_url(base.as_str(), path.as_str()) {
        Ok(url) => Ok(url),
        Err(_) => Err(Error::InvalidUrl(source_url.to_owned())),
    }
}

/// The content type that an answer is recorded with. A missing header is no
/// error: the stand-in is recorded. A header that is not text is one.
pub fn observed_content_type(response: &Response) -> (out: Result<String, Error>)
    ensures
        match out {
            Ok(content_type) => content_type_of(header_entries(response.headers)) == Some(
                content_type@,
            ),
            Err(Error::HeaderNotText(name)) => name@ == "content-type"@ && content_type_of(
                header_entries(response.headers),
            ) is None,
            Err(_) => false,
        },
{
    proof {
        reveal_strlit("content-type");
    }
    match value_of(&response.headers, "content-type") {
        None => Ok("NONE".to_owned()),
        Some(value) => match value_text(&value) {
            Some(text) => Ok(text),
            None => Err(Error::HeaderNotText("content-type".to_owned())),
        },
    }
}

/// A probe run on one source: the candidates, and what was observed for
/// those that have been tried. The run owns its source until it is closed.
#[derive(Debug)]
pub struct Probe {
    source: Source,
    candidates: Vec<String>,
    observations: Vec<Observation>,
}

impl Probe {
    /// The source as it was handed to the run.
    pub closed spec fn source(&self) -> Source {
        self.source
    }

    /// The candidates of the run, in the order in which they are tried.
    pub closed spec fn candidates(&self) -> Seq<Seq<char>> {
        texts(self.candidates@)
    }

    /// What was observed so far, one observation for each candidate tried.
    pub closed spec fn observations(&self) -> Seq<Observation> {
        self.observations@
    }

    /// A run that has tried nothing yet.
    pub fn new(source: Source, candidates: Vec<String>) -> (out: Probe)
        ensures
            out.source() == source,
            out.candidates() == texts(candidates@),
            out.observations() == Seq::<Observation>::empty(),
    {
        Probe { source, candidates, observations: Vec::new() }
    }

    /// The candidate to try next, or `None` when all have been tried.
    pub fn next_accept(&self) -> (out: Option<String>)
        ensures
            match out {
                Some(accept) => self.observations().len() < self.candidates().len() && accept@
                    == self.candidates()[self.observations().len() as int],
                None => self.observations().len() >= self.candidates().len(),
            },
    {
        let tried = self.observations.len();
        if tried < self.candidates.len() {
            Some(self.candidates[tried].clone())
        } else {
            None
        }
    }

    /// Takes the answer to the candidate that was tried: its status, its
    /// content type and the time it took are kept. An answer whose content
    /// type is not text fails the run, and so does an answer to a run that
    /// has tried every candidate; the run is then as it was.
    pub fn record(&mut self, response: &Response, elapsed: Duration) -> (out: Result<(), Error>)
        ensures
            final(self).source() == old(self).source(),
            final(self).candidates() == old(self).candidates(),
            match out {
                Ok(_) => {
                    &&& old(self).observations().len() < old(self).candidates().len()
                    &&& content_type_of(header_entries(response.headers)) matches Some(content_type)
                    &&& final(self).observations().len() == old(self).observations().len() + 1
                    &&& final(self).observations().drop_last() == old(self).observations()
                    &&& final(self).observations().last().status == response.status
                    &&& final(self).observations().last().content_type@ == content_type
                    &&& final(self).observations().last().elapsed == elapsed
                },
                Err(Error::ProbeComplete) => {
                    &&& old(self).observations().len() >= old(self).candidates().len()
                    &&& final(self).observations() == old(self).observations()
                },
                Err(Error::HeaderNotText(name)) => {
                    &&& old(self).observations().len() < old(self).candidates().len()
                    &&& content_type_of(header_entries(response.headers)) is None
                    &&& final(self).observations() == old(self).observations()
                },
                Err(_) => false,
            },
    {
        if self.observations.len() >= self.candidates.len() {
            return Err(Error::ProbeComplete);
        }
        let content_type = match observed_content_type(response) {
            Ok(content_type) => content_type,
            Err(e) => { return Err(e); },
        };
        self.observations.push(Observation { status: response.status, content_type, elapsed });
        Ok(())
    }

    /// Closes a run that has tried every candidate and hands the source
    /// back with what was found: the negotiation result replaces the one
    /// the source had, the content types and durations are added behind
    /// those it had, and nothing else changes. A run that has not tried
    /// every candidate has no result.
    pub fn finish(self) -> (out: Result<Source, Error>)
        ensures
            match out {
                Ok(source) => {
                    &&& self.observations().len() == self.candidates().len()
                    &&& source.structural_accept matches Some(accept)
                    &&& texts(accept.supported_accept_headers@) == classified(
                        self.candidates(),
                        statuses_of(self.observations()),
                        true,
                    )
                    &&& texts(accept.denied_accept_headers@) == classified(
                        self.candidates(),
                        statuses_of(self.observations()),
                        false,
                    )
                    &&& texts(accept.supported_accept_headers@).to_set().union(
                        texts(accept.denied_accept_headers@).to_set(),
                    ) == self.candidates().to_set()
                    &&& self.candidates().no_duplicates() ==> texts(
                        accept.supported_accept_headers@,
                    ).to_set().disjoint(texts(accept.denied_accept_headers@).to_set())
                    &&& texts(source.response_content_types@) == texts(
                        self.source().response_content_types@,
                    ) + content_types_of(self.observations())
                    &&& source.elapsed@ == self.source().elapsed@ + elapsed_of(self.observations())
                    &&& source.id == self.source().id
                    &&& source.url == self.source().url
                    &&& source.name == self.source().name
                    &&& source.data_content_type == self.source().data_content_type
                    &&& source.supports == self.source().supports
                    &&& source.documentation == self.source().documentation
                    &&& source.headers == self.source().headers
                    &&& source.data_accept == self.source().data_accept
                },
                Err(Error::ProbeIncomplete) => self.observations().len() != self.candidates().len(),
                Err(_) => false,
            },
    {
        let Probe { source, candidates, observations } = self;
        let n = candidates.len();
        if observations.len() != n {
            return Err(Error::ProbeIncomplete);
        }
        let ghost names = texts(candidates@);
        let ghost statuses = statuses_of(observations@);
        let ghost seen = observations@;
        let ghost types_before = texts(source.response_content_types@);
        let ghost elapsed_before = source.elapsed@;
        let mut source = source;
        let mut supported: Vec<String> = Vec::new();
        let mut denied: Vec<String> = Vec::new();
        let mut i: usize = 0;
        while i < n
            invariant
                i <= n,
                n == candidates.len(),
                n == observations.len(),
                names == texts(candidates@),
                statuses == statuses_of(observations@),
                seen == observations@,
                texts(supported@) == classified(
                    names.take(i as int),
                    statuses.take(i as int),
                    true,
                ),
                texts(denied@) == classified(
                    names.take(i as int),
                    statuses.take(i as int),
                    false,
                ),
                texts(source.response_content_types@) == types_before + content_types_of(
                    seen.take(i as int),
                ),
                source.elapsed@ == elapsed_before + elapsed_of(seen.take(i as int)),
                source.id == self.source.id,
                source.url == self.source.url,
                source.name == self.source.name,
                source.data_content_type == self.source.data_content_type,
                source.supports == self.source.supports,
                source.documentation == self.source.documentation,
                source.headers == self.source.headers,
                source.data_accept == self.source.data_accept,
            decreases n - i,
        {
            proof {
                assert(names.take(i + 1).drop_last() =~= names.take(i as int));
                assert(statuses.take(i + 1).drop_last() =~= statuses.take(i as int));
            }
            let ghost types = texts(source.response_content_types@);
            let status = observations[i].status;
            if 200 <= status && status < 300 {
                supported.push(candidates[i].clone());
            } else {
                denied.push(candidates[i].clone());
            }
            source.response_content_types.push(observations[i].content_type.clone());
            assert(texts(source.response_content_types@) =~= types.push(
                seen[i as int].content_type@,
            ));
            source.elapsed.push(observations[i].elapsed.clone());
            i += 1;
        }
        assert(names.take(n as int) =~= names);
        assert(statuses.take(n as int) =~= statuses);
        proof {
            lemma_classified_total(names, statuses);
            if names.no_duplicates() {
                lemma_classified_disjoint(names, statuses);
            }
        }
        source.structural_accept = Some(
            Accept { supported_accept_headers: supported, denied_accept_headers: denied },
        );
        Ok(source)
    }
}

/// The sources of the runs that succeeded, in the order of the runs. A run
/// that failed leaves its source out and takes nothing from the others.
pub open spec fn succeeded(results: Seq<Result<Source, Error>>) -> Seq<Source>
    decreases results.len(),
{
    if results.len() == 0 {
        Seq::empty()
    } else {
        match results.last() {
            Ok(source) => succeeded(results.drop_last()).push(source),
            Err(_) => succeeded(results.drop_last()),
        }
    }
}

/// Gathers what a batch of runs produced: the sources of the runs that
/// succeeded.
pub fn successful(results: Vec<Result<Source, Error>>) -> (out: Vec<Source>)
    ensures
        out@ == succeeded(results@),
{
    let ghost all = results@;
    let mut out: Vec<Source> = Vec::new();
    for result in it: results
        invariant
            it.seq() == all,
            out@ == succeeded(all.take(it.index() as int)),
    {
        assert(all.take(it.index() + 1).drop_last() =~= all.take(it.index() as int));
        match result {
            Ok(source) => {
                out.push(source);
            },
            Err(_) => {},
        }
    }
    assert(all.take(all.len() as int) =~= all);
    out
}

/// Every candidate is classified: it is among the supported or among the
/// denied, and nothing else is in either list.
pub proof fn lemma_classified_total(candidates: Seq<Seq<char>>, statuses: Seq<u16>)
    requires
        candidates.len() == statuses.len(),
    ensures
        classified(candidates, statuses, true).to_set().union(
            classified(candidates, statuses, false).to_set(),
        ) == candidates.to_set(),
        classified(candidates, statuses, true).len() + classified(candidates, statuses, false).len()
            == candidates.len(),
    decreases candidates.len(),
{
    if candidates.len() > 0 {
        let before = candidates.drop_last();
        let last = candidates.last();
        lemma_classified_total(before, statuses.drop_last());
        assert(candidates == before.push(last));
        before.lemma_push_to_set_commute(last);
        classified(before, statuses.drop_last(), true).lemma_push_to_set_commute(last);
        classified(before, statuses.drop_last(), false).lemma_push_to_set_commute(last);
    }
}

/// Where no candidate is listed twice, no candidate is both supported and
/// denied: the two lists part the candidates.
pub proof fn lemma_classified_disjoint(candidates: Seq<Seq<char>>, statuses: Seq<u16>)
    requires
        candidates.len() == statuses.len(),
        candidates.no_duplicates(),
    ensures
        classified(candidates, statuses, true).to_set().disjoint(
            classified(candidates, statuses, false).to_set(),
        ),
    decreases candidates.len(),
{
    if candidates.len() > 0 {
        let before = candidates.drop_last();
        let last = candidates.last();
        lemma_classified_disjoint(before, statuses.drop_last());
        lemma_classified_total(before, statuses.drop_last());
        assert(!before.to_set().contains(last)) by {
            if before.contains(last) {
                let k = before.lemma_contains_to_index(last);
                assert(candidates[k] == candidates[candidates.len() - 1]);
            }
        }
        classified(before, statuses.drop_last(), true).lemma_push_to_set_commute(last);
        classified(before, statuses.drop_last(), false).lemma_push_to_set_commute(last);
    }
}

} // verus!
