//! Lookups in the registry, and the canonical key of a host.

use crate::error::Error;
use crate::sdmx_sources::{Source, Sources};
use crate::text::{
    chars_of, joined, lemma_joined_push, rows, split_chars, split_on, string_of, texts,
};
use crate::urls::{host_of, url_host};
use vstd::prelude::*;

verus! {

/// The sources whose id is one of `ids`, in the order of `sources`.
pub open spec fn with_ids(sources: Seq<Source>, ids: Seq<Seq<char>>) -> Seq<Source> {
    sources.filter(|s: Source| ids.contains(s.id@))
}

/// Whether `id` is one of `ids`.
fn is_wanted(ids: &Vec<String>, id: &String) -> (found: bool)
    ensures
        found == texts(ids@).contains(id@),
{
    let mut i: usize = 0;
    while i < ids.len()
        invariant
            i <= ids.len(),
            forall|j: int| 0 <= j < i ==> texts(ids@)[j] != id@,
        decreases ids.len() - i,
    {
        if ids[i] == *id {
            assert(texts(ids@)[i as int] == id@);
            return true;
        }
        i += 1;
    }
    false
}

/// Keeps the sources whose id is asked for, in their order. An id that no
/// source has is no error: it selects nothing.
pub fn filter_sources(sources: Sources, source_ids: Vec<String>) -> (out: Result<Sources, Error>)
    ensures
        out matches Ok(kept) && kept@ == with_ids(sources@, texts(source_ids@)),
{
    let ghost all = sources@;
    let ghost ids = texts(source_ids@);
    let mut kept: Vec<Source> = Vec::new();
    proof {
        reveal(Seq::filter);
    }
    for source in it: sources
        invariant
            it.seq() == all,
            ids == texts(source_ids@),
            kept@ == with_ids(all.take(it.index() as int), ids),
    {
        proof {
            reveal(Seq::filter);
            assert(all.take(it.index() + 1).drop_last() =~= all.take(it.index() as int));
        }
        if is_wanted(&source_ids, &source.id) {
            kept.push(source);
        }
    }
    assert(all.take(all.len() as int) =~= all);
    Ok(kept)
}

/// Ids that no source has select nothing.
pub proof fn lemma_unknown_ids_select_nothing(sources: Seq<Source>, ids: Seq<Seq<char>>)
    requires
        forall|i: int| 0 <= i < sources.len() ==> !ids.contains(#[trigger] sources[i].id@),
    ensures
        with_ids(sources, ids) == Seq::<Source>::empty(),
    decreases sources.len(),
{
    reveal(Seq::filter);
    if sources.len() > 0 {
        lemma_unknown_ids_select_nothing(sources.drop_last(), ids);
    }
}

/// The one source with the given id. A registry that holds none, or more
/// than one, is refused.
pub fn get_source(sources: Sources, source_id: String) -> (out: Result<Source, Error>)
    ensures
        match out {
            Ok(source) => with_ids(sources@, seq![source_id@]) == seq![source],
            Err(Error::NoSource(id)) => id == source_id && with_ids(
                sources@,
                seq![source_id@],
            ).len() == 0,
            Err(Error::AmbiguousSource(id)) => id == source_id && with_ids(
                sources@,
                seq![source_id@],
            ).len() > 1,
            Err(_) => false,
        },
{
    let mut ids: Vec<String> = Vec::new();
    ids.push(source_id.clone());
    assert(texts(ids@) =~= seq![source_id@]);
    let mut found = match filter_sources(sources, ids) {
        Ok(found) => found,
        Err(e) => { return Err(e); },
    };
    if found.len() == 1 {
        match found.pop() {
            Some(source) => {
                Ok(source)
            },
            None => Err(Error::NoSource(source_id)),
        }
    } else if found.len() == 0 {
        Err(Error::NoSource(source_id))
    } else {
        Err(Error::AmbiguousSource(source_id))
    }
}

/// The canonical key of a host: its labels in reverse order with commas
/// between them, closed by a parenthesis, so `example.com` gives
/// `com,example)`.
pub open spec fn canonical_key_of(host: Seq<char>) -> Seq<char> {
    joined(split_on(host, '.').reverse(), seq![',']) + seq![')']
}

/// Computes the canonical key of a host.
pub fn canonical_key(host: &str) -> (out: String)
    ensures
        out@ == canonical_key_of(host@),
{
    let chars = chars_of(host);
    let labels = split_chars(&chars, '.');
    let n = labels.len();
    let ghost reversed = rows(labels@).reverse();
    let mut key: Vec<char> = Vec::new();
    let mut k: usize = 0;
    while k < n
        invariant
            n == labels.len(),
            k <= n,
            reversed == rows(labels@).reverse(),
            key@ == joined(reversed.take(k as int), seq![',']),
        decreases n - k,
    {
        proof {
            lemma_joined_push(reversed.take(k as int), seq![','], reversed[k as int]);
            assert(reversed.take(k + 1) =~= reversed.take(k as int).push(reversed[k as int]));
        }
        if k > 0 {
            key.push(',');
        }
        let label = &labels[n - 1 - k];
        let mut j: usize = 0;
        let ghost start = key@;
        while j < label.len()
            invariant
                j <= label.len(),
                key@ == start + label@.take(j as int),
            decreases label.len() - j,
        {
            key.push(label[j]);
            j += 1;
        }
        k += 1;
    }
    assert(reversed.take(n as int) =~= reversed);
    key.push(')');
    string_of(&key)
}

/// The canonical key of the host of a URL; a URL without a host has none.
pub fn cdx_url_canonical(url: &str) -> (out: Result<String, Error>)
    ensures
        match out {
            Ok(key) => url_host(url@) matches Some(host) && key@ == canonical_key_of(host),
            Err(Error::NoHost(text)) => url_host(url@) is None && text@ == url@,
            Err(_) => false,
        },
{
    match host_of(url) {
        Some(host) => Ok(canonical_key(host.as_str())),
        None => Err(Error::NoHost(url.to_owned())),
    }
}

} // verus!
