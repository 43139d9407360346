//! Paths of metadata queries: `resource/agency/resource_id/version/item`.

use crate::error::Error;
use crate::text::{chars_of, joined, string_of};
use vstd::prelude::*;

verus! {

/// A metadata query: a resource type, then up to four narrowing segments.
/// Agency, resource id and item are identifiers.
#[derive(Debug)]
pub struct MetadataQuery {
    /// The kind of artefact asked for, such as `dataflow`, `codelist` or
    /// `datastructure`.
    resource: String,
    agency: Option<String>,
    resource_id: Option<String>,
    item: Option<String>,
    /// The metadata version.
    version: Option<String>,
}

/// The text of an optional segment as a list of at most one segment.
pub open spec fn segment_of(field: Option<String>) -> Seq<Seq<char>> {
    match field {
        Some(s) => seq![s@],
        None => Seq::empty(),
    }
}

/// The segments that are not empty, in order.
pub open spec fn present(segments: Seq<Seq<char>>) -> Seq<Seq<char>> {
    segments.filter(|s: Seq<char>| s.len() > 0)
}

/// The path that a list of segments renders to: the segments that are not
/// empty, with a slash between each two.
pub open spec fn path_of(segments: Seq<Seq<char>>) -> Seq<char> {
    joined(present(segments), seq!['/'])
}

/// The path of the query for all dataflows of all agencies in their latest
/// version.
pub open spec fn dataflows_path() -> Seq<char> {
    "dataflow/all/all/latest"@
}

/// The texts of a list of string slices.
pub open spec fn slices(items: Seq<&str>) -> Seq<Seq<char>> {
    Seq::new(items.len(), |i: int| items[i]@)
}

impl View for MetadataQuery {
    type V = Seq<Seq<char>>;

    /// The segments of the query in path order: resource, agency, resource
    /// id, version, item.
    closed spec fn view(&self) -> Seq<Seq<char>> {
        seq![self.resource@] + segment_of(self.agency) + segment_of(self.resource_id) + segment_of(
            self.version,
        ) + segment_of(self.item)
    }
}

impl MetadataQuery {
    /// A later segment is there only where the one before it is.
    pub closed spec fn wf(&self) -> bool {
        &&& self.resource_id is Some ==> self.agency is Some
        &&& self.version is Some ==> self.resource_id is Some
        &&& self.item is Some ==> self.version is Some
    }

    /// The query of one to five segments; any other number is refused.
    pub fn new(items: Vec<&str>) -> (out: Result<MetadataQuery, Error>)
        ensures
            out is Ok <==> 1 <= items.len() <= 5,
            out matches Ok(q) ==> q@ == slices(items@) && q.wf(),
            out matches Err(e) ==> e is IncorrectNumberOfItems,
    {
        let n = items.len();
        if n >= 1 && n <= 5 {
            let q = MetadataQuery {
                resource: items[0].to_owned(),
                agency: if n > 1 {
                    Some(items[1].to_owned())
                } else {
                    None
                },
                resource_id: if n > 2 {
                    Some(items[2].to_owned())
                } else {
                    None
                },
                version: if n > 3 {
                    Some(items[3].to_owned())
                } else {
                    None
                },
                item: if n > 4 {
                    Some(items[4].to_owned())
                } else {
                    None
                },
            };
            Ok(q)
        } else {
            Err(Error::IncorrectNumberOfItems)
        }
    }

    /// The path of the query: its segments that are not empty, joined by
    /// slashes.
    pub fn to_string(&self) -> (out: String)
        ensures
            out@ == path_of(self@),
    {
        let mut path: Vec<char> = Vec::new();
        let ghost mut done: Seq<Seq<char>> = Seq::empty();
        proof {
            lemma_present_empty();
        }
        push_segment(&mut path, self.resource.as_str(), Ghost(done));
        proof {
            done = done.push(self.resource@);
        }
        if let Some(s) = &self.agency {
            push_segment(&mut path, s.as_str(), Ghost(done));
            proof {
                done = done.push(s@);
            }
        }
        if let Some(s) = &self.resource_id {
            push_segment(&mut path, s.as_str(), Ghost(done));
            proof {
                done = done.push(s@);
            }
        }
        if let Some(s) = &self.version {
            push_segment(&mut path, s.as_str(), Ghost(done));
            proof {
                done = done.push(s@);
            }
        }
        if let Some(s) = &self.item {
            push_segment(&mut path, s.as_str(), Ghost(done));
            proof {
                done = done.push(s@);
            }
        }
        assert(done =~= self@);
        string_of(&path)
    }
}

/// Nothing is present in the empty list, and it renders to the empty path.
proof fn lemma_present_empty()
    ensures
        present(Seq::empty()) == Seq::<Seq<char>>::empty(),
        path_of(Seq::empty()) == Seq::<char>::empty(),
{
    reveal(Seq::filter);
}

/// Rendering one segment more: an empty segment changes nothing, another
/// one is appended, behind a slash unless it is the first.
pub proof fn lemma_path_push(done: Seq<Seq<char>>, segment: Seq<char>)
    ensures
        path_of(done.push(segment)) == if segment.len() == 0 {
            path_of(done)
        } else if present(done).len() == 0 {
            segment
        } else {
            path_of(done) + seq!['/'] + segment
        },
        present(done.push(segment)) == if segment.len() == 0 {
            present(done)
        } else {
            present(done).push(segment)
        },
{
    reveal(Seq::filter);
    assert(done.push(segment).drop_last() =~= done);
    if segment.len() > 0 {
        assert(present(done).push(segment).drop_last() =~= present(done));
    }
}

/// The four segments of the query for all dataflows render to its path.
pub proof fn lemma_dataflows_path()
    ensures
        path_of(seq!["dataflow"@, "all"@, "all"@, "latest"@]) == dataflows_path(),
{
    reveal_strlit("dataflow");
    reveal_strlit("all");
    reveal_strlit("latest");
    reveal_strlit("dataflow/all/all/latest");
    let none: Seq<Seq<char>> = Seq::empty();
    let one = seq!["dataflow"@];
    let two = seq!["dataflow"@, "all"@];
    let three = seq!["dataflow"@, "all"@, "all"@];
    let four = seq!["dataflow"@, "all"@, "all"@, "latest"@];
    lemma_present_empty();
    lemma_path_push(none, "dataflow"@);
    lemma_path_push(one, "all"@);
    assert(one.push("all"@) =~= two);
    lemma_path_push(two, "all"@);
    assert(two.push("all"@) =~= three);
    lemma_path_push(three, "latest"@);
    assert(three.push("latest"@) =~= four);
}

/// Appends one segment to a path under construction.
fn push_segment(path: &mut Vec<char>, segment: &str, Ghost(done): Ghost<Seq<Seq<char>>>)
    requires
        old(path)@ == path_of(done),
        old(path)@.len() == 0 <==> present(done).len() == 0,
    ensures
        final(path)@ == path_of(done.push(segment@)),
        final(path)@.len() == 0 <==> present(done.push(segment@)).len() == 0,
{
    proof {
        lemma_path_push(done, segment@);
    }
    let mut chars = chars_of(segment);
    if chars.len() > 0 {
        if path.len() > 0 {
            path.push('/');
        }
        path.append(&mut chars);
    }
}

/// The path that a list of segments renders to: the segments that are not
/// empty, joined by slashes.
pub fn metadata_query(items: Vec<&str>) -> (out: String)
    ensures
        out@ == path_of(slices(items@)),
{
    let mut path: Vec<char> = Vec::new();
    let ghost segments = slices(items@);
    let mut i: usize = 0;
    proof {
        lemma_present_empty();
    }
    while i < items.len()
        invariant
            i <= items.len(),
            segments == slices(items@),
            path@ == path_of(segments.take(i as int)),
            path@.len() == 0 <==> present(segments.take(i as int)).len() == 0,
        decreases items.len() - i,
    {
        push_segment(&mut path, items[i], Ghost(segments.take(i as int)));
        assert(segments.take(i + 1) =~= segments.take(i as int).push(items@[i as int]@));
        i += 1;
    }
    assert(segments.take(items.len() as int) =~= segments);
    string_of(&path)
}

} // verus!
