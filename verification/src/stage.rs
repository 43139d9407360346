//! The stages of a crawl. A stage names the URIs to request from what the
//! stage before it extracted, and extracts from each answer what the next
//! stage starts from.

use crate::error::{Error, ErrorView};
use crate::headers::{first_value, header_entries, is_text, value_of, value_text};
use crate::minimal_structure::Dataflow;
use crate::queries::{dataflows_path, lemma_dataflows_path, metadata_query, slices};
use crate::reqwest_layer::Response;
use crate::structure::DataflowTypeElement;
use crate::text::{
    bytes_as_chars, chars_of, contains_chars, contains_seq, skip_leading, skip_leading_char,
    string_of, texts, trim_chars, trimmed,
};
use vstd::prelude::*;

verus! {

/// What was read from the body of an answer: the dataflows that the
/// document lists, where it lists any.
#[derive(Debug)]
pub struct StructureDocument {
    pub dataflows: Option<Vec<DataflowTypeElement>>,
}

/// Whether a content type announces JSON: plain JSON, or the JSON form of
/// structure messages.
pub open spec fn is_json_type(content_type: Seq<char>) -> bool {
    ||| contains_seq(content_type, "application/json"@)
    ||| contains_seq(content_type, "application/vnd.sdmx.structure+json"@)
}

/// The body of a response that may be read as a document, or why it may
/// not: the response must name a content type, the type must be text and
/// announce JSON, and the body must have been read.
pub open spec fn body_checked(response: Response) -> Result<Seq<char>, ErrorView> {
    match first_value(header_entries(response.headers), "content-type"@) {
        None => Err(ErrorView::NoContentType),
        Some(value) => if !is_text(value) {
            Err(ErrorView::HeaderNotText("content-type"@))
        } else if !is_json_type(bytes_as_chars(value)) {
            Err(ErrorView::InvalidContentType(bytes_as_chars(value)))
        } else {
            match response.body {
                None => Err(ErrorView::NoBody),
                Some(body) => Ok(body@),
            }
        },
    }
}

/// Checks that a response can hold a document and hands out its body.
pub fn validate_get_body(res: &Response) -> (out: Result<&String, Error>)
    ensures
        match out {
            Ok(body) => body_checked(*res) == Ok::<Seq<char>, ErrorView>(body@) && res.body == Some(
                *body,
            ),
            Err(e) => body_checked(*res) == Err::<Seq<char>, ErrorView>(e@),
        },
{
    proof {
        reveal_strlit("content-type");
    }
    let value = match value_of(&res.headers, "content-type") {
        Some(value) => value,
        None => { return Err(Error::NoContentType); },
    };
    let content_type = match value_text(&value) {
        Some(text) => text,
        None => { return Err(Error::HeaderNotText("content-type".to_owned())); },
    };
    let found = chars_of(content_type.as_str());
    let json = chars_of("application/json");
    let structure_json = chars_of("application/vnd.sdmx.structure+json");
    if !(contains_chars(&found, &json) || contains_chars(&found, &structure_json)) {
        return Err(Error::InvalidContentType(content_type));
    }
    match &res.body {
        Some(body) => Ok(body),
        None => Err(Error::NoBody),
    }
}

/// The text that a document is read from: the body without white space
/// around it and without byte order marks at its start.
pub open spec fn cleaned(body: Seq<char>) -> Seq<char> {
    skip_leading(trimmed(body), |c: char| c == '\u{feff}')
}

/// The text of a response from which its document is to be read.
pub fn body_text(res: &Response) -> (out: Result<String, Error>)
    ensures
        match out {
            Ok(text) => body_checked(*res) matches Ok(body) && text@ == cleaned(body),
            Err(e) => body_checked(*res) == Err::<Seq<char>, ErrorView>(e@),
        },
{
    let body = match validate_get_body(res) {
        Ok(body) => body,
        Err(e) => { return Err(e); },
    };
    let chars = chars_of(body.as_str());
    let inner = trim_chars(&chars);
    let text = skip_leading_char(&inner, '\u{feff}');
    Ok(string_of(&text))
}

/// The dataflow that an element of a structure message describes.
pub open spec fn dataflow_of(element: DataflowTypeElement) -> Dataflow {
    Dataflow {
        resource_id: element.id,
        agency_id: element.agency_id,
        name: element.name,
        version: element.version,
    }
}

/// The JSON texts of the dataflows that the elements describe, one for
/// each element, in the order of the elements.
pub open spec fn rendered(elements: Seq<DataflowTypeElement>) -> Seq<Seq<char>> {
    Seq::new(elements.len(), |i: int| dataflow_of(elements[i]).json())
}

/// A stage of a crawl.
#[derive(Debug, Clone, Copy, PartialEq, Eq, Structural)]
pub enum Stage {
    /// Asks for all dataflows and keeps what identifies each.
    Dataflow,
}

impl Stage {
    /// The name of a stage.
    pub open spec fn spec_name(self) -> Seq<char> {
        match self {
            Stage::Dataflow => "dataflow"@,
        }
    }

    /// The URIs that the stage requests, relative to the base URL, given
    /// what the stage before it extracted.
    pub open spec fn uris(self, prior: Seq<Seq<char>>) -> Result<Seq<Seq<char>>, ErrorView> {
        match self {
            Stage::Dataflow => Ok(seq![dataflows_path()]),
        }
    }

    /// What the stage extracts from an answer, given the document that was
    /// read from its body (`None` where none could be read): the response
    /// must pass the checks on its body, a document must have been read,
    /// and it must list dataflows.
    pub open spec fn extracted(
        self,
        response: Response,
        document: Option<StructureDocument>,
    ) -> Result<Seq<Seq<char>>, ErrorView> {
        match self {
            Stage::Dataflow => match body_checked(response) {
                Err(e) => Err(e),
                Ok(_) => match document {
                    None => Err(ErrorView::InvalidJson(response.url@)),
                    Some(document) => match document.dataflows {
                        None => Err(ErrorView::MissingDataflows),
                        Some(elements) => Ok(rendered(elements@)),
                    },
                },
            },
        }
    }

    /// The name of the stage.
    pub fn name(&self) -> (out: String)
        ensures
            out@ == self.spec_name(),
    {
        match self {
            Stage::Dataflow => "dataflow".to_owned(),
        }
    }

    /// The URIs to request, relative to the base URL.
    pub fn get_uri(&self, prior: &Vec<String>) -> (out: Result<Vec<String>, Error>)
        ensures
            match out {
                Ok(uris) => self.uris(texts(prior@)) == Ok::<Seq<Seq<char>>, ErrorView>(
                    texts(uris@),
                ),
                Err(e) => self.uris(texts(prior@)) == Err::<Seq<Seq<char>>, ErrorView>(e@),
            },
    {
        match self {
            Stage::Dataflow => {
                let mut paths: Vec<&str> = Vec::new();
                paths.push("dataflow");
                paths.push("all");
                paths.push("all");
                paths.push("latest");
                assert(slices(paths@) =~= seq!["dataflow"@, "all"@, "all"@, "latest"@]);
                proof {
                    lemma_dataflows_path();
                }
                let mut uris: Vec<String> = Vec::new();
                uris.push(metadata_query(paths));
                assert(texts(uris@) =~= seq![dataflows_path()]);
                Ok(uris)
            },
        }
    }

    /// Extracts from an answer what the next stage starts from.
    pub fn extract_relevant(&self, res: &Response, document: Option<StructureDocument>) -> (out:
        Result<Vec<String>, Error>)
        ensures
            match out {
                Ok(records) => self.extracted(*res, document) == Ok::<Seq<Seq<char>>, ErrorView>(
                    texts(records@),
                ),
                Err(e) => self.extracted(*res, document) == Err::<Seq<Seq<char>>, ErrorView>(e@),
            },
    {
        match self {
            Stage::Dataflow => {
                match validate_get_body(res) {
                    Ok(_) => {},
                    Err(e) => { return Err(e); },
                }
                let document = match document {
                    Some(document) => document,
                    None => { return Err(Error::InvalidJson(res.url.clone())); },
                };
                let elements = match document.dataflows {
                    Some(elements) => elements,
                    None => { return Err(Error::MissingDataflows); },
                };
                let ghost all = elements@;
                let mut records: Vec<String> = Vec::new();
                for element in it: elements
                    invariant
                        it.seq() == all,
                        texts(records@) == rendered(all.take(it.index() as int)),
                {
                    let ghost before = texts(records@);
                    let dataflow = Dataflow::from_element(element);
                    assert(dataflow == dataflow_of(element));
                    match dataflow.to_json() {
                        Some(text) => {
                            records.push(text);
                            assert(texts(records@) =~= before.push(text@));
                        },
                        None => {},
                    }
                    assert(rendered(all.take(it.index() + 1)) =~= before.push(
                        dataflow_of(all[it.index() as int]).json(),
                    ));
                }
                assert(all.take(all.len() as int) =~= all);
                Ok(records)
            },
        }
    }
}

} // verus!
