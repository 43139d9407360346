//! What a crawl keeps of a dataflow.

use crate::json::{json_string, quote};
use crate::structure::DataflowTypeElement;
use vstd::prelude::*;
use vstd::string::StringExecFns;

verus! {

/// A dataflow by what identifies it: resource id, agency, name and version.
#[derive(Debug)]
pub struct Dataflow {
    pub resource_id: String,
    pub agency_id: String,
    pub name: String,
    pub version: Option<String>,
}

/// The JSON object of a dataflow, given the JSON texts of its four values.
pub open spec fn dataflow_object(
    resource_id: Seq<char>,
    agency_id: Seq<char>,
    name: Seq<char>,
    version: Seq<char>,
) -> Seq<char> {
    "{\"resource_id\":"@ + resource_id + ",\"agency_id\":"@ + agency_id + ",\"name\":"@ + name
        + ",\"version\":"@ + version + "}"@
}

impl Dataflow {
    /// The dataflow that a structure message describes: the id of the
    /// element is the resource id; agency, name and version are taken as
    /// they are.
    pub fn from_element(element: DataflowTypeElement) -> (out: Dataflow)
        ensures
            out.resource_id == element.id,
            out.agency_id == element.agency_id,
            out.name == element.name,
            out.version == element.version,
    {
        Dataflow {
            resource_id: element.id,
            agency_id: element.agency_id,
            name: element.name,
            version: element.version,
        }
    }

    /// The JSON text of the dataflow: an object of its four fields, in the
    /// order of their declaration, each string as a JSON string literal, a
    /// missing version written as `null`.
    pub open spec fn json(&self) -> Seq<char> {
        dataflow_object(
            json_string(self.resource_id@),
            json_string(self.agency_id@),
            json_string(self.name@),
            match self.version {
                Some(v) => json_string(v@),
                None => "null"@,
            },
        )
    }

    /// Writes the dataflow as JSON text. There is always a text.
    pub fn to_json(&self) -> (out: Option<String>)
        ensures
            out matches Some(text) && text@ == self.json(),
    {
        let resource_id = match quote(self.resource_id.as_str()) {
            Some(text) => text,
            None => { return None; },
        };
        let agency_id = match quote(self.agency_id.as_str()) {
            Some(text) => text,
            None => { return None; },
        };
        let name = match quote(self.name.as_str()) {
            Some(text) => text,
            None => { return None; },
        };
        let version = match &self.version {
            Some(v) => match quote(v.as_str()) {
                Some(text) => text,
                None => { return None; },
            },
            None => "null".to_owned(),
        };
        let text = "{\"resource_id\":".to_owned().concat(resource_id.as_str()).concat(
            ",\"agency_id\":",
        ).concat(agency_id.as_str()).concat(",\"name\":").concat(name.as_str()).concat(
            ",\"version\":",
        ).concat(version.as_str()).concat("}");
        Some(text)
    }
}

} // verus!
