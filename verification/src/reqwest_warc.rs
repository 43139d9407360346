//! The archival codec: a request and its response become two records, which
//! are framed into one archive file that is named after the host of the
//! exchange and a fresh identifier.

use crate::error::Error;
use crate::headers::{entries_of, header_entries};
use crate::ids::{fresh_id, is_id};
use crate::payload::{
    all_text, block_of, first_not_text, header_block, lemma_pairs, lemma_payload_round_trip,
    payload_of, reads_back, record_payload,
};
use crate::reqwest_layer::{Request, RequestBody, Response};
use crate::text::{contains_seq, string_of};
use crate::urls::url_host;
use crate::util::{canonical_key_of, cdx_url_canonical};
use http::HeaderMap;
use vstd::prelude::*;
use vstd::string::{StrSliceExecFns, StringExecFns};
use vstd::utf8::encode_utf8;

verus! {

/// Which side of an exchange a record holds.
#[derive(Debug, Clone, Copy, PartialEq, Eq, Structural)]
pub enum RecordKind {
    Request,
    Response,
}

/// One record of an archive: its kind, the version of the record format,
/// its identifier, and the payload.
#[derive(Debug, Clone)]
pub struct ArchiveRecord {
    pub kind: RecordKind,
    pub version: String,
    pub id: String,
    pub payload: Vec<u8>,
}

/// An archive ready to be stored: the name of the file and what it holds.
#[derive(Debug, Clone)]
pub struct ArchiveFile {
    pub name: String,
    pub bytes: Vec<u8>,
}

/// The version of the record format, which every record carries.
pub open spec fn format_version() -> Seq<char> {
    "1.1"@
}

/// The extension of an archive file, with its dot.
pub open spec fn file_extension() -> Seq<char> {
    ".warc"@
}

/// The name of the archive file for a host and an identifier.
pub open spec fn archive_name(host: Seq<char>, id: Seq<char>) -> Seq<char> {
    canonical_key_of(host) + "-"@ + id + file_extension()
}

/// The name of the archive file of a group of exchanges, for an
/// identifier.
pub open spec fn group_name(id: Seq<char>) -> Seq<char> {
    id + file_extension()
}

/// The header block of a map: one line `Name: Value` for each entry, in the
/// order of the map, with CRLF between the lines. A value that is not
/// visible ASCII text cannot be written as text, and its header is named.
pub fn serialize_headers(headers: &HeaderMap) -> (out: Result<String, Error>)
    ensures
        match out {
            Ok(block) => all_text(header_entries(*headers)) && block@ == header_block(
                header_entries(*headers),
            ),
            Err(Error::HeaderNotText(name)) => exists|at: int|
                first_not_text(header_entries(*headers), at) && name@ == header_entries(
                    *headers,
                )[at].0,
            Err(_) => false,
        },
{
    let pairs = entries_of(headers);
    proof {
        lemma_pairs(pairs);
    }
    match block_of(&pairs) {
        Ok(block) => Ok(string_of(&block)),
        Err(e) => Err(e),
    }
}

/// What holds of the record made of the given kind, headers and body: the
/// kind, the format version, an identifier of the proper shape, and the
/// payload, which reads back as the headers and the body.
pub open spec fn is_record_of(
    record: ArchiveRecord,
    kind: RecordKind,
    entries: Seq<(Seq<char>, Seq<u8>)>,
    body: Seq<u8>,
) -> bool {
    &&& record.kind == kind
    &&& record.version@ == format_version()
    &&& is_id(record.id@)
    &&& record.payload@ == record_payload(entries, body)
    &&& reads_back(record.payload@, entries, body)
}

/// The record of the given kind, identifier, headers and body. The headers
/// must be text all through; the first that is not is named.
pub fn record_with_id(kind: RecordKind, id: String, headers: &HeaderMap, body: &[u8]) -> (out:
    Result<ArchiveRecord, Error>)
    ensures
        match out {
            Ok(record) => {
                &&& all_text(header_entries(*headers))
                &&& record.kind == kind
                &&& record.version@ == format_version()
                &&& record.id == id
                &&& record.payload@ == record_payload(header_entries(*headers), body@)
                &&& reads_back(record.payload@, header_entries(*headers), body@)
            },
            Err(Error::HeaderNotText(name)) => exists|at: int|
                first_not_text(header_entries(*headers), at) && name@ == header_entries(
                    *headers,
                )[at].0,
            Err(_) => false,
        },
{
    let pairs = entries_of(headers);
    proof {
        lemma_pairs(pairs);
    }
    let payload = match payload_of(&pairs, body) {
        Ok(payload) => payload,
        Err(e) => { return Err(e); },
    };
    proof {
        lemma_payload_round_trip(header_entries(*headers), body@);
    }
    Ok(ArchiveRecord { kind, version: "1.1".to_owned(), id, payload })
}

/// A record with a fresh identifier for the given kind, headers and body.
fn create_warc(kind: RecordKind, headers: &HeaderMap, body: &[u8]) -> (out: Result<
    ArchiveRecord,
    Error,
>)
    ensures
        match out {
            Ok(record) => all_text(header_entries(*headers)) && is_record_of(
                record,
                kind,
                header_entries(*headers),
                body@,
            ),
            Err(Error::HeaderNotText(name)) => exists|at: int|
                first_not_text(header_entries(*headers), at) && name@ == header_entries(
                    *headers,
                )[at].0,
            Err(_) => false,
        },
{
    record_with_id(kind, fresh_id(), headers, body)
}

/// The bytes of the body that a request was built with, where it has them.
pub open spec fn request_bytes(body: RequestBody) -> Option<Seq<u8>> {
    match body {
        RequestBody::Empty => Some(Seq::empty()),
        RequestBody::Bytes(bytes) => Some(bytes@),
        RequestBody::Stream => None,
    }
}

/// The record of a request: its headers and the body it was built with,
/// empty where it has none. A body that is a stream cannot be recorded.
pub fn crate_warc_request(req: &Request) -> (out: Result<ArchiveRecord, Error>)
    ensures
        match out {
            Ok(record) => {
                &&& request_bytes(req.body) matches Some(body)
                &&& all_text(header_entries(req.headers))
                &&& is_record_of(record, RecordKind::Request, header_entries(req.headers), body)
            },
            Err(Error::BodyNotBytes) => request_bytes(req.body) is None,
            Err(Error::HeaderNotText(name)) => request_bytes(req.body) is Some && exists|at: int|
                first_not_text(header_entries(req.headers), at) && name@ == header_entries(
                    req.headers,
                )[at].0,
            Err(_) => false,
        },
{
    let empty: Vec<u8> = Vec::new();
    let body: &Vec<u8> = match &req.body {
        RequestBody::Empty => &empty,
        RequestBody::Bytes(bytes) => bytes,
        RequestBody::Stream => { return Err(Error::BodyNotBytes); },
    };
    create_warc(RecordKind::Request, &req.headers, body.as_slice())
}

/// The record of a response: its headers and the text of its body, encoded
/// back to bytes. A response whose body has not been read cannot be
/// recorded.
pub fn crate_warc_response(res: &Response) -> (out: Result<ArchiveRecord, Error>)
    ensures
        match out {
            Ok(record) => {
                &&& res.body matches Some(text)
                &&& all_text(header_entries(res.headers))
                &&& is_record_of(
                    record,
                    RecordKind::Response,
                    header_entries(res.headers),
                    encode_utf8(text@),
                )
            },
            Err(Error::NoBody) => res.body is None,
            Err(Error::HeaderNotText(name)) => res.body is Some && exists|at: int|
                first_not_text(header_entries(res.headers), at) && name@ == header_entries(
                    res.headers,
                )[at].0,
            Err(_) => false,
        },
{
    match &res.body {
        Some(text) => {
            let body = text.as_str().as_bytes_vec();
            create_warc(RecordKind::Response, &res.headers, body.as_slice())
        },
        None => Err(Error::NoBody),
    }
}

/// The two bytes that end a line.
pub open spec fn line_end() -> Seq<u8> {
    seq![13u8, 10u8]
}

/// The word that a frame carries for a kind of record.
pub open spec fn kind_word(kind: RecordKind) -> Seq<char> {
    match kind {
        RecordKind::Request => "request"@,
        RecordKind::Response => "response"@,
    }
}

/// A frame around a record, given the lines of its fields: the format line,
/// the fields, a blank line, the payload, and two line ends.
pub open spec fn frame_with(record: ArchiveRecord, fields: Seq<u8>) -> Seq<u8> {
    encode_utf8("WARC/"@ + record.version@) + line_end() + fields + line_end() + record.payload@
        + line_end() + line_end()
}

/// `frame` is a frame around `record`: its fields name at least the kind
/// and the identifier of the record, each on a line of its own.
pub open spec fn is_frame(frame: Seq<u8>, record: ArchiveRecord) -> bool {
    exists|fields: Seq<u8>|
        {
            &&& frame == #[trigger] frame_with(record, fields)
            &&& contains_seq(
                fields,
                encode_utf8("warc-type: "@ + kind_word(record.kind)) + line_end(),
            )
            &&& contains_seq(fields, encode_utf8("warc-record-id: "@ + record.id@) + line_end())
        }
}

/// `bytes` holds one frame for each record, in the order of the records,
/// and nothing else.
pub open spec fn is_archive(bytes: Seq<u8>, records: Seq<ArchiveRecord>) -> bool
    decreases records.len(),
{
    if records.len() == 0 {
        bytes.len() == 0
    } else {
        exists|cut: int|
            {
                &&& 0 <= cut <= bytes.len()
                &&& is_archive(bytes.take(cut), records.drop_last())
                &&& #[trigger] is_frame(bytes.skip(cut), records.last())
            }
    }
}

/// Frames a record with the `warc` crate: a `warc::Record` is given the
/// version, identifier, kind and payload of the record, and
/// `WarcWriter::write` writes it to a buffer. The writer adds fields of its
/// own (the date, the length) and orders the fields as it likes, so the
/// frame is described, not named. The writer fails only where the buffer
/// refuses a write, and the buffer is a vector, which takes every write and
/// grows as needed: so there is always a frame.
#[verifier::external_body]
fn frame_of(record: &ArchiveRecord) -> (out: Option<Vec<u8>>)
    ensures
        match out {
            Some(frame) => is_frame(frame@, *record),
            None => false,
        },
{
    let mut framed = warc::Record::<warc::BufferedBody>::default();
    framed.set_warc_version(record.version.as_str());
    framed.set_warc_id(record.id.as_str());
    framed.set_warc_type(match record.kind {
        RecordKind::Request => warc::RecordType::Request,
        RecordKind::Response => warc::RecordType::Response,
    });
    framed.replace_body(record.payload.clone());
    let mut frame: Vec<u8> = Vec::new();
    warc::WarcWriter::new(&mut frame).write(&framed).ok().map(|_| frame)
}

/// The frames of the records, one behind the other; no records make an
/// empty archive. Every record has a frame, so there is always a result.
fn frame_all(records: &Vec<ArchiveRecord>) -> (out: Option<Vec<u8>>)
    ensures
        out matches Some(bytes) && is_archive(bytes@, records@),
{
    let mut bytes: Vec<u8> = Vec::new();
    let mut i: usize = 0;
    while i < records.len()
        invariant
            i <= records.len(),
            is_archive(bytes@, records@.take(i as int)),
        decreases records.len() - i,
    {
        let frame = frame_of(&records[i]);
        let ghost before = bytes@;
        bytes = match add_frame(bytes, frame) {
            Some(longer) => longer,
            None => { return None; },
        };
        proof {
            let next = records@.take(i + 1);
            assert(next.drop_last() =~= records@.take(i as int));
            assert(bytes@.take(before.len() as int) =~= before);
            assert(bytes@.skip(before.len() as int) =~= frame->0@);
            assert(is_frame(bytes@.skip(before.len() as int), next.last()));
        }
        i += 1;
    }
    assert(records@.take(records.len() as int) =~= records@);
    Some(bytes)
}

/// Puts the frame of one record more behind the bytes of an archive, given
/// what the writer made of the record: with a frame the bytes go on with
/// it, without one there is no archive.
pub fn add_frame(bytes: Vec<u8>, frame: Option<Vec<u8>>) -> (out: Option<Vec<u8>>)
    ensures
        match out {
            Some(longer) => frame matches Some(added) && longer@ == bytes@ + added@,
            None => frame is None,
        },
{
    match frame {
        Some(added) => {
            let mut longer = bytes;
            let mut added = added;
            longer.append(&mut added);
            Some(longer)
        },
        None => None,
    }
}

/// The archive file for the exchange with `url`, under the given
/// identifier: named after the host of the URL and the identifier, holding
/// the frames of the records in their order. A URL without a host has no
/// archive; every other has one.
pub fn archive_with_id(url: &str, id: String, records: &Vec<ArchiveRecord>) -> (out: Result<
    ArchiveFile,
    Error,
>)
    ensures
        match out {
            Ok(file) => {
                &&& url_host(url@) matches Some(host)
                &&& file.name@ == archive_name(host, id@)
                &&& is_archive(file.bytes@, records@)
            },
            Err(Error::NoHost(text)) => url_host(url@) is None && text@ == url@,
            Err(_) => false,
        },
{
    let key = match cdx_url_canonical(url) {
        Ok(key) => key,
        Err(e) => { return Err(e); },
    };
    let name = key.concat("-").concat(id.as_str()).concat(".warc");
    match frame_all(records) {
        Some(bytes) => Ok(ArchiveFile { name, bytes }),
        None => Err(Error::RecordNotWritten),
    }
}

/// The archive file of a group of exchanges, under the given identifier:
/// named by the identifier alone, holding the frames of the records in
/// their order.
pub fn group_with_id(id: String, records: &Vec<ArchiveRecord>) -> (out: Result<ArchiveFile, Error>)
    ensures
        out matches Ok(file) && file.name@ == group_name(id@) && is_archive(
            file.bytes@,
            records@,
        ),
{
    let name = id.concat(".warc");
    match frame_all(records) {
        Some(bytes) => Ok(ArchiveFile { name, bytes }),
        None => Err(Error::RecordNotWritten),
    }
}

/// The archive file of a group of exchanges, under a fresh identifier.
pub fn write_warc_group(records: Vec<ArchiveRecord>) -> (out: Result<ArchiveFile, Error>)
    ensures
        out matches Ok(file) && is_archive(file.bytes@, records@) && exists|id: Seq<char>|
            is_id(id) && file.name@ == #[trigger] group_name(id),
{
    group_with_id(fresh_id(), &records)
}

/// The archive file for the exchange with `url`, under a fresh identifier.
pub fn write_warc_file(url: &str, records: Vec<ArchiveRecord>) -> (out: Result<ArchiveFile, Error>)
    ensures
        match out {
            Ok(file) => {
                &&& url_host(url@) matches Some(host)
                &&& exists|id: Seq<char>|
                    is_id(id) && file.name@ == #[trigger] archive_name(host, id)
                &&& is_archive(file.bytes@, records@)
            },
            Err(Error::NoHost(text)) => url_host(url@) is None && text@ == url@,
            Err(_) => false,
        },
{
    archive_with_id(url, fresh_id(), &records)
}

/// What an exchange is archived as: the record of the request, then the
/// record of the response.
pub open spec fn is_exchange(records: Seq<ArchiveRecord>, req: Request, res: Response) -> bool {
    &&& records.len() == 2
    &&& request_bytes(req.body) matches Some(sent)
    &&& res.body matches Some(text)
    &&& is_record_of(records[0], RecordKind::Request, header_entries(req.headers), sent)
    &&& is_record_of(
        records[1],
        RecordKind::Response,
        header_entries(res.headers),
        encode_utf8(text@),
    )
}

/// Whether an exchange can be archived: request and response name the same
/// URL, the body of the request is held as bytes, the body of the response
/// has been read, the values of all headers are text, and the URL has a
/// host.
pub open spec fn can_archive(req: Request, res: Response) -> bool {
    &&& req.url@ == res.url@
    &&& request_bytes(req.body) is Some
    &&& all_text(header_entries(req.headers))
    &&& res.body is Some
    &&& all_text(header_entries(res.headers))
    &&& url_host(req.url@) is Some
}

/// Archives one exchange. Request and response must name the same URL: a
/// pair that does not is refused before anything is made. Then the request
/// is recorded, then the response, and the two records are framed into one
/// file named after the host. Every exchange that can be archived is; of
/// one that cannot, the first thing in the way is reported.
pub fn write_warc(req: &Request, res: &Response) -> (out: Result<ArchiveFile, Error>)
    ensures
        req.url@ != res.url@ ==> out matches Err(Error::UrlMismatch),
        out is Ok <==> can_archive(*req, *res),
        match out {
            Ok(file) => {
                &&& req.url@ == res.url@
                &&& url_host(req.url@) matches Some(host)
                &&& exists|id: Seq<char>|
                    is_id(id) && file.name@ == #[trigger] archive_name(host, id)
                &&& exists|records: Seq<ArchiveRecord>| #[trigger]
                    is_exchange(records, *req, *res) && is_archive(file.bytes@, records)
            },
            Err(Error::UrlMismatch) => req.url@ != res.url@,
            Err(Error::BodyNotBytes) => req.url@ == res.url@ && request_bytes(req.body) is None,
            Err(Error::HeaderNotText(name)) => {
                &&& req.url@ == res.url@
                &&& request_bytes(req.body) is Some
                &&& {
                    ||| exists|at: int|
                        first_not_text(header_entries(req.headers), at) && name@ == header_entries(
                            req.headers,
                        )[at].0
                    ||| all_text(header_entries(req.headers)) && res.body is Some && exists|at: int|
                        first_not_text(header_entries(res.headers), at) && name@ == header_entries(
                            res.headers,
                        )[at].0
                }
            },
            Err(Error::NoBody) => {
                &&& req.url@ == res.url@
                &&& request_bytes(req.body) is Some
                &&& all_text(header_entries(req.headers))
                &&& res.body is None
            },
            Err(Error::NoHost(text)) => {
                &&& req.url@ == res.url@
                &&& request_bytes(req.body) is Some
                &&& all_text(header_entries(req.headers))
                &&& res.body is Some
                &&& all_text(header_entries(res.headers))
                &&& url_host(req.url@) is None
                &&& text@ == req.url@
            },
            Err(_) => false,
        },
{
    if req.url != res.url {
        return Err(Error::UrlMismatch);
    }
    let request = match crate_warc_request(req) {
        Ok(record) => record,
        Err(e) => { return Err(e); },
    };
    let response = match crate_warc_response(res) {
        Ok(record) => record,
        Err(e) => { return Err(e); },
    };
    let mut records: Vec<ArchiveRecord> = Vec::new();
    records.push(request);
    records.push(response);
    assert(is_exchange(records@, *req, *res));
    write_warc_file(req.url.as_str(), records)
}

} // verus!
