use http::{HeaderMap, HeaderValue, Version};
use sdmxblaze::error::Error;
use sdmxblaze::payload::read_payload;
use sdmxblaze::reqwest_layer::{Request, RequestBody, Response};
use sdmxblaze::reqwest_warc::{
    add_frame, archive_with_id, crate_warc_request, crate_warc_response, group_with_id,
    record_with_id, serialize_headers, write_warc, write_warc_file, write_warc_group,
    ArchiveRecord, RecordKind,
};
use std::io::BufReader;
use warc::{RecordType, WarcReader};

fn headers(pairs: &[(&'static str, &'static str)]) -> HeaderMap {
    let mut map = HeaderMap::new();
    for (name, value) in pairs {
        map.append(*name, HeaderValue::from_static(value));
    }
    map
}

fn request(url: &str) -> Request {
    Request {
        url: url.to_string(),
        headers: headers(&[("accept", "application/json"), ("user-agent", "probe/1.0")]),
        body: RequestBody::Empty,
    }
}

fn response(url: &str, body: &str) -> Response {
    Response::parse(
        200,
        headers(&[("content-type", "application/json"), ("x-served-by", "cache 7")]),
        url.to_string(),
        Version::HTTP_11,
        body.to_string(),
    )
}

fn is_id(text: &str) -> bool {
    text.len() == 26 && text.chars().all(|c| "0123456789ABCDEFGHJKMNPQRSTVWXYZ".contains(c))
}

#[test]
fn header_block_has_one_line_for_each_header() {
    let map = headers(&[("host", "example.com"), ("content-length", "123")]);
    assert_eq!(serialize_headers(&map).unwrap(), "host: example.com\r\ncontent-length: 123");
}

#[test]
fn header_block_of_no_headers_is_empty() {
    assert_eq!(serialize_headers(&HeaderMap::new()).unwrap(), "");
}

#[test]
fn header_block_of_one_header_has_no_line_end() {
    assert_eq!(serialize_headers(&headers(&[("accept", "*/*")])).unwrap(), "accept: */*");
}

#[test]
fn header_block_repeats_a_name_for_each_of_its_values() {
    let map = headers(&[("set-cookie", "a=1"), ("vary", "accept"), ("set-cookie", "b=2")]);
    assert_eq!(
        serialize_headers(&map).unwrap(),
        "set-cookie: a=1\r\nset-cookie: b=2\r\nvary: accept"
    );
}

#[test]
fn header_block_writes_names_in_lower_case() {
    let mut map = HeaderMap::new();
    map.insert("X-Request-ID", HeaderValue::from_static("abc"));
    assert_eq!(serialize_headers(&map).unwrap(), "x-request-id: abc");
}

#[test]
fn header_block_keeps_an_empty_value() {
    assert_eq!(serialize_headers(&headers(&[("x-empty", "")])).unwrap(), "x-empty: ");
}

#[test]
fn header_that_is_not_text_is_named() {
    let mut map = headers(&[("accept", "*/*")]);
    map.insert("x-raw", HeaderValue::from_bytes(&[0x66, 0xfc, 0x72]).unwrap());
    map.insert("x-later", HeaderValue::from_bytes(&[0xff]).unwrap());
    match serialize_headers(&map) {
        Err(Error::HeaderNotText(name)) => assert_eq!(name, "x-raw"),
        other => panic!("unexpected: {:?}", other),
    }
}

#[test]
fn request_record_holds_headers_blank_line_and_body() {
    let mut req = request("https://example.com/data");
    req.body = RequestBody::Bytes(b"a=1&b=2".to_vec());
    let record = crate_warc_request(&req).unwrap();
    assert_eq!(record.kind, RecordKind::Request);
    assert_eq!(record.version, "1.1");
    assert!(is_id(&record.id));
    assert_eq!(
        record.payload,
        b"accept: application/json\r\nuser-agent: probe/1.0\r\n\r\na=1&b=2".to_vec()
    );
}

#[test]
fn request_record_without_body_ends_with_the_blank_line() {
    let record = crate_warc_request(&request("https://example.com/data")).unwrap();
    assert_eq!(
        record.payload,
        b"accept: application/json\r\nuser-agent: probe/1.0\r\n\r\n".to_vec()
    );
}

#[test]
fn request_record_without_headers_or_body_is_the_blank_line() {
    let req = Request {
        url: "https://example.com/".to_string(),
        headers: HeaderMap::new(),
        body: RequestBody::Empty,
    };
    assert_eq!(crate_warc_request(&req).unwrap().payload, b"\r\n\r\n".to_vec());
}

#[test]
fn request_with_a_stream_body_cannot_be_recorded() {
    let mut req = request("https://example.com/data");
    req.body = RequestBody::Stream;
    assert!(matches!(crate_warc_request(&req), Err(Error::BodyNotBytes)));
    assert_eq!(Error::BodyNotBytes.message(), "Could not convert request body to bytes");
}

#[test]
fn response_record_encodes_the_body_text() {
    let res = response("https://example.com/data", "{\"name\":\"Bev\u{f6}lkerung\"}");
    let record = crate_warc_response(&res).unwrap();
    assert_eq!(record.kind, RecordKind::Response);
    assert_eq!(record.version, "1.1");
    let mut expected = b"content-type: application/json\r\nx-served-by: cache 7\r\n\r\n".to_vec();
    expected.extend_from_slice("{\"name\":\"Bev\u{f6}lkerung\"}".as_bytes());
    assert_eq!(record.payload, expected);
}

#[test]
fn response_without_body_cannot_be_recorded() {
    let res = Response::new(
        200,
        HeaderMap::new(),
        "https://example.com/".to_string(),
        Version::HTTP_11,
    );
    assert!(res.body.is_none());
    assert!(matches!(crate_warc_response(&res), Err(Error::NoBody)));
}

#[test]
fn record_takes_the_identifier_it_is_given() {
    let map = headers(&[("accept", "*/*")]);
    let id = "01ARZ3NDEKTSV4RRFFQ69G5FAV".to_string();
    let record = record_with_id(RecordKind::Response, id, &map, b"body").unwrap();
    assert_eq!(record.id, "01ARZ3NDEKTSV4RRFFQ69G5FAV");
    assert_eq!(record.kind, RecordKind::Response);
    assert_eq!(record.payload, b"accept: */*\r\n\r\nbody".to_vec());
}

#[test]
fn records_get_identifiers_of_their_own() {
    let req = request("https://example.com/data");
    let first = crate_warc_request(&req).unwrap();
    let second = crate_warc_request(&req).unwrap();
    assert!(is_id(&first.id) && is_id(&second.id));
    assert_ne!(first.id, second.id);
}

#[test]
fn mismatched_urls_are_refused() {
    let req = request("https://example.com/data");
    let res = response("https://example.com/other", "{}");
    assert!(matches!(write_warc(&req, &res), Err(Error::UrlMismatch)));
    assert_eq!(Error::UrlMismatch.message(), "URLs on request and response are not equal");
}

#[test]
fn mismatch_is_refused_before_anything_else_is_looked_at() {
    let mut req = request("https://example.com/data");
    req.body = RequestBody::Stream;
    let res = Response::new(
        200,
        HeaderMap::new(),
        "https://example.com/data/".to_string(),
        Version::HTTP_11,
    );
    assert!(matches!(write_warc(&req, &res), Err(Error::UrlMismatch)));
}

#[test]
fn archive_is_named_after_host_and_identifier() {
    let url = "https://sdmx.example.org/rest/dataflow/all/all/latest";
    let file = write_warc(&request(url), &response(url, "{}")).unwrap();
    let stem = file.name.strip_prefix("org,example,sdmx)-").expect("canonical key first");
    let id = stem.strip_suffix(".warc").expect("extension last");
    assert!(is_id(id));
}

#[test]
fn archive_with_given_identifier_has_an_exact_name() {
    let file = archive_with_id(
        "https://a.b.com/x",
        "01ARZ3NDEKTSV4RRFFQ69G5FAV".to_string(),
        &Vec::new(),
    )
    .unwrap();
    assert_eq!(file.name, "com,b,a)-01ARZ3NDEKTSV4RRFFQ69G5FAV.warc");
    assert!(file.bytes.is_empty());
}

#[test]
fn archive_of_a_url_without_host_is_refused() {
    let out = write_warc_file("data:text/plain,Stuff", Vec::new());
    assert!(matches!(out, Err(Error::NoHost(_))));
}

#[test]
fn archives_of_one_url_get_names_of_their_own() {
    let url = "https://example.com/data";
    let first = write_warc(&request(url), &response(url, "{}")).unwrap();
    let second = write_warc(&request(url), &response(url, "{}")).unwrap();
    assert_ne!(first.name, second.name);
}

#[test]
fn archive_holds_request_then_response() {
    let url = "https://example.com/data";
    let mut req = request(url);
    req.body = RequestBody::Bytes(b"ping".to_vec());
    let res = response(url, "{\"dataflows\":[]}");
    let file = write_warc(&req, &res).unwrap();
    let records: Vec<_> = WarcReader::new(BufReader::new(file.bytes.as_slice()))
        .iter_records()
        .map(|r| r.unwrap())
        .collect();
    assert_eq!(records.len(), 2);
    assert_eq!(records[0].warc_type(), &RecordType::Request);
    assert_eq!(records[1].warc_type(), &RecordType::Response);
    assert_eq!(records[0].warc_version(), "1.1");
    assert_eq!(records[1].warc_version(), "1.1");
    assert!(is_id(records[0].warc_id()));
    assert!(is_id(records[1].warc_id()));
    assert_ne!(records[0].warc_id(), records[1].warc_id());
}

#[test]
fn archive_reads_back_byte_for_byte() {
    let url = "https://example.com/data";
    let mut req = request(url);
    req.body = RequestBody::Bytes(vec![0, 13, 10, 13, 10, 255, 7]);
    let body = "\r\n\r\n{\"a\": \"\u{2028}line\"}\r\n\r\n";
    let res = response(url, body);
    let file = write_warc(&req, &res).unwrap();
    let records: Vec<_> = WarcReader::new(BufReader::new(file.bytes.as_slice()))
        .iter_records()
        .map(|r| r.unwrap())
        .collect();
    let (block, sent) = read_payload(records[0].body()).unwrap();
    assert_eq!(block, serialize_headers(&req.headers).unwrap().into_bytes());
    assert_eq!(sent, vec![0, 13, 10, 13, 10, 255, 7]);
    let (block, received) = read_payload(records[1].body()).unwrap();
    assert_eq!(block, serialize_headers(&res.headers).unwrap().into_bytes());
    assert_eq!(received, body.as_bytes().to_vec());
}

#[test]
fn frames_follow_each_other_in_the_order_of_the_records() {
    let records = vec![
        ArchiveRecord {
            kind: RecordKind::Response,
            version: "1.1".to_string(),
            id: "first".to_string(),
            payload: b"one".to_vec(),
        },
        ArchiveRecord {
            kind: RecordKind::Request,
            version: "1.1".to_string(),
            id: "second".to_string(),
            payload: b"two".to_vec(),
        },
    ];
    let file = archive_with_id("https://example.com/", "ID".to_string(), &records).unwrap();
    assert_eq!(file.name, "com,example)-ID.warc");
    let text = String::from_utf8(file.bytes).unwrap();
    assert!(text.starts_with("WARC/1.1\r\n"));
    assert!(text.ends_with("\r\n\r\ntwo\r\n\r\n"));
    let first = text.find("warc-record-id: first\r\n").unwrap();
    let second = text.find("warc-record-id: second\r\n").unwrap();
    assert!(first < second);
    assert!(text.contains("warc-type: response\r\n"));
    assert!(text.contains("warc-type: request\r\n"));
    assert!(text.contains("\r\n\r\none\r\n\r\nWARC/1.1\r\n"));
}

#[test]
fn payload_is_parted_at_its_first_blank_line() {
    let (block, body) = read_payload(b"a: 1\r\nb: 2\r\n\r\nbody\r\n\r\nmore").unwrap();
    assert_eq!(block, b"a: 1\r\nb: 2".to_vec());
    assert_eq!(body, b"body\r\n\r\nmore".to_vec());
}

#[test]
fn payload_without_headers_has_an_empty_block() {
    let (block, body) = read_payload(b"\r\n\r\n").unwrap();
    assert!(block.is_empty());
    assert!(body.is_empty());
}

#[test]
fn payload_without_blank_line_reads_back_as_nothing() {
    assert!(read_payload(b"a: 1\r\nb: 2\r\n").is_none());
    assert!(read_payload(b"").is_none());
    assert!(read_payload(b"\r\n\r").is_none());
}

#[test]
fn group_archive_is_named_by_its_identifier_alone() {
    let record = crate_warc_request(&request("https://example.com/data")).unwrap();
    let file = group_with_id("01ARZ3NDEKTSV4RRFFQ69G5FAV".to_string(), &vec![record]).unwrap();
    assert_eq!(file.name, "01ARZ3NDEKTSV4RRFFQ69G5FAV.warc");
    let records: Vec<_> = WarcReader::new(BufReader::new(file.bytes.as_slice()))
        .iter_records()
        .map(|r| r.unwrap())
        .collect();
    assert_eq!(records.len(), 1);
    assert_eq!(records[0].warc_type(), &RecordType::Request);
}

#[test]
fn group_archive_gets_a_fresh_identifier() {
    let file = write_warc_group(Vec::new()).unwrap();
    assert!(is_id(file.name.strip_suffix(".warc").unwrap()));
    assert!(file.bytes.is_empty());
}

#[test]
fn a_frame_goes_behind_the_bytes_that_are_there() {
    assert_eq!(add_frame(b"one".to_vec(), Some(b"two".to_vec())), Some(b"onetwo".to_vec()));
    assert_eq!(add_frame(Vec::new(), Some(Vec::new())), Some(Vec::new()));
}

#[test]
fn without_a_frame_there_is_no_archive() {
    assert_eq!(add_frame(b"one".to_vec(), None), None);
}

#[test]
fn no_records_make_an_empty_archive() {
    let file = archive_with_id("https://example.com/", "ID".to_string(), &Vec::new()).unwrap();
    assert!(file.bytes.is_empty());
    assert!(group_with_id("ID".to_string(), &Vec::new()).unwrap().bytes.is_empty());
}

#[test]
fn a_header_name_with_a_quotation_mark_is_written_as_it_is() {
    let mut map = HeaderMap::new();
    map.insert(http::HeaderName::from_lowercase(b"a\"b").unwrap(), HeaderValue::from_static("v"));
    assert_eq!(serialize_headers(&map).unwrap(), "a\"b: v");
}

#[test]
fn the_first_thing_in_the_way_of_an_archive_is_reported() {
    let url = "data:text/plain,Stuff";
    let mut req = request(url);
    let mut res = response(url, "{}");
    assert!(matches!(write_warc(&req, &res), Err(Error::NoHost(_))));
    res.headers.insert("x-raw", HeaderValue::from_bytes(&[0xff]).unwrap());
    assert!(matches!(write_warc(&req, &res), Err(Error::HeaderNotText(_))));
    res.body = None;
    assert!(matches!(write_warc(&req, &res), Err(Error::NoBody)));
    req.headers.insert("x-raw", HeaderValue::from_bytes(&[0xfe]).unwrap());
    assert!(matches!(write_warc(&req, &res), Err(Error::HeaderNotText(_))));
    req.body = RequestBody::Stream;
    assert!(matches!(write_warc(&req, &res), Err(Error::BodyNotBytes)));
}

#[test]
fn an_exchange_with_nothing_in_the_way_is_archived() {
    let url = "http://[::1]:8080/rest?x=%ff";
    let mut req = request(url);
    req.headers = HeaderMap::new();
    let res =
        Response::parse(204, HeaderMap::new(), url.to_string(), Version::HTTP_10, String::new());
    let file = write_warc(&req, &res).unwrap();
    assert!(file.name.starts_with("[::1])-"));
    let records: Vec<_> = WarcReader::new(BufReader::new(file.bytes.as_slice()))
        .iter_records()
        .map(|r| r.unwrap())
        .collect();
    assert_eq!(records.len(), 2);
    assert_eq!(records[0].body(), b"\r\n\r\n");
    assert_eq!(records[1].body(), b"\r\n\r\n");
}
