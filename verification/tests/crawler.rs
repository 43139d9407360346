use http::{HeaderMap, HeaderValue, Version};
use sdmxblaze::crawler::{Action, Crawl, CrawlError, CrawlState, Crawler, Event, Step};
use sdmxblaze::error::Error;
use sdmxblaze::minimal_structure::Dataflow;
use sdmxblaze::reqwest_layer::Response;
use sdmxblaze::stage::{body_text, validate_get_body, Stage, StructureDocument};
use sdmxblaze::structure::DataflowTypeElement;

fn element(id: &str, agency: &str, name: &str, version: Option<&str>) -> DataflowTypeElement {
    DataflowTypeElement {
        id: id.to_string(),
        agency_id: agency.to_string(),
        name: name.to_string(),
        version: version.map(|v| v.to_string()),
        annotations: None,
        links: None,
        description: None,
        descriptions: None,
        names: None,
        is_external_reference: None,
        is_final: Some(true),
        valid_from: None,
        valid_to: None,
        structure: None,
    }
}

fn answer(content_type: Option<&'static str>, body: Option<&str>) -> Response {
    let mut headers = HeaderMap::new();
    if let Some(value) = content_type {
        headers.insert("content-type", HeaderValue::from_static(value));
    }
    let url = "https://example.org/dataflow/all/all/latest".to_string();
    match body {
        Some(text) => Response::parse(200, headers, url, Version::HTTP_11, text.to_string()),
        None => Response::new(200, headers, url, Version::HTTP_11),
    }
}

fn concat_all(parts: &[&str]) -> String {
    parts.iter().map(|p| p.to_string()).collect()
}

fn two_dataflows() -> StructureDocument {
    StructureDocument {
        dataflows: Some(vec![
            element("DF_A", "ECB", "Exchange rates", Some("1.0")),
            element("DF_B", "ECB", "Balance \"sheet\"", None),
        ]),
    }
}

#[test]
fn default_crawler_has_one_stage_and_archives() {
    let crawler = Crawler::default();
    assert_eq!(crawler.name(), "sdmxblaze");
    assert_eq!(crawler.version(), "1.0");
    assert_eq!(crawler.user_agent(), "Mozilla/5.0 (compatible; sdmxblaze/1.0)");
    assert!(crawler.warc_write());
    assert_eq!(crawler.stages(), &vec![Stage::Dataflow]);
}

#[test]
fn user_agent_is_made_of_name_and_version() {
    let crawler = Crawler::new("probe".to_string(), "2.3".to_string(), false, Vec::new());
    assert_eq!(crawler.user_agent(), "Mozilla/5.0 (compatible; probe/2.3)");
    assert!(!crawler.warc_write());
}

#[test]
fn requests_accept_json_and_present_the_user_agent() {
    let headers = Crawler::default().request_headers().unwrap();
    let pairs: Vec<(String, String)> = headers
        .iter()
        .map(|(name, value)| (name.as_str().to_string(), value.to_str().unwrap().to_string()))
        .collect();
    assert_eq!(
        pairs,
        vec![
            ("accept".to_string(), "application/json".to_string()),
            ("user-agent".to_string(), "Mozilla/5.0 (compatible; sdmxblaze/1.0)".to_string()),
        ]
    );
}

#[test]
fn a_user_agent_that_no_header_can_hold_is_refused() {
    let crawler = Crawler::new("two\nlines".to_string(), "1".to_string(), true, Vec::new());
    match crawler.request_headers() {
        Err(Error::HeaderRefused(name)) => assert_eq!(name, "user-agent"),
        other => panic!("unexpected: {:?}", other),
    }
}

#[test]
fn single_stage_crawl_extracts_two_records_and_completes() {
    let crawler = Crawler::default();
    let (crawl, action) = crawler.crawl("https://example.org/".to_string());
    assert_eq!(crawl.state, CrawlState::Running(0));
    match action {
        Action::Fetch(url) => assert_eq!(url, "https://example.org/dataflow/all/all/latest"),
        other => panic!("unexpected: {:?}", other),
    }
    let res = answer(Some("application/vnd.sdmx.structure+json;version=1.0.0"), Some("{}"));
    let (crawl, action) = crawler.step(crawl, Event::Answer(res, Some(two_dataflows())));
    assert!(matches!(action, Action::Done));
    assert_eq!(crawl.state, CrawlState::Completed);
    assert_eq!(
        crawl.gathered,
        vec![
            "{\"resource_id\":\"DF_A\",\"agency_id\":\"ECB\",\"name\":\"Exchange rates\",\"version\":\"1.0\"}",
            "{\"resource_id\":\"DF_B\",\"agency_id\":\"ECB\",\"name\":\"Balance \\\"sheet\\\"\",\"version\":null}",
        ]
    );
}

#[test]
fn base_with_trailing_slash_gets_the_path_appended() {
    let (crawl, action) = Crawler::default().crawl("https://x.org/api/".to_string());
    assert_eq!(crawl.base_url, "https://x.org/api/");
    match action {
        Action::Fetch(url) => assert_eq!(url, "https://x.org/api/dataflow/all/all/latest"),
        other => panic!("unexpected: {:?}", other),
    }
}

#[test]
fn the_endpoint_is_held_as_the_url_it_parses_to() {
    let (crawl, action) = Crawler::default().crawl("HTTPS://Example.ORG:443/a/../b/".to_string());
    assert_eq!(crawl.base_url, "https://example.org/b/");
    match action {
        Action::Fetch(url) => assert_eq!(url, "https://example.org/b/dataflow/all/all/latest"),
        other => panic!("unexpected: {:?}", other),
    }
}

#[test]
fn base_without_trailing_slash_loses_its_last_segment() {
    let (_, action) = Crawler::default().crawl("https://x.org/api".to_string());
    match action {
        Action::Fetch(url) => assert_eq!(url, "https://x.org/dataflow/all/all/latest"),
        other => panic!("unexpected: {:?}", other),
    }
}

#[test]
fn an_endpoint_that_is_no_url_fails_at_once() {
    let (crawl, action) = Crawler::default().crawl("no url at all".to_string());
    assert_eq!(crawl.state, CrawlState::Failed);
    match action {
        Action::Fail(CrawlError::Endpoint(Error::InvalidUrl(text))) => {
            assert_eq!(text, "no url at all")
        },
        other => panic!("unexpected: {:?}", other),
    }
}

#[test]
fn a_base_that_cannot_be_joined_fails_the_stage() {
    let (crawl, action) = Crawler::default().crawl("mailto:someone@example.org".to_string());
    assert_eq!(crawl.state, CrawlState::Failed);
    match action {
        Action::Fail(CrawlError::Stage { stage, name, step, cause }) => {
            assert_eq!((stage, name.as_str(), step), (0, "dataflow", Step::Resolve));
            match cause {
                Some(Error::InvalidUrl(text)) => assert_eq!(text, "dataflow/all/all/latest"),
                other => panic!("unexpected: {:?}", other),
            }
        },
        other => panic!("unexpected: {:?}", other),
    }
}

#[test]
fn a_failure_in_the_second_stage_names_the_second_stage() {
    let crawler = Crawler::new(
        "probe".to_string(),
        "1".to_string(),
        false,
        vec![Stage::Dataflow, Stage::Dataflow],
    );
    let (crawl, _) = crawler.crawl("https://example.org/".to_string());
    let res = answer(Some("application/json"), Some("{}"));
    let (crawl, _) = crawler.step(crawl, Event::Answer(res, Some(two_dataflows())));
    let (crawl, action) = crawler.step(crawl, Event::TransportFailed);
    assert_eq!(crawl.state, CrawlState::Failed);
    assert!(matches!(action, Action::Fail(CrawlError::Stage { stage: 1, .. })));
}

#[test]
fn an_endpoint_error_says_what_the_endpoint_was() {
    let (_, action) = Crawler::default().crawl("::".to_string());
    match action {
        Action::Fail(error) => assert_eq!(error.message(), "Invalid URL ::"),
        other => panic!("unexpected: {:?}", other),
    }
}

#[test]
fn a_crawler_without_stages_completes_at_once() {
    let crawler = Crawler::new("probe".to_string(), "1".to_string(), false, Vec::new());
    let (crawl, action) = crawler.crawl("https://example.org/".to_string());
    assert!(matches!(action, Action::Done));
    assert_eq!(crawl.state, CrawlState::Completed);
    assert_eq!(crawl.gathered, vec![""]);
}

#[test]
fn two_stages_run_one_after_the_other() {
    let crawler = Crawler::new(
        "probe".to_string(),
        "1".to_string(),
        false,
        vec![Stage::Dataflow, Stage::Dataflow],
    );
    let (crawl, _) = crawler.crawl("https://example.org/".to_string());
    let res = answer(Some("application/json"), Some("{}"));
    let (crawl, action) = crawler.step(crawl, Event::Answer(res, Some(two_dataflows())));
    assert_eq!(crawl.state, CrawlState::Running(1));
    assert!(crawl.gathered.is_empty());
    assert!(matches!(action, Action::Fetch(_)));
    let res = answer(Some("application/json"), Some("{}"));
    let one = StructureDocument { dataflows: Some(vec![element("DF_C", "IMF", "Trade", None)]) };
    let (crawl, action) = crawler.step(crawl, Event::Answer(res, Some(one)));
    assert!(matches!(action, Action::Done));
    assert_eq!(crawl.state, CrawlState::Completed);
    assert_eq!(crawl.gathered.len(), 1);
}

#[test]
fn a_request_without_answer_fails_the_crawl() {
    let crawler = Crawler::default();
    let (crawl, _) = crawler.crawl("https://example.org/".to_string());
    let (crawl, action) = crawler.step(crawl, Event::TransportFailed);
    assert_eq!(crawl.state, CrawlState::Failed);
    match action {
        Action::Fail(error) => {
            assert_eq!(error.message(), "Stage dataflow failed at making a request");
            match error {
                CrawlError::Stage { stage, step, cause, .. } => {
                    assert_eq!((stage, step), (0, Step::Transport));
                    assert!(cause.is_none());
                },
                other => panic!("unexpected: {:?}", other),
            }
        },
        other => panic!("unexpected: {:?}", other),
    }
}

#[test]
fn a_failed_archival_fails_the_crawl() {
    let crawler = Crawler::default();
    let (crawl, _) = crawler.crawl("https://example.org/".to_string());
    let (crawl, action) = crawler.step(crawl, Event::ArchiveFailed);
    assert_eq!(crawl.state, CrawlState::Failed);
    assert!(matches!(action, Action::Fail(CrawlError::Stage { step: Step::Archive, .. })));
}

#[test]
fn a_failed_extraction_fails_the_crawl() {
    let crawler = Crawler::default();
    let (crawl, _) = crawler.crawl("https://example.org/".to_string());
    let res = answer(Some("text/html"), Some("<html/>"));
    let (crawl, action) = crawler.step(crawl, Event::Answer(res, None));
    assert_eq!(crawl.state, CrawlState::Failed);
    match action {
        Action::Fail(error) => {
            assert_eq!(
                error.message(),
                "Stage dataflow failed at extracting from an answer: Invalid content type text/html"
            );
            match error {
                CrawlError::Stage { stage, step, cause, .. } => {
                    assert_eq!((stage, step), (0, Step::Extract));
                    assert!(matches!(cause, Some(Error::InvalidContentType(_))));
                },
                other => panic!("unexpected: {:?}", other),
            }
        },
        other => panic!("unexpected: {:?}", other),
    }
}

#[test]
fn events_that_do_not_fit_change_nothing() {
    let crawler = Crawler::default();
    let (crawl, action) = crawler.step(Crawl::new(), Event::TransportFailed);
    assert_eq!(crawl.state, CrawlState::Idle);
    assert!(matches!(action, Action::Nothing));
    let (crawl, _) = crawler.crawl("https://example.org/".to_string());
    let (crawl, action) = crawler.step(crawl, Event::Start("https://other.org/".to_string()));
    assert_eq!(crawl.state, CrawlState::Running(0));
    assert_eq!(crawl.base_url, "https://example.org/");
    assert!(matches!(action, Action::Nothing));
    let (crawl, _) = crawler.step(crawl, Event::TransportFailed);
    let res = answer(Some("application/json"), Some("{}"));
    let (crawl, action) = crawler.step(crawl, Event::Answer(res, Some(two_dataflows())));
    assert_eq!(crawl.state, CrawlState::Failed);
    assert!(matches!(action, Action::Nothing));
}

#[test]
fn a_response_must_name_a_content_type() {
    let res = answer(None, Some("{}"));
    assert!(matches!(validate_get_body(&res), Err(Error::NoContentType)));
    assert_eq!(Error::NoContentType.message(), "No Content Type from response");
}

#[test]
fn a_content_type_must_announce_json() {
    match validate_get_body(&answer(Some("application/xml"), Some("<a/>"))) {
        Err(Error::InvalidContentType(found)) => assert_eq!(found, "application/xml"),
        other => panic!("unexpected: {:?}", other),
    }
    assert_eq!(
        Error::InvalidContentType("application/xml".to_string()).message(),
        "Invalid content type application/xml"
    );
}

#[test]
fn json_content_types_pass() {
    for content_type in [
        "application/json",
        "application/json; charset=utf-8",
        "application/vnd.sdmx.structure+json;version=1.0.0",
        "text/plain, application/json",
    ] {
        let res = answer(Some(content_type), Some("{}"));
        assert_eq!(validate_get_body(&res).unwrap(), "{}");
    }
}

#[test]
fn near_misses_of_json_do_not_pass() {
    for content_type in ["application/jso", "Application/JSON", "application/vnd.sdmx.data+json", ""] {
        let res = answer(Some(content_type), Some("{}"));
        assert!(matches!(validate_get_body(&res), Err(Error::InvalidContentType(_))));
    }
}

#[test]
fn a_body_must_have_been_read() {
    let res = answer(Some("application/json"), None);
    assert!(matches!(validate_get_body(&res), Err(Error::NoBody)));
}

#[test]
fn the_content_type_is_checked_before_the_body() {
    let res = answer(Some("text/html"), None);
    assert!(matches!(validate_get_body(&res), Err(Error::InvalidContentType(_))));
}

#[test]
fn body_text_drops_white_space_and_byte_order_marks() {
    let res = answer(Some("application/json"), Some(" \r\n\t\u{feff}\u{feff}{\"a\": 1} \u{a0}\n"));
    assert_eq!(body_text(&res).unwrap(), "{\"a\": 1}");
}

#[test]
fn body_text_trims_as_the_standard_library_does() {
    for body in [
        "",
        "   ",
        "\u{feff}",
        "\u{feff} x",
        "x\u{feff}",
        "\u{2003}x y\u{3000}",
        "\u{85}\u{1680}x\u{2028}\u{2029}\u{202f}\u{205f}",
        "\u{200b}x\u{200b}",
        "\u{1c}x\u{1f}",
        "\u{b}\u{c}x",
    ] {
        let res = answer(Some("application/json"), Some(body));
        let expected = body.trim().trim_start_matches('\u{feff}');
        assert_eq!(body_text(&res).unwrap(), expected);
    }
}

#[test]
fn body_text_fails_where_the_body_may_not_be_read() {
    assert!(matches!(body_text(&answer(None, Some("{}"))), Err(Error::NoContentType)));
}

#[test]
fn extraction_needs_a_document() {
    let res = answer(Some("application/json"), Some("not json"));
    match Stage::Dataflow.extract_relevant(&res, None) {
        Err(Error::InvalidJson(url)) => {
            assert_eq!(url, "https://example.org/dataflow/all/all/latest")
        },
        other => panic!("unexpected: {:?}", other),
    }
}

#[test]
fn extraction_needs_dataflows() {
    let res = answer(Some("application/json"), Some("{}"));
    let out = Stage::Dataflow.extract_relevant(&res, Some(StructureDocument { dataflows: None }));
    assert!(matches!(out, Err(Error::MissingDataflows)));
    assert_eq!(Error::MissingDataflows.message(), "missing dataflows");
}

#[test]
fn extraction_of_no_dataflows_is_empty() {
    let res = answer(Some("application/json"), Some("{}"));
    let document = StructureDocument { dataflows: Some(Vec::new()) };
    assert!(Stage::Dataflow.extract_relevant(&res, Some(document)).unwrap().is_empty());
}

#[test]
fn the_dataflow_stage_asks_for_all_dataflows() {
    assert_eq!(Stage::Dataflow.name(), "dataflow");
    let uris = Stage::Dataflow.get_uri(&vec!["ignored".to_string()]).unwrap();
    assert_eq!(uris, vec!["dataflow/all/all/latest"]);
}

#[test]
fn dataflow_json_is_what_a_json_reader_reads_back() {
    let dataflow = Dataflow {
        resource_id: "DF\\1".to_string(),
        agency_id: "A\"B".to_string(),
        name: "line\nbreak \u{e9}\u{1f600}\t".to_string(),
        version: Some("1.0".to_string()),
    };
    let text = dataflow.to_json().unwrap();
    let value: serde_json::Value = serde_json::from_str(&text).unwrap();
    assert_eq!(value["resource_id"], "DF\\1");
    assert_eq!(value["agency_id"], "A\"B");
    assert_eq!(value["name"], "line\nbreak \u{e9}\u{1f600}\t");
    assert_eq!(value["version"], "1.0");
    assert_eq!(value.as_object().unwrap().len(), 4);
    assert!(text.starts_with("{\"resource_id\":\"DF\\\\1\",\"agency_id\":\"A\\\"B\","));
}

#[test]
fn dataflow_without_version_writes_null() {
    let dataflow = Dataflow::from_element(element("DF", "ECB", "Name", None));
    assert_eq!(
        dataflow.to_json().unwrap(),
        "{\"resource_id\":\"DF\",\"agency_id\":\"ECB\",\"name\":\"Name\",\"version\":null}"
    );
}

#[test]
fn dataflow_json_escapes_control_characters_by_the_table() {
    let dataflow = Dataflow {
        resource_id: "\u{0}\u{1}\u{1f}\u{7f}".to_string(),
        agency_id: "\u{8}\t\n\u{c}\r\u{b}\u{e}".to_string(),
        name: "\"\\/ \u{80}\u{e9}\u{2028}".to_string(),
        version: Some(String::new()),
    };
    let expected = concat_all(&[
        "{\"resource_id\":\"\\u0000\\u0001\\u001f\u{7f}\",",
        "\"agency_id\":\"\\b\\t\\n\\f\\r\\u000b\\u000e\",",
        "\"name\":\"\\\"\\\\/ \u{80}\u{e9}\u{2028}\",",
        "\"version\":\"\"}",
    ]);
    assert_eq!(dataflow.to_json().unwrap(), expected);
}

#[test]
fn every_dataflow_of_a_document_gives_a_record() {
    let res = answer(Some("application/json"), Some("{}"));
    let elements: Vec<DataflowTypeElement> = (0..40)
        .map(|n| element(&format!("DF\u{0}{}", n), "A\\B", "\u{1b}[0m", None))
        .collect();
    let document = StructureDocument { dataflows: Some(elements) };
    let records = Stage::Dataflow.extract_relevant(&res, Some(document)).unwrap();
    assert_eq!(records.len(), 40);
    let expected = concat_all(&[
        "{\"resource_id\":\"DF\\u00007\",\"agency_id\":\"A\\\\B\",",
        "\"name\":\"\\u001b[0m\",\"version\":null}",
    ]);
    assert_eq!(records[7], expected);
}

#[test]
fn a_user_agent_of_any_bytes_a_header_takes_is_presented() {
    let name = "pr\u{f6}be\tbot".to_string();
    let crawler = Crawler::new(name, "1 ~".to_string(), true, Vec::new());
    let headers = crawler.request_headers().unwrap();
    assert_eq!(
        headers.get("user-agent").unwrap().as_bytes(),
        "Mozilla/5.0 (compatible; pr\u{f6}be\tbot/1 ~)".as_bytes()
    );
    assert_eq!(headers.get("accept").unwrap(), "application/json");
    assert_eq!(headers.len(), 2);
}

#[test]
fn a_user_agent_with_a_control_character_is_refused() {
    for name in ["a\u{7f}", "a\u{0}", "a\rb", "\u{1f}"] {
        let crawler = Crawler::new(name.to_string(), "1".to_string(), true, Vec::new());
        match crawler.request_headers() {
            Err(Error::HeaderRefused(header)) => assert_eq!(header, "user-agent"),
            other => panic!("unexpected: {:?}", other),
        }
    }
}

#[test]
fn a_header_named_with_a_quotation_mark_is_in_nobodys_way() {
    let mut headers = HeaderMap::new();
    headers.insert(
        http::HeaderName::from_lowercase(b"a\"b").unwrap(),
        HeaderValue::from_static("odd"),
    );
    headers.insert("content-type", HeaderValue::from_static("application/json"));
    let res = Response::parse(
        200,
        headers,
        "https://example.org/".to_string(),
        Version::HTTP_11,
        "{}".to_string(),
    );
    assert_eq!(validate_get_body(&res).unwrap(), "{}");
}

fn literal(text: &str) -> String {
    let mut out = String::from("\"");
    for c in text.chars() {
        match c {
            '"' => out.push_str("\\\""),
            '\\' => out.push_str("\\\\"),
            '\u{8}' => out.push_str("\\b"),
            '\t' => out.push_str("\\t"),
            '\n' => out.push_str("\\n"),
            '\u{c}' => out.push_str("\\f"),
            '\r' => out.push_str("\\r"),
            c if (c as u32) < 0x20 => {
                out.push_str("\\u00");
                out.push(char::from_digit(c as u32 / 16, 16).unwrap());
                out.push(char::from_digit(c as u32 % 16, 16).unwrap());
            },
            c => out.push(c),
        }
    }
    out.push('"');
    out
}

#[test]
fn every_character_is_written_as_the_table_of_escapes_has_it() {
    let mut n = 0_u32;
    while n <= 0x10ffff {
        if let Some(c) = char::from_u32(n) {
            let name = format!("a{}b", c);
            let dataflow = Dataflow {
                resource_id: String::new(),
                agency_id: String::new(),
                name: name.clone(),
                version: None,
            };
            let expected = format!(
                "{{\"resource_id\":\"\",\"agency_id\":\"\",\"name\":{},\"version\":null}}",
                literal(&name)
            );
            assert_eq!(dataflow.to_json().unwrap(), expected, "U+{:04X}", n);
        }
        n += if n < 0x3000 { 1 } else { 0x101 };
    }
}

#[test]
fn the_user_agent_is_taken_exactly_where_its_bytes_are_value_bytes() {
    for n in 0..0x300_u32 {
        let c = char::from_u32(n).unwrap();
        let crawler = Crawler::new(format!("a{}b", c), "1".to_string(), true, Vec::new());
        let owed = c == '\t' || (n >= 0x20 && n != 0x7f);
        assert_eq!(crawler.request_headers().is_ok(), owed, "U+{:04X}", n);
    }
}
