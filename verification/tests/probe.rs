use http::{HeaderMap, HeaderValue, Version};
use sdmxblaze::error::Error;
use sdmxblaze::probe::{accept_candidates, observed_content_type, probe_url, successful, Probe};
use sdmxblaze::reqwest_layer::Response;
use sdmxblaze::sdmx_sources::{Accept, Source};
use std::time::Duration;

fn source(id: &str, url: &str) -> Source {
    Source {
        id: id.to_string(),
        data_content_type: None,
        url: url.to_string(),
        name: id.to_string(),
        supports: None,
        documentation: Some("see the manual".to_string()),
        headers: None,
        structural_accept: None,
        response_content_types: Vec::new(),
        data_accept: None,
        elapsed: Vec::new(),
    }
}

fn answer(status: u16, content_type: Option<&'static str>) -> Response {
    let mut headers = HeaderMap::new();
    if let Some(value) = content_type {
        headers.insert("content-type", HeaderValue::from_static(value));
    }
    Response::new(
        status,
        headers,
        "https://example.org/dataflow/all/all/latest".to_string(),
        Version::HTTP_11,
    )
}

fn strings(items: &[&str]) -> Vec<String> {
    items.iter().map(|s| s.to_string()).collect()
}

#[test]
fn candidates_are_the_four_accept_values_in_order() {
    assert_eq!(
        accept_candidates(),
        vec![
            "application/xml",
            "application/json",
            "application/vnd.sdmx.structure+xml;version=2.1",
            "application/vnd.sdmx.structure+json;version=1.0.0",
        ]
    );
}

#[test]
fn probing_parts_the_candidates_by_status() {
    let candidates = strings(&["application/json", "application/xml"]);
    let mut probe = Probe::new(source("X", "https://example.org"), candidates);
    assert_eq!(probe.next_accept(), Some("application/json".to_string()));
    probe.record(&answer(200, Some("application/json")), Duration::from_millis(12)).unwrap();
    assert_eq!(probe.next_accept(), Some("application/xml".to_string()));
    probe.record(&answer(406, None), Duration::from_millis(7)).unwrap();
    assert_eq!(probe.next_accept(), None);
    let found = probe.finish().unwrap();
    let accept = found.structural_accept.unwrap();
    assert_eq!(accept.supported_accept_headers, vec!["application/json"]);
    assert_eq!(accept.denied_accept_headers, vec!["application/xml"]);
    assert_eq!(found.response_content_types, vec!["application/json", "NONE"]);
    assert_eq!(found.elapsed, vec![Duration::from_millis(12), Duration::from_millis(7)]);
    assert_eq!(found.id, "X");
    assert_eq!(found.url, "https://example.org");
    assert_eq!(found.documentation, Some("see the manual".to_string()));
    assert!(found.data_accept.is_none());
}

#[test]
fn every_candidate_lands_in_exactly_one_list() {
    let candidates = strings(&["a", "b", "c", "d", "e", "f"]);
    let statuses = [500, 200, 299, 300, 204, 199];
    let mut probe = Probe::new(source("X", "https://example.org"), candidates.clone());
    for status in statuses {
        probe.record(&answer(status, None), Duration::from_secs(1)).unwrap();
    }
    let accept = probe.finish().unwrap().structural_accept.unwrap();
    assert_eq!(accept.supported_accept_headers, vec!["b", "c", "e"]);
    assert_eq!(accept.denied_accept_headers, vec!["a", "d", "f"]);
    for candidate in &candidates {
        let supported = accept.supported_accept_headers.contains(candidate);
        let denied = accept.denied_accept_headers.contains(candidate);
        assert!(supported != denied);
    }
    let total = accept.supported_accept_headers.len() + accept.denied_accept_headers.len();
    assert_eq!(total, candidates.len());
}

#[test]
fn only_the_success_class_counts_as_supported() {
    for (status, supported) in [(200, true), (201, true), (299, true), (199, false), (300, false),
        (404, false), (500, false), (0, false)]
    {
        let mut probe = Probe::new(source("X", "https://example.org"), strings(&["a"]));
        probe.record(&answer(status, None), Duration::from_secs(0)).unwrap();
        let accept = probe.finish().unwrap().structural_accept.unwrap();
        assert_eq!(accept.supported_accept_headers.len() == 1, supported);
        assert_eq!(accept.denied_accept_headers.len() == 1, !supported);
    }
}

#[test]
fn a_new_run_replaces_the_result_of_the_one_before() {
    let mut known = source("X", "https://example.org");
    known.structural_accept = Some(Accept {
        supported_accept_headers: strings(&["old"]),
        denied_accept_headers: strings(&["older"]),
    });
    known.response_content_types = strings(&["text/plain"]);
    known.elapsed = vec![Duration::from_secs(3)];
    let mut probe = Probe::new(known, strings(&["a"]));
    probe.record(&answer(404, Some("text/html")), Duration::from_secs(1)).unwrap();
    let found = probe.finish().unwrap();
    let accept = found.structural_accept.unwrap();
    assert!(accept.supported_accept_headers.is_empty());
    assert_eq!(accept.denied_accept_headers, vec!["a"]);
    assert_eq!(found.response_content_types, vec!["text/plain", "text/html"]);
    assert_eq!(found.elapsed, vec![Duration::from_secs(3), Duration::from_secs(1)]);
}

#[test]
fn a_run_without_candidates_finds_two_empty_lists() {
    let probe = Probe::new(source("X", "https://example.org"), Vec::new());
    assert_eq!(probe.next_accept(), None);
    let accept = probe.finish().unwrap().structural_accept.unwrap();
    assert!(accept.supported_accept_headers.is_empty());
    assert!(accept.denied_accept_headers.is_empty());
}

#[test]
fn a_run_that_was_cut_short_has_no_result() {
    let mut probe = Probe::new(source("X", "https://example.org"), strings(&["a", "b"]));
    probe.record(&answer(200, None), Duration::from_secs(1)).unwrap();
    assert!(matches!(probe.finish(), Err(Error::ProbeIncomplete)));
}

#[test]
fn a_complete_run_takes_no_more_answers() {
    let mut probe = Probe::new(source("X", "https://example.org"), strings(&["a"]));
    probe.record(&answer(200, None), Duration::from_secs(1)).unwrap();
    let out = probe.record(&answer(200, None), Duration::from_secs(1));
    assert!(matches!(out, Err(Error::ProbeComplete)));
    let accept = probe.finish().unwrap().structural_accept.unwrap();
    assert_eq!(accept.supported_accept_headers, vec!["a"]);
}

#[test]
fn a_content_type_that_is_not_text_fails_the_answer() {
    let mut headers = HeaderMap::new();
    headers.insert("content-type", HeaderValue::from_bytes(&[0xe9]).unwrap());
    let res = Response::new(200, headers, "https://example.org/".to_string(), Version::HTTP_11);
    match observed_content_type(&res) {
        Err(Error::HeaderNotText(name)) => assert_eq!(name, "content-type"),
        other => panic!("unexpected: {:?}", other),
    }
    let mut probe = Probe::new(source("X", "https://example.org"), strings(&["a"]));
    assert!(probe.record(&res, Duration::from_secs(1)).is_err());
    assert_eq!(probe.next_accept(), Some("a".to_string()));
}

#[test]
fn a_missing_content_type_is_recorded_as_none() {
    assert_eq!(observed_content_type(&answer(200, None)).unwrap(), "NONE");
}

#[test]
fn the_first_content_type_is_the_one_recorded() {
    let mut headers = HeaderMap::new();
    headers.append("Content-Type", HeaderValue::from_static("application/xml; charset=utf-8"));
    headers.append("content-type", HeaderValue::from_static("text/plain"));
    let res = Response::new(200, headers, "https://example.org/".to_string(), Version::HTTP_11);
    assert_eq!(observed_content_type(&res).unwrap(), "application/xml; charset=utf-8");
}

#[test]
fn probe_url_adds_the_path_to_the_base() {
    assert_eq!(
        probe_url("https://example.org").unwrap(),
        "https://example.org/dataflow/all/all/latest"
    );
    assert_eq!(
        probe_url("https://x.org/api").unwrap(),
        "https://x.org/api/dataflow/all/all/latest"
    );
}

#[test]
fn probe_url_of_a_malformed_base_fails() {
    match probe_url("not a url") {
        Err(Error::InvalidUrl(text)) => assert_eq!(text, "not a url"),
        other => panic!("unexpected: {:?}", other),
    }
    assert_eq!(Error::InvalidUrl("x".to_string()).message(), "Invalid URL x");
}

#[test]
fn failed_runs_are_left_out_of_the_batch() {
    let results = vec![
        Ok(source("A", "https://a.example")),
        Err(Error::ProbeIncomplete),
        Ok(source("B", "https://b.example")),
        Err(Error::InvalidUrl("x".to_string())),
    ];
    let kept = successful(results);
    let ids: Vec<&str> = kept.iter().map(|s| s.id.as_str()).collect();
    assert_eq!(ids, vec!["A", "B"]);
}

#[test]
fn a_batch_of_failures_is_empty() {
    assert!(successful(vec![Err(Error::ProbeIncomplete)]).is_empty());
    assert!(successful(Vec::new()).is_empty());
}

#[test]
fn a_request_without_answer_says_why() {
    let error = Error::Transport("connection refused".to_string());
    assert_eq!(error.message(), "No answer to the request: connection refused");
    assert!(successful(vec![Err(error)]).is_empty());
}
