use sdmxblaze::error::Error;
use sdmxblaze::sdmx_sources::{Source, Sources};
use sdmxblaze::util::{canonical_key, cdx_url_canonical, filter_sources, get_source};

fn source(id: &str, url: &str) -> Source {
    Source {
        id: id.to_string(),
        data_content_type: None,
        url: url.to_string(),
        name: format!("Source {}", id),
        supports: None,
        documentation: None,
        headers: None,
        structural_accept: None,
        response_content_types: Vec::new(),
        data_accept: None,
        elapsed: Vec::new(),
    }
}

fn registry() -> Sources {
    vec![
        source("IMF", "https://imf.example/api"),
        source("WB", "https://wb.example/api"),
        source("UNSD", "https://unsd.example/api"),
        source("WB", "https://wb2.example/api"),
    ]
}

fn ids(sources: &Sources) -> Vec<String> {
    sources.iter().map(|s| s.url.clone()).collect()
}

#[test]
fn filter_keeps_the_order_of_the_registry() {
    let wanted = vec!["UNSD".to_string(), "IMF".to_string()];
    let kept = filter_sources(registry(), wanted).unwrap();
    assert_eq!(ids(&kept), vec!["https://imf.example/api", "https://unsd.example/api"]);
}

#[test]
fn filter_with_unknown_id_is_empty_not_an_error() {
    let kept = filter_sources(registry(), vec!["ECB".to_string()]).unwrap();
    assert!(kept.is_empty());
}

#[test]
fn filter_with_no_ids_is_empty() {
    let kept = filter_sources(registry(), Vec::new()).unwrap();
    assert!(kept.is_empty());
}

#[test]
fn filter_keeps_every_source_with_a_wanted_id() {
    let kept = filter_sources(registry(), vec!["WB".to_string()]).unwrap();
    assert_eq!(ids(&kept), vec!["https://wb.example/api", "https://wb2.example/api"]);
}

#[test]
fn get_source_finds_the_one_match() {
    let found = get_source(registry(), "IMF".to_string()).unwrap();
    assert_eq!(found.id, "IMF");
    assert_eq!(found.url, "https://imf.example/api");
}

#[test]
fn get_source_fails_without_a_match() {
    let out = get_source(registry(), "ECB".to_string());
    match out {
        Err(Error::NoSource(id)) => assert_eq!(id, "ECB"),
        other => panic!("unexpected: {:?}", other),
    }
}

#[test]
fn get_source_fails_on_several_matches() {
    let out = get_source(registry(), "WB".to_string());
    match out {
        Err(Error::AmbiguousSource(id)) => assert_eq!(id, "WB"),
        other => panic!("unexpected: {:?}", other),
    }
}

#[test]
fn get_source_fails_on_an_empty_registry() {
    assert!(matches!(get_source(Vec::new(), "X".to_string()), Err(Error::NoSource(_))));
}

#[test]
fn lookup_errors_name_the_id() {
    assert_eq!(Error::NoSource("X".to_string()).message(), "No source found for ID X");
    assert_eq!(
        Error::AmbiguousSource("X".to_string()).message(),
        "More than one source found for ID X"
    );
}

#[test]
fn canonical_key_reverses_the_labels() {
    assert_eq!(canonical_key("a.b.com"), "com,b,a)");
    assert_eq!(canonical_key("example.com"), "com,example)");
}

#[test]
fn canonical_key_of_a_single_label() {
    assert_eq!(canonical_key("localhost"), "localhost)");
}

#[test]
fn canonical_key_keeps_empty_labels() {
    assert_eq!(canonical_key(""), ")");
    assert_eq!(canonical_key("a..b"), "b,,a)");
    assert_eq!(canonical_key("example.com."), ",com,example)");
}

#[test]
fn canonical_key_is_the_same_for_the_same_host() {
    assert_eq!(canonical_key("stats.oecd.org"), canonical_key("stats.oecd.org"));
    assert_eq!(canonical_key("stats.oecd.org"), "org,oecd,stats)");
}

#[test]
fn canonical_key_of_a_url_uses_only_the_host() {
    let key = cdx_url_canonical("https://sdmx.example.org:8443/rest/data?x=1").unwrap();
    assert_eq!(key, "org,example,sdmx)");
}

#[test]
fn canonical_key_of_an_address() {
    assert_eq!(cdx_url_canonical("http://127.0.0.1/index.html").unwrap(), "1,0,0,127)");
}

#[test]
fn url_without_host_has_no_key() {
    match cdx_url_canonical("data:text/plain,Stuff") {
        Err(Error::NoHost(url)) => assert_eq!(url, "data:text/plain,Stuff"),
        other => panic!("unexpected: {:?}", other),
    }
}

#[test]
fn text_that_is_no_url_has_no_key() {
    assert!(matches!(cdx_url_canonical("not a url"), Err(Error::NoHost(_))));
    assert_eq!(
        Error::NoHost("not a url".to_string()).message(),
        "No host string for url not a url"
    );
}
