use sdmxblaze::error::Error;
use sdmxblaze::queries::{metadata_query, MetadataQuery};

#[test]
fn query_of_four_segments_joins_them_with_slashes() {
    let path = metadata_query(vec!["dataflow", "all", "all", "latest"]);
    assert_eq!(path, "dataflow/all/all/latest");
}

#[test]
fn query_of_three_segments() {
    assert_eq!(metadata_query(vec!["dataflow", "all", "all"]), "dataflow/all/all");
}

#[test]
fn query_accepts_one_to_five_segments() {
    assert_eq!(MetadataQuery::new(vec!["codelist"]).unwrap().to_string(), "codelist");
    let five = MetadataQuery::new(vec!["codelist", "ECB", "CL_FREQ", "1.0", "A"]).unwrap();
    assert_eq!(five.to_string(), "codelist/ECB/CL_FREQ/1.0/A");
}

#[test]
fn query_refuses_no_segment() {
    let out = MetadataQuery::new(Vec::new());
    assert!(matches!(out, Err(Error::IncorrectNumberOfItems)));
}

#[test]
fn query_refuses_six_segments() {
    let out = MetadataQuery::new(vec!["a", "b", "c", "d", "e", "f"]);
    assert!(matches!(out, Err(Error::IncorrectNumberOfItems)));
}

#[test]
fn query_leaves_empty_segments_out() {
    let query = MetadataQuery::new(vec!["dataflow", "", "all", "", "x"]).unwrap();
    assert_eq!(query.to_string(), "dataflow/all/x");
    let empty = MetadataQuery::new(vec!["", ""]).unwrap();
    assert_eq!(empty.to_string(), "");
}

#[test]
fn query_error_says_what_is_wrong() {
    assert_eq!(Error::IncorrectNumberOfItems.message(), "Incorrect number of items");
}
