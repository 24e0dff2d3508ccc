use nightly_commit::outcome::SearchError;
use nightly_commit::page::{build_page, cursor_in, decode_page, ids_in, page_from_document, HistoryPage};

fn page(commits: &[&str], next_cursor: &str) -> HistoryPage {
    HistoryPage {
        commits: commits.iter().map(|c| c.to_string()).collect(),
        next_cursor: next_cursor.to_string(),
    }
}

fn answer(nodes: &str, page_info: &str) -> String {
    format!(
        "{{\"data\":{{\"repository\":{{\"object\":{{\"history\":{{\"nodes\":{},\"pageInfo\":{}}}}}}}}}}}",
        nodes, page_info
    )
}

#[test]
fn decode_page_reads_commits_in_order_and_cursor() {
    let body = answer(
        "[{\"id\":\"n1\",\"oid\":\"bbbb\",\"committedDate\":\"2024-05-01T00:00:00Z\"},{\"id\":\"n2\",\"oid\":\"aaaa\"},{\"oid\":\"bbbb\"}]",
        "{\"endCursor\":\"deadbeef 2\"}",
    );
    assert_eq!(decode_page(&body), Ok(page(&["bbbb", "aaaa", "bbbb"], "deadbeef 2")));
}

#[test]
fn decode_page_accepts_a_page_without_commits() {
    let body = answer("[]", "{\"endCursor\":\"deadbeef 99\"}");
    assert_eq!(decode_page(&body), Ok(page(&[], "deadbeef 99")));
}

#[test]
fn decode_page_rejects_a_missing_cursor() {
    let nodes = "[{\"oid\":\"aaaa\"}]";
    assert_eq!(decode_page(&answer(nodes, "{}")), Err(SearchError::InvalidResponse));
    assert_eq!(
        decode_page(&answer(nodes, "{\"endCursor\":null}")),
        Err(SearchError::InvalidResponse)
    );
    assert_eq!(
        decode_page(&answer(nodes, "{\"endCursor\":7}")),
        Err(SearchError::InvalidResponse)
    );
    let body = "{\"data\":{\"repository\":{\"object\":{\"history\":{\"nodes\":[{\"oid\":\"aaaa\"}]}}}}}";
    assert_eq!(decode_page(body), Err(SearchError::InvalidResponse));
}

#[test]
fn decode_page_rejects_missing_nodes() {
    let body = "{\"data\":{\"repository\":{\"object\":{\"history\":{\"pageInfo\":{\"endCursor\":\"c\"}}}}}}";
    assert_eq!(decode_page(body), Err(SearchError::InvalidResponse));
    assert_eq!(
        decode_page(&answer("null", "{\"endCursor\":\"c\"}")),
        Err(SearchError::InvalidResponse)
    );
    assert_eq!(
        decode_page(&answer("{\"oid\":\"aaaa\"}", "{\"endCursor\":\"c\"}")),
        Err(SearchError::InvalidResponse)
    );
}

#[test]
fn decode_page_rejects_a_node_without_identifier() {
    assert_eq!(
        decode_page(&answer("[{\"oid\":\"aaaa\"},{\"id\":\"n2\"}]", "{\"endCursor\":\"c\"}")),
        Err(SearchError::InvalidResponse)
    );
    assert_eq!(
        decode_page(&answer("[{\"oid\":12}]", "{\"endCursor\":\"c\"}")),
        Err(SearchError::InvalidResponse)
    );
    assert_eq!(
        decode_page(&answer("[\"aaaa\"]", "{\"endCursor\":\"c\"}")),
        Err(SearchError::InvalidResponse)
    );
}

#[test]
fn decode_page_rejects_an_answer_without_history() {
    assert_eq!(
        decode_page("{\"data\":{\"repository\":{\"object\":null}}}"),
        Err(SearchError::InvalidResponse)
    );
    assert_eq!(
        decode_page("{\"message\":\"Bad credentials\"}"),
        Err(SearchError::InvalidResponse)
    );
    assert_eq!(decode_page("[]"), Err(SearchError::InvalidResponse));
}

#[test]
fn decode_page_rejects_what_is_not_json() {
    assert_eq!(decode_page(""), Err(SearchError::InvalidResponse));
    assert_eq!(decode_page("{\"data\":"), Err(SearchError::InvalidResponse));
    assert_eq!(decode_page("<html></html>"), Err(SearchError::InvalidResponse));
}

#[test]
fn page_from_document_reads_a_built_value() {
    let mut node = serde_json::Map::new();
    node.insert("oid".to_string(), serde_json::Value::String("cafefeed".to_string()));
    let mut info = serde_json::Map::new();
    info.insert("endCursor".to_string(), serde_json::Value::String("c1".to_string()));
    let mut history = serde_json::Map::new();
    history.insert(
        "nodes".to_string(),
        serde_json::Value::Array(vec![serde_json::Value::Object(node)]),
    );
    history.insert("pageInfo".to_string(), serde_json::Value::Object(info));
    let mut doc = serde_json::Value::Object(history);
    for key in ["history", "object", "repository", "data"] {
        let mut outer = serde_json::Map::new();
        outer.insert(key.to_string(), doc);
        doc = serde_json::Value::Object(outer);
    }
    assert_eq!(cursor_in(&doc), Some("c1".to_string()));
    assert_eq!(ids_in(&doc), Some(vec![Some("cafefeed".to_string())]));
    assert_eq!(page_from_document(&doc), Ok(page(&["cafefeed"], "c1")));
    assert_eq!(cursor_in(&serde_json::Value::Null), None);
    assert_eq!(ids_in(&serde_json::Value::Null), None);
}

#[test]
fn ids_in_marks_nodes_without_identifier() {
    let body = answer("[{\"oid\":\"aaaa\"},{},{\"oid\":null},{\"oid\":\"\"}]", "{}");
    let doc: serde_json::Value = serde_json::from_str(&body).unwrap();
    assert_eq!(
        ids_in(&doc),
        Some(vec![Some("aaaa".to_string()), None, None, Some(String::new())])
    );
    assert_eq!(cursor_in(&doc), None);
}

#[test]
fn build_page_needs_cursor_nodes_and_every_identifier() {
    let ids = vec![Some("aaaa".to_string()), Some("bbbb".to_string())];
    assert_eq!(
        build_page(Some("c1".to_string()), Some(ids.clone())),
        Ok(page(&["aaaa", "bbbb"], "c1"))
    );
    assert_eq!(build_page(Some(String::new()), Some(vec![])), Ok(page(&[], "")));
    assert_eq!(build_page(None, Some(ids)), Err(SearchError::InvalidResponse));
    assert_eq!(build_page(Some("c1".to_string()), None), Err(SearchError::InvalidResponse));
    assert_eq!(build_page(None, None), Err(SearchError::InvalidResponse));
    assert_eq!(
        build_page(Some("c1".to_string()), Some(vec![Some("aaaa".to_string()), None])),
        Err(SearchError::InvalidResponse)
    );
}

#[test]
fn contains_matches_whole_identifiers_only() {
    let history = page(&["ABC123", "abc1234", "abc12", " abc123", "0abc123"], "c");
    assert!(!history.contains("abc123"));
    assert!(history.contains("ABC123"));
    assert!(history.contains("abc1234"));
    assert!(!history.contains(""));
    let history = page(&["ffff", "abc123"], "c");
    assert!(history.contains("abc123"));
    assert!(!history.contains("ABC123"));
    assert!(!history.contains("abc1234"));
    assert!(!page(&[], "abc123").contains("abc123"));
}
