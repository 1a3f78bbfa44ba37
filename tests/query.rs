use arqonhpo::query::{parse_query, split_query};

#[test]
fn test_split_query_with_query() {
    let (path, query) = split_query("/api/data?key=value");
    assert_eq!(path, "/api/data");
    assert_eq!(query.as_deref(), Some("key=value"));
}

#[test]
fn test_split_query_without_query() {
    let (path, query) = split_query("/api/data");
    assert_eq!(path, "/api/data");
    assert!(query.is_none());
}

#[test]
fn test_parse_query_empty() {
    let params = parse_query(None);
    assert!(params.is_empty());
}

#[test]
fn test_parse_query_single() {
    let params = parse_query(Some("key=value"));
    assert_eq!(params.get("key"), Some(&"value".to_string()));
}

#[test]
fn test_parse_query_multiple() {
    let params = parse_query(Some("a=1&b=2&c=3"));
    assert_eq!(params.len(), 3);
    assert_eq!(params.get("a"), Some(&"1".to_string()));
    assert_eq!(params.get("b"), Some(&"2".to_string()));
    assert_eq!(params.get("c"), Some(&"3".to_string()));
}

#[test]
fn test_parse_query_empty_key() {
    let params = parse_query(Some("=value&key=val"));
    assert_eq!(params.len(), 1);
    assert_eq!(params.get("key"), Some(&"val".to_string()));
}

#[test]
fn parse_query_later_value_wins_and_bare_keys() {
    let params = parse_query(Some("a=1&flag&a=2&b=x=y&&"));
    assert_eq!(params.len(), 3);
    assert_eq!(params.get("a"), Some(&"2".to_string()));
    assert_eq!(params.get("flag"), Some(&"".to_string()));
    assert_eq!(params.get("b"), Some(&"x=y".to_string()));
    assert_eq!(params.get("z"), None);
}

#[test]
fn split_query_at_first_question_mark() {
    let (path, query) = split_query("/p?x=1?y=2");
    assert_eq!(path, "/p");
    assert_eq!(query.as_deref(), Some("x=1?y=2"));
    let (path, query) = split_query("?");
    assert_eq!(path, "");
    assert_eq!(query.as_deref(), Some(""));
}
