use graphql_sse::request::{DecodeError, GraphQLQuery, QueryOrSub};

fn params(pairs: &[(&str, &str)]) -> Vec<(String, String)> {
    pairs.iter().map(|(k, v)| (k.to_string(), v.to_string())).collect()
}

fn decode_err(pairs: &[(&str, &str)]) -> DecodeError {
    match GraphQLQuery::decode(&params(pairs)) {
        Err(e) => e,
        Ok(_) => panic!("decoding was expected to fail"),
    }
}

#[test]
fn both_keys_conflict() {
    assert_eq!(decode_err(&[("query", "{firstName}"), ("subscription", "{interval}")]), DecodeError::Conflict);
    assert_eq!(decode_err(&[("subscription", "{interval}"), ("query", "")]), DecodeError::Conflict);
}

#[test]
fn neither_key_fails() {
    assert_eq!(decode_err(&[]), DecodeError::MissingOperation);
    assert_eq!(decode_err(&[("operationName", "A"), ("variables", "{}")]), DecodeError::MissingOperation);
}

#[test]
fn empty_operation_fails() {
    assert_eq!(decode_err(&[("query", "")]), DecodeError::EmptyOperation);
    assert_eq!(decode_err(&[("subscription", "")]), DecodeError::EmptyOperation);
}

#[test]
fn bad_variables_fail() {
    assert_eq!(decode_err(&[("query", "{age}"), ("variables", "{\"n\":")]), DecodeError::InvalidVariables);
}

#[test]
fn bad_extensions_fail() {
    assert_eq!(decode_err(&[("query", "{age}"), ("extensions", "[1, 2]")]), DecodeError::InvalidExtensions);
    assert_eq!(decode_err(&[("query", "{age}"), ("extensions", "{")]), DecodeError::InvalidExtensions);
}

#[test]
fn operation_errors_come_before_parse_errors() {
    assert_eq!(decode_err(&[("variables", "not json")]), DecodeError::MissingOperation);
    assert_eq!(decode_err(&[("query", "{age}"), ("variables", "x"), ("extensions", "y")]), DecodeError::InvalidVariables);
}

#[test]
fn query_is_decoded() {
    let q = GraphQLQuery::decode(&params(&[("query", "{firstName}")])).unwrap();
    assert!(q.in_query());
    assert!(matches!(&q.query, QueryOrSub::Query(b) if b == "{firstName}"));
    assert!(q.operation_name.is_none());
    assert!(q.variables.is_none());
    assert!(q.extensions.is_none());
    let r = q.engine_request();
    assert_eq!(r.query, "query {firstName}");
}

#[test]
fn subscription_is_decoded() {
    let q = GraphQLQuery::decode(&params(&[("subscription", "{interval}"), ("operationName", "Tick")])).unwrap();
    assert!(!q.in_query());
    let r = q.engine_request();
    assert_eq!(r.query, "subscription {interval}");
    assert_eq!(r.operation_name.as_deref(), Some("Tick"));
}

#[test]
fn first_occurrence_wins() {
    let q = GraphQLQuery::decode(&params(&[("query", "{age}"), ("operationName", "A"), ("operationName", "B")])).unwrap();
    assert_eq!(q.operation_name.as_deref(), Some("A"));
}

#[test]
fn variables_survive_the_round_trip() {
    let q = GraphQLQuery::decode(&params(&[("subscription", "{interval(n: $n)}"), ("variables", "{\"n\":3}")])).unwrap();
    let r = q.engine_request();
    let expected: serde_json::Value = serde_json::from_str("{\"n\":3}").unwrap();
    assert_eq!(r.variables.as_ref(), Some(&expected));
    assert_eq!(r.variables.as_ref().unwrap()["n"].as_i64(), Some(3));
    let request = r.into_request();
    assert_eq!(request.query, "subscription {interval(n: $n)}");
    let n = request.variables.get(&async_graphql::Name::new("n")).cloned();
    assert_eq!(n, Some(async_graphql::Value::from(3)));
    assert_eq!(request.variables.len(), 1);
}

#[test]
fn request_carries_every_part() {
    let q = GraphQLQuery::decode(&params(&[
        ("query", "{firstName}"),
        ("operationName", "Named"),
        ("extensions", "{\"trace\":true}"),
    ]))
    .unwrap();
    let request = q.into_request();
    assert_eq!(request.query, "query {firstName}");
    assert_eq!(request.operation_name.as_deref(), Some("Named"));
    assert_eq!(request.extensions.get("trace"), Some(&async_graphql::Value::from(true)));
    assert!(request.variables.is_empty());
}

#[test]
fn assemble_reports_first_failure() {
    let bad: Result<serde_json::Value, serde_json::Error> = serde_json::from_str("{");
    let r = GraphQLQuery::assemble(Ok(QueryOrSub::Query("{age}".to_string())), None, Some(bad), None);
    assert!(matches!(r, Err(DecodeError::InvalidVariables)));
    let r = GraphQLQuery::assemble(Err(DecodeError::Conflict), None, None, None);
    assert!(matches!(r, Err(DecodeError::Conflict)));
}

#[test]
fn select_operation_picks_the_kind() {
    let op = GraphQLQuery::select_operation(&params(&[("subscription", "{interval}")])).unwrap();
    assert!(matches!(op, QueryOrSub::Subscription(b) if b == "{interval}"));
}

#[test]
fn operation_text_has_keyword() {
    assert_eq!(QueryOrSub::Query("{age}".to_string()).text(), "query {age}");
    assert_eq!(QueryOrSub::Subscription("{interval}".to_string()).text(), "subscription {interval}");
}
