use hasura_graphql_client::interpret_response;
use hasura_graphql_client::render_json;
use hasura_graphql_client::GraphQLRequest;
use hasura_graphql_client::HasuraGraphQLClient;
use hasura_graphql_client::HasuraGraphQLClientError;
use hasura_graphql_client::JsonValue;

fn expect_object(v: JsonValue) -> Vec<(String, JsonValue)> {
    match v {
        JsonValue::Object(entries) => entries,
        other => panic!("expected an object, got {:?}", other),
    }
}

#[test]
fn success_envelope_returns_data() {
    let r = interpret_response(200, "{\"data\":{\"id\":\"7\"}}");
    let entries = expect_object(r.expect("a success envelope must yield data"));
    assert_eq!(entries.len(), 1);
    assert_eq!(entries[0].0, "id");
    match &entries[0].1 {
        JsonValue::Text(s) => assert_eq!(s, "7"),
        other => panic!("expected text, got {:?}", other),
    }
}

#[test]
fn graphql_errors_returned_with_message() {
    let body = "{\"errors\":[{\"message\":\"bad field\"}],\"data\":{\"id\":\"7\"}}";
    match interpret_response(200, body) {
        Err(HasuraGraphQLClientError::GraphqlError(es)) => {
            assert_eq!(es.len(), 1);
            assert_eq!(es[0].message, "bad field");
        },
        other => panic!("expected the GraphQL error list, got {:?}", other),
    }
}

#[test]
fn graphql_errors_keep_their_order() {
    let body = "{\"errors\":[{\"message\":\"first\"},{\"message\":\"second\"}]}";
    match interpret_response(200, body) {
        Err(HasuraGraphQLClientError::GraphqlError(es)) => {
            assert_eq!(es.len(), 2);
            assert_eq!(es[0].message, "first");
            assert_eq!(es[1].message, "second");
        },
        other => panic!("expected the GraphQL error list, got {:?}", other),
    }
}

#[test]
fn bad_status_wins_and_the_body_is_never_parsed() {
    // The body is not JSON at all: only a short-circuit on the status can
    // return the status error.
    match interpret_response(500, "this is not json") {
        Err(HasuraGraphQLClientError::TransportError(Some(500))) => {},
        other => panic!("expected the status error, got {:?}", other),
    }
}

#[test]
fn status_range_boundaries() {
    assert!(matches!(
        interpret_response(199, "{\"data\":1}"),
        Err(HasuraGraphQLClientError::TransportError(Some(199)))
    ));
    assert!(matches!(
        interpret_response(300, "{\"data\":1}"),
        Err(HasuraGraphQLClientError::TransportError(Some(300)))
    ));
    assert!(interpret_response(200, "{\"data\":1}").is_ok());
    assert!(interpret_response(299, "{\"data\":1}").is_ok());
}

#[test]
fn envelope_without_data_or_errors_is_malformed() {
    match interpret_response(200, "{\"foo\":\"bar\"}") {
        Err(HasuraGraphQLClientError::MissingDataError) => {},
        other => panic!("expected the missing-data error, got {:?}", other),
    }
}

#[test]
fn unparsable_body_is_a_parse_error() {
    match interpret_response(200, "not json") {
        Err(HasuraGraphQLClientError::BodyParseError) => {},
        other => panic!("expected the parse error, got {:?}", other),
    }
}

#[test]
fn non_array_errors_value_is_a_parse_error() {
    match interpret_response(200, "{\"errors\":{\"message\":\"x\"}}") {
        Err(HasuraGraphQLClientError::BodyParseError) => {},
        other => panic!("expected the parse error, got {:?}", other),
    }
}

#[test]
fn entry_without_message_is_a_parse_error() {
    match interpret_response(200, "{\"errors\":[{\"message\":\"ok\"},{\"code\":7}]}") {
        Err(HasuraGraphQLClientError::BodyParseError) => {},
        other => panic!("expected the parse error, got {:?}", other),
    }
}

#[test]
fn null_errors_key_falls_through_to_data() {
    let r = interpret_response(200, "{\"errors\":null,\"data\":5}");
    match r.expect("a null errors key carries no errors") {
        JsonValue::Number(n) => assert_eq!(n, "5"),
        other => panic!("expected a number, got {:?}", other),
    }
}

#[test]
fn decimal_numbers_survive_the_trip() {
    let r = interpret_response(200, "{\"data\":0.5}");
    match r.expect("a success envelope must yield data") {
        JsonValue::Number(n) => assert_eq!(n, "0.5"),
        other => panic!("expected a number, got {:?}", other),
    }
}

#[test]
fn unexpected_data_shape_is_returned_verbatim_and_fails_a_typed_decode() {
    // The library hands the payload out as it came ...
    let r = interpret_response(200, "{\"data\":{\"unexpectedShape\":true}}");
    let entries = expect_object(r.expect("a success envelope must yield data"));
    assert_eq!(entries.len(), 1);
    assert_eq!(entries[0].0, "unexpectedShape");
    assert!(matches!(entries[0].1, JsonValue::Bool(true)));
    // ... and a caller asking for `{id: string}` then fails to decode it.
    let payload: serde_json::Value = serde_json::from_str("{\"unexpectedShape\":true}").unwrap();
    let decoded = serde_json::from_value::<std::collections::BTreeMap<String, String>>(payload);
    assert!(decoded.is_err());
}

#[test]
fn bearer_token_takes_precedence_over_the_admin_secret() {
    let client = HasuraGraphQLClient::new("http://gateway.example/v1/graphql", "admin-secret-value");
    let (name, value) = client.auth_header(Some("abc"));
    assert_eq!(name, "Authorization");
    assert_eq!(value, "Bearer abc");
    assert_ne!(name, "x-hasura-admin-secret");
}

#[test]
fn without_a_token_the_admin_secret_header_is_sent() {
    let client = HasuraGraphQLClient::new("http://gateway.example/v1/graphql", "admin-secret-value");
    let (name, value) = client.auth_header(None);
    assert_eq!(name, "x-hasura-admin-secret");
    assert_eq!(value, "admin-secret-value");
    assert_ne!(name, "Authorization");
}

#[test]
fn the_client_keeps_its_url() {
    let client = HasuraGraphQLClient::new("http://gateway.example/v1/graphql", "s");
    assert_eq!(client.api_url(), "http://gateway.example/v1/graphql");
}

#[test]
fn request_body_without_variables() {
    let request = GraphQLRequest::new("query Q { id }", None);
    let body = request.to_body_json();
    let text = render_json(&body);
    assert_eq!(text, "{\"query\":\"query Q { id }\"}");
}

#[test]
fn request_body_with_variables() {
    let vars = JsonValue::Object(vec![("a".to_owned(), JsonValue::Number("1".to_owned()))]);
    let request = GraphQLRequest::new("q", Some(vars));
    let body = request.to_body_json();
    let text = render_json(&body);
    assert_eq!(text, "{\"query\":\"q\",\"variables\":{\"a\":1}}");
}

#[test]
fn identical_responses_interpret_identically() {
    let body = "{\"errors\":[{\"message\":\"bad field\"}]}";
    let first = interpret_response(200, body);
    let second = interpret_response(200, body);
    match (first, second) {
        (
            Err(HasuraGraphQLClientError::GraphqlError(a)),
            Err(HasuraGraphQLClientError::GraphqlError(b)),
        ) => {
            assert_eq!(a.len(), b.len());
            assert_eq!(a[0].message, b[0].message);
        },
        other => panic!("expected two equal error lists, got {:?}", other),
    }
    let ok_body = "{\"data\":{\"id\":\"7\"}}";
    let e1 = expect_object(interpret_response(200, ok_body).unwrap());
    let e2 = expect_object(interpret_response(200, ok_body).unwrap());
    assert_eq!(e1.len(), e2.len());
    assert_eq!(e1[0].0, e2[0].0);
    match (&e1[0].1, &e2[0].1) {
        (JsonValue::Text(a), JsonValue::Text(b)) => assert_eq!(a, b),
        other => panic!("expected equal text values, got {:?}", other),
    }
}
