use query_box::graphql::{prepare_graphql_request, SendGraphQLRequestPayload};

fn payload(query: &str) -> SendGraphQLRequestPayload {
    SendGraphQLRequestPayload {
        endpoint: "http://localhost:4000/graphql".to_string(),
        headers: None,
        method: None,
        query: query.to_string(),
        variables: None,
    }
}

#[test]
fn post_is_the_default_and_carries_the_envelope() {
    let req = prepare_graphql_request(&payload("{ping}")).unwrap();
    assert_eq!(req.method, "POST");
    assert_eq!(req.url, "http://localhost:4000/graphql");
    let body = req.body.expect("a POST must carry a body");
    let decoded: serde_json::Value = serde_json::from_str(&body).unwrap();
    let expected: serde_json::Value =
        serde_json::from_str("{\"query\":\"{ping}\",\"variables\":null,\"operationName\":null}")
            .unwrap();
    assert_eq!(decoded, expected);
}

#[test]
fn get_encodes_query_and_variables_as_parameters() {
    let mut p = payload("{ping}");
    p.method = Some("GET".to_string());
    p.variables = Some("{\"a\":1}".to_string());
    let req = prepare_graphql_request(&p).unwrap();
    assert_eq!(req.method, "GET");
    assert!(req.body.is_none());
    assert_eq!(
        req.url,
        "http://localhost:4000/graphql?query=%7Bping%7D&variables=%7B%22a%22%3A1%7D"
    );
}

#[test]
fn get_without_variables_sends_an_empty_variables_parameter() {
    let mut p = payload("{ping}");
    p.method = Some("get".to_string());
    let req = prepare_graphql_request(&p).unwrap();
    assert_eq!(
        req.url,
        "http://localhost:4000/graphql?query=%7Bping%7D&variables="
    );
}

#[test]
fn get_appends_to_an_existing_query_string() {
    let mut p = payload("{ping}");
    p.endpoint = "http://localhost:4000/graphql?tenant=1".to_string();
    p.method = Some("GET".to_string());
    let req = prepare_graphql_request(&p).unwrap();
    assert_eq!(
        req.url,
        "http://localhost:4000/graphql?tenant=1&query=%7Bping%7D&variables="
    );
}

#[test]
fn blank_variables_are_treated_like_absent_ones() {
    let absent = prepare_graphql_request(&payload("{ping}")).unwrap();
    let mut blank = payload("{ping}");
    blank.variables = Some(" \t\n ".to_string());
    let from_blank = prepare_graphql_request(&blank).unwrap();
    assert_eq!(absent, from_blank);
    let mut empty = payload("{ping}");
    empty.variables = Some(String::new());
    assert_eq!(absent, prepare_graphql_request(&empty).unwrap());
}

#[test]
fn methods_other_than_get_or_post_are_rejected() {
    for bad in ["DELETE", "Put", "patch", "TRACE", ""] {
        let mut p = payload("{ping}");
        p.method = Some(bad.to_string());
        let err = prepare_graphql_request(&p).unwrap_err();
        assert_eq!(err.message, format!("Unsupported method: {}", bad.to_uppercase()));
    }
    let mut p = payload("{ping}");
    p.method = Some("delete".to_string());
    let err = prepare_graphql_request(&p).unwrap_err();
    assert_eq!(err.message, "Unsupported method: DELETE");
}

#[test]
fn method_matching_ignores_ascii_case() {
    let mut p = payload("{ping}");
    p.method = Some("gEt".to_string());
    assert_eq!(prepare_graphql_request(&p).unwrap().method, "GET");
    p.method = Some("pOsT".to_string());
    assert_eq!(prepare_graphql_request(&p).unwrap().method, "POST");
}

#[test]
fn unparsable_variables_fail_before_anything_else() {
    let mut p = payload("{ping}");
    p.variables = Some("{not json".to_string());
    p.method = Some("DELETE".to_string());
    let err = prepare_graphql_request(&p).unwrap_err();
    assert!(
        err.message.starts_with("Failed to parse variables: "),
        "unexpected message: {}",
        err.message
    );
}

#[test]
fn forced_headers_override_caller_headers() {
    let mut p = payload("{ping}");
    p.headers = Some(vec![
        ("content-TYPE".to_string(), "text/plain".to_string()),
        ("X-Custom".to_string(), "7".to_string()),
        ("ACCEPT".to_string(), "text/html".to_string()),
    ]);
    let req = prepare_graphql_request(&p).unwrap();
    assert_eq!(
        req.headers.unwrap(),
        vec![
            ("X-Custom".to_string(), "7".to_string()),
            ("Content-Type".to_string(), "application/json".to_string()),
            ("Accept".to_string(), "application/json".to_string()),
            ("User-Agent".to_string(), "Query box GraphQL Client".to_string()),
        ]
    );
}

#[test]
fn absent_caller_headers_still_get_the_forced_three() {
    let req = prepare_graphql_request(&payload("{ping}")).unwrap();
    assert_eq!(
        req.headers.unwrap(),
        vec![
            ("Content-Type".to_string(), "application/json".to_string()),
            ("Accept".to_string(), "application/json".to_string()),
            ("User-Agent".to_string(), "Query box GraphQL Client".to_string()),
        ]
    );
}

#[test]
fn envelope_escaping_survives_a_json_round_trip() {
    let query = "query {\n  field(arg: \"a\\\"b\") # \u{1} control \u{e9}\n}";
    let req = prepare_graphql_request(&payload(query)).unwrap();
    let decoded: serde_json::Value = serde_json::from_str(&req.body.unwrap()).unwrap();
    assert_eq!(decoded.get("query").unwrap().as_str().unwrap(), query);
}

#[test]
fn get_percent_encodes_spaces_and_unicode() {
    let mut p = payload("\u{e4} ?*-._");
    p.method = Some("GET".to_string());
    let req = prepare_graphql_request(&p).unwrap();
    assert_eq!(
        req.url,
        "http://localhost:4000/graphql?query=%C3%A4+%3F*-._&variables="
    );
}

#[test]
fn empty_query_still_forms_a_valid_envelope() {
    let req = prepare_graphql_request(&payload("")).unwrap();
    let decoded: serde_json::Value = serde_json::from_str(&req.body.unwrap()).unwrap();
    assert_eq!(decoded.get("query").unwrap().as_str().unwrap(), "");

    let mut p = payload("");
    p.method = Some("GET".to_string());
    let req = prepare_graphql_request(&p).unwrap();
    assert_eq!(req.url, "http://localhost:4000/graphql?query=&variables=");
}

#[test]
fn variables_are_canonicalized_into_the_envelope() {
    let mut p = payload("{ping}");
    p.variables = Some("{ \"a\" : 1 }".to_string());
    let req = prepare_graphql_request(&p).unwrap();
    let body = req.body.unwrap();
    assert!(body.contains("\"variables\":{\"a\":1}"), "body was: {}", body);
    let decoded: serde_json::Value = serde_json::from_str(&body).unwrap();
    let expected_vars: serde_json::Value = serde_json::from_str("{\"a\":1}").unwrap();
    assert_eq!(decoded.get("variables").unwrap(), &expected_vars);
    assert!(decoded.get("operationName").unwrap().is_null());
}
