use query_box::relay::{check_http_method, normalize_response, transport_error};

fn raw_headers(pairs: &[(&str, &[u8])]) -> Vec<(String, Vec<u8>)> {
    pairs.iter().map(|(k, v)| (k.to_string(), v.to_vec())).collect()
}

#[test]
fn method_token_accepts_valid_tokens() {
    assert!(check_http_method("GET").is_ok());
    assert!(check_http_method("POST").is_ok());
    assert!(check_http_method("PATCH").is_ok());
    assert!(check_http_method("get").is_ok());
    assert!(check_http_method("CUSTOM-VERB!").is_ok());
    assert!(check_http_method("M.E_T~H|O`D").is_ok());
}

#[test]
fn method_token_rejects_invalid_strings() {
    for bad in ["", "B D", "GET\n", "GET/POST", "m\u{e9}thode", "(GET)", "GET,POST"] {
        let err = check_http_method(bad).unwrap_err();
        assert_eq!(err.message, "Invalid HTTP method: invalid HTTP method");
    }
}

#[test]
fn transport_error_keeps_the_detail() {
    let err = transport_error("connection refused");
    assert_eq!(err.message, "HTTP request failed: connection refused");
}

#[test]
fn normalize_echoes_status_headers_and_body() {
    let headers = raw_headers(&[("X-Test", b"1"), ("Content-Length", b"5")]);
    let resp = normalize_response(201, &headers, &b"hello".to_vec(), 42).unwrap();
    assert_eq!(resp.status_code, 201);
    assert_eq!(resp.body, "hello");
    assert_eq!(resp.duration_ms, 42);
    assert_eq!(
        resp.headers,
        vec![
            ("X-Test".to_string(), "1".to_string()),
            ("Content-Length".to_string(), "5".to_string()),
        ]
    );
}

#[test]
fn undecodable_header_value_is_dropped_not_fatal() {
    let headers = raw_headers(&[
        ("Good", b"ok"),
        ("Bad", &[0xff, 0xfe]),
        ("Also-Good", b"yes"),
    ]);
    let resp = normalize_response(200, &headers, &b"body".to_vec(), 7).unwrap();
    assert_eq!(
        resp.headers,
        vec![
            ("Good".to_string(), "ok".to_string()),
            ("Also-Good".to_string(), "yes".to_string()),
        ]
    );
    assert_eq!(resp.status_code, 200);
    assert_eq!(resp.body, "body");
}

#[test]
fn undecodable_body_fails_the_whole_call() {
    let headers = raw_headers(&[("Good", b"ok")]);
    let err = normalize_response(200, &headers, &vec![0xff, 0x00], 7).unwrap_err();
    assert_eq!(err.message, "Failed to read response body: invalid UTF-8");
}

#[test]
fn utf8_body_and_header_values_survive() {
    let headers = raw_headers(&[("X-Greeting", "gr\u{fc}\u{df}e".as_bytes())]);
    let resp = normalize_response(200, &headers, &"r\u{e9}ponse".as_bytes().to_vec(), 1).unwrap();
    assert_eq!(resp.headers, vec![("X-Greeting".to_string(), "gr\u{fc}\u{df}e".to_string())]);
    assert_eq!(resp.body, "r\u{e9}ponse");
}

#[test]
fn same_raw_response_normalizes_equally_apart_from_duration() {
    let headers = raw_headers(&[("X-Test", b"1")]);
    let body = b"echo".to_vec();
    let a = normalize_response(200, &headers, &body, 5).unwrap();
    let b = normalize_response(200, &headers, &body, 9).unwrap();
    assert_eq!(a.status_code, b.status_code);
    assert_eq!(a.headers, b.headers);
    assert_eq!(a.body, b.body);
    assert_eq!(a.duration_ms, 5);
    assert_eq!(b.duration_ms, 9);
}
