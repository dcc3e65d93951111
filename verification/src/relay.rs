//! The generic HTTP relay: message shapes, client-side validation of the
//! method token, and normalization of a raw response into the shape handed
//! back to the UI.
//!
//! The relay itself is stateless.  Dispatching the request over the network
//! is I/O and lives outside the library; the functions here do everything
//! that can be decided from plain values: a request is refused before any
//! network call when its method is not a syntactically valid HTTP method
//! token, and a raw response (status, header bytes, body bytes, elapsed
//! milliseconds) is turned into a normalized response.  A response header
//! whose value is not valid UTF-8 is dropped silently; a response body that
//! is not valid UTF-8 fails the whole call.  That asymmetry is deliberate.

use vstd::prelude::*;

verus! {

use vstd::utf8::{valid_utf8, decode_utf8};
use vstd::string::StringExecFns;
use crate::text::utf8_to_string;

/// A fully specified outbound request: a method string that must parse to a
/// known HTTP verb, a target URL, optional headers, and an optional raw
/// string body.
#[derive(Debug, Clone, PartialEq)]
pub struct HttpRequest {
    pub method: String,
    pub url: String,
    pub headers: Option<Vec<(String, String)>>,
    pub body: Option<String>,
}

/// A normalized response: status code, the response headers whose values
/// decoded as text, the body decoded as text, and the elapsed time of the
/// call in milliseconds.
#[derive(Debug, Clone, PartialEq)]
pub struct HttpResponse {
    pub status_code: u16,
    pub headers: Vec<(String, String)>,
    pub body: String,
    pub duration_ms: u128,
}

/// A failed relay call, carrying a single human-readable message.
#[derive(Debug, Clone, PartialEq)]
pub struct HttpError {
    pub message: String,
}

/// The characters an HTTP method token may contain (the `tchar` set of
/// RFC 9110): letters, digits, and `!#$%&'*+-.^_`, backquote, `|`, `~`.
pub open spec fn is_tchar(c: char) -> bool {
    let u = c as u32;
    ||| u == 0x21
    ||| 0x23 <= u <= 0x27
    ||| u == 0x2a
    ||| u == 0x2b
    ||| u == 0x2d
    ||| u == 0x2e
    ||| 0x30 <= u <= 0x39
    ||| 0x41 <= u <= 0x5a
    ||| u == 0x5e
    ||| u == 0x5f
    ||| u == 0x60
    ||| 0x61 <= u <= 0x7a
    ||| u == 0x7c
    ||| u == 0x7e
}

/// A syntactically valid HTTP method: a non-empty token of `tchar`s.
pub open spec fn method_token(s: Seq<char>) -> bool {
    s.len() > 0 && (forall|i: int| 0 <= i < s.len() ==> is_tchar(s[i]))
}

/// The message reported when the method string is not a valid token.
pub open spec fn invalid_method_message() -> Seq<char> {
    "Invalid HTTP method: invalid HTTP method"@
}

/// The message reported when the response body is not decodable text.
pub open spec fn body_decode_message() -> Seq<char> {
    "Failed to read response body: invalid UTF-8"@
}

/// The prefix of every transport-level failure message.
pub open spec fn transport_message(detail: Seq<char>) -> Seq<char> {
    "HTTP request failed: "@ + detail
}

/// Validates the method string of a relay request.  Exactly the
/// syntactically valid HTTP method tokens pass; everything else is refused
/// here, before any network I/O happens.
pub fn check_http_method(method: &str) -> (r: Result<(), HttpError>)
    ensures
        r is Ok <==> method_token(method@),
        r matches Err(e) ==> e.message@ == invalid_method_message(),
{
    let n = method.unicode_len();
    let mut ok = n > 0;
    for i in 0..n
        invariant
            n == method@.len(),
            ok == (n > 0 && (forall|j: int| 0 <= j < i ==> is_tchar(method@[j]))),
    {
        let u = method.get_char(i) as u32;
        let tc = u == 0x21 || (0x23 <= u && u <= 0x27) || u == 0x2a || u == 0x2b || u == 0x2d
            || u == 0x2e || (0x30 <= u && u <= 0x39) || (0x41 <= u && u <= 0x5a) || u == 0x5e
            || u == 0x5f || u == 0x60 || (0x61 <= u && u <= 0x7a) || u == 0x7c || u == 0x7e;
        ok = ok && tc;
    }
    if ok {
        Ok(())
    } else {
        Err(HttpError { message: String::from_str("Invalid HTTP method: invalid HTTP method") })
    }
}

/// Wraps the text of a transport-level failure (DNS, TLS, connect, timeout)
/// in the relay's error shape.
pub fn transport_error(detail: &str) -> (r: HttpError)
    ensures
        r.message@ == transport_message(detail@),
{
    let msg = String::from_str("HTTP request failed: ").concat(detail);
    HttpError { message: msg }
}

/// The view of a list of decoded header pairs.
pub open spec fn text_pairs_view(h: Seq<(String, String)>) -> Seq<(Seq<char>, Seq<char>)> {
    h.map_values(|p: (String, String)| (p.0@, p.1@))
}

/// The view of a list of raw header pairs, values still undecoded bytes.
pub open spec fn raw_pairs_view(h: Seq<(String, Vec<u8>)>) -> Seq<(Seq<char>, Seq<u8>)> {
    h.map_values(|p: (String, Vec<u8>)| (p.0@, p.1@))
}

/// The headers kept in a normalized response: exactly those whose raw value
/// is valid UTF-8, in order, with the value decoded; the rest are dropped.
pub open spec fn kept_headers(raw: Seq<(Seq<char>, Seq<u8>)>) -> Seq<(Seq<char>, Seq<char>)>
    decreases raw.len(),
{
    if raw.len() == 0 {
        Seq::empty()
    } else {
        let rest = kept_headers(raw.drop_last());
        if valid_utf8(raw.last().1) {
            rest.push((raw.last().0, decode_utf8(raw.last().1)))
        } else {
            rest
        }
    }
}

/// What a normalized response says about the raw response it came from.
pub open spec fn response_matches(
    resp: HttpResponse,
    status_code: u16,
    raw_headers: Seq<(Seq<char>, Seq<u8>)>,
    body_bytes: Seq<u8>,
    duration_ms: u128,
) -> bool {
    &&& resp.status_code == status_code
    &&& resp.duration_ms == duration_ms
    &&& resp.body@ == decode_utf8(body_bytes)
    &&& text_pairs_view(resp.headers@) == kept_headers(raw_headers)
}

/// Turns the raw pieces of a completed HTTP exchange into the relay's
/// response shape.  Succeeds exactly when the body bytes are valid UTF-8;
/// headers with undecodable values are dropped without failing the call.
pub fn normalize_response(
    status_code: u16,
    raw_headers: &Vec<(String, Vec<u8>)>,
    body: &Vec<u8>,
    duration_ms: u128,
) -> (r: Result<HttpResponse, HttpError>)
    ensures
        r is Ok <==> valid_utf8(body@),
        r matches Ok(resp) ==> response_matches(
            resp,
            status_code,
            raw_pairs_view(raw_headers@),
            body@,
            duration_ms,
        ),
        r matches Err(e) ==> e.message@ == body_decode_message(),
{
    let body_text = match utf8_to_string(body) {
        Some(t) => t,
        None => {
            return Err(
                HttpError { message: String::from_str("Failed to read response body: invalid UTF-8") },
            );
        },
    };
    let mut headers: Vec<(String, String)> = Vec::new();
    let n = raw_headers.len();
    for i in 0..n
        invariant
            n == raw_headers@.len(),
            text_pairs_view(headers@) == kept_headers(raw_pairs_view(raw_headers@).take(i as int)),
    {
        let name = &raw_headers[i].0;
        let value = &raw_headers[i].1;
        proof {
            assert(raw_pairs_view(raw_headers@).take(i + 1).drop_last() =~= raw_pairs_view(
                raw_headers@,
            ).take(i as int));
            assert(raw_pairs_view(raw_headers@).take(i + 1).last() == (name@, value@));
        }
        match utf8_to_string(value) {
            Some(text) => {
                headers.push((name.clone(), text));
                proof {
                    assert(text_pairs_view(headers@) =~= kept_headers(
                        raw_pairs_view(raw_headers@).take(i + 1),
                    ));
                }
            },
            None => {
                proof {
                    assert(text_pairs_view(headers@) =~= kept_headers(
                        raw_pairs_view(raw_headers@).take(i + 1),
                    ));
                }
            },
        }
    }
    proof {
        assert(raw_pairs_view(raw_headers@).take(n as int) =~= raw_pairs_view(raw_headers@));
    }
    Ok(HttpResponse { status_code, headers, body: body_text, duration_ms })
}

/// The relay is deterministic up to timing: two normalized responses built
/// from the same raw status, headers and body agree on everything except
/// possibly `duration_ms`, whatever the two elapsed times were.
pub proof fn lemma_relay_idempotent(
    a: HttpResponse,
    b: HttpResponse,
    status_code: u16,
    raw_headers: Seq<(Seq<char>, Seq<u8>)>,
    body_bytes: Seq<u8>,
    d1: u128,
    d2: u128,
)
    requires
        response_matches(a, status_code, raw_headers, body_bytes, d1),
        response_matches(b, status_code, raw_headers, body_bytes, d2),
    ensures
        a.status_code == b.status_code,
        a.body@ == b.body@,
        text_pairs_view(a.headers@) == text_pairs_view(b.headers@),
{
}

} // verus!
