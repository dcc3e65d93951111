//! The GraphQL request sender: assembles a GraphQL envelope from a
//! caller-supplied payload and hands the relay a fully specified request.
//!
//! The caller's `variables` string is parsed lazily: absent, empty or
//! whitespace-only means no variables; anything else must be valid JSON or
//! the call fails before any network I/O.  The method defaults to POST and
//! only GET and POST are legal, case-insensitively; anything else is
//! rejected before the envelope is built.  Three headers are always forced
//! over caller-supplied values of the same (case-insensitive) names:
//! `Content-Type` and `Accept` as `application/json`, and the client's
//! `User-Agent`.  A POST carries the envelope
//! `{"query":…,"variables":…,"operationName":null}` as its JSON body; a GET
//! carries `query` and `variables` as form-urlencoded query parameters and
//! no body.

use vstd::prelude::*;

verus! {

use vstd::string::StringExecFns;
use crate::form_url::{form_encoded, form_encode_into};
use crate::json_text::{json_escaped, json_escape_into, json_text_accepted, json_canonical,
    json_canonicalize, json_error_text};
use crate::relay::{HttpRequest, HttpError, text_pairs_view};
use crate::text::{ascii_upper, ascii_uppercase, blank_text, eq_ignore_ascii_case, str_is_blank,
    str_contains_char, str_eq_ignore_ascii_case};

/// The caller-facing input of a GraphQL send: target URL, optional headers,
/// optional method (GET or POST, defaulting to POST), the query text, and an
/// optional JSON string of variables.
#[derive(Debug, Clone, PartialEq)]
pub struct SendGraphQLRequestPayload {
    pub endpoint: String,
    pub headers: Option<Vec<(String, String)>>,
    pub method: Option<String>,
    pub query: String,
    pub variables: Option<String>,
}

/// The two HTTP methods a GraphQL request may use.
#[derive(Debug, Clone, Copy, PartialEq, Eq, Structural)]
pub enum GraphQLMethod {
    Get,
    Post,
}

/// The view of an optional string.
pub open spec fn opt_text_view(o: Option<String>) -> Option<Seq<char>> {
    match o {
        Option::None => Option::None,
        Option::Some(s) => Option::Some(s@),
    }
}

/// The view of the optional caller headers; absent means empty.
pub open spec fn opt_headers_view(o: Option<Vec<(String, String)>>) -> Seq<
    (Seq<char>, Seq<char>),
> {
    match o {
        Option::None => Seq::empty(),
        Option::Some(v) => text_pairs_view(v@),
    }
}

/// A variables string that is absent, empty or whitespace-only counts as
/// absent; any other variables string stands as given.
pub open spec fn effective_variables(v: Option<Seq<char>>) -> Option<Seq<char>> {
    match v {
        Option::None => Option::None,
        Option::Some(s) => if blank_text(s) {
            Option::None
        } else {
            Option::Some(s)
        },
    }
}

/// The method a payload resolves to: POST when absent, GET or POST up to
/// ASCII case, and nothing for every other string.
pub open spec fn method_choice(m: Option<Seq<char>>) -> Option<GraphQLMethod> {
    match m {
        Option::None => Option::Some(GraphQLMethod::Post),
        Option::Some(s) => if eq_ignore_ascii_case(s, "get"@) {
            Option::Some(GraphQLMethod::Get)
        } else if eq_ignore_ascii_case(s, "post"@) {
            Option::Some(GraphQLMethod::Post)
        } else {
            Option::None
        },
    }
}

/// The header names whose values the GraphQL sender always forces.
pub open spec fn forced_header_name(n: Seq<char>) -> bool {
    ||| eq_ignore_ascii_case(n, "content-type"@)
    ||| eq_ignore_ascii_case(n, "accept"@)
    ||| eq_ignore_ascii_case(n, "user-agent"@)
}

/// The caller headers that survive the merge: those not named like a forced
/// header, in their original order.
pub open spec fn retained_headers(h: Seq<(Seq<char>, Seq<char>)>) -> Seq<(Seq<char>, Seq<char>)>
    decreases h.len(),
{
    if h.len() == 0 {
        Seq::empty()
    } else {
        let rest = retained_headers(h.drop_last());
        if forced_header_name(h.last().0) {
            rest
        } else {
            rest.push(h.last())
        }
    }
}

/// The three forced headers, appended after the retained caller headers.
pub open spec fn forced_headers() -> Seq<(Seq<char>, Seq<char>)> {
    seq![
        ("Content-Type"@, "application/json"@),
        ("Accept"@, "application/json"@),
        ("User-Agent"@, "Query box GraphQL Client"@),
    ]
}

/// The headers of the outbound GraphQL request: the caller's, minus any
/// entry named like a forced header, with the forced three at the end.
pub open spec fn merged_headers(h: Seq<(Seq<char>, Seq<char>)>) -> Seq<(Seq<char>, Seq<char>)> {
    retained_headers(h) + forced_headers()
}

/// The JSON envelope sent as a POST body: the escaped query, the variables
/// document or `null`, and an `operationName` that is always `null`.
pub open spec fn envelope_body(q: Seq<char>, vars: Option<Seq<char>>) -> Seq<char> {
    "{\"query\":\""@ + json_escaped(q) + "\",\"variables\":"@ + (match vars {
        Option::None => "null"@,
        Option::Some(v) => v,
    }) + ",\"operationName\":null}"@
}

/// The URL of a GraphQL GET: the endpoint with `query` and `variables` as
/// form-urlencoded parameters; absent variables appear as an empty value.
/// An endpoint that already carries a query string is extended with `&`,
/// any other with `?`.
pub open spec fn get_request_url(endpoint: Seq<char>, q: Seq<char>, vars_text: Seq<char>) -> Seq<
    char,
> {
    endpoint + (if endpoint.contains('?') {
        "&query="@
    } else {
        "?query="@
    }) + form_encoded(q) + "&variables="@ + form_encoded(vars_text)
}

/// The message prefix of a failed variables parse.
pub open spec fn variables_error_prefix() -> Seq<char> {
    "Failed to parse variables: "@
}

/// The message reported for a method other than GET or POST: the method is
/// shown upper-cased, as it was matched.
pub open spec fn unsupported_method_message(m: Seq<char>) -> Seq<char> {
    "Unsupported method: "@ + ascii_upper(m)
}

/// The effective variables of a payload.
pub open spec fn payload_variables(data: SendGraphQLRequestPayload) -> Option<Seq<char>> {
    effective_variables(opt_text_view(data.variables))
}

/// Whether the payload's variables are usable: absent, or valid JSON.
pub open spec fn payload_variables_ok(data: SendGraphQLRequestPayload) -> bool {
    match payload_variables(data) {
        Option::None => true,
        Option::Some(v) => json_text_accepted(v),
    }
}

/// The method the payload resolves to, if it is legal.
pub open spec fn payload_method(data: SendGraphQLRequestPayload) -> Option<GraphQLMethod> {
    method_choice(opt_text_view(data.method))
}

/// Builds the relay request for a GraphQL payload, or refuses it before any
/// network I/O: first an unparsable variables string, then an unsupported
/// method.  On success the request carries the merged headers, and either
/// the envelope as a POST body or the encoded query parameters in a GET URL.
pub fn prepare_graphql_request(data: &SendGraphQLRequestPayload) -> (r: Result<
    HttpRequest,
    HttpError,
>)
    ensures
        r is Ok <==> payload_variables_ok(*data) && payload_method(*data) is Some,
        !payload_variables_ok(*data) ==> (r matches Err(e)
            && variables_error_prefix().is_prefix_of(e.message@)),
        payload_variables_ok(*data) && payload_method(*data) is None ==> (r matches Err(e)
            && data.method matches Some(m) && e.message@ == unsupported_method_message(m@)),
        r matches Ok(req) ==> {
            &&& req.headers matches Some(h) && text_pairs_view(h@) == merged_headers(
                opt_headers_view(data.headers),
            )
            &&& payload_method(*data) == Some(GraphQLMethod::Post) ==> {
                &&& req.method@ == "POST"@
                &&& req.url@ == data.endpoint@
                &&& req.body matches Some(b) && (match payload_variables(*data) {
                    Option::None => b@ == envelope_body(data.query@, Option::None),
                    Option::Some(vs) => b@ == envelope_body(
                        data.query@,
                        Option::Some(json_canonical(vs)),
                    ),
                })
            }
            &&& payload_method(*data) == Some(GraphQLMethod::Get) ==> {
                &&& req.method@ == "GET"@
                &&& req.body is None
                &&& (match payload_variables(*data) {
                    Option::None => req.url@ == get_request_url(
                        data.endpoint@,
                        data.query@,
                        Seq::empty(),
                    ),
                    Option::Some(vs) => req.url@ == get_request_url(
                        data.endpoint@,
                        data.query@,
                        json_canonical(vs),
                    ),
                })
            }
        },
{
    // Parse and canonicalize the variables string, if one was effectively
    // given.
    let mut vars_text: Option<String> = None;
    match &data.variables {
        None => {},
        Some(v) => {
            if !str_is_blank(v.as_str()) {
                match json_canonicalize(v.as_str()) {
                    Ok(text) => {
                        vars_text = Some(text);
                    },
                    Err(parse_error) => {
                        let detail = json_error_text(&parse_error);
                        let message = String::from_str("Failed to parse variables: ").concat(
                            detail.as_str(),
                        );
                        proof {
                            assert((variables_error_prefix() + detail@).subrange(
                                0,
                                variables_error_prefix().len() as int,
                            ) =~= variables_error_prefix());
                        }
                        return Err(HttpError { message });
                    },
                }
            }
        },
    }
    assert(payload_variables_ok(*data));
    assert(match payload_variables(*data) {
        Option::None => vars_text is None,
        Option::Some(vs) => vars_text matches Some(t) && t@ == json_canonical(vs),
    });

    // Resolve the method, defaulting to POST.
    let use_get: bool = match &data.method {
        None => false,
        Some(m) => {
            if str_eq_ignore_ascii_case(m.as_str(), "get") {
                true
            } else if str_eq_ignore_ascii_case(m.as_str(), "post") {
                false
            } else {
                let upper = ascii_uppercase(m.as_str());
                let message = String::from_str("Unsupported method: ").concat(upper.as_str());
                return Err(HttpError { message });
            }
        },
    };

    // Merge the headers: the caller's, then the forced three.
    let mut headers: Vec<(String, String)> = Vec::new();
    match &data.headers {
        None => {},
        Some(hs) => {
            let n = hs.len();
            for i in 0..n
                invariant
                    n == hs@.len(),
                    text_pairs_view(headers@) == retained_headers(
                        text_pairs_view(hs@).take(i as int),
                    ),
            {
                let name = &hs[i].0;
                let value = &hs[i].1;
                proof {
                    assert(text_pairs_view(hs@).take(i + 1).drop_last() =~= text_pairs_view(
                        hs@,
                    ).take(i as int));
                    assert(text_pairs_view(hs@).take(i + 1).last() == (name@, value@));
                }
                let forced = str_eq_ignore_ascii_case(name.as_str(), "content-type")
                    || str_eq_ignore_ascii_case(name.as_str(), "accept")
                    || str_eq_ignore_ascii_case(name.as_str(), "user-agent");
                if !forced {
                    headers.push((name.clone(), value.clone()));
                }
                proof {
                    assert(text_pairs_view(headers@) =~= retained_headers(
                        text_pairs_view(hs@).take(i + 1),
                    ));
                }
            }
            proof {
                assert(text_pairs_view(hs@).take(n as int) =~= text_pairs_view(hs@));
            }
        },
    }
    headers.push((String::from_str("Content-Type"), String::from_str("application/json")));
    headers.push((String::from_str("Accept"), String::from_str("application/json")));
    headers.push((String::from_str("User-Agent"), String::from_str("Query box GraphQL Client")));
    proof {
        assert(text_pairs_view(headers@) =~= merged_headers(opt_headers_view(data.headers)));
    }

    if use_get {
        // GET: everything rides in the query string, no body.
        let mut url = data.endpoint.clone();
        if str_contains_char(data.endpoint.as_str(), '?') {
            url.append("&query=");
        } else {
            url.append("?query=");
        }
        form_encode_into(&mut url, data.query.as_str());
        url.append("&variables=");
        match &vars_text {
            None => {
                proof {
                    assert(form_encoded(Seq::<char>::empty()) =~= Seq::<char>::empty());
                    assert(url@ =~= get_request_url(data.endpoint@, data.query@, Seq::empty()));
                }
            },
            Some(vt) => {
                form_encode_into(&mut url, vt.as_str());
                proof {
                    assert(url@ =~= get_request_url(data.endpoint@, data.query@, vt@));
                }
            },
        }
        Ok(HttpRequest { method: String::from_str("GET"), url, headers: Some(headers), body: None })
    } else {
        // POST: the envelope travels as the JSON body.
        let mut body = String::from_str("{\"query\":\"");
        json_escape_into(&mut body, data.query.as_str());
        body.append("\",\"variables\":");
        match &vars_text {
            None => {
                body.append("null");
            },
            Some(vt) => {
                body.append(vt.as_str());
            },
        }
        body.append(",\"operationName\":null}");
        proof {
            match vars_text {
                Option::None => {
                    assert(body@ =~= envelope_body(data.query@, Option::None));
                },
                Option::Some(vt) => {
                    assert(body@ =~= envelope_body(data.query@, Option::Some(vt@)));
                },
            }
        }
        Ok(
            HttpRequest {
                method: String::from_str("POST"),
                url: data.endpoint.clone(),
                headers: Some(headers),
                body: Some(body),
            },
        )
    }
}

/// A `variables` string that is empty or whitespace-only is treated exactly
/// like an absent one.  Two payloads that agree on everything else, one
/// without variables and one with a blank variables string, resolve to the
/// same effective variables, the same acceptance, and the same method — the
/// three quantities the contract of `prepare_graphql_request` describes the
/// prepared request by — so both payloads yield the same request, with the
/// envelope carrying `variables: null`.
pub proof fn lemma_blank_variables_like_absent(
    p1: SendGraphQLRequestPayload,
    p2: SendGraphQLRequestPayload,
)
    requires
        p1.endpoint == p2.endpoint,
        p1.headers == p2.headers,
        p1.method == p2.method,
        p1.query == p2.query,
        p1.variables is None,
        p2.variables matches Some(v) && blank_text(v@),
    ensures
        payload_variables(p1) == payload_variables(p2),
        payload_variables(p2) is None,
        payload_variables_ok(p1) == payload_variables_ok(p2),
        payload_method(p1) == payload_method(p2),
{
}

} // verus!
