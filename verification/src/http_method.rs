//! The fixed set of HTTP verbs the application records in its request
//! history.  On the wire and in the database they travel as their lower-case
//! names, so parsing and rendering go through that form.

use vstd::prelude::*;

verus! {

use crate::text::str_eq;

#[derive(Debug, Clone, Copy, PartialEq, Eq, Structural)]
pub enum HttpMethod {
    GET,
    HEAD,
    POST,
    PUT,
    DELETE,
    CONNECT,
    OPTIONS,
    TRACE,
    PATCH,
}

impl HttpMethod {
    /// The lower-case name under which this verb is stored and serialized.
    pub open spec fn spec_name(self) -> Seq<char> {
        match self {
            HttpMethod::GET => "get"@,
            HttpMethod::HEAD => "head"@,
            HttpMethod::POST => "post"@,
            HttpMethod::PUT => "put"@,
            HttpMethod::DELETE => "delete"@,
            HttpMethod::CONNECT => "connect"@,
            HttpMethod::OPTIONS => "options"@,
            HttpMethod::TRACE => "trace"@,
            HttpMethod::PATCH => "patch"@,
        }
    }

    /// The verb whose lower-case name is exactly `s`, if any.
    pub open spec fn spec_parse(s: Seq<char>) -> Option<HttpMethod> {
        if s == "get"@ {
            Some(HttpMethod::GET)
        } else if s == "head"@ {
            Some(HttpMethod::HEAD)
        } else if s == "post"@ {
            Some(HttpMethod::POST)
        } else if s == "put"@ {
            Some(HttpMethod::PUT)
        } else if s == "delete"@ {
            Some(HttpMethod::DELETE)
        } else if s == "connect"@ {
            Some(HttpMethod::CONNECT)
        } else if s == "options"@ {
            Some(HttpMethod::OPTIONS)
        } else if s == "trace"@ {
            Some(HttpMethod::TRACE)
        } else if s == "patch"@ {
            Some(HttpMethod::PATCH)
        } else {
            None
        }
    }

    /// Renders the verb as its lower-case name.
    pub fn name(&self) -> (r: &'static str)
        ensures
            r@ == self.spec_name(),
    {
        match self {
            HttpMethod::GET => "get",
            HttpMethod::HEAD => "head",
            HttpMethod::POST => "post",
            HttpMethod::PUT => "put",
            HttpMethod::DELETE => "delete",
            HttpMethod::CONNECT => "connect",
            HttpMethod::OPTIONS => "options",
            HttpMethod::TRACE => "trace",
            HttpMethod::PATCH => "patch",
        }
    }

    /// Parses a lower-case verb name; any other string is rejected.
    pub fn parse(s: &str) -> (r: Option<HttpMethod>)
        ensures
            r == HttpMethod::spec_parse(s@),
    {
        if str_eq(s, "get") {
            Some(HttpMethod::GET)
        } else if str_eq(s, "head") {
            Some(HttpMethod::HEAD)
        } else if str_eq(s, "post") {
            Some(HttpMethod::POST)
        } else if str_eq(s, "put") {
            Some(HttpMethod::PUT)
        } else if str_eq(s, "delete") {
            Some(HttpMethod::DELETE)
        } else if str_eq(s, "connect") {
            Some(HttpMethod::CONNECT)
        } else if str_eq(s, "options") {
            Some(HttpMethod::OPTIONS)
        } else if str_eq(s, "trace") {
            Some(HttpMethod::TRACE)
        } else if str_eq(s, "patch") {
            Some(HttpMethod::PATCH)
        } else {
            None
        }
    }
}

/// Parsing a verb's rendered name gives back the same verb: the two
/// directions of the lower-case naming are inverses.
pub proof fn lemma_method_name_parse_round_trip(m: HttpMethod)
    ensures
        HttpMethod::spec_parse(m.spec_name()) == Some(m),
{
    reveal_strlit("get");
    reveal_strlit("head");
    reveal_strlit("post");
    reveal_strlit("put");
    reveal_strlit("delete");
    reveal_strlit("connect");
    reveal_strlit("options");
    reveal_strlit("trace");
    reveal_strlit("patch");
    assert("get"@.len() == 3 && "get"@[0] == 'g');
    assert("head"@.len() == 4 && "head"@[0] == 'h');
    assert("post"@.len() == 4 && "post"@[0] == 'p');
    assert("put"@.len() == 3 && "put"@[0] == 'p');
    assert("delete"@.len() == 6 && "delete"@[0] == 'd');
    assert("connect"@.len() == 7 && "connect"@[0] == 'c');
    assert("options"@.len() == 7 && "options"@[0] == 'o');
    assert("trace"@.len() == 5 && "trace"@[0] == 't');
    assert("patch"@.len() == 5 && "patch"@[0] == 'p');
    match m {
        HttpMethod::GET => assert(HttpMethod::spec_parse(m.spec_name()) == Some(m)),
        HttpMethod::HEAD => assert(HttpMethod::spec_parse(m.spec_name()) == Some(m)),
        HttpMethod::POST => assert(HttpMethod::spec_parse(m.spec_name()) == Some(m)),
        HttpMethod::PUT => assert(HttpMethod::spec_parse(m.spec_name()) == Some(m)),
        HttpMethod::DELETE => assert(HttpMethod::spec_parse(m.spec_name()) == Some(m)),
        HttpMethod::CONNECT => assert(HttpMethod::spec_parse(m.spec_name()) == Some(m)),
        HttpMethod::OPTIONS => assert(HttpMethod::spec_parse(m.spec_name()) == Some(m)),
        HttpMethod::TRACE => assert(HttpMethod::spec_parse(m.spec_name()) == Some(m)),
        HttpMethod::PATCH => assert(HttpMethod::spec_parse(m.spec_name()) == Some(m)),
    }
}

} // verus!
