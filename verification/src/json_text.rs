//! JSON plumbing for the GraphQL layer.
//!
//! Parsing and re-serializing the caller-supplied `variables` JSON is done
//! by `serde_json` behind the trusted items below; which strings it accepts,
//! and what their compact rendering is, are only named, never restated.
//! Escaping a query string for embedding in a JSON document, on the other
//! hand, is this library's own verified code, with the exact escape table
//! JSON requires: `"` and `\` get a backslash, the five named control
//! characters get their short escapes, the remaining control characters
//! become `\u00XY` with lower-case hex, and everything else passes through
//! unchanged.

use vstd::prelude::*;

verus! {

use crate::text::string_push;

#[verifier::external_type_specification]
#[verifier::external_body]
pub struct ExJsonError(serde_json::Error);

/// Whether `serde_json` parses this text as a JSON document.  The JSON
/// grammar is not restated here; this name stands for the acceptance
/// behavior of `serde_json::from_str`, which depends on the text alone.
pub uninterp spec fn json_text_accepted(s: Seq<char>) -> bool;

/// The compact rendering of the JSON document in the text: what
/// `serde_json` writes after parsing it back out.  A function of the text
/// alone; meaningful on texts that `json_text_accepted` admits.
pub uninterp spec fn json_canonical(s: Seq<char>) -> Seq<char>;

/// Relies on `serde_json::from_str::<serde_json::Value>` and on the
/// `Display` impl of `serde_json::Value`: accepts exactly the texts that
/// parse as a JSON document and returns the document rendered compactly.
/// Both steps depend on the text alone.
#[verifier::external_body]
pub(crate) fn json_canonicalize(s: &str) -> (r: Result<String, serde_json::Error>)
    ensures
        r is Ok <==> json_text_accepted(s@),
        r matches Ok(t) ==> t@ == json_canonical(s@),
{
    serde_json::from_str::<serde_json::Value>(s).map(|v| v.to_string())
}

/// Relies on the `Display` impl of `serde_json::Error`: renders the parse
/// error as a human-readable message.
#[verifier::external_body]
pub(crate) fn json_error_text(e: &serde_json::Error) -> (r: String) {
    format!("{}", e)
}

/// The lower-case hexadecimal digit for a value below sixteen.
pub open spec fn hex_lower(u: u32) -> char
    recommends
        u < 16,
{
    if u == 0 {
        '0'
    } else if u == 1 {
        '1'
    } else if u == 2 {
        '2'
    } else if u == 3 {
        '3'
    } else if u == 4 {
        '4'
    } else if u == 5 {
        '5'
    } else if u == 6 {
        '6'
    } else if u == 7 {
        '7'
    } else if u == 8 {
        '8'
    } else if u == 9 {
        '9'
    } else if u == 10 {
        'a'
    } else if u == 11 {
        'b'
    } else if u == 12 {
        'c'
    } else if u == 13 {
        'd'
    } else if u == 14 {
        'e'
    } else {
        'f'
    }
}

/// How one character is written inside a JSON string literal.
pub open spec fn json_escape_char(c: char) -> Seq<char> {
    let u = c as u32;
    if u == 0x22 {
        seq!['\\', '"']
    } else if u == 0x5c {
        seq!['\\', '\\']
    } else if u == 0x08 {
        seq!['\\', 'b']
    } else if u == 0x09 {
        seq!['\\', 't']
    } else if u == 0x0a {
        seq!['\\', 'n']
    } else if u == 0x0c {
        seq!['\\', 'f']
    } else if u == 0x0d {
        seq!['\\', 'r']
    } else if u < 0x20 {
        seq!['\\', 'u', '0', '0', hex_lower(u / 16), hex_lower(u % 16)]
    } else {
        seq![c]
    }
}

/// How a whole text is written inside a JSON string literal.
pub open spec fn json_escaped(s: Seq<char>) -> Seq<char>
    decreases s.len(),
{
    if s.len() == 0 {
        Seq::empty()
    } else {
        json_escaped(s.drop_last()) + json_escape_char(s.last())
    }
}

/// The lower-case hexadecimal digit for a value below sixteen.
fn hex_lower_of(u: u32) -> (r: char)
    requires
        u < 16,
    ensures
        r == hex_lower(u),
{
    if u == 0 {
        '0'
    } else if u == 1 {
        '1'
    } else if u == 2 {
        '2'
    } else if u == 3 {
        '3'
    } else if u == 4 {
        '4'
    } else if u == 5 {
        '5'
    } else if u == 6 {
        '6'
    } else if u == 7 {
        '7'
    } else if u == 8 {
        '8'
    } else if u == 9 {
        '9'
    } else if u == 10 {
        'a'
    } else if u == 11 {
        'b'
    } else if u == 12 {
        'c'
    } else if u == 13 {
        'd'
    } else if u == 14 {
        'e'
    } else {
        'f'
    }
}

/// Appends `s`, escaped for a JSON string literal, to `out`.
pub fn json_escape_into(out: &mut String, s: &str)
    ensures
        final(out)@ == old(out)@ + json_escaped(s@),
{
    let ghost base: Seq<char> = out@;
    let n = s.unicode_len();
    for i in 0..n
        invariant
            n == s@.len(),
            out@ == base + json_escaped(s@.take(i as int)),
    {
        let c = s.get_char(i);
        let u = c as u32;
        proof {
            assert(s@.take(i + 1).drop_last() =~= s@.take(i as int));
            assert(s@.take(i + 1).last() == s@[i as int]);
        }
        if u == 0x22 {
            string_push(out, '\\');
            string_push(out, '"');
        } else if u == 0x5c {
            string_push(out, '\\');
            string_push(out, '\\');
        } else if u == 0x08 {
            string_push(out, '\\');
            string_push(out, 'b');
        } else if u == 0x09 {
            string_push(out, '\\');
            string_push(out, 't');
        } else if u == 0x0a {
            string_push(out, '\\');
            string_push(out, 'n');
        } else if u == 0x0c {
            string_push(out, '\\');
            string_push(out, 'f');
        } else if u == 0x0d {
            string_push(out, '\\');
            string_push(out, 'r');
        } else if u < 0x20 {
            string_push(out, '\\');
            string_push(out, 'u');
            string_push(out, '0');
            string_push(out, '0');
            string_push(out, hex_lower_of(u / 16));
            string_push(out, hex_lower_of(u % 16));
        } else {
            string_push(out, c);
        }
        proof {
            assert(out@ =~= base + json_escaped(s@.take(i + 1)));
        }
    }
    proof {
        assert(s@.take(n as int) =~= s@);
    }
}

} // verus!
