//! The `application/x-www-form-urlencoded` byte serializer, used to encode
//! the query parameters of a GraphQL GET request: ASCII alphanumerics and
//! `*-._` pass through, a space becomes `+`, and every other byte of the
//! character's UTF-8 encoding becomes `%XY` with upper-case hex.

use vstd::prelude::*;

verus! {

use vstd::utf8::encode_scalar;
use crate::text::string_push;

/// The bytes the form-urlencoded serializer leaves unchanged.
pub open spec fn form_unchanged(c: char) -> bool {
    let u = c as u32;
    ||| u == 0x2a
    ||| u == 0x2d
    ||| u == 0x2e
    ||| 0x30 <= u <= 0x39
    ||| 0x41 <= u <= 0x5a
    ||| u == 0x5f
    ||| 0x61 <= u <= 0x7a
}

/// The upper-case hexadecimal digit for a value below sixteen.
pub open spec fn hex_upper(u: u32) -> char
    recommends
        u < 16,
{
    if u == 0 {
        '0'
    } else if u == 1 {
        '1'
    } else if u == 2 {
        '2'
    } else if u == 3 {
        '3'
    } else if u == 4 {
        '4'
    } else if u == 5 {
        '5'
    } else if u == 6 {
        '6'
    } else if u == 7 {
        '7'
    } else if u == 8 {
        '8'
    } else if u == 9 {
        '9'
    } else if u == 10 {
        'A'
    } else if u == 11 {
        'B'
    } else if u == 12 {
        'C'
    } else if u == 13 {
        'D'
    } else if u == 14 {
        'E'
    } else {
        'F'
    }
}

/// Percent-encoding of a byte sequence: `%XY` for each byte, in order.
pub open spec fn percent_bytes(bs: Seq<u8>) -> Seq<char>
    decreases bs.len(),
{
    if bs.len() == 0 {
        Seq::empty()
    } else {
        percent_bytes(bs.drop_last()) + seq![
            '%',
            hex_upper((bs.last() / 16) as u32),
            hex_upper((bs.last() % 16) as u32),
        ]
    }
}

/// How one character is written by the form-urlencoded serializer.
pub open spec fn form_encoded_char(c: char) -> Seq<char> {
    if form_unchanged(c) {
        seq![c]
    } else if c as u32 == 0x20 {
        seq!['+']
    } else {
        percent_bytes(encode_scalar(c as u32))
    }
}

/// How a whole text is written by the form-urlencoded serializer.
pub open spec fn form_encoded(s: Seq<char>) -> Seq<char>
    decreases s.len(),
{
    if s.len() == 0 {
        Seq::empty()
    } else {
        form_encoded(s.drop_last()) + form_encoded_char(s.last())
    }
}

/// The upper-case hexadecimal digit for a value below sixteen.
fn hex_upper_of(u: u32) -> (r: char)
    requires
        u < 16,
    ensures
        r == hex_upper(u),
{
    if u == 0 {
        '0'
    } else if u == 1 {
        '1'
    } else if u == 2 {
        '2'
    } else if u == 3 {
        '3'
    } else if u == 4 {
        '4'
    } else if u == 5 {
        '5'
    } else if u == 6 {
        '6'
    } else if u == 7 {
        '7'
    } else if u == 8 {
        '8'
    } else if u == 9 {
        '9'
    } else if u == 10 {
        'A'
    } else if u == 11 {
        'B'
    } else if u == 12 {
        'C'
    } else if u == 13 {
        'D'
    } else if u == 14 {
        'E'
    } else {
        'F'
    }
}

/// Appends the form-urlencoded serialization of `s` to `out`.
pub fn form_encode_into(out: &mut String, s: &str)
    ensures
        final(out)@ == old(out)@ + form_encoded(s@),
{
    let ghost base: Seq<char> = out@;
    let n = s.unicode_len();
    for i in 0..n
        invariant
            n == s@.len(),
            out@ == base + form_encoded(s@.take(i as int)),
    {
        let c = s.get_char(i);
        let u = c as u32;
        proof {
            assert(s@.take(i + 1).drop_last() =~= s@.take(i as int));
            assert(s@.take(i + 1).last() == s@[i as int]);
        }
        let unchanged = u == 0x2a || u == 0x2d || u == 0x2e || (0x30 <= u && u <= 0x39) || (0x41
            <= u && u <= 0x5a) || u == 0x5f || (0x61 <= u && u <= 0x7a);
        if unchanged {
            string_push(out, c);
        } else if u == 0x20 {
            string_push(out, '+');
        } else {
            let one = s.substring_char(i, i + 1);
            let bs = one.as_bytes();
            proof {
                assert(one@ =~= seq![c]);
                assert(seq![c].drop_first() =~= Seq::<char>::empty());
                assert(seq![c][0] == c);
                assert(vstd::utf8::encode_utf8(Seq::<char>::empty()) =~= Seq::<u8>::empty());
                assert(vstd::utf8::encode_utf8(seq![c]) =~= encode_scalar(c as u32));
                assert(bs@ == encode_scalar(c as u32));
            }
            let ghost mid: Seq<char> = out@;
            let m = bs.len();
            for j in 0..m
                invariant
                    m == bs@.len(),
                    bs@ == encode_scalar(c as u32),
                    out@ == mid + percent_bytes(bs@.take(j as int)),
            {
                let b = bs[j];
                proof {
                    assert(bs@.take(j + 1).drop_last() =~= bs@.take(j as int));
                    assert(bs@.take(j + 1).last() == bs@[j as int]);
                }
                string_push(out, '%');
                string_push(out, hex_upper_of((b / 16) as u32));
                string_push(out, hex_upper_of((b % 16) as u32));
                proof {
                    assert(out@ =~= mid + percent_bytes(bs@.take(j + 1)));
                }
            }
            proof {
                assert(bs@.take(m as int) =~= bs@);
            }
        }
        proof {
            assert(out@ =~= base + form_encoded(s@.take(i + 1)));
        }
    }
    proof {
        assert(s@.take(n as int) =~= s@);
    }
}

} // verus!
