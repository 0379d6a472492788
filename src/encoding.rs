//! Percent-encoding of queue entry names, through the urlencoding library.
use vstd::prelude::*;
use vstd::utf8::*;

verus! {

/// Bytes that percent-encoding leaves as they are: ASCII letters, digits and `-._~`.
pub open spec fn unreserved(x: u8) -> bool {
    ||| (48 <= x <= 57)
    ||| (65 <= x <= 90)
    ||| (97 <= x <= 122)
    ||| x == 45
    ||| x == 46
    ||| x == 95
    ||| x == 126
}

/// The upper-case hexadecimal digit of a value below 16, as an ASCII byte.
pub open spec fn hex_digit(d: u8) -> u8 {
    if d < 10 {
        (48 + d) as u8
    } else {
        (55 + d) as u8
    }
}

/// One byte, escaped as `%XY` unless it is unreserved.
pub open spec fn escape_byte(x: u8) -> Seq<u8> {
    if unreserved(x) {
        seq![x]
    } else {
        seq![37u8, hex_digit(x / 16), hex_digit(x % 16)]
    }
}

/// Percent-encoding of a byte string.
pub open spec fn percent_encode(b: Seq<u8>) -> Seq<u8>
    decreases b.len(),
{
    if b.len() == 0 {
        seq![]
    } else {
        escape_byte(b[0]) + percent_encode(b.drop_first())
    }
}

/// The text of a string of ASCII bytes.
pub open spec fn ascii_text(b: Seq<u8>) -> Seq<char> {
    b.map_values(|x: u8| x as char)
}

/// Whether an ASCII byte is a hexadecimal digit, in either case.
pub open spec fn is_hex(c: u8) -> bool {
    ||| (48 <= c <= 57)
    ||| (65 <= c <= 70)
    ||| (97 <= c <= 102)
}

pub open spec fn hex_value(c: u8) -> u8 {
    if c <= 57 {
        (c - 48) as u8
    } else if c <= 70 {
        (c - 55) as u8
    } else {
        (c - 87) as u8
    }
}

/// Percent-decoding of a byte string: each `%` followed by two hexadecimal
/// digits becomes the byte they spell; any other `%` stays as it is.
pub open spec fn percent_decode(b: Seq<u8>) -> Seq<u8>
    decreases b.len(),
{
    if b.len() == 0 {
        seq![]
    } else if b[0] != 37 {
        seq![b[0]] + percent_decode(b.drop_first())
    } else if b.len() < 3 {
        b
    } else if is_hex(b[1]) && is_hex(b[2]) {
        seq![(hex_value(b[1]) * 16 + hex_value(b[2])) as u8] + percent_decode(b.skip(3))
    } else if is_hex(b[1]) {
        seq![37u8, b[1]] + percent_decode(b.skip(2))
    } else {
        seq![37u8] + percent_decode(b.drop_first())
    }
}

/// Relies on urlencoding::encode, which percent-encodes the UTF-8 bytes of
/// its argument, leaving ASCII letters, digits and `-._~` as they are.
#[verifier::external_body]
pub(crate) fn url_encode(s: &str) -> (r: String)
    ensures
        r@ == ascii_text(percent_encode(encode_utf8(s@))),
{
    urlencoding::encode(s).into_owned()
}

/// Relies on urlencoding::decode, which percent-decodes the UTF-8 bytes of
/// its argument and fails when the decoded bytes are not valid UTF-8.
#[verifier::external_body]
pub(crate) fn url_decode(s: &str) -> (r: Option<String>)
    ensures
        r is Some <==> valid_utf8(percent_decode(encode_utf8(s@))),
        r matches Some(t) ==> t@ == decode_utf8(percent_decode(encode_utf8(s@))),
{
    urlencoding::decode(s).ok().map(|t| t.into_owned())
}

proof fn lemma_escape_byte(x: u8)
    ensures
        forall|i: int| 0 <= i < escape_byte(x).len() ==> #[trigger] escape_byte(x)[i] < 128,
{
}

proof fn lemma_decode_encode_bytes(b: Seq<u8>)
    ensures
        percent_decode(percent_encode(b)) == b,
        forall|i: int|
            0 <= i < percent_encode(b).len() ==> #[trigger] percent_encode(b)[i] < 128,
    decreases b.len(),
{
    if b.len() > 0 {
        let x = b[0];
        let rest = b.drop_first();
        let e = escape_byte(x);
        let t = percent_encode(rest);
        let s = e + t;
        lemma_escape_byte(x);
        lemma_decode_encode_bytes(rest);
        assert(percent_encode(b) == s);
        if unreserved(x) {
            assert(s[0] == x && x != 37);
            assert(s.drop_first() =~= t);
        } else {
            let hi = x / 16;
            let lo = x % 16;
            assert(is_hex(hex_digit(hi)) && hex_value(hex_digit(hi)) == hi);
            assert(is_hex(hex_digit(lo)) && hex_value(hex_digit(lo)) == lo);
            assert(hi * 16 + lo == x);
            assert(s[0] == 37 && s[1] == hex_digit(hi) && s[2] == hex_digit(lo));
            assert(s.skip(3) =~= t);
        }
        assert(seq![x] + rest =~= b);
        assert forall|i: int| 0 <= i < s.len() implies #[trigger] s[i] < 128 by {
            if i >= e.len() {
                assert(s[i] == t[i - e.len()]);
            }
        }
    }
}

/// Decoding undoes encoding: the text that `url_decode` gives back for the
/// result of `url_encode` on `s` is `s`.
pub proof fn lemma_decode_encode(s: Seq<char>)
    ensures
        valid_utf8(percent_decode(encode_utf8(ascii_text(percent_encode(encode_utf8(s)))))),
        decode_utf8(percent_decode(encode_utf8(ascii_text(percent_encode(encode_utf8(s)))))) == s,
{
    let p = percent_encode(encode_utf8(s));
    let e = ascii_text(p);
    lemma_decode_encode_bytes(encode_utf8(s));
    assert forall|i: int| 0 <= i < e.len() implies '\0' <= #[trigger] e[i] <= '\u{7f}' by {
        assert(p[i] < 128);
    }
    assert(is_ascii_chars(e));
    is_ascii_chars_encode_utf8(e);
    assert forall|i: int| 0 <= i < p.len() implies #[trigger] encode_utf8(e)[i] == p[i] by {
        assert(e[i] as u8 == encode_utf8(e)[i]);
    }
    assert(encode_utf8(e) =~= p);
    encode_utf8_valid_utf8(s);
    encode_utf8_decode_utf8(s);
}

} // verus!
