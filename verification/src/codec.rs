//! Byte-level codecs the templating pipeline hands off to: base64 (from the
//! `base64` crate) and UTF-8 decoding (from std).
use vstd::prelude::*;
use vstd::utf8::{decode_utf8, encode_utf8, valid_utf8};

use base64::Engine;

verus! {

/// The text that `base64`'s `STANDARD_NO_PAD` engine produces for `bytes`.
pub uninterp spec fn b64_encoded(bytes: Seq<u8>) -> Seq<char>;

/// What `base64`'s `STANDARD_NO_PAD` engine decodes `text` to, or `None` when
/// it reports a `DecodeError`.
pub uninterp spec fn b64_decoded(text: Seq<u8>) -> Option<Seq<u8>>;

/// A character of the standard base64 alphabet: `A-Z`, `a-z`, `0-9`, `+`, `/`.
pub open spec fn is_b64_char(c: char) -> bool {
    ('A' <= c && c <= 'Z') || ('a' <= c && c <= 'z') || ('0' <= c && c <= '9') || c == '+' || c
        == '/'
}

/// Calls `STANDARD_NO_PAD.encode(bytes)` of the `base64` crate.
///
/// Claimed of it: the result is the named encoding of `bytes`; it is written
/// in the standard alphabet only (no padding with this engine); and it encodes
/// no other byte string (decoding it gives `bytes` back). The bound on the
/// length keeps the crate's output-size computation from overflowing, where
/// it would panic.
#[verifier::external_body]
pub(crate) fn b64_encode(bytes: &[u8]) -> (r: String)
    requires
        bytes@.len() <= usize::MAX / 2,
    ensures
        r@ == b64_encoded(bytes@),
        forall|i: int| 0 <= i < r@.len() ==> is_b64_char(#[trigger] r@[i]),
        forall|x: Seq<u8>| #[trigger] b64_encoded(x) == r@ ==> x == bytes@,
{
    base64::engine::general_purpose::STANDARD_NO_PAD.encode(bytes)
}

/// Calls `STANDARD_NO_PAD.decode(text)` of the `base64` crate, with the
/// `DecodeError` case as `None`.
///
/// Claimed of it: the result is the named decoding of `text`, and when `text`
/// is the encoding of some bytes, decoding gives those bytes back.
#[verifier::external_body]
pub(crate) fn b64_decode(text: &[u8]) -> (r: Option<Vec<u8>>)
    ensures
        r matches Some(v) ==> b64_decoded(text@) == Some(v@),
        r is None ==> b64_decoded(text@) is None,
        r is None ==> forall|b: Seq<u8>| text@ != encode_utf8(#[trigger] b64_encoded(b)),
        r matches Some(v) ==> forall|b: Seq<u8>|
            text@ == encode_utf8(#[trigger] b64_encoded(b)) ==> v@ == b,
{
    match base64::engine::general_purpose::STANDARD_NO_PAD.decode(text) {
        Ok(v) => Some(v),
        Err(_) => None,
    }
}

/// The character of the standard base64 alphabet for the 6-bit value `v`.
pub open spec fn b64_digit(v: int) -> char {
    if v < 26 {
        ('A' as int + v) as char
    } else if v < 52 {
        ('a' as int + (v - 26)) as char
    } else if v < 62 {
        ('0' as int + (v - 52)) as char
    } else if v == 62 {
        '+'
    } else {
        '/'
    }
}

/// Standard base64 with `=` padding (RFC 4648, section 4): each group of
/// three bytes as four characters; a last group of one or two bytes as two
/// or three characters and the padding.
pub open spec fn b64_padded(b: Seq<u8>) -> Seq<char>
    decreases b.len(),
{
    if b.len() == 0 {
        Seq::empty()
    } else {
        let x = b[0] as int;
        let y = if b.len() > 1 { b[1] as int } else { 0 };
        let z = if b.len() > 2 { b[2] as int } else { 0 };
        let c0 = b64_digit(x / 4);
        let c1 = b64_digit((x % 4) * 16 + y / 16);
        let c2 = b64_digit((y % 16) * 4 + z / 64);
        let c3 = b64_digit(z % 64);
        if b.len() == 1 {
            seq![c0, c1, '=', '=']
        } else if b.len() == 2 {
            seq![c0, c1, c2, '=']
        } else {
            seq![c0, c1, c2, c3] + b64_padded(b.subrange(3, b.len() as int))
        }
    }
}

/// Calls `STANDARD.encode(bytes)` of the `base64` crate. Claimed of it: the
/// result is the standard padded base64 of `bytes`. The bound on the length
/// keeps the crate's output-size computation from overflowing, where it
/// would panic.
#[verifier::external_body]
pub(crate) fn b64_encode_padded(bytes: &[u8]) -> (r: String)
    requires
        bytes@.len() <= usize::MAX / 2,
    ensures
        r@ == b64_padded(bytes@),
{
    base64::engine::general_purpose::STANDARD.encode(bytes)
}

/// `String::from_utf8`, with the error case as `None`: the bytes are kept when
/// they are valid UTF-8, and the text is what they encode.
#[verifier::external_body]
pub(crate) fn string_from_utf8(bytes: Vec<u8>) -> (r: Option<String>)
    ensures
        r is Some <==> valid_utf8(bytes@),
        r matches Some(s) ==> s@ == decode_utf8(bytes@),
{
    match String::from_utf8(bytes) {
        Ok(s) => Some(s),
        Err(_) => None,
    }
}

} // verus!
