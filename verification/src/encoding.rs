//! Text in base64.

use base64::Engine;
use vstd::prelude::*;

verus! {

/// The character that stands for six bits in the standard alphabet of RFC 4648.
pub open spec fn sextet(value: int) -> char {
    if value < 26 {
        (65 + value) as char
    } else if value < 52 {
        (97 + (value - 26)) as char
    } else if value < 62 {
        (48 + (value - 52)) as char
    } else if value == 62 {
        '+'
    } else {
        '/'
    }
}

/// Bytes in base64 with the standard alphabet and padding: four characters for each three bytes,
/// and for what is left at the end.
pub open spec fn encoded(bytes: Seq<u8>) -> Seq<char>
    decreases bytes.len(),
{
    if bytes.len() == 0 {
        Seq::empty()
    } else if bytes.len() == 1 {
        seq![sextet(bytes[0] as int / 4), sextet((bytes[0] as int % 4) * 16), '=', '=']
    } else if bytes.len() == 2 {
        seq![
            sextet(bytes[0] as int / 4),
            sextet((bytes[0] as int % 4) * 16 + bytes[1] as int / 16),
            sextet((bytes[1] as int % 16) * 4),
            '=',
        ]
    } else {
        seq![
            sextet(bytes[0] as int / 4),
            sextet((bytes[0] as int % 4) * 16 + bytes[1] as int / 16),
            sextet((bytes[1] as int % 16) * 4 + bytes[2] as int / 64),
            sextet(bytes[2] as int % 64),
        ] + encoded(bytes.skip(3))
    }
}

/// `base64::Engine::encode` of `base64::engine::general_purpose::STANDARD`: writes the UTF-8 bytes
/// of a text in base64, with the standard alphabet and padding.
#[verifier::external_body]
pub(crate) fn base64_text(content: &str) -> (result: String)
    ensures
        result@ == encoded(vstd::utf8::encode_utf8(content@)),
{
    base64::engine::general_purpose::STANDARD.encode(content.as_bytes())
}

} // verus!
