//! Header values.

use vstd::prelude::*;
use vstd::utf8::{char_is_scalar, encode_scalar, encode_utf8};

verus! {

#[verifier::external_type_specification]
#[verifier::external_body]
pub struct ExHeaderValue(http::HeaderValue);

#[verifier::external_type_specification]
#[verifier::external_body]
pub struct ExInvalidHeaderValue(http::header::InvalidHeaderValue);

/// The bytes of a header value.
pub uninterp spec fn header_bytes(value: http::HeaderValue) -> Seq<u8>;

/// Whether a header value can hold this byte: everything but control characters,
/// of which it can hold the tab.
pub open spec fn is_header_byte(byte: u8) -> bool {
    byte == 9 || (byte >= 32 && byte != 127)
}

/// Whether a header value can hold these bytes.
pub open spec fn is_header_text(bytes: Seq<u8>) -> bool {
    forall|i: int| 0 <= i < bytes.len() ==> is_header_byte(#[trigger] bytes[i])
}

/// Calls `<http::HeaderValue as TryFrom<String>>::try_from`.
///
/// Taken on trust: it succeeds exactly where every byte of the text is one that a
/// header value can hold, and the value then holds those bytes.
#[verifier::external_body]
fn header_value(text: String) -> (value: Result<
    http::HeaderValue,
    http::header::InvalidHeaderValue,
>)
    ensures
        value is Ok <==> is_header_text(encode_utf8(text@)),
        value matches Ok(value) ==> header_bytes(value) == encode_utf8(text@),
{
    http::HeaderValue::try_from(text)
}

/// Calls `http::HeaderValue::from_static`, which panics on a character that is
/// not visible ASCII.
///
/// Taken on trust: the value holds the bytes of the text.
#[verifier::external_body]
pub(crate) fn fixed_header_value(text: &'static str) -> (value: http::HeaderValue)
    requires
        forall|i: int| 0 <= i < text@.len() ==> ' ' <= #[trigger] text@[i] <= '~',
    ensures
        header_bytes(value) == encode_utf8(text@),
{
    http::HeaderValue::from_static(text)
}

/// Constructs an `Authorization: Bearer ...` header value.
pub fn bearer(token: &str) -> (value: Result<http::HeaderValue, http::header::InvalidHeaderValue>)
    ensures
        value is Ok <==> is_header_text(encode_utf8("Bearer "@ + token@)),
        value matches Ok(value) ==> header_bytes(value) == encode_utf8("Bearer "@ + token@),
{
    let mut text = "Bearer ".to_owned();
    text.append(token);
    header_value(text)
}

/// Whether a header value can hold this character: a tab, or anything that is no
/// ASCII control character.
pub open spec fn is_header_char(c: char) -> bool {
    c as u32 == 9 || (c as u32 >= 32 && c as u32 != 127)
}

/// Beyond ASCII the encoding of a character consists of bytes that a header value
/// can hold; in ASCII it is the one byte of the character.
proof fn lemma_scalar_bytes(scalar: u32)
    ensures
        scalar < 128 ==> encode_scalar(scalar) == seq![scalar as u8],
        scalar >= 128 ==> is_header_text(encode_scalar(scalar)),
{
    assert(scalar < 128 ==> (scalar & 0x7F) as u8 == scalar as u8) by (bit_vector);
    assert(0xC0 | ((scalar >> 6) & 0x1F) as u8 >= 128u8) by (bit_vector);
    assert(0xE0 | ((scalar >> 12) & 0x0F) as u8 >= 128u8) by (bit_vector);
    assert(0xF0 | ((scalar >> 18) & 0x7) as u8 >= 128u8) by (bit_vector);
    assert(0x80 | (scalar & 0x3F) as u8 >= 128u8) by (bit_vector);
    assert(0x80 | ((scalar >> 6) & 0x3F) as u8 >= 128u8) by (bit_vector);
    assert(0x80 | ((scalar >> 12) & 0x3F) as u8 >= 128u8) by (bit_vector);
}

/// A header value can hold a text exactly where it can hold each character of it.
proof fn lemma_header_text(text: Seq<char>)
    ensures
        is_header_text(encode_utf8(text)) <==> (forall|i: int|
            0 <= i < text.len() ==> is_header_char(#[trigger] text[i])),
    decreases text.len(),
{
    if text.len() > 0 {
        let first = encode_scalar(text[0] as u32);
        let rest = text.drop_first();
        lemma_scalar_bytes(text[0] as u32);
        lemma_header_text(rest);
        let bytes = encode_utf8(text);
        assert(bytes == first + encode_utf8(rest));
        assert(is_header_text(first) <==> is_header_char(text[0])) by {
            let scalar = text[0] as u32;
            char_is_scalar(text[0]);
            if scalar < 128 {
                assert(first =~= seq![scalar as u8]);
                assert(first[0] as u32 == scalar);
                assert(is_header_byte(first[0]) == is_header_char(text[0]));
            }
        }
        assert(is_header_text(bytes) <==> is_header_text(first) && is_header_text(
            encode_utf8(rest),
        )) by {
            assert forall|i: int| 0 <= i < first.len() implies bytes[i] == first[i] by {}
            assert forall|i: int| 0 <= i < encode_utf8(rest).len() implies bytes[i + first.len()]
                == encode_utf8(rest)[i] by {}
            if is_header_text(bytes) {
                assert forall|i: int| 0 <= i < first.len() implies is_header_byte(
                    #[trigger] first[i],
                ) by {
                    assert(is_header_byte(bytes[i]));
                }
                assert forall|i: int| 0 <= i < encode_utf8(rest).len() implies is_header_byte(
                    #[trigger] encode_utf8(rest)[i],
                ) by {
                    assert(is_header_byte(bytes[i + first.len()]));
                }
            }
        }
        assert(forall|i: int| 0 <= i < rest.len() ==> rest[i] == text[i + 1]);
        assert((forall|i: int| 0 <= i < text.len() ==> is_header_char(#[trigger] text[i])) <==> (
        is_header_char(text[0]) && forall|i: int|
            0 <= i < rest.len() ==> is_header_char(#[trigger] rest[i]))) by {
            if is_header_char(text[0]) && forall|i: int|
                0 <= i < rest.len() ==> is_header_char(#[trigger] rest[i]) {
                assert forall|i: int| 0 <= i < text.len() implies is_header_char(
                    #[trigger] text[i],
                ) by {
                    if i > 0 {
                        assert(rest[i - 1] == text[i]);
                    }
                }
            }
        }
    }
}

/// A bearer token is accepted exactly where it holds no control character other
/// than the tab.
pub proof fn bearer_refuses_control_characters(token: Seq<char>)
    ensures
        is_header_text(encode_utf8("Bearer "@ + token)) <==> (forall|i: int|
            0 <= i < token.len() ==> is_header_char(#[trigger] token[i])),
{
    let text = "Bearer "@ + token;
    reveal_strlit("Bearer ");
    lemma_header_text(text);
    assert forall|i: int| 0 <= i < 7 implies is_header_char(#[trigger] text[i]) by {}
    if forall|i: int| 0 <= i < text.len() ==> is_header_char(#[trigger] text[i]) {
        assert forall|i: int| 0 <= i < token.len() implies is_header_char(#[trigger] token[i]) by {
            assert(text[i + 7] == token[i]);
        }
    }
    if forall|i: int| 0 <= i < token.len() ==> is_header_char(#[trigger] token[i]) {
        assert forall|i: int| 0 <= i < text.len() implies is_header_char(#[trigger] text[i]) by {
            if i >= 7 {
                assert(text[i] == token[i - 7]);
            }
        }
    }
}

/// A bearer header is the scheme and the token, byte for byte. It is made exactly
/// where no character of the token is an ASCII control character other than the tab.
pub proof fn bearer_headers_carry_their_token(
    token: &str,
    value: Result<http::HeaderValue, http::header::InvalidHeaderValue>,
)
    requires
        call_ensures(bearer, (token,), value),
    ensures
        value is Ok <==> (forall|i: int|
            0 <= i < token@.len() ==> (#[trigger] token@[i]) as u32 == 9 || (token@[i] as u32 >= 32
                && token@[i] as u32 != 127)),
        value matches Ok(value) ==> header_bytes(value) == encode_utf8("Bearer "@ + token@),
{
    bearer_refuses_control_characters(token@);
    if forall|i: int|
        0 <= i < token@.len() ==> (#[trigger] token@[i]) as u32 == 9 || (token@[i] as u32 >= 32
            && token@[i] as u32 != 127) {
        assert forall|i: int| 0 <= i < token@.len() implies is_header_char(#[trigger] token@[i]) by {
        }
    }
    if forall|i: int| 0 <= i < token@.len() ==> is_header_char(#[trigger] token@[i]) {
        assert forall|i: int| 0 <= i < token@.len() implies (#[trigger] token@[i]) as u32 == 9 || (
        token@[i] as u32 >= 32 && token@[i] as u32 != 127) by {
            assert(is_header_char(token@[i]));
        }
    }
}

} // verus!
