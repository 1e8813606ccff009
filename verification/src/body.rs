//! Bodies that are held in memory, and the responses that carry them.

use vstd::prelude::*;
use vstd::utf8::encode_utf8;

use crate::header::{fixed_header_value, header_bytes};
use crate::normalize::HttpVersion;

verus! {

#[verifier::external_type_specification]
#[verifier::external_body]
pub struct ExBytes(bytes::Bytes);

#[verifier::external_type_specification]
#[verifier::external_body]
#[verifier::reject_recursive_types(D)]
pub struct ExFull<D>(http_body_util::Full<D>);

#[verifier::external_type_specification]
#[verifier::external_body]
#[verifier::reject_recursive_types(D)]
pub struct ExEmpty<D>(http_body_util::Empty<D>);

#[verifier::external_type_specification]
#[verifier::external_body]
#[verifier::reject_recursive_types(T)]
pub struct ExResponse<T>(http::Response<T>);

/// The bytes of a shared buffer.
pub uninterp spec fn bytes_content(bytes: bytes::Bytes) -> Seq<u8>;

/// The data that a single-frame body has still to give. Without any, it gives no
/// frame at all.
pub uninterp spec fn full_data(body: http_body_util::Full<bytes::Bytes>) -> Seq<u8>;

/// The data that an empty body has to give.
pub uninterp spec fn empty_data(body: http_body_util::Empty<bytes::Bytes>) -> Seq<u8>;

/// The data that the body of a response has still to give.
pub uninterp spec fn response_data(
    response: http::Response<http_body_util::Full<bytes::Bytes>>,
) -> Seq<u8>;

/// The status code of a response.
pub uninterp spec fn response_status(
    response: http::Response<http_body_util::Full<bytes::Bytes>>,
) -> u16;

/// The header fields of a response, by their names in lower case.
pub uninterp spec fn response_fields(
    response: http::Response<http_body_util::Full<bytes::Bytes>>,
) -> Map<Seq<char>, Seq<u8>>;

/// The HTTP version of a response.
pub uninterp spec fn response_version(
    response: http::Response<http_body_util::Full<bytes::Bytes>>,
) -> HttpVersion;

/// Whether a response carries any extension.
pub uninterp spec fn response_is_extended(
    response: http::Response<http_body_util::Full<bytes::Bytes>>,
) -> bool;

/// No header field at all.
pub open spec fn no_fields() -> Map<Seq<char>, Seq<u8>> {
    Map::empty()
}

/// Calls `http_body_util::Empty::new`.
///
/// Taken on trust: the body has no data.
#[verifier::external_body]
fn new_empty() -> (body: http_body_util::Empty<bytes::Bytes>)
    ensures
        empty_data(body) == Seq::<u8>::empty(),
{
    http_body_util::Empty::new()
}

/// Calls `http_body_util::Full::new`.
///
/// Taken on trust: the body has the data of the buffer.
#[verifier::external_body]
fn new_full(bytes: bytes::Bytes) -> (body: http_body_util::Full<bytes::Bytes>)
    ensures
        full_data(body) == bytes_content(bytes),
{
    http_body_util::Full::new(bytes)
}

/// Calls `bytes::Bytes::from_static`.
///
/// Taken on trust: the buffer holds the bytes of the slice.
#[verifier::external_body]
fn bytes_from_static(bytes: &'static [u8]) -> (shared: bytes::Bytes)
    ensures
        bytes_content(shared) == bytes@,
{
    bytes::Bytes::from_static(bytes)
}

/// Calls `<bytes::Bytes as From<Vec<u8>>>::from`.
///
/// Taken on trust: the buffer holds the bytes of the vector.
#[verifier::external_body]
pub(crate) fn bytes_from_vec(bytes: Vec<u8>) -> (shared: bytes::Bytes)
    ensures
        bytes_content(shared) == bytes@,
{
    bytes::Bytes::from(bytes)
}

/// Calls `<bytes::Bytes as From<String>>::from`.
///
/// Taken on trust: the buffer holds the UTF-8 encoding of the text.
#[verifier::external_body]
fn bytes_from_text(text: String) -> (shared: bytes::Bytes)
    ensures
        bytes_content(shared) == encode_utf8(text@),
{
    bytes::Bytes::from(text)
}

/// Calls `http::Response::new`.
///
/// Taken on trust: the response has this body, the status 200, the version
/// HTTP/1.1, no header field and no extension.
#[verifier::external_body]
fn new_response(body: http_body_util::Full<bytes::Bytes>) -> (response: http::Response<
    http_body_util::Full<bytes::Bytes>,
>)
    ensures
        response_data(response) == full_data(body),
        response_status(response) == 200,
        response_fields(response) == no_fields(),
        response_version(response) == HttpVersion::Http11,
        !response_is_extended(response),
{
    http::Response::new(body)
}

/// Calls `http::HeaderMap::insert` for `content-type` on the header fields of a
/// response.
///
/// Taken on trust: a response without any field then has this one, and is
/// otherwise as it was.
#[verifier::external_body]
fn insert_content_type(
    response: &mut http::Response<http_body_util::Full<bytes::Bytes>>,
    value: http::HeaderValue,
)
    requires
        response_fields(*old(response)) == no_fields(),
    ensures
        response_fields(*final(response)) == no_fields().insert(
            "content-type"@,
            header_bytes(value),
        ),
        response_data(*final(response)) == response_data(*old(response)),
        response_status(*final(response)) == response_status(*old(response)),
        response_version(*final(response)) == response_version(*old(response)),
        response_is_extended(*final(response)) == response_is_extended(*old(response)),
{
    response.headers_mut().insert(http::header::CONTENT_TYPE, value);
}

/// Constructs an empty body.
pub fn empty_body() -> (body: http_body_util::Empty<bytes::Bytes>)
    ensures
        empty_data(body) == Seq::<u8>::empty(),
{
    new_empty()
}

/// Short alias for [`empty_body`].
pub fn empty() -> (body: http_body_util::Empty<bytes::Bytes>)
    ensures
        empty_data(body) == Seq::<u8>::empty(),
{
    empty_body()
}

/// Constructs a single-frame body.
pub fn bytes_body(bytes: bytes::Bytes) -> (body: http_body_util::Full<bytes::Bytes>)
    ensures
        full_data(body) == bytes_content(bytes),
{
    new_full(bytes)
}

/// Short alias for [`bytes_body`].
pub fn bytes(content: bytes::Bytes) -> (body: http_body_util::Full<bytes::Bytes>)
    ensures
        full_data(body) == bytes_content(content),
{
    bytes_body(content)
}

/// Constructs a single-frame body without copying a static byte slice.
pub fn static_bytes(bytes: &'static [u8]) -> (body: http_body_util::Full<bytes::Bytes>)
    ensures
        full_data(body) == bytes@,
{
    bytes_body(bytes_from_static(bytes))
}

/// Constructs the body of a JSON text.
pub fn json_body(text: String) -> (body: http_body_util::Full<bytes::Bytes>)
    ensures
        full_data(body) == encode_utf8(text@),
{
    bytes_body(bytes_from_text(text))
}

/// Constructs a response that carries a JSON text and says so in its media type.
pub fn json_response(text: String) -> (response: http::Response<
    http_body_util::Full<bytes::Bytes>,
>)
    ensures
        response_data(response) == encode_utf8(text@),
        response_status(response) == 200,
        response_fields(response) == no_fields().insert(
            "content-type"@,
            encode_utf8("application/json"@),
        ),
        response_version(response) == HttpVersion::Http11,
        !response_is_extended(response),
{
    let mut response = new_response(json_body(text));
    proof {
        reveal_strlit("application/json");
    }
    insert_content_type(&mut response, fixed_header_value("application/json"));
    response
}

/// A JSON response is a plain success that carries the encoding of its text and says
/// that it is JSON, and nothing more. The body is the one of the text alone.
pub proof fn json_responses_carry_their_text(
    text: String,
    response: http::Response<http_body_util::Full<bytes::Bytes>>,
    body: http_body_util::Full<bytes::Bytes>,
)
    requires
        call_ensures(json_response, (text,), response),
        call_ensures(json_body, (text,), body),
    ensures
        full_data(body) == encode_utf8(text@),
        response_data(response) == full_data(body),
        response_status(response) == 200,
        response_fields(response).dom() == set!["content-type"@],
        response_fields(response)["content-type"@] == encode_utf8("application/json"@),
        response_version(response) == HttpVersion::Http11,
        !response_is_extended(response),
{
    assert(response_fields(response).dom() =~= set!["content-type"@]);
}

/// A body has the bytes that it was made of, and an empty one has none.
pub proof fn bodies_have_their_bytes(
    shared: bytes::Bytes,
    body: http_body_util::Full<bytes::Bytes>,
    alias: http_body_util::Full<bytes::Bytes>,
    fixed: &'static [u8],
    static_body: http_body_util::Full<bytes::Bytes>,
    nothing: http_body_util::Empty<bytes::Bytes>,
)
    requires
        call_ensures(bytes_body, (shared,), body),
        call_ensures(bytes, (shared,), alias),
        call_ensures(static_bytes, (fixed,), static_body),
        call_ensures(empty_body, (), nothing),
    ensures
        full_data(body) == bytes_content(shared),
        full_data(alias) == bytes_content(shared),
        full_data(static_body) == fixed@,
        empty_data(nothing).len() == 0,
{
}

} // verus!
