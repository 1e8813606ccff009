//! Bounded collection of bodies.

use std::collections::VecDeque;
use std::string::FromUtf8Error;

use miniserde::Error as JsonError;
use vstd::prelude::*;
use vstd::utf8::{encode_utf8, encode_utf8_decode_utf8, encode_utf8_valid_utf8, valid_utf8};

use crate::body::bytes_content;
use crate::text::{decimal, decimal_text};

verus! {

#[verifier::external_type_specification]
#[verifier::external_body]
pub struct ExBytesMut(bytes::BytesMut);

#[verifier::external_type_specification]
#[verifier::external_body]
pub struct ExFromUtf8Error(FromUtf8Error);

#[verifier::external_type_specification]
#[verifier::external_body]
pub struct ExJsonError(JsonError);

/// The bytes of a growing buffer.
pub uninterp spec fn buffer_content(buffer: bytes::BytesMut) -> Seq<u8>;

/// The bytes that were no UTF-8.
pub uninterp spec fn refused_bytes(error: FromUtf8Error) -> Seq<u8>;

/// The text that Rust's formatting gives an invalid-UTF-8 error.
pub uninterp spec fn utf8_error_text(error: FromUtf8Error) -> Seq<char>;

/// The most that a growing buffer can be relied on to hold.
pub open spec fn buffer_limit() -> int {
    isize::MAX as int / 2
}

/// Calls `bytes::BytesMut::with_capacity`, which panics on a capacity beyond
/// `isize::MAX`.
///
/// Taken on trust: the buffer is empty.
#[verifier::external_body]
fn new_buffer(capacity: usize) -> (buffer: bytes::BytesMut)
    requires
        capacity <= isize::MAX,
    ensures
        buffer_content(buffer) == Seq::<u8>::empty(),
{
    bytes::BytesMut::with_capacity(capacity)
}

/// Calls `<bytes::BytesMut as bytes::BufMut>::put`, which panics where the buffer
/// cannot grow any more. A buffer that grows may double its capacity, and no
/// capacity is beyond `isize::MAX`.
///
/// Taken on trust: the data is added at the end.
#[verifier::external_body]
fn put(buffer: &mut bytes::BytesMut, data: bytes::Bytes)
    requires
        buffer_content(*old(buffer)).len() + bytes_content(data).len() <= buffer_limit(),
    ensures
        buffer_content(*final(buffer)) == buffer_content(*old(buffer)) + bytes_content(data),
{
    bytes::BufMut::put(buffer, data);
}

/// Calls `bytes::BytesMut::freeze`.
///
/// Taken on trust: the content stays.
#[verifier::external_body]
fn freeze(buffer: bytes::BytesMut) -> (bytes: bytes::Bytes)
    ensures
        bytes_content(bytes) == buffer_content(buffer),
{
    buffer.freeze()
}

/// Calls `bytes::Bytes::len`.
///
/// Taken on trust: it is the length of the content.
#[verifier::external_body]
fn bytes_len(bytes: &bytes::Bytes) -> (len: usize)
    ensures
        len == bytes_content(*bytes).len(),
{
    bytes.len()
}

/// Calls `<[u8]>::to_vec` on the content of a `bytes::Bytes`.
///
/// Taken on trust: the copy has the same bytes.
#[verifier::external_body]
fn bytes_to_vec(bytes: &bytes::Bytes) -> (copy: Vec<u8>)
    ensures
        copy@ == bytes_content(*bytes),
{
    bytes.to_vec()
}

/// Calls `String::from_utf8`.
///
/// Taken on trust: it succeeds exactly on valid UTF-8, and the text then has
/// those bytes as its encoding; the error keeps the bytes that were no UTF-8.
#[verifier::external_body]
fn text_from_utf8(bytes: Vec<u8>) -> (text: Result<String, FromUtf8Error>)
    ensures
        text is Ok <==> valid_utf8(bytes@),
        text matches Ok(text) ==> encode_utf8(text@) == bytes@,
        text matches Err(error) ==> refused_bytes(error) == bytes@,
{
    String::from_utf8(bytes)
}

/// Calls `<FromUtf8Error as std::fmt::Display>::fmt` through `format!`.
///
/// Taken on trust: what comes out is a function of the error.
#[verifier::external_body]
fn describe_utf8_error(error: &FromUtf8Error) -> (text: String)
    ensures
        text@ == utf8_error_text(*error),
{
    format!("{error}")
}

/// Calls `<miniserde::Error as std::fmt::Display>::fmt` through `format!`.
///
/// Taken on trust: it says `miniserde error`.
#[verifier::external_body]
fn describe_json_error(error: &JsonError) -> (text: String)
    ensures
        text@ == "miniserde error"@,
{
    format!("{error}")
}

/// The value `miniserde::Error`, which carries no information.
#[verifier::external_body]
fn json_error() -> JsonError {
    miniserde::Error
}

/// The structured error of a collection that exceeds its cap.
#[derive(Clone, Copy, Debug, PartialEq, Eq, Structural)]
pub struct BodyLimitError {
    limit: usize,
    received: usize,
}

/// Descriptive alias for the structured body-size limit error.
pub type BodyLimitExceeded = BodyLimitError;

/// What a [`BodyLimitError`] stands for.
pub ghost struct Excess {
    /// The configured maximum body size.
    pub limit: usize,
    /// The number of bytes observed when the limit was crossed.
    pub received: usize,
}

impl View for BodyLimitError {
    type V = Excess;

    closed spec fn view(&self) -> Excess {
        Excess { limit: self.limit, received: self.received }
    }
}

impl Excess {
    /// The sentence that describes this excess to a person.
    pub open spec fn text(self) -> Seq<char> {
        "body exceeded limit of "@ + decimal(self.limit as nat) + " bytes (received at least "@
            + decimal(self.received as nat) + " bytes)"@
    }
}

impl BodyLimitError {
    /// The configured maximum body size.
    pub fn limit(self) -> (limit: usize)
        ensures
            limit == self@.limit,
    {
        self.limit
    }

    /// The number of bytes observed when the limit was crossed.
    pub fn received(self) -> (received: usize)
        ensures
            received == self@.received,
    {
        self.received
    }

    /// The sentence that describes this error to a person.
    pub fn message(&self) -> (text: String)
        ensures
            text@ == self@.text(),
    {
        let mut text = "body exceeded limit of ".to_owned();
        text.append(decimal_text(self.limit as u128).as_str());
        text.append(" bytes (received at least ");
        text.append(decimal_text(self.received as u128).as_str());
        text.append(" bytes)");
        text
    }
}

/// The reason a bounded body collection failed.
#[derive(Debug)]
pub enum BodyCollectionError<E> {
    /// The body itself failed while being read.
    Body(E),
    /// The body exceeded the configured limit.
    LimitExceeded(BodyLimitError),
    /// The collected bytes were not valid UTF-8.
    InvalidUtf8(FromUtf8Error),
    /// JSON deserialization failed after the body was collected.
    Json(JsonError),
}

/// Descriptive alias for a bounded collection error.
pub type CollectError<E> = BodyCollectionError<E>;

impl<E> BodyCollectionError<E> {
    /// Returns `true` if the collection stopped because of its configured cap.
    pub fn is_limit_exceeded(&self) -> (exceeded: bool)
        ensures
            exceeded == (self is LimitExceeded),
    {
        match self {
            BodyCollectionError::LimitExceeded(_) => true,
            _ => false,
        }
    }

    /// Alias for [`is_limit_exceeded`](Self::is_limit_exceeded).
    pub fn is_body_limit(&self) -> (exceeded: bool)
        ensures
            exceeded == (self is LimitExceeded),
    {
        self.is_limit_exceeded()
    }

    /// Borrows the structured limit error, if present.
    pub fn limit_error(&self) -> (error: Option<&BodyLimitError>)
        ensures
            error == (match *self {
                BodyCollectionError::LimitExceeded(error) => Some(&error),
                _ => None,
            }),
    {
        match self {
            BodyCollectionError::LimitExceeded(error) => Some(error),
            _ => None,
        }
    }

    /// The sentence that describes this error to a person, given how to describe
    /// an error of the body.
    pub fn message<D: Fn(&E) -> String>(&self, describe: D) -> (text: String)
        requires
            forall|error: &E| call_requires(describe, (error,)),
        ensures
            match *self {
                BodyCollectionError::Body(error) => exists|described: String|
                    call_ensures(describe, (&error,), described) && text@ == "body error: "@
                        + #[trigger] described@,
                BodyCollectionError::LimitExceeded(error) => text@ == error@.text(),
                BodyCollectionError::InvalidUtf8(error) => text@ == "body was not valid UTF-8: "@
                    + utf8_error_text(error),
                BodyCollectionError::Json(_) => text@ == "invalid JSON body: "@
                    + "miniserde error"@,
            },
    {
        match self {
            BodyCollectionError::Body(error) => {
                let described = describe(error);
                let mut text = "body error: ".to_owned();
                text.append(described.as_str());
                text
            },
            BodyCollectionError::LimitExceeded(error) => error.message(),
            BodyCollectionError::InvalidUtf8(error) => {
                let mut text = "body was not valid UTF-8: ".to_owned();
                text.append(describe_utf8_error(error).as_str());
                text
            },
            BodyCollectionError::Json(error) => {
                let mut text = "invalid JSON body: ".to_owned();
                text.append(describe_json_error(error).as_str());
                text
            },
        }
    }
}

/// The capacity that a collection starts with: what the body announces as its
/// largest size, as far as the limit allows.
pub open spec fn initial_capacity(upper: Option<u64>, limit: usize) -> int {
    match upper {
        Some(upper) => if upper > usize::MAX {
            0
        } else if upper <= limit {
            upper as int
        } else {
            limit as int
        },
        None => 0,
    }
}

/// A body that is being collected under a limit.
#[derive(Debug)]
pub struct Collector {
    output: bytes::BytesMut,
    limit: usize,
    received: usize,
}

/// What a [`Collector`] stands for.
pub ghost struct Collection {
    /// What has been collected.
    pub content: Seq<u8>,
    pub limit: usize,
    /// How many bytes have been counted.
    pub received: nat,
}

impl View for Collector {
    type V = Collection;

    closed spec fn view(&self) -> Collection {
        Collection {
            content: buffer_content(self.output),
            limit: self.limit,
            received: self.received as nat,
        }
    }
}

/// The sum of two sizes, as far as it can be counted.
pub open spec fn counted(a: int, b: int) -> int {
    if a + b <= usize::MAX {
        a + b
    } else {
        usize::MAX as int
    }
}

impl Collection {
    /// A collection of which nothing has come yet.
    pub open spec fn begun(limit: usize) -> Collection {
        Collection { content: Seq::empty(), limit, received: 0 }
    }

    /// The collection with one more data frame.
    pub open spec fn with_data(self, data: Seq<u8>) -> Collection {
        Collection {
            content: self.content + data,
            received: self.received + data.len(),
            ..self
        }
    }

    /// What was collected was counted, and is no more than the limit allows.
    pub open spec fn wf(self) -> bool {
        &&& self.received == self.content.len()
        &&& self.received <= self.limit
    }

    /// Whether a frame of this many bytes is beyond the limit.
    pub open spec fn exceeded_by(self, len: nat) -> bool {
        counted(self.received as int, len as int) > self.limit
    }
}

impl Collector {
    #[verifier::type_invariant]
    spec fn counts_what_it_holds(self) -> bool {
        &&& self.received == buffer_content(self.output).len()
        &&& self.received <= self.limit
    }

    /// Starts a collection of at most `limit` bytes, of a body that announces at
    /// most `upper` bytes, where it announces anything.
    pub fn new(upper: Option<u64>, limit: usize) -> (collector: Self)
        requires
            initial_capacity(upper, limit) <= isize::MAX,
        ensures
            collector@ == Collection::begun(limit),
            collector@.wf(),
    {
        let capacity: usize = match upper {
            Some(upper) => {
                if upper > usize::MAX as u64 {
                    0
                } else if upper as usize <= limit {
                    upper as usize
                } else {
                    limit
                }
            },
            None => 0,
        };
        Collector { output: new_buffer(capacity), limit, received: 0 }
    }

    /// Tells whether a data frame of `len` bytes is within the limit, before
    /// anything of it is read.
    pub fn permits(&self, len: usize) -> (verdict: Result<(), BodyLimitError>)
        ensures
            if self@.exceeded_by(len as nat) {
                verdict matches Err(error) && error@ == (Excess {
                    limit: self@.limit,
                    received: counted(self@.received as int, len as int) as usize,
                })
            } else {
                verdict is Ok
            },
    {
        let next: usize = self.received.saturating_add(len);
        if next > self.limit {
            Err(BodyLimitError { limit: self.limit, received: next })
        } else {
            Ok(())
        }
    }

    /// Adds a data frame. A frame that is beyond the limit is refused before
    /// anything of it is kept.
    pub fn data(self, data: bytes::Bytes) -> (next: Result<Self, BodyLimitError>)
        requires
            self@.content.len() + bytes_content(data).len() <= buffer_limit()
                || self@.exceeded_by(bytes_content(data).len()),
        ensures
            if self@.exceeded_by(bytes_content(data).len()) {
                next matches Err(error) && error@ == (Excess {
                    limit: self@.limit,
                    received: counted(
                        self@.received as int,
                        bytes_content(data).len() as int,
                    ) as usize,
                })
            } else {
                next matches Ok(collector) && collector@ == self@.with_data(
                    bytes_content(data),
                ) && collector@.wf()
            },
    {
        proof {
            use_type_invariant(&self);
        }
        let len: usize = bytes_len(&data);
        if let Err(error) = self.permits(len) {
            return Err(error);
        }
        let mut output = self.output;
        put(&mut output, data);
        Ok(Collector { output, limit: self.limit, received: self.received + len })
    }

    /// What has been collected.
    pub fn finish(self) -> (bytes: bytes::Bytes)
        ensures
            bytes_content(bytes) == self@.content,
            bytes_content(bytes).len() <= self@.limit,
    {
        proof {
            use_type_invariant(&self);
        }
        freeze(self.output)
    }
}

/// A frame of a body, or its failure.
#[derive(Debug)]
pub enum BodyFrame<E> {
    Data(bytes::Bytes),
    Trailers,
    Failed(E),
}

/// What a collection comes to.
pub ghost enum Collected<E> {
    Content(Seq<u8>),
    Body(E),
    LimitExceeded(Excess),
}

/// What it comes to when `frames` follow what has been collected. Trailers are
/// passed over; the first failure, or the first frame beyond the limit, ends it.
pub open spec fn collected<E>(so_far: Collection, frames: Seq<BodyFrame<E>>) -> Collected<E>
    decreases frames.len(),
{
    if frames.len() == 0 {
        Collected::Content(so_far.content)
    } else {
        let rest = frames.drop_first();
        match frames[0] {
            BodyFrame::Trailers => collected(so_far, rest),
            BodyFrame::Failed(error) => Collected::Body(error),
            BodyFrame::Data(data) => if so_far.exceeded_by(bytes_content(data).len()) {
                Collected::LimitExceeded(
                    Excess {
                        limit: so_far.limit,
                        received: counted(
                            so_far.received as int,
                            bytes_content(data).len() as int,
                        ) as usize,
                    },
                )
            } else {
                collected(so_far.with_data(bytes_content(data)), rest)
            },
        }
    }
}

/// The number of data bytes of a list of frames.
pub open spec fn data_len<E>(frames: Seq<BodyFrame<E>>) -> nat
    decreases frames.len(),
{
    if frames.len() == 0 {
        0
    } else {
        data_len(frames.drop_first()) + frame_data(frames[0]).len()
    }
}

/// The data of one frame.
pub open spec fn frame_data<E>(frame: BodyFrame<E>) -> Seq<u8> {
    match frame {
        BodyFrame::Data(data) => bytes_content(data),
        BodyFrame::Trailers => Seq::empty(),
        BodyFrame::Failed(_) => Seq::empty(),
    }
}

/// The data of all frames, in order.
pub open spec fn all_data<E>(frames: Seq<BodyFrame<E>>) -> Seq<u8>
    decreases frames.len(),
{
    if frames.len() == 0 {
        Seq::empty()
    } else {
        frame_data(frames[0]) + all_data(frames.drop_first())
    }
}

/// Collects the frames of a body under a limit, as they come one after another.
/// Trailers are consumed and discarded.
pub fn collect_bytes_limited<E>(
    frames: VecDeque<BodyFrame<E>>,
    upper: Option<u64>,
    limit: usize,
) -> (bytes: Result<bytes::Bytes, BodyCollectionError<E>>)
    requires
        initial_capacity(upper, limit) <= isize::MAX,
        data_len(frames@) <= buffer_limit(),
    ensures
        match collected(Collection::begun(limit), frames@) {
            Collected::Content(content) => bytes matches Ok(bytes) && bytes_content(bytes)
                == content,
            Collected::Body(error) => bytes == Err::<bytes::Bytes, _>(
                BodyCollectionError::Body(error),
            ),
            Collected::LimitExceeded(excess) => bytes matches Err(
                BodyCollectionError::LimitExceeded(error),
            ) && error@ == excess,
        },
{
    let mut collector = Collector::new(upper, limit);
    let mut pending = frames;
    loop
        invariant
            collector@.wf(),
            collected(collector@, pending@) == collected(Collection::begun(limit), frames@),
            collector@.content.len() + data_len(pending@) <= buffer_limit(),
        decreases pending@.len(),
    {
        let ghost before = pending@;
        match pending.pop_front() {
            Some(frame) => {
                assert(pending@ =~= before.drop_first());
                match frame {
                    BodyFrame::Data(data) => match collector.data(data) {
                        Ok(next) => {
                            collector = next;
                        },
                        Err(error) => {
                            return Err(BodyCollectionError::LimitExceeded(error));
                        },
                    },
                    BodyFrame::Trailers => {},
                    BodyFrame::Failed(error) => {
                        return Err(BodyCollectionError::Body(error));
                    },
                }
            },
            None => {
                return Ok(collector.finish());
            },
        }
    }
}

/// Decodes a collected body as text.
pub fn decode_text<E>(bytes: &bytes::Bytes) -> (text: Result<String, BodyCollectionError<E>>)
    ensures
        if valid_utf8(bytes_content(*bytes)) {
            text matches Ok(text) && encode_utf8(text@) == bytes_content(*bytes)
        } else {
            text matches Err(BodyCollectionError::InvalidUtf8(error)) && refused_bytes(error)
                == bytes_content(*bytes)
        },
{
    match text_from_utf8(bytes_to_vec(bytes)) {
        Ok(text) => Ok(text),
        Err(error) => Err(BodyCollectionError::InvalidUtf8(error)),
    }
}

/// Decodes a collected body as the text of a JSON document. Bytes that are no
/// text are an invalid document.
pub fn decode_json_text<E>(bytes: &bytes::Bytes) -> (text: Result<String, BodyCollectionError<E>>)
    ensures
        if valid_utf8(bytes_content(*bytes)) {
            text matches Ok(text) && encode_utf8(text@) == bytes_content(*bytes)
        } else {
            text matches Err(error) && error is Json
        },
{
    match text_from_utf8(bytes_to_vec(bytes)) {
        Ok(text) => Ok(text),
        Err(_) => Err(BodyCollectionError::Json(json_error())),
    }
}

/// Takes the outcome of reading a JSON document.
pub fn json_decoded<T, E>(outcome: Result<T, JsonError>) -> (value: Result<
    T,
    BodyCollectionError<E>,
>)
    ensures
        match outcome {
            Ok(decoded) => value == Ok::<_, BodyCollectionError<E>>(decoded),
            Err(error) => value == Err::<T, _>(BodyCollectionError::<E>::Json(error)),
        },
{
    match outcome {
        Ok(decoded) => Ok(decoded),
        Err(error) => Err(BodyCollectionError::Json(error)),
    }
}

/// A text that is sent as a body and decoded again is the same text: its encoding
/// is always valid, and no other text has that encoding.
pub proof fn text_survives_a_body(sent: Seq<char>, received: Seq<char>)
    ensures
        valid_utf8(encode_utf8(sent)),
        encode_utf8(received) == encode_utf8(sent) ==> received == sent,
{
    encode_utf8_valid_utf8(sent);
    encode_utf8_decode_utf8(sent);
    encode_utf8_decode_utf8(received);
}

/// A collection that succeeds has all the data of the body, in order, and that is
/// within the limit.
pub proof fn nothing_is_lost<E>(so_far: Collection, frames: Seq<BodyFrame<E>>)
    requires
        so_far.wf(),
        so_far.content.len() + data_len(frames) <= usize::MAX,
    ensures
        collected(so_far, frames) matches Collected::Content(content) ==> content
            == so_far.content + all_data(frames) && content.len() <= so_far.limit,
    decreases frames.len(),
{
    if frames.len() == 0 {
        assert(so_far.content + all_data(frames) =~= so_far.content);
    } else {
        let rest = frames.drop_first();
        match frames[0] {
            BodyFrame::Trailers => {
                nothing_is_lost(so_far, rest);
                assert(all_data(frames) =~= all_data(rest));
            },
            BodyFrame::Failed(_) => {},
            BodyFrame::Data(data) => {
                if !so_far.exceeded_by(bytes_content(data).len()) {
                    let next = so_far.with_data(bytes_content(data));
                    nothing_is_lost(next, rest);
                    assert(so_far.content + all_data(frames) =~= next.content + all_data(rest));
                }
            },
        }
    }
}

/// A body that does not fail is collected exactly where its data is within the
/// limit, however it is cut into frames.
pub proof fn limit_alone_decides<E>(so_far: Collection, frames: Seq<BodyFrame<E>>)
    requires
        so_far.wf(),
        so_far.content.len() + data_len(frames) <= usize::MAX,
        forall|i: int| 0 <= i < frames.len() ==> !(#[trigger] frames[i] is Failed),
    ensures
        collected(so_far, frames) is Content <==> so_far.content.len() + data_len(frames)
            <= so_far.limit,
        !(collected(so_far, frames) is Body),
    decreases frames.len(),
{
    if frames.len() > 0 {
        let rest = frames.drop_first();
        assert forall|i: int| 0 <= i < rest.len() implies !(#[trigger] rest[i] is Failed) by {
            assert(rest[i] == frames[i + 1]);
        }
        match frames[0] {
            BodyFrame::Trailers => {
                limit_alone_decides(so_far, rest);
            },
            BodyFrame::Failed(_) => {},
            BodyFrame::Data(data) => {
                if !so_far.exceeded_by(bytes_content(data).len()) {
                    let next = so_far.with_data(bytes_content(data));
                    limit_alone_decides(next, rest);
                }
            },
        }
    }
}

proof fn lemma_data_len<E>(frames: Seq<BodyFrame<E>>)
    ensures
        data_len(frames) == all_data(frames).len(),
    decreases frames.len(),
{
    if frames.len() > 0 {
        lemma_data_len(frames.drop_first());
    }
}

proof fn lemma_all_data<E>(frames: Seq<BodyFrame<E>>, payload: spec_fn(BodyFrame<E>) -> Seq<u8>)
    requires
        forall|frame: BodyFrame<E>| #[trigger] payload(frame) == frame_data(frame),
    ensures
        all_data(frames) == frames.map_values(payload).flatten(),
    decreases frames.len(),
{
    if frames.len() > 0 {
        let rest = frames.drop_first();
        lemma_all_data(rest, payload);
        assert(frames.map_values(payload).drop_first() =~= rest.map_values(payload));
        assert(frames.map_values(payload).first() == frame_data(frames[0]));
    }
}

/// The first failed frame at `n` decides, where what comes before is within the
/// limit; a data frame at `n` that crosses the limit decides in the same way.
proof fn lemma_deciding_frame<E>(so_far: Collection, frames: Seq<BodyFrame<E>>, n: int)
    requires
        so_far.wf(),
        0 <= n < frames.len(),
        forall|i: int| 0 <= i < n ==> !(#[trigger] frames[i] is Failed),
        so_far.content.len() + all_data(frames.take(n)).len() <= so_far.limit,
    ensures
        frames[n] matches BodyFrame::Failed(error) ==> collected(so_far, frames)
            == Collected::<E>::Body(error),
        frames[n] is Data && so_far.limit < so_far.content.len() + all_data(
            frames.take(n + 1),
        ).len() <= usize::MAX ==> collected(so_far, frames) == Collected::<E>::LimitExceeded(
            Excess {
                limit: so_far.limit,
                received: (so_far.content.len() + all_data(frames.take(n + 1)).len()) as usize,
            },
        ),
    decreases frames.len(),
{
    let rest = frames.drop_first();
    assert(frames.take(n + 1).drop_first() =~= rest.take(n));
    assert(all_data(frames.take(n + 1)).len() == frame_data(frames[0]).len() + all_data(
        rest.take(n),
    ).len());
    if n == 0 {
        assert(all_data(rest.take(0)) =~= Seq::<u8>::empty());
    } else {
        assert(frames.take(n).drop_first() =~= rest.take(n - 1));
        assert forall|i: int| 0 <= i < n - 1 implies !(#[trigger] rest[i] is Failed) by {
            assert(rest[i] == frames[i + 1]);
        }
        assert(!(frames[0] is Failed));
        let next = match frames[0] {
            BodyFrame::Data(data) => so_far.with_data(bytes_content(data)),
            _ => so_far,
        };
        lemma_deciding_frame(next, rest, n - 1);
    }
}

proof fn lemma_content_has_no_failure<E>(so_far: Collection, frames: Seq<BodyFrame<E>>)
    requires
        collected(so_far, frames) is Content,
    ensures
        forall|i: int| 0 <= i < frames.len() ==> !(#[trigger] frames[i] is Failed),
    decreases frames.len(),
{
    if frames.len() > 0 {
        let rest = frames.drop_first();
        let next = match frames[0] {
            BodyFrame::Data(data) => so_far.with_data(bytes_content(data)),
            _ => so_far,
        };
        lemma_content_has_no_failure(next, rest);
        assert forall|i: int| 0 <= i < frames.len() implies !(#[trigger] frames[i] is Failed) by {
            if i > 0 {
                assert(rest[i - 1] == frames[i]);
            }
        }
    }
}

/// A body is collected exactly where no frame of it is a failure and all of its
/// data is within the limit. What is collected is then the data of every frame, in
/// order, and nothing else.
pub proof fn only_whole_bodies_are_collected<E>(
    frames: VecDeque<BodyFrame<E>>,
    upper: Option<u64>,
    limit: usize,
    bytes: Result<bytes::Bytes, BodyCollectionError<E>>,
)
    requires
        call_ensures(collect_bytes_limited::<E>, (frames, upper, limit), bytes),
    ensures
        ({
            let data = frames@.map_values(
                    |frame: BodyFrame<E>|
                        match frame {
                            BodyFrame::Data(data) => bytes_content(data),
                            _ => Seq::<u8>::empty(),
                        },
                ).flatten();
            data.len() <= usize::MAX ==> {
                &&& bytes is Ok <==> data.len() <= limit && forall|i: int|
                    0 <= i < frames@.len() ==> !(#[trigger] frames@[i] is Failed)
                &&& bytes matches Ok(content) ==> bytes_content(content) == data
            }
        }),
{
    let payload = |frame: BodyFrame<E>|
        match frame {
            BodyFrame::Data(data) => bytes_content(data),
            _ => Seq::<u8>::empty(),
        };
    lemma_all_data(frames@, payload);
    lemma_data_len(frames@);
    let begun = Collection::begun(limit);
    if all_data(frames@).len() <= usize::MAX {
        nothing_is_lost(begun, frames@);
        assert(begun.content + all_data(frames@) =~= all_data(frames@));
        if collected(begun, frames@) is Content {
            lemma_content_has_no_failure(begun, frames@);
        }
        if forall|i: int| 0 <= i < frames@.len() ==> !(#[trigger] frames@[i] is Failed) {
            limit_alone_decides(begun, frames@);
        }
    }
}

/// A body that fails is never handed out as a whole one: where the data before the
/// first failed frame is within the limit, the collection fails with the error of
/// that frame, wherever in the body it stands.
pub proof fn first_failure_is_reported<E>(
    frames: VecDeque<BodyFrame<E>>,
    upper: Option<u64>,
    limit: usize,
    bytes: Result<bytes::Bytes, BodyCollectionError<E>>,
    n: int,
)
    requires
        call_ensures(collect_bytes_limited::<E>, (frames, upper, limit), bytes),
        0 <= n < frames@.len(),
        frames@[n] is Failed,
        forall|i: int| 0 <= i < n ==> !(#[trigger] frames@[i] is Failed),
        frames@.take(n).map_values(
            |frame: BodyFrame<E>|
                match frame {
                    BodyFrame::Data(data) => bytes_content(data),
                    _ => Seq::<u8>::empty(),
                },
        ).flatten().len() <= limit,
    ensures
        bytes == Err::<bytes::Bytes, _>(BodyCollectionError::Body(frames@[n]->Failed_0)),
{
    let payload = |frame: BodyFrame<E>|
        match frame {
            BodyFrame::Data(data) => bytes_content(data),
            _ => Seq::<u8>::empty(),
        };
    lemma_all_data(frames@.take(n), payload);
    lemma_deciding_frame(Collection::begun(limit), frames@, n);
}

/// The data frame that crosses the limit ends a collection, and the error tells the
/// limit and all that had come by then, that frame included.
pub proof fn excess_is_reported<E>(
    frames: VecDeque<BodyFrame<E>>,
    upper: Option<u64>,
    limit: usize,
    bytes: Result<bytes::Bytes, BodyCollectionError<E>>,
    n: int,
)
    requires
        call_ensures(collect_bytes_limited::<E>, (frames, upper, limit), bytes),
        0 <= n < frames@.len(),
        forall|i: int| 0 <= i <= n ==> !(#[trigger] frames@[i] is Failed),
        frames@.take(n).map_values(
            |frame: BodyFrame<E>|
                match frame {
                    BodyFrame::Data(data) => bytes_content(data),
                    _ => Seq::<u8>::empty(),
                },
        ).flatten().len() <= limit,
        limit < frames@.take(n + 1).map_values(
            |frame: BodyFrame<E>|
                match frame {
                    BodyFrame::Data(data) => bytes_content(data),
                    _ => Seq::<u8>::empty(),
                },
        ).flatten().len() <= usize::MAX,
    ensures
        bytes matches Err(BodyCollectionError::LimitExceeded(error)) && error@.limit == limit
            && error@.received == frames@.take(n + 1).map_values(
            |frame: BodyFrame<E>|
                match frame {
                    BodyFrame::Data(data) => bytes_content(data),
                    _ => Seq::<u8>::empty(),
                },
        ).flatten().len(),
{
    let payload = |frame: BodyFrame<E>|
        match frame {
            BodyFrame::Data(data) => bytes_content(data),
            _ => Seq::<u8>::empty(),
        };
    lemma_all_data(frames@.take(n), payload);
    lemma_all_data(frames@.take(n + 1), payload);
    lemma_last_frame(frames@, n);
    lemma_deciding_frame(Collection::begun(limit), frames@, n);
}

proof fn lemma_last_frame<E>(frames: Seq<BodyFrame<E>>, n: int)
    requires
        0 <= n < frames.len(),
    ensures
        all_data(frames.take(n + 1)).len() == all_data(frames.take(n)).len() + frame_data(
            frames[n],
        ).len(),
    decreases n,
{
    let rest = frames.drop_first();
    assert(frames.take(n + 1).drop_first() =~= rest.take(n));
    if n > 0 {
        assert(frames.take(n).drop_first() =~= rest.take(n - 1));
        lemma_last_frame(rest, n - 1);
    } else {
        assert(all_data(rest.take(0)) =~= Seq::<u8>::empty());
    }
}

/// A collector counts what it is given: it takes a frame exactly where what it
/// holds and the frame together are within the limit, adds all of it at the end, and
/// says so beforehand. Of a frame that is too large it keeps nothing, and tells the
/// limit and the sum.
pub proof fn collectors_keep_to_their_limit(
    collector: Collector,
    data: bytes::Bytes,
    next: Result<Collector, BodyLimitError>,
    permitted: Result<(), BodyLimitError>,
)
    requires
        collector@.wf(),
        collector@.content.len() + bytes_content(data).len() <= usize::MAX,
        call_ensures(Collector::data, (collector, data), next),
        call_ensures(
            Collector::permits,
            (&collector, bytes_content(data).len() as usize),
            permitted,
        ),
    ensures
        permitted is Ok <==> next is Ok,
        next is Ok <==> collector@.content.len() + bytes_content(data).len() <= collector@.limit,
        next matches Ok(after) ==> {
            &&& after@.content == collector@.content + bytes_content(data)
            &&& after@.limit == collector@.limit
        },
        next matches Err(error) ==> {
            &&& error@.limit == collector@.limit
            &&& error@.received == collector@.content.len() + bytes_content(data).len()
            &&& permitted matches Err(warning) && warning@ == error@
        },
{
}

/// A text that was sent as a body is read back as it was, as text and as the text of
/// a JSON document; and bytes that are the encoding of no text are refused by both,
/// as text with the bytes themselves.
pub proof fn texts_are_read_back<E>(
    bytes: bytes::Bytes,
    sent: Seq<char>,
    text: Result<String, BodyCollectionError<E>>,
    json_text: Result<String, BodyCollectionError<E>>,
)
    requires
        call_ensures(decode_text::<E>, (&bytes,), text),
        call_ensures(decode_json_text::<E>, (&bytes,), json_text),
    ensures
        bytes_content(bytes) == encode_utf8(sent) ==> {
            &&& text matches Ok(text)
            &&& text@ == sent
            &&& json_text matches Ok(json_text)
            &&& json_text@ == sent
        },
        text is Err ==> bytes_content(bytes) != encode_utf8(sent),
        json_text is Err ==> bytes_content(bytes) != encode_utf8(sent),
        text matches Err(error) ==> error matches BodyCollectionError::InvalidUtf8(refused)
            && refused_bytes(refused) == bytes_content(bytes),
        json_text matches Err(error) ==> error is Json,
{
    encode_utf8_valid_utf8(sent);
    if let Ok(text) = text {
        text_survives_a_body(sent, text@);
    }
    if let Ok(json_text) = json_text {
        text_survives_a_body(sent, json_text@);
    }
}

/// A collector begins with nothing under the limit that it was given, and hands out all
/// that it holds.
pub proof fn collectors_begin_empty_and_hand_out_all(
    upper: Option<u64>,
    limit: usize,
    begun: Collector,
    collector: Collector,
    bytes: bytes::Bytes,
)
    requires
        call_ensures(Collector::new, (upper, limit), begun),
        call_ensures(Collector::finish, (collector,), bytes),
    ensures
        begun@.content.len() == 0,
        begun@.received == 0,
        begun@.limit == limit,
        bytes_content(bytes) == collector@.content,
{
}

/// An error of a collection says what went wrong: with the numbers where the limit was
/// exceeded, which is told apart from everything else, and with the underlying error
/// otherwise. A JSON document that was read is handed on as it is.
pub proof fn collection_errors_say_what_went_wrong<T, E, F: Fn(&E) -> String>(
    error: BodyCollectionError<E>,
    describe: F,
    text: String,
    exceeded: bool,
    limit: Option<&BodyLimitError>,
    outcome: Result<T, JsonError>,
    value: Result<T, BodyCollectionError<E>>,
)
    requires
        call_ensures(BodyCollectionError::<E>::message::<F>, (&error, describe), text),
        call_ensures(BodyCollectionError::<E>::is_limit_exceeded, (&error,), exceeded),
        call_ensures(BodyCollectionError::<E>::limit_error, (&error,), limit),
        call_ensures(json_decoded::<T, E>, (outcome,), value),
    ensures
        exceeded <==> error is LimitExceeded,
        limit is Some <==> error is LimitExceeded,
        error matches BodyCollectionError::LimitExceeded(excess) ==> {
            &&& limit == Some(&excess)
            &&& text@ == "body exceeded limit of "@ + decimal(excess@.limit as nat)
                + " bytes (received at least "@ + decimal(excess@.received as nat) + " bytes)"@
        },
        error matches BodyCollectionError::Body(cause) ==> exists|described: String|
            call_ensures(describe, (&cause,), described) && text@ == "body error: "@
                + #[trigger] described@,
        error matches BodyCollectionError::InvalidUtf8(cause) ==> text@
            == "body was not valid UTF-8: "@ + utf8_error_text(cause),
        outcome matches Ok(decoded) ==> value == Ok::<_, BodyCollectionError<E>>(decoded),
        outcome matches Err(cause) ==> value == Err::<T, _>(BodyCollectionError::<E>::Json(cause)),
{
}

} // verus!
