use std::collections::{BTreeMap, VecDeque};
use std::time::Duration;

use bytes::Bytes;
use h12tiny::body::{
    bytes, bytes_body, empty, empty_body, json_body, json_response, static_bytes,
};
use h12tiny::collect::{
    collect_bytes_limited, decode_json_text, decode_text, json_decoded, BodyCollectionError,
    BodyFrame, Collector,
};
use h12tiny::header::bearer;
use h12tiny::idle::{BodyEvent, IdleStep, IdleTimeoutBody, IdleTimeoutError};
use h12tiny::reader::{ReadEvent, ReadStep, ReaderStream};
use h12tiny::replay::{replayable_value, BodyFactory, ReplayableRequest, RequestFactory};
use http_body::Body;

type Failed = BodyCollectionError<&'static str>;

fn frames(frames: Vec<BodyFrame<&'static str>>) -> VecDeque<BodyFrame<&'static str>> {
    VecDeque::from(frames)
}

fn data(bytes: &'static [u8]) -> BodyFrame<&'static str> {
    BodyFrame::Data(Bytes::from_static(bytes))
}

#[test]
fn bounded_collection_consumes_trailers_and_rejects_over_limit() {
    let bytes = collect_bytes_limited(
        frames(vec![data(b"hello"), BodyFrame::Trailers]),
        None,
        5,
    )
    .unwrap();
    assert_eq!(bytes, Bytes::from_static(b"hello"));

    let error = collect_bytes_limited(frames(vec![data(b"too long")]), Some(8), 3).unwrap_err();
    assert_eq!(error.limit_error().unwrap().limit(), 3);
    assert!(error.is_limit_exceeded());
}

#[test]
fn a_limit_error_tells_what_was_seen() {
    let error =
        collect_bytes_limited(frames(vec![data(b"four"), data(b"five!")]), None, 6).unwrap_err();
    assert!(error.is_body_limit());
    let limit = *error.limit_error().unwrap();
    assert_eq!(limit.limit(), 6);
    assert_eq!(limit.received(), 9);
    assert_eq!(
        limit.message(),
        "body exceeded limit of 6 bytes (received at least 9 bytes)"
    );
    assert_eq!(
        error.message(|cause: &&'static str| (*cause).to_owned()),
        "body exceeded limit of 6 bytes (received at least 9 bytes)"
    );
}

#[test]
fn data_is_collected_in_order_up_to_the_limit() {
    let bytes = collect_bytes_limited(
        frames(vec![data(b"ab"), data(b""), BodyFrame::Trailers, data(b"cd")]),
        Some(u64::MAX),
        4,
    )
    .unwrap();
    assert_eq!(bytes, Bytes::from_static(b"abcd"));
    assert!(collect_bytes_limited(frames(Vec::new()), None, 0)
        .unwrap()
        .is_empty());
    assert!(collect_bytes_limited(frames(vec![data(b"x")]), None, 0).is_err());
}

#[test]
fn the_first_failure_ends_a_collection() {
    let error = collect_bytes_limited(
        frames(vec![data(b"ab"), BodyFrame::Failed("reset"), data(b"cdefgh")]),
        None,
        4,
    )
    .unwrap_err();
    assert!(matches!(error, BodyCollectionError::Body("reset")));
    assert!(error.limit_error().is_none() && !error.is_limit_exceeded());
    assert_eq!(
        error.message(|cause: &&'static str| (*cause).to_owned()),
        "body error: reset"
    );
    let error = collect_bytes_limited(
        frames(vec![data(b"abcdef"), BodyFrame::Failed("reset")]),
        None,
        4,
    )
    .unwrap_err();
    assert!(error.is_limit_exceeded());
}

#[test]
fn a_collector_takes_frames_as_they_come() {
    let collector = Collector::new(Some(2), 3);
    let collector = collector.data(Bytes::from_static(b"ab")).unwrap();
    let collector = collector.data(Bytes::from_static(b"c")).unwrap();
    assert_eq!(collector.finish(), Bytes::from_static(b"abc"));
    let collector = Collector::new(None, 3);
    assert!(collector.permits(3).is_ok());
    let error = collector.permits(4).unwrap_err();
    assert_eq!((error.limit(), error.received()), (3, 4));
    let error = collector
        .data(Bytes::from_static(b"a"))
        .unwrap()
        .permits(usize::MAX)
        .unwrap_err();
    assert_eq!(error.received(), usize::MAX);
    let collector = Collector::new(None, 3);
    let error = collector.data(Bytes::from_static(b"abcd")).unwrap_err();
    assert_eq!((error.limit(), error.received()), (3, 4));
}

#[test]
fn text_is_decoded_or_refused() {
    let text: Result<String, Failed> = decode_text(&Bytes::from_static("gr\u{fc}n".as_bytes()));
    assert_eq!(text.unwrap(), "gr\u{fc}n");
    let text: Result<String, Failed> = decode_text(&Bytes::from_static(&[0xff]));
    let error = text.unwrap_err();
    assert!(matches!(
        &error,
        BodyCollectionError::InvalidUtf8(cause) if cause.as_bytes() == [0xff]
    ));
    assert_eq!(
        error.message(|cause: &&'static str| (*cause).to_owned()),
        "body was not valid UTF-8: invalid utf-8 sequence of 1 bytes from index 0"
    );
}

#[test]
fn json_body_and_bounded_decode_set_media_type() {
    let response = json_response("{\"ok\":true}".to_owned());
    assert_eq!(response.status(), 200);
    assert_eq!(
        response.headers()[http::header::CONTENT_TYPE],
        "application/json"
    );
    assert_eq!(response.headers().len(), 1);
    assert_eq!(response.version(), http::Version::HTTP_11);
    assert!(response.extensions().is_empty());
    let body = response.into_body().into_inner().unwrap();
    let collected =
        collect_bytes_limited(frames(vec![BodyFrame::Data(body)]), None, 64).unwrap();
    let text: Result<String, Failed> = decode_json_text(&collected);
    let decoded: Result<BTreeMap<String, bool>, Failed> =
        json_decoded(miniserde::json::from_str(&text.unwrap()));
    assert!(decoded.unwrap()["ok"]);
}

#[test]
fn invalid_json_is_reported_as_such() {
    let text: Result<String, Failed> = decode_json_text(&Bytes::from_static(&[0xff]));
    let error = text.unwrap_err();
    assert!(matches!(error, BodyCollectionError::Json(_)));
    assert_eq!(
        error.message(|cause: &&'static str| (*cause).to_owned()),
        "invalid JSON body: miniserde error"
    );
    let decoded: Result<bool, Failed> = json_decoded(miniserde::json::from_str("{"));
    assert!(matches!(decoded, Err(BodyCollectionError::Json(_))));
}

#[test]
fn bearer_and_replayable_request_are_explicit() {
    assert_eq!(bearer("token").unwrap(), "Bearer token");
    let (template, ()) = http::Request::get("https://example.test/data")
        .body(())
        .unwrap()
        .into_parts();
    let replayable = ReplayableRequest::new(template, || bytes_body(Bytes::from("body")));
    assert_eq!(replayable.build().1.size_hint().exact(), Some(4));
    assert_eq!(replayable.build().1.size_hint().exact(), Some(4));
    assert_eq!(replayable.request().0.uri, "https://example.test/data");
}

#[test]
fn bearer_refuses_control_characters_alone() {
    assert!(bearer("a\u{7f}b").is_err());
    assert!(bearer("a\nb").is_err());
    assert!(bearer("a\0").is_err());
    assert_eq!(bearer("a\tb").unwrap(), "Bearer a\tb");
    assert_eq!(
        bearer("\u{e9}").unwrap().as_bytes(),
        "Bearer \u{e9}".as_bytes()
    );
    assert_eq!(bearer("").unwrap(), "Bearer ");
}

#[test]
fn replayable_values_are_copied() {
    let factory = replayable_value(vec![1u8, 2]);
    assert_eq!(factory.make(), vec![1, 2]);
    assert_eq!(factory.clone().make(), vec![1, 2]);
    assert_eq!(factory.clone().clone().make(), factory.make());
    let factory = BodyFactory::new(|| 7);
    assert_eq!((factory.as_inner())(), 7);
    let request = RequestFactory::from_request(("head", "dropped"), || "fresh");
    assert_eq!(request.template(), &"head");
    assert_eq!(request.body_factory().make(), "fresh");
    assert_eq!(request.clone().request(), ("head", "fresh"));
}

#[test]
fn constructors_hold_their_bytes() {
    assert_eq!(empty_body().size_hint().exact(), Some(0));
    assert!(empty().is_end_stream());
    assert_eq!(
        bytes(Bytes::from("abc")).into_inner(),
        Some(Bytes::from_static(b"abc"))
    );
    assert_eq!(
        static_bytes(b"xyz").into_inner(),
        Some(Bytes::from_static(b"xyz"))
    );
    assert_eq!(static_bytes(b"").into_inner(), None);
    assert_eq!(
        json_body("\"\u{fc}\"".to_owned()).into_inner(),
        Some(Bytes::from_static("\"\u{fc}\"".as_bytes()))
    );
}

#[test]
fn idle_timeout_resets_after_each_frame() {
    let idle = Duration::from_millis(100);
    let mut body = IdleTimeoutBody::new("inner", idle);
    let step: IdleStep<_, ()> = body.polled(BodyEvent::Frame(Bytes::from_static(b"frame")));
    assert!(matches!(
        step,
        IdleStep::Frame(frame, period) if frame == Bytes::from_static(b"frame") && period == idle
    ));
    let step: IdleStep<Bytes, ()> = body.polled(BodyEvent::End);
    assert!(matches!(step, IdleStep::End));
    assert!(body.is_done());
}

#[test]
fn idle_timeout_reports_a_stalled_body() {
    let mut body = IdleTimeoutBody::new("inner", Duration::from_millis(2));
    let step: IdleStep<Bytes, ()> = body.polled(BodyEvent::Pending);
    assert!(matches!(step, IdleStep::AwaitTimer));
    let error: IdleTimeoutError<()> = body.timer_fired();
    assert!(error.is_timeout());
    assert!(error.body_error().is_none());
    assert_eq!(
        error.message(|_: &()| String::new()),
        "body idle timeout after 2 ms"
    );
    assert!(body.is_end_stream(false));
    let step: IdleStep<Bytes, ()> = body.polled(BodyEvent::Frame(Bytes::from_static(b"late")));
    assert!(matches!(step, IdleStep::End));
}

#[test]
fn an_error_of_the_body_ends_it() {
    let mut body = IdleTimeoutBody::new("inner", Duration::from_secs(12));
    assert_eq!(body.idle_timeout(), Duration::from_secs(12));
    assert!(!body.is_end_stream(false) && body.is_end_stream(true));
    let step: IdleStep<Bytes, &'static str> = body.polled(BodyEvent::Failed("reset"));
    match step {
        IdleStep::Failed(error) => {
            assert!(!error.is_timeout());
            assert_eq!(error.body_error(), Some(&"reset"));
            assert_eq!(
                error.message(|cause: &&'static str| (*cause).to_owned()),
                "body error: reset"
            );
        }
        other => panic!("expected a failure, not {other:?}"),
    }
    assert!(body.is_done());
    *body.inner_mut() = "other";
    assert_eq!(*body.inner(), "other");
    assert_eq!(body.into_inner(), "other");
}

#[test]
fn reader_chunks_are_what_was_read() {
    let mut stream = ReaderStream::new("reader").with_chunk_size(4);
    let mut buffer = stream.buffer().unwrap();
    assert_eq!(buffer, vec![0; 4]);
    buffer[..2].copy_from_slice(b"ab");
    let step: ReadStep<()> = stream.read(buffer, ReadEvent::Read(2));
    assert!(matches!(step, ReadStep::Chunk(chunk) if chunk == Bytes::from_static(b"ab")));
    let step: ReadStep<()> = stream.read(stream_buffer(&stream), ReadEvent::Pending);
    assert!(matches!(step, ReadStep::Pending));
    let step: ReadStep<()> = stream.read(stream_buffer(&stream), ReadEvent::Read(0));
    assert!(matches!(step, ReadStep::End));
    assert!(stream.buffer().is_none());
    assert_eq!(stream.into_inner(), "reader");
}

fn stream_buffer(stream: &ReaderStream<&'static str>) -> Vec<u8> {
    stream.buffer().unwrap()
}

#[test]
fn a_read_error_ends_the_stream() {
    let mut stream = ReaderStream::new("reader");
    assert_eq!(stream.buffer().unwrap().len(), 16 * 1024);
    let step = stream.read(Vec::new(), ReadEvent::Failed("broken"));
    assert!(matches!(step, ReadStep::Failed("broken")));
    let step: ReadStep<&'static str> = stream.read(vec![1], ReadEvent::Read(1));
    assert!(matches!(step, ReadStep::End));
    *stream.reader_mut() = "other";
    assert_eq!(stream.into_inner(), "other");
}

#[test]
fn a_chunk_holds_at_least_one_byte() {
    let stream = ReaderStream::new("reader").with_chunk_size(0);
    assert_eq!(stream.buffer().unwrap().len(), 1);
}
