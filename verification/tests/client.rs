use std::time::Duration;

use h12tiny::client::{Builder, Client, PoolProtocol};
use h12tiny::connect::{ConnectError, Connected};
use h12tiny::connector::{Connector, Establishment};
use h12tiny::error::{Error, ErrorKind};
use h12tiny::establish::Step;
use h12tiny::events::{DebugEvent, DebugEventLog};
use h12tiny::exchange::{
    Acquire, Acquisition, Cause, CheckoutError, ClientError, Dispatch, Exchange, Release, Unsent,
};
use h12tiny::http2::{Http2Override, Http2Settings};
use h12tiny::info::{ConnectionInfo, ConnectionProtocol, ResponseInfo};
use h12tiny::normalize::{
    extract_pool_key, normalize_h1_request, pool_key_origin, pool_key_uri, HttpVersion,
    NormalizeError, RequestHead,
};
use h12tiny::options::RequestOptions;
use h12tiny::session::{
    Connecting, EnabledProtocols, Established, Handshake, Handshaking, PoolClient, Reservation,
    Sender,
};
use h12tiny::uri::Uri;

type TestClient = Client<&'static str, &'static str, &'static str, &'static str>;
type TestBuilder = Builder<&'static str, &'static str, &'static str, &'static str>;
type TestConnector = Connector<&'static str, &'static str, &'static str>;
type Failed = ClientError<&'static str, &'static str, &'static str, &'static str>;
type TestCause = Cause<&'static str, &'static str, &'static str, &'static str>;
type Session = PoolClient<&'static str, &'static str>;

const BOTH: EnabledProtocols = EnabledProtocols {
    http1: true,
    http2: true,
};

fn head(uri: &str) -> RequestHead {
    RequestHead {
        is_connect: false,
        version: HttpVersion::Http11,
        uri: Uri::parse(uri).unwrap(),
        host: None,
    }
}

fn admitted(client: &TestClient, head: RequestHead) -> Exchange {
    let outcome: Result<Exchange, Failed> = client.request(head);
    outcome.unwrap()
}

fn refused(client: &TestClient, head: RequestHead) -> Failed {
    let outcome: Result<Exchange, Failed> = client.request(head);
    outcome.unwrap_err()
}

fn connecting(client: &TestClient, exchange: &Exchange) -> Connecting {
    let begun: Result<_, Failed> =
        client.connect_to(exchange.key().duplicate(), exchange.options(), true);
    let (connecting, _, _): (_, _, Establishment<&'static str, &'static str>) = begun.unwrap();
    connecting
}

fn handshake(next: Established<&'static str, TestCause>) -> Handshake<&'static str> {
    match next {
        Established::Handshake(handshake) => handshake,
        other => panic!("expected a handshake, not {other:?}"),
    }
}

fn http1_session() -> Session {
    let client = TestClient::builder().build();
    let exchange = admitted(&client, head("http://127.0.0.1:8080/"));
    let (_, next) = connecting(&client, &exchange).established(
        Ok(Connected::new("io", ConnectionProtocol::Http1)),
        Duration::from_millis(3),
    );
    let started: Result<_, Failed> = handshake(next).start(BOTH);
    match started.unwrap() {
        ("io", Handshaking::Http1(shaking)) => {
            let session: Result<Session, Failed> =
                shaking.completed(Ok("h1"), Duration::from_millis(4));
            session.unwrap()
        }
        other => panic!("expected an HTTP/1 handshake, not {other:?}"),
    }
}

fn http2_session() -> Session {
    let mut builder = TestClient::builder();
    builder.http2_only(true);
    let client = builder.build();
    let exchange = admitted(&client, head("http://127.0.0.1:8080/"));
    let (_, next) = connecting(&client, &exchange).established(
        Ok(Connected::new("io", ConnectionProtocol::Http2)),
        Duration::from_millis(3),
    );
    let started: Result<_, Failed> = handshake(next).start(BOTH);
    match started.unwrap() {
        ("io", Handshaking::Http2(shaking)) => {
            let session: Result<Session, Failed> =
                shaking.completed(Ok("h2"), Duration::from_millis(4));
            session.unwrap()
        }
        other => panic!("expected an HTTP/2 handshake, not {other:?}"),
    }
}

fn sent(exchange: Exchange, session: &Session, reused: bool) -> Dispatch {
    let outcome: Result<Dispatch, Failed> = exchange.send_over(session, reused);
    outcome.unwrap()
}

/// The first lines of a request as an HTTP/1 peer reads them.
fn wire(method: &str, head: &RequestHead) -> String {
    let host = head.host.as_ref().map(|host| {
        format!(
            "Host: {}\r\n",
            String::from_utf8(host.clone()).unwrap()
        )
    });
    format!(
        "{method} {} HTTP/1.1\r\n{}",
        head.uri.text(),
        host.unwrap_or_default()
    )
}

#[test]
fn direct_h1_uses_origin_form_and_synthesizes_host_on_the_wire() {
    let address = "127.0.0.1:40123";
    let mut builder = TestClient::builder();
    builder.debug_event_log("log");
    let client = builder.build();
    let exchange = admitted(&client, head(&format!("http://{address}/foo?x=1")));
    let (events, _): (_, Established<&'static str, TestCause>) = connecting(&client, &exchange)
        .established(
            Ok(Connected::new("io", ConnectionProtocol::Http1)),
            Duration::ZERO,
        );
    let dispatch = sent(exchange, &http1_session(), false);
    let wire = wire("GET", dispatch.head());
    assert!(
        wire.starts_with(&format!("GET /foo?x=1 HTTP/1.1\r\nHost: {address}\r\n")),
        "unexpected wire request: {wire:?}"
    );
    assert!(!wire.starts_with("GET http://"));
    assert!(events.iter().any(|event| matches!(
        event,
        DebugEvent::ConnectionEstablished {
            origin,
            protocol: ConnectionProtocol::Http1,
        } if origin == &format!("http://{address}")
    )));
}

#[test]
fn request_headers_timeout_cancels_only_the_pending_exchange() {
    let client = TestClient::builder().build();
    let outcome: Result<Exchange, Failed> = client.request_with_options(
        head("http://127.0.0.1:40123/pending-headers"),
        RequestOptions::new().with_headers_timeout(Duration::ZERO),
    );
    let dispatch = sent(outcome.unwrap(), &http1_session(), false);
    assert_eq!(dispatch.timeout(), Some(Duration::ZERO));
    let error: Failed = dispatch.timed_out();
    assert!(error.kind() == ErrorKind::HeadersTimeout);
    assert!(error.source().is_none());
}

#[test]
fn explicit_host_and_connect_authority_form_are_preserved_on_the_wire() {
    let address = "127.0.0.1:40123";
    let client = TestClient::builder().build();
    let mut request = head(&format!("http://{address}/explicit-host"));
    request.host = Some(b"chosen.example".to_vec());
    let dispatch = sent(admitted(&client, request), &http1_session(), false);
    assert!(wire("GET", dispatch.head())
        .starts_with("GET /explicit-host HTTP/1.1\r\nHost: chosen.example\r\n"));

    let mut request = head(address);
    request.is_connect = true;
    let dispatch = sent(admitted(&client, request), &http1_session(), false);
    assert!(wire("CONNECT", dispatch.head()).starts_with(&format!(
        "CONNECT {address} HTTP/1.1\r\nHost: {address}\r\n"
    )));
}

#[test]
fn client_classifies_relative_and_unsupported_schemes() {
    let client = TestClient::builder().build();
    let relative = refused(&client, head("/only-a-path"));
    assert_eq!(relative.kind(), ErrorKind::AbsoluteUriRequired);
    assert!(matches!(
        relative.source(),
        Some(Cause::Target(NormalizeError::AbsoluteUriRequired))
    ));

    let exchange = admitted(&client, head("ftp://example.test/file"));
    let begun: Result<_, Failed> =
        client.connect_to(exchange.key().duplicate(), exchange.options(), true);
    let (connecting, _, establishment) = begun.unwrap();
    let error: ConnectError<&'static str, &'static str> = match establishment {
        Establishment::Phases(Step::Fail(error)) => error,
        other => panic!("expected a failure, not {other:?}"),
    };
    let (events, next): (_, Established<&'static str, TestCause>) =
        connecting.established(Err(error), Duration::ZERO);
    assert!(events.is_empty());
    match next {
        Established::Fail(unsupported) => {
            assert_eq!(unsupported.kind(), ErrorKind::UnsupportedScheme);
            assert!(matches!(
                unsupported.source(),
                Some(Cause::Connect(ConnectError::UnsupportedScheme(scheme))) if scheme == "ftp"
            ));
        }
        other => panic!("expected a failure, not {other:?}"),
    }
}

#[test]
fn ipv6_literal_synthesizes_a_bracketed_host_header() {
    let client = TestClient::builder().build();
    let exchange = admitted(&client, head("http://[::1]:40123/ipv6"));
    let dispatch = sent(exchange, &http1_session(), false);
    assert!(wire("GET", dispatch.head())
        .starts_with(&format!("GET /ipv6 HTTP/1.1\r\nHost: [::1]:{}\r\n", 40123)));
}

#[test]
fn a_port_that_the_scheme_implies_is_left_out_of_host() {
    for (uri, host) in [
        ("http://example.test:80/", "example.test"),
        ("https://example.test:443/", "example.test"),
        ("http://example.test:443/", "example.test:443"),
        ("https://example.test:80/", "example.test:80"),
        ("http://example.test/", "example.test"),
    ] {
        let mut request = head(uri);
        normalize_h1_request(&mut request, true);
        assert_eq!(request.host.as_deref(), Some(host.as_bytes()));
        assert_eq!(request.uri.text(), "/");
    }
}

#[test]
fn no_host_is_added_where_that_is_turned_off() {
    let mut builder = TestClient::builder();
    builder.set_host(false);
    let client = builder.build();
    let dispatch = sent(
        admitted(&client, head("http://example.test/a")),
        &http1_session(),
        false,
    );
    assert_eq!(dispatch.head().host, None);
    assert_eq!(dispatch.head().uri.text(), "/a");
}

#[test]
fn http2_sessions_take_the_absolute_target() {
    let client = TestClient::builder().build();
    let mut request = head("https://example.test/a?b");
    request.version = HttpVersion::Http2;
    let dispatch = sent(admitted(&client, request), &http2_session(), false);
    assert_eq!(dispatch.head().uri.text(), "https://example.test/a?b");
    assert_eq!(dispatch.head().host, None);
}

#[test]
fn http2_requests_are_refused_on_http1_sessions() {
    let client = TestClient::builder().build();
    let mut request = head("http://example.test/");
    request.version = HttpVersion::Http2;
    let outcome: Result<Dispatch, Failed> =
        admitted(&client, request).send_over(&http1_session(), false);
    assert_eq!(outcome.unwrap_err().kind(), ErrorKind::UnsupportedVersion);
}

#[test]
fn versions_and_methods_are_checked_first() {
    let client = TestClient::builder().build();
    for (version, is_connect, expected) in [
        (HttpVersion::Http09, false, Some(ErrorKind::UnsupportedVersion)),
        (HttpVersion::Http3, false, Some(ErrorKind::UnsupportedVersion)),
        (HttpVersion::Http10, true, Some(ErrorKind::UnsupportedMethod)),
        (HttpVersion::Http10, false, None),
        (HttpVersion::Http11, true, None),
        (HttpVersion::Http2, true, None),
    ] {
        let mut request = head("http://example.test/");
        request.version = version;
        request.is_connect = is_connect;
        let outcome: Result<Exchange, Failed> = client.request(request);
        assert_eq!(outcome.err().map(|error| error.kind()), expected);
    }
    let mut request = head("/relative");
    request.version = HttpVersion::Http3;
    assert_eq!(
        refused(&client, request).kind(),
        ErrorKind::UnsupportedVersion
    );
}

#[test]
fn a_bare_authority_is_enough_for_connect_alone() {
    let client = TestClient::builder().build();
    assert_eq!(
        refused(&client, head("example.test:443")).kind(),
        ErrorKind::AbsoluteUriRequired
    );
    for (authority, origin) in [
        ("example.test:443", "https://example.test:443"),
        ("example.test:80", "http://example.test:80"),
        ("example.test:8443", "http://example.test:8443"),
    ] {
        let mut request = head(authority);
        request.is_connect = true;
        let exchange = admitted(&client, request);
        assert_eq!(pool_key_origin(exchange.key()), origin);
        assert_eq!(exchange.head().uri.text(), format!("{origin}/"));
    }
}

#[test]
fn the_pool_key_is_the_origin() {
    let mut uri = Uri::parse("https://example.test:8443/a/b?c").unwrap();
    let key = extract_pool_key(&mut uri, false).unwrap();
    assert_eq!(key.scheme(), "https");
    assert_eq!(key.authority(), "example.test:8443");
    assert!(key.is_https());
    assert_eq!(uri.text(), "https://example.test:8443/a/b?c");
    assert_eq!(pool_key_origin(&key), "https://example.test:8443");
    let mut root = pool_key_uri(key);
    assert_eq!(root.text(), "https://example.test:8443/");
    let again = extract_pool_key(&mut root, false).unwrap();
    assert_eq!(pool_key_origin(&again), "https://example.test:8443");
    assert!(Uri::parse("http://a b/").is_none());
}

#[test]
fn a_target_without_a_path_asks_for_the_root() {
    for (uri, path) in [
        ("http://example.test", "/"),
        ("http://example.test?x=1", "/?x=1"),
        ("http://example.test/a", "/a"),
    ] {
        let mut request = head(uri);
        normalize_h1_request(&mut request, false);
        assert_eq!(request.uri.text(), path);
        assert_eq!(request.host, None);
    }
}

#[test]
fn deadlines_do_not_change_the_pool_key() {
    let client = TestClient::builder().build();
    let hasty = RequestOptions::new().with_connect_timeout(Duration::ZERO);
    let outcome: Result<Exchange, Failed> =
        client.request_with_options(head("http://example.test/two"), hasty);
    let second = outcome.unwrap();
    let first = admitted(&client, head("http://example.test/one"));
    assert_eq!(pool_key_origin(first.key()), pool_key_origin(second.key()));
    assert_eq!(first.options(), RequestOptions::new());
    assert_eq!(second.options(), hasty);
}

#[test]
fn get_asks_in_http11_without_deadlines() {
    let client = TestClient::builder().build();
    let outcome: Result<Exchange, Failed> =
        client.get(Uri::parse("http://example.test/").unwrap());
    let exchange = outcome.unwrap();
    assert_eq!(exchange.head().version, HttpVersion::Http11);
    assert!(!exchange.head().is_connect);
    assert_eq!(exchange.options(), RequestOptions::default());
}

#[test]
fn a_disabled_pool_is_not_asked() {
    let client = TestClient::builder().build();
    let exchange = admitted(&client, head("http://example.test/"));
    assert_eq!(exchange.acquire(false), Acquisition::Connect);
    assert_eq!(exchange.acquire(true), Acquisition::AskPool);
}

#[test]
fn a_pool_that_has_no_answer_yet_races_with_a_new_connection() {
    let client = TestClient::builder().build();
    let exchange = admitted(&client, head("http://example.test/"));
    let next: Acquire<&'static str, TestCause> = exchange.pool_asked(None, false);
    assert!(matches!(next, Acquire::Race));
    let next: Acquire<&'static str, TestCause> =
        exchange.pool_asked(Some(Err(CheckoutError::ClosedValue)), true);
    assert!(matches!(next, Acquire::AwaitConnect));
    let next: Acquire<&'static str, TestCause> =
        exchange.pool_asked(Some(Err(CheckoutError::Other("pool"))), false);
    assert!(matches!(next, Acquire::Fail(error) if error.kind() == ErrorKind::Connect));
}

#[test]
fn sequential_h1_requests_reuse_one_direct_connection() {
    let address = "127.0.0.1:40123";
    let client = TestClient::builder().build();
    let first = admitted(&client, head(&format!("http://{address}/one")));
    let origin = pool_key_origin(first.key());
    assert_eq!(origin, format!("http://{address}"));
    let session = http1_session();
    let dispatch = sent(first, &session, false);
    assert!(wire("GET", dispatch.head()).starts_with("GET /one HTTP/1.1"));
    let mut extensions = http::Extensions::new();
    assert_eq!(
        dispatch.answered(&mut extensions, true, true),
        Release::Now
    );

    // A new connection would be under a deadline of zero.
    let outcome: Result<Exchange, Failed> = client.request_with_options(
        head(&format!("http://{address}/two")),
        RequestOptions::new().with_connect_timeout(Duration::ZERO),
    );
    let second = outcome.unwrap();
    assert_eq!(pool_key_origin(second.key()), origin);
    assert_eq!(second.acquire(true), Acquisition::AskPool);
    let next: Acquire<_, TestCause> = second.pool_asked(Some(Ok(session)), false);
    let session = match next {
        Acquire::Use(session) => session,
        other => panic!("expected the idle session, not {other:?}"),
    };
    let dispatch = sent(second, &session, true);
    assert!(wire("GET", dispatch.head()).starts_with("GET /two HTTP/1.1"));
    assert_eq!(dispatch.timeout(), None);
    dispatch.answered(&mut extensions, true, true);
    assert!(ResponseInfo::from_response(&extensions).unwrap().reused());
}

#[test]
fn an_idle_session_is_reused_whatever_the_deadlines() {
    let client = TestClient::builder().build();
    let zero = Duration::ZERO;
    let options = [
        RequestOptions::new(),
        RequestOptions::new()
            .with_dns_timeout(zero)
            .with_connect_timeout(zero)
            .with_tls_timeout(zero),
    ];
    for options in options {
        let outcome: Result<Exchange, Failed> =
            client.request_with_options(head("http://example.test/a"), options);
        let exchange = outcome.unwrap();
        let next: Acquire<_, TestCause> = exchange.pool_asked(Some(Ok("idle")), false);
        assert!(matches!(next, Acquire::Use("idle")));
        let dispatch = sent(exchange, &http1_session(), true);
        assert_eq!(dispatch.head().uri.text(), "/a");
        assert_eq!(dispatch.timeout(), None);
        let mut extensions = http::Extensions::new();
        dispatch.answered(&mut extensions, true, true);
        assert!(ResponseInfo::from_response(&extensions).unwrap().reused());
    }
}

#[test]
fn whichever_session_comes_first_is_used() {
    let client = TestClient::builder().build();
    let exchange = admitted(&client, head("http://example.test/"));
    let next: Acquire<_, TestCause> = exchange.checkout_came_first(Ok("pooled"), false);
    assert!(matches!(next, Acquire::Use("pooled")));
    let next: Acquire<_, TestCause> = exchange.connect_came_first(Ok("new"));
    assert!(matches!(next, Acquire::Use("new")));
    let next: Acquire<_, TestCause> = exchange.connect_came_last(Ok("new"));
    assert!(matches!(next, Acquire::Use("new")));
    let next: Acquire<_, TestCause> = exchange.checkout_came_last(Ok("pooled"));
    assert!(matches!(next, Acquire::Use("pooled")));
}

#[test]
fn a_canceled_half_of_the_race_leaves_the_other() {
    let client = TestClient::builder().build();
    let exchange = admitted(&client, head("http://example.test/"));
    let next: Acquire<&'static str, TestCause> =
        exchange.checkout_came_first(Err(CheckoutError::ClosedValue), true);
    assert!(matches!(next, Acquire::AwaitConnect));
    let next: Acquire<&'static str, TestCause> =
        exchange.connect_came_first(Err(Error::new(ErrorKind::Canceled)));
    assert!(matches!(next, Acquire::AwaitCheckout));
}

#[test]
fn other_failures_of_the_race_are_final() {
    let client = TestClient::builder().build();
    let exchange = admitted(&client, head("http://example.test/"));
    let next: Acquire<&'static str, TestCause> =
        exchange.checkout_came_first(Err(CheckoutError::Other("pool")), false);
    match next {
        Acquire::Fail(error) => {
            assert_eq!(error.kind(), ErrorKind::Connect);
            assert!(matches!(
                error.source(),
                Some(Cause::Checkout(CheckoutError::Other("pool")))
            ));
        }
        other => panic!("expected a failure, not {other:?}"),
    }
    let next: Acquire<&'static str, TestCause> =
        exchange.connect_came_first(Err(Error::new(ErrorKind::Tls)));
    assert!(matches!(next, Acquire::Fail(error) if error.kind() == ErrorKind::Tls));
    let next: Acquire<&'static str, TestCause> =
        exchange.connect_came_last(Err(Error::new(ErrorKind::Canceled)));
    assert!(matches!(next, Acquire::Fail(error) if error.kind() == ErrorKind::Canceled));
    let next: Acquire<&'static str, TestCause> =
        exchange.checkout_came_last(Err(CheckoutError::Other("pool")));
    assert!(matches!(next, Acquire::Fail(error) if error.kind() == ErrorKind::Connect));
}

#[test]
fn a_stale_checkout_starts_over_where_retries_are_on() {
    let stale: [fn() -> CheckoutError<&'static str>; 2] = [
        || CheckoutError::ClosedValue,
        || CheckoutError::NoLongerWanted,
    ];
    for error in stale {
        let client = TestClient::builder().build();
        let exchange = admitted(&client, head("http://example.test/"));
        let next: Acquire<&'static str, TestCause> = exchange.checkout_came_last(Err(error()));
        assert!(matches!(next, Acquire::Again));

        let mut builder = TestClient::builder();
        builder.retry_canceled_requests(false);
        let client = builder.build();
        let exchange = admitted(&client, head("http://example.test/"));
        let next: Acquire<&'static str, TestCause> = exchange.checkout_came_last(Err(error()));
        assert!(matches!(next, Acquire::Fail(error) if error.kind() == ErrorKind::Canceled));
    }
}

#[test]
fn an_unsent_request_is_tried_again_over_a_reused_session_alone() {
    for (retry, reused, again) in [
        (true, true, true),
        (true, false, false),
        (false, true, false),
        (false, false, false),
    ] {
        let mut builder = TestClient::builder();
        builder.retry_canceled_requests(retry);
        builder.debug_event_log("log");
        let client = builder.build();
        let exchange = admitted(&client, head("http://example.test:8080/a"));
        let next: Unsent<TestCause> = sent(exchange, &http1_session(), reused).unsent("closed");
        match next {
            Unsent::Again(exchange, events) => {
                assert!(again);
                assert_eq!(
                    events,
                    vec![DebugEvent::StaleRetry {
                        origin: "http://example.test:8080".to_owned()
                    }]
                );
                assert_eq!(exchange.head().uri.text(), "http://example.test:8080/a");
                let second = sent(exchange, &http1_session(), false);
                assert_eq!(
                    wire("GET", second.head()),
                    "GET /a HTTP/1.1\r\nHost: example.test:8080\r\n"
                );
            }
            Unsent::Fail(error) => {
                assert!(!again);
                assert_eq!(error.kind(), ErrorKind::Canceled);
                assert!(matches!(error.source(), Some(Cause::Protocol("closed"))));
            }
        }
    }
}

#[test]
fn a_silent_client_records_nothing() {
    let client = TestClient::builder().build();
    assert!(client.debug_events().is_none());
    let exchange = admitted(&client, head("https://example.test/"));
    let (events, _): (_, Established<&'static str, TestCause>) = connecting(&client, &exchange)
        .established(
            Ok(Connected::new("io", ConnectionProtocol::Http1)),
            Duration::ZERO,
        );
    assert!(events.is_empty());
    let next: Unsent<TestCause> = sent(exchange, &http1_session(), true).unsent("closed");
    assert!(matches!(next, Unsent::Again(_, events) if events.is_empty()));
}

#[test]
fn alpn_is_recorded_for_https_alone() {
    let mut builder = TestClient::builder();
    builder.debug_event_log("log");
    let client = builder.build();
    assert_eq!(client.debug_events(), Some(&"log"));
    let exchange = admitted(&client, head("https://example.test/"));
    let (events, next): (_, Established<&'static str, TestCause>) = connecting(&client, &exchange)
        .established(
            Ok(Connected::new("io", ConnectionProtocol::Http2)),
            Duration::ZERO,
        );
    let origin = "https://example.test".to_owned();
    assert_eq!(
        events,
        vec![
            DebugEvent::ConnectionEstablished {
                origin: origin.clone(),
                protocol: ConnectionProtocol::Http2
            },
            DebugEvent::AlpnSelected {
                origin,
                protocol: ConnectionProtocol::Http2
            },
        ]
    );
    assert!(matches!(next, Established::Claim(_)));
}

#[test]
fn a_partly_sent_request_is_not_tried_again() {
    let client = TestClient::builder().build();
    let exchange = admitted(&client, head("http://example.test/"));
    let error: Failed = sent(exchange, &http1_session(), true).failed("reset");
    assert_eq!(error.kind(), ErrorKind::SendRequest);
    let (kind, cause) = error.into_parts();
    assert_eq!(kind, ErrorKind::SendRequest);
    assert!(matches!(cause, Some(Cause::Protocol("reset"))));
}

#[test]
fn an_answer_describes_its_transport() {
    let client = TestClient::builder().build();
    let exchange = admitted(&client, head("http://example.test/"));
    let mut extensions = http::Extensions::new();
    extensions.insert("other");
    assert!(ResponseInfo::from_response(&extensions).is_none());
    let released = sent(exchange, &http1_session(), true).answered(&mut extensions, true, false);
    assert_eq!(released, Release::OnceReady);
    let info = *ResponseInfo::from_response(&extensions).unwrap();
    assert!(info.reused());
    assert_eq!(info.connection().protocol(), ConnectionProtocol::Http1);
    assert_eq!(
        info.connection().connect_duration(),
        Some(Duration::from_millis(3))
    );
    assert_eq!(
        info.connection().handshake_duration(),
        Some(Duration::from_millis(4))
    );

    let exchange = admitted(&client, head("http://example.test/"));
    sent(exchange, &http1_session(), false).answered(&mut extensions, true, true);
    assert!(!ResponseInfo::from_response(&extensions).unwrap().reused());
    assert_eq!(extensions.get(), Some(&"other"));
}

#[test]
fn only_a_busy_pooled_http1_session_is_held() {
    let client = TestClient::builder().build();
    for (session, pool_enabled, ready, expected) in [
        (http1_session(), true, false, Release::OnceReady),
        (http1_session(), true, true, Release::Now),
        (http1_session(), false, false, Release::Now),
        (http2_session(), true, false, Release::Now),
    ] {
        let exchange = admitted(&client, head("http://example.test/"));
        let mut extensions = http::Extensions::new();
        assert_eq!(
            sent(exchange, &session, false).answered(&mut extensions, pool_enabled, ready),
            expected
        );
    }
}

#[test]
fn without_a_place_in_the_pool_nothing_is_dialed() {
    let client = TestClient::builder().build();
    let exchange = admitted(&client, head("http://example.test/"));
    let begun: Result<(Connecting, _, Establishment<_, _>), Failed> =
        client.connect_to(exchange.key().duplicate(), exchange.options(), false);
    assert_eq!(begun.err().unwrap().kind(), ErrorKind::Canceled);
}

#[test]
fn connections_are_opened_to_the_root_of_the_origin() {
    let mut builder = TestClient::builder();
    builder.connector(
        TestConnector::builder()
            .dialer("dialer")
            .connect_timeout(Duration::from_secs(7))
            .build(),
    );
    builder.http2_only(true);
    let client = builder.build();
    let exchange = admitted(&client, head("https://example.test/a/b"));
    let begun: Result<(Connecting, _, Establishment<_, _>), Failed> =
        client.connect_to(exchange.key().duplicate(), exchange.options(), true);
    let (_, timeout, establishment) = begun.unwrap();
    assert_eq!(timeout, Some(Duration::from_secs(7)));
    match establishment {
        Establishment::Dial {
            origin,
            require_http2,
            ..
        } => {
            assert_eq!(origin.text(), "https://example.test/");
            assert!(require_http2);
        }
        other => panic!("expected a dial, not {other:?}"),
    }
}

#[test]
fn http1_only_refuses_an_http2_connection() {
    let mut builder = TestClient::builder();
    builder.http1_only();
    let client = builder.build();
    let exchange = admitted(&client, head("https://example.test/"));
    let (_, next): (_, Established<&'static str, TestCause>) = connecting(&client, &exchange)
        .established(
            Ok(Connected::new("io", ConnectionProtocol::Http2)),
            Duration::ZERO,
        );
    assert!(matches!(next, Established::Fail(error) if error.kind() == ErrorKind::Alpn));
}

#[test]
fn negotiated_http2_is_claimed_and_required_http2_is_not() {
    let client = TestClient::builder().build();
    let exchange = admitted(&client, head("https://example.test/"));
    let (_, next): (_, Established<&'static str, TestCause>) = connecting(&client, &exchange)
        .established(
            Ok(Connected::new("io", ConnectionProtocol::Http2)),
            Duration::ZERO,
        );
    match next {
        Established::Claim(claim) => {
            let outcome: Result<_, Failed> = claim.claimed(true);
            let started: Result<_, Failed> = outcome.unwrap().start(BOTH);
            assert!(matches!(started, Ok(("io", Handshaking::Http2(_)))));
        }
        other => panic!("expected a claim, not {other:?}"),
    }

    let (_, next): (_, Established<&'static str, TestCause>) = connecting(&client, &exchange)
        .established(
            Ok(Connected::new("io", ConnectionProtocol::Http2)),
            Duration::ZERO,
        );
    match next {
        Established::Claim(claim) => {
            let outcome: Result<_, Failed> = claim.claimed(false);
            assert_eq!(outcome.err().unwrap().kind(), ErrorKind::Canceled);
        }
        other => panic!("expected a claim, not {other:?}"),
    }
}

#[test]
fn a_protocol_that_is_not_enabled_is_unavailable() {
    for (protocol, enabled) in [
        (
            ConnectionProtocol::Http1,
            EnabledProtocols {
                http1: false,
                http2: true,
            },
        ),
        (
            ConnectionProtocol::Http2,
            EnabledProtocols {
                http1: true,
                http2: false,
            },
        ),
    ] {
        let mut builder = TestClient::builder();
        builder.http2_only(true);
        let client = builder.build();
        let exchange = admitted(&client, head("https://example.test/"));
        let (_, next) = connecting(&client, &exchange)
            .established(Ok(Connected::new("io", protocol)), Duration::ZERO);
        let started: Result<(&'static str, Handshaking), Failed> = handshake(next).start(enabled);
        assert_eq!(
            started.err().unwrap().kind(),
            ErrorKind::ProtocolUnavailable
        );
    }
}

#[test]
fn a_failed_handshake_keeps_its_cause() {
    let client = TestClient::builder().build();
    let exchange = admitted(&client, head("http://example.test/"));
    let (_, next) = connecting(&client, &exchange).established(
        Ok(Connected::new("io", ConnectionProtocol::Http1)),
        Duration::ZERO,
    );
    let started: Result<_, Failed> = handshake(next).start(BOTH);
    match started.unwrap() {
        (_, Handshaking::Http1(shaking)) => {
            let session: Result<Session, Failed> =
                shaking.completed(Err("preface"), Duration::ZERO);
            let error = session.unwrap_err();
            assert_eq!(error.kind(), ErrorKind::Handshake);
            assert!(matches!(error.source(), Some(Cause::Protocol("preface"))));
        }
        other => panic!("expected an HTTP/1 handshake, not {other:?}"),
    }
}

#[test]
fn http2_sessions_are_shared_and_http1_sessions_are_not() {
    let mut session = http1_session();
    assert!(session.is_http1() && !session.is_http2() && !session.can_share());
    assert!(matches!(session.sender(), Sender::Http1("h1")));
    *session.sender_mut() = Sender::Http1("other");
    assert!(matches!(
        session.reserve(),
        Reservation::Unique(session) if matches!(session.sender(), Sender::Http1("other"))
    ));

    let session = http2_session();
    assert!(!session.is_http1() && session.is_http2() && session.can_share());
    let info = session.connection_info();
    match session.reserve() {
        Reservation::Shared(kept, handed_out) => {
            assert!(matches!(kept.sender(), Sender::Http2("h2")));
            assert!(matches!(handed_out.sender(), Sender::Http2("h2")));
            assert_eq!(kept.connection_info(), info);
            assert_eq!(handed_out.connection_info(), info);
        }
        other => panic!("expected a shared session, not {other:?}"),
    }
}

#[test]
fn http1_only_offers_http11_whatever_the_order_of_calls() {
    let mut builder = TestClient::builder();
    builder.http1_only();
    builder.connector(TestConnector::new());
    let client = builder.build();
    assert_eq!(
        client.connector().tls_config().unwrap().alpn_protocols,
        vec![b"http/1.1".to_vec()]
    );
    assert_eq!(client.config().protocol, PoolProtocol::Http1);

    let mut builder = TestClient::builder();
    builder.connector(TestConnector::new()).http1_only();
    assert_eq!(
        builder
            .build()
            .connector()
            .tls_config()
            .unwrap()
            .alpn_protocols,
        vec![b"http/1.1".to_vec()]
    );
}

#[test]
fn http1_only_keeps_the_rest_of_the_tls_policy_whatever_the_order_of_calls() {
    let provider = std::sync::Arc::new(rustls_graviola::default_provider());
    let mut config = h12tiny::tls::ClientTlsConfigBuilder::with_provider(provider.clone())
        .build()
        .unwrap();
    config.enable_sni = false;
    config.enable_early_data = true;
    let connector = || TestConnector::builder().tls_config(config.clone()).build();

    let mut first = TestClient::builder();
    first.http1_only();
    first.connector(connector());
    let mut last = TestClient::builder();
    last.connector(connector());
    last.http1_only();
    for client in [first.build(), last.build()] {
        let tls = client.connector().tls_config().unwrap();
        assert_eq!(tls.alpn_protocols, vec![b"http/1.1".to_vec()]);
        assert!(!tls.enable_sni && tls.enable_early_data);
        assert!(std::sync::Arc::ptr_eq(tls.crypto_provider(), &provider));
    }
}

#[test]
fn http2_only_can_be_turned_off_again() {
    let mut builder = TestClient::builder();
    builder.http2_only(true);
    builder.http2_only(false);
    let client = builder.build();
    assert_eq!(client.config().protocol, PoolProtocol::Auto);
    assert_eq!(
        client.connector().tls_config().unwrap().alpn_protocols,
        vec![b"h2".to_vec(), b"http/1.1".to_vec()]
    );
}

#[test]
fn http1_header_names_are_written_in_title_case() {
    let client = TestBuilder::new().build();
    let settings = format!("{:?}", client.http1_builder());
    assert!(settings.contains("h1_title_case_headers: true"));
    let mut expected = hyper::client::conn::http1::Builder::new();
    expected.title_case_headers(true);
    assert_eq!(settings, format!("{expected:?}"));
}

#[test]
fn pool_limits_are_kept() {
    let client = TestBuilder::new().build();
    assert_eq!(
        client.pool_config().idle_timeout,
        Some(Duration::from_secs(90))
    );
    assert_eq!(client.pool_config().max_idle_per_host, usize::MAX);
    assert_eq!(client.pool_config().max_h1_connections_per_host, usize::MAX);
    assert!(client.config().retry_canceled_requests);
    assert!(client.config().set_host);

    let mut builder = TestBuilder::new();
    builder
        .pool_idle_timeout(None)
        .pool_max_idle_per_host(3)
        .pool_max_connections_per_host(4);
    let client = builder.build();
    assert_eq!(client.pool_config().idle_timeout, None);
    assert_eq!(client.pool_config().max_idle_per_host, 3);
    assert_eq!(client.pool_config().max_h1_connections_per_host, 4);

    let mut builder = TestBuilder::new();
    builder.pool_max_connections_per_host(4);
    builder.pool_max_connections_per_host(0);
    assert_eq!(
        builder.build().pool_config().max_h1_connections_per_host,
        usize::MAX
    );
}

#[test]
fn http2_settings_are_applied_in_order_with_the_adaptive_window_last() {
    let mut builder = TestBuilder::new();
    builder.http2_settings(
        Http2Settings::new()
            .adaptive_window(true)
            .initial_stream_window_size(1)
            .initial_connection_window_size(2)
            .max_frame_size(3)
            .max_header_list_size(4)
            .header_table_size(5)
            .keep_alive_interval(Duration::from_secs(6))
            .keep_alive_timeout(Duration::from_secs(7))
            .keep_alive_while_idle(true),
    );
    builder.http2_settings(Http2Settings::default().max_frame_size(8));
    assert_eq!(
        builder.build().http2_overrides(),
        &[
            Http2Override::InitialStreamWindowSize(1),
            Http2Override::InitialConnectionWindowSize(2),
            Http2Override::MaxFrameSize(3),
            Http2Override::MaxHeaderListSize(4),
            Http2Override::HeaderTableSize(5),
            Http2Override::KeepAliveInterval(Duration::from_secs(6)),
            Http2Override::KeepAliveTimeout(Duration::from_secs(7)),
            Http2Override::KeepAliveWhileIdle(true),
            Http2Override::AdaptiveWindow(true),
            Http2Override::MaxFrameSize(8),
        ]
    );
    assert!(Http2Settings::new().apply().is_empty());
}

#[test]
fn copied_http2_settings_are_applied_alike() {
    let settings = Http2Settings::new()
        .keep_alive_while_idle(false)
        .max_frame_size(3);
    assert_eq!(settings.clone().apply(), settings.apply());
    assert_eq!(
        settings.apply(),
        vec![
            Http2Override::MaxFrameSize(3),
            Http2Override::KeepAliveWhileIdle(false),
        ]
    );
}

#[test]
fn a_log_is_drained_once() {
    let mut log = DebugEventLog::default();
    assert!(log.is_empty());
    log.record(DebugEvent::PoolCheckout {
        origin: "http://a".to_owned(),
    });
    log.record(DebugEvent::ConnectionPooled {
        origin: "http://b".to_owned(),
    });
    assert!(!log.is_empty());
    assert_eq!(
        log.drain(),
        vec![
            DebugEvent::PoolCheckout {
                origin: "http://a".to_owned()
            },
            DebugEvent::ConnectionPooled {
                origin: "http://b".to_owned()
            },
        ]
    );
    assert!(log.is_empty());
    assert!(log.drain().is_empty());
}

#[test]
fn a_log_shows_nothing_of_its_events() {
    let mut log = DebugEventLog::new();
    let event = DebugEvent::AlpnSelected {
        origin: "https://a".to_owned(),
        protocol: ConnectionProtocol::Http2,
    };
    assert_eq!(event.clone(), event);
    log.record(event);
    assert_eq!(format!("{log:?}"), "DebugEventLog { .. }");
    assert_eq!(format!("{log:#?}"), "DebugEventLog { .. }");
}

#[test]
fn options_hold_each_deadline() {
    let options = RequestOptions::new()
        .with_dns_timeout(Duration::from_millis(1))
        .with_connect_timeout(Duration::from_millis(2))
        .with_tls_timeout(Duration::from_millis(3))
        .with_headers_timeout(Duration::from_millis(4));
    assert_eq!(options.dns_timeout(), Some(Duration::from_millis(1)));
    assert_eq!(options.connect_timeout(), Some(Duration::from_millis(2)));
    assert_eq!(options.tls_timeout(), Some(Duration::from_millis(3)));
    assert_eq!(options.headers_timeout(), Some(Duration::from_millis(4)));
    assert!(options.has_connection_timeout());
    assert!(!RequestOptions::new()
        .with_headers_timeout(Duration::ZERO)
        .has_connection_timeout());
}

#[test]
fn every_error_kind_has_its_sentence() {
    for (kind, sentence) in [
        (
            ErrorKind::Canceled,
            "request was cancelled before it could be sent",
        ),
        (
            ErrorKind::UnsupportedScheme,
            "request URI scheme is unsupported",
        ),
        (ErrorKind::DnsTimeout, "DNS resolution timed out"),
        (
            ErrorKind::ConnectTimeout,
            "TCP connection establishment timed out",
        ),
        (ErrorKind::TlsTimeout, "TLS negotiation timed out"),
        (
            ErrorKind::HeadersTimeout,
            "request dispatch or response headers timed out",
        ),
        (ErrorKind::Connect, "connection establishment failed"),
        (
            ErrorKind::Tls,
            "TLS negotiation or certificate validation failed",
        ),
        (
            ErrorKind::Alpn,
            "TLS ALPN did not select an allowed HTTP protocol",
        ),
        (ErrorKind::Handshake, "HTTP connection handshake failed"),
        (ErrorKind::SendRequest, "request dispatch failed"),
        (
            ErrorKind::UnsupportedMethod,
            "request method is unsupported for this HTTP version",
        ),
        (
            ErrorKind::UnsupportedVersion,
            "request HTTP version is unsupported",
        ),
        (
            ErrorKind::AbsoluteUriRequired,
            "client requests require an absolute URI",
        ),
        (
            ErrorKind::ProtocolUnavailable,
            "the selected protocol was not enabled in this build",
        ),
    ] {
        let error: Error<()> = Error::new(kind);
        assert_eq!(error.message(), sentence);
        assert_eq!(error.kind(), kind);
    }
}

#[test]
fn connection_facts_are_kept() {
    let info = ConnectionInfo::new(ConnectionProtocol::Http2)
        .with_connect_duration(Duration::from_millis(1))
        .with_handshake_duration(Duration::from_millis(2));
    assert_eq!(info.protocol(), ConnectionProtocol::Http2);
    assert_eq!(info.local_addr(), None);
    assert_eq!(info.peer_addr(), None);
    assert_eq!(info.connect_duration(), Some(Duration::from_millis(1)));
    assert_eq!(info.handshake_duration(), Some(Duration::from_millis(2)));
    let response = ResponseInfo::new(info, true);
    assert_eq!(response.connection(), info);
    assert!(response.reused());
}
