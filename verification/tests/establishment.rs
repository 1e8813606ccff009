use std::time::Duration;

use h12tiny::address::SocketAddress;
use h12tiny::connect::{select_protocol, ConnectError, Connected, TcpConnected};
use h12tiny::connector::{
    custom_dialed, establishment_timed_out, Connector, ConnectorKind, Establishment,
    NameResolution,
};
use h12tiny::error::ErrorKind;
use h12tiny::establish::{Lookup, Negotiation, Step, TcpDial, TcpRace};
use h12tiny::info::{ConnectionInfo, ConnectionProtocol};
use h12tiny::options::RequestOptions;
use h12tiny::race::{NoConnection, RaceAction};
use h12tiny::uri::Uri;

type Plain = Connector<&'static str, &'static str, &'static str>;
type Started = Establishment<String, String>;
type Stepped = Step<String, String>;

fn uri(text: &str) -> Uri {
    Uri::parse(text).unwrap()
}

fn begin(connector: &Plain, text: &str, require_http2: bool) -> (Option<Duration>, Started) {
    connector.connect_with_options(uri(text), require_http2, RequestOptions::new())
}

fn phases(started: Started) -> Stepped {
    match started {
        Establishment::Phases(step) => step,
        other => panic!("expected phases, not {other:?}"),
    }
}

fn lookup(step: Stepped) -> Lookup {
    match step {
        Step::Resolve(lookup) => lookup,
        other => panic!("expected a lookup, not {other:?}"),
    }
}

fn dial(step: Stepped) -> TcpDial {
    match step {
        Step::DialTcp(dial) => dial,
        other => panic!("expected a TCP dial, not {other:?}"),
    }
}

fn race(step: Stepped) -> TcpRace {
    match step {
        Step::ConnectTcp(race) => race,
        other => panic!("expected a race, not {other:?}"),
    }
}

fn negotiation(step: Stepped) -> Negotiation {
    match step {
        Step::Negotiate(negotiation) => negotiation,
        other => panic!("expected a negotiation, not {other:?}"),
    }
}

fn done(step: Stepped) -> ConnectionInfo {
    match step {
        Step::Done(info) => info,
        other => panic!("expected a connection, not {other:?}"),
    }
}

fn failure(step: Stepped) -> ConnectError<String, String> {
    match step {
        Step::Fail(error) => error,
        other => panic!("expected a failure, not {other:?}"),
    }
}

fn local() -> SocketAddress {
    SocketAddress::V4 {
        octets: [127, 0, 0, 1],
        port: 5000,
    }
}

fn peer() -> SocketAddress {
    SocketAddress::V4 {
        octets: [127, 0, 0, 1],
        port: 80,
    }
}

#[test]
fn custom_dialer_receives_the_normalized_origin_and_protocol_requirement() {
    let connector = Plain::with_dialer("dialer");
    let (timeout, started) = begin(&connector, "http://example.test:8080/", true);
    assert_eq!(timeout, None);
    match started {
        Establishment::Dial {
            origin,
            require_http2,
            options,
        } => {
            assert_eq!(origin.text(), "http://example.test:8080/");
            assert!(require_http2);
            assert_eq!(options, RequestOptions::new());
        }
        other => panic!("the dialer was not handed the origin: {other:?}"),
    }
    let result: Result<Connected<()>, ConnectError<&'static str, ()>> =
        custom_dialed(Err("fixture dial failure"));
    assert!(matches!(
        result,
        Err(ConnectError::Custom("fixture dial failure"))
    ));
}

#[test]
fn a_custom_dialer_hands_its_connection_on() {
    let connected: Result<_, ConnectError<(), ()>> =
        custom_dialed(Ok(Connected::new("stream", ConnectionProtocol::Http2)));
    let (io, protocol, info) = connected.unwrap().into_parts();
    assert_eq!(io, "stream");
    assert_eq!(protocol, ConnectionProtocol::Http2);
    assert_eq!(info.protocol(), ConnectionProtocol::Http2);
    assert_eq!(info.local_addr(), None);
}

#[test]
fn a_custom_dialer_is_handed_every_scheme_even_without_tls() {
    for text in ["https://example.test/", "ftp://example.test/"] {
        let connector = Plain::builder().dialer("dialer").without_tls().build();
        let (_, started) = begin(&connector, text, false);
        assert!(matches!(started, Establishment::Dial { .. }));
    }
}

#[test]
fn connect_timeout_cancels_a_pending_dialer() {
    let connector = Plain::builder()
        .dialer("pending")
        .connect_timeout(Duration::ZERO)
        .build();
    let (timeout, started) = begin(&connector, "http://example.test/", false);
    assert!(matches!(started, Establishment::Dial { .. }));
    assert_eq!(timeout, Some(Duration::ZERO));
    assert!(matches!(
        establishment_timed_out::<(), ()>(),
        ConnectError::Timeout
    ));
}

#[test]
fn connect_timeout_cancels_a_pending_tcp_dialer() {
    let connector = Plain::builder()
        .tcp_dialer("pending")
        .connect_timeout(Duration::ZERO)
        .build();
    let (timeout, started) = begin(&connector, "http://example.test/", false);
    dial(phases(started));
    assert_eq!(timeout, Some(Duration::ZERO));
    assert!(matches!(
        establishment_timed_out::<(), ()>(),
        ConnectError::Timeout
    ));
}

#[test]
fn connect_timeout_cancels_a_pending_resolver() {
    let connector = Plain::builder()
        .resolver("pending")
        .connect_timeout(Duration::ZERO)
        .build();
    let (timeout, started) = begin(&connector, "http://example.test/", false);
    lookup(phases(started));
    assert_eq!(timeout, Some(Duration::ZERO));
    assert!(matches!(
        establishment_timed_out::<(), ()>(),
        ConnectError::Timeout
    ));
}

#[test]
fn tcp_dialer_is_not_called_for_an_unsupported_scheme() {
    let connector = Plain::with_tcp_dialer("dialer");
    let (_, started) = begin(&connector, "ftp://example.test/", false);
    let error = failure(phases(started));
    assert!(matches!(&error, ConnectError::UnsupportedScheme(scheme) if scheme == "ftp"));
    assert_eq!(error.client_error_kind(), ErrorKind::UnsupportedScheme);
}

#[test]
fn tcp_dialer_is_not_called_for_https_without_tls_support() {
    let connector = Plain::builder().tcp_dialer("dialer").without_tls().build();
    let (_, started) = begin(&connector, "https://example.test/", false);
    let error = failure(phases(started));
    assert!(matches!(error, ConnectError::TlsDisabled));
}

#[test]
fn without_tls_plain_origins_are_still_reached() {
    let connector = Plain::without_tls();
    assert!(connector.tls_config().is_none());
    let (_, started) = begin(&connector, "http://example.test/", false);
    lookup(phases(started));
    let (_, started) = begin(&connector, "https://example.test/", false);
    assert!(matches!(
        failure(phases(started)),
        ConnectError::TlsDisabled
    ));
}

#[test]
fn custom_tcp_dialer_returns_a_futures_io_stream_to_h12tiny() {
    let connector = Plain::with_tcp_dialer("dialer");
    let (_, started) = begin(&connector, "http://127.0.0.1:8080/", false);
    let asked = dial(phases(started));
    assert_eq!(asked.origin().text(), "http://127.0.0.1:8080/");
    let info = done(asked.dialed(Ok((None, None))));
    assert_eq!(info.protocol(), ConnectionProtocol::Http1);
}

#[test]
fn custom_resolver_receives_the_origin_host_and_effective_port() {
    let connector = Plain::with_resolver("resolver");
    assert!(matches!(
        connector.resolver(),
        NameResolution::Custom("resolver")
    ));
    let (_, started) = begin(&connector, "http://example.test/", false);
    let asked = lookup(phases(started));
    assert_eq!((asked.host(), asked.port()), ("example.test", 80));

    let tcp = race(asked.resolved(Ok(vec![peer()])));
    let mut candidates = tcp.race::<String>();
    assert!(matches!(candidates.next_action(), RaceAction::Start(address) if address == peer()));
    let info = done(tcp.connected(Ok((Some(local()), Some(peer())))));
    assert_eq!(info.protocol(), ConnectionProtocol::Http1);
    assert_eq!(info.local_addr(), Some(local()));
    assert_eq!(info.peer_addr(), Some(peer()));
}

#[test]
fn the_scheme_implies_the_port_and_brackets_are_dropped() {
    let connector = Plain::new();
    assert!(matches!(connector.resolver(), NameResolution::System(_)));
    let (_, started) = begin(&connector, "https://[::1]/", false);
    let asked = lookup(phases(started));
    assert_eq!((asked.host(), asked.port()), ("::1", 443));
    let (_, started) = begin(&connector, "https://[::1]:8443/", false);
    let asked = lookup(phases(started));
    assert_eq!((asked.host(), asked.port()), ("::1", 8443));
}

#[test]
fn request_dns_timeout_is_distinct_from_legacy_establishment_timeout() {
    let connector = Plain::builder().resolver("pending").build();
    let (timeout, started): (_, Started) = connector.connect_with_options(
        uri("http://example.test/"),
        false,
        RequestOptions::new().with_dns_timeout(Duration::ZERO),
    );
    assert_eq!(timeout, None);
    let asked = lookup(phases(started));
    assert_eq!(asked.timeout(), Some(Duration::ZERO));
    let error = failure(asked.timed_out());
    assert!(matches!(error, ConnectError::DnsTimeout));
}

#[test]
fn any_phase_deadline_replaces_the_whole_one() {
    let connector = Plain::builder()
        .connect_timeout(Duration::from_secs(1))
        .build();
    let none = RequestOptions::new().with_headers_timeout(Duration::ZERO);
    for (options, expected) in [
        (none, Some(Duration::from_secs(1))),
        (none.with_dns_timeout(Duration::ZERO), None),
        (none.with_connect_timeout(Duration::ZERO), None),
        (none.with_tls_timeout(Duration::ZERO), None),
    ] {
        let (timeout, _): (_, Started) =
            connector.connect_with_options(uri("http://example.test/"), false, options);
        assert_eq!(timeout, expected);
    }
}

#[test]
fn request_options_reach_a_custom_tcp_dialer() {
    let options = RequestOptions::new()
        .with_dns_timeout(Duration::from_millis(1))
        .with_connect_timeout(Duration::from_millis(2))
        .with_tls_timeout(Duration::from_millis(3))
        .with_headers_timeout(Duration::from_millis(4));
    let connector = Plain::builder().tcp_dialer("dialer").build();
    let (_, started): (_, Started) =
        connector.connect_with_options(uri("http://example.test/"), false, options);
    let asked = dial(phases(started));
    assert_eq!(asked.options(), options);
    let error = failure(asked.dialed(Err("fixture dial failure".to_owned())));
    assert!(matches!(error, ConnectError::Custom(_)));
}

#[test]
fn request_tls_timeout_starts_after_tcp_establishment() {
    let connector = Plain::builder().tcp_dialer("dialer").build();
    let (_, started): (_, Started) = connector.connect_with_options(
        uri("https://127.0.0.1:8443/"),
        false,
        RequestOptions::new().with_tls_timeout(Duration::ZERO),
    );
    let tls = negotiation(dial(phases(started)).dialed(Ok((None, None))));
    assert_eq!(tls.timeout(), Some(Duration::ZERO));
    assert_eq!(tls.server_name(), "127.0.0.1");
    let error = failure(tls.timed_out());
    assert!(matches!(error, ConnectError::TlsTimeout));
}

#[test]
fn request_connect_timeout_covers_the_race() {
    let connector = Plain::new();
    let (_, started): (_, Started) = connector.connect_with_options(
        uri("http://example.test/"),
        false,
        RequestOptions::new().with_connect_timeout(Duration::ZERO),
    );
    let asked = lookup(phases(started));
    assert_eq!(asked.timeout(), None);
    let tcp = race(asked.resolved(Ok(vec![peer()])));
    assert_eq!(tcp.timeout(), Some(Duration::ZERO));
    assert!(matches!(
        failure(tcp.timed_out()),
        ConnectError::ConnectTimeout
    ));
}

#[test]
fn tcp_dialer_bypasses_a_custom_resolver() {
    let connector = Plain::builder()
        .resolver("resolver")
        .tcp_dialer("dialer")
        .build();
    let (_, started) = begin(&connector, "http://127.0.0.1:8080/", false);
    let info = done(dial(phases(started)).dialed(Ok((None, None))));
    assert_eq!(info.protocol(), ConnectionProtocol::Http1);
}

#[test]
fn the_dialer_that_was_set_last_wins() {
    let connector = Plain::builder().tcp_dialer("tcp").dialer("whole").build();
    assert!(matches!(connector.kind(), ConnectorKind::Custom("whole")));
    let connector = Plain::builder().dialer("whole").tcp_dialer("tcp").build();
    assert!(matches!(connector.kind(), ConnectorKind::Tcp("tcp")));
}

#[test]
fn the_standard_connector_staggers_by_a_quarter_second() {
    let connector = Plain::default();
    let (_, started) = begin(&connector, "http://example.test/", false);
    let v6 = SocketAddress::V6 {
        segments: [0, 0, 0, 0, 0, 0, 0, 1],
        port: 80,
        flowinfo: 0,
        scope_id: 0,
    };
    let tcp = race(lookup(phases(started)).resolved(Ok(vec![peer(), v6])));
    let mut candidates = tcp.race::<String>();
    assert!(matches!(candidates.next_action(), RaceAction::Start(address) if address == v6));
    assert!(matches!(
        candidates.next_action(),
        RaceAction::Wait { delay: Some(delay) } if delay == Duration::from_millis(250)
    ));
}

#[test]
fn racing_can_be_turned_off() {
    let connector = Plain::builder().happy_eyeballs_timeout(None).build();
    let (_, started) = begin(&connector, "http://example.test/", false);
    let v6 = SocketAddress::V6 {
        segments: [0, 0, 0, 0, 0, 0, 0, 1],
        port: 80,
        flowinfo: 0,
        scope_id: 0,
    };
    let tcp = race(lookup(phases(started)).resolved(Ok(vec![peer(), v6])));
    let mut candidates = tcp.race::<String>();
    candidates.next_action();
    assert!(matches!(
        candidates.next_action(),
        RaceAction::Wait { delay: None }
    ));
}

#[test]
fn failures_of_each_phase_keep_their_cause() {
    let connector = Plain::new();
    let (_, started) = begin(&connector, "https://example.test/", false);
    let error = failure(lookup(phases(started)).resolved(Err("no such host".to_owned())));
    assert!(matches!(&error, ConnectError::Resolve(cause) if cause == "no such host"));
    assert_eq!(error.client_error_kind(), ErrorKind::Connect);

    let (_, started) = begin(&connector, "https://example.test/", false);
    let tcp = race(lookup(phases(started)).resolved(Ok(vec![peer()])));
    let error = failure(tcp.connected(Err(NoConnection::Attempt("refused".to_owned()))));
    assert!(matches!(
        &error,
        ConnectError::Connect(NoConnection::Attempt(cause)) if cause == "refused"
    ));
    assert_eq!(error.client_error_kind(), ErrorKind::Connect);

    let (_, started) = begin(&connector, "https://example.test/", false);
    let tcp = race(lookup(phases(started)).resolved(Ok(vec![peer()])));
    let tls = negotiation(tcp.connected(Ok((None, None))));
    let error = failure(tls.negotiated(Err("bad certificate".to_owned())));
    assert!(matches!(&error, ConnectError::Tls(cause) if cause == "bad certificate"));
    assert_eq!(error.client_error_kind(), ErrorKind::Tls);
}

#[test]
fn a_host_that_is_no_server_name_fails_after_the_stream_is_there() {
    let connector = Plain::with_tcp_dialer("dialer");
    let (_, started) = begin(&connector, "https://under_score-.test/", false);
    let step = dial(phases(started)).dialed(Ok((None, None)));
    let error = failure(step);
    assert!(matches!(&error, ConnectError::InvalidServerName(host) if host == "under_score-.test"));
    assert_eq!(
        error.message().unwrap(),
        "invalid TLS server name \"under_score-.test\""
    );
    assert_eq!(error.client_error_kind(), ErrorKind::Tls);
}

#[test]
fn plain_connections_speak_what_is_required() {
    let connector = Plain::with_tcp_dialer("dialer");
    let (_, started) = begin(&connector, "http://example.test/", true);
    let info = done(dial(phases(started)).dialed(Ok((None, None))));
    assert_eq!(info.protocol(), ConnectionProtocol::Http2);
}

#[test]
fn alpn_selects_the_protocol() {
    let selected = |alpn: Option<&[u8]>, required: bool| {
        select_protocol::<(), ()>(alpn.map(<[u8]>::to_vec), required)
    };
    assert!(matches!(
        selected(Some(b"h2"), true),
        Ok(ConnectionProtocol::Http2)
    ));
    assert!(matches!(
        selected(Some(b"h2"), false),
        Ok(ConnectionProtocol::Http2)
    ));
    assert!(matches!(
        selected(Some(b"http/1.1"), false),
        Ok(ConnectionProtocol::Http1)
    ));
    assert!(matches!(selected(None, false), Ok(ConnectionProtocol::Http1)));
    assert!(matches!(
        selected(None, true),
        Err(ConnectError::RequiredHttp2NotNegotiated)
    ));
    assert!(matches!(
        selected(Some(b"http/1.1"), true),
        Err(ConnectError::UnexpectedAlpn(protocol)) if protocol == b"http/1.1"
    ));
    assert!(matches!(
        selected(Some(b"h3"), false),
        Err(ConnectError::UnexpectedAlpn(protocol)) if protocol == b"h3"
    ));
}

#[test]
fn negotiation_finishes_with_the_selected_protocol() {
    let connector = Plain::with_tcp_dialer("dialer");
    let (_, started) = begin(&connector, "https://example.test/", false);
    let tls = negotiation(dial(phases(started)).dialed(Ok((Some(local()), Some(peer())))));
    let info = done(tls.negotiated(Ok(Some(b"h2".to_vec()))));
    assert_eq!(info.protocol(), ConnectionProtocol::Http2);
    assert_eq!(info.local_addr(), Some(local()));
    assert_eq!(info.peer_addr(), Some(peer()));
    assert_eq!(info.connect_duration(), None);
}

#[test]
fn a_relative_target_has_no_route() {
    let connector = Plain::new();
    let (_, started) = begin(&connector, "/only-a-path", false);
    assert!(matches!(
        failure(phases(started)),
        ConnectError::MissingHost
    ));
    let (_, started) = begin(&connector, "example.test:80", false);
    assert!(matches!(
        failure(phases(started)),
        ConnectError::UnsupportedScheme(scheme) if scheme.is_empty()
    ));
}

#[test]
fn every_establishment_failure_has_a_kind_and_a_sentence() {
    type Failed = ConnectError<&'static str, &'static str>;
    let cases: Vec<(Failed, ErrorKind, Option<&'static str>)> = vec![
        (
            ConnectError::MissingHost,
            ErrorKind::Connect,
            Some("URI has no host"),
        ),
        (
            ConnectError::UnsupportedScheme("f\"tp".to_owned()),
            ErrorKind::UnsupportedScheme,
            Some("unsupported URI scheme \"f\\\"tp\""),
        ),
        (
            ConnectError::TlsDisabled,
            ErrorKind::Tls,
            Some("HTTPS requires the `tls` feature"),
        ),
        (
            ConnectError::InvalidServerName("a b".to_owned()),
            ErrorKind::Tls,
            Some("invalid TLS server name \"a b\""),
        ),
        (
            ConnectError::UnexpectedAlpn(vec![104, 51]),
            ErrorKind::Alpn,
            Some("server selected unsupported ALPN [104, 51]"),
        ),
        (
            ConnectError::UnexpectedAlpn(Vec::new()),
            ErrorKind::Alpn,
            Some("server selected unsupported ALPN []"),
        ),
        (
            ConnectError::UnexpectedAlpn(vec![0, 255, 10]),
            ErrorKind::Alpn,
            Some("server selected unsupported ALPN [0, 255, 10]"),
        ),
        (
            ConnectError::RequiredHttp2NotNegotiated,
            ErrorKind::Alpn,
            Some("HTTP/2 was required but ALPN did not select h2"),
        ),
        (
            ConnectError::Connect(NoConnection::NoAddress),
            ErrorKind::Connect,
            Some("could not connect to any of the resolved addresses"),
        ),
        (
            ConnectError::Connect(NoConnection::Attempt("refused")),
            ErrorKind::Connect,
            None,
        ),
        (ConnectError::Resolve("x"), ErrorKind::Connect, None),
        (ConnectError::Custom("x"), ErrorKind::Connect, None),
        (ConnectError::Tls("x"), ErrorKind::Tls, None),
        (
            ConnectError::DnsTimeout,
            ErrorKind::DnsTimeout,
            Some("DNS resolution timed out"),
        ),
        (
            ConnectError::ConnectTimeout,
            ErrorKind::ConnectTimeout,
            Some("TCP connection establishment timed out"),
        ),
        (
            ConnectError::TlsTimeout,
            ErrorKind::TlsTimeout,
            Some("TLS negotiation timed out"),
        ),
        (
            ConnectError::Timeout,
            ErrorKind::Connect,
            Some("connection establishment timed out"),
        ),
    ];
    for (error, kind, sentence) in cases {
        assert_eq!(error.client_error_kind(), kind);
        assert_eq!(error.message().as_deref(), sentence);
    }
}

#[test]
fn dialers_can_attach_addresses() {
    let tcp = TcpConnected::new("stream").with_addresses(Some(local()), None);
    assert_eq!(tcp.into_parts(), ("stream", Some(local()), None));
    let connected = Connected::new("stream", ConnectionProtocol::Http1)
        .with_addresses(Some(local()), Some(peer()));
    assert_eq!(connected.protocol(), ConnectionProtocol::Http1);
    assert_eq!(connected.info().local_addr(), Some(local()));
    assert_eq!(connected.info().peer_addr(), Some(peer()));
}
