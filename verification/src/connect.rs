//! Outcomes of connection establishment.

use vstd::prelude::*;

use crate::address::SocketAddress;
use crate::error::ErrorKind;
use crate::info::{ConnectionFacts, ConnectionInfo, ConnectionProtocol};
use crate::race::{no_address_text, NoConnection};
use crate::text::{byte_list_text, list_bytes, same_bytes};
use crate::tls::{alpn_h2, alpn_http11, h2_protocol, http11_protocol};

verus! {

/// Why a connection was not established. `X` is what a dialer or resolver
/// reports, `E` what a socket or TLS stream reports.
#[derive(Debug)]
pub enum ConnectError<X, E> {
    MissingHost,
    UnsupportedScheme(String),
    /// HTTPS was asked for where there is no TLS policy.
    TlsDisabled,
    InvalidServerName(String),
    UnexpectedAlpn(Vec<u8>),
    RequiredHttp2NotNegotiated,
    Connect(NoConnection<E>),
    Resolve(X),
    Custom(X),
    DnsTimeout,
    ConnectTimeout,
    TlsTimeout,
    Timeout,
    Tls(E),
}

/// What a [`ConnectError`] stands for.
pub ghost enum ConnectFailure<X, E> {
    MissingHost,
    UnsupportedScheme(Seq<char>),
    TlsDisabled,
    InvalidServerName(Seq<char>),
    UnexpectedAlpn(Seq<u8>),
    RequiredHttp2NotNegotiated,
    Connect(NoConnection<E>),
    Resolve(X),
    Custom(X),
    DnsTimeout,
    ConnectTimeout,
    TlsTimeout,
    Timeout,
    Tls(E),
}

impl<X, E> View for ConnectError<X, E> {
    type V = ConnectFailure<X, E>;

    open spec fn view(&self) -> ConnectFailure<X, E> {
        match *self {
            ConnectError::MissingHost => ConnectFailure::MissingHost,
            ConnectError::UnsupportedScheme(scheme) => ConnectFailure::UnsupportedScheme(scheme@),
            ConnectError::TlsDisabled => ConnectFailure::TlsDisabled,
            ConnectError::InvalidServerName(host) => ConnectFailure::InvalidServerName(host@),
            ConnectError::UnexpectedAlpn(protocol) => ConnectFailure::UnexpectedAlpn(protocol@),
            ConnectError::RequiredHttp2NotNegotiated => ConnectFailure::RequiredHttp2NotNegotiated,
            ConnectError::Connect(error) => ConnectFailure::Connect(error),
            ConnectError::Resolve(error) => ConnectFailure::Resolve(error),
            ConnectError::Custom(error) => ConnectFailure::Custom(error),
            ConnectError::DnsTimeout => ConnectFailure::DnsTimeout,
            ConnectError::ConnectTimeout => ConnectFailure::ConnectTimeout,
            ConnectError::TlsTimeout => ConnectFailure::TlsTimeout,
            ConnectError::Timeout => ConnectFailure::Timeout,
            ConnectError::Tls(error) => ConnectFailure::Tls(error),
        }
    }
}

/// The text that Rust's debug formatting gives a string: quoted, with escapes.
pub uninterp spec fn quoted_text(text: Seq<char>) -> Seq<char>;

/// Calls `<str as std::fmt::Debug>::fmt` through `format!`.
///
/// Taken on trust: what comes out is a function of the text.
#[verifier::external_body]
fn quote(text: &str) -> (quoted: String)
    ensures
        quoted@ == quoted_text(text@),
{
    format!("{text:?}")
}

impl<X, E> ConnectFailure<X, E> {
    /// The classification that the client reports.
    pub open spec fn kind(self) -> ErrorKind {
        match self {
            ConnectFailure::UnsupportedScheme(_) => ErrorKind::UnsupportedScheme,
            ConnectFailure::UnexpectedAlpn(_) => ErrorKind::Alpn,
            ConnectFailure::RequiredHttp2NotNegotiated => ErrorKind::Alpn,
            ConnectFailure::InvalidServerName(_) => ErrorKind::Tls,
            ConnectFailure::Tls(_) => ErrorKind::Tls,
            ConnectFailure::TlsDisabled => ErrorKind::Tls,
            ConnectFailure::MissingHost => ErrorKind::Connect,
            ConnectFailure::Connect(_) => ErrorKind::Connect,
            ConnectFailure::Resolve(_) => ErrorKind::Connect,
            ConnectFailure::Custom(_) => ErrorKind::Connect,
            ConnectFailure::Timeout => ErrorKind::Connect,
            ConnectFailure::DnsTimeout => ErrorKind::DnsTimeout,
            ConnectFailure::ConnectTimeout => ErrorKind::ConnectTimeout,
            ConnectFailure::TlsTimeout => ErrorKind::TlsTimeout,
        }
    }

    /// The sentence for this failure; `None` where the underlying error speaks
    /// for itself.
    pub open spec fn text(self) -> Option<Seq<char>> {
        match self {
            ConnectFailure::MissingHost => Some("URI has no host"@),
            ConnectFailure::UnsupportedScheme(scheme) => Some(
                "unsupported URI scheme "@ + quoted_text(scheme),
            ),
            ConnectFailure::TlsDisabled => Some("HTTPS requires the `tls` feature"@),
            ConnectFailure::InvalidServerName(host) => Some(
                "invalid TLS server name "@ + quoted_text(host),
            ),
            ConnectFailure::UnexpectedAlpn(protocol) => Some(
                "server selected unsupported ALPN "@ + byte_list_text(protocol),
            ),
            ConnectFailure::RequiredHttp2NotNegotiated => Some(
                "HTTP/2 was required but ALPN did not select h2"@,
            ),
            ConnectFailure::Connect(NoConnection::NoAddress) => Some(
                "could not connect to any of the resolved addresses"@,
            ),
            ConnectFailure::Connect(NoConnection::Attempt(_)) => None,
            ConnectFailure::Resolve(_) => None,
            ConnectFailure::Custom(_) => None,
            ConnectFailure::Tls(_) => None,
            ConnectFailure::DnsTimeout => Some("DNS resolution timed out"@),
            ConnectFailure::ConnectTimeout => Some("TCP connection establishment timed out"@),
            ConnectFailure::TlsTimeout => Some("TLS negotiation timed out"@),
            ConnectFailure::Timeout => Some("connection establishment timed out"@),
        }
    }
}

impl<X, E> ConnectError<X, E> {
    /// The classification that the client reports for this failure.
    pub fn client_error_kind(&self) -> (kind: ErrorKind)
        ensures
            kind == self@.kind(),
    {
        match self {
            ConnectError::UnsupportedScheme(_) => ErrorKind::UnsupportedScheme,
            ConnectError::UnexpectedAlpn(_) => ErrorKind::Alpn,
            ConnectError::RequiredHttp2NotNegotiated => ErrorKind::Alpn,
            ConnectError::InvalidServerName(_) => ErrorKind::Tls,
            ConnectError::Tls(_) => ErrorKind::Tls,
            ConnectError::TlsDisabled => ErrorKind::Tls,
            ConnectError::MissingHost => ErrorKind::Connect,
            ConnectError::Connect(_) => ErrorKind::Connect,
            ConnectError::Resolve(_) => ErrorKind::Connect,
            ConnectError::Custom(_) => ErrorKind::Connect,
            ConnectError::Timeout => ErrorKind::Connect,
            ConnectError::DnsTimeout => ErrorKind::DnsTimeout,
            ConnectError::ConnectTimeout => ErrorKind::ConnectTimeout,
            ConnectError::TlsTimeout => ErrorKind::TlsTimeout,
        }
    }

    /// The sentence for this failure; `None` where the underlying error speaks
    /// for itself.
    pub fn message(&self) -> (text: Option<String>)
        ensures
            match text {
                Some(text) => self@.text() == Some(text@),
                None => self@.text() is None,
            },
    {
        match self {
            ConnectError::MissingHost => Some("URI has no host".to_owned()),
            ConnectError::UnsupportedScheme(scheme) => {
                let mut text = "unsupported URI scheme ".to_owned();
                text.append(quote(scheme.as_str()).as_str());
                Some(text)
            },
            ConnectError::TlsDisabled => Some("HTTPS requires the `tls` feature".to_owned()),
            ConnectError::InvalidServerName(host) => {
                let mut text = "invalid TLS server name ".to_owned();
                text.append(quote(host.as_str()).as_str());
                Some(text)
            },
            ConnectError::UnexpectedAlpn(protocol) => {
                let mut text = "server selected unsupported ALPN ".to_owned();
                text.append(list_bytes(protocol.as_slice()).as_str());
                Some(text)
            },
            ConnectError::RequiredHttp2NotNegotiated => Some(
                "HTTP/2 was required but ALPN did not select h2".to_owned(),
            ),
            ConnectError::DnsTimeout => Some("DNS resolution timed out".to_owned()),
            ConnectError::ConnectTimeout => Some(
                "TCP connection establishment timed out".to_owned(),
            ),
            ConnectError::TlsTimeout => Some("TLS negotiation timed out".to_owned()),
            ConnectError::Timeout => Some("connection establishment timed out".to_owned()),
            ConnectError::Connect(NoConnection::NoAddress) => Some(no_address_text().to_owned()),
            ConnectError::Connect(NoConnection::Attempt(_)) => None,
            ConnectError::Resolve(_) => None,
            ConnectError::Custom(_) => None,
            ConnectError::Tls(_) => None,
        }
    }
}

/// A stream that a TCP dialer has established.
pub struct TcpConnected<I> {
    io: I,
    local_addr: Option<SocketAddress>,
    peer_addr: Option<SocketAddress>,
}

impl<I> TcpConnected<I> {
    /// The stream.
    pub closed spec fn stream(self) -> I {
        self.io
    }

    /// The local and the peer address, as far as they are known.
    pub closed spec fn addresses(self) -> (Option<SocketAddress>, Option<SocketAddress>) {
        (self.local_addr, self.peer_addr)
    }

    /// Wraps an established stream.
    pub fn new(io: I) -> (connected: Self)
        ensures
            connected.stream() == io,
            connected.addresses() == (None::<SocketAddress>, None::<SocketAddress>),
    {
        TcpConnected { io, local_addr: None, peer_addr: None }
    }

    /// Attaches socket addresses known by a custom transport.
    pub fn with_addresses(
        self,
        local_addr: Option<SocketAddress>,
        peer_addr: Option<SocketAddress>,
    ) -> (connected: Self)
        ensures
            connected.stream() == self.stream(),
            connected.addresses() == (local_addr, peer_addr),
    {
        TcpConnected { io: self.io, local_addr, peer_addr }
    }

    /// Takes the stream and its addresses apart.
    pub fn into_parts(self) -> (parts: (I, Option<SocketAddress>, Option<SocketAddress>))
        ensures
            parts.0 == self.stream(),
            (parts.1, parts.2) == self.addresses(),
    {
        (self.io, self.local_addr, self.peer_addr)
    }
}

/// A connection that is ready for its HTTP handshake.
///
/// Whoever established it declares the HTTP capability that was selected; it is
/// never inferred from the stream.
pub struct Connected<I> {
    io: I,
    protocol: ConnectionProtocol,
    info: ConnectionInfo,
}

impl<I> Connected<I> {
    /// The stream.
    pub closed spec fn stream(self) -> I {
        self.io
    }

    /// The declared protocol.
    pub closed spec fn spec_protocol(self) -> ConnectionProtocol {
        self.protocol
    }

    /// What is known of the connection.
    pub closed spec fn facts(self) -> ConnectionFacts {
        self.info@
    }

    /// Wraps a transport stream and its negotiated HTTP capability.
    pub fn new(io: I, protocol: ConnectionProtocol) -> (connected: Self)
        ensures
            connected.stream() == io,
            connected.spec_protocol() == protocol,
            connected.facts() == ConnectionFacts::bare(protocol),
    {
        Connected { io, protocol, info: ConnectionInfo::new(protocol) }
    }

    /// Returns the protocol capability selected during establishment.
    pub fn protocol(&self) -> (protocol: ConnectionProtocol)
        ensures
            protocol == self.spec_protocol(),
    {
        self.protocol
    }

    /// What is known of the connection.
    pub fn info(&self) -> (info: ConnectionInfo)
        ensures
            info@ == self.facts(),
    {
        self.info
    }

    /// Attaches socket addresses known by a custom transport.
    pub fn with_addresses(
        self,
        local_addr: Option<SocketAddress>,
        peer_addr: Option<SocketAddress>,
    ) -> (connected: Self)
        ensures
            connected.stream() == self.stream(),
            connected.spec_protocol() == self.spec_protocol(),
            connected.facts() == (ConnectionFacts {
                local: local_addr,
                peer: peer_addr,
                ..self.facts()
            }),
    {
        Connected {
            io: self.io,
            protocol: self.protocol,
            info: self.info.with_addresses(local_addr, peer_addr),
        }
    }

    /// Takes the stream and what is known of it apart.
    pub fn into_parts(self) -> (parts: (I, ConnectionProtocol, ConnectionInfo))
        ensures
            parts.0 == self.stream(),
            parts.1 == self.spec_protocol(),
            parts.2@ == self.facts(),
    {
        (self.io, self.protocol, self.info)
    }
}

/// The protocol that an ALPN outcome stands for, or why it cannot be used.
///
/// A peer that selected nothing speaks HTTP/1, unless HTTP/2 was required.
pub open spec fn alpn_outcome<X, E>(alpn: Option<Seq<u8>>, require_http2: bool) -> Result<
    ConnectionProtocol,
    ConnectFailure<X, E>,
> {
    match alpn {
        Some(protocol) => if protocol == alpn_h2() {
            Ok(ConnectionProtocol::Http2)
        } else if protocol == alpn_http11() && !require_http2 {
            Ok(ConnectionProtocol::Http1)
        } else {
            Err(ConnectFailure::UnexpectedAlpn(protocol))
        },
        None => if require_http2 {
            Err(ConnectFailure::RequiredHttp2NotNegotiated)
        } else {
            Ok(ConnectionProtocol::Http1)
        },
    }
}

/// Reads the outcome of ALPN.
pub fn select_protocol<X, E>(alpn: Option<Vec<u8>>, require_http2: bool) -> (selected: Result<
    ConnectionProtocol,
    ConnectError<X, E>,
>)
    ensures
        match alpn_outcome::<X, E>(
            match alpn {
                Some(protocol) => Some(protocol@),
                None => None,
            },
            require_http2,
        ) {
            Ok(protocol) => selected == Ok::<_, ConnectError<X, E>>(protocol),
            Err(failure) => selected matches Err(error) && error@ == failure,
        },
{
    match alpn {
        Some(protocol) => {
            if same_bytes(protocol.as_slice(), h2_protocol().as_slice()) {
                Ok(ConnectionProtocol::Http2)
            } else if same_bytes(protocol.as_slice(), http11_protocol().as_slice())
                && !require_http2 {
                Ok(ConnectionProtocol::Http1)
            } else {
                Err(ConnectError::UnexpectedAlpn(protocol))
            }
        },
        None => {
            if require_http2 {
                Err(ConnectError::RequiredHttp2NotNegotiated)
            } else {
                Ok(ConnectionProtocol::Http1)
            }
        },
    }
}

/// An ALPN outcome is read by the bytes that the peer selected: `h2` is HTTP/2,
/// `http/1.1` or nothing is HTTP/1 unless HTTP/2 was required, and anything else is
/// refused with the bytes themselves.
pub proof fn selected_bytes_decide_the_protocol<X, E>(
    alpn: Option<Vec<u8>>,
    require_http2: bool,
    selected: Result<ConnectionProtocol, ConnectError<X, E>>,
)
    requires
        call_ensures(select_protocol::<X, E>, (alpn, require_http2), selected),
    ensures
        selected == Ok::<_, ConnectError<X, E>>(ConnectionProtocol::Http2) <==> (
        alpn matches Some(protocol) && protocol@ == seq![104u8, 50u8]),
        selected == Ok::<_, ConnectError<X, E>>(ConnectionProtocol::Http1) <==> !require_http2 && (
        alpn matches Some(protocol) ==> protocol@ == seq![
            104u8,
            116u8,
            116u8,
            112u8,
            47u8,
            49u8,
            46u8,
            49u8,
        ]),
        selected matches Err(error) ==> match alpn {
            Some(protocol) => error@ == ConnectFailure::<X, E>::UnexpectedAlpn(protocol@),
            None => error@ is RequiredHttp2NotNegotiated,
        },
        require_http2 && selected is Ok ==> selected->Ok_0 == ConnectionProtocol::Http2,
{
    assert(alpn_h2().len() != alpn_http11().len());
}

/// How a failure is classified depends on its sort alone: each deadline of a phase
/// has a class of its own, what concerns TLS and ALPN has theirs, a scheme that is
/// not supported is called so, and all else is a failed connection.
pub proof fn failures_are_classified_by_their_sort<X, E>(
    error: ConnectError<X, E>,
    kind: ErrorKind,
)
    requires
        call_ensures(ConnectError::<X, E>::client_error_kind, (&error,), kind),
    ensures
        kind == ErrorKind::UnsupportedScheme <==> error is UnsupportedScheme,
        kind == ErrorKind::DnsTimeout <==> error is DnsTimeout,
        kind == ErrorKind::ConnectTimeout <==> error is ConnectTimeout,
        kind == ErrorKind::TlsTimeout <==> error is TlsTimeout,
        kind == ErrorKind::Alpn <==> error is UnexpectedAlpn || error is RequiredHttp2NotNegotiated,
        kind == ErrorKind::Tls <==> error is InvalidServerName || error is Tls
            || error is TlsDisabled,
        kind == ErrorKind::Connect <==> error is MissingHost || error is Connect || error is Resolve
            || error is Custom || error is Timeout,
{
}

/// A failure speaks for itself exactly where it carries the error of a dialer, a
/// resolver, a socket or a TLS stream. Otherwise it has a sentence, which names the
/// offending scheme, host or protocol where there is one.
pub proof fn failures_name_what_offends<X, E>(error: ConnectError<X, E>, text: Option<String>)
    requires
        call_ensures(ConnectError::<X, E>::message, (&error,), text),
    ensures
        text is None <==> error is Resolve || error is Custom || error is Tls || (
        error matches ConnectError::Connect(cause) && cause is Attempt),
        error matches ConnectError::UnsupportedScheme(scheme) ==> (text->0)@
            == "unsupported URI scheme "@ + quoted_text(scheme@),
        error matches ConnectError::InvalidServerName(host) ==> (text->0)@
            == "invalid TLS server name "@ + quoted_text(host@),
        error matches ConnectError::UnexpectedAlpn(protocol) ==> (text->0)@
            == "server selected unsupported ALPN "@ + byte_list_text(protocol@),
{
}

/// A stream keeps the protocol that was declared for it and the addresses that were
/// attached, and comes apart into them again. A new one knows nothing else.
pub proof fn streams_keep_what_is_attached<I>(
    io: I,
    protocol: ConnectionProtocol,
    wrapped: Connected<I>,
    local: Option<SocketAddress>,
    peer: Option<SocketAddress>,
    attached: Connected<I>,
    parts: (I, ConnectionProtocol, ConnectionInfo),
    tcp: (TcpConnected<I>, TcpConnected<I>),
    tcp_parts: (I, Option<SocketAddress>, Option<SocketAddress>),
)
    requires
        call_ensures(Connected::<I>::new, (io, protocol), wrapped),
        call_ensures(Connected::<I>::with_addresses, (wrapped, local, peer), attached),
        call_ensures(Connected::<I>::into_parts, (attached,), parts),
        call_ensures(TcpConnected::<I>::new, (io,), tcp.0),
        call_ensures(TcpConnected::<I>::with_addresses, (tcp.0, local, peer), tcp.1),
        call_ensures(TcpConnected::<I>::into_parts, (tcp.1,), tcp_parts),
    ensures
        parts.0 == io,
        parts.1 == protocol,
        parts.2@.protocol == protocol,
        parts.2@.local == local,
        parts.2@.peer == peer,
        parts.2@.connect_duration is None,
        parts.2@.handshake_duration is None,
        tcp_parts == (io, local, peer),
{
}

} // verus!
