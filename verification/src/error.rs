//! Classified client errors.

use vstd::prelude::*;

verus! {

/// Why a request failed, independent of the connector and protocol types that
/// noticed it.
#[derive(Debug, Clone, Copy, PartialEq, Eq, Structural)]
#[non_exhaustive]
pub enum ErrorKind {
    Canceled,
    UnsupportedScheme,
    /// The per-request DNS phase exceeded its deadline.
    DnsTimeout,
    /// The per-request TCP establishment phase exceeded its deadline.
    ConnectTimeout,
    /// The per-request TLS and ALPN phase exceeded its deadline.
    TlsTimeout,
    /// The per-request dispatch and response-header phase exceeded its deadline.
    HeadersTimeout,
    Connect,
    Tls,
    Alpn,
    Handshake,
    SendRequest,
    UnsupportedMethod,
    UnsupportedVersion,
    AbsoluteUriRequired,
    ProtocolUnavailable,
}

impl ErrorKind {
    /// The sentence shown for this kind.
    pub open spec fn text(self) -> Seq<char> {
        match self {
            ErrorKind::Canceled => "request was cancelled before it could be sent"@,
            ErrorKind::UnsupportedScheme => "request URI scheme is unsupported"@,
            ErrorKind::DnsTimeout => "DNS resolution timed out"@,
            ErrorKind::ConnectTimeout => "TCP connection establishment timed out"@,
            ErrorKind::TlsTimeout => "TLS negotiation timed out"@,
            ErrorKind::HeadersTimeout => "request dispatch or response headers timed out"@,
            ErrorKind::Connect => "connection establishment failed"@,
            ErrorKind::Tls => "TLS negotiation or certificate validation failed"@,
            ErrorKind::Alpn => "TLS ALPN did not select an allowed HTTP protocol"@,
            ErrorKind::Handshake => "HTTP connection handshake failed"@,
            ErrorKind::SendRequest => "request dispatch failed"@,
            ErrorKind::UnsupportedMethod => "request method is unsupported for this HTTP version"@,
            ErrorKind::UnsupportedVersion => "request HTTP version is unsupported"@,
            ErrorKind::AbsoluteUriRequired => "client requests require an absolute URI"@,
            ErrorKind::ProtocolUnavailable =>
                "the selected protocol was not enabled in this build"@,
        }
    }
}

/// A classified failure together with what caused it, where there is a cause.
#[derive(Debug)]
pub struct Error<S> {
    kind: ErrorKind,
    source: Option<S>,
}

/// What an [`Error`] stands for.
pub ghost struct Failure<S> {
    pub kind: ErrorKind,
    pub cause: Option<S>,
}

impl<S> View for Error<S> {
    type V = Failure<S>;

    closed spec fn view(&self) -> Failure<S> {
        Failure { kind: self.kind, cause: self.source }
    }
}

impl<S> Failure<S> {
    /// A failure with no recorded cause.
    pub open spec fn plain(kind: ErrorKind) -> Failure<S> {
        Failure { kind, cause: None }
    }

    /// A failure that keeps its cause.
    pub open spec fn caused(kind: ErrorKind, cause: S) -> Failure<S> {
        Failure { kind, cause: Some(cause) }
    }
}

impl<S> Error<S> {
    /// An error with no recorded cause.
    pub fn new(kind: ErrorKind) -> (error: Self)
        ensures
            error@ == Failure::<S>::plain(kind),
    {
        Error { kind, source: None }
    }

    /// An error that keeps its cause.
    pub fn with_source(kind: ErrorKind, source: S) -> (error: Self)
        ensures
            error@ == Failure::caused(kind, source),
    {
        Error { kind, source: Some(source) }
    }

    pub fn kind(&self) -> (kind: ErrorKind)
        ensures
            kind == self@.kind,
    {
        self.kind
    }

    /// Borrows the recorded cause.
    pub fn source(&self) -> (source: Option<&S>)
        ensures
            source == (match self@.cause {
                Some(cause) => Some(&cause),
                None => None,
            }),
    {
        self.source.as_ref()
    }

    /// Splits the error into its classification and its cause.
    pub fn into_parts(self) -> (parts: (ErrorKind, Option<S>))
        ensures
            parts == (self@.kind, self@.cause),
    {
        (self.kind, self.source)
    }

    /// The sentence that describes this error to a person. The cause does not
    /// take part in it.
    pub fn message(&self) -> (text: &'static str)
        ensures
            text@ == self@.kind.text(),
    {
        match self.kind {
            ErrorKind::Canceled => "request was cancelled before it could be sent",
            ErrorKind::UnsupportedScheme => "request URI scheme is unsupported",
            ErrorKind::DnsTimeout => "DNS resolution timed out",
            ErrorKind::ConnectTimeout => "TCP connection establishment timed out",
            ErrorKind::TlsTimeout => "TLS negotiation timed out",
            ErrorKind::HeadersTimeout => "request dispatch or response headers timed out",
            ErrorKind::Connect => "connection establishment failed",
            ErrorKind::Tls => "TLS negotiation or certificate validation failed",
            ErrorKind::Alpn => "TLS ALPN did not select an allowed HTTP protocol",
            ErrorKind::Handshake => "HTTP connection handshake failed",
            ErrorKind::SendRequest => "request dispatch failed",
            ErrorKind::UnsupportedMethod => "request method is unsupported for this HTTP version",
            ErrorKind::UnsupportedVersion => "request HTTP version is unsupported",
            ErrorKind::AbsoluteUriRequired => "client requests require an absolute URI",
            ErrorKind::ProtocolUnavailable =>
                "the selected protocol was not enabled in this build",
        }
    }
}

/// An error keeps its class and its cause, and an error without a cause has none.
pub proof fn errors_keep_their_cause<S>(
    kind: ErrorKind,
    source: S,
    plain: Error<S>,
    caused: Error<S>,
    parts: ((ErrorKind, Option<S>), (ErrorKind, Option<S>)),
)
    requires
        call_ensures(Error::<S>::new, (kind,), plain),
        call_ensures(Error::<S>::with_source, (kind, source), caused),
        call_ensures(Error::<S>::into_parts, (plain,), parts.0),
        call_ensures(Error::<S>::into_parts, (caused,), parts.1),
    ensures
        parts.0 == (kind, None::<S>),
        parts.1 == (kind, Some(source)),
{
}

} // verus!
