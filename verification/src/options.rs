//! Deadlines that belong to one request.

use std::time::Duration;

use vstd::prelude::*;

verus! {

/// Optional deadlines for one request's transport phases.
///
/// These values are never stored in the client or its origin pool. A reused
/// connection skips the DNS, TCP, TLS and ALPN phases, while every request has
/// a race of its own against `headers_timeout`. There is no whole-request
/// deadline: a caller that streams a response body keeps the body-idle contract
/// at its own boundary.
#[derive(Clone, Copy, Debug, PartialEq, Eq)]
pub struct RequestOptions {
    dns_timeout: Option<Duration>,
    connect_timeout: Option<Duration>,
    tls_timeout: Option<Duration>,
    headers_timeout: Option<Duration>,
}

/// The four deadlines of a [`RequestOptions`].
pub ghost struct Deadlines {
    pub dns: Option<Duration>,
    pub connect: Option<Duration>,
    pub tls: Option<Duration>,
    pub headers: Option<Duration>,
}

impl View for RequestOptions {
    type V = Deadlines;

    closed spec fn view(&self) -> Deadlines {
        Deadlines {
            dns: self.dns_timeout,
            connect: self.connect_timeout,
            tls: self.tls_timeout,
            headers: self.headers_timeout,
        }
    }
}

impl Deadlines {
    /// No deadline at all.
    pub open spec fn none() -> Deadlines {
        Deadlines { dns: None, connect: None, tls: None, headers: None }
    }

    /// Whether any phase of connection establishment has a deadline.
    pub open spec fn limits_establishment(self) -> bool {
        self.dns is Some || self.connect is Some || self.tls is Some
    }
}

impl RequestOptions {
    /// Starts with no request-scoped phase deadlines.
    pub fn new() -> (options: Self)
        ensures
            options@ == Deadlines::none(),
    {
        RequestOptions {
            dns_timeout: None,
            connect_timeout: None,
            tls_timeout: None,
            headers_timeout: None,
        }
    }

    /// Limits DNS resolution for the default direct-origin connector.
    pub fn with_dns_timeout(self, timeout: Duration) -> (options: Self)
        ensures
            options@ == (Deadlines { dns: Some(timeout), ..self@ }),
    {
        RequestOptions { dns_timeout: Some(timeout), ..self }
    }

    /// Returns the DNS deadline selected for this request.
    pub fn dns_timeout(self) -> (timeout: Option<Duration>)
        ensures
            timeout == self@.dns,
    {
        self.dns_timeout
    }

    /// Limits aggregate TCP establishment across all resolved addresses.
    pub fn with_connect_timeout(self, timeout: Duration) -> (options: Self)
        ensures
            options@ == (Deadlines { connect: Some(timeout), ..self@ }),
    {
        RequestOptions { connect_timeout: Some(timeout), ..self }
    }

    /// Returns the aggregate TCP-establishment deadline selected for this request.
    pub fn connect_timeout(self) -> (timeout: Option<Duration>)
        ensures
            timeout == self@.connect,
    {
        self.connect_timeout
    }

    /// Limits TLS negotiation and ALPN after TCP is established.
    pub fn with_tls_timeout(self, timeout: Duration) -> (options: Self)
        ensures
            options@ == (Deadlines { tls: Some(timeout), ..self@ }),
    {
        RequestOptions { tls_timeout: Some(timeout), ..self }
    }

    /// Returns the TLS and ALPN deadline selected for this request.
    pub fn tls_timeout(self) -> (timeout: Option<Duration>)
        ensures
            timeout == self@.tls,
    {
        self.tls_timeout
    }

    /// Limits request dispatch through receipt of response headers.
    pub fn with_headers_timeout(self, timeout: Duration) -> (options: Self)
        ensures
            options@ == (Deadlines { headers: Some(timeout), ..self@ }),
    {
        RequestOptions { headers_timeout: Some(timeout), ..self }
    }

    /// Returns the dispatch and response-header deadline selected for this request.
    pub fn headers_timeout(self) -> (timeout: Option<Duration>)
        ensures
            timeout == self@.headers,
    {
        self.headers_timeout
    }

    /// Whether any phase of connection establishment has a deadline.
    pub fn has_connection_timeout(self) -> (limited: bool)
        ensures
            limited == self@.limits_establishment(),
    {
        self.dns_timeout.is_some() || self.connect_timeout.is_some() || self.tls_timeout.is_some()
    }
}

impl Default for RequestOptions {
    fn default() -> (options: Self)
        ensures
            options@ == Deadlines::none(),
    {
        RequestOptions::new()
    }
}

/// A deadline that is set is read back, the others stay as they were, and new options
/// set none. A request limits its establishment exactly where it limits a phase of it.
pub proof fn deadlines_are_read_back(
    before: RequestOptions,
    timeout: Duration,
    after: (RequestOptions, RequestOptions, RequestOptions, RequestOptions),
    read: (Option<Duration>, Option<Duration>, Option<Duration>, Option<Duration>),
    limited: bool,
    fresh: RequestOptions,
)
    requires
        call_ensures(RequestOptions::with_dns_timeout, (before, timeout), after.0),
        call_ensures(RequestOptions::with_connect_timeout, (before, timeout), after.1),
        call_ensures(RequestOptions::with_tls_timeout, (before, timeout), after.2),
        call_ensures(RequestOptions::with_headers_timeout, (before, timeout), after.3),
        call_ensures(RequestOptions::dns_timeout, (before,), read.0),
        call_ensures(RequestOptions::connect_timeout, (before,), read.1),
        call_ensures(RequestOptions::tls_timeout, (before,), read.2),
        call_ensures(RequestOptions::headers_timeout, (before,), read.3),
        call_ensures(RequestOptions::has_connection_timeout, (before,), limited),
        call_ensures(RequestOptions::new, (), fresh),
    ensures
        read == (before@.dns, before@.connect, before@.tls, before@.headers),
        after.0@ == (Deadlines {
            dns: Some(timeout),
            connect: read.1,
            tls: read.2,
            headers: read.3,
        }),
        after.1@ == (Deadlines {
            dns: read.0,
            connect: Some(timeout),
            tls: read.2,
            headers: read.3,
        }),
        after.2@ == (Deadlines {
            dns: read.0,
            connect: read.1,
            tls: Some(timeout),
            headers: read.3,
        }),
        after.3@ == (Deadlines {
            dns: read.0,
            connect: read.1,
            tls: read.2,
            headers: Some(timeout),
        }),
        limited <==> read.0 is Some || read.1 is Some || read.2 is Some,
        fresh@.dns is None && fresh@.connect is None,
        fresh@.tls is None && fresh@.headers is None,
{
}

} // verus!
