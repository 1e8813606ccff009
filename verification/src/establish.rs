//! The phases of one connection establishment.
//!
//! Each phase is a value that says what is to be done next and what follows from
//! its outcome, so that no phase can be entered out of turn.

use std::time::Duration;

use vstd::prelude::*;

use crate::address::SocketAddress;
use crate::connect::{alpn_outcome, select_protocol, ConnectError, ConnectFailure};
use crate::error::ErrorKind;
use crate::info::{ConnectionFacts, ConnectionInfo, ConnectionProtocol};
use crate::options::{Deadlines, RequestOptions};
use crate::race::{connect_resolved_addresses, AddressRace, NoConnection, RaceView};
use crate::text::{same_text, strip_brackets, unbracketed};
use crate::uri::{Uri, UriView};

verus! {

/// Where a direct connection goes, and under which conditions.
#[derive(Debug)]
pub struct Route {
    host: String,
    port: u16,
    secure: bool,
    require_http2: bool,
    options: RequestOptions,
    happy_eyeballs_timeout: Option<Duration>,
}

/// What a [`Route`] stands for.
pub ghost struct RouteView {
    /// The host without the brackets of an IPv6 literal.
    pub host: Seq<char>,
    /// The port that the URI names, or else the one that its scheme implies.
    pub port: u16,
    /// Whether the connection runs over TLS.
    pub secure: bool,
    pub require_http2: bool,
    pub options: Deadlines,
    pub happy_eyeballs_timeout: Option<Duration>,
}

impl View for Route {
    type V = RouteView;

    closed spec fn view(&self) -> RouteView {
        RouteView {
            host: self.host@,
            port: self.port,
            secure: self.secure,
            require_http2: self.require_http2,
            options: self.options@,
            happy_eyeballs_timeout: self.happy_eyeballs_timeout,
        }
    }
}

/// How TCP connections come about.
#[derive(Clone, Copy, Debug, PartialEq, Eq, Structural)]
pub enum TcpSource {
    /// Names are resolved and the addresses raced.
    Resolver,
    /// A TCP dialer owns resolution and sockets.
    Dialer,
}

/// A TCP dialer is to be asked for a stream.
#[derive(Debug)]
pub struct TcpDial {
    route: Route,
    origin: Uri,
}

/// The host is to be resolved.
#[derive(Debug)]
pub struct Lookup {
    route: Route,
}

/// One of the resolved addresses is to be connected to.
#[derive(Debug)]
pub struct TcpRace {
    route: Route,
    addresses: Vec<SocketAddress>,
}

/// TLS is to be negotiated over the established stream.
#[derive(Debug)]
pub struct Negotiation {
    route: Route,
    local_addr: Option<SocketAddress>,
    peer_addr: Option<SocketAddress>,
}

/// What is to be done next for a connection.
#[derive(Debug)]
pub enum Step<X, E> {
    DialTcp(TcpDial),
    Resolve(Lookup),
    ConnectTcp(TcpRace),
    Negotiate(Negotiation),
    /// The stream is ready for its HTTP handshake.
    Done(ConnectionInfo),
    Fail(ConnectError<X, E>),
}

/// What a [`Step`] stands for.
pub ghost enum StepView<X, E> {
    DialTcp(RouteView, UriView),
    Resolve(RouteView),
    ConnectTcp(RouteView, Seq<SocketAddress>),
    Negotiate(RouteView, Option<SocketAddress>, Option<SocketAddress>),
    Done(ConnectionFacts),
    Fail(ConnectFailure<X, E>),
}

impl View for TcpDial {
    type V = (RouteView, UriView);

    closed spec fn view(&self) -> (RouteView, UriView) {
        (self.route@, self.origin@)
    }
}

impl View for Lookup {
    type V = RouteView;

    closed spec fn view(&self) -> RouteView {
        self.route@
    }
}

impl View for TcpRace {
    type V = (RouteView, Seq<SocketAddress>);

    closed spec fn view(&self) -> (RouteView, Seq<SocketAddress>) {
        (self.route@, self.addresses@)
    }
}

impl View for Negotiation {
    type V = (RouteView, Option<SocketAddress>, Option<SocketAddress>);

    closed spec fn view(&self) -> (RouteView, Option<SocketAddress>, Option<SocketAddress>) {
        (self.route@, self.local_addr, self.peer_addr)
    }
}

impl<X, E> View for Step<X, E> {
    type V = StepView<X, E>;

    open spec fn view(&self) -> StepView<X, E> {
        match *self {
            Step::DialTcp(dial) => StepView::DialTcp(dial@.0, dial@.1),
            Step::Resolve(lookup) => StepView::Resolve(lookup@),
            Step::ConnectTcp(race) => StepView::ConnectTcp(race@.0, race@.1),
            Step::Negotiate(tls) => StepView::Negotiate(tls@.0, tls@.1, tls@.2),
            Step::Done(info) => StepView::Done(info@),
            Step::Fail(error) => StepView::Fail(error@),
        }
    }
}

/// Whether a host can be authenticated as a TLS server name.
pub uninterp spec fn server_name_accepted(host: Seq<char>) -> bool;

/// Calls `<rustls::pki_types::ServerName as TryFrom<String>>::try_from`.
///
/// Taken on trust: whether the host is accepted is a function of its text.
#[verifier::external_body]
fn is_server_name(host: &str) -> (accepted: bool)
    ensures
        accepted == server_name_accepted(host@),
{
    rustls::pki_types::ServerName::try_from(host.to_owned()).is_ok()
}

/// The route of a URI, or why it has none. A route over TLS needs a TLS policy.
pub open spec fn route_of<X, E>(
    uri: UriView,
    tls_available: bool,
    require_http2: bool,
    options: Deadlines,
    happy_eyeballs_timeout: Option<Duration>,
) -> Result<RouteView, ConnectFailure<X, E>> {
    if uri.host is None {
        Err(ConnectFailure::MissingHost)
    } else if uri.scheme is None {
        Err(ConnectFailure::UnsupportedScheme(""@))
    } else if uri.scheme != Some("http"@) && uri.scheme != Some("https"@) {
        Err(ConnectFailure::UnsupportedScheme(uri.scheme->0))
    } else if uri.scheme == Some("https"@) && !tls_available {
        Err(ConnectFailure::TlsDisabled)
    } else {
        let secure = uri.scheme == Some("https"@);
        Ok(
            RouteView {
                host: unbracketed(uri.host->0),
                port: match uri.port {
                    Some(port) => port,
                    None => if secure {
                        443
                    } else {
                        80
                    },
                },
                secure,
                require_http2,
                options,
                happy_eyeballs_timeout,
            },
        )
    }
}

/// The first step towards `origin`.
pub open spec fn first_step<X, E>(
    route: Result<RouteView, ConnectFailure<X, E>>,
    origin: UriView,
    source: TcpSource,
) -> StepView<X, E> {
    match route {
        Err(failure) => StepView::Fail(failure),
        Ok(route) => match source {
            TcpSource::Dialer => StepView::DialTcp(route, origin),
            TcpSource::Resolver => StepView::Resolve(route),
        },
    }
}

/// What is known of a finished connection.
pub open spec fn finished(
    protocol: ConnectionProtocol,
    local: Option<SocketAddress>,
    peer: Option<SocketAddress>,
) -> ConnectionFacts {
    ConnectionFacts { local, peer, ..ConnectionFacts::bare(protocol) }
}

/// The step after a TCP stream has been established.
pub open spec fn after_tcp<X, E>(
    route: RouteView,
    local: Option<SocketAddress>,
    peer: Option<SocketAddress>,
    name_accepted: bool,
) -> StepView<X, E> {
    if !route.secure {
        StepView::Done(
            finished(
                if route.require_http2 {
                    ConnectionProtocol::Http2
                } else {
                    ConnectionProtocol::Http1
                },
                local,
                peer,
            ),
        )
    } else if name_accepted {
        StepView::Negotiate(route, local, peer)
    } else {
        StepView::Fail(ConnectFailure::InvalidServerName(route.host))
    }
}

/// The step after a TCP dialer has answered.
pub open spec fn after_dial<X, E>(
    route: RouteView,
    outcome: Result<(Option<SocketAddress>, Option<SocketAddress>), X>,
) -> StepView<X, E> {
    match outcome {
        Ok(addresses) => after_tcp(
            route,
            addresses.0,
            addresses.1,
            server_name_accepted(route.host),
        ),
        Err(error) => StepView::Fail(ConnectFailure::Custom(error)),
    }
}

/// The step after a resolver has answered.
pub open spec fn after_lookup<X, E>(
    route: RouteView,
    outcome: Result<Seq<SocketAddress>, X>,
) -> StepView<X, E> {
    match outcome {
        Ok(addresses) => StepView::ConnectTcp(route, addresses),
        Err(error) => StepView::Fail(ConnectFailure::Resolve(error)),
    }
}

/// The step after the race between addresses is over.
pub open spec fn after_race<X, E>(
    route: RouteView,
    outcome: Result<(Option<SocketAddress>, Option<SocketAddress>), NoConnection<E>>,
) -> StepView<X, E> {
    match outcome {
        Ok(addresses) => after_tcp(
            route,
            addresses.0,
            addresses.1,
            server_name_accepted(route.host),
        ),
        Err(error) => StepView::Fail(ConnectFailure::Connect(error)),
    }
}

/// The step after TLS negotiation is over.
pub open spec fn after_negotiation<X, E>(
    route: RouteView,
    local: Option<SocketAddress>,
    peer: Option<SocketAddress>,
    outcome: Result<Option<Seq<u8>>, E>,
) -> StepView<X, E> {
    match outcome {
        Err(error) => StepView::Fail(ConnectFailure::Tls(error)),
        Ok(alpn) => match alpn_outcome::<X, E>(alpn, route.require_http2) {
            Ok(protocol) => StepView::Done(finished(protocol, local, peer)),
            Err(failure) => StepView::Fail(failure),
        },
    }
}

/// The ALPN outcome of a negotiation as plain bytes.
pub open spec fn negotiated_bytes<E>(outcome: Result<Option<Vec<u8>>, E>) -> Result<
    Option<Seq<u8>>,
    E,
> {
    match outcome {
        Ok(Some(protocol)) => Ok(Some(protocol@)),
        Ok(None) => Ok(None),
        Err(error) => Err(error),
    }
}

/// The addresses of a lookup as a plain sequence.
pub open spec fn resolved_addresses<X>(outcome: Result<Vec<SocketAddress>, X>) -> Result<
    Seq<SocketAddress>,
    X,
> {
    match outcome {
        Ok(addresses) => Ok(addresses@),
        Err(error) => Err(error),
    }
}

impl Route {
    /// Finds the route of a URI, or why it has none.
    pub fn new<X, E>(
        uri: &Uri,
        tls_available: bool,
        require_http2: bool,
        options: RequestOptions,
        happy_eyeballs_timeout: Option<Duration>,
    ) -> (route: Result<Route, ConnectError<X, E>>)
        ensures
            match route_of::<X, E>(
                uri@,
                tls_available,
                require_http2,
                options@,
                happy_eyeballs_timeout,
            ) {
                Ok(expected) => route matches Ok(route) && route@ == expected,
                Err(failure) => route matches Err(error) && error@ == failure,
            },
    {
        let host = match uri.host() {
            Some(host) => strip_brackets(host),
            None => {
                return Err(ConnectError::MissingHost);
            },
        };
        let scheme = match uri.scheme() {
            Some(scheme) => scheme,
            None => {
                return Err(ConnectError::UnsupportedScheme("".to_owned()));
            },
        };
        proof {
            reveal_strlit("http");
            reveal_strlit("https");
            assert("http"@.len() != "https"@.len());
        }
        let secure = same_text(scheme, "https");
        if !secure && !same_text(scheme, "http") {
            return Err(ConnectError::UnsupportedScheme(scheme.to_owned()));
        }
        if secure && !tls_available {
            return Err(ConnectError::TlsDisabled);
        }
        let port = match uri.port() {
            Some(port) => port,
            None => {
                if secure {
                    443
                } else {
                    80
                }
            },
        };
        Ok(Route { host, port, secure, require_http2, options, happy_eyeballs_timeout })
    }

    /// The first thing to do on this route, which leads to `origin`.
    pub fn begin<X, E>(self, origin: Uri, source: TcpSource) -> (step: Step<X, E>)
        ensures
            step@ == first_step::<X, E>(Ok(self@), origin@, source),
    {
        match source {
            TcpSource::Dialer => Step::DialTcp(TcpDial { route: self, origin }),
            TcpSource::Resolver => Step::Resolve(Lookup { route: self }),
        }
    }

    /// What follows once a TCP stream is established, given whether the host is
    /// acceptable as a TLS server name.
    pub fn tcp_established<X, E>(
        self,
        local_addr: Option<SocketAddress>,
        peer_addr: Option<SocketAddress>,
        name_accepted: bool,
    ) -> (step: Step<X, E>)
        ensures
            step@ == after_tcp::<X, E>(self@, local_addr, peer_addr, name_accepted),
    {
        if !self.secure {
            let protocol = if self.require_http2 {
                ConnectionProtocol::Http2
            } else {
                ConnectionProtocol::Http1
            };
            Step::Done(ConnectionInfo::new(protocol).with_addresses(local_addr, peer_addr))
        } else if name_accepted {
            Step::Negotiate(Negotiation { route: self, local_addr, peer_addr })
        } else {
            Step::Fail(ConnectError::InvalidServerName(self.host))
        }
    }
}

impl TcpDial {
    /// The origin that the dialer is handed.
    pub fn origin(&self) -> (origin: &Uri)
        ensures
            origin@ == self@.1,
    {
        &self.origin
    }

    /// The deadlines that the dialer is handed.
    pub fn options(&self) -> (options: RequestOptions)
        ensures
            options@ == self@.0.options,
    {
        self.route.options
    }

    /// Takes the dialer's answer: the addresses of its stream, or its error.
    pub fn dialed<X, E>(
        self,
        outcome: Result<(Option<SocketAddress>, Option<SocketAddress>), X>,
    ) -> (step: Step<X, E>)
        ensures
            step@ == after_dial::<X, E>(self@.0, outcome),
    {
        match outcome {
            Ok((local_addr, peer_addr)) => {
                let accepted = self.route.secure && is_server_name(self.route.host.as_str());
                self.route.tcp_established(local_addr, peer_addr, accepted)
            },
            Err(error) => Step::Fail(ConnectError::Custom(error)),
        }
    }
}

impl Lookup {
    /// The host to resolve.
    pub fn host(&self) -> (host: &str)
        ensures
            host@ == self@.host,
    {
        self.route.host.as_str()
    }

    /// The port that goes with every resolved address.
    pub fn port(&self) -> (port: u16)
        ensures
            port == self@.port,
    {
        self.route.port
    }

    /// The deadline of this phase.
    pub fn timeout(&self) -> (timeout: Option<Duration>)
        ensures
            timeout == self@.options.dns,
    {
        self.route.options.dns_timeout()
    }

    /// Takes the resolver's answer.
    pub fn resolved<X, E>(self, outcome: Result<Vec<SocketAddress>, X>) -> (step: Step<X, E>)
        ensures
            step@ == after_lookup::<X, E>(self@, resolved_addresses(outcome)),
    {
        match outcome {
            Ok(addresses) => Step::ConnectTcp(TcpRace { route: self.route, addresses }),
            Err(error) => Step::Fail(ConnectError::Resolve(error)),
        }
    }

    /// The deadline of this phase has passed.
    pub fn timed_out<X, E>(self) -> (step: Step<X, E>)
        ensures
            step@ == StepView::<X, E>::Fail(ConnectFailure::DnsTimeout),
    {
        Step::Fail(ConnectError::DnsTimeout)
    }
}

impl TcpRace {
    /// The deadline of this phase.
    pub fn timeout(&self) -> (timeout: Option<Duration>)
        ensures
            timeout == self@.0.options.connect,
    {
        self.route.options.connect_timeout()
    }

    /// The race between the resolved addresses.
    pub fn race<E>(&self) -> (race: AddressRace<E>)
        ensures
            race@ == RaceView::<E>::initial(self@.1, self@.0.happy_eyeballs_timeout),
            race@.wf(),
    {
        let mut addresses: Vec<SocketAddress> = Vec::new();
        let mut n: usize = 0;
        while n < self.addresses.len()
            invariant
                n <= self.addresses@.len(),
                addresses@ =~= self.addresses@.take(n as int),
            decreases self.addresses@.len() - n,
        {
            addresses.push(self.addresses[n]);
            n = n + 1;
        }
        assert(addresses@ =~= self.addresses@);
        connect_resolved_addresses(addresses, self.route.happy_eyeballs_timeout)
    }

    /// Takes the outcome of the race: the addresses of the stream, or its loss.
    pub fn connected<X, E>(
        self,
        outcome: Result<(Option<SocketAddress>, Option<SocketAddress>), NoConnection<E>>,
    ) -> (step: Step<X, E>)
        ensures
            step@ == after_race::<X, E>(self@.0, outcome),
    {
        match outcome {
            Ok((local_addr, peer_addr)) => {
                let accepted = self.route.secure && is_server_name(self.route.host.as_str());
                self.route.tcp_established(local_addr, peer_addr, accepted)
            },
            Err(error) => Step::Fail(ConnectError::Connect(error)),
        }
    }

    /// The deadline of this phase has passed.
    pub fn timed_out<X, E>(self) -> (step: Step<X, E>)
        ensures
            step@ == StepView::<X, E>::Fail(ConnectFailure::ConnectTimeout),
    {
        Step::Fail(ConnectError::ConnectTimeout)
    }
}

impl Negotiation {
    /// The name that the server has to prove.
    pub fn server_name(&self) -> (host: &str)
        ensures
            host@ == self@.0.host,
    {
        self.route.host.as_str()
    }

    /// The deadline of this phase.
    pub fn timeout(&self) -> (timeout: Option<Duration>)
        ensures
            timeout == self@.0.options.tls,
    {
        self.route.options.tls_timeout()
    }

    /// Takes the outcome of the TLS handshake: the application protocol that the
    /// server selected, if any, or the error.
    pub fn negotiated<X, E>(self, outcome: Result<Option<Vec<u8>>, E>) -> (step: Step<X, E>)
        ensures
            step@ == after_negotiation::<X, E>(
                self@.0,
                self@.1,
                self@.2,
                negotiated_bytes(outcome),
            ),
    {
        match outcome {
            Err(error) => Step::Fail(ConnectError::Tls(error)),
            Ok(alpn) => {
                let selected = select_protocol::<X, E>(alpn, self.route.require_http2);
                match selected {
                    Ok(protocol) => Step::Done(
                        ConnectionInfo::new(protocol).with_addresses(
                            self.local_addr,
                            self.peer_addr,
                        ),
                    ),
                    Err(error) => Step::Fail(error),
                }
            },
        }
    }

    /// The deadline of this phase has passed.
    pub fn timed_out<X, E>(self) -> (step: Step<X, E>)
        ensures
            step@ == StepView::<X, E>::Fail(ConnectFailure::TlsTimeout),
    {
        Step::Fail(ConnectError::TlsTimeout)
    }
}

/// Whether `after` can come right after `before`: by an answer to what `before`
/// asked for, or because the deadline of its phase has passed.
pub open spec fn can_come_after<X, E>(before: StepView<X, E>, after: StepView<X, E>) -> bool {
    match before {
        StepView::DialTcp(route, _) => exists|outcome| #[trigger]
            after_dial::<X, E>(route, outcome) == after,
        StepView::Resolve(route) => {
            ||| exists|outcome| #[trigger] after_lookup::<X, E>(route, outcome) == after
            ||| route.options.dns is Some && after == StepView::<X, E>::Fail(
                ConnectFailure::DnsTimeout,
            )
        },
        StepView::ConnectTcp(route, _) => {
            ||| exists|outcome| #[trigger] after_race::<X, E>(route, outcome) == after
            ||| route.options.connect is Some && after == StepView::<X, E>::Fail(
                ConnectFailure::ConnectTimeout,
            )
        },
        StepView::Negotiate(route, local, peer) => {
            ||| exists|outcome| #[trigger]
                after_negotiation::<X, E>(route, local, peer, outcome) == after
            ||| route.options.tls is Some && after == StepView::<X, E>::Fail(
                ConnectFailure::TlsTimeout,
            )
        },
        StepView::Done(_) => false,
        StepView::Fail(_) => false,
    }
}

impl<X, E> StepView<X, E> {
    /// How far an establishment has come: DNS, then TCP, then TLS, then its end.
    pub open spec fn phase(self) -> nat {
        match self {
            StepView::Resolve(_) => 0,
            StepView::DialTcp(_, _) => 1,
            StepView::ConnectTcp(_, _) => 1,
            StepView::Negotiate(_, _, _) => 2,
            StepView::Done(_) => 3,
            StepView::Fail(_) => 3,
        }
    }

    /// The route that a step is on, until the establishment ends.
    pub open spec fn route(self) -> Option<RouteView> {
        match self {
            StepView::Resolve(route) => Some(route),
            StepView::DialTcp(route, _) => Some(route),
            StepView::ConnectTcp(route, _) => Some(route),
            StepView::Negotiate(route, _, _) => Some(route),
            StepView::Done(_) => None,
            StepView::Fail(_) => None,
        }
    }
}

/// An establishment only moves forward, and stays on its route to the end. It is
/// therefore over after at most three answers.
pub proof fn phases_only_advance<X, E>(before: StepView<X, E>, after: StepView<X, E>)
    requires
        can_come_after(before, after),
    ensures
        before.phase() < after.phase() <= 3,
        after.route() is Some ==> after.route() == before.route(),
{
}

/// Where HTTP/2 is required, no connection of any other protocol is handed on.
pub proof fn required_http2_is_honoured<X, E>(before: StepView<X, E>, facts: ConnectionFacts)
    requires
        can_come_after(before, StepView::Done(facts)),
        (before.route()->0).require_http2,
    ensures
        facts.protocol == ConnectionProtocol::Http2,
{
}

/// A connection over TLS is finished by a negotiation and by nothing else, and a
/// plain one is never negotiated.
pub proof fn tls_is_negotiated_exactly_for_https<X, E>(
    before: StepView<X, E>,
    after: StepView<X, E>,
)
    requires
        can_come_after(before, after),
    ensures
        after is Negotiate ==> (before.route()->0).secure,
        after is Done && (before.route()->0).secure ==> before is Negotiate,
{
}

/// A route is over TLS exactly where the scheme is `https`, and only where there is
/// a TLS policy; its port is the one that the URI names, or else the one that the
/// scheme implies.
pub proof fn scheme_decides_the_route<X, E>(
    uri: UriView,
    tls_available: bool,
    require_http2: bool,
    options: Deadlines,
    delay: Option<Duration>,
)
    ensures
        route_of::<X, E>(uri, tls_available, require_http2, options, delay) matches Ok(route)
            ==> {
            &&& route.secure <==> uri.scheme == Some("https"@)
            &&& !route.secure <==> uri.scheme == Some("http"@)
            &&& route.secure ==> tls_available
            &&& uri.port is Some ==> Some(route.port) == uri.port
            &&& uri.port is None ==> route.port == (if route.secure {
                443u16
            } else {
                80u16
            })
        },
{
    reveal_strlit("http");
    reveal_strlit("https");
    assert("http"@.len() != "https"@.len());
}

/// With a TCP dialer in place, no name is resolved and no address raced: neither
/// at the start nor after the dialer has answered.
pub proof fn tcp_dialer_bypasses_resolution<X, E>(
    route: Result<RouteView, ConnectFailure<X, E>>,
    origin: UriView,
    after: StepView<X, E>,
)
    ensures
        !(first_step(route, origin, TcpSource::Dialer) is Resolve),
        !(first_step(route, origin, TcpSource::Dialer) is ConnectTcp),
        can_come_after(first_step(route, origin, TcpSource::Dialer), after) ==> !(
        after is Resolve) && !(after is ConnectTcp),
{
}

/// An origin that is neither `http` nor `https` fails before anything is dialed
/// or resolved, and is reported as such.
pub proof fn unsupported_scheme_dials_nothing<X, E>(
    uri: UriView,
    tls_available: bool,
    require_http2: bool,
    options: Deadlines,
    delay: Option<Duration>,
    source: TcpSource,
)
    requires
        uri.host is Some,
        uri.scheme is Some,
        uri.scheme != Some("http"@),
        uri.scheme != Some("https"@),
    ensures
        first_step(
            route_of::<X, E>(uri, tls_available, require_http2, options, delay),
            uri,
            source,
        ) == StepView::<X, E>::Fail(ConnectFailure::UnsupportedScheme(uri.scheme->0)),
        ConnectFailure::<X, E>::UnsupportedScheme(uri.scheme->0).kind()
            == ErrorKind::UnsupportedScheme,
{
}

/// Without a TLS policy an `https` origin fails before anything is dialed or
/// resolved.
pub proof fn https_without_tls_dials_nothing<X, E>(
    uri: UriView,
    require_http2: bool,
    options: Deadlines,
    delay: Option<Duration>,
    source: TcpSource,
)
    requires
        uri.host is Some,
        uri.scheme == Some("https"@),
    ensures
        first_step(route_of::<X, E>(uri, false, require_http2, options, delay), uri, source)
            == StepView::<X, E>::Fail(ConnectFailure::TlsDisabled),
{
}

/// A route that is found carries what was asked for, whatever the scheme: the HTTP/2
/// requirement, the deadlines and the delay between starts. It leads to the host of
/// the URI, less the brackets of an IP literal, and runs over TLS exactly for
/// `https`. One is found exactly where there is a host and a scheme that can be
/// served, and otherwise the first thing that is missing is told.
pub proof fn routes_carry_what_was_asked_for<X, E>(
    uri: Uri,
    tls_available: bool,
    require_http2: bool,
    options: RequestOptions,
    delay: Option<Duration>,
    found: Result<Route, ConnectError<X, E>>,
)
    requires
        call_ensures(
            Route::new::<X, E>,
            (&uri, tls_available, require_http2, options, delay),
            found,
        ),
    ensures
        found is Ok <==> uri@.host is Some && (uri@.scheme == Some("http"@) || uri@.scheme == Some(
            "https"@,
        ) && tls_available),
        found matches Ok(route) ==> {
            &&& route@.require_http2 == require_http2
            &&& route@.options == options@
            &&& route@.happy_eyeballs_timeout == delay
            &&& route@.secure <==> uri@.scheme == Some("https"@)
            &&& uri@.port matches Some(port) ==> route@.port == port
            &&& uri@.port is None ==> route@.port == (if route@.secure {
                443u16
            } else {
                80u16
            })
            &&& ({
                let host = uri@.host->0;
                let literal = host.len() >= 2 && host[0] == '[' && host[host.len() - 1] == ']';
                &&& !literal ==> route@.host == host
                &&& literal ==> host == seq!['['] + route@.host + seq![']']
            })
        },
        found matches Err(error) ==> {
            if uri@.host is None {
                error@ is MissingHost
            } else if uri@.scheme == Some("https"@) {
                error@ is TlsDisabled
            } else {
                error@ == ConnectFailure::<X, E>::UnsupportedScheme(
                    match uri@.scheme {
                        Some(scheme) => scheme,
                        None => ""@,
                    },
                )
            }
        },
{
    reveal_strlit("http");
    reveal_strlit("https");
    assert("http"@.len() != "https"@.len());
    if let Ok(route) = found {
        let host = uri@.host->0;
        if host.len() >= 2 && host[0] == '[' && host[host.len() - 1] == ']' {
            assert(host =~= seq!['['] + route@.host + seq![']']);
        }
    }
}

/// A route begins with the resolver or with the dialer, as was chosen, and with
/// nothing lost of it.
pub proof fn routes_begin_at_their_source<X, E>(
    route: Route,
    origin: Uri,
    source: TcpSource,
    step: Step<X, E>,
)
    requires
        call_ensures(Route::begin::<X, E>, (route, origin, source), step),
    ensures
        source == TcpSource::Resolver ==> {
            &&& step matches Step::Resolve(lookup)
            &&& lookup@ == route@
        },
        source == TcpSource::Dialer ==> {
            &&& step matches Step::DialTcp(dial)
            &&& dial@ == (route@, origin@)
        },
{
}

/// Once there is a TCP stream, a plain connection is done, in HTTP/2 exactly where
/// that is required, and one over TLS is negotiated exactly where the host can be a
/// server name. The addresses of the stream stay with it.
pub proof fn streams_are_finished_or_negotiated<X, E>(
    route: Route,
    local: Option<SocketAddress>,
    peer: Option<SocketAddress>,
    name_accepted: bool,
    step: Step<X, E>,
)
    requires
        call_ensures(Route::tcp_established::<X, E>, (route, local, peer, name_accepted), step),
    ensures
        !route@.secure ==> {
            &&& step matches Step::Done(info)
            &&& info@.protocol == ConnectionProtocol::Http2 <==> route@.require_http2
            &&& info@.local == local
            &&& info@.peer == peer
            &&& info@.connect_duration is None
            &&& info@.handshake_duration is None
        },
        route@.secure && name_accepted ==> {
            &&& step matches Step::Negotiate(negotiation)
            &&& negotiation@ == (route@, local, peer)
        },
        route@.secure && !name_accepted ==> {
            &&& step matches Step::Fail(error)
            &&& error@ == ConnectFailure::<X, E>::InvalidServerName(route@.host)
        },
{
}

/// A stream from a TCP dialer and one from a race are treated alike: with the same
/// addresses the same follows, by the route alone. Their errors are kept, each under
/// its own name.
pub proof fn streams_are_treated_alike<X, E>(
    dial: TcpDial,
    race: TcpRace,
    dialed: Result<(Option<SocketAddress>, Option<SocketAddress>), X>,
    raced: Result<(Option<SocketAddress>, Option<SocketAddress>), NoConnection<E>>,
    after_dialing: Step<X, E>,
    after_racing: Step<X, E>,
)
    requires
        call_ensures(TcpDial::dialed::<X, E>, (dial, dialed), after_dialing),
        call_ensures(TcpRace::connected::<X, E>, (race, raced), after_racing),
    ensures
        dialed matches Err(error) ==> after_dialing@ == StepView::<X, E>::Fail(
            ConnectFailure::Custom(error),
        ),
        raced matches Err(error) ==> after_racing@ == StepView::<X, E>::Fail(
            ConnectFailure::Connect(error),
        ),
        dialed matches Ok((local, peer)) ==> {
            &&& !dial@.0.secure ==> {
                &&& after_dialing@ matches StepView::Done(facts)
                &&& facts.protocol == ConnectionProtocol::Http2 <==> dial@.0.require_http2
                &&& facts.local == local
                &&& facts.peer == peer
            }
            &&& dial@.0.secure ==> after_dialing@ == if server_name_accepted(dial@.0.host) {
                StepView::<X, E>::Negotiate(dial@.0, local, peer)
            } else {
                StepView::<X, E>::Fail(ConnectFailure::InvalidServerName(dial@.0.host))
            }
        },
        dialed is Ok && raced is Ok && dialed->Ok_0 == raced->Ok_0 && dial@.0 == race@.0
            ==> after_dialing@ == after_racing@,
        raced is Ok && !race@.0.secure ==> after_racing@ is Done && after_racing@->Done_0.local
            == (raced->Ok_0).0 && after_racing@->Done_0.peer == (raced->Ok_0).1,
        raced is Ok && race@.0.secure ==> after_racing@ == if server_name_accepted(race@.0.host) {
            StepView::<X, E>::Negotiate(race@.0, (raced->Ok_0).0, (raced->Ok_0).1)
        } else {
            StepView::<X, E>::Fail(ConnectFailure::InvalidServerName(race@.0.host))
        },
{
}

/// Every address that a resolver gives takes part in the race, and no other. Where
/// there is a delay between starts, it is the one of the route.
pub proof fn every_resolved_address_is_raced<X, E>(
    lookup: Lookup,
    outcome: Result<Vec<SocketAddress>, X>,
    step: Step<X, E>,
    race: AddressRace<E>,
)
    requires
        call_ensures(Lookup::resolved::<X, E>, (lookup, outcome), step),
        step matches Step::ConnectTcp(candidates) && call_ensures(
            TcpRace::race::<E>,
            (&candidates,),
            race,
        ),
    ensures
        outcome matches Ok(addresses) && (step->ConnectTcp_0)@ == (lookup@, addresses@)
            && race@.order.to_multiset() == addresses@.to_multiset() && (race@.stagger is Some
            ==> race@.stagger == lookup@.happy_eyeballs_timeout),
{
    if let Ok(addresses) = outcome {
        crate::address::order_is_a_rearrangement(addresses@);
    }
}

/// A resolver's answer is raced and its error kept; a negotiation ends in the
/// protocol that was selected, over the addresses of the stream, or in the error.
pub proof fn answers_lead_on<X, E>(
    lookup: Lookup,
    outcome: Result<Vec<SocketAddress>, X>,
    after_resolving: Step<X, E>,
    negotiation: Negotiation,
    selected: Result<Option<Vec<u8>>, E>,
    protocol: Result<ConnectionProtocol, ConnectError<X, E>>,
    after_negotiating: Step<X, E>,
)
    requires
        call_ensures(Lookup::resolved::<X, E>, (lookup, outcome), after_resolving),
        call_ensures(
            Negotiation::negotiated::<X, E>,
            (negotiation, selected),
            after_negotiating,
        ),
        selected matches Ok(alpn) ==> call_ensures(
            select_protocol::<X, E>,
            (alpn, negotiation@.0.require_http2),
            protocol,
        ),
    ensures
        match outcome {
            Ok(addresses) => after_resolving@ == StepView::<X, E>::ConnectTcp(lookup@, addresses@),
            Err(error) => after_resolving@ == StepView::<X, E>::Fail(
                ConnectFailure::Resolve(error),
            ),
        },
        match selected {
            Ok(_) => match protocol {
                Ok(protocol) => {
                    &&& after_negotiating@ matches StepView::Done(facts)
                    &&& facts.protocol == protocol
                    &&& facts.local == negotiation@.1
                    &&& facts.peer == negotiation@.2
                },
                Err(error) => after_negotiating@ == StepView::<X, E>::Fail(error@),
            },
            Err(error) => after_negotiating@ == StepView::<X, E>::Fail(ConnectFailure::Tls(error)),
        },
{
}

/// A deadline that passes is told by the phase that it belongs to, and each phase
/// has the deadline that the request set for it.
pub proof fn deadlines_belong_to_their_phase<X, E>(
    lookup: Lookup,
    race: TcpRace,
    negotiation: Negotiation,
    deadlines: (Option<Duration>, Option<Duration>, Option<Duration>),
    passed: (Step<X, E>, Step<X, E>, Step<X, E>),
)
    requires
        call_ensures(Lookup::timeout, (&lookup,), deadlines.0),
        call_ensures(TcpRace::timeout, (&race,), deadlines.1),
        call_ensures(Negotiation::timeout, (&negotiation,), deadlines.2),
        call_ensures(Lookup::timed_out::<X, E>, (lookup,), passed.0),
        call_ensures(TcpRace::timed_out::<X, E>, (race,), passed.1),
        call_ensures(Negotiation::timed_out::<X, E>, (negotiation,), passed.2),
    ensures
        deadlines.0 == lookup@.options.dns,
        deadlines.1 == race@.0.options.connect,
        deadlines.2 == negotiation@.0.options.tls,
        passed.0 matches Step::Fail(error) && error is DnsTimeout,
        passed.1 matches Step::Fail(error) && error is ConnectTimeout,
        passed.2 matches Step::Fail(error) && error is TlsTimeout,
{
}

/// Each phase is told what the route says: the dialer its origin and the deadlines, the
/// resolver its host and port, and TLS the name that the server has to prove.
pub proof fn phases_are_told_the_route(
    dial: TcpDial,
    origin: &Uri,
    options: RequestOptions,
    lookup: Lookup,
    host: &str,
    port: u16,
    negotiation: Negotiation,
    name: &str,
)
    requires
        call_ensures(TcpDial::origin, (&dial,), origin),
        call_ensures(TcpDial::options, (&dial,), options),
        call_ensures(Lookup::host, (&lookup,), host),
        call_ensures(Lookup::port, (&lookup,), port),
        call_ensures(Negotiation::server_name, (&negotiation,), name),
    ensures
        origin@ == dial@.1,
        options@ == dial@.0.options,
        host@ == lookup@.host,
        port == lookup@.port,
        name@ == negotiation@.0.host,
{
}

} // verus!
