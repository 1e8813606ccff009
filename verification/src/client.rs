//! Client policy, and the admission of requests.

use std::time::Duration;

use hyper::client::conn::http1::Builder as Http1Builder;
use vstd::prelude::*;

use crate::connector::{
    restricted_to_http1, standard_tls, Connector, ConnectorPolicy, Establishment,
    HAPPY_EYEBALLS_MILLIS,
};
use crate::error::{Error, ErrorKind, Failure};
use crate::exchange::{admission, Cause, ClientError, Exchange};
use crate::http2::{Http2Override, Http2Settings};
use crate::normalize::{pool_key_uri, HeadView, HttpVersion, PoolKey, RequestHead};
use crate::options::{Deadlines, RequestOptions};
use crate::session::{Connecting, ConnectingView};
use crate::time::{duration_from_millis, millis_duration};
use crate::tls::{
    alpn_h2, alpn_http11, besides_alpn, configured_provider, offered_alpn, same_but_alpn,
};
use crate::uri::Uri;

verus! {

/// Which HTTP protocol the connections of a client speak.
#[derive(Clone, Copy, Debug, PartialEq, Eq, Structural)]
pub enum PoolProtocol {
    /// Whatever is negotiated.
    Auto,
    Http1,
    Http2,
}

/// How a client treats requests.
#[derive(Clone, Copy, Debug, PartialEq, Eq, Structural)]
pub struct RequestPolicy {
    /// Whether a request that was never sent is tried again.
    pub retry_canceled_requests: bool,
    /// Whether a request without a `Host` header is given one.
    pub set_host: bool,
    pub protocol: PoolProtocol,
}

/// How a client pools connections.
#[derive(Clone, Copy, Debug, PartialEq, Eq)]
pub struct PoolConfig {
    pub idle_timeout: Option<Duration>,
    pub max_idle_per_host: usize,
    pub max_h1_connections_per_host: usize,
}

#[verifier::external_type_specification]
#[verifier::external_body]
pub struct ExHttp1Builder(Http1Builder);

/// Whether HTTP/1 sessions write header names in title case.
pub uninterp spec fn titles_headers(builder: Http1Builder) -> bool;

/// Whether a builder of HTTP/1 sessions has the protocol engine's defaults for all
/// settings but how header names are written.
pub uninterp spec fn defaults_besides_titles(builder: Http1Builder) -> bool;

/// Calls `hyper::client::conn::http1::Builder::new`.
///
/// Taken on trust: everything is at its default, and header names are not written
/// in title case.
#[verifier::external_body]
fn new_http1_builder() -> (builder: Http1Builder)
    ensures
        !titles_headers(builder),
        defaults_besides_titles(builder),
{
    Http1Builder::new()
}

/// Calls `hyper::client::conn::http1::Builder::title_case_headers`.
///
/// Taken on trust: header names are then written in title case exactly where
/// `enabled` says so, and everything else stays.
#[verifier::external_body]
fn set_title_case(builder: &mut Http1Builder, enabled: bool)
    ensures
        titles_headers(*final(builder)) == enabled,
        defaults_besides_titles(*final(builder)) == defaults_besides_titles(*old(builder)),
{
    builder.title_case_headers(enabled);
}

/// The settings of HTTP/1 sessions: header names are written in title case, which
/// keeps what is on the wire readable and stable. Everything else is at its default.
fn http1_settings() -> (builder: Http1Builder)
    ensures
        titles_headers(builder),
        defaults_besides_titles(builder),
{
    let mut builder = new_http1_builder();
    set_title_case(&mut builder, true);
    builder
}

/// Configures a client.
///
/// `D` stands for a dialer, `T` for a TCP dialer, `R` for a resolver and `L` for
/// a handle to an event log.
pub struct Builder<D, T, R, L> {
    config: RequestPolicy,
    connector: Connector<D, T, R>,
    http1: Http1Builder,
    http2: Vec<Http2Override>,
    pool_config: PoolConfig,
    debug_events: Option<L>,
}

/// What a [`Builder`] or a [`Client`] stands for.
pub ghost struct ClientPolicy<D, T, R, L> {
    pub config: RequestPolicy,
    pub connector: ConnectorPolicy<D, T, R>,
    /// The settings of HTTP/1 sessions.
    pub http1: Http1Builder,
    /// The overrides of HTTP/2 settings, in the order in which they are applied.
    pub http2: Seq<Http2Override>,
    pub pool: PoolConfig,
    pub debug_events: Option<L>,
}

impl<D, T, R, L> View for Builder<D, T, R, L> {
    type V = ClientPolicy<D, T, R, L>;

    closed spec fn view(&self) -> ClientPolicy<D, T, R, L> {
        ClientPolicy {
            config: self.config,
            connector: self.connector@,
            http1: self.http1,
            http2: self.http2@,
            pool: self.pool_config,
            debug_events: self.debug_events,
        }
    }
}

/// A client: request policy, dialing policy and pooling policy.
pub struct Client<D, T, R, L> {
    config: RequestPolicy,
    connector: Connector<D, T, R>,
    http1: Http1Builder,
    http2: Vec<Http2Override>,
    pool_config: PoolConfig,
    debug_events: Option<L>,
}

impl<D, T, R, L> View for Client<D, T, R, L> {
    type V = ClientPolicy<D, T, R, L>;

    closed spec fn view(&self) -> ClientPolicy<D, T, R, L> {
        ClientPolicy {
            config: self.config,
            connector: self.connector@,
            http1: self.http1,
            http2: self.http2@,
            pool: self.pool_config,
            debug_events: self.debug_events,
        }
    }
}

/// The milliseconds after which an idle connection leaves the pool unless another
/// time is chosen.
pub const IDLE_MILLIS: u64 = 90_000;

/// What a client does with a connector that it is given: one that is restricted
/// to HTTP/1 restricts its connector too.
pub open spec fn adopted<D, T, R>(
    config: RequestPolicy,
    given: ConnectorPolicy<D, T, R>,
    adopted: ConnectorPolicy<D, T, R>,
) -> bool {
    if config.protocol == PoolProtocol::Http1 {
        restricted_to_http1(given, adopted)
    } else {
        adopted == given
    }
}

/// `after` is `before` with its dialing policy replaced by `given`.
pub open spec fn given_connector<D, T, R, L>(
    before: ClientPolicy<D, T, R, L>,
    given: ConnectorPolicy<D, T, R>,
    after: ClientPolicy<D, T, R, L>,
) -> bool {
    &&& after == (ClientPolicy { connector: after.connector, ..before })
    &&& adopted(before.config, given, after.connector)
}

/// `after` is `before` restricted to HTTP/1.
pub open spec fn made_http1_only<D, T, R, L>(
    before: ClientPolicy<D, T, R, L>,
    after: ClientPolicy<D, T, R, L>,
) -> bool {
    &&& after == (ClientPolicy {
        config: RequestPolicy { protocol: PoolProtocol::Http1, ..before.config },
        connector: after.connector,
        ..before
    })
    &&& restricted_to_http1(before.connector, after.connector)
}

/// `after` is the client that is built from `before`.
pub open spec fn built<D, T, R, L>(
    before: ClientPolicy<D, T, R, L>,
    after: ClientPolicy<D, T, R, L>,
) -> bool {
    &&& after == (ClientPolicy { connector: after.connector, ..before })
    &&& adopted(before.config, before.connector, after.connector)
}

impl<D, T, R, L> ClientPolicy<D, T, R, L> {
    /// A client for which nothing has been chosen but its connector and the
    /// settings of its HTTP/1 sessions.
    pub open spec fn standard(
        connector: ConnectorPolicy<D, T, R>,
        http1: Http1Builder,
        idle: Duration,
    ) -> Self {
        ClientPolicy {
            config: RequestPolicy {
                retry_canceled_requests: true,
                set_host: true,
                protocol: PoolProtocol::Auto,
            },
            connector,
            http1,
            http2: seq![],
            pool: PoolConfig {
                idle_timeout: Some(idle),
                max_idle_per_host: usize::MAX,
                max_h1_connections_per_host: usize::MAX,
            },
            debug_events: None,
        }
    }
}

impl<D, T, R, L> Builder<D, T, R, L> {
    /// Starts with the standard policies.
    pub fn new() -> (builder: Self)
        ensures
            builder@.connector.tls matches Some(tls) && standard_tls(tls),
            builder@.connector == ConnectorPolicy::<D, T, R>::standard(
                builder@.connector.tls,
                millis_duration(HAPPY_EYEBALLS_MILLIS),
            ),
            builder@ == ClientPolicy::<D, T, R, L>::standard(
                builder@.connector,
                builder@.http1,
                millis_duration(IDLE_MILLIS),
            ),
            titles_headers(builder@.http1),
            defaults_besides_titles(builder@.http1),
    {
        Builder {
            config: RequestPolicy {
                retry_canceled_requests: true,
                set_host: true,
                protocol: PoolProtocol::Auto,
            },
            connector: Connector::new(),
            http1: http1_settings(),
            http2: Vec::new(),
            pool_config: PoolConfig {
                idle_timeout: Some(duration_from_millis(IDLE_MILLIS)),
                max_idle_per_host: usize::MAX,
                max_h1_connections_per_host: usize::MAX,
            },
            debug_events: None,
        }
    }

    /// Replaces the dialing policy.
    pub fn connector(&mut self, connector: Connector<D, T, R>) -> (builder: &mut Self)
        ensures
            given_connector(old(self)@, connector@, builder@),
            *final(self) == *final(builder),
    {
        self.connector = connector;
        if self.config.protocol == PoolProtocol::Http1 {
            self.connector.force_http1();
        }
        self
    }

    /// Sets after which time an idle connection leaves the pool; `None` keeps it.
    pub fn pool_idle_timeout(&mut self, timeout: Option<Duration>) -> (builder: &mut Self)
        ensures
            builder@ == (ClientPolicy {
                pool: PoolConfig { idle_timeout: timeout, ..old(self)@.pool },
                ..old(self)@
            }),
            *final(self) == *final(builder),
    {
        self.pool_config.idle_timeout = timeout;
        self
    }

    /// Limits the idle connections kept for each origin.
    pub fn pool_max_idle_per_host(&mut self, max_idle: usize) -> (builder: &mut Self)
        ensures
            builder@ == (ClientPolicy {
                pool: PoolConfig { max_idle_per_host: max_idle, ..old(self)@.pool },
                ..old(self)@
            }),
            *final(self) == *final(builder),
    {
        self.pool_config.max_idle_per_host = max_idle;
        self
    }

    /// Limits open HTTP/1.1 connections for each origin.
    ///
    /// The bound includes connecting, in-use and idle HTTP/1.1 sockets. HTTP/2
    /// stays multiplexed and is unaffected. Zero lifts the bound, which is the
    /// default. The bound applies only while the idle pool is enabled.
    pub fn pool_max_connections_per_host(&mut self, max_connections: usize) -> (builder: &mut Self)
        ensures
            builder@ == (ClientPolicy {
                pool: PoolConfig {
                    max_h1_connections_per_host: if max_connections == 0 {
                        usize::MAX
                    } else {
                        max_connections
                    },
                    ..old(self)@.pool
                },
                ..old(self)@
            }),
            *final(self) == *final(builder),
    {
        self.pool_config.max_h1_connections_per_host = if max_connections == 0 {
            usize::MAX
        } else {
            max_connections
        };
        self
    }

    /// Records endpoint lifecycle transitions through `log`.
    pub fn debug_event_log(&mut self, log: L) -> (builder: &mut Self)
        ensures
            builder@ == (ClientPolicy { debug_events: Some(log), ..old(self)@ }),
            *final(self) == *final(builder),
    {
        self.debug_events = Some(log);
        self
    }

    /// Sets whether a request without a `Host` header is given one.
    pub fn set_host(&mut self, enabled: bool) -> (builder: &mut Self)
        ensures
            builder@ == (ClientPolicy {
                config: RequestPolicy { set_host: enabled, ..old(self)@.config },
                ..old(self)@
            }),
            *final(self) == *final(builder),
    {
        self.config.set_host = enabled;
        self
    }

    /// Sets whether a request that was never sent is tried again.
    pub fn retry_canceled_requests(&mut self, enabled: bool) -> (builder: &mut Self)
        ensures
            builder@ == (ClientPolicy {
                config: RequestPolicy { retry_canceled_requests: enabled, ..old(self)@.config },
                ..old(self)@
            }),
            *final(self) == *final(builder),
    {
        self.config.retry_canceled_requests = enabled;
        self
    }

    /// Restricts this client to HTTP/1.1 connections and TLS ALPN.
    ///
    /// It also overrides the ALPN offerings of a custom TLS configuration, so that
    /// an HTTPS peer cannot select HTTP/2.
    pub fn http1_only(&mut self) -> (builder: &mut Self)
        ensures
            made_http1_only(old(self)@, builder@),
            *final(self) == *final(builder),
    {
        self.config.protocol = PoolProtocol::Http1;
        self.connector.force_http1();
        self
    }

    /// Requires HTTP/2, or lets the protocol be negotiated again.
    pub fn http2_only(&mut self, enabled: bool) -> (builder: &mut Self)
        ensures
            builder@ == (ClientPolicy {
                config: RequestPolicy {
                    protocol: if enabled {
                        PoolProtocol::Http2
                    } else {
                        PoolProtocol::Auto
                    },
                    ..old(self)@.config
                },
                ..old(self)@
            }),
            *final(self) == *final(builder),
    {
        self.config.protocol = if enabled {
            PoolProtocol::Http2
        } else {
            PoolProtocol::Auto
        };
        self
    }

    /// Applies HTTP/2 settings, on top of those applied before.
    pub fn http2_settings(&mut self, settings: Http2Settings) -> (builder: &mut Self)
        ensures
            builder@ == (ClientPolicy {
                http2: old(self)@.http2 + settings@.sequence(),
                ..old(self)@
            }),
            *final(self) == *final(builder),
    {
        let mut calls = settings.apply();
        self.http2.append(&mut calls);
        self
    }

    /// Finishes the client.
    pub fn build(self) -> (client: Client<D, T, R, L>)
        ensures
            built(self@, client@),
    {
        let mut connector = self.connector;
        if self.config.protocol == PoolProtocol::Http1 {
            connector.force_http1();
        }
        Client {
            config: self.config,
            connector,
            http1: self.http1,
            http2: self.http2,
            pool_config: self.pool_config,
            debug_events: self.debug_events,
        }
    }
}

impl<D, T, R, L> Client<D, T, R, L> {
    /// Starts a client builder.
    pub fn builder() -> (builder: Builder<D, T, R, L>)
        ensures
            builder@.connector.tls matches Some(tls) && standard_tls(tls),
            builder@.connector == ConnectorPolicy::<D, T, R>::standard(
                builder@.connector.tls,
                millis_duration(HAPPY_EYEBALLS_MILLIS),
            ),
            builder@ == ClientPolicy::<D, T, R, L>::standard(
                builder@.connector,
                builder@.http1,
                millis_duration(IDLE_MILLIS),
            ),
            titles_headers(builder@.http1),
            defaults_besides_titles(builder@.http1),
    {
        Builder::new()
    }

    /// How the client treats requests.
    pub fn config(&self) -> (config: RequestPolicy)
        ensures
            config == self@.config,
    {
        self.config
    }

    /// How the client dials.
    pub fn connector(&self) -> (connector: &Connector<D, T, R>)
        ensures
            connector@ == self@.connector,
    {
        &self.connector
    }

    /// How the client pools connections.
    pub fn pool_config(&self) -> (config: PoolConfig)
        ensures
            config == self@.pool,
    {
        self.pool_config
    }

    /// The settings of HTTP/1 sessions.
    pub fn http1_builder(&self) -> (builder: &Http1Builder)
        ensures
            *builder == self@.http1,
    {
        &self.http1
    }

    /// The overrides of HTTP/2 settings, in the order in which they are applied.
    pub fn http2_overrides(&self) -> (calls: &[Http2Override])
        ensures
            calls@ == self@.http2,
    {
        self.http2.as_slice()
    }

    /// The handle to the event log, where there is one.
    pub fn debug_events(&self) -> (log: Option<&L>)
        ensures
            log == (match self@.debug_events {
                Some(log) => Some(&log),
                None => None,
            }),
    {
        self.debug_events.as_ref()
    }

    /// Starts a `GET` request for `uri` without deadlines of its own.
    pub fn get<X, E, C, H>(&self, uri: Uri) -> (admitted: Result<
        Exchange,
        ClientError<X, E, C, H>,
    >)
        ensures
            match admission::<X, E, C, H>(
                self@.config,
                self@.debug_events is Some,
                HeadView {
                    is_connect: false,
                    version: HttpVersion::Http11,
                    uri: uri@,
                    host: None,
                },
                Deadlines::none(),
            ) {
                Ok(expected) => admitted matches Ok(exchange) && exchange@ == expected,
                Err(failure) => admitted matches Err(error) && error@ == failure,
            },
    {
        self.request(
            RequestHead { is_connect: false, version: HttpVersion::Http11, uri, host: None },
        )
    }

    /// Starts a request without deadlines of its own. A deadline of the connector
    /// for a whole establishment stays in force.
    pub fn request<X, E, C, H>(&self, head: RequestHead) -> (admitted: Result<
        Exchange,
        ClientError<X, E, C, H>,
    >)
        ensures
            match admission::<X, E, C, H>(
                self@.config,
                self@.debug_events is Some,
                head@,
                Deadlines::none(),
            ) {
                Ok(expected) => admitted matches Ok(exchange) && exchange@ == expected,
                Err(failure) => admitted matches Err(error) && error@ == failure,
            },
    {
        self.request_with_options(head, RequestOptions::new())
    }

    /// Starts a request with deadlines that belong to it alone. They never take
    /// part in the identity of a pooled connection.
    pub fn request_with_options<X, E, C, H>(
        &self,
        head: RequestHead,
        options: RequestOptions,
    ) -> (admitted: Result<Exchange, ClientError<X, E, C, H>>)
        ensures
            match admission::<X, E, C, H>(
                self@.config,
                self@.debug_events is Some,
                head@,
                options@,
            ) {
                Ok(expected) => admitted matches Ok(exchange) && exchange@ == expected,
                Err(failure) => admitted matches Err(error) && error@ == failure,
            },
    {
        Exchange::enter(self.config, self.debug_events.is_some(), head, options)
    }

    /// Begins a connection to the origin of `key`, unless the pool, which was
    /// asked for a place for it, has none: `granted` says so.
    pub fn connect_to<X, E, C, H>(
        &self,
        key: PoolKey,
        options: RequestOptions,
        granted: bool,
    ) -> (begun: Result<
        (Connecting, Option<Duration>, Establishment<X, E>),
        ClientError<X, E, C, H>,
    >)
        ensures
            if granted {
                &&& begun matches Ok((connecting, timeout, establishment))
                &&& connecting@ == (ConnectingView {
                    origin: key@.text(),
                    secure: key@.scheme == "https"@,
                    protocol: self@.config.protocol,
                    logging: self@.debug_events is Some,
                })
                &&& timeout == self@.connector.establishment_timeout(options@)
                &&& establishment@ == self@.connector.start::<X, E>(
                    key@.root(),
                    self@.config.protocol == PoolProtocol::Http2,
                    options@,
                )
            } else {
                begun matches Err(error) && error@ == Failure::<Cause<X, E, C, H>>::plain(
                    ErrorKind::Canceled,
                )
            },
    {
        if !granted {
            return Err(Error::new(ErrorKind::Canceled));
        }
        let connecting = Connecting::new(&key, self.config.protocol, self.debug_events.is_some());
        let (timeout, establishment) = self.connector.connect_with_options(
            pool_key_uri(key),
            self.config.protocol == PoolProtocol::Http2,
            options,
        );
        Ok((connecting, timeout, establishment))
    }
}

/// A client that is restricted to HTTP/1 offers nothing but HTTP/1.1 in ALPN,
/// whatever its connector offered, and keeps every other choice of the connector.
pub proof fn http1_only_never_offers_http2<D, T, R>(
    config: RequestPolicy,
    given: ConnectorPolicy<D, T, R>,
    adopted: ConnectorPolicy<D, T, R>,
)
    requires
        config.protocol == PoolProtocol::Http1,
        crate::client::adopted(config, given, adopted),
    ensures
        adopted.tls is Some <==> given.tls is Some,
        adopted.tls matches Some(tls) ==> {
            &&& offered_alpn(tls) == seq![alpn_http11()]
            &&& !offered_alpn(tls).contains(alpn_h2())
            &&& same_but_alpn(given.tls->0, tls)
        },
        adopted == (ConnectorPolicy { tls: adopted.tls, ..given }),
{
    assert(alpn_h2().len() != alpn_http11().len());
}

/// Restricting a client to HTTP/1 and giving it a connector can come in either
/// order: the client that is built is the same but for the value of its TLS
/// configuration, and that offers HTTP/1.1 alone and keeps everything else that
/// the connector was given with.
pub proof fn http1_only_and_connector_commute<D, T, R, L>(
    start: ClientPolicy<D, T, R, L>,
    given: ConnectorPolicy<D, T, R>,
    restricted: ClientPolicy<D, T, R, L>,
    then_given: ClientPolicy<D, T, R, L>,
    one: ClientPolicy<D, T, R, L>,
    equipped: ClientPolicy<D, T, R, L>,
    then_restricted: ClientPolicy<D, T, R, L>,
    other: ClientPolicy<D, T, R, L>,
)
    requires
        made_http1_only(start, restricted),
        given_connector(restricted, given, then_given),
        built(then_given, one),
        given_connector(start, given, equipped),
        made_http1_only(equipped, then_restricted),
        built(then_restricted, other),
    ensures
        restricted_to_http1(given, one.connector),
        restricted_to_http1(given, other.connector),
        other == (ClientPolicy {
            connector: ConnectorPolicy { tls: other.connector.tls, ..one.connector },
            ..one
        }),
        match (given.tls, one.connector.tls, other.connector.tls) {
            (Some(tls), Some(one_tls), Some(other_tls)) => {
                &&& offered_alpn(one_tls) == seq![alpn_http11()]
                &&& offered_alpn(other_tls) == seq![alpn_http11()]
                &&& besides_alpn(one_tls) == besides_alpn(tls)
                &&& besides_alpn(other_tls) == besides_alpn(tls)
                &&& configured_provider(one_tls) == configured_provider(tls)
                &&& configured_provider(other_tls) == configured_provider(tls)
            },
            (None, None, None) => true,
            _ => false,
        },
{
}

/// A client that is not restricted to HTTP/1 uses its connector as it was given.
pub proof fn other_clients_keep_their_connector<D, T, R>(
    config: RequestPolicy,
    given: ConnectorPolicy<D, T, R>,
    adopted: ConnectorPolicy<D, T, R>,
)
    requires
        config.protocol != PoolProtocol::Http1,
        crate::client::adopted(config, given, adopted),
    ensures
        adopted == given,
{
}

/// A new client retries what was never sent, adds `Host`, negotiates the protocol,
/// keeps idle connections for ninety seconds and in any number, records nothing and
/// overrides no HTTP/2 setting.
pub proof fn clients_begin_with_the_standard_policy<D, T, R, L>(builder: Builder<D, T, R, L>)
    requires
        call_ensures(Builder::<D, T, R, L>::new, (), builder),
    ensures
        builder@.config.retry_canceled_requests,
        builder@.config.set_host,
        builder@.config.protocol == PoolProtocol::Auto,
        builder@.pool.idle_timeout == Some(millis_duration(90_000)),
        builder@.pool.max_idle_per_host == usize::MAX,
        builder@.pool.max_h1_connections_per_host == usize::MAX,
        builder@.debug_events is None,
        builder@.http2.len() == 0,
        titles_headers(builder@.http1),
        builder@.connector.kind is Direct,
        builder@.connector.connect_timeout is None,
{
}

/// Each choice for requests and pooling replaces one part of a client's policy. No
/// bound on connections is the same as one of zero.
pub proof fn client_choices_replace_one_part<D, T, R, L>(
    builder: &mut Builder<D, T, R, L>,
    enabled: bool,
    bound: usize,
    timeout: Option<Duration>,
    log: L,
    after: (
        &mut Builder<D, T, R, L>,
        &mut Builder<D, T, R, L>,
        &mut Builder<D, T, R, L>,
        &mut Builder<D, T, R, L>,
        &mut Builder<D, T, R, L>,
        &mut Builder<D, T, R, L>,
        &mut Builder<D, T, R, L>,
    ),
)
    requires
        call_ensures(Builder::<D, T, R, L>::set_host, (builder, enabled), after.0),
        call_ensures(Builder::<D, T, R, L>::retry_canceled_requests, (builder, enabled), after.1),
        call_ensures(Builder::<D, T, R, L>::http2_only, (builder, enabled), after.2),
        call_ensures(Builder::<D, T, R, L>::pool_max_idle_per_host, (builder, bound), after.3),
        call_ensures(
            Builder::<D, T, R, L>::pool_max_connections_per_host,
            (builder, bound),
            after.4,
        ),
        call_ensures(Builder::<D, T, R, L>::pool_idle_timeout, (builder, timeout), after.5),
        call_ensures(Builder::<D, T, R, L>::debug_event_log, (builder, log), after.6),
    ensures
        old(after.0)@ == (ClientPolicy {
            config: RequestPolicy { set_host: enabled, ..old(builder)@.config },
            ..old(builder)@
        }),
        old(after.1)@ == (ClientPolicy {
            config: RequestPolicy { retry_canceled_requests: enabled, ..old(builder)@.config },
            ..old(builder)@
        }),
        old(after.2)@ == (ClientPolicy {
            config: RequestPolicy { protocol: old(after.2)@.config.protocol, ..old(builder)@.config },
            ..old(builder)@
        }),
        old(after.2)@.config.protocol == PoolProtocol::Http2 <==> enabled,
        old(after.2)@.config.protocol == PoolProtocol::Auto <==> !enabled,
        old(after.3)@ == (ClientPolicy {
            pool: PoolConfig { max_idle_per_host: bound, ..old(builder)@.pool },
            ..old(builder)@
        }),
        old(after.4)@ == (ClientPolicy {
            pool: PoolConfig {
                max_h1_connections_per_host: old(after.4)@.pool.max_h1_connections_per_host,
                ..old(builder)@.pool
            },
            ..old(builder)@
        }),
        bound > 0 ==> old(after.4)@.pool.max_h1_connections_per_host == bound,
        bound == 0 ==> old(after.4)@.pool.max_h1_connections_per_host == usize::MAX,
        old(after.5)@ == (ClientPolicy {
            pool: PoolConfig { idle_timeout: timeout, ..old(builder)@.pool },
            ..old(builder)@
        }),
        old(after.6)@ == (ClientPolicy { debug_events: Some(log), ..old(builder)@ }),
{
}

/// A client has what its builder was given. One that is restricted to HTTP/1 offers
/// `http/1.1` alone over TLS, and any other uses its connector as it is.
pub proof fn clients_are_built_as_configured<D, T, R, L>(
    builder: Builder<D, T, R, L>,
    client: Client<D, T, R, L>,
)
    requires
        call_ensures(Builder::<D, T, R, L>::build, (builder,), client),
    ensures
        client@.config == builder@.config,
        client@.http1 == builder@.http1,
        client@.http2 == builder@.http2,
        client@.pool == builder@.pool,
        client@.debug_events == builder@.debug_events,
        client@.connector.kind == builder@.connector.kind,
        client@.connector.resolver == builder@.connector.resolver,
        client@.connector.connect_timeout == builder@.connector.connect_timeout,
        client@.connector.happy_eyeballs_timeout == builder@.connector.happy_eyeballs_timeout,
        client@.config.protocol != PoolProtocol::Http1 ==> client@.connector.tls
            == builder@.connector.tls,
        client@.connector.tls is Some <==> builder@.connector.tls is Some,
        client@.config.protocol == PoolProtocol::Http1 ==> (client@.connector.tls matches Some(
            tls,
        ) ==> offered_alpn(tls) == seq![alpn_http11()] && besides_alpn(tls) == besides_alpn(
            builder@.connector.tls->0,
        )),
{
}

/// HTTP/1 alone, a connector and HTTP/2 settings each replace what they are about: the
/// protocol and what is offered over TLS, the dialing policy, and nothing but more
/// overrides at the end.
pub proof fn protocol_choices_replace_what_they_are_about<D, T, R, L>(
    builder: &mut Builder<D, T, R, L>,
    connector: Connector<D, T, R>,
    settings: Http2Settings,
    calls: Vec<Http2Override>,
    after: (
        &mut Builder<D, T, R, L>,
        &mut Builder<D, T, R, L>,
        &mut Builder<D, T, R, L>,
    ),
)
    requires
        call_ensures(Builder::<D, T, R, L>::http1_only, (builder,), after.0),
        call_ensures(Builder::<D, T, R, L>::connector, (builder, connector), after.1),
        call_ensures(Builder::<D, T, R, L>::http2_settings, (builder, settings), after.2),
        call_ensures(Http2Settings::apply, (&settings,), calls),
    ensures
        old(after.0)@ == (ClientPolicy {
            config: RequestPolicy { protocol: PoolProtocol::Http1, ..old(builder)@.config },
            connector: ConnectorPolicy {
                tls: old(after.0)@.connector.tls,
                ..old(builder)@.connector
            },
            ..old(builder)@
        }),
        old(after.0)@.connector.tls matches Some(tls) ==> offered_alpn(tls) == seq![alpn_http11()],
        old(after.1)@ == (ClientPolicy {
            connector: ConnectorPolicy { tls: old(after.1)@.connector.tls, ..connector@ },
            ..old(builder)@
        }),
        old(after.1)@.connector.tls is Some <==> connector@.tls is Some,
        old(builder)@.config.protocol != PoolProtocol::Http1 ==> old(after.1)@.connector == connector@,
        old(builder)@.config.protocol == PoolProtocol::Http1 ==> (
        old(after.1)@.connector.tls matches Some(tls) ==> offered_alpn(tls) == seq![alpn_http11()]),
        old(after.2)@ == (ClientPolicy { http2: old(builder)@.http2 + calls@, ..old(builder)@ }),
{
}

/// A connection is begun exactly where the pool has a place for it: to the root of the
/// origin, requiring HTTP/2 exactly where the client does, and as the client's connector
/// begins it. Without a place the request is canceled and nothing is begun.
pub proof fn connections_are_begun_in_their_place<D, T, R, L, X, E, C, H>(
    client: Client<D, T, R, L>,
    key: PoolKey,
    options: RequestOptions,
    granted: bool,
    begun: Result<
        (Connecting, Option<Duration>, Establishment<X, E>),
        ClientError<X, E, C, H>,
    >,
    connector: Connector<D, T, R>,
    root: Uri,
    expected: (Option<Duration>, Establishment<X, E>),
)
    requires
        call_ensures(
            Client::<D, T, R, L>::connect_to::<X, E, C, H>,
            (&client, key, options, granted),
            begun,
        ),
        connector@ == client@.connector,
        call_ensures(pool_key_uri, (key,), root),
        call_ensures(
            Connector::<D, T, R>::connect_with_options::<X, E>,
            (&connector, root, client@.config.protocol == PoolProtocol::Http2, options),
            expected,
        ),
    ensures
        begun is Ok <==> granted,
        begun matches Err(error) ==> error@.kind == ErrorKind::Canceled && error@.cause is None,
        begun matches Ok((connecting, timeout, establishment)) ==> {
            &&& timeout == expected.0
            &&& establishment@ == expected.1@
            &&& connecting@.origin == key@.scheme + "://"@ + key@.authority
            &&& connecting@.secure <==> key@.scheme == "https"@
            &&& connecting@.protocol == client@.config.protocol
            &&& connecting@.logging <==> client@.debug_events is Some
        },
{
}

/// A request without deadlines of its own is the request with none set, and a `GET`
/// is an HTTP/1.1 request for its target without a `Host`.
pub proof fn plain_requests_set_no_deadline<D, T, R, L, X, E, C, H>(
    client: Client<D, T, R, L>,
    head: RequestHead,
    options: RequestOptions,
    limited: Result<Exchange, ClientError<X, E, C, H>>,
    plain: Result<Exchange, ClientError<X, E, C, H>>,
    uri: Uri,
    got: Result<Exchange, ClientError<X, E, C, H>>,
)
    requires
        options@.dns is None && options@.connect is None && options@.tls is None
            && options@.headers is None,
        call_ensures(
            Client::<D, T, R, L>::request_with_options::<X, E, C, H>,
            (&client, head, options),
            limited,
        ),
        call_ensures(Client::<D, T, R, L>::request::<X, E, C, H>, (&client, head), plain),
        call_ensures(Client::<D, T, R, L>::get::<X, E, C, H>, (&client, uri), got),
    ensures
        limited is Ok <==> plain is Ok,
        limited is Ok ==> (limited->Ok_0)@ == (plain->Ok_0)@,
        limited is Err ==> (limited->Err_0)@ == (plain->Err_0)@,
        !head@.is_connect && head@.version == HttpVersion::Http11 && head@.host is None && head@.uri
            == uri@ ==> {
            &&& got is Ok <==> plain is Ok
            &&& got is Ok ==> (got->Ok_0)@ == (plain->Ok_0)@
            &&& got is Err ==> (got->Err_0)@ == (plain->Err_0)@
        },
{
}

} // verus!
