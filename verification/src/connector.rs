//! Connection-establishment policy.

use std::sync::Arc;
use std::time::Duration;

use rustls::Error as TlsError;
use vstd::prelude::*;

use crate::connect::{ConnectError, ConnectFailure, Connected};
use crate::establish::{
    can_come_after, first_step, phases_only_advance, required_http2_is_honoured, route_of,
    tls_is_negotiated_exactly_for_https, Route, Step, StepView, TcpSource,
};
use crate::info::ConnectionProtocol;
use crate::options::{Deadlines, RequestOptions};
use crate::time::{duration_from_millis, millis_duration};
use crate::tls::{
    alpn_h2, alpn_http11, are_webpki_roots, besides_alpn, both_versions, client_identity,
    configured_provider, default_tls_config, enabled_versions, http1_only_config, is_graviola,
    negotiable, offered_alpn, same_but_alpn, trusted_anchors, usable_versions, version_error,
    ClientTlsConfigBuilder, TlsVersion,
};
use crate::uri::{Uri, UriView};

verus! {

/// The default system resolver. It has no cache and no timeout of its own.
#[derive(Clone, Copy, Debug)]
pub struct SystemResolver;

impl Default for SystemResolver {
    fn default() -> (resolver: Self)
        ensures
            resolver == SystemResolver,
    {
        SystemResolver
    }
}

/// What resolves host names: the system, or a resolver of the application.
#[derive(Copy, Debug)]
pub enum NameResolution<R> {
    System(SystemResolver),
    Custom(R),
}

impl<R: Clone> NameResolution<R> {
    /// Whether `copy` is a copy of this: the system for the system, and a copied
    /// resolver for a resolver.
    pub open spec fn copied_to(self, copy: Self) -> bool {
        match (self, copy) {
            (NameResolution::System(_), NameResolution::System(_)) => true,
            (NameResolution::Custom(given), NameResolution::Custom(taken)) => cloned(given, taken),
            _ => false,
        }
    }
}

impl<R: Clone> Clone for NameResolution<R> {
    fn clone(&self) -> (copy: Self)
        ensures
            self.copied_to(copy),
    {
        match self {
            NameResolution::System(resolver) => NameResolution::System(*resolver),
            NameResolution::Custom(resolver) => NameResolution::Custom(resolver.clone()),
        }
    }
}

/// Who establishes connections.
#[derive(Copy, Debug)]
pub enum ConnectorKind<D, T> {
    /// Names are resolved, addresses raced, TLS negotiated.
    Direct,
    /// A dialer does all of it.
    Custom(D),
    /// A dialer supplies TCP streams; TLS is negotiated over them.
    Tcp(T),
}

impl<D: Clone, T: Clone> ConnectorKind<D, T> {
    /// Whether `copy` is a copy of this: of the same sort, with a copied dialer
    /// where there is one.
    pub open spec fn copied_to(self, copy: Self) -> bool {
        match (self, copy) {
            (ConnectorKind::Direct, ConnectorKind::Direct) => true,
            (ConnectorKind::Custom(given), ConnectorKind::Custom(taken)) => cloned(given, taken),
            (ConnectorKind::Tcp(given), ConnectorKind::Tcp(taken)) => cloned(given, taken),
            _ => false,
        }
    }
}

impl<D: Clone, T: Clone> Clone for ConnectorKind<D, T> {
    fn clone(&self) -> (copy: Self)
        ensures
            self.copied_to(copy),
    {
        match self {
            ConnectorKind::Direct => ConnectorKind::Direct,
            ConnectorKind::Custom(dialer) => ConnectorKind::Custom(dialer.clone()),
            ConnectorKind::Tcp(dialer) => ConnectorKind::Tcp(dialer.clone()),
        }
    }
}

/// How an establishment starts.
#[derive(Debug)]
pub enum Establishment<X, E> {
    /// The custom dialer is handed all of it.
    Dial { origin: Uri, require_http2: bool, options: RequestOptions },
    /// TCP and TLS are established in phases, of which this is the first.
    Phases(Step<X, E>),
}

/// What an [`Establishment`] stands for.
pub ghost enum Start<X, E> {
    Dial { origin: UriView, require_http2: bool, options: Deadlines },
    Phases(StepView<X, E>),
}

impl<X, E> View for Establishment<X, E> {
    type V = Start<X, E>;

    open spec fn view(&self) -> Start<X, E> {
        match *self {
            Establishment::Dial { origin, require_http2, options } => Start::Dial {
                origin: origin@,
                require_http2,
                options: options@,
            },
            Establishment::Phases(step) => Start::Phases(step@),
        }
    }
}

/// A direct-origin connector: dialing policy, and one TLS policy, which is not
/// part of the origin that connections are pooled by.
///
/// `D` stands for a dialer, `T` for a TCP dialer and `R` for a resolver.
pub struct Connector<D, T, R> {
    kind: ConnectorKind<D, T>,
    resolver: NameResolution<R>,
    happy_eyeballs_timeout: Option<Duration>,
    connect_timeout: Option<Duration>,
    tls: Option<Arc<rustls::ClientConfig>>,
}

/// What a [`Connector`] stands for.
pub ghost struct ConnectorPolicy<D, T, R> {
    pub kind: ConnectorKind<D, T>,
    pub resolver: NameResolution<R>,
    /// The delay between starts of raced addresses; `None` tries them serially.
    pub happy_eyeballs_timeout: Option<Duration>,
    /// The deadline of a whole establishment.
    pub connect_timeout: Option<Duration>,
    /// The TLS policy; `None` where HTTPS is not available.
    pub tls: Option<rustls::ClientConfig>,
}

impl<D, T, R> View for Connector<D, T, R> {
    type V = ConnectorPolicy<D, T, R>;

    closed spec fn view(&self) -> ConnectorPolicy<D, T, R> {
        ConnectorPolicy {
            kind: self.kind,
            resolver: self.resolver,
            happy_eyeballs_timeout: self.happy_eyeballs_timeout,
            connect_timeout: self.connect_timeout,
            tls: match self.tls {
                Some(tls) => Some(*tls),
                None => None,
            },
        }
    }
}

/// Calls `<std::sync::Arc as Clone>::clone`.
///
/// Taken on trust: both handles lead to one configuration.
#[verifier::external_body]
fn share_config(config: &Arc<rustls::ClientConfig>) -> (shared: Arc<rustls::ClientConfig>)
    ensures
        *shared == **config,
{
    config.clone()
}

impl<D: Clone, T: Clone, R: Clone> ConnectorPolicy<D, T, R> {
    /// Whether `copy` is a copy of this policy: it shares the TLS policy, has the
    /// same delays and deadlines, and copies of the dialer and the resolver.
    pub open spec fn copied_to(self, copy: Self) -> bool {
        &&& copy.tls == self.tls
        &&& copy.connect_timeout == self.connect_timeout
        &&& copy.happy_eyeballs_timeout == self.happy_eyeballs_timeout
        &&& self.kind.copied_to(copy.kind)
        &&& self.resolver.copied_to(copy.resolver)
    }
}

impl<D: Clone, T: Clone, R: Clone> Clone for Connector<D, T, R> {
    fn clone(&self) -> (copy: Self)
        ensures
            self@.copied_to(copy@),
    {
        Connector {
            kind: self.kind.clone(),
            resolver: self.resolver.clone(),
            happy_eyeballs_timeout: self.happy_eyeballs_timeout,
            connect_timeout: self.connect_timeout,
            tls: match &self.tls {
                Some(tls) => Some(share_config(tls)),
                None => None,
            },
        }
    }
}

impl<D, T, R> ConnectorPolicy<D, T, R> {
    /// The policy before anything is chosen, but for TLS.
    pub open spec fn standard(tls: Option<rustls::ClientConfig>, delay: Duration) -> Self {
        ConnectorPolicy {
            kind: ConnectorKind::Direct,
            resolver: NameResolution::System(SystemResolver),
            happy_eyeballs_timeout: Some(delay),
            connect_timeout: None,
            tls,
        }
    }

    /// The deadline of a whole establishment. A request that limits a phase of it
    /// does without one.
    pub open spec fn establishment_timeout(self, options: Deadlines) -> Option<Duration> {
        if options.limits_establishment() {
            None
        } else {
            self.connect_timeout
        }
    }

    /// How an establishment towards `origin` starts: a custom dialer is handed
    /// all of it; otherwise it goes in phases, with TCP streams from the TCP
    /// dialer where there is one.
    pub open spec fn start<X, E>(
        self,
        origin: UriView,
        require_http2: bool,
        options: Deadlines,
    ) -> Start<X, E> {
        let route = route_of::<X, E>(
            origin,
            self.tls is Some,
            require_http2,
            options,
            self.happy_eyeballs_timeout,
        );
        match self.kind {
            ConnectorKind::Custom(_) => Start::Dial { origin, require_http2, options },
            ConnectorKind::Tcp(_) => Start::Phases(first_step(route, origin, TcpSource::Dialer)),
            ConnectorKind::Direct => Start::Phases(
                first_step(route, origin, TcpSource::Resolver),
            ),
        }
    }
}

/// `after` is `before`, but that HTTP/1.1 alone is offered in ALPN, where there is
/// a TLS policy at all.
pub open spec fn restricted_to_http1<D, T, R>(
    before: ConnectorPolicy<D, T, R>,
    after: ConnectorPolicy<D, T, R>,
) -> bool {
    &&& after == (ConnectorPolicy { tls: after.tls, ..before })
    &&& match (before.tls, after.tls) {
        (Some(old_tls), Some(new_tls)) => {
            &&& offered_alpn(new_tls) == seq![alpn_http11()]
            &&& same_but_alpn(old_tls, new_tls)
        },
        (None, None) => true,
        _ => false,
    }
}

/// The standard TLS policy over a provider: HTTP/2 and then HTTP/1.1 in ALPN, the
/// WebPKI roots, both protocol versions, and no client authentication.
pub open spec fn standard_tls_over(
    provider: rustls::crypto::CryptoProvider,
    tls: rustls::ClientConfig,
) -> bool {
    &&& configured_provider(tls) == provider
    &&& offered_alpn(tls) == seq![alpn_h2(), alpn_http11()]
    &&& are_webpki_roots(trusted_anchors(tls))
    &&& trusted_anchors(tls).len() > 0
    &&& enabled_versions(tls) == both_versions()
    &&& client_identity(tls) is None
}

/// The standard TLS policy, over Graviola's provider.
pub open spec fn standard_tls(tls: rustls::ClientConfig) -> bool {
    &&& standard_tls_over(configured_provider(tls), tls)
    &&& is_graviola(configured_provider(tls))
}

/// The delay between starts of raced addresses unless another is chosen.
pub const HAPPY_EYEBALLS_MILLIS: u64 = 250;

impl<D, T, R> Connector<D, T, R> {
    fn standard(tls: Option<Arc<rustls::ClientConfig>>) -> (connector: Self)
        ensures
            connector@ == ConnectorPolicy::<D, T, R>::standard(
                match tls {
                    Some(tls) => Some(*tls),
                    None => None,
                },
                millis_duration(HAPPY_EYEBALLS_MILLIS),
            ),
    {
        Connector {
            kind: ConnectorKind::Direct,
            resolver: NameResolution::System(SystemResolver),
            happy_eyeballs_timeout: Some(duration_from_millis(HAPPY_EYEBALLS_MILLIS)),
            connect_timeout: None,
            tls,
        }
    }

    /// A connector with the standard TLS policy.
    pub fn new() -> (connector: Self)
        ensures
            connector@.tls matches Some(tls) && standard_tls(tls),
            connector@ == ConnectorPolicy::<D, T, R>::standard(
                connector@.tls,
                millis_duration(HAPPY_EYEBALLS_MILLIS),
            ),
    {
        Connector::with_tls_config(default_tls_config())
    }

    /// A connector for plain HTTP alone.
    pub fn without_tls() -> (connector: Self)
        ensures
            connector@ == ConnectorPolicy::<D, T, R>::standard(
                None,
                millis_duration(HAPPY_EYEBALLS_MILLIS),
            ),
    {
        Connector::standard(None)
    }

    /// A connector with an explicit TLS policy. This is the hook for test root
    /// stores and private PKI; certificate validation stays with that policy.
    pub fn with_tls_config(config: rustls::ClientConfig) -> (connector: Self)
        ensures
            connector@ == ConnectorPolicy::<D, T, R>::standard(
                Some(config),
                millis_duration(HAPPY_EYEBALLS_MILLIS),
            ),
    {
        Connector::standard(Some(Arc::new(config)))
    }

    /// A connector with the standard TLS policy over an explicit provider.
    pub fn with_tls_provider(provider: Arc<rustls::crypto::CryptoProvider>) -> (connector: Result<
        Self,
        TlsError,
    >)
        ensures
            connector is Ok <==> negotiable(*provider, both_versions()),
            connector matches Err(error) ==> error == version_error(*provider, both_versions()),
            connector matches Ok(connector) ==> {
                &&& connector@.tls matches Some(tls)
                &&& standard_tls_over(*provider, tls)
                &&& connector@ == ConnectorPolicy::<D, T, R>::standard(
                    Some(tls),
                    millis_duration(HAPPY_EYEBALLS_MILLIS),
                )
            },
    {
        match ClientTlsConfigBuilder::with_provider(provider).build() {
            Ok(config) => Ok(Connector::with_tls_config(config)),
            Err(error) => Err(error),
        }
    }

    /// Starts a small connector-policy builder.
    pub fn builder() -> (builder: ConnectorBuilder<D, T, R>)
        ensures
            builder@.tls matches Some(tls) && standard_tls(tls),
            builder@ == ConnectorPolicy::<D, T, R>::standard(
                builder@.tls,
                millis_duration(HAPPY_EYEBALLS_MILLIS),
            ),
    {
        ConnectorBuilder { connector: Connector::new() }
    }

    /// Uses a custom dialer for everything up to the HTTP handshake.
    pub fn with_dialer(dialer: D) -> (connector: Self)
        ensures
            connector@ == (ConnectorPolicy {
                kind: ConnectorKind::Custom(dialer),
                ..ConnectorPolicy::<D, T, R>::standard(
                    connector@.tls,
                    millis_duration(HAPPY_EYEBALLS_MILLIS),
                )
            }),
            connector@.tls matches Some(tls) && standard_tls(tls),
    {
        Connector::<D, T, R>::builder().dialer(dialer).build()
    }

    /// Uses a custom dialer for TCP streams.
    pub fn with_tcp_dialer(dialer: T) -> (connector: Self)
        ensures
            connector@ == (ConnectorPolicy {
                kind: ConnectorKind::Tcp(dialer),
                ..ConnectorPolicy::<D, T, R>::standard(
                    connector@.tls,
                    millis_duration(HAPPY_EYEBALLS_MILLIS),
                )
            }),
            connector@.tls matches Some(tls) && standard_tls(tls),
    {
        Connector::<D, T, R>::builder().tcp_dialer(dialer).build()
    }

    /// Uses a custom resolver. A dialer, if one is set, bypasses it.
    pub fn with_resolver(resolver: R) -> (connector: Self)
        ensures
            connector@ == (ConnectorPolicy {
                resolver: NameResolution::Custom(resolver),
                ..ConnectorPolicy::<D, T, R>::standard(
                    connector@.tls,
                    millis_duration(HAPPY_EYEBALLS_MILLIS),
                )
            }),
            connector@.tls matches Some(tls) && standard_tls(tls),
    {
        Connector::<D, T, R>::builder().resolver(resolver).build()
    }

    /// Offers HTTP/1.1 alone in ALPN from now on. Every other choice stays.
    pub fn force_http1(&mut self)
        ensures
            restricted_to_http1(old(self)@, final(self)@),
    {
        let restricted = match &self.tls {
            Some(tls) => Some(Arc::new(http1_only_config(tls))),
            None => None,
        };
        self.tls = restricted;
    }

    /// Who is set to establish connections.
    pub fn kind(&self) -> (kind: &ConnectorKind<D, T>)
        ensures
            *kind == self@.kind,
    {
        &self.kind
    }

    /// What resolves host names.
    pub fn resolver(&self) -> (resolver: &NameResolution<R>)
        ensures
            *resolver == self@.resolver,
    {
        &self.resolver
    }

    /// The TLS policy, where there is one.
    pub fn tls_config(&self) -> (tls: Option<&Arc<rustls::ClientConfig>>)
        ensures
            match tls {
                Some(tls) => self@.tls == Some(**tls),
                None => self@.tls is None,
            },
    {
        self.tls.as_ref()
    }

    /// Begins an establishment towards `origin`, and says how long all of it may
    /// take. A request that limits a phase of establishment sets no such limit.
    pub fn connect_with_options<X, E>(
        &self,
        origin: Uri,
        require_http2: bool,
        options: RequestOptions,
    ) -> (begun: (Option<Duration>, Establishment<X, E>))
        ensures
            begun.0 == self@.establishment_timeout(options@),
            begun.1@ == self@.start::<X, E>(origin@, require_http2, options@),
    {
        let start = self.connect_without_timeout(origin, require_http2, options);
        if options.has_connection_timeout() {
            (None, start)
        } else {
            (self.connect_timeout, start)
        }
    }

    /// Begins an establishment towards `origin`.
    fn connect_without_timeout<X, E>(
        &self,
        origin: Uri,
        require_http2: bool,
        options: RequestOptions,
    ) -> (start: Establishment<X, E>)
        ensures
            start@ == self@.start::<X, E>(origin@, require_http2, options@),
    {
        let source = match &self.kind {
            ConnectorKind::Custom(_) => {
                return Establishment::Dial { origin, require_http2, options };
            },
            ConnectorKind::Tcp(_) => TcpSource::Dialer,
            ConnectorKind::Direct => TcpSource::Resolver,
        };
        let route = Route::new::<X, E>(
            &origin,
            self.tls.is_some(),
            require_http2,
            options,
            self.happy_eyeballs_timeout,
        );
        match route {
            Ok(route) => Establishment::Phases(route.begin(origin, source)),
            Err(error) => Establishment::Phases(Step::Fail(error)),
        }
    }
}

/// Takes the answer of a custom dialer.
pub fn custom_dialed<I, X, E>(outcome: Result<Connected<I>, X>) -> (connected: Result<
    Connected<I>,
    ConnectError<X, E>,
>)
    ensures
        match outcome {
            Ok(stream) => connected == Ok::<_, ConnectError<X, E>>(stream),
            Err(error) => connected == Err::<Connected<I>, _>(ConnectError::<X, E>::Custom(error)),
        },
{
    match outcome {
        Ok(stream) => Ok(stream),
        Err(error) => Err(ConnectError::Custom(error)),
    }
}

/// The deadline of a whole establishment has passed before it was over.
pub fn establishment_timed_out<X, E>() -> (error: ConnectError<X, E>)
    ensures
        error@ == ConnectFailure::<X, E>::Timeout,
{
    ConnectError::Timeout
}

/// Small builder for connection-establishment policy.
///
/// It configures dialing and the optional establishment timeout alone. Request
/// deadlines and body idle timeouts belong to higher layers.
pub struct ConnectorBuilder<D, T, R> {
    connector: Connector<D, T, R>,
}

impl<D, T, R> View for ConnectorBuilder<D, T, R> {
    type V = ConnectorPolicy<D, T, R>;

    closed spec fn view(&self) -> ConnectorPolicy<D, T, R> {
        self.connector@
    }
}

impl<D, T, R> ConnectorBuilder<D, T, R> {
    /// Replaces the host resolver. A dialer, if one is set, bypasses it.
    pub fn resolver(self, resolver: R) -> (builder: Self)
        ensures
            builder@ == (ConnectorPolicy { resolver: NameResolution::Custom(resolver), ..self@ }),
    {
        ConnectorBuilder {
            connector: Connector { resolver: NameResolution::Custom(resolver), ..self.connector },
        }
    }

    /// Sets the delay before the next resolved address is tried. `None` turns
    /// concurrent racing off and tries the addresses serially.
    pub fn happy_eyeballs_timeout(self, timeout: Option<Duration>) -> (builder: Self)
        ensures
            builder@ == (ConnectorPolicy { happy_eyeballs_timeout: timeout, ..self@ }),
    {
        ConnectorBuilder {
            connector: Connector { happy_eyeballs_timeout: timeout, ..self.connector },
        }
    }

    /// Replaces the whole DNS, TCP and TLS sequence. Undoes [`Self::tcp_dialer`].
    pub fn dialer(self, dialer: D) -> (builder: Self)
        ensures
            builder@ == (ConnectorPolicy { kind: ConnectorKind::Custom(dialer), ..self@ }),
    {
        ConnectorBuilder {
            connector: Connector { kind: ConnectorKind::Custom(dialer), ..self.connector },
        }
    }

    /// Replaces DNS and TCP establishment. Undoes [`Self::dialer`].
    pub fn tcp_dialer(self, dialer: T) -> (builder: Self)
        ensures
            builder@ == (ConnectorPolicy { kind: ConnectorKind::Tcp(dialer), ..self@ }),
    {
        ConnectorBuilder {
            connector: Connector { kind: ConnectorKind::Tcp(dialer), ..self.connector },
        }
    }

    /// Limits the whole of resolution, TCP and TLS establishment. It does not
    /// limit a request, response headers or a response body.
    pub fn connect_timeout(self, timeout: Duration) -> (builder: Self)
        ensures
            builder@ == (ConnectorPolicy { connect_timeout: Some(timeout), ..self@ }),
    {
        ConnectorBuilder {
            connector: Connector { connect_timeout: Some(timeout), ..self.connector },
        }
    }

    /// Uses an explicit TLS policy.
    pub fn tls_config(self, config: rustls::ClientConfig) -> (builder: Self)
        ensures
            builder@ == (ConnectorPolicy { tls: Some(config), ..self@ }),
    {
        ConnectorBuilder {
            connector: Connector { tls: Some(Arc::new(config)), ..self.connector },
        }
    }

    /// Uses the standard TLS policy over an explicit provider.
    pub fn tls_provider(self, provider: Arc<rustls::crypto::CryptoProvider>) -> (builder: Result<
        Self,
        TlsError,
    >)
        ensures
            builder is Ok <==> negotiable(*provider, both_versions()),
            builder matches Err(error) ==> error == version_error(*provider, both_versions()),
            builder matches Ok(builder) ==> {
                &&& builder@.tls matches Some(tls)
                &&& standard_tls_over(*provider, tls)
                &&& builder@ == (ConnectorPolicy { tls: Some(tls), ..self@ })
            },
    {
        match ClientTlsConfigBuilder::with_provider(provider).build() {
            Ok(config) => Ok(self.tls_config(config)),
            Err(error) => Err(error),
        }
    }

    /// Does without a TLS policy: HTTPS is then not available.
    pub fn without_tls(self) -> (builder: Self)
        ensures
            builder@ == (ConnectorPolicy { tls: None, ..self@ }),
    {
        ConnectorBuilder { connector: Connector { tls: None, ..self.connector } }
    }

    /// Finalizes the connector policy.
    pub fn build(self) -> (connector: Connector<D, T, R>)
        ensures
            connector@ == self@,
    {
        self.connector
    }
}

impl<D, T, R> Default for Connector<D, T, R> {
    fn default() -> (connector: Self)
        ensures
            connector@.tls matches Some(tls) && standard_tls(tls),
            connector@ == ConnectorPolicy::<D, T, R>::standard(
                connector@.tls,
                millis_duration(HAPPY_EYEBALLS_MILLIS),
            ),
    {
        Connector::new()
    }
}

/// The deadline of a whole establishment and the deadlines of its phases are
/// never both in force: a request that limits any phase does without the whole
/// one, and any other has the whole one alone.
pub proof fn phase_deadlines_replace_the_whole_one<D, T, R>(
    policy: ConnectorPolicy<D, T, R>,
    options: Deadlines,
)
    ensures
        options.dns is Some || options.connect is Some || options.tls is Some
            ==> policy.establishment_timeout(options) is None,
        options.dns is None && options.connect is None && options.tls is None
            ==> policy.establishment_timeout(options) == policy.connect_timeout,
{
}

/// A copy of a connector starts every establishment as the connector does, under
/// the same deadline.
pub proof fn copies_establish_alike<D: Clone, T: Clone, R: Clone, X, E>(
    policy: ConnectorPolicy<D, T, R>,
    copy: ConnectorPolicy<D, T, R>,
    origin: UriView,
    require_http2: bool,
    options: Deadlines,
)
    requires
        policy.copied_to(copy),
    ensures
        copy.start::<X, E>(origin, require_http2, options) == policy.start::<X, E>(
            origin,
            require_http2,
            options,
        ),
        copy.establishment_timeout(options) == policy.establishment_timeout(options),
{
}

/// Forcing HTTP/1 on a copy of a connector gives it what forcing HTTP/1 on the
/// connector would: HTTP/1.1 alone in ALPN, and the rest of the TLS policy as the
/// connector has it.
pub proof fn copies_can_be_forced_to_http1<D: Clone, T: Clone, R: Clone>(
    policy: ConnectorPolicy<D, T, R>,
    copy: ConnectorPolicy<D, T, R>,
    forced: ConnectorPolicy<D, T, R>,
)
    requires
        policy.copied_to(copy),
        restricted_to_http1(copy, forced),
    ensures
        match (policy.tls, forced.tls) {
            (Some(tls), Some(forced_tls)) => {
                &&& offered_alpn(forced_tls) == seq![alpn_http11()]
                &&& same_but_alpn(tls, forced_tls)
            },
            (None, None) => true,
            _ => false,
        },
        policy.copied_to(ConnectorPolicy { tls: policy.tls, ..forced }),
{
}

/// A custom dialer is handed every origin, whatever its scheme and whether or not
/// there is a TLS policy.
pub proof fn custom_dialer_is_handed_everything<D, T, R, X, E>(
    policy: ConnectorPolicy<D, T, R>,
    origin: UriView,
    require_http2: bool,
    options: Deadlines,
)
    requires
        policy.kind is Custom,
    ensures
        policy.start::<X, E>(origin, require_http2, options) == (Start::<X, E>::Dial {
            origin,
            require_http2,
            options,
        }),
{
}

/// A resolver is asked only where there is no dialer of either sort.
pub proof fn dialers_bypass_the_resolver<D, T, R, X, E>(
    policy: ConnectorPolicy<D, T, R>,
    origin: UriView,
    require_http2: bool,
    options: Deadlines,
)
    ensures
        policy.start::<X, E>(origin, require_http2, options) matches Start::Phases(step)
            && step is Resolve ==> policy.kind is Direct,
{
}

/// Whether `steps` can be the steps of an establishment, from the first one on.
pub open spec fn is_course<X, E>(steps: Seq<StepView<X, E>>) -> bool {
    &&& steps.len() > 0
    &&& forall|i: int| 0 < i < steps.len() ==> can_come_after(steps[i - 1], #[trigger] steps[i])
}

proof fn lemma_course_keeps_its_route<X, E>(steps: Seq<StepView<X, E>>, n: int)
    requires
        is_course(steps),
        0 <= n < steps.len(),
        n < steps.len() - 1 || steps[n].route() is Some,
    ensures
        steps[n].route() is Some,
        steps[n].route() == steps[0].route(),
    decreases n,
{
    if n < steps.len() - 1 {
        assert(can_come_after(steps[n], steps[n + 1]));
    }
    if n > 0 {
        assert(can_come_after(steps[n - 1], steps[n]));
        phases_only_advance(steps[n - 1], steps[n]);
        lemma_course_keeps_its_route(steps, n - 1);
    }
}

/// What an establishment was begun with holds to its end. Whatever the origin and
/// whatever the answers on the way, where HTTP/2 was required no connection of
/// another protocol comes of it, and a connection to an `https` origin comes of a
/// TLS negotiation alone. Every step on the way is under the deadlines of the request
/// and the delay of the connector, and there are at most three before the end.
pub proof fn requirements_hold_to_the_end<D, T, R, X, E>(
    connector: Connector<D, T, R>,
    origin: Uri,
    require_http2: bool,
    options: RequestOptions,
    begun: (Option<Duration>, Establishment<X, E>),
    steps: Seq<StepView<X, E>>,
)
    requires
        call_ensures(
            Connector::<D, T, R>::connect_with_options::<X, E>,
            (&connector, origin, require_http2, options),
            begun,
        ),
        begun.1 matches Establishment::Phases(first) && steps.len() > 0 && steps[0] == first@,
        is_course(steps),
    ensures
        steps.last() matches StepView::Done(facts) ==> {
            &&& require_http2 ==> facts.protocol == ConnectionProtocol::Http2
            &&& origin@.scheme == Some("https"@) ==> steps.len() > 1 && steps[steps.len()
                - 2] is Negotiate
            &&& origin@.scheme == Some("http"@) && !require_http2 ==> facts.protocol
                == ConnectionProtocol::Http1
        },
        forall|i: int|
            0 <= i < steps.len() ==> ((#[trigger] steps[i]).route() matches Some(route) ==> {
                &&& route.require_http2 == require_http2
                &&& route.options == options@
                &&& route.happy_eyeballs_timeout == connector@.happy_eyeballs_timeout
                &&& route.secure <==> origin@.scheme == Some("https"@)
            }),
        steps.len() <= 4,
{
    reveal_strlit("http");
    reveal_strlit("https");
    assert("http"@.len() != "https"@.len());
    assert forall|i: int| 0 <= i < steps.len() implies ((#[trigger] steps[i]).route() matches Some(
        route,
    ) ==> {
        &&& route.require_http2 == require_http2
        &&& route.options == options@
        &&& route.happy_eyeballs_timeout == connector@.happy_eyeballs_timeout
        &&& route.secure <==> origin@.scheme == Some("https"@)
    }) by {
        if steps[i].route() is Some {
            lemma_course_keeps_its_route(steps, i);
        }
    }
    lemma_course_is_short(steps, steps.len() - 1);
    if steps.last() is Done {
        let facts = steps.last()->Done_0;
        let n = steps.len() - 2;
        assert(n >= 0);
        assert(can_come_after(steps[n], steps[n + 1]));
        lemma_course_keeps_its_route(steps, n);
        if require_http2 {
            required_http2_is_honoured(steps[n], facts);
        }
        tls_is_negotiated_exactly_for_https(steps[n], steps[n + 1]);
        if steps[n] is Negotiate && n > 0 {
            assert(can_come_after(steps[n - 1], steps[n]));
            lemma_course_keeps_its_route(steps, n - 1);
            tls_is_negotiated_exactly_for_https(steps[n - 1], steps[n]);
        }
    }
}

proof fn lemma_course_is_short<X, E>(steps: Seq<StepView<X, E>>, n: int)
    requires
        is_course(steps),
        0 <= n < steps.len(),
    ensures
        n <= steps[n].phase() <= 3,
    decreases n,
{
    if n > 0 {
        lemma_course_is_short(steps, n - 1);
        assert(can_come_after(steps[n - 1], steps[n]));
        phases_only_advance(steps[n - 1], steps[n]);
    }
}

/// A custom dialer is handed the origin, the requirement and the deadlines as they
/// were given. The deadline of the connector covers an establishment exactly where
/// the request sets no deadline for a phase of it.
pub proof fn establishments_are_begun_as_asked<D, T, R, X, E>(
    connector: Connector<D, T, R>,
    origin: Uri,
    require_http2: bool,
    options: RequestOptions,
    begun: (Option<Duration>, Establishment<X, E>),
)
    requires
        call_ensures(
            Connector::<D, T, R>::connect_with_options::<X, E>,
            (&connector, origin, require_http2, options),
            begun,
        ),
    ensures
        begun.0 is Some ==> begun.0 == connector@.connect_timeout,
        begun.0 is None <==> connector@.connect_timeout is None || options@.dns is Some
            || options@.connect is Some || options@.tls is Some,
        begun.1 is Dial <==> connector@.kind is Custom,
        begun.1 matches Establishment::Dial {
            origin: handed,
            require_http2: handed_requirement,
            options: handed_options,
        } ==> {
            &&& handed@ == origin@
            &&& handed_requirement == require_http2
            &&& handed_options@ == options@
        },
        begun.1 matches Establishment::Phases(step) ==> {
            &&& step is DialTcp ==> connector@.kind is Tcp
            &&& step is Resolve ==> connector@.kind is Direct
            &&& !(step is ConnectTcp) && !(step is Negotiate) && !(step is Done)
            &&& step is Fail <==> !(origin@.host is Some && (origin@.scheme == Some("http"@)
                || origin@.scheme == Some("https"@) && connector@.tls is Some))
        },
{
    reveal_strlit("http");
    reveal_strlit("https");
    assert("http"@.len() != "https"@.len());
}

/// A new connector dials directly, resolves by the system, staggers addresses by a
/// quarter of a second, has no deadline of its own and the standard TLS policy; each
/// choice of its builder replaces one part, and a dialer of one sort the other.
pub proof fn connector_choices_replace_one_part<D, T, R>(
    fresh: Connector<D, T, R>,
    before: ConnectorBuilder<D, T, R>,
    resolver: R,
    dialer: D,
    tcp_dialer: T,
    delay: Option<Duration>,
    timeout: Duration,
    config: rustls::ClientConfig,
    after: (
        ConnectorBuilder<D, T, R>,
        ConnectorBuilder<D, T, R>,
        ConnectorBuilder<D, T, R>,
        ConnectorBuilder<D, T, R>,
        ConnectorBuilder<D, T, R>,
        ConnectorBuilder<D, T, R>,
        ConnectorBuilder<D, T, R>,
    ),
    built: Connector<D, T, R>,
)
    requires
        call_ensures(Connector::<D, T, R>::new, (), fresh),
        call_ensures(ConnectorBuilder::<D, T, R>::resolver, (before, resolver), after.0),
        call_ensures(ConnectorBuilder::<D, T, R>::dialer, (before, dialer), after.1),
        call_ensures(ConnectorBuilder::<D, T, R>::tcp_dialer, (before, tcp_dialer), after.2),
        call_ensures(ConnectorBuilder::<D, T, R>::happy_eyeballs_timeout, (before, delay), after.3),
        call_ensures(ConnectorBuilder::<D, T, R>::connect_timeout, (before, timeout), after.4),
        call_ensures(ConnectorBuilder::<D, T, R>::tls_config, (before, config), after.5),
        call_ensures(ConnectorBuilder::<D, T, R>::without_tls, (before,), after.6),
        call_ensures(ConnectorBuilder::<D, T, R>::build, (before,), built),
    ensures
        fresh@.kind is Direct,
        fresh@.resolver is System,
        fresh@.happy_eyeballs_timeout == Some(millis_duration(250)),
        fresh@.connect_timeout is None,
        fresh@.tls matches Some(tls) && is_graviola(configured_provider(tls)) && are_webpki_roots(
            trusted_anchors(tls),
        ) && client_identity(tls) is None && offered_alpn(tls) == seq![alpn_h2(), alpn_http11()],
        after.0@ == (ConnectorPolicy { resolver: NameResolution::Custom(resolver), ..before@ }),
        after.1@ == (ConnectorPolicy { kind: ConnectorKind::Custom(dialer), ..before@ }),
        after.2@ == (ConnectorPolicy { kind: ConnectorKind::Tcp(tcp_dialer), ..before@ }),
        after.3@ == (ConnectorPolicy { happy_eyeballs_timeout: delay, ..before@ }),
        after.4@ == (ConnectorPolicy { connect_timeout: Some(timeout), ..before@ }),
        after.5@ == (ConnectorPolicy { tls: Some(config), ..before@ }),
        after.6@ == (ConnectorPolicy { tls: None, ..before@ }),
        built@ == before@,
{
}

/// Forcing HTTP/1 leaves nothing but `http/1.1` in what is offered, and changes
/// nothing else of a connector.
pub proof fn forced_connectors_offer_http1_alone<D, T, R>(connector: &mut Connector<D, T, R>)
    requires
        call_ensures(Connector::<D, T, R>::force_http1, (connector,), ()),
    ensures
        final(connector)@.kind == old(connector)@.kind,
        final(connector)@.resolver == old(connector)@.resolver,
        final(connector)@.happy_eyeballs_timeout == old(connector)@.happy_eyeballs_timeout,
        final(connector)@.connect_timeout == old(connector)@.connect_timeout,
        final(connector)@.tls is Some <==> old(connector)@.tls is Some,
        final(connector)@.tls matches Some(tls) ==> {
            &&& offered_alpn(tls) == seq![
                seq![104u8, 116u8, 116u8, 112u8, 47u8, 49u8, 46u8, 49u8],
            ]
            &&& besides_alpn(tls) == besides_alpn(old(connector)@.tls->0)
            &&& trusted_anchors(tls) == trusted_anchors(old(connector)@.tls->0)
            &&& enabled_versions(tls) == enabled_versions(old(connector)@.tls->0)
            &&& client_identity(tls) == client_identity(old(connector)@.tls->0)
            &&& configured_provider(tls) == configured_provider(old(connector)@.tls->0)
        },
{
}

/// What a custom dialer brings is handed on, its error under its own name.
pub proof fn dialers_are_taken_at_their_word<I, X, E>(
    outcome: Result<Connected<I>, X>,
    connected: Result<Connected<I>, ConnectError<X, E>>,
    late: ConnectError<X, E>,
)
    requires
        call_ensures(custom_dialed::<I, X, E>, (outcome,), connected),
        call_ensures(establishment_timed_out::<X, E>, (), late),
    ensures
        outcome matches Ok(stream) ==> connected == Ok::<_, ConnectError<X, E>>(stream),
        outcome matches Err(error) ==> connected == Err::<Connected<I>, _>(
            ConnectError::<X, E>::Custom(error),
        ),
        late is Timeout,
{
}

/// The shorthands for a connector give what its builder gives for the one choice, and a
/// provider is taken exactly where it can serve a version of TLS.
pub proof fn shorthands_make_one_choice<D, T, R>(
    dialer: D,
    tcp_dialer: T,
    resolver: R,
    config: rustls::ClientConfig,
    made: (Connector<D, T, R>, Connector<D, T, R>, Connector<D, T, R>, Connector<D, T, R>),
    plain: Connector<D, T, R>,
    provider: Arc<rustls::crypto::CryptoProvider>,
    over: Result<Connector<D, T, R>, TlsError>,
)
    requires
        call_ensures(Connector::<D, T, R>::with_dialer, (dialer,), made.0),
        call_ensures(Connector::<D, T, R>::with_tcp_dialer, (tcp_dialer,), made.1),
        call_ensures(Connector::<D, T, R>::with_resolver, (resolver,), made.2),
        call_ensures(Connector::<D, T, R>::with_tls_config, (config,), made.3),
        call_ensures(Connector::<D, T, R>::without_tls, (), plain),
        call_ensures(Connector::<D, T, R>::with_tls_provider, (provider,), over),
    ensures
        made.0@.kind == ConnectorKind::<D, T>::Custom(dialer),
        made.1@.kind == ConnectorKind::<D, T>::Tcp(tcp_dialer),
        made.2@.kind is Direct,
        made.2@.resolver == NameResolution::Custom(resolver),
        made.3@.tls == Some(config),
        made.0@ == (ConnectorPolicy {
            kind: made.0@.kind,
            tls: made.0@.tls,
            ..plain@
        }),
        made.1@ == (ConnectorPolicy { kind: made.1@.kind, tls: made.1@.tls, ..plain@ }),
        made.2@ == (ConnectorPolicy { resolver: made.2@.resolver, tls: made.2@.tls, ..plain@ }),
        made.3@ == (ConnectorPolicy { tls: made.3@.tls, ..plain@ }),
        made.0@.tls is Some && made.1@.tls is Some && made.2@.tls is Some,
        plain@.kind is Direct,
        plain@.resolver is System,
        plain@.happy_eyeballs_timeout == Some(millis_duration(250)),
        plain@.connect_timeout is None,
        plain@.tls is None,
        over is Ok <==> exists|version: TlsVersion| #[trigger]
            usable_versions(*provider).contains(version),
        over matches Ok(connector) ==> {
            &&& connector@ == (ConnectorPolicy { tls: connector@.tls, ..plain@ })
            &&& connector@.tls matches Some(tls)
            &&& configured_provider(tls) == *provider
            &&& offered_alpn(tls) == seq![alpn_h2(), alpn_http11()]
            &&& are_webpki_roots(trusted_anchors(tls))
            &&& client_identity(tls) is None
        },
{
    assert forall|version: TlsVersion| both_versions().contains(version) by {
        match version {
            TlsVersion::Tls12 => {},
            TlsVersion::Tls13 => {},
        }
    }
}

} // verus!
