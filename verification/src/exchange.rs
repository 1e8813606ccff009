//! The way of one request through the client.
//!
//! As with an establishment, each stage is a value that says what is to be done
//! next and what follows from its outcome.

use std::time::Duration;

use vstd::prelude::*;
use vstd::utf8::encode_utf8;

use crate::client::{Client, RequestPolicy};
use crate::connect::ConnectError;
use crate::error::{Error, ErrorKind, Failure};
use crate::events::{observations, DebugEvent, Observation};
use crate::info::{besides_info, stored_info, ConnectionFacts, ConnectionInfo, ResponseInfo};
use crate::normalize::{
    absolute_target, extract_pool_key, http1_request, http1_target_on_the_wire,
    normalize_h1_request, origin_of, pool_key_origin, HeadView, HttpVersion, NormalizeError,
    OriginView, PoolKey, RequestHead,
};
use crate::options::{Deadlines, RequestOptions};
use crate::session::PoolClient;
use crate::text::decimal;
use crate::uri::{Uri, UriView};

verus! {

/// Why the pool had no connection to hand out.
#[derive(Debug)]
pub enum CheckoutError<C> {
    /// The connection that was handed out had been closed.
    ClosedValue,
    /// The pool gave up on the request's behalf.
    NoLongerWanted,
    Other(C),
}

/// What a failed request can be traced back to. `X` is what a dialer or resolver
/// reports, `E` what a socket or TLS stream reports, `C` what the pool reports
/// and `H` what the protocol engine reports.
#[derive(Debug)]
pub enum Cause<X, E, C, H> {
    Target(NormalizeError),
    Checkout(CheckoutError<C>),
    Connect(ConnectError<X, E>),
    Protocol(H),
}

/// A classified failure of a request.
pub type ClientError<X, E, C, H> = Error<Cause<X, E, C, H>>;

/// A request that has been admitted and waits for a connection.
#[derive(Debug)]
pub struct Exchange {
    config: RequestPolicy,
    logging: bool,
    head: RequestHead,
    key: PoolKey,
    options: RequestOptions,
}

/// What an [`Exchange`] stands for.
pub ghost struct ExchangeView {
    pub config: RequestPolicy,
    /// Whether lifecycle events are recorded.
    pub logging: bool,
    /// The request, with an absolute target.
    pub head: HeadView,
    /// The origin that the request goes to.
    pub key: OriginView,
    pub options: Deadlines,
}

impl View for Exchange {
    type V = ExchangeView;

    closed spec fn view(&self) -> ExchangeView {
        ExchangeView {
            config: self.config,
            logging: self.logging,
            head: self.head@,
            key: self.key@,
            options: self.options@,
        }
    }
}

/// Why a request of this version and method is refused, if it is.
pub open spec fn refused_version(head: HeadView) -> Option<ErrorKind> {
    match head.version {
        HttpVersion::Http11 => None,
        HttpVersion::Http2 => None,
        HttpVersion::Http10 => if head.is_connect {
            Some(ErrorKind::UnsupportedMethod)
        } else {
            None
        },
        HttpVersion::Http09 => Some(ErrorKind::UnsupportedVersion),
        HttpVersion::Http3 => Some(ErrorKind::UnsupportedVersion),
    }
}

/// What becomes of a request that is handed to the client.
pub open spec fn admission<X, E, C, H>(
    config: RequestPolicy,
    logging: bool,
    head: HeadView,
    options: Deadlines,
) -> Result<ExchangeView, Failure<Cause<X, E, C, H>>> {
    match refused_version(head) {
        Some(kind) => Err(Failure::plain(kind)),
        None => match absolute_target(head.uri, head.is_connect) {
            None => Err(
                Failure::caused(
                    ErrorKind::AbsoluteUriRequired,
                    Cause::Target(NormalizeError::AbsoluteUriRequired),
                ),
            ),
            Some(target) => Ok(
                ExchangeView {
                    config,
                    logging,
                    head: HeadView { uri: target, ..head },
                    key: origin_of(target),
                    options,
                },
            ),
        },
    }
}

/// Where a connection is to come from.
#[derive(Clone, Copy, Debug, PartialEq, Eq, Structural)]
pub enum Acquisition {
    /// A new connection is opened.
    Connect,
    /// The pool is asked. Nothing is opened before it was.
    AskPool,
}

/// What follows an answer during the acquisition of a connection.
#[derive(Debug)]
pub enum Acquire<P, S> {
    Use(P),
    /// A new connection is opened while the pool is waited for; whichever is
    /// first, wins.
    Race,
    /// Only the new connection is left to wait for.
    AwaitConnect,
    /// Only the pool is left to wait for.
    AwaitCheckout,
    /// The acquisition starts over.
    Again,
    Fail(Error<S>),
}

/// What an [`Acquire`] stands for.
pub ghost enum AcquireView<P, S> {
    Use(P),
    Race,
    AwaitConnect,
    AwaitCheckout,
    Again,
    Fail(Failure<S>),
}

impl<P, S> View for Acquire<P, S> {
    type V = AcquireView<P, S>;

    open spec fn view(&self) -> AcquireView<P, S> {
        match *self {
            Acquire::Use(session) => AcquireView::Use(session),
            Acquire::Race => AcquireView::Race,
            Acquire::AwaitConnect => AcquireView::AwaitConnect,
            Acquire::AwaitCheckout => AcquireView::AwaitCheckout,
            Acquire::Again => AcquireView::Again,
            Acquire::Fail(error) => AcquireView::Fail(error@),
        }
    }
}

/// The outcome of a connection attempt, with the error as what it stands for.
pub open spec fn seen<P, S>(outcome: Result<P, Error<S>>) -> Result<P, Failure<S>> {
    match outcome {
        Ok(session) => Ok(session),
        Err(error) => Err(error@),
    }
}

/// Whether a connection is opened, or goes on being opened, for the request.
pub open spec fn opens_a_connection<P, S>(next: AcquireView<P, S>) -> bool {
    next is Race || next is AwaitConnect
}

/// The pool is asked before anything is opened. Where it has no answer yet, a new
/// connection races with it.
pub open spec fn pool_first<P, X, E, C, H>(
    answer: Option<Result<P, CheckoutError<C>>>,
    cancellation: bool,
) -> AcquireView<P, Cause<X, E, C, H>> {
    match answer {
        Some(outcome) => checkout_first(outcome, cancellation),
        None => AcquireView::Race,
    }
}

/// The pool answers before the new connection is there. `cancellation` says
/// whether its error is one that a new connection makes good.
pub open spec fn checkout_first<P, X, E, C, H>(
    outcome: Result<P, CheckoutError<C>>,
    cancellation: bool,
) -> AcquireView<P, Cause<X, E, C, H>> {
    match outcome {
        Ok(session) => AcquireView::Use(session),
        Err(error) => if cancellation {
            AcquireView::AwaitConnect
        } else {
            AcquireView::Fail(Failure::caused(ErrorKind::Connect, Cause::Checkout(error)))
        },
    }
}

/// The connection attempt is over before the pool has answered. One that was
/// canceled leaves the pool to wait for.
pub open spec fn connect_first<P, S>(outcome: Result<P, Failure<S>>) -> AcquireView<P, S> {
    match outcome {
        Ok(session) => AcquireView::Use(session),
        Err(failure) => if failure.kind == ErrorKind::Canceled {
            AcquireView::AwaitCheckout
        } else {
            AcquireView::Fail(failure)
        },
    }
}

/// The connection attempt is over, and the pool is not waited for.
pub open spec fn connect_last<P, S>(outcome: Result<P, Failure<S>>) -> AcquireView<P, S> {
    match outcome {
        Ok(session) => AcquireView::Use(session),
        Err(failure) => AcquireView::Fail(failure),
    }
}

/// The pool answers, and no connection attempt is waited for.
pub open spec fn checkout_last<P, X, E, C, H>(
    retry: bool,
    outcome: Result<P, CheckoutError<C>>,
) -> AcquireView<P, Cause<X, E, C, H>> {
    match outcome {
        Ok(session) => AcquireView::Use(session),
        Err(CheckoutError::Other(error)) => AcquireView::Fail(
            Failure::caused(ErrorKind::Connect, Cause::Checkout(CheckoutError::Other(error))),
        ),
        Err(_) => if retry {
            AcquireView::Again
        } else {
            AcquireView::Fail(Failure::plain(ErrorKind::Canceled))
        },
    }
}

/// A request that is being sent over a session.
#[derive(Debug)]
pub struct Dispatch {
    config: RequestPolicy,
    logging: bool,
    key: PoolKey,
    options: RequestOptions,
    absolute: Uri,
    sent: RequestHead,
    http2: bool,
    info: ConnectionInfo,
    reused: bool,
}

/// What a [`Dispatch`] stands for.
pub ghost struct DispatchView {
    pub config: RequestPolicy,
    pub logging: bool,
    pub key: OriginView,
    pub options: Deadlines,
    /// The absolute target of the request.
    pub absolute: UriView,
    /// The request as it is sent.
    pub sent: HeadView,
    /// Whether the session speaks HTTP/2.
    pub http2: bool,
    /// What is known of the connection.
    pub facts: ConnectionFacts,
    /// Whether the session had been in the pool.
    pub reused: bool,
}

impl View for Dispatch {
    type V = DispatchView;

    closed spec fn view(&self) -> DispatchView {
        DispatchView {
            config: self.config,
            logging: self.logging,
            key: self.key@,
            options: self.options@,
            absolute: self.absolute@,
            sent: self.sent@,
            http2: self.http2,
            facts: self.info@,
            reused: self.reused,
        }
    }
}

/// What becomes of a request that is given a session.
pub open spec fn dispatch<X, E, C, H>(
    exchange: ExchangeView,
    http2: bool,
    facts: ConnectionFacts,
    reused: bool,
) -> Result<DispatchView, Failure<Cause<X, E, C, H>>> {
    if !http2 && exchange.head.version == HttpVersion::Http2 {
        Err(Failure::plain(ErrorKind::UnsupportedVersion))
    } else {
        Ok(
            DispatchView {
                config: exchange.config,
                logging: exchange.logging,
                key: exchange.key,
                options: exchange.options,
                absolute: exchange.head.uri,
                sent: if http2 {
                    exchange.head
                } else {
                    http1_request(exchange.head, exchange.config.set_host)
                },
                http2,
                facts,
                reused,
            },
        )
    }
}

/// When a session goes back to its pool.
#[derive(Clone, Copy, Debug, PartialEq, Eq, Structural)]
pub enum Release {
    /// At once.
    Now,
    /// Once its driver reports that it can take another request.
    OnceReady,
}

/// When a session goes back to its pool after the response head has come. The end
/// of the response body is not what an HTTP/1 session waits for.
pub open spec fn release(http2: bool, pool_enabled: bool, ready: bool) -> Release {
    if http2 || !pool_enabled || ready {
        Release::Now
    } else {
        Release::OnceReady
    }
}

/// What follows when a request came back unsent.
#[derive(Debug)]
pub enum Unsent<S> {
    /// It is tried again; the events are to be recorded first.
    Again(Exchange, Vec<DebugEvent>),
    Fail(Error<S>),
}

/// What an [`Unsent`] stands for.
pub ghost enum UnsentView<S> {
    Again(ExchangeView, Seq<Observation>),
    Fail(Failure<S>),
}

impl<S> View for Unsent<S> {
    type V = UnsentView<S>;

    open spec fn view(&self) -> UnsentView<S> {
        match *self {
            Unsent::Again(exchange, events) => UnsentView::Again(
                exchange@,
                observations(events@),
            ),
            Unsent::Fail(error) => UnsentView::Fail(error@),
        }
    }
}

/// What follows when a request came back unsent: with retries on, one that was
/// given a session out of the pool is tried again, with its absolute target.
pub open spec fn after_unsent<X, E, C, H>(dispatch: DispatchView, error: H) -> UnsentView<
    Cause<X, E, C, H>,
> {
    if dispatch.config.retry_canceled_requests && dispatch.reused {
        UnsentView::Again(
            ExchangeView {
                config: dispatch.config,
                logging: dispatch.logging,
                head: HeadView { uri: dispatch.absolute, ..dispatch.sent },
                key: dispatch.key,
                options: dispatch.options,
            },
            if dispatch.logging {
                seq![Observation::StaleRetry { origin: dispatch.key.text() }]
            } else {
                seq![]
            },
        )
    } else {
        UnsentView::Fail(Failure::caused(ErrorKind::Canceled, Cause::Protocol(error)))
    }
}

impl Exchange {
    #[verifier::type_invariant]
    spec fn target_has_a_host(self) -> bool {
        self.head@.uri.host is Some
    }

    /// Admits a request, or refuses it.
    pub(crate) fn enter<X, E, C, H>(
        config: RequestPolicy,
        logging: bool,
        head: RequestHead,
        options: RequestOptions,
    ) -> (admitted: Result<Exchange, ClientError<X, E, C, H>>)
        ensures
            match admission::<X, E, C, H>(config, logging, head@, options@) {
                Ok(expected) => admitted matches Ok(exchange) && exchange@ == expected,
                Err(failure) => admitted matches Err(error) && error@ == failure,
            },
    {
        match head.version {
            HttpVersion::Http11 | HttpVersion::Http2 => {},
            HttpVersion::Http10 => {
                if head.is_connect {
                    return Err(Error::new(ErrorKind::UnsupportedMethod));
                }
            },
            HttpVersion::Http09 | HttpVersion::Http3 => {
                return Err(Error::new(ErrorKind::UnsupportedVersion));
            },
        }
        let mut head = head;
        proof {
            use_type_invariant(&head.uri);
        }
        match extract_pool_key(&mut head.uri, head.is_connect) {
            Ok(key) => Ok(Exchange { config, logging, head, key, options }),
            Err(error) => Err(
                Error::with_source(ErrorKind::AbsoluteUriRequired, Cause::Target(error)),
            ),
        }
    }

    /// The origin that the request goes to.
    pub fn key(&self) -> (key: &PoolKey)
        ensures
            key@ == self@.key,
    {
        &self.key
    }

    /// The deadlines of the request.
    pub fn options(&self) -> (options: RequestOptions)
        ensures
            options@ == self@.options,
    {
        self.options
    }

    /// The request, with an absolute target.
    pub fn head(&self) -> (head: &RequestHead)
        ensures
            head@ == self@.head,
    {
        &self.head
    }

    /// Where a connection is to come from.
    pub fn acquire(&self, pool_enabled: bool) -> (acquisition: Acquisition)
        ensures
            acquisition == (if pool_enabled {
                Acquisition::AskPool
            } else {
                Acquisition::Connect
            }),
    {
        if pool_enabled {
            Acquisition::AskPool
        } else {
            Acquisition::Connect
        }
    }

    /// The pool has been asked: it has an answer at once, or none yet.
    /// `cancellation` says whether its error is one that a new connection makes
    /// good.
    pub fn pool_asked<P, X, E, C, H>(
        &self,
        answer: Option<Result<P, CheckoutError<C>>>,
        cancellation: bool,
    ) -> (next: Acquire<P, Cause<X, E, C, H>>)
        ensures
            next@ == pool_first::<P, X, E, C, H>(answer, cancellation),
    {
        match answer {
            Some(outcome) => self.checkout_came_first(outcome, cancellation),
            None => Acquire::Race,
        }
    }

    /// The pool has answered before the new connection is there. `cancellation`
    /// says whether its error is one that a new connection makes good.
    pub fn checkout_came_first<P, X, E, C, H>(
        &self,
        outcome: Result<P, CheckoutError<C>>,
        cancellation: bool,
    ) -> (next: Acquire<P, Cause<X, E, C, H>>)
        ensures
            next@ == checkout_first::<P, X, E, C, H>(outcome, cancellation),
    {
        match outcome {
            Ok(session) => Acquire::Use(session),
            Err(error) => {
                if cancellation {
                    Acquire::AwaitConnect
                } else {
                    Acquire::Fail(Error::with_source(ErrorKind::Connect, Cause::Checkout(error)))
                }
            },
        }
    }

    /// The connection attempt is over before the pool has answered.
    pub fn connect_came_first<P, S>(&self, outcome: Result<P, Error<S>>) -> (next: Acquire<P, S>)
        ensures
            next@ == connect_first(seen(outcome)),
    {
        match outcome {
            Ok(session) => Acquire::Use(session),
            Err(error) => {
                if error.kind() == ErrorKind::Canceled {
                    Acquire::AwaitCheckout
                } else {
                    Acquire::Fail(error)
                }
            },
        }
    }

    /// The connection attempt is over, and the pool is not waited for.
    pub fn connect_came_last<P, S>(&self, outcome: Result<P, Error<S>>) -> (next: Acquire<P, S>)
        ensures
            next@ == connect_last(seen(outcome)),
    {
        match outcome {
            Ok(session) => Acquire::Use(session),
            Err(error) => Acquire::Fail(error),
        }
    }

    /// The pool has answered, and no connection attempt is waited for.
    pub fn checkout_came_last<P, X, E, C, H>(
        &self,
        outcome: Result<P, CheckoutError<C>>,
    ) -> (next: Acquire<P, Cause<X, E, C, H>>)
        ensures
            next@ == checkout_last::<P, X, E, C, H>(self@.config.retry_canceled_requests, outcome),
    {
        match outcome {
            Ok(session) => Acquire::Use(session),
            Err(CheckoutError::Other(error)) => Acquire::Fail(
                Error::with_source(
                    ErrorKind::Connect,
                    Cause::Checkout(CheckoutError::Other(error)),
                ),
            ),
            Err(_) => {
                if self.config.retry_canceled_requests {
                    Acquire::Again
                } else {
                    Acquire::Fail(Error::new(ErrorKind::Canceled))
                }
            },
        }
    }

    /// Puts the request into the form that the session takes, or refuses it.
    /// `reused` says whether the session had been in the pool.
    pub fn send_over<H1, H2, X, E, C, H>(self, session: &PoolClient<H1, H2>, reused: bool) -> (next:
        Result<Dispatch, ClientError<X, E, C, H>>)
        ensures
            match dispatch::<X, E, C, H>(
                self@,
                session@.sender is Http2,
                session@.facts,
                reused,
            ) {
                Ok(expected) => next matches Ok(dispatch) && dispatch@ == expected,
                Err(failure) => next matches Err(error) && error@ == failure,
            },
    {
        proof {
            use_type_invariant(&self);
        }
        let absolute = self.head.uri.duplicate();
        let mut sent = self.head;
        let http2 = session.is_http2();
        if !http2 {
            if sent.version == HttpVersion::Http2 {
                return Err(Error::new(ErrorKind::UnsupportedVersion));
            }
            normalize_h1_request(&mut sent, self.config.set_host);
        }
        Ok(
            Dispatch {
                config: self.config,
                logging: self.logging,
                key: self.key,
                options: self.options,
                absolute,
                sent,
                http2,
                info: session.connection_info(),
                reused,
            },
        )
    }
}

impl Dispatch {
    #[verifier::type_invariant]
    spec fn target_has_a_host(self) -> bool {
        self.absolute@.host is Some
    }

    /// The request as it is to be sent.
    pub fn head(&self) -> (head: &RequestHead)
        ensures
            head@ == self@.sent,
    {
        &self.sent
    }

    /// The deadline until the response head, which covers this dispatch alone.
    pub fn timeout(&self) -> (timeout: Option<Duration>)
        ensures
            timeout == self@.options.headers,
    {
        self.options.headers_timeout()
    }

    /// The response head has come: describes the transport among the extensions
    /// of the response, and says when the session goes back to its pool.
    pub fn answered(
        self,
        extensions: &mut http::Extensions,
        pool_enabled: bool,
        ready: bool,
    ) -> (released: Release)
        ensures
            stored_info(*final(extensions)) matches Some(info) && info.spec_connection()@
                == self@.facts && info.spec_reused() == self@.reused,
            besides_info(*final(extensions)) == besides_info(*old(extensions)),
            released == release(self@.http2, pool_enabled, ready),
    {
        ResponseInfo::new(self.info, self.reused).attach(extensions);
        if self.http2 || !pool_enabled || ready {
            Release::Now
        } else {
            Release::OnceReady
        }
    }

    /// The deadline has passed before the response head came.
    pub fn timed_out<S>(self) -> (error: Error<S>)
        ensures
            error@ == Failure::<S>::plain(ErrorKind::HeadersTimeout),
    {
        Error::new(ErrorKind::HeadersTimeout)
    }

    /// The request was sent, at least in part, and failed.
    pub fn failed<X, E, C, H>(self, error: H) -> (failed: ClientError<X, E, C, H>)
        ensures
            failed@ == Failure::<Cause<X, E, C, H>>::caused(
                ErrorKind::SendRequest,
                Cause::Protocol(error),
            ),
    {
        Error::with_source(ErrorKind::SendRequest, Cause::Protocol(error))
    }

    /// The request came back unsent.
    pub fn unsent<X, E, C, H>(self, error: H) -> (next: Unsent<Cause<X, E, C, H>>)
        ensures
            next@ == after_unsent::<X, E, C, H>(self@, error),
    {
        proof {
            use_type_invariant(&self);
        }
        if !self.config.retry_canceled_requests || !self.reused {
            return Unsent::Fail(Error::with_source(ErrorKind::Canceled, Cause::Protocol(error)));
        }
        let mut events: Vec<DebugEvent> = Vec::new();
        if self.logging {
            events.push(DebugEvent::StaleRetry { origin: pool_key_origin(&self.key) });
        }
        assert(observations(events@) =~= (if self.logging {
            seq![Observation::StaleRetry { origin: self.key@.text() }]
        } else {
            seq![]
        }));
        let head = RequestHead {
            is_connect: self.sent.is_connect,
            version: self.sent.version,
            uri: self.absolute,
            host: self.sent.host,
        };
        Unsent::Again(
            Exchange {
                config: self.config,
                logging: self.logging,
                head,
                key: self.key,
                options: self.options,
            },
            events,
        )
    }
}

/// Deadlines never take part in the identity of a pooled connection: whether a
/// request is admitted, and to which origin, does not depend on them.
pub proof fn deadlines_do_not_fragment_the_pool<X, E, C, H>(
    config: RequestPolicy,
    logging: bool,
    head: HeadView,
    some: Deadlines,
    others: Deadlines,
)
    ensures
        match (
            admission::<X, E, C, H>(config, logging, head, some),
            admission::<X, E, C, H>(config, logging, head, others),
        ) {
            (Ok(one), Ok(other)) => one.key == other.key && one.head == other.head,
            (Err(one), Err(other)) => one == other,
            _ => false,
        },
{
}

/// Whatever is admitted has an absolute target and goes to the origin of it, and
/// is otherwise the request that was handed in.
pub proof fn admitted_targets_are_absolute<X, E, C, H>(
    config: RequestPolicy,
    logging: bool,
    head: HeadView,
    options: Deadlines,
)
    requires
        head.uri.wf(),
    ensures
        admission::<X, E, C, H>(config, logging, head, options) matches Ok(exchange) ==> {
            &&& exchange.head.uri.wf()
            &&& exchange.head.uri.scheme is Some
            &&& exchange.head.uri.host is Some
            &&& exchange.key == origin_of(exchange.head.uri)
            &&& exchange.head == (HeadView { uri: exchange.head.uri, ..head })
            &&& exchange.options == options
        },
{
}

/// A request with an absolute target and a current version is admitted, and as it
/// is.
pub proof fn admission_keeps_the_request<X, E, C, H>(
    config: RequestPolicy,
    logging: bool,
    head: HeadView,
    options: Deadlines,
)
    requires
        head.uri.wf(),
        head.uri.scheme is Some,
        head.uri.authority is Some,
        head.version == HttpVersion::Http11 || head.version == HttpVersion::Http2,
    ensures
        admission::<X, E, C, H>(config, logging, head, options) matches Ok(exchange)
            && exchange.head == head && exchange.key == origin_of(head.uri),
{
}

/// An HTTP/2 request is never sent over an HTTP/1 session.
pub proof fn http2_requests_need_http2_sessions<X, E, C, H>(
    exchange: ExchangeView,
    http2: bool,
    facts: ConnectionFacts,
    reused: bool,
)
    requires
        exchange.head.version == HttpVersion::Http2,
    ensures
        dispatch::<X, E, C, H>(exchange, http2, facts, reused) is Ok <==> http2,
{
}

/// A request is tried again only where retries are on and its session had been in
/// the pool: a connection that was opened for it is not replaced.
pub proof fn only_reused_sessions_are_retried<X, E, C, H>(dispatch: DispatchView, error: H)
    ensures
        after_unsent::<X, E, C, H>(dispatch, error) is Again <==> dispatch.reused
            && dispatch.config.retry_canceled_requests,
{
}

/// A request that is tried again goes to the same origin, with the same absolute
/// target, under the same deadlines; and over a session of the same protocol it is
/// sent exactly as it was before.
pub proof fn retry_sends_the_same_request<X, E, C, H>(
    exchange: ExchangeView,
    http2: bool,
    facts: ConnectionFacts,
    later_facts: ConnectionFacts,
    later_reused: bool,
    error: H,
)
    requires
        exchange.config.retry_canceled_requests,
        dispatch::<X, E, C, H>(exchange, http2, facts, true) is Ok,
    ensures
        ({
            let first = dispatch::<X, E, C, H>(exchange, http2, facts, true)->Ok_0;
            &&& after_unsent::<X, E, C, H>(first, error) matches UnsentView::Again(again, _)
            &&& again.key == exchange.key
            &&& again.options == exchange.options
            &&& again.head.uri == exchange.head.uri
            &&& dispatch::<X, E, C, H>(again, http2, later_facts, later_reused) matches Ok(second)
            &&& second.sent == first.sent
        }),
{
}

/// An acquisition waits for at most one further answer: after the first answer of
/// a race, the second one settles it.
pub proof fn acquisition_is_settled_by_the_second_answer<P, X, E, C, H>(
    retry: bool,
    connect: Result<P, Failure<Cause<X, E, C, H>>>,
    checkout: Result<P, CheckoutError<C>>,
)
    ensures
        !(connect_last(connect) is AwaitConnect) && !(connect_last(connect) is AwaitCheckout),
        !(connect_last(connect) is Again) && !(connect_last(connect) is Race),
        !(checkout_last::<P, X, E, C, H>(retry, checkout) is Race),
        !(checkout_last::<P, X, E, C, H>(retry, checkout) is AwaitConnect),
        !(checkout_last::<P, X, E, C, H>(retry, checkout) is AwaitCheckout),
        !retry ==> !(checkout_last::<P, X, E, C, H>(retry, checkout) is Again),
{
}

/// A session that is idle in the pool is reused whatever the deadlines of the
/// request: the pool answers at once with that session, no connection is opened,
/// and over the session the request is sent as it would be under any other
/// deadlines, of which only the one for the response head applies. The response
/// then says that the session was reused.
pub proof fn idle_session_is_reused_whatever_the_deadlines<P, X, E, C, H>(
    config: RequestPolicy,
    logging: bool,
    head: HeadView,
    some: Deadlines,
    others: Deadlines,
    session: P,
    cancellation: bool,
    http2: bool,
    facts: ConnectionFacts,
)
    ensures
        pool_first::<P, X, E, C, H>(Some(Ok(session)), cancellation) == AcquireView::<
            P,
            Cause<X, E, C, H>,
        >::Use(session),
        !opens_a_connection(pool_first::<P, X, E, C, H>(Some(Ok(session)), cancellation)),
        match (
            admission::<X, E, C, H>(config, logging, head, some),
            admission::<X, E, C, H>(config, logging, head, others),
        ) {
            (Ok(one), Ok(other)) => {
                &&& one.key == other.key
                &&& match (
                    dispatch::<X, E, C, H>(one, http2, facts, true),
                    dispatch::<X, E, C, H>(other, http2, facts, true),
                ) {
                    (Ok(first), Ok(second)) => {
                        &&& second == (DispatchView { options: others, ..first })
                        &&& first.reused
                        &&& first.facts == facts
                    },
                    (Err(first), Err(second)) => first == second,
                    _ => false,
                }
            },
            (Err(one), Err(other)) => one == other,
            _ => false,
        },
{
}

/// Whichever answer brings a session, that session is used.
pub proof fn first_session_is_used<P, X, E, C, H>(session: P, cancellation: bool, retry: bool)
    ensures
        pool_first::<P, X, E, C, H>(Some(Ok(session)), cancellation) == AcquireView::<
            P,
            Cause<X, E, C, H>,
        >::Use(session),
        checkout_first::<P, X, E, C, H>(Ok(session), cancellation) == AcquireView::<
            P,
            Cause<X, E, C, H>,
        >::Use(session),
        checkout_last::<P, X, E, C, H>(retry, Ok(session)) == AcquireView::<
            P,
            Cause<X, E, C, H>,
        >::Use(session),
        connect_first::<P, Cause<X, E, C, H>>(Ok(session)) == AcquireView::<
            P,
            Cause<X, E, C, H>,
        >::Use(session),
        connect_last::<P, Cause<X, E, C, H>>(Ok(session)) == AcquireView::<
            P,
            Cause<X, E, C, H>,
        >::Use(session),
{
}

/// Whether a request is admitted depends on its version, its method and its target
/// alone: HTTP/1.0 cannot tunnel, HTTP/0.9 and HTTP/3 are not spoken, and a target
/// needs an authority, and a scheme too unless a tunnel is asked for. What is admitted
/// is the request as it was handed in, for the origin of its target.
pub proof fn requests_are_admitted_by_version_and_target<D, T, R, L, X, E, C, H>(
    client: Client<D, T, R, L>,
    head: RequestHead,
    options: RequestOptions,
    admitted: Result<Exchange, ClientError<X, E, C, H>>,
)
    requires
        head@.uri.wf(),
        call_ensures(
            Client::<D, T, R, L>::request_with_options::<X, E, C, H>,
            (&client, head, options),
            admitted,
        ),
    ensures
        ({
            let spoken = head@.version == HttpVersion::Http11 || head@.version
                == HttpVersion::Http2 || head@.version == HttpVersion::Http10;
            let tunnel_in_http10 = head@.version == HttpVersion::Http10 && head@.is_connect;
            let routed = head@.uri.authority is Some && (head@.uri.scheme is Some
                || head@.is_connect);
            &&& admitted is Ok <==> spoken && !tunnel_in_http10 && routed
            &&& admitted matches Err(error) ==> {
                &&& error@.kind == (if !spoken {
                    ErrorKind::UnsupportedVersion
                } else if tunnel_in_http10 {
                    ErrorKind::UnsupportedMethod
                } else {
                    ErrorKind::AbsoluteUriRequired
                })
                &&& error@.cause == (if spoken && !tunnel_in_http10 {
                    Some(Cause::<X, E, C, H>::Target(NormalizeError::AbsoluteUriRequired))
                } else {
                    None
                })
            }
        }),
        admitted matches Ok(exchange) ==> {
            &&& exchange@.config == client@.config
            &&& exchange@.logging <==> client@.debug_events is Some
            &&& exchange@.options == options@
            &&& exchange@.head.is_connect == head@.is_connect
            &&& exchange@.head.version == head@.version
            &&& exchange@.head.host == head@.host
            &&& head@.uri.scheme is Some ==> exchange@.head.uri == head@.uri
            &&& exchange@.head.uri.authority == head@.uri.authority
            &&& exchange@.head.uri.host == head@.uri.host
            &&& exchange@.head.uri.port == head@.uri.port
            &&& Some(exchange@.key.scheme) == exchange@.head.uri.scheme
            &&& Some(exchange@.key.authority) == exchange@.head.uri.authority
            &&& Some(exchange@.key.host) == exchange@.head.uri.host
            &&& exchange@.key.port == exchange@.head.uri.port
        },
{
}

/// Over an HTTP/2 session every admitted request is sent, whatever version it asks
/// for, and as it is: with its absolute target and with no `Host` added.
pub proof fn http2_sessions_take_requests_as_they_are<H1, H2, X, E, C, H>(
    exchange: Exchange,
    session: PoolClient<H1, H2>,
    reused: bool,
    next: Result<Dispatch, ClientError<X, E, C, H>>,
)
    requires
        session@.sender is Http2,
        call_ensures(
            Exchange::send_over::<H1, H2, X, E, C, H>,
            (exchange, &session, reused),
            next,
        ),
    ensures
        next matches Ok(dispatch) && dispatch@.sent == exchange@.head && dispatch@.http2,
{
}

/// Over an HTTP/1 session a request is sent unless it asks for HTTP/2, and is cut down
/// to what an HTTP/1 origin is asked: its path alone, or its authority for a tunnel,
/// with a `Host` that names the host of the target where the request has none and the
/// client adds one.
pub proof fn http1_sessions_take_requests_cut_down<H1, H2, X, E, C, H>(
    exchange: Exchange,
    session: PoolClient<H1, H2>,
    reused: bool,
    next: Result<Dispatch, ClientError<X, E, C, H>>,
)
    requires
        session@.sender is Http1,
        exchange@.head.uri.wf(),
        exchange@.head.uri.scheme is Some,
        call_ensures(
            Exchange::send_over::<H1, H2, X, E, C, H>,
            (exchange, &session, reused),
            next,
        ),
    ensures
        next is Ok <==> exchange@.head.version != HttpVersion::Http2,
        next matches Err(error) ==> error@.kind == ErrorKind::UnsupportedVersion
            && error@.cause is None,
        next matches Ok(dispatch) ==> {
            let (given, sent) = (exchange@.head, dispatch@.sent);
            let implied: u16 = if given.uri.scheme == Some("https"@) {
                443
            } else {
                80
            };
            &&& !dispatch@.http2
            &&& sent.is_connect == given.is_connect
            &&& sent.version == given.version
            &&& sent.uri.text() == (if given.is_connect {
                given.uri.authority->0
            } else {
                given.uri.path_and_query->0
            })
            &&& sent.uri.scheme is None
            &&& sent.uri.authority is Some <==> given.is_connect
            &&& given.host is Some || !exchange@.config.set_host ==> sent.host == given.host
            &&& given.host is None && exchange@.config.set_host ==> sent.host == Some(
                match given.uri.port {
                    Some(port) => if port == implied {
                        encode_utf8(given.uri.host->0)
                    } else {
                        encode_utf8(given.uri.host->0 + ":"@ + decimal(port as nat))
                    },
                    None => encode_utf8(given.uri.host->0),
                },
            )
        },
{
    http1_target_on_the_wire(exchange@.head, exchange@.config.set_host);
}

/// Whatever the session, a dispatch keeps the origin, the absolute target, the
/// deadlines and the policy of the request, and what is known of the session.
pub proof fn dispatches_keep_the_exchange<H1, H2, X, E, C, H>(
    exchange: Exchange,
    session: PoolClient<H1, H2>,
    reused: bool,
    next: Result<Dispatch, ClientError<X, E, C, H>>,
)
    requires
        call_ensures(
            Exchange::send_over::<H1, H2, X, E, C, H>,
            (exchange, &session, reused),
            next,
        ),
    ensures
        next matches Ok(dispatch) ==> {
            &&& dispatch@.config == exchange@.config
            &&& dispatch@.logging == exchange@.logging
            &&& dispatch@.key == exchange@.key
            &&& dispatch@.options == exchange@.options
            &&& dispatch@.absolute == exchange@.head.uri
            &&& dispatch@.http2 <==> session@.sender is Http2
            &&& dispatch@.facts == session@.facts
            &&& dispatch@.reused == reused
        },
{
}

/// The deadline of a dispatch is the one that the request set for its response head.
/// An answer describes the connection that it came over and whether that had been in
/// the pool, and leaves the rest of the response's extensions alone. The session goes
/// back at once, unless it is an HTTP/1 session of a pool that is still busy.
pub proof fn answers_describe_their_transport(
    dispatch: Dispatch,
    timeout: Option<Duration>,
    extensions: &mut http::Extensions,
    pool_enabled: bool,
    ready: bool,
    released: Release,
)
    requires
        call_ensures(Dispatch::timeout, (&dispatch,), timeout),
        call_ensures(Dispatch::answered, (dispatch, extensions, pool_enabled, ready), released),
    ensures
        timeout == dispatch@.options.headers,
        stored_info(*final(extensions)) matches Some(info) && info.spec_connection()@
            == dispatch@.facts && info.spec_reused() == dispatch@.reused,
        besides_info(*final(extensions)) == besides_info(*old(extensions)),
        released == Release::OnceReady <==> !dispatch@.http2 && pool_enabled && !ready,
{
}

/// A request that came back unsent is tried again exactly where retries are on and its
/// session had been in the pool: with its absolute target, and otherwise as it was to
/// be sent, for the same origin, under the same deadlines and policy. The retry is
/// recorded exactly where events are. Any other request fails, and keeps the error.
pub proof fn unsent_requests_are_tried_again_or_fail<X, E, C, H>(
    dispatch: Dispatch,
    error: H,
    next: Unsent<Cause<X, E, C, H>>,
)
    requires
        call_ensures(Dispatch::unsent::<X, E, C, H>, (dispatch, error), next),
    ensures
        next is Again <==> dispatch@.reused && dispatch@.config.retry_canceled_requests,
        next matches Unsent::Fail(failed) ==> failed@.kind == ErrorKind::Canceled && failed@.cause
            == Some(Cause::<X, E, C, H>::Protocol(error)),
        next matches Unsent::Again(exchange, events) ==> {
            &&& exchange@.head.uri == dispatch@.absolute
            &&& exchange@.head.is_connect == dispatch@.sent.is_connect
            &&& exchange@.head.version == dispatch@.sent.version
            &&& exchange@.head.host == dispatch@.sent.host
            &&& exchange@.key == dispatch@.key
            &&& exchange@.options == dispatch@.options
            &&& exchange@.config == dispatch@.config
            &&& exchange@.logging == dispatch@.logging
            &&& events@.len() == (if dispatch@.logging {
                1int
            } else {
                0
            })
            &&& dispatch@.logging ==> events@[0]@ == (Observation::StaleRetry {
                origin: dispatch@.key.scheme + "://"@ + dispatch@.key.authority,
            })
        },
{
    if let Unsent::Again(exchange, events) = next {
        let seen = observations(events@);
        assert(seen.len() == events@.len());
        if dispatch@.logging {
            assert(seen[0] == events@[0]@);
        }
    }
}

/// A request that went out is not tried again: it fails, by its deadline without a
/// cause and by an error of the engine with that error.
pub proof fn requests_that_went_out_fail<X, E, C, H>(
    dispatch: Dispatch,
    late: Error<Cause<X, E, C, H>>,
    error: H,
    broken: ClientError<X, E, C, H>,
)
    requires
        call_ensures(Dispatch::timed_out::<Cause<X, E, C, H>>, (dispatch,), late),
        call_ensures(Dispatch::failed::<X, E, C, H>, (dispatch, error), broken),
    ensures
        late@.kind == ErrorKind::HeadersTimeout,
        late@.cause is None,
        broken@.kind == ErrorKind::SendRequest,
        broken@.cause == Some(Cause::<X, E, C, H>::Protocol(error)),
{
}

/// An acquisition asks the pool first where there is one, and opens a connection where
/// there is none. A session that anyone brings is used, and that very session.
/// An answer of the pool that a new connection makes good leaves that connection to
/// wait for, and a connection attempt that was given up leaves the pool; any other
/// error is final and kept.
pub proof fn the_first_answer_is_taken<P, X, E, C, H>(
    exchange: Exchange,
    pool_enabled: bool,
    acquisition: Acquisition,
    answer: Option<Result<P, CheckoutError<C>>>,
    cancellation: bool,
    asked: Acquire<P, Cause<X, E, C, H>>,
    connect: Result<P, ClientError<X, E, C, H>>,
    connected: Acquire<P, Cause<X, E, C, H>>,
)
    requires
        call_ensures(Exchange::acquire, (&exchange, pool_enabled), acquisition),
        call_ensures(
            Exchange::pool_asked::<P, X, E, C, H>,
            (&exchange, answer, cancellation),
            asked,
        ),
        call_ensures(
            Exchange::connect_came_first::<P, Cause<X, E, C, H>>,
            (&exchange, connect),
            connected,
        ),
    ensures
        acquisition == Acquisition::AskPool <==> pool_enabled,
        asked is Race <==> answer is None,
        answer matches Some(Ok(session)) ==> asked == Acquire::<P, Cause<X, E, C, H>>::Use(session),
        answer matches Some(Err(error)) ==> {
            &&& asked is AwaitConnect <==> cancellation
            &&& !cancellation ==> {
                &&& asked matches Acquire::Fail(failed)
                &&& failed@.kind == ErrorKind::Connect
                &&& failed@.cause == Some(Cause::<X, E, C, H>::Checkout(error))
            }
        },
        connect matches Ok(session) ==> connected == Acquire::<P, Cause<X, E, C, H>>::Use(session),
        connect matches Err(error) ==> {
            &&& connected is AwaitCheckout <==> error@.kind == ErrorKind::Canceled
            &&& error@.kind != ErrorKind::Canceled ==> {
                &&& connected matches Acquire::Fail(failed)
                &&& failed@ == error@
            }
        },
{
}

/// The second answer settles an acquisition. A session is used; a new connection's
/// error is final; and a pool that had nothing good starts the acquisition over where
/// retries are on, and is otherwise told as a canceled request.
pub proof fn the_second_answer_settles<P, X, E, C, H>(
    exchange: Exchange,
    connect: Result<P, ClientError<X, E, C, H>>,
    connected: Acquire<P, Cause<X, E, C, H>>,
    checkout: Result<P, CheckoutError<C>>,
    cancellation: bool,
    first: Acquire<P, Cause<X, E, C, H>>,
    asked: Acquire<P, Cause<X, E, C, H>>,
    last: Acquire<P, Cause<X, E, C, H>>,
)
    requires
        call_ensures(
            Exchange::connect_came_last::<P, Cause<X, E, C, H>>,
            (&exchange, connect),
            connected,
        ),
        call_ensures(
            Exchange::checkout_came_first::<P, X, E, C, H>,
            (&exchange, checkout, cancellation),
            first,
        ),
        call_ensures(
            Exchange::pool_asked::<P, X, E, C, H>,
            (&exchange, Some(checkout), cancellation),
            asked,
        ),
        call_ensures(
            Exchange::checkout_came_last::<P, X, E, C, H>,
            (&exchange, checkout),
            last,
        ),
    ensures
        first@ == asked@,
        connect matches Ok(session) ==> connected == Acquire::<P, Cause<X, E, C, H>>::Use(session),
        connect matches Err(error) ==> {
            &&& connected matches Acquire::Fail(failed)
            &&& failed@ == error@
        },
        checkout matches Ok(session) ==> last == Acquire::<P, Cause<X, E, C, H>>::Use(session),
        checkout matches Err(error) ==> {
            &&& last is Again <==> !(error is Other) && exchange@.config.retry_canceled_requests
            &&& last is Again || last is Fail
            &&& last matches Acquire::Fail(failed) ==> if error is Other {
                failed@.kind == ErrorKind::Connect && failed@.cause == Some(
                    Cause::<X, E, C, H>::Checkout(error),
                )
            } else {
                failed@.kind == ErrorKind::Canceled && failed@.cause is None
            }
        },
{
}

} // verus!
