//! HTTP sessions: from an established stream to a connection that can be pooled.

use std::time::Duration;

use vstd::prelude::*;

use crate::client::PoolProtocol;
use crate::connect::{ConnectError, Connected};
use crate::error::{Error, ErrorKind, Failure};
use crate::events::{observations, DebugEvent, Observation};
use crate::exchange::{Cause, ClientError};
use crate::info::{ConnectionFacts, ConnectionInfo, ConnectionProtocol};
use crate::normalize::{pool_key_origin, PoolKey};

verus! {

/// The protocols that the protocol engine at hand can speak.
#[derive(Clone, Copy, Debug, PartialEq, Eq, Structural)]
pub struct EnabledProtocols {
    pub http1: bool,
    pub http2: bool,
}

/// A connection that is being established for an origin.
#[derive(Debug)]
pub struct Connecting {
    origin: String,
    secure: bool,
    protocol: PoolProtocol,
    logging: bool,
}

/// What a [`Connecting`] stands for.
pub ghost struct ConnectingView {
    /// The origin as it is written in diagnostics.
    pub origin: Seq<char>,
    /// Whether the origin is reached over TLS.
    pub secure: bool,
    /// The protocols that the client allows.
    pub protocol: PoolProtocol,
    /// Whether lifecycle events are recorded.
    pub logging: bool,
}

impl View for Connecting {
    type V = ConnectingView;

    closed spec fn view(&self) -> ConnectingView {
        ConnectingView {
            origin: self.origin@,
            secure: self.secure,
            protocol: self.protocol,
            logging: self.logging,
        }
    }
}

/// An established stream whose HTTP handshake is due.
#[derive(Debug)]
pub struct Handshake<I> {
    io: I,
    protocol: ConnectionProtocol,
    info: ConnectionInfo,
}

/// What a [`Handshake`] stands for.
pub ghost struct HandshakeView<I> {
    pub io: I,
    pub protocol: ConnectionProtocol,
    pub facts: ConnectionFacts,
}

impl<I> View for Handshake<I> {
    type V = HandshakeView<I>;

    closed spec fn view(&self) -> HandshakeView<I> {
        HandshakeView { io: self.io, protocol: self.protocol, facts: self.info@ }
    }
}

/// What follows an establishment.
#[derive(Debug)]
pub enum Established<I, S> {
    /// The origin turned out to speak HTTP/2: the pool is asked whether this
    /// connection is the one that its requests are to share.
    Claim(Handshake<I>),
    Handshake(Handshake<I>),
    Fail(Error<S>),
}

/// What an [`Established`] stands for.
pub ghost enum EstablishedView<I, S> {
    Claim(HandshakeView<I>),
    Handshake(HandshakeView<I>),
    Fail(Failure<S>),
}

impl<I, S> View for Established<I, S> {
    type V = EstablishedView<I, S>;

    open spec fn view(&self) -> EstablishedView<I, S> {
        match *self {
            Established::Claim(handshake) => EstablishedView::Claim(handshake@),
            Established::Handshake(handshake) => EstablishedView::Handshake(handshake@),
            Established::Fail(error) => EstablishedView::Fail(error@),
        }
    }
}

/// The events of a connection that has been established.
pub open spec fn establishment_events(
    connecting: ConnectingView,
    protocol: ConnectionProtocol,
) -> Seq<Observation> {
    let origin = connecting.origin;
    if !connecting.logging {
        seq![]
    } else if connecting.secure {
        seq![
            Observation::ConnectionEstablished { origin, protocol },
            Observation::AlpnSelected { origin, protocol },
        ]
    } else {
        seq![Observation::ConnectionEstablished { origin, protocol }]
    }
}

/// What follows an establishment that took `elapsed`.
pub open spec fn after_establishment<I, X, E, C, H>(
    connecting: ConnectingView,
    outcome: Result<Connected<I>, ConnectError<X, E>>,
    elapsed: Duration,
) -> EstablishedView<I, Cause<X, E, C, H>> {
    match outcome {
        Err(error) => EstablishedView::Fail(
            Failure::caused(error@.kind(), Cause::Connect(error)),
        ),
        Ok(connected) => {
            let handshake = HandshakeView {
                io: connected.stream(),
                protocol: connected.spec_protocol(),
                facts: ConnectionFacts { connect_duration: Some(elapsed), ..connected.facts() },
            };
            if connected.spec_protocol() == ConnectionProtocol::Http2 && connecting.protocol
                == PoolProtocol::Http1 {
                EstablishedView::Fail(Failure::plain(ErrorKind::Alpn))
            } else if connected.spec_protocol() == ConnectionProtocol::Http2
                && connecting.protocol == PoolProtocol::Auto {
                EstablishedView::Claim(handshake)
            } else {
                EstablishedView::Handshake(handshake)
            }
        },
    }
}

impl Connecting {
    /// Announces a connection to the origin of `key`.
    pub(crate) fn new(key: &PoolKey, protocol: PoolProtocol, logging: bool) -> (connecting: Self)
        ensures
            connecting@ == (ConnectingView {
                origin: key@.text(),
                secure: key@.scheme == "https"@,
                protocol,
                logging,
            }),
    {
        Connecting { origin: pool_key_origin(key), secure: key.is_https(), protocol, logging }
    }

    /// Takes the outcome of the establishment, which took `elapsed`. What comes
    /// back first are the events to record, in order.
    pub fn established<I, X, E, C, H>(
        self,
        outcome: Result<Connected<I>, ConnectError<X, E>>,
        elapsed: Duration,
    ) -> (next: (Vec<DebugEvent>, Established<I, Cause<X, E, C, H>>))
        ensures
            observations(next.0@) == (match outcome {
                Ok(connected) => establishment_events(self@, connected.spec_protocol()),
                Err(_) => seq![],
            }),
            next.1@ == after_establishment::<I, X, E, C, H>(self@, outcome, elapsed),
    {
        let mut events: Vec<DebugEvent> = Vec::new();
        let connected = match outcome {
            Ok(connected) => connected,
            Err(error) => {
                let kind = error.client_error_kind();
                assert(observations(events@) =~= seq![]);
                return (
                    events,
                    Established::Fail(Error::with_source(kind, Cause::Connect(error))),
                );
            },
        };
        let (io, protocol, info) = connected.into_parts();
        if self.logging {
            events.push(
                DebugEvent::ConnectionEstablished { origin: self.origin.clone(), protocol },
            );
            if self.secure {
                events.push(DebugEvent::AlpnSelected { origin: self.origin.clone(), protocol });
            }
        }
        assert(observations(events@) =~= establishment_events(self@, protocol));
        let handshake = Handshake { io, protocol, info: info.with_connect_duration(elapsed) };
        if protocol == ConnectionProtocol::Http2 && self.protocol != PoolProtocol::Http2 {
            if self.protocol == PoolProtocol::Http1 {
                return (events, Established::Fail(Error::new(ErrorKind::Alpn)));
            }
            return (events, Established::Claim(handshake));
        }
        (events, Established::Handshake(handshake))
    }
}

/// A handshake with an HTTP/1 peer that is under way.
#[derive(Debug)]
pub struct Http1Handshake {
    info: ConnectionInfo,
}

/// A handshake with an HTTP/2 peer that is under way.
#[derive(Debug)]
pub struct Http2Handshake {
    info: ConnectionInfo,
}

impl View for Http1Handshake {
    type V = ConnectionFacts;

    closed spec fn view(&self) -> ConnectionFacts {
        self.info@
    }
}

impl View for Http2Handshake {
    type V = ConnectionFacts;

    closed spec fn view(&self) -> ConnectionFacts {
        self.info@
    }
}

/// A handshake that is under way.
#[derive(Debug)]
pub enum Handshaking {
    Http1(Http1Handshake),
    Http2(Http2Handshake),
}

impl<I> Handshake<I> {
    /// Takes the pool's answer to the claim on the origin's HTTP/2 connection.
    pub fn claimed<X, E, C, H>(self, granted: bool) -> (next: Result<
        Self,
        ClientError<X, E, C, H>,
    >)
        ensures
            if granted {
                next matches Ok(handshake) && handshake@ == self@
            } else {
                next matches Err(error) && error@ == Failure::<Cause<X, E, C, H>>::plain(
                    ErrorKind::Canceled,
                )
            },
    {
        if granted {
            Ok(self)
        } else {
            Err(Error::new(ErrorKind::Canceled))
        }
    }

    /// Starts the handshake over the stream, where the protocol can be spoken.
    pub fn start<X, E, C, H>(self, enabled: EnabledProtocols) -> (next: Result<
        (I, Handshaking),
        ClientError<X, E, C, H>,
    >)
        ensures
            match self@.protocol {
                ConnectionProtocol::Http1 => if enabled.http1 {
                    &&& next matches Ok((io, Handshaking::Http1(handshake)))
                    &&& io == self@.io
                    &&& handshake@ == self@.facts
                } else {
                    next matches Err(error) && error@ == Failure::<Cause<X, E, C, H>>::plain(
                        ErrorKind::ProtocolUnavailable,
                    )
                },
                ConnectionProtocol::Http2 => if enabled.http2 {
                    &&& next matches Ok((io, Handshaking::Http2(handshake)))
                    &&& io == self@.io
                    &&& handshake@ == self@.facts
                } else {
                    next matches Err(error) && error@ == Failure::<Cause<X, E, C, H>>::plain(
                        ErrorKind::ProtocolUnavailable,
                    )
                },
            },
    {
        match self.protocol {
            ConnectionProtocol::Http1 => {
                if enabled.http1 {
                    Ok((self.io, Handshaking::Http1(Http1Handshake { info: self.info })))
                } else {
                    Err(Error::new(ErrorKind::ProtocolUnavailable))
                }
            },
            ConnectionProtocol::Http2 => {
                if enabled.http2 {
                    Ok((self.io, Handshaking::Http2(Http2Handshake { info: self.info })))
                } else {
                    Err(Error::new(ErrorKind::ProtocolUnavailable))
                }
            },
        }
    }
}

/// The sending half of a session.
#[derive(Debug)]
pub enum Sender<H1, H2> {
    Http1(H1),
    Http2(H2),
}

/// A session that can be pooled.
#[derive(Debug)]
pub struct PoolClient<H1, H2> {
    sender: Sender<H1, H2>,
    connection_info: ConnectionInfo,
}

/// What a [`PoolClient`] stands for.
pub ghost struct SessionView<H1, H2> {
    pub sender: Sender<H1, H2>,
    pub facts: ConnectionFacts,
}

impl<H1, H2> View for PoolClient<H1, H2> {
    type V = SessionView<H1, H2>;

    closed spec fn view(&self) -> SessionView<H1, H2> {
        SessionView { sender: self.sender, facts: self.connection_info@ }
    }
}

/// How a pooled session is handed out.
#[derive(Debug)]
pub enum Reservation<P> {
    /// It serves one request at a time.
    Unique(P),
    /// It is kept for others too: the first is kept, the second handed out.
    Shared(P, P),
}

impl Http1Handshake {
    /// Takes the outcome of the handshake, which took `elapsed`.
    pub fn completed<H1, H2, X, E, C, H>(self, outcome: Result<H1, H>, elapsed: Duration) -> (next:
        Result<PoolClient<H1, H2>, ClientError<X, E, C, H>>)
        ensures
            match outcome {
                Ok(sender) => {
                    &&& next matches Ok(session)
                    &&& session@.sender == Sender::<H1, H2>::Http1(sender)
                    &&& session@.facts == (ConnectionFacts {
                        handshake_duration: Some(elapsed),
                        ..self@
                    })
                },
                Err(error) => next matches Err(failed) && failed@ == Failure::<
                    Cause<X, E, C, H>,
                >::caused(ErrorKind::Handshake, Cause::Protocol(error)),
            },
    {
        match outcome {
            Ok(sender) => Ok(
                PoolClient {
                    sender: Sender::Http1(sender),
                    connection_info: self.info.with_handshake_duration(elapsed),
                },
            ),
            Err(error) => Err(Error::with_source(ErrorKind::Handshake, Cause::Protocol(error))),
        }
    }
}

impl Http2Handshake {
    /// Takes the outcome of the handshake, which took `elapsed`.
    pub fn completed<H1, H2, X, E, C, H>(self, outcome: Result<H2, H>, elapsed: Duration) -> (next:
        Result<PoolClient<H1, H2>, ClientError<X, E, C, H>>)
        ensures
            match outcome {
                Ok(sender) => {
                    &&& next matches Ok(session)
                    &&& session@.sender == Sender::<H1, H2>::Http2(sender)
                    &&& session@.facts == (ConnectionFacts {
                        handshake_duration: Some(elapsed),
                        ..self@
                    })
                },
                Err(error) => next matches Err(failed) && failed@ == Failure::<
                    Cause<X, E, C, H>,
                >::caused(ErrorKind::Handshake, Cause::Protocol(error)),
            },
    {
        match outcome {
            Ok(sender) => Ok(
                PoolClient {
                    sender: Sender::Http2(sender),
                    connection_info: self.info.with_handshake_duration(elapsed),
                },
            ),
            Err(error) => Err(Error::with_source(ErrorKind::Handshake, Cause::Protocol(error))),
        }
    }
}

impl<H1, H2> PoolClient<H1, H2> {
    pub fn is_http2(&self) -> (http2: bool)
        ensures
            http2 == (self@.sender is Http2),
    {
        match &self.sender {
            Sender::Http1(_) => false,
            Sender::Http2(_) => true,
        }
    }

    pub fn is_http1(&self) -> (http1: bool)
        ensures
            http1 == (self@.sender is Http1),
    {
        !self.is_http2()
    }

    /// Whether several requests can share this session.
    pub fn can_share(&self) -> (sharable: bool)
        ensures
            sharable == (self@.sender is Http2),
    {
        self.is_http2()
    }

    /// What is known of the connection.
    pub fn connection_info(&self) -> (info: ConnectionInfo)
        ensures
            info@ == self@.facts,
    {
        self.connection_info
    }

    /// The sending half.
    pub fn sender(&self) -> (sender: &Sender<H1, H2>)
        ensures
            *sender == self@.sender,
    {
        &self.sender
    }

    /// The sending half, to be used.
    pub fn sender_mut(&mut self) -> (sender: &mut Sender<H1, H2>)
        ensures
            *sender == old(self)@.sender,
            final(self)@ == (SessionView { sender: *final(sender), ..old(self)@ }),
    {
        &mut self.sender
    }

    /// Hands the session out: an HTTP/1 session leaves the pool, while an HTTP/2
    /// session is shared through a second handle to it.
    pub fn reserve(self) -> (reservation: Reservation<Self>) where H2: Clone
        ensures
            match self@.sender {
                Sender::Http1(_) => reservation matches Reservation::Unique(session) && session@
                    == self@,
                Sender::Http2(sender) => {
                    &&& reservation matches Reservation::Shared(kept, handed_out)
                    &&& kept@.sender matches Sender::Http2(copy)
                    &&& cloned(sender, copy)
                    &&& kept@.facts == self@.facts
                    &&& handed_out@ == self@
                },
            },
    {
        match self.sender {
            Sender::Http1(sender) => Reservation::Unique(
                PoolClient {
                    sender: Sender::Http1(sender),
                    connection_info: self.connection_info,
                },
            ),
            Sender::Http2(sender) => Reservation::Shared(
                PoolClient {
                    sender: Sender::Http2(sender.clone()),
                    connection_info: self.connection_info,
                },
                PoolClient {
                    sender: Sender::Http2(sender),
                    connection_info: self.connection_info,
                },
            ),
        }
    }
}

/// A client that is restricted to HTTP/1 never shakes hands in HTTP/2, and never
/// asks the pool to share a connection.
pub proof fn http1_only_never_speaks_http2<I, X, E, C, H>(
    connecting: ConnectingView,
    outcome: Result<Connected<I>, ConnectError<X, E>>,
    elapsed: Duration,
)
    requires
        connecting.protocol == PoolProtocol::Http1,
    ensures
        !(after_establishment::<I, X, E, C, H>(connecting, outcome, elapsed) is Claim),
        after_establishment::<I, X, E, C, H>(connecting, outcome, elapsed)
            matches EstablishedView::Handshake(handshake) ==> handshake.protocol
            == ConnectionProtocol::Http1,
{
}

/// The pool is asked about an HTTP/2 connection exactly where HTTP/2 was
/// negotiated rather than required.
pub proof fn negotiated_http2_is_claimed<I, X, E, C, H>(
    connecting: ConnectingView,
    connected: Connected<I>,
    elapsed: Duration,
)
    ensures
        after_establishment::<I, X, E, C, H>(connecting, Ok(connected), elapsed) is Claim <==> (
        connecting.protocol == PoolProtocol::Auto && connected.spec_protocol()
            == ConnectionProtocol::Http2),
{
}

/// An establishment that succeeds goes on to the handshake of the protocol it came
/// out with, over its own stream, with all that is known of it and the time it took.
/// The pool is asked first exactly where HTTP/2 came out and was not required; and
/// HTTP/2 is refused exactly where HTTP/1 alone is allowed. An error is kept, under
/// its own class.
pub proof fn establishments_lead_to_their_handshake<I, X, E, C, H>(
    connecting: Connecting,
    outcome: Result<Connected<I>, ConnectError<X, E>>,
    elapsed: Duration,
    next: (Vec<DebugEvent>, Established<I, Cause<X, E, C, H>>),
)
    requires
        call_ensures(
            Connecting::established::<I, X, E, C, H>,
            (connecting, outcome, elapsed),
            next,
        ),
    ensures
        outcome matches Err(error) ==> {
            &&& next.1 matches Established::Fail(failed)
            &&& failed@.kind == error@.kind()
            &&& failed@.cause == Some(Cause::<X, E, C, H>::Connect(error))
            &&& next.0@.len() == 0
        },
        outcome matches Ok(connected) ==> {
            let http2 = connected.spec_protocol() == ConnectionProtocol::Http2;
            &&& next.1 is Fail <==> http2 && connecting@.protocol == PoolProtocol::Http1
            &&& next.1 is Claim <==> http2 && connecting@.protocol == PoolProtocol::Auto
            &&& next.1 matches Established::Fail(failed) ==> failed@.kind == ErrorKind::Alpn
                && failed@.cause is None
            &&& next.1 matches Established::Claim(handshake) ==> handshake@.io
                == connected.stream() && handshake@.protocol == connected.spec_protocol()
                && handshake@.facts == (ConnectionFacts {
                connect_duration: Some(elapsed),
                ..connected.facts()
            })
            &&& next.1 matches Established::Handshake(handshake) ==> handshake@.io
                == connected.stream() && handshake@.protocol == connected.spec_protocol()
                && handshake@.facts == (ConnectionFacts {
                connect_duration: Some(elapsed),
                ..connected.facts()
            })
        },
{
    if outcome is Err {
        assert(observations(next.0@).len() == 0);
    }
}

/// A connection that is established is recorded exactly where events are, and for an
/// origin over TLS the protocol that was negotiated is recorded after it; both under
/// the origin, with the protocol that came out.
pub proof fn established_connections_are_recorded<I, X, E, C, H>(
    connecting: Connecting,
    connected: Connected<I>,
    elapsed: Duration,
    next: (Vec<DebugEvent>, Established<I, Cause<X, E, C, H>>),
)
    requires
        call_ensures(
            Connecting::established::<I, X, E, C, H>,
            (connecting, Ok(connected), elapsed),
            next,
        ),
    ensures
        next.0@.len() == (if !connecting@.logging {
            0int
        } else if connecting@.secure {
            2
        } else {
            1
        }),
        next.0@.len() > 0 ==> next.0@[0]@ == (Observation::ConnectionEstablished {
            origin: connecting@.origin,
            protocol: connected.spec_protocol(),
        }),
        next.0@.len() > 1 ==> next.0@[1]@ == (Observation::AlpnSelected {
            origin: connecting@.origin,
            protocol: connected.spec_protocol(),
        }),
{
    let seen = observations(next.0@);
    assert(seen.len() == next.0@.len());
    if next.0@.len() > 0 {
        assert(seen[0] == next.0@[0]@);
    }
    if next.0@.len() > 1 {
        assert(seen[1] == next.0@[1]@);
    }
}

/// A handshake speaks the protocol of its connection or, where that is not enabled,
/// none: no other protocol is ever tried in its place.
pub proof fn handshakes_speak_the_protocol_of_the_connection<I, X, E, C, H>(
    handshake: Handshake<I>,
    enabled: EnabledProtocols,
    next: Result<(I, Handshaking), ClientError<X, E, C, H>>,
)
    requires
        call_ensures(Handshake::<I>::start::<X, E, C, H>, (handshake, enabled), next),
    ensures
        next is Ok <==> (if handshake@.protocol == ConnectionProtocol::Http2 {
            enabled.http2
        } else {
            enabled.http1
        }),
        next matches Ok((io, Handshaking::Http1(started))) ==> io == handshake@.io && started@
            == handshake@.facts && handshake@.protocol == ConnectionProtocol::Http1,
        next matches Ok((io, Handshaking::Http2(started))) ==> io == handshake@.io && started@
            == handshake@.facts && handshake@.protocol == ConnectionProtocol::Http2,
        next matches Err(error) ==> error@.kind == ErrorKind::ProtocolUnavailable
            && error@.cause is None,
{
}

/// A session has the sender that its handshake gave, of the protocol that was spoken,
/// and all that was known of the connection, with the time of the handshake. A failed
/// handshake keeps its cause, in either protocol.
pub proof fn sessions_come_of_their_handshake<H1, H2, X, E, C, H>(
    first: Http1Handshake,
    second: Http2Handshake,
    outcomes: (Result<H1, H>, Result<H2, H>),
    elapsed: Duration,
    sessions: (
        Result<PoolClient<H1, H2>, ClientError<X, E, C, H>>,
        Result<PoolClient<H1, H2>, ClientError<X, E, C, H>>,
    ),
)
    requires
        call_ensures(
            Http1Handshake::completed::<H1, H2, X, E, C, H>,
            (first, outcomes.0, elapsed),
            sessions.0,
        ),
        call_ensures(
            Http2Handshake::completed::<H1, H2, X, E, C, H>,
            (second, outcomes.1, elapsed),
            sessions.1,
        ),
    ensures
        sessions.0 is Ok <==> outcomes.0 is Ok,
        sessions.1 is Ok <==> outcomes.1 is Ok,
        sessions.0 matches Ok(session) ==> session@.sender == Sender::<H1, H2>::Http1(
            outcomes.0->Ok_0,
        ) && session@.facts == (ConnectionFacts { handshake_duration: Some(elapsed), ..first@ }),
        sessions.1 matches Ok(session) ==> session@.sender == Sender::<H1, H2>::Http2(
            outcomes.1->Ok_0,
        ) && session@.facts == (ConnectionFacts { handshake_duration: Some(elapsed), ..second@ }),
        sessions.0 matches Err(error) ==> error@.kind == ErrorKind::Handshake && error@.cause
            == Some(Cause::<X, E, C, H>::Protocol(outcomes.0->Err_0)),
        sessions.1 matches Err(error) ==> error@.kind == ErrorKind::Handshake && error@.cause
            == Some(Cause::<X, E, C, H>::Protocol(outcomes.1->Err_0)),
{
}

/// An HTTP/1 session serves one request at a time, while an HTTP/2 session is handed
/// out and kept; either way what is handed out is the session itself.
pub proof fn sessions_are_shared_by_protocol<H1, H2: Clone>(
    session: PoolClient<H1, H2>,
    reservation: Reservation<PoolClient<H1, H2>>,
    sharable: bool,
)
    requires
        call_ensures(PoolClient::<H1, H2>::reserve, (session,), reservation),
        call_ensures(PoolClient::<H1, H2>::can_share, (&session,), sharable),
    ensures
        reservation is Shared <==> session@.sender is Http2,
        sharable <==> session@.sender is Http2,
        reservation matches Reservation::Unique(handed_out) ==> handed_out@ == session@,
        reservation matches Reservation::Shared(kept, handed_out) ==> handed_out@ == session@
            && kept@.facts == session@.facts && kept@.sender is Http2,
{
}

/// A claim that the pool grants goes on as it was, and one that it refuses cancels the
/// request.
pub proof fn claims_are_granted_or_canceled<I, X, E, C, H>(
    handshake: Handshake<I>,
    granted: bool,
    next: Result<Handshake<I>, ClientError<X, E, C, H>>,
)
    requires
        call_ensures(Handshake::<I>::claimed::<X, E, C, H>, (handshake, granted), next),
    ensures
        next is Ok <==> granted,
        next matches Ok(claimed) ==> claimed@ == handshake@,
        next matches Err(error) ==> error@.kind == ErrorKind::Canceled && error@.cause is None,
{
}

} // verus!
