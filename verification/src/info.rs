//! Facts about the connection that produced a response.

use std::time::Duration;

use vstd::prelude::*;

use crate::address::SocketAddress;

verus! {

/// Protocol selected for a client connection.
///
/// It describes a reusable endpoint session, not an individual request or
/// response message.
#[derive(Clone, Copy, Debug, PartialEq, Eq, Structural)]
#[non_exhaustive]
pub enum ConnectionProtocol {
    Http1,
    Http2,
}

/// Immutable facts about the connection that produced a response.
///
/// `connect_duration` covers the whole connector operation, name resolution and
/// TLS included; `handshake_duration` covers the HTTP session handshake. Neither
/// covers request dispatch, response-header latency or body consumption.
#[derive(Clone, Copy, Debug, PartialEq, Eq)]
pub struct ConnectionInfo {
    protocol: ConnectionProtocol,
    local_addr: Option<SocketAddress>,
    peer_addr: Option<SocketAddress>,
    connect_duration: Option<Duration>,
    handshake_duration: Option<Duration>,
}

/// What a [`ConnectionInfo`] stands for.
pub ghost struct ConnectionFacts {
    pub protocol: ConnectionProtocol,
    pub local: Option<SocketAddress>,
    pub peer: Option<SocketAddress>,
    pub connect_duration: Option<Duration>,
    pub handshake_duration: Option<Duration>,
}

impl View for ConnectionInfo {
    type V = ConnectionFacts;

    closed spec fn view(&self) -> ConnectionFacts {
        ConnectionFacts {
            protocol: self.protocol,
            local: self.local_addr,
            peer: self.peer_addr,
            connect_duration: self.connect_duration,
            handshake_duration: self.handshake_duration,
        }
    }
}

impl ConnectionFacts {
    /// A connection of which only the protocol is known.
    pub open spec fn bare(protocol: ConnectionProtocol) -> ConnectionFacts {
        ConnectionFacts {
            protocol,
            local: None,
            peer: None,
            connect_duration: None,
            handshake_duration: None,
        }
    }
}

impl ConnectionInfo {
    /// A connection of which only the protocol is known.
    pub fn new(protocol: ConnectionProtocol) -> (info: Self)
        ensures
            info@ == ConnectionFacts::bare(protocol),
    {
        ConnectionInfo {
            protocol,
            local_addr: None,
            peer_addr: None,
            connect_duration: None,
            handshake_duration: None,
        }
    }

    /// Replaces both socket addresses.
    pub fn with_addresses(
        self,
        local_addr: Option<SocketAddress>,
        peer_addr: Option<SocketAddress>,
    ) -> (info: Self)
        ensures
            info@ == (ConnectionFacts { local: local_addr, peer: peer_addr, ..self@ }),
    {
        ConnectionInfo { local_addr, peer_addr, ..self }
    }

    /// Records how long the connector took.
    pub fn with_connect_duration(self, duration: Duration) -> (info: Self)
        ensures
            info@ == (ConnectionFacts { connect_duration: Some(duration), ..self@ }),
    {
        ConnectionInfo { connect_duration: Some(duration), ..self }
    }

    /// Records how long the HTTP session handshake took.
    pub fn with_handshake_duration(self, duration: Duration) -> (info: Self)
        ensures
            info@ == (ConnectionFacts { handshake_duration: Some(duration), ..self@ }),
    {
        ConnectionInfo { handshake_duration: Some(duration), ..self }
    }

    /// Returns the HTTP capability negotiated for this connection.
    pub fn protocol(self) -> (protocol: ConnectionProtocol)
        ensures
            protocol == self@.protocol,
    {
        self.protocol
    }

    /// Returns the local socket address when the connector reported one.
    pub fn local_addr(self) -> (address: Option<SocketAddress>)
        ensures
            address == self@.local,
    {
        self.local_addr
    }

    /// Returns the peer socket address when the connector reported one.
    pub fn peer_addr(self) -> (address: Option<SocketAddress>)
        ensures
            address == self@.peer,
    {
        self.peer_addr
    }

    /// Returns the complete connection-establishment duration when measured.
    pub fn connect_duration(self) -> (duration: Option<Duration>)
        ensures
            duration == self@.connect_duration,
    {
        self.connect_duration
    }

    /// Returns the HTTP session-handshake duration when measured.
    pub fn handshake_duration(self) -> (duration: Option<Duration>)
        ensures
            duration == self@.handshake_duration,
    {
        self.handshake_duration
    }
}

/// Transport information of one response, stored among its extensions.
///
/// Response extensions outlive the streaming body, so it can be read before or
/// after the body is consumed.
#[derive(Clone, Copy, Debug, PartialEq, Eq)]
pub struct ResponseInfo {
    connection: ConnectionInfo,
    reused: bool,
}

#[verifier::external_type_specification]
#[verifier::external_body]
pub struct ExExtensions(http::Extensions);

/// The [`ResponseInfo`] that a set of extensions holds.
pub uninterp spec fn stored_info(extensions: http::Extensions) -> Option<ResponseInfo>;

/// All that a set of extensions holds but the [`ResponseInfo`].
pub uninterp spec fn besides_info(extensions: http::Extensions) -> http::Extensions;

/// Calls `http::Extensions::get` for a [`ResponseInfo`].
///
/// Taken on trust: it finds the value of that type which the set holds, and
/// nothing where it holds none.
#[verifier::external_body]
fn get_info(extensions: &http::Extensions) -> (info: Option<&ResponseInfo>)
    ensures
        match info {
            Some(info) => stored_info(*extensions) == Some(*info),
            None => stored_info(*extensions) is None,
        },
{
    extensions.get()
}

/// Calls `http::Extensions::insert` with a [`ResponseInfo`].
///
/// Taken on trust: the set then holds that value in place of any earlier one of
/// its type, which is returned. Values of other types stay.
#[verifier::external_body]
fn insert_info(extensions: &mut http::Extensions, info: ResponseInfo) -> (earlier: Option<
    ResponseInfo,
>)
    ensures
        stored_info(*final(extensions)) == Some(info),
        earlier == stored_info(*old(extensions)),
        besides_info(*final(extensions)) == besides_info(*old(extensions)),
{
    extensions.insert(info)
}

impl ResponseInfo {
    /// The connection that produced the response.
    pub closed spec fn spec_connection(self) -> ConnectionInfo {
        self.connection
    }

    /// Whether the request checked out a previously pooled session.
    pub closed spec fn spec_reused(self) -> bool {
        self.reused
    }

    /// Describes a response that `connection` produced.
    pub fn new(connection: ConnectionInfo, reused: bool) -> (info: Self)
        ensures
            info.spec_connection() == connection,
            info.spec_reused() == reused,
    {
        ResponseInfo { connection, reused }
    }

    /// Returns the transport information attached to a response, given the
    /// extensions of that response.
    pub fn from_response(extensions: &http::Extensions) -> (info: Option<&Self>)
        ensures
            match info {
                Some(info) => stored_info(*extensions) == Some(*info),
                None => stored_info(*extensions) is None,
            },
    {
        get_info(extensions)
    }

    /// Attaches this information to a response, given the extensions of that
    /// response.
    pub fn attach(self, extensions: &mut http::Extensions)
        ensures
            stored_info(*final(extensions)) == Some(self),
            besides_info(*final(extensions)) == besides_info(*old(extensions)),
    {
        let _ = insert_info(extensions, self);
    }

    /// Returns the connection that produced this response.
    pub fn connection(self) -> (connection: ConnectionInfo)
        ensures
            connection == self.spec_connection(),
    {
        self.connection
    }

    /// Reports whether this request checked out a previously pooled session.
    pub fn reused(self) -> (reused: bool)
        ensures
            reused == self.spec_reused(),
    {
        self.reused
    }
}

/// What is known of a connection is told as it was noted, and what is attached to a
/// response is found there again, whatever had been attached before.
pub proof fn facts_are_told_as_noted(
    info: ConnectionInfo,
    local: Option<SocketAddress>,
    peer: Option<SocketAddress>,
    duration: Duration,
    noted: (ConnectionInfo, ConnectionInfo, ConnectionInfo),
    reused: bool,
    described: ResponseInfo,
    extensions: &mut http::Extensions,
    later: http::Extensions,
    found: Option<&ResponseInfo>,
    told: (ConnectionInfo, bool),
)
    requires
        call_ensures(ConnectionInfo::with_addresses, (info, local, peer), noted.0),
        call_ensures(ConnectionInfo::with_connect_duration, (info, duration), noted.1),
        call_ensures(ConnectionInfo::with_handshake_duration, (info, duration), noted.2),
        call_ensures(ResponseInfo::new, (info, reused), described),
        call_ensures(ResponseInfo::attach, (described, extensions), ()),
        later == *final(extensions),
        call_ensures(ResponseInfo::from_response, (&later,), found),
        found matches Some(response) && call_ensures(ResponseInfo::connection, (*response,), told.0)
            && call_ensures(ResponseInfo::reused, (*response,), told.1),
    ensures
        noted.0@ == (ConnectionFacts { local, peer, ..info@ }),
        noted.1@ == (ConnectionFacts { connect_duration: Some(duration), ..info@ }),
        noted.2@ == (ConnectionFacts { handshake_duration: Some(duration), ..info@ }),
        told == (info, reused),
{
}

} // verus!
