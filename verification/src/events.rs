//! Connection lifecycle observations.

use std::fmt::{Debug, Error as FormatError, Formatter};

use vstd::prelude::*;

use crate::info::ConnectionProtocol;

verus! {

/// A discrete endpoint-lifecycle observation recorded by [`DebugEventLog`].
///
/// Events are best-effort development diagnostics. They do not establish that a
/// request succeeded.
#[derive(Debug, PartialEq, Eq)]
#[non_exhaustive]
pub enum DebugEvent {
    PoolCheckout { origin: String },
    ConnectionEstablished { origin: String, protocol: ConnectionProtocol },
    AlpnSelected { origin: String, protocol: ConnectionProtocol },
    ConnectionPooled { origin: String },
    PoolEvicted { origin: String },
    ConnectionClosed { origin: String },
    StaleRetry { origin: String },
}

/// What a [`DebugEvent`] stands for.
pub ghost enum Observation {
    PoolCheckout { origin: Seq<char> },
    ConnectionEstablished { origin: Seq<char>, protocol: ConnectionProtocol },
    AlpnSelected { origin: Seq<char>, protocol: ConnectionProtocol },
    ConnectionPooled { origin: Seq<char> },
    PoolEvicted { origin: Seq<char> },
    ConnectionClosed { origin: Seq<char> },
    StaleRetry { origin: Seq<char> },
}

impl View for DebugEvent {
    type V = Observation;

    open spec fn view(&self) -> Observation {
        match *self {
            DebugEvent::PoolCheckout { origin } => Observation::PoolCheckout { origin: origin@ },
            DebugEvent::ConnectionEstablished { origin, protocol } =>
                Observation::ConnectionEstablished { origin: origin@, protocol },
            DebugEvent::AlpnSelected { origin, protocol } => Observation::AlpnSelected {
                origin: origin@,
                protocol,
            },
            DebugEvent::ConnectionPooled { origin } => Observation::ConnectionPooled {
                origin: origin@,
            },
            DebugEvent::PoolEvicted { origin } => Observation::PoolEvicted { origin: origin@ },
            DebugEvent::ConnectionClosed { origin } => Observation::ConnectionClosed {
                origin: origin@,
            },
            DebugEvent::StaleRetry { origin } => Observation::StaleRetry { origin: origin@ },
        }
    }
}

impl Clone for DebugEvent {
    fn clone(&self) -> (copy: Self)
        ensures
            copy@ == self@,
    {
        match self {
            DebugEvent::PoolCheckout { origin } => DebugEvent::PoolCheckout {
                origin: origin.clone(),
            },
            DebugEvent::ConnectionEstablished { origin, protocol } => {
                DebugEvent::ConnectionEstablished { origin: origin.clone(), protocol: *protocol }
            },
            DebugEvent::AlpnSelected { origin, protocol } => DebugEvent::AlpnSelected {
                origin: origin.clone(),
                protocol: *protocol,
            },
            DebugEvent::ConnectionPooled { origin } => DebugEvent::ConnectionPooled {
                origin: origin.clone(),
            },
            DebugEvent::PoolEvicted { origin } => DebugEvent::PoolEvicted {
                origin: origin.clone(),
            },
            DebugEvent::ConnectionClosed { origin } => DebugEvent::ConnectionClosed {
                origin: origin.clone(),
            },
            DebugEvent::StaleRetry { origin } => DebugEvent::StaleRetry {
                origin: origin.clone(),
            },
        }
    }
}

/// What a list of events stands for.
pub open spec fn observations(events: Seq<DebugEvent>) -> Seq<Observation> {
    events.map_values(|event: DebugEvent| event@)
}

#[verifier::external_type_specification]
#[verifier::external_body]
pub struct ExFormatter<'a>(Formatter<'a>);

#[verifier::external_type_specification]
#[verifier::external_body]
pub struct ExFormatError(FormatError);

/// The text that has been written through a formatter.
pub uninterp spec fn written_text(formatter: Formatter<'_>) -> Seq<char>;

/// Calls `std::fmt::Formatter::write_str`.
///
/// Taken on trust: it succeeds only where all of `text` was written, behind what
/// had been written before. Whether it succeeds is up to what the formatter writes
/// to, and is not stated.
#[verifier::external_body]
fn write_text(formatter: &mut Formatter<'_>, text: &str) -> (written: Result<(), FormatError>)
    ensures
        written is Ok ==> written_text(*final(formatter)) == written_text(*old(formatter))
            + text@,
{
    formatter.write_str(text)
}

/// An opt-in sink for client connection lifecycle events.
///
/// It is pull-based: recording never runs application code.
pub struct DebugEventLog(Vec<DebugEvent>);

impl View for DebugEventLog {
    type V = Seq<Observation>;

    /// Everything recorded since the previous drain, oldest first.
    closed spec fn view(&self) -> Seq<Observation> {
        observations(self.0@)
    }
}

impl DebugEventLog {
    /// A log that holds nothing.
    pub fn new() -> (log: Self)
        ensures
            log@ == Seq::<Observation>::empty(),
    {
        let log = DebugEventLog(Vec::new());
        assert(log@ =~= Seq::<Observation>::empty());
        log
    }

    /// Returns and clears all observations recorded since the previous drain.
    pub fn drain(&mut self) -> (events: Vec<DebugEvent>)
        ensures
            observations(events@) == old(self)@,
            final(self)@ == Seq::<Observation>::empty(),
    {
        let mut events: Vec<DebugEvent> = Vec::new();
        std::mem::swap(&mut events, &mut self.0);
        assert(self@ =~= Seq::<Observation>::empty());
        events
    }

    pub fn is_empty(&self) -> (empty: bool)
        ensures
            empty == (self@.len() == 0),
    {
        self.0.len() == 0
    }

    /// Adds an observation.
    pub fn record(&mut self, event: DebugEvent)
        ensures
            final(self)@ == old(self)@.push(event@),
    {
        self.0.push(event);
        assert(self@ =~= old(self)@.push(event@));
    }
}

impl Debug for DebugEventLog {
    /// Shows the name of the type and nothing of what has been recorded.
    fn fmt(&self, formatter: &mut Formatter<'_>) -> (shown: Result<(), FormatError>)
        ensures
            shown is Ok ==> written_text(*final(formatter)) == written_text(*old(formatter))
                + "DebugEventLog { .. }"@,
    {
        write_text(formatter, "DebugEventLog { .. }")
    }
}

impl Default for DebugEventLog {
    fn default() -> (log: Self)
        ensures
            log@ == Seq::<Observation>::empty(),
    {
        DebugEventLog::new()
    }
}

/// What is recorded is drained once, in the order in which it was recorded.
pub proof fn records_are_drained_once(
    log: &mut DebugEventLog,
    event: DebugEvent,
    recorded: &mut DebugEventLog,
    drained: Vec<DebugEvent>,
    emptied: DebugEventLog,
    empty: bool,
)
    requires
        call_ensures(DebugEventLog::record, (log, event), ()),
        old(recorded)@ == final(log)@,
        call_ensures(DebugEventLog::drain, (recorded,), drained),
        emptied@ == final(recorded)@,
        call_ensures(DebugEventLog::is_empty, (&emptied,), empty),
    ensures
        drained@.len() == old(log)@.len() + 1,
        drained@.last()@ == event@,
        forall|i: int| 0 <= i < old(log)@.len() ==> (#[trigger] drained@[i])@ == old(log)@[i],
        empty,
{
    let seen = observations(drained@);
    assert(seen == old(log)@.push(event@));
    assert(seen.len() == drained@.len());
    assert(seen.last() == drained@.last()@);
    assert forall|i: int| 0 <= i < old(log)@.len() implies (#[trigger] drained@[i])@ == old(
        log,
    )@[i] by {
        assert(seen[i] == drained@[i]@);
    }
}

} // verus!
