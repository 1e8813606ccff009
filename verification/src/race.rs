//! The race between the resolved candidates of one origin.

use std::time::Duration;

use vstd::prelude::*;

use crate::address::{
    candidate_order, candidate_order_keeps_mixture, has_both_address_families,
    interleave_address_families, mixed, order_is_a_rearrangement, SocketAddress,
};

verus! {

/// Why no resolved address could be connected to.
#[derive(Debug)]
pub enum NoConnection<E> {
    /// The attempt that ended last failed with this error.
    Attempt(E),
    /// There was no address to attempt.
    NoAddress,
}

impl<E> NoConnection<E> {
    /// What is reported when `last_error` is the error of the last attempt.
    pub open spec fn of(last_error: Option<E>) -> NoConnection<E> {
        match last_error {
            Some(error) => NoConnection::Attempt(error),
            None => NoConnection::NoAddress,
        }
    }
}

/// Reports the most recent error, or that there was nothing to attempt.
pub fn no_connected_address<E>(last_error: Option<E>) -> (failure: NoConnection<E>)
    ensures
        failure == NoConnection::of(last_error),
{
    match last_error {
        Some(error) => NoConnection::Attempt(error),
        None => NoConnection::NoAddress,
    }
}

/// The sentence for a race that had no address to attempt.
pub fn no_address_text() -> (text: &'static str)
    ensures
        text@ == "could not connect to any of the resolved addresses"@,
{
    "could not connect to any of the resolved addresses"
}

/// How far a race has come.
#[derive(Clone, Copy, Debug)]
struct Lanes {
    started: usize,
    in_flight: usize,
    launch: bool,
}

/// How far a race has come, and what has gone wrong in it.
#[derive(Debug)]
struct Progress<E> {
    lanes: Lanes,
    last_error: Option<E>,
}

/// The progress of one race between resolved TCP candidates.
///
/// The first candidate starts at once. Where both families are present and a
/// delay is configured, a later candidate starts when that delay runs out or
/// when an attempt fails, whichever comes first. Otherwise one attempt runs at
/// a time: with no alternate family to prefer, speculative duplicate
/// connections would gain nothing.
#[derive(Debug)]
pub struct AddressRace<E> {
    order: Vec<SocketAddress>,
    stagger: Option<Duration>,
    progress: Progress<E>,
}

/// What an [`AddressRace`] stands for.
pub ghost struct RaceView<E> {
    /// Every candidate, in the order in which they start.
    pub order: Seq<SocketAddress>,
    /// The delay between starts; `None` where attempts run one at a time.
    pub stagger: Option<Duration>,
    /// How many candidates have started.
    pub started: nat,
    /// How many started attempts have not ended.
    pub in_flight: nat,
    /// The error of the attempt that failed last.
    pub last_error: Option<E>,
    /// Whether another candidate is due to start now.
    pub launch: bool,
}

/// The next thing to do in an [`AddressRace`].
#[derive(Clone, Copy, Debug)]
pub enum RaceAction {
    /// Start a connection attempt to this address.
    Start(SocketAddress),
    /// Wait for an attempt to end, or for `delay` to run out where there is one.
    Wait { delay: Option<Duration> },
    /// Every candidate has failed: the race is lost.
    GiveUp,
}

impl<E> View for AddressRace<E> {
    type V = RaceView<E>;

    closed spec fn view(&self) -> RaceView<E> {
        RaceView {
            order: self.order@,
            stagger: self.stagger,
            started: self.progress.lanes.started as nat,
            in_flight: self.progress.lanes.in_flight as nat,
            last_error: self.progress.last_error,
            launch: self.progress.lanes.launch,
        }
    }
}

impl<E> RaceView<E> {
    /// What holds at every point of a race.
    pub open spec fn wf(self) -> bool {
        &&& self.started <= self.order.len()
        &&& self.in_flight <= self.started
        &&& self.launch ==> self.started < self.order.len()
        // While candidates remain, one is due or an attempt is still running.
        &&& self.started < self.order.len() ==> self.launch || self.in_flight > 0
        // Without a delay there is never more than one attempt.
        &&& self.stagger is None ==> self.in_flight + (if self.launch {
            1nat
        } else {
            0nat
        }) <= 1
        // There is an error to report exactly where an attempt has ended.
        &&& self.in_flight < self.started <==> self.last_error is Some
    }

    /// The race before anything has happened.
    pub open spec fn initial(
        addresses: Seq<SocketAddress>,
        delay: Option<Duration>,
    ) -> RaceView<E> {
        RaceView {
            order: candidate_order(addresses),
            stagger: if mixed(addresses) {
                delay
            } else {
                None
            },
            started: 0,
            in_flight: 0,
            last_error: None,
            launch: candidate_order(addresses).len() > 0,
        }
    }

    /// What is to be done at this point.
    pub open spec fn action(self) -> RaceAction {
        if self.launch {
            RaceAction::Start(self.order[self.started as int])
        } else if self.in_flight > 0 {
            RaceAction::Wait {
                delay: if self.started < self.order.len() {
                    self.stagger
                } else {
                    None
                },
            }
        } else {
            RaceAction::GiveUp
        }
    }

    /// The race once the action of this point has been taken up.
    pub open spec fn after_action(self) -> RaceView<E> {
        if self.launch {
            RaceView {
                started: self.started + 1,
                in_flight: self.in_flight + 1,
                launch: false,
                ..self
            }
        } else {
            self
        }
    }

    /// The race once a running attempt has failed.
    pub open spec fn after_failure(self, error: E) -> RaceView<E> {
        RaceView {
            in_flight: (self.in_flight - 1) as nat,
            last_error: Some(error),
            launch: self.started < self.order.len(),
            ..self
        }
    }

    /// The race once the delay between starts has run out.
    pub open spec fn after_delay(self) -> RaceView<E> {
        RaceView {
            launch: self.launch || (self.stagger is Some && self.started < self.order.len()),
            ..self
        }
    }
}

/// Starts the race between resolved candidates. No attempt has begun yet.
pub fn connect_resolved_addresses<E>(
    addresses: Vec<SocketAddress>,
    happy_eyeballs_timeout: Option<Duration>,
) -> (race: AddressRace<E>)
    ensures
        race@ == RaceView::<E>::initial(addresses@, happy_eyeballs_timeout),
        race@.wf(),
{
    proof {
        candidate_order_keeps_mixture(addresses@);
    }
    let order = interleave_address_families(addresses);
    let stagger = if has_both_address_families(order.as_slice()) {
        happy_eyeballs_timeout
    } else {
        None
    };
    let launch = order.len() > 0;
    AddressRace {
        order,
        stagger,
        progress: Progress {
            lanes: Lanes { started: 0, in_flight: 0, launch },
            last_error: None,
        },
    }
}

impl<E> AddressRace<E> {
    #[verifier::type_invariant]
    pub open spec fn consistent(self) -> bool {
        self@.wf()
    }

    /// Tells what to do now, and takes it as done.
    pub fn next_action(&mut self) -> (action: RaceAction)
        ensures
            action == old(self)@.action(),
            final(self)@ == old(self)@.after_action(),
    {
        proof {
            use_type_invariant(&*self);
        }
        let lanes = self.progress.lanes;
        if lanes.launch {
            let address = self.order[lanes.started];
            assert(lanes.started < self.order.len());
            self.progress.lanes = Lanes {
                started: lanes.started + 1,
                in_flight: lanes.in_flight + 1,
                launch: false,
            };
            RaceAction::Start(address)
        } else if lanes.in_flight > 0 {
            RaceAction::Wait {
                delay: if lanes.started < self.order.len() {
                    self.stagger
                } else {
                    None
                },
            }
        } else {
            RaceAction::GiveUp
        }
    }

    /// Takes note that a running attempt has failed. The next candidate, if one
    /// is left, is then due at once.
    pub fn attempt_failed(&mut self, error: E)
        requires
            old(self)@.in_flight > 0,
        ensures
            final(self)@ == old(self)@.after_failure(error),
    {
        proof {
            use_type_invariant(&*self);
        }
        let lanes = self.progress.lanes;
        let launch = lanes.started < self.order.len();
        self.progress = Progress {
            lanes: Lanes { in_flight: lanes.in_flight - 1, launch, ..lanes },
            last_error: Some(error),
        };
    }

    /// Takes note that the delay of [`RaceAction::Wait`] has run out.
    pub fn delay_elapsed(&mut self)
        ensures
            final(self)@ == old(self)@.after_delay(),
    {
        proof {
            use_type_invariant(&*self);
        }
        let lanes = self.progress.lanes;
        if self.stagger.is_some() && lanes.started < self.order.len() {
            self.progress.lanes = Lanes { launch: true, ..lanes };
        }
    }

    /// How many started attempts have not ended.
    pub fn in_flight(&self) -> (count: usize)
        ensures
            count == self@.in_flight,
    {
        self.progress.lanes.in_flight
    }

    /// What a lost race reports.
    pub fn into_failure(self) -> (failure: NoConnection<E>)
        ensures
            failure == NoConnection::of(self@.last_error),
    {
        no_connected_address(self.progress.last_error)
    }
}

/// One thing that befalls a race after its current action has been taken up.
pub ghost enum RaceEvent<E> {
    Failed(E),
    DelayElapsed,
}

/// Whether `event` can follow the action of `race`: an attempt can fail while
/// one runs, and a delay can run out while the race waits for one.
pub open spec fn can_follow<E>(race: RaceView<E>, event: RaceEvent<E>) -> bool {
    match event {
        RaceEvent::Failed(_) => race.in_flight > 0,
        RaceEvent::DelayElapsed => race.action() matches RaceAction::Wait { delay: Some(_) },
    }
}

/// The race after `event`.
pub open spec fn follow<E>(race: RaceView<E>, event: RaceEvent<E>) -> RaceView<E> {
    match event {
        RaceEvent::Failed(error) => race.after_failure(error),
        RaceEvent::DelayElapsed => race.after_delay(),
    }
}

/// A race between candidates of one family, or with no delay configured, is
/// serial: an attempt starts only when none is running.
pub proof fn serial_race_runs_one_attempt<E>(race: RaceView<E>)
    requires
        race.wf(),
        race.stagger is None,
        race.action() is Start,
    ensures
        race.in_flight == 0,
        race.after_action().in_flight == 1,
{
}

/// A race waits only while an attempt is running, so the attempts of a race are
/// never all over while it waits for one of them.
pub proof fn waiting_race_has_an_attempt<E>(race: RaceView<E>)
    requires
        race.wf(),
        race.action() is Wait,
    ensures
        race.in_flight > 0,
{
}

/// A race is given up only when every candidate has been started and every
/// attempt has failed; it then reports the error of the last one, or that there
/// was no candidate at all.
pub proof fn race_is_lost_only_after_every_candidate<E>(race: RaceView<E>)
    requires
        race.wf(),
        race.action() is GiveUp,
    ensures
        race.started == race.order.len(),
        race.in_flight == 0,
        NoConnection::of(race.last_error) is NoAddress <==> race.order.len() == 0,
{
}

/// Whatever happens, a race stays consistent, never changes its order, and
/// starts candidates one after another from the front of it.
pub proof fn race_starts_candidates_in_order<E>(race: RaceView<E>, event: RaceEvent<E>)
    requires
        race.wf(),
    ensures
        race.after_action().wf(),
        race.after_action().order == race.order,
        race.action() is Start ==> race.action() == RaceAction::Start(
            race.order[race.started as int],
        ) && race.after_action().started == race.started + 1,
        !(race.action() is Start) ==> race.after_action().started == race.started,
        can_follow(race.after_action(), event) ==> {
            let next = follow(race.after_action(), event);
            next.wf() && next.order == race.order && next.started == race.after_action().started
        },
{
}

/// Once an attempt has failed, or the delay between starts has run out, the
/// next candidate starts at once wherever one is left.
pub proof fn failure_or_delay_starts_the_next_candidate<E>(race: RaceView<E>, event: RaceEvent<E>)
    requires
        race.wf(),
        can_follow(race, event),
        race.started < race.order.len(),
    ensures
        follow(race, event).action() == RaceAction::Start(race.order[race.started as int]),
{
}

/// A race begins with nothing started, over the candidates in the order that
/// [`interleave_address_families`] gives them. It is staggered by the delay that was
/// asked for exactly where both families were resolved, and serial otherwise.
pub proof fn races_begin_before_the_first_candidate<E>(
    addresses: Vec<SocketAddress>,
    delay: Option<Duration>,
    order: Vec<SocketAddress>,
    race: AddressRace<E>,
)
    requires
        call_ensures(interleave_address_families, (addresses,), order),
        call_ensures(connect_resolved_addresses::<E>, (addresses, delay), race),
    ensures
        race@.order == order@,
        race@.started == 0,
        race@.in_flight == 0,
        race@.last_error is None,
        race@.launch <==> addresses@.len() > 0,
        race@.stagger is Some ==> race@.stagger == delay,
        forall|i: int, j: int|
            0 <= i < addresses@.len() && 0 <= j < addresses@.len() && #[trigger] addresses@[i] is V6
                && #[trigger] addresses@[j] is V4 ==> race@.stagger == delay,
        (forall|i: int| 0 <= i < addresses@.len() ==> #[trigger] addresses@[i] is V6)
            ==> race@.stagger is None,
        (forall|i: int| 0 <= i < addresses@.len() ==> #[trigger] addresses@[i] is V4)
            ==> race@.stagger is None,
{
    order_is_a_rearrangement(addresses@);
    broadcast use vstd::seq_lib::group_to_multiset_ensures;

    assert(candidate_order(addresses@).to_multiset().len() == addresses@.to_multiset().len());
}

/// A race does one thing at a time. It starts the next candidate where one is due,
/// and only then does anything change; it waits while attempts run, for the delay
/// only as long as candidates are left to start; and it gives up where neither is the
/// case.
pub proof fn races_do_what_is_due<E>(race: &mut AddressRace<E>, action: RaceAction)
    requires
        old(race)@.wf(),
        call_ensures(AddressRace::<E>::next_action, (race,), action),
    ensures
        action is Start <==> old(race)@.launch,
        action is GiveUp <==> !old(race)@.launch && old(race)@.in_flight == 0,
        action matches RaceAction::Start(address) ==> {
            &&& address == old(race)@.order[old(race)@.started as int]
            &&& final(race)@.started == old(race)@.started + 1
            &&& final(race)@.in_flight == old(race)@.in_flight + 1
            &&& !final(race)@.launch
        },
        action matches RaceAction::Wait { delay } ==> {
            &&& old(race)@.in_flight > 0
            &&& old(race)@.started < old(race)@.order.len() ==> delay == old(race)@.stagger
            &&& old(race)@.started == old(race)@.order.len() ==> delay is None
        },
        !(action is Start) ==> final(race)@ == old(race)@,
        final(race)@.order == old(race)@.order,
        final(race)@.stagger == old(race)@.stagger,
        final(race)@.last_error == old(race)@.last_error,
{
}

/// An attempt that fails is one less in flight, makes the next candidate due, and is
/// what the race reports unless a later one fails too. A delay that runs out makes the
/// next candidate due in a staggered race, and changes nothing in a serial one.
pub proof fn failures_and_delays_make_the_next_candidate_due<E>(
    failing: &mut AddressRace<E>,
    error: E,
    waiting: &mut AddressRace<E>,
    lost: AddressRace<E>,
    reported: NoConnection<E>,
)
    requires
        old(failing)@.wf(),
        old(failing)@.in_flight > 0,
        old(waiting)@.wf(),
        call_ensures(AddressRace::<E>::attempt_failed, (failing, error), ()),
        call_ensures(AddressRace::<E>::delay_elapsed, (waiting,), ()),
        lost@ == final(failing)@,
        call_ensures(AddressRace::<E>::into_failure, (lost,), reported),
    ensures
        final(failing)@.in_flight == old(failing)@.in_flight - 1,
        final(failing)@.launch <==> old(failing)@.started < old(failing)@.order.len(),
        final(failing)@.started == old(failing)@.started,
        final(failing)@.order == old(failing)@.order,
        final(failing)@.stagger == old(failing)@.stagger,
        reported == NoConnection::<E>::Attempt(error),
        old(waiting)@.stagger is Some ==> (final(waiting)@.launch <==> old(waiting)@.started
            < old(waiting)@.order.len()),
        old(waiting)@.stagger is None ==> final(waiting)@ == old(waiting)@,
        final(waiting)@.started == old(waiting)@.started,
        final(waiting)@.in_flight == old(waiting)@.in_flight,
        final(waiting)@.order == old(waiting)@.order,
        final(waiting)@.stagger == old(waiting)@.stagger,
        final(waiting)@.last_error == old(waiting)@.last_error,
{
}

/// A lost race reports the error of the attempt that failed last, and that there was
/// nothing to attempt exactly where no attempt has failed.
pub proof fn losses_report_the_last_error<E>(last_error: Option<E>, failure: NoConnection<E>)
    requires
        call_ensures(no_connected_address::<E>, (last_error,), failure),
    ensures
        failure is NoAddress <==> last_error is None,
        last_error matches Some(error) ==> failure == NoConnection::Attempt(error),
{
}

} // verus!
