use std::time::Duration;

use h12tiny::address::{has_both_address_families, interleave_address_families, SocketAddress};
use h12tiny::race::{
    connect_resolved_addresses, no_address_text, no_connected_address, AddressRace, NoConnection,
    RaceAction,
};

fn v4(last: u8) -> SocketAddress {
    SocketAddress::V4 {
        octets: [127, 0, 0, last],
        port: 80,
    }
}

fn v6(last: u16) -> SocketAddress {
    SocketAddress::V6 {
        segments: [0, 0, 0, 0, 0, 0, 0, last],
        port: 80,
        flowinfo: 0,
        scope_id: 0,
    }
}

fn started(race: &mut AddressRace<&'static str>) -> SocketAddress {
    match race.next_action() {
        RaceAction::Start(address) => address,
        other => panic!("expected a start, not {other:?}"),
    }
}

fn waits_for(race: &mut AddressRace<&'static str>) -> Option<Duration> {
    match race.next_action() {
        RaceAction::Wait { delay } => delay,
        other => panic!("expected a wait, not {other:?}"),
    }
}

#[test]
fn resolved_address_order_alternates_address_families() {
    assert_eq!(
        interleave_address_families(vec![v6(1), v6(2), v4(1), v4(2)]),
        vec![v6(1), v4(1), v6(2), v4(2)]
    );
    assert_eq!(
        interleave_address_families(vec![v4(1), v4(2), v6(1), v6(2)]),
        vec![v6(1), v4(1), v6(2), v4(2)]
    );
}

#[test]
fn uneven_families_keep_their_rest_at_the_end() {
    assert_eq!(
        interleave_address_families(vec![v4(1), v4(2), v6(1), v4(3)]),
        vec![v6(1), v4(1), v4(2), v4(3)]
    );
    assert_eq!(
        interleave_address_families(vec![v6(1), v6(2), v6(3), v4(1)]),
        vec![v6(1), v4(1), v6(2), v6(3)]
    );
    assert_eq!(interleave_address_families(vec![v4(2), v4(1)]), vec![v4(2), v4(1)]);
    assert!(interleave_address_families(Vec::new()).is_empty());
}

#[test]
fn happy_eyeballs_races_only_mixed_address_families() {
    assert!(has_both_address_families(&[v6(1), v4(1)]));
    assert!(!has_both_address_families(&[v4(1), v4(2)]));
    assert!(!has_both_address_families(&[v6(1)]));
}

#[test]
fn a_mixed_race_starts_the_next_candidate_after_the_delay() {
    let delay = Duration::from_millis(250);
    let mut race = connect_resolved_addresses(vec![v4(1), v6(1), v4(2)], Some(delay));
    assert_eq!(started(&mut race), v6(1));
    assert_eq!(waits_for(&mut race), Some(delay));
    race.delay_elapsed();
    assert_eq!(started(&mut race), v4(1));
    assert_eq!(race.in_flight(), 2);
    assert_eq!(waits_for(&mut race), Some(delay));
    race.delay_elapsed();
    assert_eq!(started(&mut race), v4(2));
    assert_eq!(waits_for(&mut race), None);
}

#[test]
fn a_failure_starts_the_next_candidate_at_once() {
    let delay = Duration::from_millis(250);
    let mut race = connect_resolved_addresses(vec![v6(1), v4(1)], Some(delay));
    assert_eq!(started(&mut race), v6(1));
    race.attempt_failed("first");
    assert_eq!(started(&mut race), v4(1));
    assert_eq!(waits_for(&mut race), None);
    race.attempt_failed("second");
    assert!(matches!(race.next_action(), RaceAction::GiveUp));
    assert!(matches!(race.into_failure(), NoConnection::Attempt("second")));
}

#[test]
fn one_family_is_tried_serially_whatever_the_delay() {
    let mut race = connect_resolved_addresses(vec![v4(1), v4(2)], Some(Duration::ZERO));
    assert_eq!(started(&mut race), v4(1));
    assert_eq!(waits_for(&mut race), None);
    race.attempt_failed("first");
    assert_eq!(race.in_flight(), 0);
    assert_eq!(started(&mut race), v4(2));
    assert_eq!(race.in_flight(), 1);
}

#[test]
fn without_a_delay_both_families_are_tried_serially() {
    let mut race = connect_resolved_addresses(vec![v4(1), v6(1)], None);
    assert_eq!(started(&mut race), v6(1));
    assert_eq!(waits_for(&mut race), None);
    race.delay_elapsed();
    assert_eq!(waits_for(&mut race), None);
    race.attempt_failed("first");
    assert_eq!(started(&mut race), v4(1));
}

#[test]
fn a_race_without_candidates_is_lost_at_once() {
    let mut race: AddressRace<&'static str> =
        connect_resolved_addresses(Vec::new(), Some(Duration::ZERO));
    assert!(matches!(race.next_action(), RaceAction::GiveUp));
    assert!(matches!(race.into_failure(), NoConnection::NoAddress));
    assert_eq!(
        no_address_text(),
        "could not connect to any of the resolved addresses"
    );
}

#[test]
fn the_last_error_is_the_one_reported() {
    assert!(matches!(
        no_connected_address(Some("error")),
        NoConnection::Attempt("error")
    ));
    assert!(matches!(
        no_connected_address::<&'static str>(None),
        NoConnection::NoAddress
    ));
}
