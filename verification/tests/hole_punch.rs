use punchr::clock::ClockError;
use punchr::event::{ConnectedPoint, DcutrEvent, HandlerUpgradeError, SwarmEvent, UpgradeError};
use punchr::hole_punch::{HolePunchAttemptState, HolePunchState, HolePunchStep};
use punchr::message::{
    HolePunchAttempt, HolePunchAttemptOutcome, HolePunchOutcome, TrackHolePunchRequest,
};
use punchr::multiaddr::Multiaddr;
use std::ops::ControlFlow;

const REMOTE: [u8; 4] = [0x12, 0x02, 7, 7];

fn encode(text: &str) -> Vec<u8> {
    text.parse::<libp2p::Multiaddr>().unwrap().to_vec()
}

fn dialer(text: &str) -> ConnectedPoint {
    ConnectedPoint::Dialer { address: Multiaddr::decode(encode(text)).unwrap() }
}

fn relayed() -> ConnectedPoint {
    dialer("/ip4/9.9.9.9/tcp/1/p2p-circuit")
}

fn direct() -> ConnectedPoint {
    dialer("/ip4/1.2.3.4/tcp/5")
}

fn start() -> HolePunchState {
    HolePunchState::new_at(
        vec![0x12, 0x01, 1],
        vec![encode("/ip4/127.0.0.1/tcp/4001")],
        REMOTE.to_vec(),
        vec![encode("/ip4/1.2.3.4/tcp/5")],
        "key".to_string(),
        100,
    )
}

fn established(peer: &[u8], endpoint: ConnectedPoint, num_established: u32) -> SwarmEvent {
    SwarmEvent::ConnectionEstablished { peer_id: peer.to_vec(), endpoint, num_established }
}

fn closed(peer: &[u8], endpoint: ConnectedPoint, num_established: u32) -> SwarmEvent {
    SwarmEvent::ConnectionClosed { peer_id: peer.to_vec(), endpoint, num_established }
}

fn undialable(peer: Option<&[u8]>, is_connected: bool) -> SwarmEvent {
    SwarmEvent::OutgoingConnectionError { peer_id: peer.map(|peer| peer.to_vec()), is_connected }
}

fn initiated() -> SwarmEvent {
    SwarmEvent::Dcutr(DcutrEvent::RemoteInitiatedDirectConnectionUpgrade)
}

fn upgraded() -> SwarmEvent {
    SwarmEvent::Dcutr(DcutrEvent::DirectConnectionUpgradeSucceeded)
}

fn not_upgraded(error: UpgradeError) -> SwarmEvent {
    SwarmEvent::Dcutr(DcutrEvent::DirectConnectionUpgradeFailed { error })
}

fn waiting(step: HolePunchStep) -> HolePunchState {
    match step {
        HolePunchStep::Waiting(state) => state,
        HolePunchStep::Finished(_) => panic!("the hole punch is over"),
    }
}

fn finished(step: HolePunchStep) -> TrackHolePunchRequest {
    match step {
        HolePunchStep::Waiting(_) => panic!("the hole punch goes on"),
        HolePunchStep::Finished(request) => request,
    }
}

/// The report as it stands.
fn peek(state: HolePunchState) -> TrackHolePunchRequest {
    state.finish_at(HolePunchOutcome::Unknown, None, 0)
}

fn assert_same_subject(request: &TrackHolePunchRequest) {
    assert_eq!(request.client_id, vec![0x12, 0x01, 1]);
    assert_eq!(request.remote_id, REMOTE.to_vec());
    assert_eq!(request.remote_multi_addresses, vec![encode("/ip4/1.2.3.4/tcp/5")]);
    assert_eq!(request.listen_multi_addresses, vec![encode("/ip4/127.0.0.1/tcp/4001")]);
    assert_eq!(request.api_key, "key");
    assert_eq!(request.connect_started_at, 100);
}

fn assert_attempt(
    attempt: &HolePunchAttempt,
    times: (u64, u64, u64),
    outcome: HolePunchAttemptOutcome,
    error: Option<&str>,
) {
    assert_eq!(attempt.opened_at, times.0);
    assert_eq!(attempt.started_at, Some(times.1));
    assert_eq!(attempt.ended_at, times.2);
    assert_eq!(attempt.elapsed_time, times.2 - times.1);
    assert_eq!(attempt.start_rtt, None);
    assert_eq!(attempt.outcome, outcome);
    assert_eq!(attempt.error.as_deref(), error);
    assert_eq!(attempt.direct_dial_error, None);
}

#[test]
fn new_hole_punch_has_an_open_report() {
    let request = peek(start());
    assert_same_subject(&request);
    assert!(request.open_multi_addresses.is_empty());
    assert!(!request.has_direct_conns);
    assert_eq!(request.connect_ended_at, 0);
    assert!(request.hole_punch_attempts.is_empty());
}

#[test]
fn new_hole_punch_starts_now() {
    let before = punchr::clock::unix_time_now().unwrap();
    let state =
        HolePunchState::new(vec![1], vec![], vec![2], vec![], "key".to_string()).unwrap();
    let after = punchr::clock::unix_time_now().unwrap();
    let request = peek(state);
    assert!(before <= request.connect_started_at && request.connect_started_at <= after);
    assert_eq!(request.client_id, vec![1]);
    assert_eq!(request.remote_id, vec![2]);
}

#[test]
fn cancelled_hole_punch() {
    let request = start().cancel_at(150);
    assert_same_subject(&request);
    assert_eq!(request.connect_ended_at, 150);
    assert_eq!(request.ended_at, 150);
    assert_eq!(request.outcome, HolePunchOutcome::Cancelled);
    assert_eq!(
        request.error.as_deref(),
        Some("rust-lib2p doesn't support quic transport yet.")
    );
    assert!(request.hole_punch_attempts.is_empty());

    let request = start().cancel().unwrap();
    assert_same_subject(&request);
    assert_eq!(request.connect_ended_at, request.ended_at);
    assert_eq!(request.outcome, HolePunchOutcome::Cancelled);
}

#[test]
fn successful_hole_punch() {
    let state = start();
    let state = waiting(state.drive_hole_punch_at(established(&REMOTE, relayed(), 1), 200, 0));
    let state = waiting(state.drive_hole_punch_at(initiated(), 300, 0));
    let state = waiting(state.drive_hole_punch_at(established(&REMOTE, direct(), 2), 350, 0));
    let request = finished(state.drive_hole_punch_at(upgraded(), 400, 410));
    assert_same_subject(&request);
    assert_eq!(request.connect_ended_at, 200);
    assert_eq!(
        request.open_multi_addresses,
        vec![encode("/ip4/9.9.9.9/tcp/1/p2p-circuit"), encode("/ip4/1.2.3.4/tcp/5")]
    );
    assert!(request.has_direct_conns);
    assert_eq!(request.outcome, HolePunchOutcome::Success);
    assert_eq!(request.error, None);
    assert_eq!(request.ended_at, 410);
    assert_eq!(request.hole_punch_attempts.len(), 1);
    assert_attempt(
        &request.hole_punch_attempts[0],
        (200, 300, 400),
        HolePunchAttemptOutcome::Success,
        None,
    );
}

#[test]
fn failed_attempts_are_recorded_one_by_one() {
    let mut state = waiting(
        start().drive_hole_punch_at(established(&REMOTE, relayed(), 1), 200, 0),
    );
    for round in 0..2u64 {
        state = waiting(state.drive_hole_punch_at(initiated(), 300 + 100 * round, 0));
        state = waiting(
            state.drive_hole_punch_at(undialable(Some(&REMOTE), true), 350 + 100 * round, 0),
        );
    }
    state = waiting(state.drive_hole_punch_at(initiated(), 500, 0));
    let request = finished(
        state.drive_hole_punch_at(not_upgraded(UpgradeError::Dial), 550, 560),
    );
    assert_eq!(request.outcome, HolePunchOutcome::Failed);
    assert_eq!(request.error.as_deref(), Some("none of the 3 attempts succeeded"));
    assert_eq!(request.ended_at, 560);
    assert!(!request.has_direct_conns);
    let attempts = &request.hole_punch_attempts;
    assert_eq!(attempts.len(), 3);
    let error = Some("failed to establish a direct connection");
    assert_attempt(&attempts[0], (200, 300, 350), HolePunchAttemptOutcome::Failed, error);
    assert_attempt(&attempts[1], (200, 400, 450), HolePunchAttemptOutcome::Failed, error);
    assert_attempt(&attempts[2], (200, 500, 550), HolePunchAttemptOutcome::Failed, error);
}

#[test]
fn reasons_of_a_failed_upgrade() {
    let cases = [
        (
            UpgradeError::Dial,
            HolePunchAttemptOutcome::Failed,
            "failed to establish a direct connection",
        ),
        (
            UpgradeError::Handler(HandlerUpgradeError::Timeout),
            HolePunchAttemptOutcome::Timeout,
            "hole-punch timed out",
        ),
        (
            UpgradeError::Handler(HandlerUpgradeError::Timer),
            HolePunchAttemptOutcome::Timeout,
            "timer error",
        ),
        (
            UpgradeError::Handler(HandlerUpgradeError::Upgrade),
            HolePunchAttemptOutcome::ProtocolError,
            "protocol error",
        ),
    ];
    for (error, outcome, words) in cases {
        let state = waiting(start().drive_hole_punch_at(initiated(), 300, 0));
        let request = finished(state.drive_hole_punch_at(not_upgraded(error), 301, 302));
        assert_eq!(request.outcome, HolePunchOutcome::Failed);
        assert_attempt(&request.hole_punch_attempts[0], (0, 300, 301), outcome, Some(words));
    }
}

#[test]
fn upgrade_without_an_attempt_records_none() {
    let request = finished(start().drive_hole_punch_at(upgraded(), 300, 310));
    assert_eq!(request.outcome, HolePunchOutcome::Success);
    assert!(request.hole_punch_attempts.is_empty());
    let request = finished(
        start().drive_hole_punch_at(not_upgraded(UpgradeError::Dial), 300, 310),
    );
    assert_eq!(request.outcome, HolePunchOutcome::Failed);
    assert!(request.hole_punch_attempts.is_empty());
}

#[test]
fn reversed_connection() {
    let state = waiting(start().drive_hole_punch_at(established(&REMOTE, relayed(), 1), 200, 0));
    let request = finished(
        state.drive_hole_punch_at(established(&REMOTE, direct(), 2), 250, 260),
    );
    assert_eq!(request.outcome, HolePunchOutcome::ConnectionReversed);
    assert_eq!(request.error, None);
    assert!(request.has_direct_conns);
    assert_eq!(request.connect_ended_at, 200);
    assert_eq!(request.ended_at, 260);
}

#[test]
fn unreachable_peer() {
    let request = finished(
        start().drive_hole_punch_at(undialable(Some(&REMOTE), false), 200, 210),
    );
    assert_eq!(request.outcome, HolePunchOutcome::NoConnection);
    assert_eq!(
        request.error.as_deref(),
        Some("Error connecting to remote peer via relay.")
    );
    assert_eq!(request.connect_ended_at, 200);
    assert_eq!(request.ended_at, 210);
}

#[test]
fn undialable_address_without_an_attempt_changes_nothing() {
    let state = waiting(start().drive_hole_punch_at(undialable(Some(&REMOTE), true), 200, 0));
    let request = peek(state);
    assert_same_subject(&request);
    assert_eq!(request.connect_ended_at, 0);
    assert!(request.hole_punch_attempts.is_empty());
}

#[test]
fn last_connection_closed() {
    let state = waiting(start().drive_hole_punch_at(established(&REMOTE, relayed(), 1), 200, 0));
    let request = finished(state.drive_hole_punch_at(closed(&REMOTE, relayed(), 0), 250, 260));
    assert_eq!(request.outcome, HolePunchOutcome::Failed);
    assert_eq!(
        request.error.as_deref(),
        Some("connection closed without a successful hole-punch")
    );
    assert!(request.open_multi_addresses.is_empty());
    assert_eq!(request.ended_at, 260);
}

#[test]
fn closing_undoes_opening() {
    let other = "/ip4/8.8.8.8/tcp/2/p2p-circuit";
    let opened = established(&REMOTE, dialer(other), 1);
    let state = waiting(start().drive_hole_punch_at(opened, 200, 0));
    let state = waiting(state.drive_hole_punch_at(established(&REMOTE, relayed(), 2), 210, 0));
    let state = waiting(state.drive_hole_punch_at(closed(&REMOTE, relayed(), 1), 220, 0));
    assert_eq!(peek(state).open_multi_addresses, vec![encode(other)]);
}

#[test]
fn closing_removes_all_equal_addresses() {
    let state = waiting(start().drive_hole_punch_at(established(&REMOTE, relayed(), 1), 200, 0));
    let state = waiting(state.drive_hole_punch_at(established(&REMOTE, relayed(), 2), 210, 0));
    let state = waiting(state.drive_hole_punch_at(closed(&REMOTE, relayed(), 1), 220, 0));
    let request = peek(state);
    assert!(request.open_multi_addresses.is_empty());
    assert_eq!(request.connect_ended_at, 200);
}

#[test]
fn other_peers_are_ignored() {
    let stranger = [0x12, 0x02, 8, 8];
    let state = start();
    let state = waiting(state.drive_hole_punch_at(established(&stranger, direct(), 1), 200, 0));
    let state = waiting(state.drive_hole_punch_at(closed(&stranger, direct(), 0), 210, 0));
    let state = waiting(state.drive_hole_punch_at(undialable(Some(&stranger), false), 220, 0));
    let state = waiting(state.drive_hole_punch_at(undialable(None, false), 230, 0));
    let state = waiting(state.drive_hole_punch_at(SwarmEvent::Other, 240, 0));
    let request = peek(state);
    assert_same_subject(&request);
    assert!(request.open_multi_addresses.is_empty());
    assert!(!request.has_direct_conns);
    assert_eq!(request.connect_ended_at, 0);
}

#[test]
fn new_attempt_replaces_the_one_under_way() {
    let state = waiting(start().drive_hole_punch_at(initiated(), 300, 0));
    let state = waiting(state.drive_hole_punch_at(initiated(), 320, 0));
    let request = finished(state.drive_hole_punch_at(upgraded(), 330, 331));
    assert_eq!(request.hole_punch_attempts.len(), 1);
    assert_eq!(request.hole_punch_attempts[0].started_at, Some(320));
}

#[test]
fn handlers_answer_whether_the_hole_punch_goes_on() {
    let mut state = start();
    let flow = state.handle_established_connection(relayed(), 1).unwrap();
    assert_eq!(flow, ControlFlow::Continue(()));
    let flow = state.handle_connection_error(true).unwrap();
    assert_eq!(flow, ControlFlow::Continue(()));
    let flow = state
        .handle_dcutr_event(DcutrEvent::RemoteInitiatedDirectConnectionUpgrade)
        .unwrap();
    assert_eq!(flow, ControlFlow::Continue(()));
    let flow = state.handle_event(established(&REMOTE, direct(), 2)).unwrap();
    assert_eq!(flow, ControlFlow::Continue(()));
    let flow = state.handle_closed_connection(relayed(), 1);
    assert_eq!(flow, ControlFlow::Continue(()));
    let flow = state.handle_dcutr_event(DcutrEvent::DirectConnectionUpgradeSucceeded).unwrap();
    assert_eq!(flow, ControlFlow::Break((HolePunchOutcome::Success, None)));
    let request = state.finish(HolePunchOutcome::Success, None).unwrap();
    assert_eq!(request.open_multi_addresses, vec![encode("/ip4/1.2.3.4/tcp/5")]);
    let attempt = &request.hole_punch_attempts[0];
    assert_eq!(attempt.opened_at, request.connect_ended_at);
    assert!(request.connect_ended_at <= attempt.started_at.unwrap());
    assert!(attempt.started_at.unwrap() <= attempt.ended_at);
    assert!(attempt.ended_at <= request.ended_at);
}

#[test]
fn hole_punch_is_driven_by_the_clock() {
    let step = start().drive_hole_punch(established(&REMOTE, relayed(), 1)).unwrap();
    let step = waiting(step).drive_hole_punch(closed(&REMOTE, relayed(), 0)).unwrap();
    let request = finished(step);
    assert_eq!(request.outcome, HolePunchOutcome::Failed);
    assert!(request.connect_ended_at > 100);
    assert!(request.ended_at >= request.connect_ended_at);
}

#[test]
fn clock_that_goes_backwards_is_told_and_nothing_changes() {
    let mut state = start();
    let flow = state.handle_event_at(initiated(), u64::MAX);
    assert_eq!(flow, ControlFlow::Continue(()));
    assert_eq!(state.handle_event(upgraded()), Err(ClockError::WentBackwards));
    assert_eq!(state.handle_connection_error(true), Err(ClockError::WentBackwards));
    let flow = state.handle_event_at(upgraded(), u64::MAX);
    assert_eq!(flow, ControlFlow::Break((HolePunchOutcome::Success, None)));
    assert_eq!(peek(state).hole_punch_attempts[0].elapsed_time, 0);
}

#[test]
fn attempt_is_resolved() {
    let attempt = HolePunchAttemptState { opened_at: 5, started_at: 10 };
    let error = Some("late".to_string());
    let resolved = attempt.resolve_at(HolePunchAttemptOutcome::Timeout, error, 25);
    assert_attempt(&resolved, (5, 10, 25), HolePunchAttemptOutcome::Timeout, Some("late"));
    let resolved = attempt.resolve(HolePunchAttemptOutcome::Success, None).unwrap();
    let ended_at = resolved.ended_at;
    assert_attempt(&resolved, (5, 10, ended_at), HolePunchAttemptOutcome::Success, None);
    let future = HolePunchAttemptState { opened_at: 5, started_at: u64::MAX };
    assert!(matches!(
        future.resolve(HolePunchAttemptOutcome::Success, None),
        Err(ClockError::WentBackwards)
    ));
}

#[test]
fn end_of_a_hole_punch_does_not_depend_on_the_time() {
    let events: [fn() -> SwarmEvent; 5] = [
        || established(&REMOTE, direct(), 1),
        || undialable(Some(&REMOTE), false),
        || undialable(Some(&REMOTE), true),
        upgraded,
        initiated,
    ];
    for event in events {
        let early = start().handle_event_at(event(), 1);
        let late = start().handle_event_at(event(), u64::MAX);
        assert_eq!(early, late);
    }
}

#[test]
fn event_without_a_time_stamp_does_not_depend_on_the_time() {
    let reports: Vec<TrackHolePunchRequest> = [1, u64::MAX]
        .into_iter()
        .map(|now| {
            let state = waiting(start().drive_hole_punch_at(initiated(), 1, 0));
            let opened = established(&REMOTE, direct(), 2);
            peek(waiting(state.drive_hole_punch_at(opened, now, 0)))
        })
        .collect();
    for report in &reports {
        assert_same_subject(report);
        assert!(report.has_direct_conns);
        assert_eq!(report.connect_ended_at, 0);
        assert_eq!(report.open_multi_addresses, vec![encode("/ip4/1.2.3.4/tcp/5")]);
    }
}

#[test]
fn only_the_end_of_an_attempt_can_come_too_early() {
    let mut state = start();
    assert!(state.handle_event_at(initiated(), u64::MAX).is_continue());
    let flow = state.handle_established_connection(relayed(), 1).unwrap();
    assert_eq!(flow, ControlFlow::Continue(()));
    let early = Err(ClockError::WentBackwards);
    assert_eq!(state.handle_connection_error(true), early);
    assert_eq!(state.handle_dcutr_event(DcutrEvent::DirectConnectionUpgradeSucceeded), early);
    assert_eq!(state.handle_event(upgraded()), early);
    let flow = state
        .handle_dcutr_event(DcutrEvent::RemoteInitiatedDirectConnectionUpgrade)
        .unwrap();
    assert_eq!(flow, ControlFlow::Continue(()));
    assert!(state.handle_connection_error(false).unwrap().is_break());
    assert!(state.handle_event(upgraded()).unwrap().is_break());
}

#[test]
fn hole_punch_stops_at_its_first_end() {
    let mut state = start();
    let events = [initiated(), undialable(Some(&REMOTE), true), closed(&REMOTE, relayed(), 0)];
    let flows: Vec<bool> = events
        .into_iter()
        .zip(200..)
        .map(|(event, now)| state.handle_event_at(event, now).is_break())
        .collect();
    assert_eq!(flows, vec![false, false, true]);
}

#[test]
fn unrelated_events_between_others_change_nothing() {
    let stranger = [0x12, 0x02, 8, 8];
    let unrelated: [fn(&[u8]) -> SwarmEvent; 4] = [
        |peer| established(peer, direct(), 1),
        |peer| closed(peer, direct(), 0),
        |peer| undialable(Some(peer), false),
        |_| SwarmEvent::Other,
    ];
    let related: [fn() -> SwarmEvent; 3] =
        [|| established(&REMOTE, relayed(), 1), initiated, || undialable(Some(&REMOTE), true)];
    let mut plain = start();
    let mut disturbed = start();
    for (event, now) in related.into_iter().zip(200..) {
        assert!(plain.handle_event_at(event(), now).is_continue());
        assert!(disturbed.handle_event_at(event(), now).is_continue());
        for noise in unrelated {
            assert!(disturbed.handle_event_at(noise(&stranger), now).is_continue());
        }
    }
    let (plain, disturbed) = (peek(plain), peek(disturbed));
    assert_same_subject(&disturbed);
    assert_eq!(plain.open_multi_addresses, disturbed.open_multi_addresses);
    assert_eq!(plain.connect_ended_at, disturbed.connect_ended_at);
    assert!(!plain.has_direct_conns && !disturbed.has_direct_conns);
    for report in [plain, disturbed] {
        assert_eq!(report.hole_punch_attempts.len(), 1);
        let error = Some("failed to establish a direct connection");
        let attempt = &report.hole_punch_attempts[0];
        assert_attempt(attempt, (200, 201, 202), HolePunchAttemptOutcome::Failed, error);
    }
}

#[test]
fn times_of_a_hole_punch_are_in_order() {
    let mut state = start();
    assert!(state.handle_event_at(established(&REMOTE, relayed(), 1), 100).is_continue());
    for now in [100, 150, 200] {
        assert!(state.handle_event_at(initiated(), now).is_continue());
        assert!(state.handle_event_at(undialable(Some(&REMOTE), true), now + 50).is_continue());
    }
    let request = peek(state);
    assert!(request.connect_started_at <= request.connect_ended_at);
    assert_eq!(request.hole_punch_attempts.len(), 3);
    for pair in request.hole_punch_attempts.windows(2) {
        assert!(pair[0].opened_at <= pair[0].started_at.unwrap());
        assert!(pair[0].ended_at <= pair[1].started_at.unwrap());
    }
}

#[test]
fn direct_connection_is_remembered() {
    let mut state = start();
    assert!(state.handle_event_at(initiated(), 200).is_continue());
    assert!(state.handle_event_at(established(&REMOTE, direct(), 1), 210).is_continue());
    assert!(state.handle_event_at(established(&REMOTE, relayed(), 2), 220).is_continue());
    assert!(state.handle_event_at(closed(&REMOTE, direct(), 1), 230).is_continue());
    let request = peek(state);
    assert!(request.has_direct_conns);
    assert_eq!(request.open_multi_addresses, vec![encode("/ip4/9.9.9.9/tcp/1/p2p-circuit")]);
}
