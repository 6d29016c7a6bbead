//! What a single event does to a hole punch, whatever the hole punch has come to.
use crate::event::{
    ConnectedPointView, DcutrEvent, HandlerUpgradeError, SwarmEventView, UpgradeError,
};
use crate::hole_punch::{
    flow_of, started, HolePunchAttemptState, HolePunchStepView, HolePunchView,
};
use crate::message::{
    HolePunchAttemptOutcome, HolePunchAttemptView, HolePunchOutcome, TrackHolePunchRequestView,
};
use crate::multiaddr::MultiaddrView;
use std::ops::ControlFlow;
use vstd::prelude::*;

verus! {

/// Whether the relay protocol is among the protocols of an address, in whatever place.
pub open spec fn names_relay(address: MultiaddrView) -> bool {
    exists|i: int|
        0 <= i < address.protocols.len() && #[trigger] address.protocols[i] == "p2p-circuit"@
}

/// The address that this client dialed, or was dialed on.
pub open spec fn own_address(endpoint: ConnectedPointView) -> MultiaddrView {
    match endpoint {
        ConnectedPointView::Dialer { address } => address,
        ConnectedPointView::Listener { local_addr, .. } => local_addr,
    }
}

/// The address under which the remote peer was dialed, or is answered.
pub open spec fn far_address(endpoint: ConnectedPointView) -> MultiaddrView {
    match endpoint {
        ConnectedPointView::Dialer { address } => address,
        ConnectedPointView::Listener { send_back_addr, .. } => send_back_addr,
    }
}

/// A connection is relayed if and only if the address that this client dialed, or was dialed on,
/// names the relay protocol, in whatever place. Its remote address is the one that was dialed, or
/// that answers go to.
pub proof fn law_relay_is_named_anywhere(endpoint: ConnectedPointView)
    ensures
        endpoint.is_relayed() <==> names_relay(own_address(endpoint)),
        endpoint.remote() == far_address(endpoint),
        endpoint.remote_address() == far_address(endpoint).bytes,
{
    let protocols = own_address(endpoint).protocols;
    if protocols.contains("p2p-circuit"@) {
        let i = choose|i: int| 0 <= i < protocols.len() && protocols[i] == "p2p-circuit"@;
        assert(protocols[i] == "p2p-circuit"@);
    }
}

/// A relayed address stays relayed when protocols are added to it, in front or behind.
pub proof fn law_longer_address_stays_relayed(
    address: MultiaddrView,
    front: Seq<Seq<char>>,
    behind: Seq<Seq<char>>,
    bytes: Seq<u8>,
    far: MultiaddrView,
)
    requires
        (ConnectedPointView::Dialer { address }).is_relayed(),
    ensures
        ({
            let longer = MultiaddrView { bytes, protocols: front + address.protocols + behind };
            &&& (ConnectedPointView::Dialer { address: longer }).is_relayed()
            &&& (ConnectedPointView::Listener {
                local_addr: longer,
                send_back_addr: far,
            }).is_relayed()
        }),
{
    let longer = MultiaddrView { bytes, protocols: front + address.protocols + behind };
    law_relay_is_named_anywhere(ConnectedPointView::Dialer { address });
    law_relay_is_named_anywhere(ConnectedPointView::Dialer { address: longer });
    law_relay_is_named_anywhere(
        ConnectedPointView::Listener { local_addr: longer, send_back_addr: far },
    );
    let i = choose|i: int|
        0 <= i < address.protocols.len() && #[trigger] address.protocols[i] == "p2p-circuit"@;
    assert(longer.protocols[front.len() + i] == "p2p-circuit"@);
}

/// Whether the second report is the first one with one more attempt at its end: the one that was
/// under way, which began when it did, ended at `now` and had that outcome and error.
pub open spec fn recorded(
    before: TrackHolePunchRequestView,
    after: TrackHolePunchRequestView,
    attempt: HolePunchAttemptState,
    now: u64,
    outcome: HolePunchAttemptOutcome,
    error: Option<Seq<char>>,
) -> bool {
    let last = after.hole_punch_attempts.last();
    &&& after.hole_punch_attempts.len() == before.hole_punch_attempts.len() + 1
    &&& forall|i: int|
        0 <= i < before.hole_punch_attempts.len() ==> #[trigger] after.hole_punch_attempts[i]
            == before.hole_punch_attempts[i]
    &&& last.opened_at == attempt.opened_at
    &&& last.started_at == Some(attempt.started_at)
    &&& last.ended_at == now
    &&& last.elapsed_time + attempt.started_at == now
    &&& last.outcome == outcome
    &&& last.error == error
    &&& last.start_rtt is None
    &&& last.direct_dial_error is None
    &&& after == (TrackHolePunchRequestView {
        hole_punch_attempts: after.hole_punch_attempts,
        ..before
    })
}

/// A direct connection upgrade that succeeds while an attempt is under way puts that attempt on the
/// report as a success, behind whatever attempts are there, and ends the hole punch as a success.
pub proof fn law_success_is_recorded(
    state: HolePunchView,
    attempt: HolePunchAttemptState,
    now: u64,
)
    requires
        state.active == Some(attempt),
        attempt.started_at <= now,
    ensures
        ({
            let event = SwarmEventView::Dcutr(DcutrEvent::DirectConnectionUpgradeSucceeded);
            let (after, flow) = state.after_event(event, now);
            &&& recorded(
                state.request,
                after.request,
                attempt,
                now,
                HolePunchAttemptOutcome::Success,
                None,
            )
            &&& after.active is None
            &&& after.remote_id == state.remote_id
            &&& flow == Some((HolePunchOutcome::Success, None::<Seq<char>>))
        }),
{
}

/// A direct connection upgrade that fails while an attempt is under way puts that attempt on the
/// report, behind whatever attempts are there, with an outcome and an error that tell why, and ends
/// the hole punch as a failure.
pub proof fn law_failure_is_recorded(
    state: HolePunchView,
    attempt: HolePunchAttemptState,
    error: UpgradeError,
    now: u64,
)
    requires
        state.active == Some(attempt),
        attempt.started_at <= now,
    ensures
        ({
            let event = SwarmEventView::Dcutr(DcutrEvent::DirectConnectionUpgradeFailed { error });
            let (after, flow) = state.after_event(event, now);
            let last = after.request.hole_punch_attempts.last();
            &&& recorded(state.request, after.request, attempt, now, last.outcome, last.error)
            &&& error == UpgradeError::Dial ==> {
                &&& last.outcome == HolePunchAttemptOutcome::Failed
                &&& last.error == Some("failed to establish a direct connection"@)
            }
            &&& error == UpgradeError::Handler(HandlerUpgradeError::Timeout) ==> {
                &&& last.outcome == HolePunchAttemptOutcome::Timeout
                &&& last.error == Some("hole-punch timed out"@)
            }
            &&& error == UpgradeError::Handler(HandlerUpgradeError::Timer) ==> {
                &&& last.outcome == HolePunchAttemptOutcome::Timeout
                &&& last.error == Some("timer error"@)
            }
            &&& error == UpgradeError::Handler(HandlerUpgradeError::Upgrade) ==> {
                &&& last.outcome == HolePunchAttemptOutcome::ProtocolError
                &&& last.error == Some("protocol error"@)
            }
            &&& after.active is None
            &&& after.remote_id == state.remote_id
            &&& flow == Some(
                (HolePunchOutcome::Failed, Some("none of the 3 attempts succeeded"@)),
            )
        }),
{
}

/// With no attempt under way, the end of a direct connection upgrade puts nothing on the report. It
/// ends the hole punch all the same, well or badly.
pub proof fn law_upgrade_without_attempt(state: HolePunchView, error: UpgradeError, now: u64)
    requires
        state.active is None,
    ensures
        ({
            let good = SwarmEventView::Dcutr(DcutrEvent::DirectConnectionUpgradeSucceeded);
            let bad = SwarmEventView::Dcutr(DcutrEvent::DirectConnectionUpgradeFailed { error });
            &&& state.after_event(good, now).0 == state
            &&& state.after_event(good, now).1 == Some(
                (HolePunchOutcome::Success, None::<Seq<char>>),
            )
            &&& state.after_event(bad, now).0 == state
            &&& state.after_event(bad, now).1 == Some(
                (HolePunchOutcome::Failed, Some("none of the 3 attempts succeeded"@)),
            )
        }),
{
}

/// When the remote peer initiates an upgrade, an attempt is under way that starts at that time and
/// was opened when the connecting ended, whatever was under way before. Nothing else changes.
pub proof fn law_initiation_starts_an_attempt(state: HolePunchView, now: u64)
    ensures
        ({
            let event = SwarmEventView::Dcutr(DcutrEvent::RemoteInitiatedDirectConnectionUpgrade);
            let (after, flow) = state.after_event(event, now);
            &&& after.active is Some
            &&& after.active->0.started_at == now
            &&& after.active->0.opened_at == state.request.connect_ended_at
            &&& after.request == state.request
            &&& after.remote_id == state.remote_id
            &&& flow is None
        }),
{
}

/// An attempt that starts, and then ends one way or another, is on the report with the times at
/// which it did.
pub proof fn law_attempt_has_its_times(state: HolePunchView, start: u64, end: u64)
    requires
        start <= end,
    ensures
        ({
            let begin = SwarmEventView::Dcutr(DcutrEvent::RemoteInitiatedDirectConnectionUpgrade);
            let good = SwarmEventView::Dcutr(DcutrEvent::DirectConnectionUpgradeSucceeded);
            let dial = SwarmEventView::OutgoingConnectionError {
                peer_id: Some(state.remote_id),
                is_connected: true,
            };
            let during = state.after_event(begin, start).0;
            let won = during.after_event(good, end).0.request.hole_punch_attempts;
            let lost = during.after_event(dial, end).0.request.hole_punch_attempts;
            let count = state.request.hole_punch_attempts.len();
            &&& won.len() == count + 1 && lost.len() == count + 1
            &&& won.last().opened_at == state.request.connect_ended_at
            &&& won.last().started_at == Some(start)
            &&& won.last().ended_at == end
            &&& won.last().elapsed_time == end - start
            &&& won.last().outcome == HolePunchAttemptOutcome::Success
            &&& won.last().error is None
            &&& lost.last() == (HolePunchAttemptView {
                outcome: HolePunchAttemptOutcome::Failed,
                error: Some("failed to establish a direct connection"@),
                ..won.last()
            })
        }),
{
}

/// A new connection to the remote peer ends the hole punch if and only if it does not go through a
/// relay while no attempt is under way. It is a reversed connection, whichever side dialed.
pub proof fn law_reversed_connection(
    state: HolePunchView,
    endpoint: ConnectedPointView,
    num_established: u32,
    now: u64,
)
    ensures
        ({
            let event = SwarmEventView::ConnectionEstablished {
                peer_id: state.remote_id,
                endpoint,
                num_established,
            };
            state.after_event(event, now).1 == if state.active is None && !names_relay(
                own_address(endpoint),
            ) {
                Some((HolePunchOutcome::ConnectionReversed, None::<Seq<char>>))
            } else {
                None
            }
        }),
{
    law_relay_is_named_anywhere(endpoint);
}

/// A new connection to the remote peer adds its remote address behind the open ones. It makes for a
/// direct connection unless it goes through a relay. The first one ends the connecting. Nothing
/// else changes.
pub proof fn law_connection_is_noted(
    state: HolePunchView,
    endpoint: ConnectedPointView,
    num_established: u32,
    now: u64,
)
    ensures
        ({
            let event = SwarmEventView::ConnectionEstablished {
                peer_id: state.remote_id,
                endpoint,
                num_established,
            };
            let after = state.after_event(event, now).0;
            let open = state.request.open_multi_addresses;
            &&& after.request.open_multi_addresses.len() == open.len() + 1
            &&& after.request.open_multi_addresses.last() == far_address(endpoint).bytes
            &&& forall|i: int|
                0 <= i < open.len() ==> #[trigger] after.request.open_multi_addresses[i] == open[i]
            &&& after.request.has_direct_conns <==> state.request.has_direct_conns || !names_relay(
                own_address(endpoint),
            )
            &&& num_established == 1 ==> after.request.connect_ended_at == now
            &&& num_established != 1 ==> after.request.connect_ended_at
                == state.request.connect_ended_at
            &&& after.request == (TrackHolePunchRequestView {
                open_multi_addresses: after.request.open_multi_addresses,
                has_direct_conns: after.request.has_direct_conns,
                connect_ended_at: after.request.connect_ended_at,
                ..state.request
            })
            &&& after.active == state.active
            &&& after.remote_id == state.remote_id
        }),
{
    law_relay_is_named_anywhere(endpoint);
}

/// A dial of the remote peer that fails while there is no connection to it ends the hole punch for
/// want of a connection, and the connecting at that time, however many addresses there are to dial.
/// Nothing else changes.
pub proof fn law_unreachable_peer(state: HolePunchView, now: u64)
    ensures
        ({
            let event = SwarmEventView::OutgoingConnectionError {
                peer_id: Some(state.remote_id),
                is_connected: false,
            };
            let (after, flow) = state.after_event(event, now);
            &&& flow == Some(
                (
                    HolePunchOutcome::NoConnection,
                    Some("Error connecting to remote peer via relay."@),
                ),
            )
            &&& after.request.connect_ended_at == now
            &&& after.request == (TrackHolePunchRequestView {
                connect_ended_at: now,
                ..state.request
            })
            &&& after.active == state.active
            &&& after.remote_id == state.remote_id
        }),
{
}

/// A dial of the remote peer that fails while there is a connection to it puts the attempt that is
/// under way, if any, on the report as a failure. The hole punch goes on.
pub proof fn law_failed_dial_is_recorded(state: HolePunchView, now: u64)
    requires
        state.active is Some ==> state.active->0.started_at <= now,
    ensures
        ({
            let event = SwarmEventView::OutgoingConnectionError {
                peer_id: Some(state.remote_id),
                is_connected: true,
            };
            let (after, flow) = state.after_event(event, now);
            &&& flow is None
            &&& after.active is None
            &&& after.remote_id == state.remote_id
            &&& match state.active {
                Some(attempt) => recorded(
                    state.request,
                    after.request,
                    attempt,
                    now,
                    HolePunchAttemptOutcome::Failed,
                    Some("failed to establish a direct connection"@),
                ),
                None => after.request == state.request,
            }
        }),
{
}

/// The end of a connection to the remote peer keeps exactly those open addresses that are not its
/// remote address, in their order, and changes nothing else. It ends the hole punch, as a failure,
/// if and only if it was the last connection.
pub proof fn law_closed_connection(
    state: HolePunchView,
    endpoint: ConnectedPointView,
    num_established: u32,
    now: u64,
)
    ensures
        ({
            let event = SwarmEventView::ConnectionClosed {
                peer_id: state.remote_id,
                endpoint,
                num_established,
            };
            let (after, flow) = state.after_event(event, now);
            let gone = far_address(endpoint).bytes;
            &&& after.request.open_multi_addresses == state.request.open_multi_addresses.filter(
                |address: Seq<u8>| address != gone,
            )
            &&& after.request == (TrackHolePunchRequestView {
                open_multi_addresses: after.request.open_multi_addresses,
                ..state.request
            })
            &&& after.active == state.active
            &&& after.remote_id == state.remote_id
            &&& flow == if num_established == 0 {
                Some(
                    (
                        HolePunchOutcome::Failed,
                        Some("connection closed without a successful hole-punch"@),
                    ),
                )
            } else {
                None
            }
        }),
{
    law_relay_is_named_anywhere(endpoint);
    lemma_without_is_filter(state.request.open_multi_addresses, far_address(endpoint).bytes);
}

proof fn lemma_without_is_filter(list: Seq<Seq<u8>>, gone: Seq<u8>)
    ensures
        crate::bytes::without(list, gone) == list.filter(|address: Seq<u8>| address != gone),
    decreases list.len(),
{
    reveal(Seq::filter);
    if list.len() > 0 {
        lemma_without_is_filter(list.drop_last(), gone);
    }
}

/// An event that is none of the above changes nothing and ends nothing.
pub proof fn law_other_event(state: HolePunchView, now: u64)
    ensures
        state.after_event(SwarmEventView::Other, now).0 == state,
        state.after_event(SwarmEventView::Other, now).1 is None,
{
}

/// A hole punch starts with what it is given, and with nothing else.
pub proof fn law_start_is_empty(
    client_id: Seq<u8>,
    listen_addresses: Seq<Seq<u8>>,
    remote_id: Seq<u8>,
    remote_addresses: Seq<Seq<u8>>,
    api_key: Seq<char>,
    now: u64,
)
    ensures
        ({
            let state = started(
                client_id,
                listen_addresses,
                remote_id,
                remote_addresses,
                api_key,
                now,
            );
            &&& state.remote_id == remote_id
            &&& state.active is None
            &&& state.request.client_id == client_id
            &&& state.request.remote_id == remote_id
            &&& state.request.remote_multi_addresses == remote_addresses
            &&& state.request.listen_multi_addresses == listen_addresses
            &&& state.request.api_key == api_key
            &&& state.request.connect_started_at == now
            &&& state.request.connect_ended_at == 0
            &&& state.request.ended_at == 0
            &&& state.request.open_multi_addresses.len() == 0
            &&& state.request.hole_punch_attempts.len() == 0
            &&& !state.request.has_direct_conns
            &&& state.request.error is None
            &&& state.request.outcome == HolePunchOutcome::Unknown
        }),
{
}

/// A report that is closed has the given outcome, error and end, and is otherwise as it was.
pub proof fn law_closed_report(
    state: HolePunchView,
    outcome: HolePunchOutcome,
    error: Option<Seq<char>>,
    now: u64,
)
    ensures
        ({
            let report = state.finished(outcome, error, now);
            &&& report.outcome == outcome
            &&& report.error == error
            &&& report.ended_at == now
            &&& state.request == (TrackHolePunchRequestView {
                outcome: state.request.outcome,
                error: state.request.error,
                ended_at: state.request.ended_at,
                ..report
            })
        }),
{
}

/// The report on a hole punch that is not attempted says so, ends the connecting and itself at the
/// given time, and is otherwise as it was.
pub proof fn law_report_without_attempt(state: HolePunchView, now: u64)
    ensures
        ({
            let report = state.cancelled(now);
            &&& report.outcome == HolePunchOutcome::Cancelled
            &&& report.error == Some("rust-lib2p doesn't support quic transport yet."@)
            &&& report.connect_ended_at == now
            &&& report.ended_at == now
            &&& state.request == (TrackHolePunchRequestView {
                outcome: state.request.outcome,
                error: state.request.error,
                connect_ended_at: state.request.connect_ended_at,
                ended_at: state.request.ended_at,
                ..report
            })
        }),
{
}

/// Driving a hole punch past an event goes on with what the event left, or closes the report on it
/// with the outcome and the error that the event brought, at the time of the end.
pub proof fn law_driven_past_an_event(
    state: HolePunchView,
    event: SwarmEventView,
    now: u64,
    ended_at: u64,
)
    ensures
        ({
            let (after, flow) = state.after_event(event, now);
            match state.driven(event, now, ended_at) {
                HolePunchStepView::Waiting(next) => flow is None && next == after,
                HolePunchStepView::Finished(report) => {
                    &&& flow == Some((report.outcome, report.error))
                    &&& report.ended_at == ended_at
                    &&& after.request == (TrackHolePunchRequestView {
                        outcome: after.request.outcome,
                        error: after.request.error,
                        ended_at: after.request.ended_at,
                        ..report
                    })
                },
            }
        }),
{
}

/// Whether the event ends the attempt that is under way: the end of an upgrade does, and a failed
/// dial of the remote peer while there is a connection to it.
pub open spec fn ends_attempt(event: SwarmEventView, remote_id: Seq<u8>) -> bool {
    ||| event == SwarmEventView::Dcutr(DcutrEvent::DirectConnectionUpgradeSucceeded)
    ||| event matches SwarmEventView::Dcutr(DcutrEvent::DirectConnectionUpgradeFailed { .. })
    ||| event == (SwarmEventView::OutgoingConnectionError {
        peer_id: Some(remote_id),
        is_connected: true,
    })
}

/// Every event can be reported at any time, but for two: this client never initiates an upgrade,
/// and an attempt does not end before it starts.
pub proof fn law_events_are_admitted(state: HolePunchView, event: SwarmEventView, now: u64)
    ensures
        state.admits(event, now) <==> event != SwarmEventView::Dcutr(
            DcutrEvent::InitiatedDirectConnectionUpgrade,
        ) && (ends_attempt(event, state.remote_id) && state.active is Some
            ==> state.active->0.started_at <= now),
        state.bounds_time(event) <==> ends_attempt(event, state.remote_id) && state.active is Some
            && state.active->0.started_at > 0,
{
}

/// The events that call for a time stamp are those that start an attempt, those that end the one
/// that is under way, and those that end the connecting.
pub proof fn law_events_that_are_stamped(state: HolePunchView, event: SwarmEventView)
    requires
        event != SwarmEventView::Dcutr(DcutrEvent::InitiatedDirectConnectionUpgrade),
    ensures
        state.stamps(event) <==> {
            ||| event == SwarmEventView::Dcutr(DcutrEvent::RemoteInitiatedDirectConnectionUpgrade)
            ||| ends_attempt(event, state.remote_id) && state.active is Some
            ||| event == (SwarmEventView::OutgoingConnectionError {
                peer_id: Some(state.remote_id),
                is_connected: false,
            })
            ||| (event matches SwarmEventView::ConnectionEstablished {
                peer_id,
                num_established,
                ..
            } && peer_id == state.remote_id && num_established == 1)
        },
{
}

/// An answer to go on is none to end, and an answer to end carries its outcome and its error.
pub proof fn law_answers(outcome: HolePunchOutcome, error: Option<String>)
    ensures
        flow_of(ControlFlow::Continue(())) is None,
        flow_of(ControlFlow::Break((outcome, error))) == Some((outcome, error.deep_view())),
{
}

/// An attempt that ends is reported with its own start, the given end, outcome and error, and the
/// time between start and end.
pub proof fn law_resolved_attempt(
    attempt: HolePunchAttemptState,
    outcome: HolePunchAttemptOutcome,
    error: Option<Seq<char>>,
    ended_at: u64,
)
    requires
        attempt.started_at <= ended_at,
    ensures
        ({
            let resolved = attempt.resolved(outcome, error, ended_at);
            &&& resolved.opened_at == attempt.opened_at
            &&& resolved.started_at == Some(attempt.started_at)
            &&& resolved.ended_at == ended_at
            &&& resolved.elapsed_time + attempt.started_at == ended_at
            &&& resolved.outcome == outcome
            &&& resolved.error == error
            &&& resolved.start_rtt is None
            &&& resolved.direct_dial_error is None
        }),
{
}

/// What is done about a part of an event that concerns the remote peer is what is done about the
/// event.
pub proof fn law_handlers_agree(
    state: HolePunchView,
    event: DcutrEvent,
    endpoint: ConnectedPointView,
    num_established: u32,
    is_connected: bool,
    now: u64,
)
    ensures
        ({
            let peer_id = state.remote_id;
            let opened = SwarmEventView::ConnectionEstablished {
                peer_id,
                endpoint,
                num_established,
            };
            let closed = SwarmEventView::ConnectionClosed { peer_id, endpoint, num_established };
            let failed = SwarmEventView::OutgoingConnectionError {
                peer_id: Some(peer_id),
                is_connected,
            };
            &&& state.after_dcutr_event(event, now) == state.after_event(
                SwarmEventView::Dcutr(event),
                now,
            )
            &&& state.after_established_connection(endpoint, num_established, now)
                == state.after_event(opened, now)
            &&& state.after_closed_connection(endpoint, num_established) == state.after_event(
                closed,
                now,
            )
            &&& state.after_connection_error(is_connected, now) == state.after_event(failed, now)
        }),
{
}

} // verus!
