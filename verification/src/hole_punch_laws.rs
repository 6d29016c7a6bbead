//! What holds of every hole punch.
use crate::bytes::without;
use crate::event::{ConnectedPointView, DcutrEvent, SwarmEventView};
use crate::hole_punch::{admissible, started, Flow, HolePunchStepView, HolePunchView};
use crate::message::{
    HolePunchAttemptOutcome, HolePunchAttemptView, HolePunchOutcome, TrackHolePunchRequestView,
};
use vstd::prelude::*;

verus! {

/// Whether two reports are on the same hole punch: they agree on who took part, under which
/// addresses, and since when.
pub open spec fn same_subject(
    one: TrackHolePunchRequestView,
    other: TrackHolePunchRequestView,
) -> bool {
    &&& one.client_id == other.client_id
    &&& one.remote_id == other.remote_id
    &&& one.remote_multi_addresses == other.remote_multi_addresses
    &&& one.listen_multi_addresses == other.listen_multi_addresses
    &&& one.api_key == other.api_key
    &&& one.connect_started_at == other.connect_started_at
}

/// Whether the report on an attempt is complete: it has a start that is not after the end, the time
/// between the two, and an error unless the attempt succeeded.
pub open spec fn complete_attempt(attempt: HolePunchAttemptView) -> bool {
    &&& attempt.started_at is Some
    &&& attempt.started_at->0 <= attempt.ended_at
    &&& attempt.elapsed_time == attempt.ended_at - attempt.started_at->0
    &&& attempt.start_rtt is None
    &&& attempt.direct_dial_error is None
    &&& attempt.error is None <==> attempt.outcome == HolePunchAttemptOutcome::Success
}

/// Whether a hole punch that is under way is in order: its report is open, its attempts are
/// complete and none of them succeeded, and it is about the remote peer that it names.
pub open spec fn in_order(state: HolePunchView) -> bool {
    &&& state.remote_id == state.request.remote_id
    &&& state.request.outcome == HolePunchOutcome::Unknown
    &&& state.request.error is None
    &&& state.request.ended_at == 0
    &&& forall|i: int|
        0 <= i < state.request.hole_punch_attempts.len() ==> complete_attempt(
            #[trigger] state.request.hole_punch_attempts[i],
        ) && state.request.hole_punch_attempts[i].outcome != HolePunchAttemptOutcome::Success
}

/// A hole punch that goes on as it was.
pub open spec fn goes_on(state: HolePunchView) -> (HolePunchView, Flow) {
    (state, None)
}

/// An event and the time at which it is dealt with.
pub type TimedEvent = (SwarmEventView, u64);

/// Where a hole punch stands after the given events. What comes after its end is not dealt with.
pub open spec fn run(state: HolePunchView, events: Seq<TimedEvent>) -> (HolePunchView, Flow)
    decreases events.len(),
{
    if events.len() == 0 {
        (state, None)
    } else {
        let (before, flow) = run(state, events.drop_last());
        if flow is Some {
            (before, flow)
        } else {
            before.after_event(events.last().0, events.last().1)
        }
    }
}

/// Whether each event can be reported when it is.
pub open spec fn run_admitted(state: HolePunchView, events: Seq<TimedEvent>) -> bool
    decreases events.len(),
{
    events.len() > 0 ==> {
        &&& run_admitted(state, events.drop_last())
        &&& run(state, events.drop_last()).1 is None ==> run(
            state,
            events.drop_last(),
        ).0.admits(events.last().0, events.last().1)
    }
}

/// Driving a hole punch event by event follows its run: it waits for the next event as long as the
/// run goes on, and hands out the report as soon as the run ends.
pub proof fn law_driving_follows_the_run(
    state: HolePunchView,
    events: Seq<TimedEvent>,
    ended_at: u64,
)
    requires
        events.len() > 0,
        run(state, events.drop_last()).1 is None,
    ensures
        ({
            let (before, _) = run(state, events.drop_last());
            let (event, now) = events.last();
            before.driven(event, now, ended_at) == match run(state, events) {
                (after, None) => HolePunchStepView::Waiting(after),
                (after, Some((outcome, error))) => HolePunchStepView::Finished(
                    after.finished(outcome, error, ended_at),
                ),
            }
        }),
{
}

/// Whether the event at `k` is dealt with: the hole punch has not ended before.
pub open spec fn deals_with(state: HolePunchView, events: Seq<TimedEvent>, k: int) -> bool {
    run(state, events.take(k)).1 is None
}

/// Whether the event at `k` is dealt with and ends the hole punch.
pub open spec fn ends_at(state: HolePunchView, events: Seq<TimedEvent>, k: int) -> bool {
    &&& deals_with(state, events, k)
    &&& run(state, events.take(k)).0.after_event(events[k].0, events[k].1).1 is Some
}

/// A hole punch ends at the first event that ends it, and nowhere else. Without such an event it
/// goes on; from that event on nothing changes any more, and up to it every event is dealt with.
pub proof fn law_run_stops_at_the_first_end(state: HolePunchView, events: Seq<TimedEvent>)
    ensures
        run(state, events).1 is Some <==> exists|k: int|
            0 <= k < events.len() && #[trigger] ends_at(state, events, k),
        forall|k: int|
            0 <= k < events.len() && #[trigger] ends_at(state, events, k) ==> run(state, events)
                == run(state, events.take(k)).0.after_event(events[k].0, events[k].1),
        forall|j: int, k: int|
            0 <= j < k < events.len() && #[trigger] ends_at(state, events, k)
                ==> #[trigger] deals_with(state, events, j) && !ends_at(state, events, j),
    decreases events.len(),
{
    if events.len() > 0 {
        let rest = events.drop_last();
        let end = rest.len() as int;
        law_run_stops_at_the_first_end(state, rest);
        assert(events.take(end) =~= rest);
        assert(events[end] == events.last());
        assert forall|k: int| 0 <= k < end implies #[trigger] deals_with(state, events, k)
            == deals_with(state, rest, k) && ends_at(state, events, k) == ends_at(
            state,
            rest,
            k,
        ) by {
            assert(events.take(k) =~= rest.take(k));
        }
        if run(state, rest).1 is Some {
            let k = choose|k: int| 0 <= k < end && #[trigger] ends_at(state, rest, k);
            assert(deals_with(state, events, k));
            assert(ends_at(state, events, k));
        } else {
            assert forall|j: int| 0 <= j < end implies #[trigger] deals_with(state, events, j)
                && !ends_at(state, events, j) by {
                lemma_prefix_goes_on(state, rest, j);
                assert(deals_with(state, rest, j));
            }
            assert(ends_at(state, events, end) == (run(state, events).1 is Some));
        }
        assert forall|k: int| 0 <= k < events.len() && #[trigger] ends_at(
            state,
            events,
            k,
        ) implies run(state, events) == run(state, events.take(k)).0.after_event(
            events[k].0,
            events[k].1,
        ) by {
            if k < end {
                assert(deals_with(state, events, k));
                assert(events.take(k) =~= rest.take(k));
            }
        }
        assert forall|j: int, k: int|
            0 <= j < k < events.len() && #[trigger] ends_at(
                state,
                events,
                k,
            ) implies #[trigger] deals_with(state, events, j) && !ends_at(state, events, j) by {
            if k < end {
                assert(deals_with(state, events, k));
                assert(ends_at(state, rest, k));
                assert(deals_with(state, rest, j));
            }
        }
    }
}

/// A hole punch that goes on has gone on all the time.
proof fn lemma_prefix_goes_on(state: HolePunchView, events: Seq<TimedEvent>, k: int)
    requires
        0 <= k <= events.len(),
        run(state, events).1 is None,
    ensures
        run(state, events.take(k)).1 is None,
    decreases events.len(),
{
    if k == events.len() {
        assert(events.take(k) =~= events);
    } else {
        lemma_prefix_goes_on(state, events.drop_last(), k);
        assert(events.take(k) =~= events.drop_last().take(k));
    }
}

/// Whether the event has anything to do with a hole punch to the given peer.
pub open spec fn concerns(event: SwarmEventView, remote_id: Seq<u8>) -> bool {
    match event {
        SwarmEventView::Dcutr(_) => true,
        SwarmEventView::ConnectionEstablished { peer_id, .. } => peer_id == remote_id,
        SwarmEventView::OutgoingConnectionError { peer_id, .. } => peer_id == Some(remote_id),
        SwarmEventView::ConnectionClosed { peer_id, .. } => peer_id == remote_id,
        SwarmEventView::Other => false,
    }
}

/// The events that have anything to do with a hole punch to the given peer, in their order.
pub open spec fn concerning(events: Seq<TimedEvent>, remote_id: Seq<u8>) -> Seq<TimedEvent> {
    events.filter(|event: TimedEvent| concerns(event.0, remote_id))
}

/// Events that have nothing to do with a hole punch change nothing, wherever they occur: it comes
/// to the same if they are left out.
pub proof fn law_unrelated_events_change_nothing(state: HolePunchView, events: Seq<TimedEvent>)
    ensures
        run(state, events) == run(state, concerning(events, state.remote_id)),
        run_admitted(state, events) == run_admitted(state, concerning(events, state.remote_id)),
    decreases events.len(),
{
    reveal(Seq::filter);
    if events.len() > 0 {
        let rest = events.drop_last();
        let kept = concerning(rest, state.remote_id);
        law_unrelated_events_change_nothing(state, rest);
        lemma_remote_stays(state, rest);
        if concerns(events.last().0, state.remote_id) {
            assert(concerning(events, state.remote_id) == kept.push(events.last()));
            assert(kept.push(events.last()).drop_last() =~= kept);
        } else {
            assert(concerning(events, state.remote_id) == kept);
            assert(run(state, rest).0.after_event(events.last().0, events.last().1) == goes_on(
                run(state, rest).0,
            ));
        }
    }
}

/// A hole punch stays with its remote peer.
proof fn lemma_remote_stays(state: HolePunchView, events: Seq<TimedEvent>)
    ensures
        run(state, events).0.remote_id == state.remote_id,
    decreases events.len(),
{
    if events.len() > 0 {
        lemma_remote_stays(state, events.drop_last());
    }
}

/// A hole punch starts in order, and with its times in order.
pub proof fn law_start_is_in_order(
    client_id: Seq<u8>,
    listen_addresses: Seq<Seq<u8>>,
    remote_id: Seq<u8>,
    remote_addresses: Seq<Seq<u8>>,
    api_key: Seq<char>,
    now: u64,
)
    ensures
        ({
            let state = started(
                client_id,
                listen_addresses,
                remote_id,
                remote_addresses,
                api_key,
                now,
            );
            &&& in_order(state)
            &&& ordered_times(state, now)
            &&& apart(state)
            &&& connects_in_time(state)
        }),
{
}

/// An event leaves the subject of the hole punch alone, adds at most one attempt behind those that
/// are on the report, and keeps the hole punch in order unless it ends it.
pub proof fn law_event_keeps_order(state: HolePunchView, event: SwarmEventView, now: u64)
    requires
        in_order(state),
        state.admits(event, now),
    ensures
        ({
            let (after, flow) = state.after_event(event, now);
            let before_attempts = state.request.hole_punch_attempts;
            let attempts = after.request.hole_punch_attempts;
            &&& same_subject(state.request, after.request)
            &&& after.remote_id == state.remote_id
            &&& attempts == before_attempts || {
                &&& attempts.len() == before_attempts.len() + 1
                &&& attempts.drop_last() == before_attempts
                &&& complete_attempt(attempts.last())
                &&& attempts.last().outcome == HolePunchAttemptOutcome::Success ==> flow == Some(
                    (HolePunchOutcome::Success, None::<Seq<char>>),
                )
            }
            &&& flow is None ==> in_order(after)
        }),
{
    let (after, flow) = state.after_event(event, now);
    let before_attempts = state.request.hole_punch_attempts;
    let attempts = after.request.hole_punch_attempts;
    if attempts.len() != before_attempts.len() {
        assert(attempts.drop_last() =~= before_attempts);
    }
}

/// An event says nothing about a remote peer that it does not concern: a connection to another peer
/// changes nothing and ends nothing.
pub proof fn law_other_peers_are_ignored(
    state: HolePunchView,
    peer_id: Seq<u8>,
    endpoint: ConnectedPointView,
    num_established: u32,
    is_connected: bool,
    now: u64,
)
    requires
        peer_id != state.remote_id,
    ensures
        ({
            let established = SwarmEventView::ConnectionEstablished {
                peer_id,
                endpoint,
                num_established,
            };
            let closed = SwarmEventView::ConnectionClosed { peer_id, endpoint, num_established };
            let failed = SwarmEventView::OutgoingConnectionError {
                peer_id: Some(peer_id),
                is_connected,
            };
            let unknown = SwarmEventView::OutgoingConnectionError { peer_id: None, is_connected };
            &&& state.after_event(established, now) == goes_on(state)
            &&& state.after_event(closed, now) == goes_on(state)
            &&& state.after_event(failed, now) == goes_on(state)
            &&& state.after_event(unknown, now) == goes_on(state)
        }),
{
}

/// Whether a hole punch goes on does not depend on the time.
pub proof fn law_flow_is_timeless(
    state: HolePunchView,
    event: SwarmEventView,
    now: u64,
    later: u64,
)
    ensures
        state.after_event(event, now).1 == state.after_event(event, later).1,
{
}

/// An event that calls for no time stamp is dealt with in the same way at any time.
pub proof fn law_unstamped_event_is_timeless(
    state: HolePunchView,
    event: SwarmEventView,
    now: u64,
    later: u64,
)
    requires
        !state.stamps(event),
    ensures
        state.after_event(event, now) == state.after_event(event, later),
{
}

/// While there is a connection to the remote peer, an address that cannot be dialed ends the
/// attempt that is under way, and never the hole punch.
pub proof fn law_failed_attempt_is_not_the_end(state: HolePunchView, now: u64)
    ensures
        ({
            let event = SwarmEventView::OutgoingConnectionError {
                peer_id: Some(state.remote_id),
                is_connected: true,
            };
            let (after, flow) = state.after_event(event, now);
            &&& flow is None
            &&& after.active is None
            &&& after.request.hole_punch_attempts.len() == state.request.hole_punch_attempts.len()
                + if state.active is Some {
                1int
            } else {
                0int
            }
        }),
{
}

/// The end of a direct connection upgrade, good or bad, ends the hole punch and leaves no attempt
/// under way.
pub proof fn law_upgrade_ends_the_hole_punch(state: HolePunchView, event: DcutrEvent, now: u64)
    requires
        event == DcutrEvent::DirectConnectionUpgradeSucceeded
            || event is DirectConnectionUpgradeFailed,
    ensures
        ({
            let (after, flow) = state.after_event(SwarmEventView::Dcutr(event), now);
            &&& after.active is None
            &&& match flow {
                Some((outcome, _)) => outcome == HolePunchOutcome::Success
                    <==> event == DcutrEvent::DirectConnectionUpgradeSucceeded,
                None => false,
            }
        }),
{
}

/// The end of a connection takes its remote address off the open ones, as often as it is there, and
/// keeps the others in their order. So it undoes what the start of the connection did to them,
/// unless another connection has the same remote address.
pub proof fn law_closing_undoes_opening(
    state: HolePunchView,
    endpoint: ConnectedPointView,
    num_established: u32,
    left: u32,
    now: u64,
)
    ensures
        ({
            let open = state.request.open_multi_addresses;
            let address = endpoint.remote_address();
            let opened = state.after_established_connection(endpoint, num_established, now).0;
            let closed = opened.after_closed_connection(endpoint, left).0;
            &&& opened.request.open_multi_addresses.contains(address)
            &&& !closed.request.open_multi_addresses.contains(address)
            &&& closed.request.open_multi_addresses == without(open, address)
            &&& !open.contains(address) ==> closed.request.open_multi_addresses == open
        }),
{
    let open = state.request.open_multi_addresses;
    let address = endpoint.remote_address();
    let opened = open.push(address);
    assert(opened.last() == address);
    lemma_without_push(open, address);
    lemma_without_contains_not(opened, address);
    if !open.contains(address) {
        lemma_without_absent(open, address);
    }
}

proof fn lemma_without_push(list: Seq<Seq<u8>>, gone: Seq<u8>)
    ensures
        without(list.push(gone), gone) == without(list, gone),
{
    reveal(Seq::filter);
    assert(list.push(gone).drop_last() =~= list);
}

proof fn lemma_without_contains_not(list: Seq<Seq<u8>>, gone: Seq<u8>)
    ensures
        !without(list, gone).contains(gone),
    decreases list.len(),
{
    reveal(Seq::filter);
    if list.len() > 0 {
        let rest = without(list.drop_last(), gone);
        lemma_without_contains_not(list.drop_last(), gone);
        assert forall|i: int| 0 <= i < without(list, gone).len() implies without(list, gone)[i]
            != gone by {
            if i < rest.len() {
                assert(rest.contains(rest[i]));
            }
        }
    }
}

proof fn lemma_without_absent(list: Seq<Seq<u8>>, gone: Seq<u8>)
    requires
        !list.contains(gone),
    ensures
        without(list, gone) == list,
    decreases list.len(),
{
    reveal(Seq::filter);
    if list.len() > 0 {
        assert(list.contains(list.last()));
        assert forall|bytes: Seq<u8>| list.drop_last().contains(bytes) implies list.contains(
            bytes,
        ) by {
            let i = choose|i: int|
                0 <= i < list.drop_last().len() && list.drop_last()[i] == bytes;
            assert(list[i] == bytes);
        }
        lemma_without_absent(list.drop_last(), gone);
        assert(list =~= list.drop_last().push(list.last()));
    }
}

/// What can be said of the end of a hole punch, as an event brings it about.
proof fn lemma_end(state: HolePunchView, event: SwarmEventView, now: u64)
    ensures
        match state.after_event(event, now) {
            (after, Some((outcome, error))) => {
                &&& outcome == HolePunchOutcome::NoConnection || outcome
                    == HolePunchOutcome::ConnectionReversed || outcome == HolePunchOutcome::Failed
                    || outcome == HolePunchOutcome::Success
                &&& error is None <==> outcome == HolePunchOutcome::ConnectionReversed || outcome
                    == HolePunchOutcome::Success
                &&& outcome == HolePunchOutcome::ConnectionReversed
                    ==> after.request.has_direct_conns
            },
            (after, None) => true,
        },
{
}

/// Whatever happens to a hole punch, its subject stays the same, the attempts that are on its
/// report stay there in their order, and all attempts that are added are complete. An attempt
/// succeeds only as the last one, and only if the hole punch succeeds. As long as the hole punch
/// goes on, it is in order.
pub proof fn law_run_keeps_order(state: HolePunchView, events: Seq<TimedEvent>)
    requires
        in_order(state),
        run_admitted(state, events),
    ensures
        ({
            let (after, flow) = run(state, events);
            let before_attempts = state.request.hole_punch_attempts;
            let attempts = after.request.hole_punch_attempts;
            &&& same_subject(state.request, after.request)
            &&& after.remote_id == state.remote_id
            &&& before_attempts.len() <= attempts.len()
            &&& attempts.take(before_attempts.len() as int) == before_attempts
            &&& forall|i: int|
                0 <= i < attempts.len() ==> complete_attempt(#[trigger] attempts[i]) && (
                attempts[i].outcome == HolePunchAttemptOutcome::Success ==> {
                    &&& i == attempts.len() - 1
                    &&& flow == Some((HolePunchOutcome::Success, None::<Seq<char>>))
                })
            &&& flow is None ==> in_order(after)
        }),
    decreases events.len(),
{
    let before_attempts = state.request.hole_punch_attempts;
    if events.len() == 0 {
        assert(before_attempts.take(before_attempts.len() as int) =~= before_attempts);
    } else {
        law_run_keeps_order(state, events.drop_last());
        let (middle, flow) = run(state, events.drop_last());
        if flow is None {
            let (event, now) = events.last();
            law_event_keeps_order(middle, event, now);
            let middle_attempts = middle.request.hole_punch_attempts;
            let attempts = middle.after_event(event, now).0.request.hole_punch_attempts;
            if attempts != middle_attempts {
                assert forall|i: int| 0 <= i < middle_attempts.len() implies attempts[i]
                    == middle_attempts[i] by {
                    assert(attempts.drop_last()[i] == attempts[i]);
                }
            }
            assert(attempts.take(before_attempts.len() as int) =~= middle_attempts.take(
                before_attempts.len() as int,
            ));
        }
    }
}

/// The report on a hole punch that was attempted is complete. It is on the same subject as at the
/// start, it has one of four outcomes, an error with those two that are bad, and complete attempts,
/// of which at most the last one succeeded, and only if the hole punch did. Where the connection
/// was reversed, there was a direct connection.
pub proof fn law_report_is_complete(
    state: HolePunchView,
    events: Seq<TimedEvent>,
    ended_at: u64,
)
    requires
        in_order(state),
        run_admitted(state, events),
        run(state, events).1 is Some,
    ensures
        match run(state, events) {
            (after, Some((outcome, error))) => {
                let report = after.finished(outcome, error, ended_at);
                &&& same_subject(state.request, report)
                &&& report.ended_at == ended_at
                &&& report.outcome == HolePunchOutcome::NoConnection || report.outcome
                    == HolePunchOutcome::ConnectionReversed || report.outcome
                    == HolePunchOutcome::Failed || report.outcome == HolePunchOutcome::Success
                &&& report.error is None <==> report.outcome == HolePunchOutcome::ConnectionReversed
                    || report.outcome == HolePunchOutcome::Success
                &&& report.outcome == HolePunchOutcome::ConnectionReversed
                    ==> report.has_direct_conns
                &&& forall|i: int|
                    0 <= i < report.hole_punch_attempts.len() ==> complete_attempt(
                        #[trigger] report.hole_punch_attempts[i],
                    ) && (report.hole_punch_attempts[i].outcome
                        == HolePunchAttemptOutcome::Success ==> {
                        &&& i == report.hole_punch_attempts.len() - 1
                        &&& report.outcome == HolePunchOutcome::Success
                    })
            },
            (_, None) => false,
        },
    decreases events.len(),
{
    law_run_keeps_order(state, events);
    let (middle, flow) = run(state, events.drop_last());
    if flow is Some {
        law_report_is_complete(state, events.drop_last(), ended_at);
    } else {
        lemma_end(middle, events.last().0, events.last().1);
    }
}

/// The report on a hole punch that was not attempted is on the same subject, has no attempts, says
/// so, and was closed when the connecting ended.
pub proof fn law_cancelled_report(
    client_id: Seq<u8>,
    listen_addresses: Seq<Seq<u8>>,
    remote_id: Seq<u8>,
    remote_addresses: Seq<Seq<u8>>,
    api_key: Seq<char>,
    now: u64,
    cancelled_at: u64,
)
    ensures
        ({
            let state = started(
                client_id,
                listen_addresses,
                remote_id,
                remote_addresses,
                api_key,
                now,
            );
            let report = state.cancelled(cancelled_at);
            &&& same_subject(state.request, report)
            &&& report.outcome == HolePunchOutcome::Cancelled
            &&& report.error is Some
            &&& report.connect_ended_at == cancelled_at
            &&& report.ended_at == cancelled_at
            &&& report.hole_punch_attempts.len() == 0
            &&& report.open_multi_addresses.len() == 0
            &&& !report.has_direct_conns
        }),
{
}

/// Whether the event is a new connection to the given peer that does not go through a relay.
pub open spec fn connects_directly(event: SwarmEventView, remote_id: Seq<u8>) -> bool {
    match event {
        SwarmEventView::ConnectionEstablished { peer_id, endpoint, .. } => peer_id == remote_id
            && !endpoint.is_relayed(),
        _ => false,
    }
}

/// A report tells of direct connections if and only if there was one to the remote peer: at the
/// start already, or among the events that were dealt with.
pub proof fn law_direct_connections(state: HolePunchView, events: Seq<TimedEvent>)
    ensures
        run(state, events).0.remote_id == state.remote_id,
        run(state, events).0.request.has_direct_conns <==> state.request.has_direct_conns || exists|
            i: int,
        |
            0 <= i < events.len() && #[trigger] deals_with(state, events, i) && connects_directly(
                events[i].0,
                state.remote_id,
            ),
    decreases events.len(),
{
    if events.len() > 0 {
        let rest = events.drop_last();
        law_direct_connections(state, rest);
        assert(events.take(rest.len() as int) =~= rest);
        assert forall|i: int| 0 <= i < rest.len() implies #[trigger] deals_with(state, events, i)
            == deals_with(state, rest, i) by {
            assert(events.take(i) =~= rest.take(i));
        }
        if exists|i: int|
            0 <= i < rest.len() && #[trigger] deals_with(state, rest, i) && connects_directly(
                rest[i].0,
                state.remote_id,
            ) {
            let i = choose|i: int|
                0 <= i < rest.len() && #[trigger] deals_with(state, rest, i) && connects_directly(
                    rest[i].0,
                    state.remote_id,
                );
            assert(deals_with(state, events, i) && events[i] == rest[i]);
        }
        assert(deals_with(state, events, rest.len() as int) == (run(state, rest).1 is None));
    }
}

/// How many attempts there are, on the report and under way.
pub open spec fn attempts(state: HolePunchView) -> int {
    state.request.hole_punch_attempts.len() + if state.active is Some {
        1int
    } else {
        0int
    }
}

/// How many attempts the remote peer initiated.
pub open spec fn initiated(events: Seq<TimedEvent>) -> int
    decreases events.len(),
{
    if events.len() == 0 {
        0
    } else {
        initiated(events.drop_last()) + if events.last().0 == SwarmEventView::Dcutr(
            DcutrEvent::RemoteInitiatedDirectConnectionUpgrade,
        ) {
            1int
        } else {
            0int
        }
    }
}

/// There is no attempt but for those that the remote peer initiated.
pub proof fn law_attempts_are_initiated(state: HolePunchView, events: Seq<TimedEvent>)
    ensures
        attempts(run(state, events).0) <= attempts(state) + initiated(events),
    decreases events.len(),
{
    if events.len() > 0 {
        law_attempts_are_initiated(state, events.drop_last());
    }
}

/// Whether the events are dealt with one after the other, the first one not before `from`.
pub open spec fn in_time(from: u64, events: Seq<TimedEvent>) -> bool {
    &&& forall|i: int| 0 <= i < events.len() ==> from <= (#[trigger] events[i]).1
    &&& forall|i: int, j: int|
        0 <= i <= j < events.len() ==> (#[trigger] events[i]).1 <= (#[trigger] events[j]).1
}

/// The time of the last event, or `from` if there is none.
pub open spec fn time_after(from: u64, events: Seq<TimedEvent>) -> u64 {
    if events.len() == 0 {
        from
    } else {
        events.last().1
    }
}

/// Whether an attempt was opened before it started, and started before it ended.
pub open spec fn ordered_attempt(attempt: HolePunchAttemptView) -> bool {
    attempt.started_at matches Some(started_at) && attempt.opened_at <= started_at
        <= attempt.ended_at
}

/// Whether all times of a hole punch are in their order, none of them after `now`.
pub open spec fn ordered_times(state: HolePunchView, now: u64) -> bool {
    &&& state.request.connect_ended_at <= now
    &&& state.active matches Some(attempt) ==> attempt.opened_at <= attempt.started_at <= now
    &&& forall|i: int|
        0 <= i < state.request.hole_punch_attempts.len() ==> ordered_attempt(
            #[trigger] state.request.hole_punch_attempts[i],
        ) && state.request.hole_punch_attempts[i].ended_at <= now
}

/// With a clock that does not go backwards, no event comes before the start of the attempt that it
/// ends, and all times of the hole punch are in their order.
pub proof fn law_times_are_ordered(state: HolePunchView, from: u64, events: Seq<TimedEvent>)
    requires
        ordered_times(state, from),
        in_time(from, events),
        forall|i: int|
            0 <= i < events.len() ==> admissible((#[trigger] events[i]).0),
    ensures
        run_admitted(state, events),
        ordered_times(run(state, events).0, time_after(from, events)),
    decreases events.len(),
{
    if events.len() > 0 {
        let rest = events.drop_last();
        lemma_in_time_before(from, events);
        law_times_are_ordered(state, from, rest);
    }
}

/// What is known of the times of events is known of all but the last, which is not earlier.
proof fn lemma_in_time_before(from: u64, events: Seq<TimedEvent>)
    requires
        in_time(from, events),
        forall|i: int| 0 <= i < events.len() ==> admissible((#[trigger] events[i]).0),
        events.len() > 0,
    ensures
        in_time(from, events.drop_last()),
        forall|i: int|
            0 <= i < events.len() - 1 ==> admissible((#[trigger] events.drop_last()[i]).0),
        time_after(from, events.drop_last()) <= events.last().1,
        admissible(events.last().0),
{
    let rest = events.drop_last();
    assert forall|i: int| 0 <= i < rest.len() implies from <= (#[trigger] rest[i]).1 && admissible(
        rest[i].0,
    ) by {
        assert(rest[i] == events[i]);
    }
    assert forall|i: int, j: int| 0 <= i <= j < rest.len() implies (#[trigger] rest[i]).1 <= (
    #[trigger] rest[j]).1 by {
        assert(rest[i] == events[i] && rest[j] == events[j]);
    }
    assert(events.last() == events[events.len() - 1]);
    if rest.len() > 0 {
        assert(rest.last() == events[rest.len() - 1]);
    }
}

/// Whether no attempt starts before those that are on the report ahead of it have ended.
pub open spec fn apart(state: HolePunchView) -> bool {
    let attempts = state.request.hole_punch_attempts;
    &&& forall|i: int, j: int|
        0 <= i < j < attempts.len() ==> {
            &&& (#[trigger] attempts[j]).started_at is Some
            &&& (#[trigger] attempts[i]).ended_at <= attempts[j].started_at->0
        }
    &&& state.active matches Some(attempt) ==> forall|i: int|
        0 <= i < attempts.len() ==> (#[trigger] attempts[i]).ended_at <= attempt.started_at
}

/// With a clock that does not go backwards, attempts do not overlap.
pub proof fn law_attempts_do_not_overlap(state: HolePunchView, from: u64, events: Seq<TimedEvent>)
    requires
        apart(state),
        ordered_times(state, from),
        in_time(from, events),
        forall|i: int| 0 <= i < events.len() ==> admissible((#[trigger] events[i]).0),
    ensures
        apart(run(state, events).0),
    decreases events.len(),
{
    if events.len() > 0 {
        let rest = events.drop_last();
        lemma_in_time_before(from, events);
        law_attempts_do_not_overlap(state, from, rest);
        law_times_are_ordered(state, from, rest);
    }
}

/// Whether the connecting has not ended, or ended no earlier than it started. An end at 0 stands
/// for none.
pub open spec fn connects_in_time(state: HolePunchView) -> bool {
    state.request.connect_ended_at != 0 ==> state.request.connect_started_at
        <= state.request.connect_ended_at
}

/// Where no event comes before the start of the connecting, the connecting ends no earlier than it
/// started.
pub proof fn law_connecting_ends_after_its_start(
    state: HolePunchView,
    from: u64,
    events: Seq<TimedEvent>,
)
    requires
        connects_in_time(state),
        state.request.connect_started_at <= from,
        forall|i: int| 0 <= i < events.len() ==> from <= (#[trigger] events[i]).1,
    ensures
        connects_in_time(run(state, events).0),
        run(state, events).0.request.connect_started_at == state.request.connect_started_at,
    decreases events.len(),
{
    if events.len() > 0 {
        let rest = events.drop_last();
        assert forall|i: int| 0 <= i < rest.len() implies from <= (#[trigger] rest[i]).1 by {
            assert(rest[i] == events[i]);
        }
        law_connecting_ends_after_its_start(state, from, rest);
        assert(events.last() == events[events.len() - 1]);
    }
}

} // verus!
