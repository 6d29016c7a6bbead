//! What the callers of this library can rely on: how the results of calls relate to what was handed
//! in, and to the clock.
use crate::action::{Action, ActionView, Input, InputView};
use crate::clock::{clock_failed, clock_time, ClockError};
use crate::event::{ConnectedPoint, DcutrEvent, SwarmEvent, SwarmEventView};
use crate::event_laws::{
    ends_attempt, law_closed_report, law_connection_is_noted, law_driven_past_an_event,
    law_events_that_are_stamped, law_initiation_starts_an_attempt, law_relay_is_named_anywhere,
    law_report_without_attempt, law_reversed_connection, law_start_is_empty,
    law_success_is_recorded, law_unreachable_peer, names_relay, own_address,
};
use crate::hole_punch::{
    HolePunchAttemptState, HolePunchState, HolePunchStep, HolePunchStepView, HolePunchView,
};
use crate::message::{HolePunchAttemptOutcome, HolePunchOutcome, TrackHolePunchRequest};
use crate::session::{PhaseView, Session, SessionError};
use crate::session_laws::{is_quic, law_quic_is_not_dialed};
use crate::step_laws::{dials_or_cancels, law_event_is_followed, law_remote_is_taken};
use crate::view_laws::{
    holds, law_attempt_stands_for_its_fields, law_report_stands_for_its_fields,
};
use vstd::prelude::*;

verus! {

/// A hole punch that is started and then closed gives a report that holds what both calls were
/// given, and nothing else.
pub proof fn law_started_and_closed(
    client_id: Vec<u8>,
    listen_addresses: Vec<Vec<u8>>,
    remote_id: Vec<u8>,
    remote_addresses: Vec<Vec<u8>>,
    api_key: String,
    start: u64,
    state: HolePunchState,
    outcome: HolePunchOutcome,
    error: Option<String>,
    end: u64,
    report: TrackHolePunchRequest,
)
    requires
        call_ensures(
            HolePunchState::new_at,
            (client_id, listen_addresses, remote_id, remote_addresses, api_key, start),
            state,
        ),
        call_ensures(HolePunchState::finish_at, (state, outcome, error, end), report),
    ensures
        report.client_id@ == client_id@,
        report.remote_id@ == remote_id@,
        holds(report.remote_multi_addresses, crate::bytes::byte_strings(remote_addresses@)),
        holds(report.listen_multi_addresses, crate::bytes::byte_strings(listen_addresses@)),
        report.api_key@ == api_key@,
        report.connect_started_at == start,
        report.connect_ended_at == 0,
        report.ended_at == end,
        report.outcome == outcome,
        report.error.deep_view() == error.deep_view(),
        report.open_multi_addresses@.len() == 0,
        report.hole_punch_attempts@.len() == 0,
        !report.has_direct_conns,
{
    law_start_is_empty(
        client_id@,
        crate::bytes::byte_strings(listen_addresses@),
        remote_id@,
        crate::bytes::byte_strings(remote_addresses@),
        api_key@,
        start,
    );
    law_closed_report(state@, outcome, error.deep_view(), end);
    law_report_stands_for_its_fields(report);
}

/// A hole punch that is started and then cancelled gives a report that holds what both calls were
/// given, says that it was cancelled, and holds nothing else.
pub proof fn law_started_and_cancelled(
    client_id: Vec<u8>,
    listen_addresses: Vec<Vec<u8>>,
    remote_id: Vec<u8>,
    remote_addresses: Vec<Vec<u8>>,
    api_key: String,
    start: u64,
    state: HolePunchState,
    end: u64,
    report: TrackHolePunchRequest,
)
    requires
        call_ensures(
            HolePunchState::new_at,
            (client_id, listen_addresses, remote_id, remote_addresses, api_key, start),
            state,
        ),
        call_ensures(HolePunchState::cancel_at, (state, end), report),
    ensures
        report.client_id@ == client_id@,
        report.remote_id@ == remote_id@,
        holds(report.remote_multi_addresses, crate::bytes::byte_strings(remote_addresses@)),
        holds(report.listen_multi_addresses, crate::bytes::byte_strings(listen_addresses@)),
        report.api_key@ == api_key@,
        report.connect_started_at == start,
        report.connect_ended_at == end,
        report.ended_at == end,
        report.outcome == HolePunchOutcome::Cancelled,
        report.error is Some,
        report.error->0@ == "rust-lib2p doesn't support quic transport yet."@,
        report.open_multi_addresses@.len() == 0,
        report.hole_punch_attempts@.len() == 0,
        !report.has_direct_conns,
{
    law_start_is_empty(
        client_id@,
        crate::bytes::byte_strings(listen_addresses@),
        remote_id@,
        crate::bytes::byte_strings(remote_addresses@),
        api_key@,
        start,
    );
    law_report_without_attempt(state@, end);
    law_report_stands_for_its_fields(report);
}

/// Driving a hole punch past a successful upgrade gives a report of success, on which the attempt
/// that was under way comes last, as a success with its own times.
pub proof fn law_driven_to_success(
    state: HolePunchState,
    attempt: HolePunchAttemptState,
    now: u64,
    ended_at: u64,
    step: HolePunchStep,
)
    requires
        state@.active == Some(attempt),
        attempt.started_at <= now,
        call_ensures(
            HolePunchState::drive_hole_punch_at,
            (
                state,
                SwarmEvent::Dcutr(DcutrEvent::DirectConnectionUpgradeSucceeded),
                now,
                ended_at,
            ),
            step,
        ),
    ensures
        match step {
            HolePunchStep::Finished(report) => {
                let attempts = report.hole_punch_attempts@;
                &&& report.outcome == HolePunchOutcome::Success
                &&& report.error is None
                &&& report.ended_at == ended_at
                &&& attempts.len() == state@.request.hole_punch_attempts.len() + 1
                &&& attempts.last().outcome == HolePunchAttemptOutcome::Success
                &&& attempts.last().error is None
                &&& attempts.last().opened_at == attempt.opened_at
                &&& attempts.last().started_at == Some(attempt.started_at)
                &&& attempts.last().ended_at == now
                &&& attempts.last().elapsed_time == now - attempt.started_at
            },
            HolePunchStep::Waiting(_) => false,
        },
{
    let event = SwarmEventView::Dcutr(DcutrEvent::DirectConnectionUpgradeSucceeded);
    law_success_is_recorded(state@, attempt, now);
    law_driven_past_an_event(state@, event, now, ended_at);
    match step {
        HolePunchStep::Finished(report) => {
            law_report_stands_for_its_fields(report);
            law_attempt_stands_for_its_fields(report.hole_punch_attempts@.last());
        },
        HolePunchStep::Waiting(_) => {},
    }
}

/// Driving a hole punch without an attempt past a new connection to the remote peer ends it, as a
/// reversed connection, if and only if the connection is not relayed, whichever side dialed.
pub proof fn law_driven_to_reversal(
    state: HolePunchState,
    peer_id: Vec<u8>,
    endpoint: ConnectedPoint,
    num_established: u32,
    now: u64,
    ended_at: u64,
    step: HolePunchStep,
)
    requires
        state@.active is None,
        peer_id@ == state@.remote_id,
        call_ensures(
            HolePunchState::drive_hole_punch_at,
            (
                state,
                SwarmEvent::ConnectionEstablished { peer_id, endpoint, num_established },
                now,
                ended_at,
            ),
            step,
        ),
    ensures
        match step {
            HolePunchStep::Finished(report) => {
                &&& !names_relay(own_address(endpoint.deep_view()))
                &&& report.outcome == HolePunchOutcome::ConnectionReversed
                &&& report.error is None
                &&& report.ended_at == ended_at
                &&& report.has_direct_conns
            },
            HolePunchStep::Waiting(_) => names_relay(own_address(endpoint.deep_view())),
        },
{
    let event = SwarmEventView::ConnectionEstablished {
        peer_id: state@.remote_id,
        endpoint: endpoint.deep_view(),
        num_established,
    };
    law_reversed_connection(state@, endpoint.deep_view(), num_established, now);
    law_connection_is_noted(state@, endpoint.deep_view(), num_established, now);
    law_driven_past_an_event(state@, event, now, ended_at);
    match step {
        HolePunchStep::Finished(report) => {
            law_report_stands_for_its_fields(report);
        },
        HolePunchStep::Waiting(_) => {},
    }
}

/// Driving a hole punch past a failed dial of a remote peer that is not connected ends it for want
/// of a connection.
pub proof fn law_driven_to_no_connection(
    state: HolePunchState,
    peer_id: Vec<u8>,
    now: u64,
    ended_at: u64,
    step: HolePunchStep,
)
    requires
        peer_id@ == state@.remote_id,
        call_ensures(
            HolePunchState::drive_hole_punch_at,
            (
                state,
                SwarmEvent::OutgoingConnectionError {
                    peer_id: Some(peer_id),
                    is_connected: false,
                },
                now,
                ended_at,
            ),
            step,
        ),
    ensures
        match step {
            HolePunchStep::Finished(report) => {
                &&& report.outcome == HolePunchOutcome::NoConnection
                &&& report.error is Some
                &&& report.error->0@ == "Error connecting to remote peer via relay."@
                &&& report.connect_ended_at == now
                &&& report.ended_at == ended_at
            },
            HolePunchStep::Waiting(_) => false,
        },
{
    let event = SwarmEventView::OutgoingConnectionError {
        peer_id: Some(state@.remote_id),
        is_connected: false,
    };
    law_unreachable_peer(state@, now);
    law_driven_past_an_event(state@, event, now, ended_at);
    match step {
        HolePunchStep::Finished(report) => {
            law_report_stands_for_its_fields(report);
        },
        HolePunchStep::Waiting(_) => {},
    }
}

/// A connection tells that it is relayed if and only if the address that this client dialed, or was
/// dialed on, holds the relay protocol, in whatever place.
pub proof fn law_relay_is_told(point: ConnectedPoint, relayed: bool)
    requires
        call_ensures(ConnectedPoint::is_relayed, (&point,), relayed),
    ensures
        relayed <==> names_relay(own_address(point.deep_view())),
{
    law_relay_is_named_anywhere(point.deep_view());
}

/// What is on the report after a step, closed or not.
pub open spec fn report_of(step: HolePunchStepView) -> crate::message::TrackHolePunchRequestView {
    match step {
        HolePunchStepView::Waiting(state) => state.request,
        HolePunchStepView::Finished(request) => request,
    }
}

/// When an event ends the attempt that is under way, the attempt is on the report with its own
/// start and, as its end, the time that the clock showed when it was read for the event. The time
/// that it took lies between the two.
pub proof fn law_attempt_ends_by_the_clock(
    state: HolePunchState,
    attempt: HolePunchAttemptState,
    event: SwarmEvent,
    step: HolePunchStep,
)
    requires
        state@.active == Some(attempt),
        ends_attempt(event.deep_view(), state@.remote_id),
        call_ensures(
            HolePunchState::drive_hole_punch,
            (state, event),
            Ok::<HolePunchStep, ClockError>(step),
        ),
    ensures
        ({
            let attempts = report_of(step@).hole_punch_attempts;
            &&& attempts.len() == state@.request.hole_punch_attempts.len() + 1
            &&& attempts.last().started_at == Some(attempt.started_at)
            &&& clock_time(attempts.last().ended_at)
            &&& attempt.started_at <= attempts.last().ended_at
            &&& attempts.last().elapsed_time == attempts.last().ended_at - attempt.started_at
        }),
{
    let reported = event.deep_view();
    law_events_that_are_stamped(state@, reported);
}

/// A single attempt that is ended on its own ends at the time that the clock showed.
pub proof fn law_attempt_is_resolved_by_the_clock(
    attempt: HolePunchAttemptState,
    outcome: HolePunchAttemptOutcome,
    error: Option<String>,
    resolved: crate::message::HolePunchAttempt,
)
    requires
        call_ensures(
            HolePunchAttemptState::resolve,
            (attempt, outcome, error),
            Ok::<crate::message::HolePunchAttempt, ClockError>(resolved),
        ),
    ensures
        clock_time(resolved.ended_at),
        attempt.started_at <= resolved.ended_at,
        resolved.elapsed_time == resolved.ended_at - attempt.started_at,
        resolved.opened_at == attempt.opened_at,
        resolved.started_at == Some(attempt.started_at),
        resolved.outcome == outcome,
        resolved.error.deep_view() == error.deep_view(),
{
    law_attempt_stands_for_its_fields(resolved);
}

/// All other time stamps of a hole punch are times that the clock showed, too: the start of an
/// attempt, the end of the connecting by a first connection or by a failed dial, and the end of the
/// hole punch.
pub proof fn law_hole_punch_is_timed_by_the_clock(
    state: HolePunchState,
    event: SwarmEvent,
    step: HolePunchStep,
)
    requires
        call_ensures(
            HolePunchState::drive_hole_punch,
            (state, event),
            Ok::<HolePunchStep, ClockError>(step),
        ),
    ensures
        step matches HolePunchStep::Finished(report) ==> clock_time(report.ended_at),
        event.deep_view() == SwarmEventView::Dcutr(
            DcutrEvent::RemoteInitiatedDirectConnectionUpgrade,
        ) ==> (step matches HolePunchStep::Waiting(next) && next@.active is Some && clock_time(
            next@.active->0.started_at,
        )),
        event.deep_view() == (SwarmEventView::OutgoingConnectionError {
            peer_id: Some(state@.remote_id),
            is_connected: false,
        }) ==> clock_time(report_of(step@).connect_ended_at),
        (event.deep_view() matches SwarmEventView::ConnectionEstablished {
            peer_id,
            num_established,
            ..
        } && peer_id == state@.remote_id && num_established == 1) ==> clock_time(
            report_of(step@).connect_ended_at,
        ),
{
    let reported = event.deep_view();
    if reported != SwarmEventView::Dcutr(DcutrEvent::InitiatedDirectConnectionUpgrade) {
        law_events_that_are_stamped(state@, reported);
    }
}

/// A hole punch that is started, cancelled or closed is so at the time that the clock showed.
pub proof fn law_start_and_end_are_timed_by_the_clock(
    given: (Vec<u8>, Vec<Vec<u8>>, Vec<u8>, Vec<Vec<u8>>, String),
    state: HolePunchState,
    outcome: HolePunchOutcome,
    error: Option<String>,
    cancelled: TrackHolePunchRequest,
    closed: TrackHolePunchRequest,
)
    requires
        call_ensures(HolePunchState::new, given, Ok::<HolePunchState, ClockError>(state)),
        call_ensures(
            HolePunchState::cancel,
            (state,),
            Ok::<TrackHolePunchRequest, ClockError>(cancelled),
        ),
        call_ensures(
            HolePunchState::finish,
            (state, outcome, error),
            Ok::<TrackHolePunchRequest, ClockError>(closed),
        ),
    ensures
        clock_time(state@.request.connect_started_at),
        clock_time(cancelled.ended_at),
        cancelled.connect_ended_at == cancelled.ended_at,
        cancelled.connect_started_at == state@.request.connect_started_at,
        clock_time(closed.ended_at),
        closed.connect_started_at == state@.request.connect_started_at,
        closed.outcome == outcome,
        closed.error.deep_view() == error.deep_view(),
{
    law_report_without_attempt(state@, cancelled.ended_at);
    law_report_stands_for_its_fields(cancelled);
    law_closed_report(state@, outcome, error.deep_view(), closed.ended_at);
    law_report_stands_for_its_fields(closed);
}

/// Driving a hole punch past an event fails only where the clock was read in vain: for an event
/// that calls for a time stamp, or for one that ends the hole punch. The clock can have gone
/// backwards only for the end of an attempt.
pub proof fn law_only_the_clock_can_fail(
    state: HolePunchState,
    event: SwarmEvent,
    error: ClockError,
)
    requires
        event.deep_view() != SwarmEventView::Dcutr(DcutrEvent::InitiatedDirectConnectionUpgrade),
        call_ensures(
            HolePunchState::drive_hole_punch,
            (state, event),
            Err::<HolePunchStep, ClockError>(error),
        ),
    ensures
        state@.stamps(event.deep_view()) || state@.after_event(event.deep_view(), 0).1 is Some,
        error == ClockError::WentBackwards ==> {
            &&& ends_attempt(event.deep_view(), state@.remote_id)
            &&& state@.active is Some
            &&& exists|now: u64| #[trigger] clock_time(now) && now < state@.active->0.started_at
        },
        error != ClockError::WentBackwards ==> clock_failed(error),
{
    law_events_that_are_stamped(state@, event.deep_view());
}

/// A session that is told of a remote peer starts a hole punch, and cancels it where it has to, at
/// times that the clock showed.
pub proof fn law_session_starts_by_the_clock(
    session: Session,
    input: Input,
    after: Session,
    action: Action,
)
    requires
        session@.phase == PhaseView::Fetching,
        input is AddrInfo,
        call_ensures(
            Session::advance,
            (session, input),
            Ok::<(Session, Action), SessionError>((after, action)),
        ),
    ensures
        match (action.deep_view(), after@.phase) {
            (ActionView::Dial { .. }, PhaseView::Dialing(state)) => clock_time(
                state.request.connect_started_at,
            ),
            (ActionView::TrackHolePunch(report), PhaseView::Reporting { attempted: false }) => {
                &&& clock_time(report.connect_started_at)
                &&& clock_time(report.ended_at)
            },
            _ => false,
        },
{
    let given = input.deep_view();
    let (now, later) = choose|now: u64, later: u64|
        {
            &&& session@.expects_at(given, now)
            &&& session@.timed(given, now, later)
            &&& #[trigger] session@.advanced(given, now, later) == Ok::<
                (crate::session::SessionView, ActionView),
                crate::session::Fault,
            >((after@, action.deep_view()))
        };
    match given {
        InputView::AddrInfo { response, listen_addresses } => {
            law_remote_is_taken(session@.client, response, listen_addresses, now, later);
            law_quic_is_not_dialed(session@.client, response, listen_addresses, now, later);
            let wanted = response.multi_addresses.filter(|bytes: Seq<u8>| !is_quic(bytes));
            assert(dials_or_cancels(
                session@.client,
                crate::identity::parsed_peer_id(response.remote_id)->0,
                wanted,
                listen_addresses,
                now,
                later,
                (after@, action.deep_view()),
            ));
        },
        _ => {},
    }
}

/// A session in the middle of a hole punch ends attempts, and the hole punch, at times that the
/// clock showed.
pub proof fn law_session_punches_by_the_clock(
    session: Session,
    state: HolePunchView,
    event: SwarmEvent,
    after: Session,
    action: Action,
)
    requires
        session@.phase == PhaseView::Punching(state),
        call_ensures(
            Session::advance,
            (session, Input::Event(event)),
            Ok::<(Session, Action), SessionError>((after, action)),
        ),
    ensures
        ({
            let request = match (action.deep_view(), after@.phase) {
                (ActionView::TrackHolePunch(report), _) => Some(report),
                (_, PhaseView::Punching(next)) => Some(next.request),
                _ => None,
            };
            &&& request is Some
            &&& action.deep_view() is TrackHolePunch ==> clock_time(request->0.ended_at)
            &&& state.active is Some && ends_attempt(event.deep_view(), state.remote_id) ==> {
                &&& request->0.hole_punch_attempts.len() == state.request.hole_punch_attempts.len()
                    + 1
                &&& clock_time(request->0.hole_punch_attempts.last().ended_at)
            }
            &&& event.deep_view() == SwarmEventView::Dcutr(
                DcutrEvent::RemoteInitiatedDirectConnectionUpgrade,
            ) ==> (after@.phase matches PhaseView::Punching(next) && next.active is Some
                && clock_time(next.active->0.started_at))
        }),
{
    let reported = event.deep_view();
    let given = InputView::Event(reported);
    let (now, later) = choose|now: u64, later: u64|
        {
            &&& session@.expects_at(given, now)
            &&& session@.timed(given, now, later)
            &&& #[trigger] session@.advanced(given, now, later) == Ok::<
                (crate::session::SessionView, ActionView),
                crate::session::Fault,
            >((after@, action.deep_view()))
        };
    law_events_that_are_stamped(state, reported);
    law_initiation_starts_an_attempt(state, now);
    law_event_is_followed(session@.client, state, reported, now, later);
}

} // verus!
