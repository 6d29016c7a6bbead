//! The course of a single hole punch, from the first dial to the report on it.
//!
//! Functions whose name ends in `_at` take the time as an argument. Those without the suffix read
//! the clock where the event at hand calls for a time stamp.
use crate::bytes::{byte_strings, copy_bytes, remove_bytes, same_bytes, without};
use crate::clock::{
    clock_failed, clock_failed_from, clock_time, unix_time_from, unix_time_now, ClockError,
};
use crate::event::{ConnectedPoint, ConnectedPointView, DcutrEvent, SwarmEvent, SwarmEventView};
use crate::message::{
    HolePunchAttempt, HolePunchAttemptOutcome, HolePunchAttemptView, HolePunchOutcome,
    TrackHolePunchRequest, TrackHolePunchRequestView,
};
use std::ops::ControlFlow;
use vstd::prelude::*;

verus! {

/// An attempt that is under way. Times are nanoseconds since the Unix epoch.
#[derive(Clone, Copy, Debug, PartialEq, Eq, Structural)]
pub struct HolePunchAttemptState {
    pub opened_at: u64,
    pub started_at: u64,
}

impl HolePunchAttemptState {
    /// The attempt as it is reported once it has ended.
    pub open spec fn resolved(
        self,
        outcome: HolePunchAttemptOutcome,
        error: Option<Seq<char>>,
        ended_at: u64,
    ) -> HolePunchAttemptView {
        HolePunchAttemptView {
            opened_at: self.opened_at,
            started_at: Some(self.started_at),
            ended_at,
            start_rtt: None,
            elapsed_time: (ended_at - self.started_at) as u64,
            outcome,
            error,
            direct_dial_error: None,
        }
    }

    /// Ends the attempt at the given time.
    pub fn resolve_at(
        self,
        attempt_outcome: HolePunchAttemptOutcome,
        attempt_error: Option<String>,
        ended_at: u64,
    ) -> (attempt: HolePunchAttempt)
        requires
            self.started_at <= ended_at,
        ensures
            attempt.deep_view() == self.resolved(
                attempt_outcome,
                attempt_error.deep_view(),
                ended_at,
            ),
    {
        HolePunchAttempt {
            opened_at: self.opened_at,
            started_at: Some(self.started_at),
            ended_at,
            start_rtt: None,
            elapsed_time: ended_at - self.started_at,
            outcome: attempt_outcome,
            error: attempt_error,
            direct_dial_error: None,
        }
    }

    /// Ends the attempt now. Fails where the clock cannot be read, or stands before the start of
    /// the attempt.
    pub fn resolve(
        self,
        attempt_outcome: HolePunchAttemptOutcome,
        attempt_error: Option<String>,
    ) -> (attempt: Result<HolePunchAttempt, ClockError>)
        ensures
            match attempt {
                Ok(attempt) => {
                    &&& clock_time(attempt.ended_at)
                    &&& self.started_at <= attempt.ended_at
                    &&& attempt.deep_view() == self.resolved(
                        attempt_outcome,
                        attempt_error.deep_view(),
                        attempt.ended_at,
                    )
                },
                Err(error) => {
                    &&& clock_failed_from(error, self.started_at)
                    &&& error == ClockError::WentBackwards ==> self.started_at > 0
                },
            },
    {
        match unix_time_from(self.started_at) {
            Ok(ended_at) => Ok(self.resolve_at(attempt_outcome, attempt_error, ended_at)),
            Err(error) => Err(error),
        }
    }
}

/// The state of a hole punch.
pub struct HolePunchState {
    request: TrackHolePunchRequest,
    active_holepunch_attempt: Option<HolePunchAttemptState>,
    remote_id: Vec<u8>,
}

/// What a `HolePunchState` stands for.
pub struct HolePunchView {
    /// The report, as far as it is known.
    pub request: TrackHolePunchRequestView,
    /// The attempt that is under way.
    pub active: Option<HolePunchAttemptState>,
    /// The peer identifier of the remote peer.
    pub remote_id: Seq<u8>,
}

impl View for HolePunchState {
    type V = HolePunchView;

    closed spec fn view(&self) -> HolePunchView {
        HolePunchView {
            request: self.request.deep_view(),
            active: self.active_holepunch_attempt,
            remote_id: self.remote_id@,
        }
    }
}

/// Whether a hole punch goes on: `None` if it does, else its outcome and what went wrong.
pub type Flow = Option<(HolePunchOutcome, Option<Seq<char>>)>;

/// What an event handler's answer stands for.
pub open spec fn flow_of(flow: ControlFlow<(HolePunchOutcome, Option<String>), ()>) -> Flow {
    match flow {
        ControlFlow::Continue(_) => None,
        ControlFlow::Break((outcome, error)) => Some((outcome, error.deep_view())),
    }
}

/// A hole punch that starts now.
pub open spec fn started(
    client_id: Seq<u8>,
    listen_addresses: Seq<Seq<u8>>,
    remote_id: Seq<u8>,
    remote_addresses: Seq<Seq<u8>>,
    api_key: Seq<char>,
    now: u64,
) -> HolePunchView {
    HolePunchView {
        request: TrackHolePunchRequestView {
            client_id,
            remote_id,
            remote_multi_addresses: remote_addresses,
            open_multi_addresses: Seq::empty(),
            has_direct_conns: false,
            connect_started_at: now,
            connect_ended_at: 0,
            hole_punch_attempts: Seq::empty(),
            error: None,
            outcome: HolePunchOutcome::Unknown,
            ended_at: 0,
            listen_multi_addresses: listen_addresses,
            api_key,
        },
        active: None,
        remote_id,
    }
}

impl HolePunchView {
    /// Whether the attempt that is under way, if any, had started by then.
    pub open spec fn attempt_started_by(self, now: u64) -> bool {
        self.active matches Some(attempt) ==> attempt.started_at <= now
    }

    /// The attempt that is under way, if any, ends and is put on the report.
    pub open spec fn attempt_resolved(
        self,
        outcome: HolePunchAttemptOutcome,
        error: Option<Seq<char>>,
        now: u64,
    ) -> HolePunchView {
        match self.active {
            Some(attempt) => HolePunchView {
                request: TrackHolePunchRequestView {
                    hole_punch_attempts: self.request.hole_punch_attempts.push(
                        attempt.resolved(outcome, error, now),
                    ),
                    ..self.request
                },
                active: None,
                ..self
            },
            None => self,
        }
    }

    /// The report on a hole punch that was not attempted.
    pub open spec fn cancelled(self, now: u64) -> TrackHolePunchRequestView {
        TrackHolePunchRequestView {
            connect_ended_at: now,
            ended_at: now,
            error: Some("rust-lib2p doesn't support quic transport yet."@),
            outcome: HolePunchOutcome::Cancelled,
            ..self.request
        }
    }

    /// The report on a hole punch that has ended.
    pub open spec fn finished(
        self,
        outcome: HolePunchOutcome,
        error: Option<Seq<char>>,
        now: u64,
    ) -> TrackHolePunchRequestView {
        TrackHolePunchRequestView { outcome, error, ended_at: now, ..self.request }
    }

    /// The direct connection upgrade protocol reports something.
    pub open spec fn after_dcutr_event(self, event: DcutrEvent, now: u64) -> (HolePunchView, Flow) {
        match event {
            DcutrEvent::RemoteInitiatedDirectConnectionUpgrade => (
                HolePunchView {
                    active: Some(
                        HolePunchAttemptState {
                            opened_at: self.request.connect_ended_at,
                            started_at: now,
                        },
                    ),
                    ..self
                },
                None,
            ),
            DcutrEvent::DirectConnectionUpgradeSucceeded => (
                self.attempt_resolved(HolePunchAttemptOutcome::Success, None, now),
                Some((HolePunchOutcome::Success, None)),
            ),
            DcutrEvent::DirectConnectionUpgradeFailed { error } => (
                self.attempt_resolved(
                    error.attempt_failure().0,
                    Some(error.attempt_failure().1),
                    now,
                ),
                Some((HolePunchOutcome::Failed, Some("none of the 3 attempts succeeded"@))),
            ),
            DcutrEvent::InitiatedDirectConnectionUpgrade => (self, None),
        }
    }

    /// There is a new connection to the remote peer.
    pub open spec fn after_established_connection(
        self,
        endpoint: ConnectedPointView,
        num_established: u32,
        now: u64,
    ) -> (HolePunchView, Flow) {
        (
            HolePunchView {
                request: TrackHolePunchRequestView {
                    connect_ended_at: if num_established == 1 {
                        now
                    } else {
                        self.request.connect_ended_at
                    },
                    open_multi_addresses: self.request.open_multi_addresses.push(
                        endpoint.remote_address(),
                    ),
                    has_direct_conns: self.request.has_direct_conns || !endpoint.is_relayed(),
                    ..self.request
                },
                ..self
            },
            if self.active is None && !endpoint.is_relayed() {
                Some((HolePunchOutcome::ConnectionReversed, None))
            } else {
                None
            },
        )
    }

    /// An address of the remote peer could not be dialed.
    pub open spec fn after_connection_error(self, is_connected: bool, now: u64) -> (
        HolePunchView,
        Flow,
    ) {
        if is_connected {
            (
                self.attempt_resolved(
                    HolePunchAttemptOutcome::Failed,
                    Some("failed to establish a direct connection"@),
                    now,
                ),
                None,
            )
        } else {
            (
                HolePunchView {
                    request: TrackHolePunchRequestView { connect_ended_at: now, ..self.request },
                    ..self
                },
                Some(
                    (
                        HolePunchOutcome::NoConnection,
                        Some("Error connecting to remote peer via relay."@),
                    ),
                ),
            )
        }
    }

    /// A connection to the remote peer is gone.
    pub open spec fn after_closed_connection(
        self,
        endpoint: ConnectedPointView,
        num_established: u32,
    ) -> (HolePunchView, Flow) {
        (
            HolePunchView {
                request: TrackHolePunchRequestView {
                    open_multi_addresses: without(
                        self.request.open_multi_addresses,
                        endpoint.remote_address(),
                    ),
                    ..self.request
                },
                ..self
            },
            if num_established == 0 {
                Some(
                    (
                        HolePunchOutcome::Failed,
                        Some("connection closed without a successful hole-punch"@),
                    ),
                )
            } else {
                None
            },
        )
    }

    /// The network reports something.
    pub open spec fn after_event(self, event: SwarmEventView, now: u64) -> (HolePunchView, Flow) {
        match event {
            SwarmEventView::Dcutr(event) => self.after_dcutr_event(event, now),
            SwarmEventView::ConnectionEstablished { peer_id, endpoint, num_established } =>
                if peer_id == self.remote_id {
                    self.after_established_connection(endpoint, num_established, now)
                } else {
                    (self, None)
                },
            SwarmEventView::OutgoingConnectionError { peer_id, is_connected } => if peer_id
                == Some(self.remote_id) {
                self.after_connection_error(is_connected, now)
            } else {
                (self, None)
            },
            SwarmEventView::ConnectionClosed { peer_id, endpoint, num_established } =>
                if peer_id == self.remote_id {
                    self.after_closed_connection(endpoint, num_established)
                } else {
                    (self, None)
                },
            SwarmEventView::Other => (self, None),
        }
    }
}

/// Whether a hole punch waits for the next event, or is over.
pub enum HolePunchStep {
    Waiting(HolePunchState),
    Finished(TrackHolePunchRequest),
}

/// What a `HolePunchStep` stands for.
pub enum HolePunchStepView {
    Waiting(HolePunchView),
    Finished(TrackHolePunchRequestView),
}

impl View for HolePunchStep {
    type V = HolePunchStepView;

    open spec fn view(&self) -> HolePunchStepView {
        match self {
            HolePunchStep::Waiting(state) => HolePunchStepView::Waiting(state@),
            HolePunchStep::Finished(request) => HolePunchStepView::Finished(request.deep_view()),
        }
    }
}

impl HolePunchView {
    /// Whether the event calls for a time stamp.
    pub open spec fn stamps(self, event: SwarmEventView) -> bool {
        match event {
            SwarmEventView::Dcutr(DcutrEvent::RemoteInitiatedDirectConnectionUpgrade) => true,
            SwarmEventView::Dcutr(_) => self.active is Some,
            SwarmEventView::ConnectionEstablished { peer_id, num_established, .. } => peer_id
                == self.remote_id && num_established == 1,
            SwarmEventView::OutgoingConnectionError { peer_id, is_connected } => peer_id == Some(
                self.remote_id,
            ) && (is_connected ==> self.active is Some),
            _ => false,
        }
    }

    /// Whether the event ends the attempt that is under way, if any.
    pub open spec fn resolves(self, event: SwarmEventView) -> bool {
        match event {
            SwarmEventView::Dcutr(DcutrEvent::DirectConnectionUpgradeSucceeded) => true,
            SwarmEventView::Dcutr(DcutrEvent::DirectConnectionUpgradeFailed { .. }) => true,
            SwarmEventView::OutgoingConnectionError { peer_id, is_connected } => peer_id == Some(
                self.remote_id,
            ) && is_connected,
            _ => false,
        }
    }

    /// Whether the event can be reported to a client, and at that time.
    pub open spec fn admits(self, event: SwarmEventView, now: u64) -> bool {
        &&& admissible(event)
        &&& self.resolves(event) ==> self.attempt_started_by(now)
    }

    /// Whether there are times at which the event cannot be reported: it ends an attempt that did
    /// not start at the epoch itself.
    pub open spec fn bounds_time(self, event: SwarmEventView) -> bool {
        self.resolves(event) && !self.attempt_started_by(0)
    }

    /// Whether the time stamps that the event calls for are readings of the clock: the one for the
    /// event itself and, where it ends the hole punch, the one for the end.
    pub open spec fn timed(self, event: SwarmEventView, now: u64, ended_at: u64) -> bool {
        &&& self.stamps(event) ==> clock_time(now)
        &&& self.after_event(event, now).1 is Some ==> clock_time(ended_at)
    }

    /// Whether a reading of the clock made the error, where the event calls for a time stamp.
    pub open spec fn untimed(self, event: SwarmEventView, error: ClockError) -> bool {
        &&& self.stamps(event)
        &&& match self.active {
            Some(attempt) if self.resolves(event) => clock_failed_from(error, attempt.started_at),
            _ => clock_failed(error),
        }
    }

    /// An event is dealt with. Where it ends the hole punch, the report is closed at `ended_at`.
    pub open spec fn driven(
        self,
        event: SwarmEventView,
        now: u64,
        ended_at: u64,
    ) -> HolePunchStepView {
        match self.after_event(event, now) {
            (state, None) => HolePunchStepView::Waiting(state),
            (state, Some((outcome, error))) => HolePunchStepView::Finished(
                state.finished(outcome, error, ended_at),
            ),
        }
    }
}

/// Whether the event can be reported to a client at all: it never initiates an upgrade itself.
pub open spec fn admissible(event: SwarmEventView) -> bool {
    event != SwarmEventView::Dcutr(DcutrEvent::InitiatedDirectConnectionUpgrade)
}

impl HolePunchState {
    /// Starts a hole punch at the given time.
    pub fn new_at(
        client_id: Vec<u8>,
        client_listen_addrs: Vec<Vec<u8>>,
        remote_id: Vec<u8>,
        remote_multi_addresses: Vec<Vec<u8>>,
        api_key: String,
        now: u64,
    ) -> (state: HolePunchState)
        ensures
            state@ == started(
                client_id@,
                byte_strings(client_listen_addrs@),
                remote_id@,
                byte_strings(remote_multi_addresses@),
                api_key@,
                now,
            ),
    {
        let request = TrackHolePunchRequest {
            client_id,
            remote_id: copy_bytes(&remote_id),
            remote_multi_addresses,
            open_multi_addresses: Vec::new(),
            has_direct_conns: false,
            connect_started_at: now,
            connect_ended_at: 0,
            hole_punch_attempts: Vec::new(),
            error: None,
            outcome: HolePunchOutcome::Unknown,
            ended_at: 0,
            listen_multi_addresses: client_listen_addrs,
            api_key,
        };
        let state = HolePunchState { request, active_holepunch_attempt: None, remote_id };
        assert(state@.request.open_multi_addresses =~= Seq::empty());
        assert(state@.request.hole_punch_attempts =~= Seq::empty());
        state
    }

    /// Starts a hole punch now.
    pub fn new(
        client_id: Vec<u8>,
        client_listen_addrs: Vec<Vec<u8>>,
        remote_id: Vec<u8>,
        remote_multi_addresses: Vec<Vec<u8>>,
        api_key: String,
    ) -> (state: Result<HolePunchState, ClockError>)
        ensures
            match state {
                Ok(state) => {
                    &&& clock_time(state@.request.connect_started_at)
                    &&& state@ == started(
                        client_id@,
                        byte_strings(client_listen_addrs@),
                        remote_id@,
                        byte_strings(remote_multi_addresses@),
                        api_key@,
                        state@.request.connect_started_at,
                    )
                },
                Err(error) => clock_failed(error),
            },
    {
        match unix_time_now() {
            Ok(now) => Ok(
                HolePunchState::new_at(
                    client_id,
                    client_listen_addrs,
                    remote_id,
                    remote_multi_addresses,
                    api_key,
                    now,
                ),
            ),
            Err(error) => Err(error),
        }
    }

    /// Reports, at the given time, that the hole punch is not attempted.
    pub fn cancel_at(self, now: u64) -> (request: TrackHolePunchRequest)
        ensures
            request.deep_view() == self@.cancelled(now),
    {
        let mut request = self.request;
        request.connect_ended_at = now;
        request.ended_at = now;
        request.error = Some("rust-lib2p doesn't support quic transport yet.".to_owned());
        request.outcome = HolePunchOutcome::Cancelled;
        request
    }

    /// Reports that the hole punch is not attempted.
    pub fn cancel(self) -> (request: Result<TrackHolePunchRequest, ClockError>)
        ensures
            match request {
                Ok(request) => {
                    &&& clock_time(request.ended_at)
                    &&& request.deep_view() == self@.cancelled(request.ended_at)
                },
                Err(error) => clock_failed(error),
            },
    {
        match unix_time_now() {
            Ok(now) => Ok(self.cancel_at(now)),
            Err(error) => Err(error),
        }
    }

    /// Closes the report at the given time.
    pub fn finish_at(
        self,
        outcome: HolePunchOutcome,
        error: Option<String>,
        now: u64,
    ) -> (request: TrackHolePunchRequest)
        ensures
            request.deep_view() == self@.finished(outcome, error.deep_view(), now),
    {
        let mut request = self.request;
        request.outcome = outcome;
        request.error = error;
        request.ended_at = now;
        request
    }

    /// Closes the report now.
    pub fn finish(self, outcome: HolePunchOutcome, error: Option<String>) -> (request: Result<
        TrackHolePunchRequest,
        ClockError,
    >)
        ensures
            match request {
                Ok(request) => {
                    &&& clock_time(request.ended_at)
                    &&& request.deep_view() == self@.finished(
                        outcome,
                        error.deep_view(),
                        request.ended_at,
                    )
                },
                Err(error) => clock_failed(error),
            },
    {
        match unix_time_now() {
            Ok(now) => Ok(self.finish_at(outcome, error, now)),
            Err(error) => Err(error),
        }
    }

    /// Ends the attempt that is under way, if any, at the given time.
    fn resolve_attempt_at(
        &mut self,
        outcome: HolePunchAttemptOutcome,
        error: Option<String>,
        now: u64,
    )
        requires
            old(self)@.attempt_started_by(now),
        ensures
            final(self)@ == old(self)@.attempt_resolved(outcome, error.deep_view(), now),
    {
        let ghost before = self@;
        if let Some(attempt) = self.active_holepunch_attempt {
            self.active_holepunch_attempt = None;
            let resolved = attempt.resolve_at(outcome, error, now);
            self.request.hole_punch_attempts.push(resolved);
            assert(self@.request.hole_punch_attempts =~= before.request.hole_punch_attempts.push(
                attempt.resolved(outcome, error.deep_view(), now),
            ));
        }
    }

    /// Deals with a report of the direct connection upgrade protocol, at the given time.
    pub fn handle_dcutr_event_at(&mut self, event: DcutrEvent, now: u64) -> (flow: ControlFlow<
        (HolePunchOutcome, Option<String>),
    >)
        requires
            old(self)@.admits(SwarmEventView::Dcutr(event), now),
        ensures
            (final(self)@, flow_of(flow)) == old(self)@.after_dcutr_event(event, now),
    {
        match event {
            DcutrEvent::RemoteInitiatedDirectConnectionUpgrade => {
                self.active_holepunch_attempt = Some(
                    HolePunchAttemptState {
                        opened_at: self.request.connect_ended_at,
                        started_at: now,
                    },
                );
                ControlFlow::Continue(())
            },
            DcutrEvent::DirectConnectionUpgradeSucceeded => {
                self.resolve_attempt_at(HolePunchAttemptOutcome::Success, None, now);
                ControlFlow::Break((HolePunchOutcome::Success, None))
            },
            DcutrEvent::DirectConnectionUpgradeFailed { error } => {
                let (attempt_outcome, attempt_error) = error.to_attempt_failure();
                self.resolve_attempt_at(attempt_outcome, Some(attempt_error), now);
                let error = Some("none of the 3 attempts succeeded".to_owned());
                ControlFlow::Break((HolePunchOutcome::Failed, error))
            },
            DcutrEvent::InitiatedDirectConnectionUpgrade => ControlFlow::Continue(()),
        }
    }

    /// Deals with a new connection to the remote peer, at the given time.
    pub fn handle_established_connection_at(
        &mut self,
        endpoint: ConnectedPoint,
        num_established: u32,
        now: u64,
    ) -> (flow: ControlFlow<(HolePunchOutcome, Option<String>)>)
        ensures
            (final(self)@, flow_of(flow)) == old(self)@.after_established_connection(
                endpoint.deep_view(),
                num_established,
                now,
            ),
    {
        let ghost before = self@;
        if num_established == 1 {
            self.request.connect_ended_at = now;
        }
        self.request.open_multi_addresses.push(copy_bytes(&endpoint.get_remote_address().bytes));
        assert(self@.request.open_multi_addresses =~= before.request.open_multi_addresses.push(
            endpoint.deep_view().remote_address(),
        ));
        if !endpoint.is_relayed() {
            self.request.has_direct_conns = true;
        }
        if self.active_holepunch_attempt.is_none() && !endpoint.is_relayed() {
            // Reverse-dial succeeded.
            return ControlFlow::Break((HolePunchOutcome::ConnectionReversed, None));
        }
        ControlFlow::Continue(())
    }

    /// Deals with an address of the remote peer that could not be dialed, at the given time.
    pub fn handle_connection_error_at(&mut self, is_connected: bool, now: u64) -> (flow:
        ControlFlow<(HolePunchOutcome, Option<String>)>)
        requires
            is_connected ==> old(self)@.attempt_started_by(now),
        ensures
            (final(self)@, flow_of(flow)) == old(self)@.after_connection_error(is_connected, now),
    {
        if !is_connected {
            // Initial connection to the remote failed.
            self.request.connect_ended_at = now;
            let error = Some("Error connecting to remote peer via relay.".to_owned());
            return ControlFlow::Break((HolePunchOutcome::NoConnection, error));
        }
        // Hole punch attempt failed. Up to 3 attempts may fail before the whole hole-punch
        // is considered as failed.
        let error = Some("failed to establish a direct connection".to_owned());
        self.resolve_attempt_at(HolePunchAttemptOutcome::Failed, error, now);
        ControlFlow::Continue(())
    }

    /// Deals with the end of a connection to the remote peer.
    pub fn handle_closed_connection(&mut self, endpoint: ConnectedPoint, num_established: u32) -> (
    flow: ControlFlow<(HolePunchOutcome, Option<String>)>)
        ensures
            (final(self)@, flow_of(flow)) == old(self)@.after_closed_connection(
                endpoint.deep_view(),
                num_established,
            ),
    {
        remove_bytes(
            &mut self.request.open_multi_addresses,
            &endpoint.get_remote_address().bytes,
        );
        if num_established == 0 {
            let error = Some("connection closed without a successful hole-punch".to_owned());
            return ControlFlow::Break((HolePunchOutcome::Failed, error));
        }
        ControlFlow::Continue(())
    }

    /// Deals with an event, at the given time.
    pub fn handle_event_at(&mut self, event: SwarmEvent, now: u64) -> (flow: ControlFlow<
        (HolePunchOutcome, Option<String>),
    >)
        requires
            old(self)@.admits(event.deep_view(), now),
        ensures
            (final(self)@, flow_of(flow)) == old(self)@.after_event(event.deep_view(), now),
    {
        match event {
            SwarmEvent::Dcutr(event) => self.handle_dcutr_event_at(event, now),
            SwarmEvent::ConnectionEstablished { peer_id, endpoint, num_established } => {
                if same_bytes(&peer_id, &self.remote_id) {
                    self.handle_established_connection_at(endpoint, num_established, now)
                } else {
                    ControlFlow::Continue(())
                }
            },
            SwarmEvent::OutgoingConnectionError { peer_id: Some(peer_id), is_connected } => {
                if same_bytes(&peer_id, &self.remote_id) {
                    self.handle_connection_error_at(is_connected, now)
                } else {
                    ControlFlow::Continue(())
                }
            },
            SwarmEvent::OutgoingConnectionError { peer_id: None, .. } => ControlFlow::Continue(()),
            SwarmEvent::ConnectionClosed { peer_id, endpoint, num_established } => {
                if same_bytes(&peer_id, &self.remote_id) {
                    self.handle_closed_connection(endpoint, num_established)
                } else {
                    ControlFlow::Continue(())
                }
            },
            SwarmEvent::Other => ControlFlow::Continue(()),
        }
    }

    /// Takes the hole punch past an event that occurred at `now`. Where the event ends the hole
    /// punch, the report is closed at `ended_at`.
    pub fn drive_hole_punch_at(self, event: SwarmEvent, now: u64, ended_at: u64) -> (step:
        HolePunchStep)
        requires
            self@.admits(event.deep_view(), now),
        ensures
            step@ == self@.driven(event.deep_view(), now, ended_at),
    {
        let mut state = self;
        match state.handle_event_at(event, now) {
            ControlFlow::Continue(_) => HolePunchStep::Waiting(state),
            ControlFlow::Break((outcome, error)) => HolePunchStep::Finished(
                state.finish_at(outcome, error, ended_at),
            ),
        }
    }
}

impl HolePunchState {
    /// Takes the time stamp for the end of the attempt that is under way, if any.
    fn stamp_of_attempt_end(&self) -> (stamp: Result<u64, ClockError>)
        ensures
            match stamp {
                Ok(now) => {
                    &&& self@.attempt_started_by(now)
                    &&& self@.active is Some ==> clock_time(now)
                },
                Err(error) => {
                    &&& self@.active is Some
                    &&& clock_failed_from(error, self@.active->0.started_at)
                    &&& error == ClockError::WentBackwards ==> !self@.attempt_started_by(0)
                },
            },
    {
        match self.active_holepunch_attempt {
            Some(attempt) => unix_time_from(attempt.started_at),
            None => Ok(0),
        }
    }

    /// Takes the time stamp that a report of the direct connection upgrade protocol calls for.
    fn stamp_of_dcutr_event(&self, event: DcutrEvent) -> (stamp: Result<u64, ClockError>)
        requires
            admissible(SwarmEventView::Dcutr(event)),
        ensures
            match stamp {
                Ok(now) => {
                    &&& self@.admits(SwarmEventView::Dcutr(event), now)
                    &&& self@.stamps(SwarmEventView::Dcutr(event)) ==> clock_time(now)
                },
                Err(error) => {
                    &&& self@.untimed(SwarmEventView::Dcutr(event), error)
                    &&& error == ClockError::WentBackwards ==> self@.bounds_time(
                        SwarmEventView::Dcutr(event),
                    )
                },
            },
    {
        match event {
            DcutrEvent::RemoteInitiatedDirectConnectionUpgrade => unix_time_now(),
            _ => self.stamp_of_attempt_end(),
        }
    }

    /// Takes the time stamp that a new connection to the remote peer calls for.
    fn stamp_of_established_connection(num_established: u32) -> (stamp: Result<u64, ClockError>)
        ensures
            match stamp {
                Ok(now) => num_established == 1 ==> clock_time(now),
                Err(error) => num_established == 1 && clock_failed(error),
            },
    {
        if num_established == 1 {
            unix_time_now()
        } else {
            Ok(0)
        }
    }

    /// Takes the time stamp that an address of the remote peer calls for that could not be dialed.
    fn stamp_of_connection_error(&self, is_connected: bool) -> (stamp: Result<u64, ClockError>)
        ensures
            match stamp {
                Ok(now) => {
                    &&& is_connected ==> self@.attempt_started_by(now)
                    &&& is_connected ==> self@.active is Some ==> clock_time(now)
                    &&& !is_connected ==> clock_time(now)
                },
                Err(error) => {
                    &&& is_connected ==> self@.active is Some
                    &&& if is_connected {
                        clock_failed_from(error, self@.active->0.started_at)
                    } else {
                        clock_failed(error)
                    }
                    &&& error == ClockError::WentBackwards ==> is_connected
                        && !self@.attempt_started_by(0)
                },
            },
    {
        if is_connected {
            self.stamp_of_attempt_end()
        } else {
            unix_time_now()
        }
    }

    /// Takes the time stamp that an event calls for.
    fn stamp_of_event(&self, event: &SwarmEvent) -> (stamp: Result<u64, ClockError>)
        requires
            admissible(event.deep_view()),
        ensures
            match stamp {
                Ok(now) => {
                    &&& self@.admits(event.deep_view(), now)
                    &&& self@.stamps(event.deep_view()) ==> clock_time(now)
                },
                Err(error) => {
                    &&& self@.untimed(event.deep_view(), error)
                    &&& error == ClockError::WentBackwards ==> self@.bounds_time(event.deep_view())
                },
            },
    {
        match event {
            SwarmEvent::Dcutr(event) => self.stamp_of_dcutr_event(*event),
            SwarmEvent::ConnectionEstablished { peer_id, num_established, .. } if same_bytes(
                peer_id,
                &self.remote_id,
            ) => HolePunchState::stamp_of_established_connection(*num_established),
            SwarmEvent::OutgoingConnectionError {
                peer_id: Some(peer_id),
                is_connected,
            } if same_bytes(peer_id, &self.remote_id) => self.stamp_of_connection_error(
                *is_connected,
            ),
            _ => Ok(0),
        }
    }

    /// Deals with a report of the direct connection upgrade protocol. Fails, and changes nothing,
    /// where a time stamp is called for and cannot be taken.
    pub fn handle_dcutr_event(&mut self, event: DcutrEvent) -> (flow: Result<
        ControlFlow<(HolePunchOutcome, Option<String>)>,
        ClockError,
    >)
        requires
            admissible(SwarmEventView::Dcutr(event)),
        ensures
            match flow {
                Ok(flow) => exists|now: u64|
                    {
                        &&& old(self)@.admits(SwarmEventView::Dcutr(event), now)
                        &&& old(self)@.stamps(SwarmEventView::Dcutr(event)) ==> clock_time(now)
                        &&& (final(self)@, flow_of(flow))
                            == #[trigger] old(self)@.after_dcutr_event(event, now)
                    },
                Err(error) => {
                    &&& old(self)@.untimed(SwarmEventView::Dcutr(event), error)
                    &&& error == ClockError::WentBackwards ==> old(self)@.bounds_time(
                        SwarmEventView::Dcutr(event),
                    )
                    &&& final(self)@ == old(self)@
                },
            },
    {
        match self.stamp_of_dcutr_event(event) {
            Ok(now) => Ok(self.handle_dcutr_event_at(event, now)),
            Err(error) => Err(error),
        }
    }

    /// Deals with a new connection to the remote peer. Fails, and changes nothing, where a time
    /// stamp is called for and cannot be taken.
    pub fn handle_established_connection(
        &mut self,
        endpoint: ConnectedPoint,
        num_established: u32,
    ) -> (flow: Result<ControlFlow<(HolePunchOutcome, Option<String>)>, ClockError>)
        ensures
            match flow {
                Ok(flow) => exists|now: u64|
                    {
                        &&& num_established == 1 ==> clock_time(now)
                        &&& (final(self)@, flow_of(flow))
                            == #[trigger] old(self)@.after_established_connection(
                            endpoint.deep_view(),
                            num_established,
                            now,
                        )
                    },
                Err(error) => {
                    &&& num_established == 1
                    &&& clock_failed(error)
                    &&& final(self)@ == old(self)@
                },
            },
    {
        match HolePunchState::stamp_of_established_connection(num_established) {
            Ok(now) => Ok(self.handle_established_connection_at(endpoint, num_established, now)),
            Err(error) => Err(error),
        }
    }

    /// Deals with an address of the remote peer that could not be dialed. Fails, and changes
    /// nothing, where a time stamp is called for and cannot be taken.
    pub fn handle_connection_error(&mut self, is_connected: bool) -> (flow: Result<
        ControlFlow<(HolePunchOutcome, Option<String>)>,
        ClockError,
    >)
        ensures
            match flow {
                Ok(flow) => exists|now: u64|
                    {
                        &&& is_connected ==> old(self)@.attempt_started_by(now)
                        &&& is_connected ==> old(self)@.active is Some ==> clock_time(now)
                        &&& !is_connected ==> clock_time(now)
                        &&& (final(self)@, flow_of(flow))
                            == #[trigger] old(self)@.after_connection_error(is_connected, now)
                    },
                Err(error) => {
                    &&& is_connected ==> old(self)@.active is Some
                    &&& if is_connected {
                        clock_failed_from(error, old(self)@.active->0.started_at)
                    } else {
                        clock_failed(error)
                    }
                    &&& error == ClockError::WentBackwards ==> is_connected && !old(
                        self,
                    )@.attempt_started_by(0)
                    &&& final(self)@ == old(self)@
                },
            },
    {
        match self.stamp_of_connection_error(is_connected) {
            Ok(now) => Ok(self.handle_connection_error_at(is_connected, now)),
            Err(error) => Err(error),
        }
    }

    /// Deals with an event. Fails, and changes nothing, where a time stamp is called for and cannot
    /// be taken.
    pub fn handle_event(&mut self, event: SwarmEvent) -> (flow: Result<
        ControlFlow<(HolePunchOutcome, Option<String>)>,
        ClockError,
    >)
        requires
            admissible(event.deep_view()),
        ensures
            match flow {
                Ok(flow) => exists|now: u64|
                    {
                        &&& old(self)@.admits(event.deep_view(), now)
                        &&& old(self)@.stamps(event.deep_view()) ==> clock_time(now)
                        &&& (final(self)@, flow_of(flow)) == #[trigger] old(self)@.after_event(
                            event.deep_view(),
                            now,
                        )
                    },
                Err(error) => {
                    &&& old(self)@.untimed(event.deep_view(), error)
                    &&& error == ClockError::WentBackwards ==> old(self)@.bounds_time(
                        event.deep_view(),
                    )
                    &&& final(self)@ == old(self)@
                },
            },
    {
        match self.stamp_of_event(&event) {
            Ok(now) => Ok(self.handle_event_at(event, now)),
            Err(error) => Err(error),
        }
    }

    /// Takes the hole punch past an event. Fails where a time stamp is called for and cannot be
    /// taken: for the event itself, or for the end of the hole punch.
    pub fn drive_hole_punch(self, event: SwarmEvent) -> (step: Result<HolePunchStep, ClockError>)
        requires
            admissible(event.deep_view()),
        ensures
            match step {
                Ok(step) => exists|now: u64, ended_at: u64|
                    {
                        &&& self@.admits(event.deep_view(), now)
                        &&& self@.timed(event.deep_view(), now, ended_at)
                        &&& step@ == #[trigger] self@.driven(event.deep_view(), now, ended_at)
                    },
                Err(error) => {
                    &&& self@.untimed(event.deep_view(), error) || (self@.after_event(
                        event.deep_view(),
                        0,
                    ).1 is Some && clock_failed(error))
                    &&& error == ClockError::WentBackwards ==> self@.bounds_time(event.deep_view())
                },
            },
    {
        let ghost before = self@;
        let ghost reported = event.deep_view();
        let mut state = self;
        match state.handle_event(event) {
            Ok(flow) => {
                let ghost after = state@;
                let ghost now = choose|now: u64|
                    {
                        &&& before.admits(reported, now)
                        &&& before.stamps(reported) ==> clock_time(now)
                        &&& (after, flow_of(flow)) == #[trigger] before.after_event(reported, now)
                    };
                match flow {
                    ControlFlow::Continue(_) => {
                        let step = HolePunchStep::Waiting(state);
                        assert(step@ == before.driven(reported, now, 0));
                        Ok(step)
                    },
                    ControlFlow::Break((outcome, error)) => match state.finish(outcome, error) {
                        Ok(request) => {
                            let step = HolePunchStep::Finished(request);
                            assert(step@ == before.driven(reported, now, request.ended_at));
                            Ok(step)
                        },
                        Err(error) => Err(error),
                    },
                }
            },
            Err(error) => Err(error),
        }
    }
}

} // verus!
