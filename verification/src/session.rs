//! The work of a client, round by round.
//!
//! A `Session` decides what to do next; whoever runs it does that, and hands back what came of it.
//! In each round the client sets up its network stack, registers with the server, asks it for a
//! remote peer, tries to punch a hole through to that peer and reports how that went.
use crate::action::{Action, ActionView, Input, InputView};
use crate::bytes::{byte_strings, copy_bytes, copy_list};
use crate::clock::{clock_failed, clock_time, unix_time_now, ClockError};
use crate::event::{DcutrEvent, SwarmEvent};
use crate::hole_punch::{
    admissible, started, HolePunchState, HolePunchStep, HolePunchStepView, HolePunchView,
};
use crate::identity::{decode_peer_id, parsed_peer_id};
use crate::message::{
    GetAddrInfoRequest, GetAddrInfoRequestView, GetAddrInfoResponse, GetAddrInfoResponseView,
    RegisterRequest, RegisterRequestView,
};
use crate::multiaddr::{decode_all, decoded, supported, without_quic, Multiaddr, MultiaddrView};
use crate::rounds::Rounds;
use crate::text::{copy_texts, read_texts, texts};
use libp2p::identity::ParseError;
use std::string::FromUtf8Error;
use vstd::prelude::*;

verus! {

/// Why a session ends early.
pub enum SessionError {
    /// The name of a protocol is no text.
    ProtocolName(FromUtf8Error),
    /// The server sent something that is no peer identifier.
    RemoteId(ParseError),
    /// The server sent something that is no multiaddress.
    RemoteAddress(libp2p::multiaddr::Error),
    /// A time stamp could not be taken.
    Clock(ClockError),
}

/// What was wrong with an input.
pub enum Fault {
    ProtocolName,
    RemoteId,
    RemoteAddress,
}

impl SessionError {
    /// What was wrong with the input, if anything was.
    pub open spec fn fault(self) -> Option<Fault> {
        match self {
            SessionError::ProtocolName(_) => Some(Fault::ProtocolName),
            SessionError::RemoteId(_) => Some(Fault::RemoteId),
            SessionError::RemoteAddress(_) => Some(Fault::RemoteAddress),
            SessionError::Clock(_) => None,
        }
    }
}

/// How far the current round has come.
enum Phase {
    Starting,
    SettingUp,
    Registering,
    Fetching,
    Dialing(HolePunchState),
    Punching(HolePunchState),
    Reporting { attempted: bool },
    Resting,
    Done,
}

/// How far the current round has come.
pub enum PhaseView {
    /// No round has begun.
    Starting,
    /// The network stack is being set up.
    SettingUp,
    /// The client registers with the server.
    Registering,
    /// The client asks for a remote peer.
    Fetching,
    /// The client dials the remote peer.
    Dialing(HolePunchView),
    /// The client punches a hole.
    Punching(HolePunchView),
    /// The client reports on a hole punch, which was or was not attempted.
    Reporting { attempted: bool },
    /// The client rests before the next round.
    Resting,
    /// All rounds are done.
    Done,
}

impl View for Phase {
    type V = PhaseView;

    closed spec fn view(&self) -> PhaseView {
        match self {
            Phase::Starting => PhaseView::Starting,
            Phase::SettingUp => PhaseView::SettingUp,
            Phase::Registering => PhaseView::Registering,
            Phase::Fetching => PhaseView::Fetching,
            Phase::Dialing(state) => PhaseView::Dialing(state@),
            Phase::Punching(state) => PhaseView::Punching(state@),
            Phase::Reporting { attempted } => PhaseView::Reporting { attempted: *attempted },
            Phase::Resting => PhaseView::Resting,
            Phase::Done => PhaseView::Done,
        }
    }
}

/// What a client keeps from round to round.
pub struct Client {
    peer_id: Vec<u8>,
    agent_version: String,
    api_key: String,
    protocols: Option<Vec<String>>,
    rounds: Rounds,
}

/// What a `Client` stands for.
pub struct ClientView {
    /// The peer identifier of the client.
    pub peer_id: Seq<u8>,
    pub agent_version: Seq<char>,
    pub api_key: Seq<char>,
    /// The names of the protocols that the client supports, once they are known.
    pub protocols: Option<Seq<Seq<char>>>,
    pub rounds: Rounds,
}

impl View for Client {
    type V = ClientView;

    closed spec fn view(&self) -> ClientView {
        ClientView {
            peer_id: self.peer_id@,
            agent_version: self.agent_version@,
            api_key: self.api_key@,
            protocols: match self.protocols {
                Some(protocols) => Some(protocols.deep_view()),
                None => None,
            },
            rounds: self.rounds,
        }
    }
}

/// A client at work.
pub struct Session {
    client: Client,
    phase: Phase,
}

/// What a `Session` stands for.
pub struct SessionView {
    pub client: ClientView,
    pub phase: PhaseView,
}

impl View for Session {
    type V = SessionView;

    closed spec fn view(&self) -> SessionView {
        SessionView { client: self.client@, phase: self.phase@ }
    }
}

/// Where a step of a session leads to.
pub type Advance = Result<(SessionView, ActionView), Fault>;

impl ClientView {
    /// The next round begins, or all are done.
    pub open spec fn next_round(self) -> (SessionView, ActionView) {
        if self.rounds.has_next() {
            (
                SessionView {
                    client: ClientView { rounds: self.rounds.counted(), ..self },
                    phase: PhaseView::SettingUp,
                },
                ActionView::SetUp,
            )
        } else {
            (
                SessionView {
                    client: ClientView { rounds: self.rounds.counted(), ..self },
                    phase: PhaseView::Done,
                },
                ActionView::Finish,
            )
        }
    }

    /// The network stack is set up. Which protocols it supports is asked in the first round only.
    pub open spec fn after_setup(self, protocol_names: Seq<Seq<u8>>) -> Advance {
        let protocols = match self.protocols {
            Some(protocols) => Some(protocols),
            None => texts(protocol_names),
        };
        match protocols {
            Some(protocols) => Ok(
                (
                    SessionView {
                        client: ClientView { protocols: Some(protocols), ..self },
                        phase: PhaseView::Registering,
                    },
                    ActionView::Register(
                        RegisterRequestView {
                            client_id: self.peer_id,
                            agent_version: self.agent_version,
                            protocols,
                            api_key: self.api_key,
                        },
                    ),
                ),
            ),
            None => Err(Fault::ProtocolName),
        }
    }

    /// The server knows the client.
    pub open spec fn after_registration(self) -> (SessionView, ActionView) {
        (
            SessionView { client: self, phase: PhaseView::Fetching },
            ActionView::GetAddrInfo(
                GetAddrInfoRequestView {
                    host_id: self.peer_id,
                    all_host_ids: seq![self.peer_id],
                    api_key: self.api_key,
                },
            ),
        )
    }

    /// The client turns to a remote peer. Where none of its addresses is supported, the hole punch
    /// is cancelled at `cancelled_at`.
    pub open spec fn with_remote(
        self,
        remote_id: Seq<u8>,
        addresses: Seq<MultiaddrView>,
        listen_addresses: Seq<Seq<u8>>,
        now: u64,
        cancelled_at: u64,
    ) -> (SessionView, ActionView) {
        let remote_addresses = supported(addresses);
        let state = started(
            self.peer_id,
            listen_addresses,
            remote_id,
            remote_addresses,
            self.api_key,
            now,
        );
        if remote_addresses.len() == 0 {
            (
                SessionView { client: self, phase: PhaseView::Reporting { attempted: false } },
                ActionView::TrackHolePunch(state.cancelled(cancelled_at)),
            )
        } else {
            (
                SessionView { client: self, phase: PhaseView::Dialing(state) },
                ActionView::Dial { peer_id: remote_id, addresses: remote_addresses },
            )
        }
    }

    /// The server picked a remote peer.
    pub open spec fn after_addr_info(
        self,
        response: GetAddrInfoResponseView,
        listen_addresses: Seq<Seq<u8>>,
        now: u64,
        cancelled_at: u64,
    ) -> Advance {
        match (parsed_peer_id(response.remote_id), decoded(response.multi_addresses)) {
            (None, _) => Err(Fault::RemoteId),
            (Some(_), None) => Err(Fault::RemoteAddress),
            (Some(remote_id), Some(addresses)) => Ok(
                self.with_remote(remote_id, addresses, listen_addresses, now, cancelled_at),
            ),
        }
    }

    /// A hole punch has come that far.
    pub open spec fn after_punch_step(self, step: HolePunchStepView) -> (SessionView, ActionView) {
        match step {
            HolePunchStepView::Waiting(state) => (
                SessionView { client: self, phase: PhaseView::Punching(state) },
                ActionView::AwaitEvent,
            ),
            HolePunchStepView::Finished(request) => (
                SessionView { client: self, phase: PhaseView::Reporting { attempted: true } },
                ActionView::TrackHolePunch(request),
            ),
        }
    }
}

impl SessionView {
    /// Whether the input is what the session waits for, and leaves it room to count its rounds.
    pub open spec fn expects(self, input: InputView) -> bool {
        match (self.phase, input) {
            (PhaseView::Starting, InputView::Begin) => self.client.rounds.can_count(),
            (PhaseView::SettingUp, InputView::SetUp { .. }) => true,
            (PhaseView::Registering, InputView::Registered) => true,
            (PhaseView::Fetching, InputView::AddrInfo { .. }) => true,
            (PhaseView::Dialing(_), InputView::Dialed) => true,
            (PhaseView::Punching(_), InputView::Event(event)) => admissible(event),
            (PhaseView::Reporting { attempted }, InputView::Reported) => attempted
                || self.client.rounds.can_count(),
            (PhaseView::Resting, InputView::Rested) => self.client.rounds.can_count(),
            _ => false,
        }
    }

    /// Whether the input can come in at that time.
    pub open spec fn expects_at(self, input: InputView, now: u64) -> bool {
        &&& self.expects(input)
        &&& match (self.phase, input) {
            (PhaseView::Punching(state), InputView::Event(event)) => state.admits(event, now),
            _ => true,
        }
    }

    /// Whether the input calls for a time stamp.
    pub open spec fn stamps(self, input: InputView) -> bool {
        match (self.phase, input) {
            (PhaseView::Fetching, InputView::AddrInfo { .. }) => true,
            (PhaseView::Punching(state), InputView::Event(event)) => state.stamps(event)
                || state.after_event(event, 0).1 is Some,
            _ => false,
        }
    }

    /// Whether there are times at which the input cannot come in: it ends an attempt that did not
    /// start at the epoch itself.
    pub open spec fn bounds_time(self, input: InputView) -> bool {
        match (self.phase, input) {
            (PhaseView::Punching(state), InputView::Event(event)) => state.bounds_time(event),
            _ => false,
        }
    }

    /// Whether the time stamps that the input calls for are readings of the clock.
    pub open spec fn timed(self, input: InputView, now: u64, later: u64) -> bool {
        match (self.phase, input) {
            (PhaseView::Fetching, InputView::AddrInfo { response, .. }) => {
                &&& clock_time(now)
                &&& match decoded(response.multi_addresses) {
                    Some(addresses) => supported(addresses).len() == 0 ==> clock_time(later),
                    None => true,
                }
            },
            (PhaseView::Punching(state), InputView::Event(event)) => state.timed(event, now, later),
            _ => true,
        }
    }

    /// Whether a reading of the clock made the error.
    pub open spec fn untimed(self, input: InputView, error: ClockError) -> bool {
        match (self.phase, input) {
            (PhaseView::Punching(state), InputView::Event(event)) => {
                ||| state.untimed(event, error)
                ||| state.after_event(event, 0).1 is Some && clock_failed(error)
            },
            _ => clock_failed(error),
        }
    }

    /// The session takes an input, with the clock at `now` and, when it is read again, at `later`.
    pub open spec fn advanced(self, input: InputView, now: u64, later: u64) -> Advance {
        match (self.phase, input) {
            (PhaseView::SettingUp, InputView::SetUp { protocol_names }) => self.client.after_setup(
                protocol_names,
            ),
            (PhaseView::Registering, InputView::Registered) => Ok(self.client.after_registration()),
            (PhaseView::Fetching, InputView::AddrInfo { response, listen_addresses }) =>
                self.client.after_addr_info(response, listen_addresses, now, later),
            (PhaseView::Dialing(state), InputView::Dialed) => Ok(
                self.client.after_punch_step(HolePunchStepView::Waiting(state)),
            ),
            (PhaseView::Punching(state), InputView::Event(event)) => Ok(
                self.client.after_punch_step(state.driven(event, now, later)),
            ),
            (PhaseView::Reporting { attempted: true }, InputView::Reported) => Ok(
                (
                    SessionView { client: self.client, phase: PhaseView::Resting },
                    ActionView::Rest { secs: 1 },
                ),
            ),
            _ => Ok(self.client.next_round()),
        }
    }
}

impl Client {
    /// A client that is to work for the given number of rounds, or without end.
    pub fn new(
        peer_id: Vec<u8>,
        agent_version: String,
        api_key: String,
        rounds: Option<usize>,
    ) -> (client: Client)
        ensures
            client@ == (ClientView {
                peer_id: peer_id@,
                agent_version: agent_version@,
                api_key: api_key@,
                protocols: None,
                rounds: Rounds::planned(rounds),
            }),
    {
        Client { peer_id, agent_version, api_key, protocols: None, rounds: Rounds::new(rounds) }
    }

    /// Begins the next round, or ends the session.
    pub fn begin_round(self) -> (next: (Session, Action))
        requires
            self@.rounds.can_count(),
        ensures
            (next.0@, next.1.deep_view()) == self@.next_round(),
    {
        let mut client = self;
        if client.rounds.next() {
            let phase = Phase::SettingUp;
            (Session { client, phase }, Action::SetUp)
        } else {
            let phase = Phase::Done;
            (Session { client, phase }, Action::Finish)
        }
    }

    /// Registers with the server, the network stack being set up.
    pub fn register(self, protocol_names: Vec<Vec<u8>>) -> (next: Result<
        (Session, Action),
        FromUtf8Error,
    >)
        ensures
            match next {
                Ok((session, action)) => self@.after_setup(byte_strings(protocol_names@)) == Ok::<
                    (SessionView, ActionView),
                    Fault,
                >((session@, action.deep_view())),
                Err(_) => self@.after_setup(byte_strings(protocol_names@)) == Err::<
                    (SessionView, ActionView),
                    Fault,
                >(Fault::ProtocolName),
            },
    {
        let mut client = self;
        let protocols: Vec<String> = match client.protocols {
            Some(protocols) => protocols,
            None => match read_texts(&protocol_names) {
                Ok(protocols) => protocols,
                Err(error) => return Err(error),
            },
        };
        let request = RegisterRequest {
            client_id: copy_bytes(&client.peer_id),
            agent_version: client.agent_version.clone(),
            protocols: copy_texts(&protocols),
            api_key: client.api_key.clone(),
        };
        client.protocols = Some(protocols);
        let phase = Phase::Registering;
        Ok((Session { client, phase }, Action::Register(request)))
    }

    /// Asks the server for a remote peer.
    pub fn ask_for_remote(self) -> (next: (Session, Action))
        ensures
            (next.0@, next.1.deep_view()) == self@.after_registration(),
    {
        let client = self;
        let mut all_host_ids: Vec<Vec<u8>> = Vec::new();
        all_host_ids.push(copy_bytes(&client.peer_id));
        assert(byte_strings(all_host_ids@) =~= seq![client.peer_id@]);
        let request = GetAddrInfoRequest {
            host_id: copy_bytes(&client.peer_id),
            all_host_ids,
            api_key: client.api_key.clone(),
        };
        let phase = Phase::Fetching;
        (Session { client, phase }, Action::GetAddrInfo(request))
    }

    /// Turns to a remote peer, with the clock at `now` and, for a hole punch that is cancelled, at
    /// `cancelled_at`.
    pub fn turn_to_remote_at(
        self,
        remote_id: Vec<u8>,
        addresses: &Vec<Multiaddr>,
        listen_addresses: Vec<Vec<u8>>,
        now: u64,
        cancelled_at: u64,
    ) -> (next: (Session, Action))
        ensures
            (next.0@, next.1.deep_view()) == self@.with_remote(
                remote_id@,
                addresses.deep_view(),
                byte_strings(listen_addresses@),
                now,
                cancelled_at,
            ),
    {
        let client = self;
        let remote_addresses = without_quic(addresses);
        let none_left = remote_addresses.is_empty();
        assert(byte_strings(remote_addresses@).len() == remote_addresses@.len());
        let dialed = copy_list(&remote_addresses);
        let state = HolePunchState::new_at(
            copy_bytes(&client.peer_id),
            listen_addresses,
            copy_bytes(&remote_id),
            remote_addresses,
            client.api_key.clone(),
            now,
        );
        if none_left {
            let phase = Phase::Reporting { attempted: false };
            (Session { client, phase }, Action::TrackHolePunch(state.cancel_at(cancelled_at)))
        } else {
            let phase = Phase::Dialing(state);
            (Session { client, phase }, Action::Dial { peer_id: remote_id, addresses: dialed })
        }
    }

    /// Turns to a remote peer.
    pub fn turn_to_remote(
        self,
        remote_id: Vec<u8>,
        addresses: &Vec<Multiaddr>,
        listen_addresses: Vec<Vec<u8>>,
    ) -> (next: Result<(Session, Action), ClockError>)
        ensures
            match next {
                Ok((session, action)) => exists|now: u64, cancelled_at: u64|
                    {
                        &&& clock_time(now)
                        &&& supported(addresses.deep_view()).len() == 0 ==> clock_time(cancelled_at)
                        &&& (session@, action.deep_view()) == #[trigger] self@.with_remote(
                            remote_id@,
                            addresses.deep_view(),
                            byte_strings(listen_addresses@),
                            now,
                            cancelled_at,
                        )
                    },
                Err(error) => clock_failed(error),
            },
    {
        let now: u64 = match unix_time_now() {
            Ok(now) => now,
            Err(error) => return Err(error),
        };
        let remote_addresses = without_quic(addresses);
        assert(byte_strings(remote_addresses@).len() == remote_addresses@.len());
        let cancelled: bool = remote_addresses.is_empty();
        let cancelled_at: u64 = if cancelled {
            match unix_time_now() {
                Ok(cancelled_at) => cancelled_at,
                Err(error) => return Err(error),
            }
        } else {
            0
        };
        Ok(self.turn_to_remote_at(remote_id, addresses, listen_addresses, now, cancelled_at))
    }

    /// Goes on with a hole punch, or reports on it.
    pub fn follow_punch(self, step: HolePunchStep) -> (next: (Session, Action))
        ensures
            (next.0@, next.1.deep_view()) == self@.after_punch_step(step@),
    {
        let client = self;
        match step {
            HolePunchStep::Waiting(state) => {
                let phase = Phase::Punching(state);
                (Session { client, phase }, Action::AwaitEvent)
            },
            HolePunchStep::Finished(request) => {
                let phase = Phase::Reporting { attempted: true };
                (Session { client, phase }, Action::TrackHolePunch(request))
            },
        }
    }
}

/// Reads the peer identifier and the addresses of the remote peer that the server picked.
fn read_remote(response: &GetAddrInfoResponse) -> (remote: Result<
    (Vec<u8>, Vec<Multiaddr>),
    SessionError,
>)
    ensures
        match remote {
            Ok((remote_id, addresses)) => {
                &&& parsed_peer_id(response.remote_id@) == Some(remote_id@)
                &&& decoded(byte_strings(response.multi_addresses@)) == Some(addresses.deep_view())
            },
            Err(error) => if parsed_peer_id(response.remote_id@) is None {
                error.fault() == Some(Fault::RemoteId)
            } else {
                &&& decoded(byte_strings(response.multi_addresses@)) is None
                &&& error.fault() == Some(Fault::RemoteAddress)
            },
        },
{
    let remote_id = match decode_peer_id(&response.remote_id) {
        Ok(remote_id) => remote_id,
        Err(error) => return Err(SessionError::RemoteId(error)),
    };
    match decode_all(&response.multi_addresses) {
        Ok(addresses) => Ok((remote_id, addresses)),
        Err(error) => Err(SessionError::RemoteAddress(error)),
    }
}

impl Session {
    /// A session that has not begun.
    pub fn new(client: Client) -> (session: Session)
        ensures
            session@ == (SessionView { client: client@, phase: PhaseView::Starting }),
    {
        Session { client, phase: Phase::Starting }
    }

    /// Whether the session waits for the input.
    pub fn expects(&self, input: &Input) -> (expected: bool)
        ensures
            expected == self@.expects(input.deep_view()),
    {
        match (&self.phase, input) {
            (Phase::Starting, Input::Begin) => self.client.rounds.is_countable(),
            (Phase::SettingUp, Input::SetUp { .. }) => true,
            (Phase::Registering, Input::Registered) => true,
            (Phase::Fetching, Input::AddrInfo { .. }) => true,
            (Phase::Dialing(_), Input::Dialed) => true,
            (Phase::Punching(_), Input::Event(event)) => match event {
                SwarmEvent::Dcutr(DcutrEvent::InitiatedDirectConnectionUpgrade) => false,
                _ => true,
            },
            (Phase::Reporting { attempted }, Input::Reported) => *attempted
                || self.client.rounds.is_countable(),
            (Phase::Resting, Input::Rested) => self.client.rounds.is_countable(),
            _ => false,
        }
    }

    /// Takes an input, with the clock at `now` and, when it is read again, at `later`.
    pub fn advance_at(self, input: Input, now: u64, later: u64) -> (next: Result<
        (Session, Action),
        SessionError,
    >)
        requires
            self@.expects_at(input.deep_view(), now),
        ensures
            match next {
                Ok((session, action)) => self@.advanced(input.deep_view(), now, later) == Ok::<
                    (SessionView, ActionView),
                    Fault,
                >((session@, action.deep_view())),
                Err(error) => {
                    &&& error.fault() is Some
                    &&& self@.advanced(input.deep_view(), now, later) == Err::<
                        (SessionView, ActionView),
                        Fault,
                    >(error.fault()->0)
                },
            },
    {
        let Session { client, phase } = self;
        match (phase, input) {
            (Phase::SettingUp, Input::SetUp { protocol_names }) => match client.register(
                protocol_names,
            ) {
                Ok(next) => Ok(next),
                Err(error) => Err(SessionError::ProtocolName(error)),
            },
            (Phase::Registering, Input::Registered) => Ok(client.ask_for_remote()),
            (Phase::Fetching, Input::AddrInfo { response, listen_addresses }) =>
                match read_remote(&response) {
                    Ok((remote_id, addresses)) => Ok(
                        client.turn_to_remote_at(
                            remote_id,
                            &addresses,
                            listen_addresses,
                            now,
                            later,
                        ),
                    ),
                    Err(error) => Err(error),
                },
            (Phase::Dialing(state), Input::Dialed) => Ok(
                client.follow_punch(HolePunchStep::Waiting(state)),
            ),
            (Phase::Punching(state), Input::Event(event)) => Ok(
                client.follow_punch(state.drive_hole_punch_at(event, now, later)),
            ),
            (Phase::Reporting { attempted: true }, Input::Reported) => Ok(
                (Session { client, phase: Phase::Resting }, Action::Rest { secs: 1 }),
            ),
            _ => Ok(client.begin_round()),
        }
    }

    /// Takes an input. Fails where the input is faulty, or where a time stamp is called for and
    /// cannot be taken.
    pub fn advance(self, input: Input) -> (next: Result<(Session, Action), SessionError>)
        requires
            self@.expects(input.deep_view()),
        ensures
            match next {
                Ok((session, action)) => exists|now: u64, later: u64|
                    {
                        &&& self@.expects_at(input.deep_view(), now)
                        &&& self@.timed(input.deep_view(), now, later)
                        &&& #[trigger] self@.advanced(input.deep_view(), now, later) == Ok::<
                            (SessionView, ActionView),
                            Fault,
                        >((session@, action.deep_view()))
                    },
                Err(SessionError::Clock(error)) => {
                    &&& self@.stamps(input.deep_view())
                    &&& self@.untimed(input.deep_view(), error)
                    &&& error == ClockError::WentBackwards ==> self@.bounds_time(input.deep_view())
                    &&& self@.advanced(input.deep_view(), 0, 0) is Ok
                },
                Err(error) => self@.advanced(input.deep_view(), 0, 0) == Err::<
                    (SessionView, ActionView),
                    Fault,
                >(error.fault()->0),
            },
    {
        let ghost before = self@;
        let ghost given = input.deep_view();
        let Session { client, phase } = self;
        match (phase, input) {
            (Phase::Fetching, Input::AddrInfo { response, listen_addresses }) => {
                let (remote_id, addresses) = match read_remote(&response) {
                    Ok(remote) => remote,
                    Err(error) => return Err(error),
                };
                let ghost remote = remote_id@;
                let ghost listening = byte_strings(listen_addresses@);
                match client.turn_to_remote(remote_id, &addresses, listen_addresses) {
                    Ok(next) => {
                        proof {
                            let (now, later) = choose|now: u64, later: u64|
                                {
                                    &&& clock_time(now)
                                    &&& supported(addresses.deep_view()).len() == 0 ==> clock_time(
                                        later,
                                    )
                                    &&& (next.0@, next.1.deep_view())
                                        == #[trigger] before.client.with_remote(
                                        remote,
                                        addresses.deep_view(),
                                        listening,
                                        now,
                                        later,
                                    )
                                };
                            assert(before.advanced(given, now, later) is Ok);
                        }
                        Ok(next)
                    },
                    Err(error) => Err(SessionError::Clock(error)),
                }
            },
            (Phase::Punching(state), Input::Event(event)) => {
                let ghost reported = event.deep_view();
                let ghost punch = state@;
                match state.drive_hole_punch(event) {
                    Ok(step) => {
                        proof {
                            let (now, later) = choose|now: u64, later: u64|
                                {
                                    &&& punch.admits(reported, now)
                                    &&& punch.timed(reported, now, later)
                                    &&& step@ == #[trigger] punch.driven(reported, now, later)
                                };
                            assert(before.advanced(given, now, later) is Ok);
                        }
                        Ok(client.follow_punch(step))
                    },
                    Err(error) => Err(SessionError::Clock(error)),
                }
            },
            (phase, input) => {
                let session = Session { client, phase };
                assert(session@ == before);
                session.advance_at(input, 0, 0)
            },
        }
    }
}

} // verus!
