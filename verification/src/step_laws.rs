//! What a single step of a session does, wherever the session stands.
use crate::action::{ActionView, InputView};
use crate::event::{DcutrEvent, SwarmEventView};
use crate::event_laws::{law_driven_past_an_event, law_start_is_empty};
use crate::hole_punch::{HolePunchStepView, HolePunchView};
use crate::identity::parsed_peer_id;
use crate::message::{GetAddrInfoResponseView, HolePunchOutcome, TrackHolePunchRequestView};
use crate::multiaddr::{decoded, multiaddr_protocols, supported, MultiaddrView};
use crate::rounds::Rounds;
use crate::session::{Advance, ClientView, Fault, PhaseView, SessionError, SessionView};
use crate::session_laws::{is_quic, law_quic_is_not_dialed};
use crate::text::texts;
use vstd::prelude::*;
use vstd::utf8::{decode_utf8, valid_utf8};

verus! {

/// Whether there is a number for the next round.
pub open spec fn countable(rounds: Rounds) -> bool {
    match rounds.iterations {
        Some((begun, _)) => begun < usize::MAX,
        None => true,
    }
}

/// Whether the client begins another round, or is done: it begins one as long as fewer have begun
/// than there are, or if there is no end to them, and counts it.
pub open spec fn begins_or_ends(client: ClientView, next: Advance) -> bool {
    match next {
        Ok((after, action)) => {
            &&& match client.rounds.iterations {
                Some((begun, rounds)) => {
                    &&& if begun < rounds {
                        action == ActionView::SetUp && after.phase == PhaseView::SettingUp
                    } else {
                        action == ActionView::Finish && after.phase == PhaseView::Done
                    }
                    &&& after.client.rounds.iterations == Some(((begun + 1) as usize, rounds))
                },
                None => {
                    &&& action == ActionView::SetUp
                    &&& after.phase == PhaseView::SettingUp
                    &&& after.client.rounds.iterations is None
                },
            }
            &&& after.client == (ClientView { rounds: after.client.rounds, ..client })
        },
        Err(_) => false,
    }
}

/// A round begins, or the session is done, at the start, after a rest, and right after the report
/// on a hole punch that was not attempted.
pub proof fn law_rounds_begin(session: SessionView, input: InputView, now: u64, later: u64)
    requires
        countable(session.client.rounds),
        ({
            ||| session.phase == PhaseView::Starting && input == InputView::Begin
            ||| session.phase == PhaseView::Resting && input == InputView::Rested
            ||| session.phase == (PhaseView::Reporting { attempted: false }) && input
                == InputView::Reported
        }),
    ensures
        begins_or_ends(session.client, session.advanced(input, now, later)),
        begins_or_ends(session.client, Ok(session.client.next_round())),
{
}

/// After the report on a hole punch that was attempted, the client rests for a second.
pub proof fn law_rest_after_a_report(client: ClientView, now: u64, later: u64)
    ensures
        ({
            let session = SessionView { client, phase: PhaseView::Reporting { attempted: true } };
            match session.advanced(InputView::Reported, now, later) {
                Ok((after, action)) => {
                    &&& after.client == client
                    &&& after.phase == PhaseView::Resting
                    &&& action == (ActionView::Rest { secs: 1 })
                },
                Err(_) => false,
            }
        }),
{
}

/// Once the network stack is set up, the client registers under its own name and key. In the first
/// round it names the protocols that the stack supports, each as the text that its bytes encode,
/// and fails if one of them is no text. In all others it names those of the first.
pub proof fn law_registration(
    client: ClientView,
    protocol_names: Seq<Seq<u8>>,
    now: u64,
    later: u64,
)
    ensures
        ({
            let session = SessionView { client, phase: PhaseView::SettingUp };
            match session.advanced(InputView::SetUp { protocol_names }, now, later) {
                Ok((after, ActionView::Register(request))) => {
                    &&& request.client_id == client.peer_id
                    &&& request.agent_version == client.agent_version
                    &&& request.api_key == client.api_key
                    &&& match client.protocols {
                        Some(protocols) => request.protocols == protocols,
                        None => {
                            &&& request.protocols.len() == protocol_names.len()
                            &&& forall|i: int|
                                0 <= i < protocol_names.len() ==> {
                                    &&& valid_utf8(#[trigger] protocol_names[i])
                                    &&& request.protocols[i] == decode_utf8(protocol_names[i])
                                }
                        },
                    }
                    &&& after.client == (ClientView {
                        protocols: Some(request.protocols),
                        ..client
                    })
                    &&& after.phase == PhaseView::Registering
                },
                Ok(_) => false,
                Err(fault) => {
                    &&& fault == Fault::ProtocolName
                    &&& client.protocols is None
                    &&& exists|i: int|
                        0 <= i < protocol_names.len() && !valid_utf8(#[trigger] protocol_names[i])
                },
            }
        }),
{
    if texts(protocol_names) is Some {
        assert forall|i: int| 0 <= i < protocol_names.len() implies texts(protocol_names)->0[i]
            == decode_utf8(#[trigger] protocol_names[i]) by {}
    }
}

/// Once it is registered, the client asks for a remote peer, under its own name and key, and names
/// itself as the only host.
pub proof fn law_enquiry(client: ClientView, now: u64, later: u64)
    ensures
        ({
            let session = SessionView { client, phase: PhaseView::Registering };
            match session.advanced(InputView::Registered, now, later) {
                Ok((after, ActionView::GetAddrInfo(request))) => {
                    &&& request.host_id == client.peer_id
                    &&& request.all_host_ids.len() == 1
                    &&& request.all_host_ids[0] == client.peer_id
                    &&& request.api_key == client.api_key
                    &&& after.client == client
                    &&& after.phase == PhaseView::Fetching
                },
                _ => false,
            }
        }),
{
}

/// Whether the report, open or closed, is that of a hole punch that the client has just started: it
/// names both ends, the addresses of both and the time, and nothing has happened.
pub open spec fn fresh(
    client: ClientView,
    remote_id: Seq<u8>,
    remote_addresses: Seq<Seq<u8>>,
    listen_addresses: Seq<Seq<u8>>,
    now: u64,
    request: TrackHolePunchRequestView,
) -> bool {
    &&& request.client_id == client.peer_id
    &&& request.api_key == client.api_key
    &&& request.remote_id == remote_id
    &&& request.remote_multi_addresses == remote_addresses
    &&& request.listen_multi_addresses == listen_addresses
    &&& request.connect_started_at == now
    &&& request.open_multi_addresses.len() == 0
    &&& request.hole_punch_attempts.len() == 0
    &&& !request.has_direct_conns
}

/// Whether the client dials the remote peer under exactly the wanted addresses, having started a
/// hole punch at `now`, or, if there are none, reports that the hole punch is cancelled at
/// `cancelled_at`.
pub open spec fn dials_or_cancels(
    client: ClientView,
    remote_id: Seq<u8>,
    wanted: Seq<Seq<u8>>,
    listen_addresses: Seq<Seq<u8>>,
    now: u64,
    cancelled_at: u64,
    next: (SessionView, ActionView),
) -> bool {
    let (after, action) = next;
    &&& after.client == client
    &&& if wanted.len() > 0 {
        &&& action == (ActionView::Dial { peer_id: remote_id, addresses: wanted })
        &&& after.phase matches PhaseView::Dialing(state) && {
            &&& fresh(client, remote_id, wanted, listen_addresses, now, state.request)
            &&& state.remote_id == remote_id
            &&& state.active is None
            &&& state.request.connect_ended_at == 0
            &&& state.request.ended_at == 0
            &&& state.request.error is None
            &&& state.request.outcome == HolePunchOutcome::Unknown
        }
    } else {
        &&& after.phase == (PhaseView::Reporting { attempted: false })
        &&& action matches ActionView::TrackHolePunch(report) && {
            &&& fresh(client, remote_id, wanted, listen_addresses, now, report)
            &&& report.connect_ended_at == cancelled_at
            &&& report.ended_at == cancelled_at
            &&& report.outcome == HolePunchOutcome::Cancelled
            &&& report.error == Some("rust-lib2p doesn't support quic transport yet."@)
        }
    }
}

/// The client turns to a remote peer under those of its addresses that it supports.
pub proof fn law_turning_to_a_remote(
    client: ClientView,
    remote_id: Seq<u8>,
    addresses: Seq<MultiaddrView>,
    listen_addresses: Seq<Seq<u8>>,
    now: u64,
    cancelled_at: u64,
)
    ensures
        dials_or_cancels(
            client,
            remote_id,
            supported(addresses),
            listen_addresses,
            now,
            cancelled_at,
            client.with_remote(remote_id, addresses, listen_addresses, now, cancelled_at),
        ),
{
    law_start_is_empty(
        client.peer_id,
        listen_addresses,
        remote_id,
        supported(addresses),
        client.api_key,
        now,
    );
}

/// The client turns to the remote peer that the server picked, under those addresses that are not
/// of the QUIC transport. It fails if the peer identifier cannot be read, and else if one of the
/// addresses cannot.
pub proof fn law_remote_is_taken(
    client: ClientView,
    response: GetAddrInfoResponseView,
    listen_addresses: Seq<Seq<u8>>,
    now: u64,
    later: u64,
)
    ensures
        ({
            let session = SessionView { client, phase: PhaseView::Fetching };
            let input = InputView::AddrInfo { response, listen_addresses };
            let unreadable = exists|i: int|
                0 <= i < response.multi_addresses.len() && multiaddr_protocols(
                    #[trigger] response.multi_addresses[i],
                ) is None;
            match session.advanced(input, now, later) {
                Ok(next) => {
                    &&& parsed_peer_id(response.remote_id) is Some
                    &&& !unreadable
                    &&& dials_or_cancels(
                        client,
                        parsed_peer_id(response.remote_id)->0,
                        response.multi_addresses.filter(|bytes: Seq<u8>| !is_quic(bytes)),
                        listen_addresses,
                        now,
                        later,
                        next,
                    )
                },
                Err(fault) => if parsed_peer_id(response.remote_id) is None {
                    fault == Fault::RemoteId
                } else {
                    fault == Fault::RemoteAddress && unreadable
                },
            }
        }),
{
    if client.after_addr_info(response, listen_addresses, now, later) is Ok {
        law_quic_is_not_dialed(client, response, listen_addresses, now, later);
        law_turning_to_a_remote(
            client,
            parsed_peer_id(response.remote_id)->0,
            decoded(response.multi_addresses)->0,
            listen_addresses,
            now,
            later,
        );
    }
}

/// Once the remote peer is being dialed, the client waits for events, with the hole punch as it
/// was.
pub proof fn law_dialed(client: ClientView, state: HolePunchView, now: u64, later: u64)
    ensures
        ({
            let session = SessionView { client, phase: PhaseView::Dialing(state) };
            match session.advanced(InputView::Dialed, now, later) {
                Ok((after, action)) => {
                    &&& after.client == client
                    &&& after.phase == PhaseView::Punching(state)
                    &&& action == ActionView::AwaitEvent
                },
                Err(_) => false,
            }
        }),
{
}

/// An event either leaves the hole punch under way, and the client waits for the next one, or ends
/// it, and the client sends the report on it.
pub proof fn law_event_is_followed(
    client: ClientView,
    state: HolePunchView,
    event: SwarmEventView,
    now: u64,
    later: u64,
)
    ensures
        ({
            let session = SessionView { client, phase: PhaseView::Punching(state) };
            let (punch, flow) = state.after_event(event, now);
            match session.advanced(InputView::Event(event), now, later) {
                Ok((after, action)) => {
                    &&& after.client == client
                    &&& match flow {
                        None => {
                            &&& after.phase == PhaseView::Punching(punch)
                            &&& action == ActionView::AwaitEvent
                        },
                        Some((outcome, error)) => {
                            &&& after.phase == (PhaseView::Reporting { attempted: true })
                            &&& action == ActionView::TrackHolePunch(
                                TrackHolePunchRequestView {
                                    outcome,
                                    error,
                                    ended_at: later,
                                    ..punch.request
                                },
                            )
                        },
                    }
                },
                Err(_) => false,
            }
        }),
{
    law_driven_past_an_event(state, event, now, later);
}

/// A session waits for what comes of its last action, and for nothing else. Only two things are
/// refused of that: an upgrade that this client initiated, and another round where it cannot be
/// counted.
pub proof fn law_expected_inputs(session: SessionView, input: InputView)
    ensures
        ({
            let countable = countable(session.client.rounds);
            session.expects(input) <==> match session.phase {
                PhaseView::Starting => input is Begin && countable,
                PhaseView::SettingUp => input is SetUp,
                PhaseView::Registering => input is Registered,
                PhaseView::Fetching => input is AddrInfo,
                PhaseView::Dialing(_) => input is Dialed,
                PhaseView::Punching(_) => input is Event && input != InputView::Event(
                    SwarmEventView::Dcutr(DcutrEvent::InitiatedDirectConnectionUpgrade),
                ),
                PhaseView::Reporting { attempted } => input is Reported && (attempted || countable),
                PhaseView::Resting => input is Rested && countable,
                PhaseView::Done => false,
            }
        }),
{
}

/// An input that is expected can come in at any time, unless it ends an attempt that has not
/// started by then. It calls for a time stamp if it names a remote peer, if the event in it does,
/// or if that ends the hole punch.
pub proof fn law_inputs_and_times(session: SessionView, input: InputView, now: u64)
    ensures
        match (session.phase, input) {
            (PhaseView::Punching(state), InputView::Event(event)) => {
                &&& session.expects_at(input, now) <==> session.expects(input) && state.admits(
                    event,
                    now,
                )
                &&& session.stamps(input) <==> state.stamps(event) || state.after_event(
                    event,
                    now,
                ).1 is Some
                &&& session.bounds_time(input) <==> state.bounds_time(event)
            },
            (phase, input) => {
                &&& session.expects_at(input, now) <==> session.expects(input)
                &&& session.stamps(input) <==> phase is Fetching && input is AddrInfo
                &&& !session.bounds_time(input)
            },
        },
{
}

/// Each error of a session but that of the clock tells what was wrong with the input.
pub proof fn law_errors_tell_the_fault(error: SessionError)
    ensures
        error.fault() is None <==> error is Clock,
        error.fault() == Some(Fault::ProtocolName) <==> error is ProtocolName,
        error.fault() == Some(Fault::RemoteId) <==> error is RemoteId,
        error.fault() == Some(Fault::RemoteAddress) <==> error is RemoteAddress,
{
}

/// Rounds are counted one by one, from none to as many as there are.
pub proof fn law_rounds_are_counted(rounds: Rounds, number: usize)
    ensures
        Rounds::planned(Some(number)).iterations == Some((0usize, number)),
        Rounds::planned(None).iterations is None,
        match rounds.iterations {
            Some((begun, all)) => {
                &&& rounds.can_count() <==> countable(rounds)
                &&& rounds.has_next() <==> begun < all
                &&& countable(rounds) ==> rounds.counted().iterations == Some(
                    ((begun + 1) as usize, all),
                )
            },
            None => rounds.can_count() && rounds.has_next() && rounds.counted() == rounds,
        },
{
}

/// What the client does about a part of an input is what the session does about the input.
pub proof fn law_parts_agree(
    client: ClientView,
    protocol_names: Seq<Seq<u8>>,
    response: GetAddrInfoResponseView,
    listen_addresses: Seq<Seq<u8>>,
    state: HolePunchView,
    event: SwarmEventView,
    now: u64,
    later: u64,
)
    ensures
        client.after_setup(protocol_names) == (SessionView {
            client,
            phase: PhaseView::SettingUp,
        }).advanced(InputView::SetUp { protocol_names }, now, later),
        Ok::<(SessionView, ActionView), Fault>(client.after_registration()) == (SessionView {
            client,
            phase: PhaseView::Registering,
        }).advanced(InputView::Registered, now, later),
        client.after_addr_info(response, listen_addresses, now, later) == (SessionView {
            client,
            phase: PhaseView::Fetching,
        }).advanced(InputView::AddrInfo { response, listen_addresses }, now, later),
        Ok::<(SessionView, ActionView), Fault>(
            client.after_punch_step(state.driven(event, now, later)),
        ) == (SessionView { client, phase: PhaseView::Punching(state) }).advanced(
            InputView::Event(event),
            now,
            later,
        ),
{
}

/// The client goes on with a hole punch that waits, and sends the report on one that is over.
pub proof fn law_step_is_followed(client: ClientView, step: HolePunchStepView)
    ensures
        client.after_punch_step(step).0.client == client,
        match (step, client.after_punch_step(step)) {
            (HolePunchStepView::Waiting(state), (after, action)) => {
                &&& after.phase == PhaseView::Punching(state)
                &&& action == ActionView::AwaitEvent
            },
            (HolePunchStepView::Finished(report), (after, action)) => {
                &&& after.phase == (PhaseView::Reporting { attempted: true })
                &&& action == ActionView::TrackHolePunch(report)
            },
        },
{
}

} // verus!
