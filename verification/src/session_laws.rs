//! What holds of every session.
use crate::action::{ActionView, InputView};
use crate::event::SwarmEventView;
use crate::hole_punch::{HolePunchStepView, HolePunchView};
use crate::hole_punch_laws::{complete_attempt, in_order, law_event_keeps_order, same_subject};
use crate::identity::parsed_peer_id;
use crate::message::{GetAddrInfoResponseView, HolePunchOutcome, TrackHolePunchRequestView};
use crate::multiaddr::{decoded, multiaddr_protocols, supported, MultiaddrView};
use crate::rounds::Rounds;
use crate::session::{ClientView, PhaseView, SessionView};
use vstd::prelude::*;

verus! {

/// An input, and what the clock shows when it is read, and when it is read again.
pub type Step = (InputView, u64, u64);

/// Where a session stands after the given steps, and what it asked for on the way, or `None` where
/// one of the inputs is not what it waited for, or is faulty.
pub open spec fn history(session: SessionView, steps: Seq<Step>) -> Option<
    (SessionView, Seq<ActionView>),
>
    decreases steps.len(),
{
    if steps.len() == 0 {
        Some((session, Seq::empty()))
    } else {
        match history(session, steps.drop_last()) {
            None => None,
            Some((before, actions)) => {
                let (input, now, later) = steps.last();
                if before.expects_at(input, now) {
                    match before.advanced(input, now, later) {
                        Ok((after, action)) => Some((after, actions.push(action))),
                        Err(_) => None,
                    }
                } else {
                    None
                }
            },
        }
    }
}

/// Whether the report on a hole punch that was attempted is complete.
pub open spec fn complete_report(report: TrackHolePunchRequestView) -> bool {
    &&& report.outcome == HolePunchOutcome::NoConnection || report.outcome
        == HolePunchOutcome::ConnectionReversed || report.outcome == HolePunchOutcome::Failed
        || report.outcome == HolePunchOutcome::Success
    &&& report.error is None <==> report.outcome == HolePunchOutcome::ConnectionReversed
        || report.outcome == HolePunchOutcome::Success
    &&& forall|i: int|
        0 <= i < report.hole_punch_attempts.len() ==> complete_attempt(
            #[trigger] report.hole_punch_attempts[i],
        )
}

/// Whether a session may ask for the second thing right after the first.
pub open spec fn may_follow(first: ActionView, second: ActionView) -> bool {
    match first {
        ActionView::SetUp => second is Register,
        ActionView::Register(_) => second is GetAddrInfo,
        ActionView::GetAddrInfo(_) => second is Dial || (second matches ActionView::TrackHolePunch(
            report,
        ) && report.outcome == HolePunchOutcome::Cancelled),
        ActionView::Dial { .. } => second is AwaitEvent,
        ActionView::AwaitEvent => second is AwaitEvent || (
        second matches ActionView::TrackHolePunch(report) && complete_report(report)),
        ActionView::TrackHolePunch(report) => if report.outcome == HolePunchOutcome::Cancelled {
            second is SetUp || second is Finish
        } else {
            second == (ActionView::Rest { secs: 1 })
        },
        ActionView::Rest { .. } => second is SetUp || second is Finish,
        ActionView::Finish => false,
    }
}

/// Whether a request names the client and carries its key.
pub open spec fn speaks_for(client: ClientView, action: ActionView) -> bool {
    match action {
        ActionView::Register(request) => {
            &&& request.client_id == client.peer_id
            &&& request.agent_version == client.agent_version
            &&& request.api_key == client.api_key
            &&& client.protocols == Some(request.protocols)
        },
        ActionView::GetAddrInfo(request) => {
            &&& request.host_id == client.peer_id
            &&& request.all_host_ids == seq![client.peer_id]
            &&& request.api_key == client.api_key
        },
        ActionView::TrackHolePunch(report) => {
            &&& report.client_id == client.peer_id
            &&& report.api_key == client.api_key
        },
        _ => true,
    }
}

/// Whether a hole punch is in order and is one of the given client.
pub open spec fn punch_of(client: ClientView, state: HolePunchView) -> bool {
    &&& in_order(state)
    &&& state.request.client_id == client.peer_id
    &&& state.request.api_key == client.api_key
}

/// What the last action has to do with where the session stands.
spec fn stands_at(session: SessionView, actions: Seq<ActionView>) -> bool {
    match session.phase {
        PhaseView::Starting => actions.len() == 0,
        PhaseView::SettingUp => actions.len() > 0 && actions.last() is SetUp,
        PhaseView::Registering => actions.len() > 0 && actions.last() is Register,
        PhaseView::Fetching => actions.len() > 0 && actions.last() is GetAddrInfo,
        PhaseView::Dialing(state) => {
            &&& actions.len() > 0
            &&& actions.last() is Dial
            &&& punch_of(session.client, state)
        },
        PhaseView::Punching(state) => {
            &&& actions.len() > 0
            &&& actions.last() is AwaitEvent
            &&& punch_of(session.client, state)
        },
        PhaseView::Reporting { attempted } => {
            &&& actions.len() > 0
            &&& actions.last() matches ActionView::TrackHolePunch(report) && attempted == (
            report.outcome != HolePunchOutcome::Cancelled)
        },
        PhaseView::Resting => actions.len() > 0 && actions.last() is Rest,
        PhaseView::Done => actions.len() > 0 && actions.last() is Finish,
    }
}

/// A step of a hole punch keeps it in order, or ends it with a complete report.
proof fn lemma_driven(state: HolePunchView, event: SwarmEventView, now: u64, later: u64)
    requires
        in_order(state),
        state.admits(event, now),
    ensures
        match state.driven(event, now, later) {
            HolePunchStepView::Waiting(after) => in_order(after) && same_subject(
                state.request,
                after.request,
            ),
            HolePunchStepView::Finished(report) => complete_report(report) && same_subject(
                state.request,
                report,
            ),
        },
{
    law_event_keeps_order(state, event, now);
    let (after, flow) = state.after_event(event, now);
    let before_attempts = state.request.hole_punch_attempts;
    let attempts = after.request.hole_punch_attempts;
    if attempts != before_attempts {
        assert forall|i: int| 0 <= i < before_attempts.len() implies attempts[i]
            == before_attempts[i] by {
            assert(attempts.drop_last()[i] == attempts[i]);
        }
    }
}

/// A session asks for one thing after the other: it sets up, registers and asks for a remote peer
/// in every round, and then either reports that the hole punch is cancelled or dials, waits until
/// the hole punch is over, sends a complete report and rests. After that it sets up again or
/// finishes. The client stays who it is, and all its requests speak for it: they carry its peer
/// identifier and its key, and all registrations name the same protocols.
pub proof fn law_actions_follow_one_another(session: SessionView, steps: Seq<Step>)
    requires
        session.phase == PhaseView::Starting,
        session.client.protocols is None,
        history(session, steps) is Some,
    ensures
        match history(session, steps) {
            Some((after, actions)) => {
                &&& actions.len() == steps.len()
                &&& actions.len() > 0 ==> actions[0] is SetUp || actions[0] is Finish
                &&& forall|i: int, j: int|
                    0 <= i && j == i + 1 && j < actions.len() ==> may_follow(
                        #[trigger] actions[i],
                        #[trigger] actions[j],
                    )
                &&& after.client.peer_id == session.client.peer_id
                &&& after.client.agent_version == session.client.agent_version
                &&& after.client.api_key == session.client.api_key
                &&& forall|i: int|
                    0 <= i < actions.len() ==> speaks_for(after.client, #[trigger] actions[i])
            },
            None => false,
        },
{
    lemma_history(session, steps);
}

proof fn lemma_history(session: SessionView, steps: Seq<Step>)
    requires
        session.phase == PhaseView::Starting,
        session.client.protocols is None,
        history(session, steps) is Some,
    ensures
        match history(session, steps) {
            Some((after, actions)) => {
                &&& stands_at(after, actions)
                &&& actions.len() == steps.len()
                &&& actions.len() > 0 ==> actions[0] is SetUp || actions[0] is Finish
                &&& forall|i: int, j: int|
                    0 <= i && j == i + 1 && j < actions.len() ==> may_follow(
                        #[trigger] actions[i],
                        #[trigger] actions[j],
                    )
                &&& after.client.peer_id == session.client.peer_id
                &&& after.client.agent_version == session.client.agent_version
                &&& after.client.api_key == session.client.api_key
                &&& after.client.protocols is None ==> forall|i: int|
                    0 <= i < actions.len() ==> !(#[trigger] actions[i] is Register)
                &&& forall|i: int|
                    0 <= i < actions.len() ==> speaks_for(after.client, #[trigger] actions[i])
            },
            None => false,
        },
    decreases steps.len(),
{
    if steps.len() > 0 {
        lemma_history(session, steps.drop_last());
        let (before, past) = history(session, steps.drop_last())->0;
        let (input, now, later) = steps.last();
        let (after, actions) = history(session, steps)->0;
        match (before.phase, input) {
            (PhaseView::Punching(state), InputView::Event(event)) => {
                lemma_driven(state, event, now, later);
            },
            _ => {},
        }
        assert(actions.drop_last() =~= past);
        assert forall|i: int| 0 <= i < past.len() implies actions[i] == past[i] by {}
        assert(may_follow_last(past, actions));
        assert forall|i: int| 0 <= i < actions.len() implies speaks_for(
            after.client,
            #[trigger] actions[i],
        ) by {
            if i < past.len() {
                assert(speaks_for(before.client, past[i]));
            }
        }
    }
}

spec fn may_follow_last(past: Seq<ActionView>, actions: Seq<ActionView>) -> bool {
    past.len() > 0 ==> may_follow(past.last(), actions.last())
}

/// How many of the actions are of the kind that `kind` tells.
pub open spec fn count(actions: Seq<ActionView>, kind: spec_fn(ActionView) -> bool) -> int
    decreases actions.len(),
{
    if actions.len() == 0 {
        0
    } else {
        count(actions.drop_last(), kind) + if kind(actions.last()) {
            1int
        } else {
            0int
        }
    }
}

/// How often the network stack was set up.
pub open spec fn setups(actions: Seq<ActionView>) -> int {
    count(actions, |action: ActionView| action is SetUp)
}

/// How often the client registered.
pub open spec fn registrations(actions: Seq<ActionView>) -> int {
    count(actions, |action: ActionView| action is Register)
}

/// How often the client asked for a remote peer.
pub open spec fn enquiries(actions: Seq<ActionView>) -> int {
    count(actions, |action: ActionView| action is GetAddrInfo)
}

/// How often the client reported on a hole punch.
pub open spec fn reports(actions: Seq<ActionView>) -> int {
    count(actions, |action: ActionView| action is TrackHolePunch)
}

/// A session of a given number of rounds begins no more than that. When it is done, it has set up,
/// registered, asked for a remote peer and reported exactly once in each of them, whatever became
/// of the hole punches. At no time is there a report without its round, and at most the current
/// round is without its report.
pub proof fn law_every_round_is_reported_once(
    session: SessionView,
    rounds: usize,
    steps: Seq<Step>,
)
    requires
        session.phase == PhaseView::Starting,
        session.client.rounds == Rounds::planned(Some(rounds)),
        history(session, steps) is Some,
    ensures
        match history(session, steps) {
            Some((after, actions)) => {
                &&& setups(actions) <= rounds
                &&& setups(actions) - 1 <= reports(actions) <= setups(actions)
                &&& after.phase == PhaseView::Done ==> {
                    &&& setups(actions) == rounds
                    &&& registrations(actions) == rounds
                    &&& enquiries(actions) == rounds
                    &&& reports(actions) == rounds
                }
            },
            None => false,
        },
{
    lemma_counts(session, rounds, steps);
}

/// Whether the current round has begun and not been reported.
spec fn round_is_open(phase: PhaseView) -> bool {
    match phase {
        PhaseView::SettingUp => true,
        PhaseView::Registering => true,
        PhaseView::Fetching => true,
        PhaseView::Dialing(_) => true,
        PhaseView::Punching(_) => true,
        _ => false,
    }
}

proof fn lemma_counts(session: SessionView, rounds: usize, steps: Seq<Step>)
    requires
        session.phase == PhaseView::Starting,
        session.client.rounds == Rounds::planned(Some(rounds)),
        history(session, steps) is Some,
    ensures
        match history(session, steps) {
            Some((after, actions)) => {
                let begun = setups(actions);
                &&& after.client.rounds.iterations == Some(
                    (
                        if after.phase == PhaseView::Done {
                            (begun + 1) as usize
                        } else {
                            begun as usize
                        },
                        rounds,
                    ),
                )
                &&& 0 <= begun <= rounds
                &&& after.phase == PhaseView::Done ==> begun == rounds
                &&& after.phase == PhaseView::Starting ==> begun == 0
                &&& registrations(actions) == begun - if after.phase == PhaseView::SettingUp {
                    1int
                } else {
                    0int
                }
                &&& enquiries(actions) == begun - if after.phase == PhaseView::SettingUp
                    || after.phase == PhaseView::Registering {
                    1int
                } else {
                    0int
                }
                &&& reports(actions) == begun - if round_is_open(after.phase) {
                    1int
                } else {
                    0int
                }
            },
            None => false,
        },
    decreases steps.len(),
{
    if steps.len() > 0 {
        lemma_counts(session, rounds, steps.drop_last());
        let (before, past) = history(session, steps.drop_last())->0;
        let (after, actions) = history(session, steps)->0;
        assert(actions.drop_last() =~= past);
    }
}

/// A session of rounds without end is never done.
pub proof fn law_endless_session_goes_on(session: SessionView, steps: Seq<Step>)
    requires
        session.phase == PhaseView::Starting,
        session.client.rounds == Rounds::planned(None),
        history(session, steps) is Some,
    ensures
        match history(session, steps) {
            Some((after, _)) => {
                &&& after.client.rounds == Rounds::planned(None)
                &&& after.phase != PhaseView::Done
            },
            None => false,
        },
    decreases steps.len(),
{
    if steps.len() > 0 {
        law_endless_session_goes_on(session, steps.drop_last());
    }
}

/// Whether the encoding is one of an address of the QUIC transport.
pub open spec fn is_quic(encoding: Seq<u8>) -> bool {
    multiaddr_protocols(encoding) matches Some(protocols) && protocols.contains("quic"@)
}

/// The addresses that are left when those of the QUIC transport are gone, read off their encodings.
proof fn lemma_supported(encodings: Seq<Seq<u8>>)
    requires
        decoded(encodings) is Some,
    ensures
        supported(decoded(encodings)->0) == encodings.filter(|bytes: Seq<u8>| !is_quic(bytes)),
    decreases encodings.len(),
{
    reveal(Seq::filter);
    let addresses = decoded(encodings)->0;
    if encodings.len() == 0 {
        assert(supported(addresses) =~= encodings);
    } else {
        let rest = encodings.drop_last();
        assert forall|i: int| 0 <= i < rest.len() implies multiaddr_protocols(
            #[trigger] rest[i],
        ) is Some by {
            assert(rest[i] == encodings[i]);
        }
        assert(decoded(rest)->0 =~= addresses.drop_last());
        lemma_supported(rest);
        assert(encodings[encodings.len() - 1] == encodings.last());
        let kept = addresses.drop_last().filter(|address: MultiaddrView| !address.uses_quic());
        let read = |address: MultiaddrView| address.bytes;
        assert(kept.push(addresses.last()).map_values(read) =~= kept.map_values(read).push(
            addresses.last().bytes,
        ));
    }
}

/// The client dials exactly those addresses that the server named and that are not of the QUIC
/// transport, in their order. If there are none, it does not dial, and the hole punch is cancelled.
pub proof fn law_quic_is_not_dialed(
    client: ClientView,
    response: GetAddrInfoResponseView,
    listen_addresses: Seq<Seq<u8>>,
    now: u64,
    later: u64,
)
    requires
        client.after_addr_info(response, listen_addresses, now, later) is Ok,
    ensures
        ({
            let wanted = response.multi_addresses.filter(|bytes: Seq<u8>| !is_quic(bytes));
            match client.after_addr_info(response, listen_addresses, now, later) {
                Ok((after, ActionView::Dial { peer_id, addresses })) => {
                    &&& parsed_peer_id(response.remote_id) == Some(peer_id)
                    &&& addresses == wanted
                    &&& addresses.len() > 0
                    &&& after.phase matches PhaseView::Dialing(state)
                        && state.request.remote_multi_addresses == wanted
                },
                Ok((after, ActionView::TrackHolePunch(report))) => {
                    &&& wanted.len() == 0
                    &&& report.outcome == HolePunchOutcome::Cancelled
                    &&& report.remote_multi_addresses == wanted
                },
                _ => false,
            }
        }),
{
    lemma_supported(response.multi_addresses);
}

} // verus!
