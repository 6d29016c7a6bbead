//! What the values of this library stand for: what they hold, no more and no less.
use crate::action::{Action, ActionView, Input, InputView};
use crate::event::{ConnectedPoint, ConnectedPointView, SwarmEvent, SwarmEventView};
use crate::hole_punch::{HolePunchStep, HolePunchStepView};
use crate::message::{
    GetAddrInfoRequest, GetAddrInfoResponse, HolePunchAttempt, RegisterRequest,
    TrackHolePunchRequest,
};
use crate::multiaddr::Multiaddr;
use vstd::prelude::*;

verus! {

/// Whether a list of byte strings holds the given ones, one by one.
pub open spec fn holds(list: Vec<Vec<u8>>, contents: Seq<Seq<u8>>) -> bool {
    &&& list@.len() == contents.len()
    &&& forall|i: int| 0 <= i < contents.len() ==> list@[i]@ == #[trigger] contents[i]
}

/// Whether two texts are both there and equal, or both absent.
pub open spec fn same_text(text: Option<String>, contents: Option<Seq<char>>) -> bool {
    match (text, contents) {
        (Some(text), Some(contents)) => text@ == contents,
        (None, None) => true,
        _ => false,
    }
}

/// An attempt stands for all that it tells.
pub proof fn law_attempt_stands_for_its_fields(attempt: HolePunchAttempt)
    ensures
        ({
            let view = attempt.deep_view();
            &&& view.opened_at == attempt.opened_at
            &&& view.started_at == attempt.started_at
            &&& view.ended_at == attempt.ended_at
            &&& view.start_rtt == attempt.start_rtt
            &&& view.elapsed_time == attempt.elapsed_time
            &&& view.outcome == attempt.outcome
            &&& same_text(attempt.error, view.error)
            &&& same_text(attempt.direct_dial_error, view.direct_dial_error)
        }),
{
}

/// A report stands for all that it tells.
pub proof fn law_report_stands_for_its_fields(request: TrackHolePunchRequest)
    ensures
        ({
            let view = request.deep_view();
            &&& view.client_id == request.client_id@
            &&& view.remote_id == request.remote_id@
            &&& holds(request.remote_multi_addresses, view.remote_multi_addresses)
            &&& holds(request.open_multi_addresses, view.open_multi_addresses)
            &&& holds(request.listen_multi_addresses, view.listen_multi_addresses)
            &&& view.has_direct_conns == request.has_direct_conns
            &&& view.connect_started_at == request.connect_started_at
            &&& view.connect_ended_at == request.connect_ended_at
            &&& view.ended_at == request.ended_at
            &&& view.outcome == request.outcome
            &&& same_text(request.error, view.error)
            &&& view.api_key == request.api_key@
            &&& view.hole_punch_attempts.len() == request.hole_punch_attempts@.len()
            &&& forall|i: int|
                0 <= i < view.hole_punch_attempts.len() ==> #[trigger] view.hole_punch_attempts[i]
                    == request.hole_punch_attempts@[i].deep_view()
        }),
{
}

/// A registration stands for all that it tells.
pub proof fn law_registration_stands_for_its_fields(request: RegisterRequest)
    ensures
        ({
            let view = request.deep_view();
            &&& view.client_id == request.client_id@
            &&& view.agent_version == request.agent_version@
            &&& view.api_key == request.api_key@
            &&& view.protocols.len() == request.protocols@.len()
            &&& forall|i: int|
                0 <= i < view.protocols.len() ==> #[trigger] view.protocols[i]
                    == request.protocols@[i]@
        }),
{
}

/// What is asked of the server, and what it answers, stand for all that they tell.
pub proof fn law_enquiry_stands_for_its_fields(
    request: GetAddrInfoRequest,
    response: GetAddrInfoResponse,
)
    ensures
        request.deep_view().host_id == request.host_id@,
        holds(request.all_host_ids, request.deep_view().all_host_ids),
        request.deep_view().api_key == request.api_key@,
        response.deep_view().remote_id == response.remote_id@,
        holds(response.multi_addresses, response.deep_view().multi_addresses),
{
}

/// An address stands for its encoding and its protocols.
pub proof fn law_address_stands_for_its_fields(address: Multiaddr)
    ensures
        address.deep_view().bytes == address.bytes@,
        address.deep_view().protocols.len() == address.protocols@.len(),
        forall|i: int|
            0 <= i < address.protocols@.len() ==> #[trigger] address.deep_view().protocols[i]
                == address.protocols@[i]@,
{
}

/// The ends of a connection stand for themselves, and for who dialed.
pub proof fn law_connection_stands_for_its_ends(point: ConnectedPoint)
    ensures
        match (point, point.deep_view()) {
            (ConnectedPoint::Dialer { address }, ConnectedPointView::Dialer { address: view }) =>
                view == address.deep_view(),
            (
                ConnectedPoint::Listener { local_addr, send_back_addr },
                ConnectedPointView::Listener { local_addr: local, send_back_addr: far },
            ) => local == local_addr.deep_view() && far == send_back_addr.deep_view(),
            _ => false,
        },
{
}

/// An event stands for all that it reports.
pub proof fn law_event_stands_for_its_fields(event: SwarmEvent)
    ensures
        match (event, event.deep_view()) {
            (SwarmEvent::Dcutr(event), SwarmEventView::Dcutr(view)) => view == event,
            (
                SwarmEvent::ConnectionEstablished { peer_id, endpoint, num_established },
                SwarmEventView::ConnectionEstablished {
                    peer_id: peer,
                    endpoint: point,
                    num_established: number,
                },
            ) => peer == peer_id@ && point == endpoint.deep_view() && number == num_established,
            (
                SwarmEvent::OutgoingConnectionError { peer_id, is_connected },
                SwarmEventView::OutgoingConnectionError { peer_id: peer, is_connected: connected },
            ) => {
                &&& connected == is_connected
                &&& match (peer_id, peer) {
                    (Some(peer_id), Some(peer)) => peer == peer_id@,
                    (None, None) => true,
                    _ => false,
                }
            },
            (
                SwarmEvent::ConnectionClosed { peer_id, endpoint, num_established },
                SwarmEventView::ConnectionClosed {
                    peer_id: peer,
                    endpoint: point,
                    num_established: number,
                },
            ) => peer == peer_id@ && point == endpoint.deep_view() && number == num_established,
            (SwarmEvent::Other, SwarmEventView::Other) => true,
            _ => false,
        },
{
}

/// An action stands for all that it asks for.
pub proof fn law_action_stands_for_its_fields(action: Action)
    ensures
        match (action, action.deep_view()) {
            (Action::SetUp, ActionView::SetUp) => true,
            (Action::Register(request), ActionView::Register(view)) => view == request.deep_view(),
            (Action::GetAddrInfo(request), ActionView::GetAddrInfo(view)) => view
                == request.deep_view(),
            (
                Action::Dial { peer_id, addresses },
                ActionView::Dial { peer_id: peer, addresses: encodings },
            ) => peer == peer_id@ && holds(addresses, encodings),
            (Action::AwaitEvent, ActionView::AwaitEvent) => true,
            (Action::TrackHolePunch(request), ActionView::TrackHolePunch(view)) => view
                == request.deep_view(),
            (Action::Rest { secs }, ActionView::Rest { secs: view }) => view == secs,
            (Action::Finish, ActionView::Finish) => true,
            _ => false,
        },
{
}

/// An input stands for all that it tells.
pub proof fn law_input_stands_for_its_fields(input: Input)
    ensures
        match (input, input.deep_view()) {
            (Input::Begin, InputView::Begin) => true,
            (Input::SetUp { protocol_names }, InputView::SetUp { protocol_names: names }) => holds(
                protocol_names,
                names,
            ),
            (Input::Registered, InputView::Registered) => true,
            (
                Input::AddrInfo { response, listen_addresses },
                InputView::AddrInfo { response: view, listen_addresses: addresses },
            ) => view == response.deep_view() && holds(listen_addresses, addresses),
            (Input::Dialed, InputView::Dialed) => true,
            (Input::Event(event), InputView::Event(view)) => view == event.deep_view(),
            (Input::Reported, InputView::Reported) => true,
            (Input::Rested, InputView::Rested) => true,
            _ => false,
        },
{
}

/// A step of a hole punch stands for the state it leads to, or for the report.
pub proof fn law_step_stands_for_its_contents(step: HolePunchStep)
    ensures
        match (step, step@) {
            (HolePunchStep::Waiting(state), HolePunchStepView::Waiting(view)) => view == state@,
            (HolePunchStep::Finished(request), HolePunchStepView::Finished(view)) => view
                == request.deep_view(),
            _ => false,
        },
{
}

} // verus!
