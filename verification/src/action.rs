//! What a session asks for, and what it is told.
use crate::bytes::byte_strings;
use crate::event::{SwarmEvent, SwarmEventView};
use crate::message::{
    GetAddrInfoRequest, GetAddrInfoRequestView, GetAddrInfoResponse, GetAddrInfoResponseView,
    RegisterRequest, RegisterRequestView, TrackHolePunchRequest, TrackHolePunchRequestView,
};
use vstd::prelude::*;

verus! {

/// What is to be done.
pub enum Action {
    /// Set up the network stack, and find out which protocols it supports.
    SetUp,
    /// Register with the server.
    Register(RegisterRequest),
    /// Ask the server for a remote peer.
    GetAddrInfo(GetAddrInfoRequest),
    /// Dial the remote peer.
    Dial {
        peer_id: Vec<u8>,
        addresses: Vec<Vec<u8>>,
    },
    /// Wait for the network to report something.
    AwaitEvent,
    /// Report to the server.
    TrackHolePunch(TrackHolePunchRequest),
    /// Do nothing for that many seconds.
    Rest {
        secs: u64,
    },
    /// All rounds are done.
    Finish,
}

/// What an `Action` stands for.
pub enum ActionView {
    SetUp,
    Register(RegisterRequestView),
    GetAddrInfo(GetAddrInfoRequestView),
    Dial { peer_id: Seq<u8>, addresses: Seq<Seq<u8>> },
    AwaitEvent,
    TrackHolePunch(TrackHolePunchRequestView),
    Rest { secs: u64 },
    Finish,
}

impl DeepView for Action {
    type V = ActionView;

    open spec fn deep_view(&self) -> ActionView {
        match self {
            Action::SetUp => ActionView::SetUp,
            Action::Register(request) => ActionView::Register(request.deep_view()),
            Action::GetAddrInfo(request) => ActionView::GetAddrInfo(request.deep_view()),
            Action::Dial { peer_id, addresses } => ActionView::Dial {
                peer_id: peer_id@,
                addresses: byte_strings(addresses@),
            },
            Action::AwaitEvent => ActionView::AwaitEvent,
            Action::TrackHolePunch(request) => ActionView::TrackHolePunch(request.deep_view()),
            Action::Rest { secs } => ActionView::Rest { secs: *secs },
            Action::Finish => ActionView::Finish,
        }
    }
}

/// What came of an action.
pub enum Input {
    /// The session begins.
    Begin,
    /// The network stack is set up.
    SetUp {
        /// The names of the protocols that it supports.
        protocol_names: Vec<Vec<u8>>,
    },
    /// The server knows the client.
    Registered,
    /// The server picked a remote peer.
    AddrInfo {
        response: GetAddrInfoResponse,
        /// The addresses on which the client listens.
        listen_addresses: Vec<Vec<u8>>,
    },
    /// The remote peer is being dialed.
    Dialed,
    /// The network reports something.
    Event(SwarmEvent),
    /// The server took the report.
    Reported,
    /// The rest is over.
    Rested,
}

/// What an `Input` stands for.
pub enum InputView {
    Begin,
    SetUp { protocol_names: Seq<Seq<u8>> },
    Registered,
    AddrInfo { response: GetAddrInfoResponseView, listen_addresses: Seq<Seq<u8>> },
    Dialed,
    Event(SwarmEventView),
    Reported,
    Rested,
}

impl DeepView for Input {
    type V = InputView;

    open spec fn deep_view(&self) -> InputView {
        match self {
            Input::Begin => InputView::Begin,
            Input::SetUp { protocol_names } => InputView::SetUp {
                protocol_names: byte_strings(protocol_names@),
            },
            Input::Registered => InputView::Registered,
            Input::AddrInfo { response, listen_addresses } => InputView::AddrInfo {
                response: response.deep_view(),
                listen_addresses: byte_strings(listen_addresses@),
            },
            Input::Dialed => InputView::Dialed,
            Input::Event(event) => InputView::Event(event.deep_view()),
            Input::Reported => InputView::Reported,
            Input::Rested => InputView::Rested,
        }
    }
}

} // verus!
