//! The messages that are exchanged with the server.
use crate::bytes::byte_strings;
use vstd::prelude::*;

verus! {

/// How a whole hole punch ended.
#[derive(Clone, Copy, Debug, PartialEq, Eq, Structural)]
pub enum HolePunchOutcome {
    /// It has not ended.
    Unknown,
    /// The remote peer could not be reached, not even through a relay.
    NoConnection,
    /// The remote peer dialed back before a hole punch was needed.
    ConnectionReversed,
    /// It was not attempted.
    Cancelled,
    /// No direct connection came about.
    Failed,
    /// A direct connection came about.
    Success,
}

/// How a single attempt of a hole punch ended.
#[derive(Clone, Copy, Debug, PartialEq, Eq, Structural)]
pub enum HolePunchAttemptOutcome {
    ProtocolError,
    Timeout,
    Failed,
    Success,
}

/// A finished attempt. Times are nanoseconds since the Unix epoch.
pub struct HolePunchAttempt {
    /// When the connection to the remote peer was established.
    pub opened_at: u64,
    /// When the remote peer initiated the attempt.
    pub started_at: Option<u64>,
    /// When the attempt ended.
    pub ended_at: u64,
    /// The round trip time at the start, in nanoseconds.
    pub start_rtt: Option<u64>,
    /// The nanoseconds between start and end.
    pub elapsed_time: u64,
    pub outcome: HolePunchAttemptOutcome,
    pub error: Option<String>,
    pub direct_dial_error: Option<String>,
}

/// What a `HolePunchAttempt` stands for.
pub struct HolePunchAttemptView {
    pub opened_at: u64,
    pub started_at: Option<u64>,
    pub ended_at: u64,
    pub start_rtt: Option<u64>,
    pub elapsed_time: u64,
    pub outcome: HolePunchAttemptOutcome,
    pub error: Option<Seq<char>>,
    pub direct_dial_error: Option<Seq<char>>,
}

impl DeepView for HolePunchAttempt {
    type V = HolePunchAttemptView;

    open spec fn deep_view(&self) -> HolePunchAttemptView {
        HolePunchAttemptView {
            opened_at: self.opened_at,
            started_at: self.started_at,
            ended_at: self.ended_at,
            start_rtt: self.start_rtt,
            elapsed_time: self.elapsed_time,
            outcome: self.outcome,
            error: self.error.deep_view(),
            direct_dial_error: self.direct_dial_error.deep_view(),
        }
    }
}

/// The report on a hole punch. Times are nanoseconds since the Unix epoch.
pub struct TrackHolePunchRequest {
    /// The peer identifier of this client.
    pub client_id: Vec<u8>,
    /// The peer identifier of the remote peer.
    pub remote_id: Vec<u8>,
    /// The addresses under which the remote peer is dialed.
    pub remote_multi_addresses: Vec<Vec<u8>>,
    /// The remote addresses of the connections that are open.
    pub open_multi_addresses: Vec<Vec<u8>>,
    /// Whether a connection came about that does not go through a relay.
    pub has_direct_conns: bool,
    pub connect_started_at: u64,
    pub connect_ended_at: u64,
    pub hole_punch_attempts: Vec<HolePunchAttempt>,
    pub error: Option<String>,
    pub outcome: HolePunchOutcome,
    pub ended_at: u64,
    /// The addresses on which this client listens.
    pub listen_multi_addresses: Vec<Vec<u8>>,
    /// The key that the server knows this client by.
    pub api_key: String,
}

/// What a `TrackHolePunchRequest` stands for.
pub struct TrackHolePunchRequestView {
    pub client_id: Seq<u8>,
    pub remote_id: Seq<u8>,
    pub remote_multi_addresses: Seq<Seq<u8>>,
    pub open_multi_addresses: Seq<Seq<u8>>,
    pub has_direct_conns: bool,
    pub connect_started_at: u64,
    pub connect_ended_at: u64,
    pub hole_punch_attempts: Seq<HolePunchAttemptView>,
    pub error: Option<Seq<char>>,
    pub outcome: HolePunchOutcome,
    pub ended_at: u64,
    pub listen_multi_addresses: Seq<Seq<u8>>,
    pub api_key: Seq<char>,
}

impl DeepView for TrackHolePunchRequest {
    type V = TrackHolePunchRequestView;

    open spec fn deep_view(&self) -> TrackHolePunchRequestView {
        TrackHolePunchRequestView {
            client_id: self.client_id@,
            remote_id: self.remote_id@,
            remote_multi_addresses: byte_strings(self.remote_multi_addresses@),
            open_multi_addresses: byte_strings(self.open_multi_addresses@),
            has_direct_conns: self.has_direct_conns,
            connect_started_at: self.connect_started_at,
            connect_ended_at: self.connect_ended_at,
            hole_punch_attempts: self.hole_punch_attempts.deep_view(),
            error: self.error.deep_view(),
            outcome: self.outcome,
            ended_at: self.ended_at,
            listen_multi_addresses: byte_strings(self.listen_multi_addresses@),
            api_key: self.api_key@,
        }
    }
}

/// Announces this client to the server.
pub struct RegisterRequest {
    pub client_id: Vec<u8>,
    pub agent_version: String,
    /// The names of the protocols that this client supports.
    pub protocols: Vec<String>,
    pub api_key: String,
}

/// What a `RegisterRequest` stands for.
pub struct RegisterRequestView {
    pub client_id: Seq<u8>,
    pub agent_version: Seq<char>,
    pub protocols: Seq<Seq<char>>,
    pub api_key: Seq<char>,
}

impl DeepView for RegisterRequest {
    type V = RegisterRequestView;

    open spec fn deep_view(&self) -> RegisterRequestView {
        RegisterRequestView {
            client_id: self.client_id@,
            agent_version: self.agent_version@,
            protocols: self.protocols.deep_view(),
            api_key: self.api_key@,
        }
    }
}

/// Asks the server for a remote peer.
pub struct GetAddrInfoRequest {
    pub host_id: Vec<u8>,
    pub all_host_ids: Vec<Vec<u8>>,
    pub api_key: String,
}

/// What a `GetAddrInfoRequest` stands for.
pub struct GetAddrInfoRequestView {
    pub host_id: Seq<u8>,
    pub all_host_ids: Seq<Seq<u8>>,
    pub api_key: Seq<char>,
}

impl DeepView for GetAddrInfoRequest {
    type V = GetAddrInfoRequestView;

    open spec fn deep_view(&self) -> GetAddrInfoRequestView {
        GetAddrInfoRequestView {
            host_id: self.host_id@,
            all_host_ids: byte_strings(self.all_host_ids@),
            api_key: self.api_key@,
        }
    }
}

/// The remote peer that the server picked.
pub struct GetAddrInfoResponse {
    pub remote_id: Vec<u8>,
    pub multi_addresses: Vec<Vec<u8>>,
}

/// What a `GetAddrInfoResponse` stands for.
pub struct GetAddrInfoResponseView {
    pub remote_id: Seq<u8>,
    pub multi_addresses: Seq<Seq<u8>>,
}

impl DeepView for GetAddrInfoResponse {
    type V = GetAddrInfoResponseView;

    open spec fn deep_view(&self) -> GetAddrInfoResponseView {
        GetAddrInfoResponseView {
            remote_id: self.remote_id@,
            multi_addresses: byte_strings(self.multi_addresses@),
        }
    }
}

} // verus!
