//! What the network reports while a hole punch is under way.
use crate::message::HolePunchAttemptOutcome;
use crate::multiaddr::{contains_protocol, Multiaddr, MultiaddrView};
use vstd::prelude::*;

verus! {

/// The two ends of a connection.
pub enum ConnectedPoint {
    /// This client dialed the remote peer.
    Dialer {
        /// The address that was dialed.
        address: Multiaddr,
    },
    /// The remote peer dialed this client.
    Listener {
        /// The address that the connection came in on.
        local_addr: Multiaddr,
        /// The address under which the remote peer is answered.
        send_back_addr: Multiaddr,
    },
}

/// What a `ConnectedPoint` stands for.
pub enum ConnectedPointView {
    Dialer { address: MultiaddrView },
    Listener { local_addr: MultiaddrView, send_back_addr: MultiaddrView },
}

impl DeepView for ConnectedPoint {
    type V = ConnectedPointView;

    open spec fn deep_view(&self) -> ConnectedPointView {
        match self {
            ConnectedPoint::Dialer { address } => ConnectedPointView::Dialer {
                address: address.deep_view(),
            },
            ConnectedPoint::Listener { local_addr, send_back_addr } =>
                ConnectedPointView::Listener {
                    local_addr: local_addr.deep_view(),
                    send_back_addr: send_back_addr.deep_view(),
                },
        }
    }
}

impl ConnectedPointView {
    /// The remote peer's address.
    pub open spec fn remote(self) -> MultiaddrView {
        match self {
            ConnectedPointView::Dialer { address } => address,
            ConnectedPointView::Listener { send_back_addr, .. } => send_back_addr,
        }
    }

    /// The encoding of the remote peer's address.
    pub open spec fn remote_address(self) -> Seq<u8> {
        self.remote().bytes
    }

    /// Whether the connection goes through a relay: the address that this client dialed, or was
    /// dialed on, names the relay protocol.
    pub open spec fn is_relayed(self) -> bool {
        match self {
            ConnectedPointView::Dialer { address } => address.protocols.contains("p2p-circuit"@),
            ConnectedPointView::Listener { local_addr, .. } => local_addr.protocols.contains(
                "p2p-circuit"@,
            ),
        }
    }
}

impl ConnectedPoint {
    /// The address of the remote peer.
    pub fn get_remote_address(&self) -> (address: &Multiaddr)
        ensures
            address.deep_view() == self.deep_view().remote(),
    {
        match self {
            ConnectedPoint::Dialer { address } => address,
            ConnectedPoint::Listener { send_back_addr, .. } => send_back_addr,
        }
    }

    /// Whether the connection goes through a relay.
    pub fn is_relayed(&self) -> (relayed: bool)
        ensures
            relayed == self.deep_view().is_relayed(),
            relayed == match self {
                ConnectedPoint::Dialer { address } => exists|i: int|
                    0 <= i < address.protocols@.len() && #[trigger] address.protocols@[i]@
                        == "p2p-circuit"@,
                ConnectedPoint::Listener { local_addr, .. } => exists|i: int|
                    0 <= i < local_addr.protocols@.len() && #[trigger] local_addr.protocols@[i]@
                        == "p2p-circuit"@,
            },
    {
        match self {
            ConnectedPoint::Dialer { address } => contains_protocol(
                &address.protocols,
                "p2p-circuit",
            ),
            ConnectedPoint::Listener { local_addr, .. } => contains_protocol(
                &local_addr.protocols,
                "p2p-circuit",
            ),
        }
    }
}

/// Why the stream for a direct connection upgrade could not be opened.
#[derive(Clone, Copy, Debug, PartialEq, Eq, Structural)]
pub enum HandlerUpgradeError {
    /// It took too long.
    Timeout,
    /// The timer failed.
    Timer,
    /// The protocol could not be agreed upon, or failed.
    Upgrade,
}

/// Why a direct connection upgrade failed.
#[derive(Clone, Copy, Debug, PartialEq, Eq, Structural)]
pub enum UpgradeError {
    /// The remote peer could not be dialed.
    Dial,
    /// The stream for the upgrade could not be opened.
    Handler(HandlerUpgradeError),
}

impl UpgradeError {
    /// The outcome of an attempt that failed for this reason, and the reason in words.
    pub open spec fn attempt_failure(self) -> (HolePunchAttemptOutcome, Seq<char>) {
        match self {
            UpgradeError::Dial => (
                HolePunchAttemptOutcome::Failed,
                "failed to establish a direct connection"@,
            ),
            UpgradeError::Handler(HandlerUpgradeError::Timeout) => (
                HolePunchAttemptOutcome::Timeout,
                "hole-punch timed out"@,
            ),
            UpgradeError::Handler(HandlerUpgradeError::Timer) => (
                HolePunchAttemptOutcome::Timeout,
                "timer error"@,
            ),
            UpgradeError::Handler(HandlerUpgradeError::Upgrade) => (
                HolePunchAttemptOutcome::ProtocolError,
                "protocol error"@,
            ),
        }
    }

    /// Tells the outcome of an attempt that failed for this reason.
    pub fn to_attempt_failure(self) -> (failure: (HolePunchAttemptOutcome, String))
        ensures
            (failure.0, failure.1@) == self.attempt_failure(),
    {
        match self {
            UpgradeError::Dial => (
                HolePunchAttemptOutcome::Failed,
                "failed to establish a direct connection".to_owned(),
            ),
            UpgradeError::Handler(HandlerUpgradeError::Timeout) => (
                HolePunchAttemptOutcome::Timeout,
                "hole-punch timed out".to_owned(),
            ),
            UpgradeError::Handler(HandlerUpgradeError::Timer) => (
                HolePunchAttemptOutcome::Timeout,
                "timer error".to_owned(),
            ),
            UpgradeError::Handler(HandlerUpgradeError::Upgrade) => (
                HolePunchAttemptOutcome::ProtocolError,
                "protocol error".to_owned(),
            ),
        }
    }
}

/// What the direct connection upgrade protocol reports.
#[derive(Clone, Copy, Debug, PartialEq, Eq, Structural)]
pub enum DcutrEvent {
    /// This client asked for an upgrade. A client that only dials through relays never does.
    InitiatedDirectConnectionUpgrade,
    /// The remote peer asked for an upgrade.
    RemoteInitiatedDirectConnectionUpgrade,
    /// There is a direct connection.
    DirectConnectionUpgradeSucceeded,
    /// All attempts are spent, and there is no direct connection.
    DirectConnectionUpgradeFailed { error: UpgradeError },
}

/// What the network reports.
#[allow(inconsistent_fields)]
pub enum SwarmEvent {
    /// Something happened to a direct connection upgrade.
    Dcutr(DcutrEvent),
    /// There is a new connection.
    ConnectionEstablished {
        peer_id: Vec<u8>,
        endpoint: ConnectedPoint,
        /// How many connections there are to the peer now.
        num_established: u32,
    },
    /// An address could not be dialed.
    OutgoingConnectionError {
        /// The peer that was dialed, where it is known.
        peer_id: Option<Vec<u8>>,
        /// Whether there is another connection to that peer.
        is_connected: bool,
    },
    /// A connection is gone.
    ConnectionClosed {
        peer_id: Vec<u8>,
        endpoint: ConnectedPoint,
        /// How many connections to the peer are left.
        num_established: u32,
    },
    /// Anything else.
    Other,
}

/// What a `SwarmEvent` stands for.
#[allow(inconsistent_fields)]
pub enum SwarmEventView {
    Dcutr(DcutrEvent),
    ConnectionEstablished { peer_id: Seq<u8>, endpoint: ConnectedPointView, num_established: u32 },
    OutgoingConnectionError { peer_id: Option<Seq<u8>>, is_connected: bool },
    ConnectionClosed { peer_id: Seq<u8>, endpoint: ConnectedPointView, num_established: u32 },
    Other,
}

impl DeepView for SwarmEvent {
    type V = SwarmEventView;

    open spec fn deep_view(&self) -> SwarmEventView {
        match self {
            SwarmEvent::Dcutr(event) => SwarmEventView::Dcutr(*event),
            SwarmEvent::ConnectionEstablished { peer_id, endpoint, num_established } =>
                SwarmEventView::ConnectionEstablished {
                    peer_id: peer_id@,
                    endpoint: endpoint.deep_view(),
                    num_established: *num_established,
                },
            SwarmEvent::OutgoingConnectionError { peer_id, is_connected } =>
                SwarmEventView::OutgoingConnectionError {
                    peer_id: match peer_id {
                        Some(peer_id) => Some(peer_id@),
                        None => None,
                    },
                    is_connected: *is_connected,
                },
            SwarmEvent::ConnectionClosed { peer_id, endpoint, num_established } =>
                SwarmEventView::ConnectionClosed {
                    peer_id: peer_id@,
                    endpoint: endpoint.deep_view(),
                    num_established: *num_established,
                },
            SwarmEvent::Other => SwarmEventView::Other,
        }
    }
}

} // verus!
