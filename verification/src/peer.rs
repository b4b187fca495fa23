//! Peers and the state of their connection.

use vstd::prelude::*;

verus! {

/// The name of a peer.
#[derive(Clone, Copy, Debug, PartialEq, Eq, Structural)]
pub struct PeerId(pub u128);

/// Whether a peer can be reached.
#[derive(Clone, Copy, Debug, PartialEq, Eq, Structural)]
pub enum PeerState {
    Connected,
    Disconnected,
}

/// A peer and its state: a row of the peer registry, or the news that a peer
/// has entered that state.
#[derive(Clone, Copy, Debug, PartialEq, Eq, Structural)]
pub struct Peer {
    pub id: PeerId,
    pub state: PeerState,
}

/// Whether a peer is marked as connected.
pub open spec fn is_connected(peer: Peer) -> bool {
    peer.state == PeerState::Connected
}

} // verus!
