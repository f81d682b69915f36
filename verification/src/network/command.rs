//! What can be asked of the network layer.

use crate::network::peer::{Multiaddr, PeerId, PeerRelation};
use vstd::prelude::*;

verus! {

/// A command to the network layer.
#[derive(Debug, PartialEq, Eq)]
pub enum Command {
    /// Adds a peer.
    AddPeer {
        peer_id: PeerId,
        multiaddr: Multiaddr,
        /// The name of the peer; without one, the peer is named after its id.
        alias: Option<String>,
        relation: PeerRelation,
    },
    /// Bans an address.
    BanAddress { address: Multiaddr },
    /// Bans a peer.
    BanPeer { peer_id: PeerId },
    /// Changes how the node relates to a peer.
    ChangeRelation { peer_id: PeerId, to: PeerRelation },
    /// Dials an address.
    DialAddress { address: Multiaddr },
    /// Dials a peer.
    DialPeer { peer_id: PeerId },
    /// Disconnects a peer.
    DisconnectPeer { peer_id: PeerId },
    /// Removes a peer.
    RemovePeer { peer_id: PeerId },
    /// Lifts the ban of an address.
    UnbanAddress { address: Multiaddr },
    /// Lifts the ban of a peer.
    UnbanPeer { peer_id: PeerId },
}

} // verus!
