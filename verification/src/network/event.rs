//! What happens in the network layer.
//!
//! `S` is the type of the channel ends through which messages are sent to a
//! peer, `R` that of the ends at which messages from a peer arrive.

use crate::network::command::Command;
use crate::network::peer::{Multiaddr, PeerError, PeerId, PeerInfo};
use vstd::prelude::*;

verus! {

/// What the users of the network layer are told.
#[derive(Debug)]
pub enum Event<S, R> {
    /// An address was banned.
    AddressBanned { address: Multiaddr },
    /// The node listens on an address.
    AddressBound { address: Multiaddr },
    /// The ban of an address was lifted.
    AddressUnbanned { address: Multiaddr },
    /// A command could not be carried out.
    CommandFailed { command: Command, reason: PeerError },
    /// A peer was added.
    PeerAdded { peer_id: PeerId, info: PeerInfo },
    /// A peer was banned.
    PeerBanned { peer_id: PeerId },
    /// A peer was connected.
    PeerConnected { peer_id: PeerId, info: PeerInfo, gossip_in: R, gossip_out: S },
    /// A peer was disconnected.
    PeerDisconnected { peer_id: PeerId },
    /// A peer was removed.
    PeerRemoved { peer_id: PeerId },
    /// The ban of a peer was lifted.
    PeerUnbanned { peer_id: PeerId },
}

/// Which side of a connection asked for it.
#[derive(Clone, Copy, Debug, PartialEq, Eq, Structural)]
pub enum Origin {
    /// The peer did.
    Inbound,
    /// The node did.
    Outbound,
}

/// What is known of a connection.
#[derive(Clone, Copy, Debug, PartialEq, Eq, Structural)]
pub struct ConnectionInfo {
    pub origin: Origin,
}

/// What the parts of the network layer tell each other.
#[derive(Debug)]
pub enum InternalEvent<S, R> {
    /// The node listens on an address.
    AddressBound { address: Multiaddr },
    /// The gossip protocol with a peer came to its end.
    ProtocolDropped { peer_id: PeerId },
    /// The gossip protocol with a peer was set up.
    ProtocolEstablished {
        peer_id: PeerId,
        peer_addr: Multiaddr,
        conn_info: ConnectionInfo,
        gossip_in: R,
        gossip_out: S,
    },
}

} // verus!
