//! Peers: what identifies them, what is known of them, and how they are
//! connected.

use vstd::prelude::*;

verus! {

/// The identity of a peer.
///
/// Two ids are those of the same peer if their texts are equal. The alias goes
/// with the text: whoever makes an id derives the alias from it, so that the ids
/// of one peer have one alias.
#[derive(Debug, PartialEq, Eq)]
pub struct PeerId {
    /// The id in its textual form.
    pub text: String,
    /// A short form of the id, for people to read.
    pub alias: String,
}

impl View for PeerId {
    type V = Seq<char>;

    open spec fn view(&self) -> Seq<char> {
        self.text@
    }
}

impl Clone for PeerId {
    fn clone(&self) -> (id: Self)
        ensures
            id == *self,
    {
        PeerId { text: self.text.clone(), alias: self.alias.clone() }
    }
}

/// A network address, in its textual form.
#[derive(Debug, PartialEq, Eq)]
pub struct Multiaddr {
    /// The address in its textual form.
    pub text: String,
}

impl View for Multiaddr {
    type V = Seq<char>;

    open spec fn view(&self) -> Seq<char> {
        self.text@
    }
}

impl Clone for Multiaddr {
    fn clone(&self) -> (address: Self)
        ensures
            address == *self,
    {
        Multiaddr { text: self.text.clone() }
    }
}

/// How a node relates to a peer.
#[derive(Clone, Copy, Debug, PartialEq, Eq, Structural)]
pub enum PeerRelation {
    /// The peer was added on purpose; the node keeps connected to it.
    Known,
    /// The peer connected by itself; the node forgets it once it is gone.
    Unknown,
}

impl PeerRelation {
    /// Whether the peer is known.
    pub fn is_known(&self) -> (known: bool)
        ensures
            known == (*self == PeerRelation::Known),
    {
        matches!(self, PeerRelation::Known)
    }

    /// Whether the peer is unknown.
    pub fn is_unknown(&self) -> (unknown: bool)
        ensures
            unknown == (*self == PeerRelation::Unknown),
    {
        matches!(self, PeerRelation::Unknown)
    }
}

/// What a node knows of a peer.
#[derive(Debug, PartialEq, Eq)]
pub struct PeerInfo {
    /// Where the peer can be reached.
    pub address: Multiaddr,
    /// The name that the operator of the node gave to the peer.
    pub alias: String,
    /// How the node relates to the peer.
    pub relation: PeerRelation,
}

impl Clone for PeerInfo {
    fn clone(&self) -> (info: Self)
        ensures
            info == *self,
    {
        PeerInfo {
            address: self.address.clone(),
            alias: self.alias.clone(),
            relation: self.relation,
        }
    }
}

/// Whether a peer is connected, and if so through which channel messages are
/// sent to it.
#[derive(Debug)]
pub enum PeerState<S> {
    /// There is no connection to the peer.
    Disconnected,
    /// The peer is connected; messages to it go through this sender.
    Connected(S),
}

impl<S> PeerState<S> {
    /// Whether there is no connection to the peer.
    pub fn is_disconnected(&self) -> (disconnected: bool)
        ensures
            disconnected == (self is Disconnected),
    {
        matches!(self, PeerState::Disconnected)
    }

    /// Notes that the peer is connected through `sender`.
    pub fn set_connected(&mut self, sender: S)
        ensures
            *final(self) == PeerState::Connected(sender),
    {
        *self = PeerState::Connected(sender);
    }

    /// Notes that the peer is not connected, and hands out the sender through
    /// which it was connected until now.
    pub fn set_disconnected(&mut self) -> (sender: Option<S>)
        ensures
            *final(self) == PeerState::<S>::Disconnected,
            sender == old(self).sender(),
            *old(self) is Disconnected ==> sender is None,
            *old(self) matches PeerState::Connected(connected) ==> sender == Some(connected),
    {
        let mut before: PeerState<S> = PeerState::Disconnected;
        core::mem::swap(self, &mut before);
        match before {
            PeerState::Disconnected => None,
            PeerState::Connected(sender) => Some(sender),
        }
    }

    /// The sender through which the peer is connected, if it is.
    pub open spec fn sender(self) -> Option<S> {
        match self {
            PeerState::Disconnected => None,
            PeerState::Connected(sender) => Some(sender),
        }
    }
}

/// Why an operation on the peers of a node is refused.
#[derive(Debug, PartialEq, Eq)]
pub enum PeerError {
    /// The peer is already among the peers of the node.
    PeerIsDuplicate(PeerId),
    /// The peer is not among the peers of the node.
    PeerNotPresent(PeerId),
    /// The peer is already banned.
    PeerAlreadyBanned(PeerId),
    /// The peer is not banned.
    PeerNotBanned(PeerId),
    /// The address is already banned.
    AddressAlreadyBanned(Multiaddr),
    /// The address is not banned.
    AddressNotBanned(Multiaddr),
    /// The rules of the node do not admit the peer, for the reason given.
    NotAdmitted(String),
}

impl Clone for PeerError {
    fn clone(&self) -> (error: Self)
        ensures
            error == *self,
    {
        match self {
            PeerError::PeerIsDuplicate(id) => PeerError::PeerIsDuplicate(id.clone()),
            PeerError::PeerNotPresent(id) => PeerError::PeerNotPresent(id.clone()),
            PeerError::PeerAlreadyBanned(id) => PeerError::PeerAlreadyBanned(id.clone()),
            PeerError::PeerNotBanned(id) => PeerError::PeerNotBanned(id.clone()),
            PeerError::AddressAlreadyBanned(address) => PeerError::AddressAlreadyBanned(
                address.clone(),
            ),
            PeerError::AddressNotBanned(address) => PeerError::AddressNotBanned(address.clone()),
            PeerError::NotAdmitted(reason) => PeerError::NotAdmitted(reason.clone()),
        }
    }
}

/// A peer is told by the text of its id alone, and an address by its text.
pub proof fn law_ids_and_addresses_are_their_texts(peer_id: PeerId, address: Multiaddr)
    ensures
        peer_id@ == peer_id.text@,
        address@ == address.text@,
{
}

/// A state has a sender if and only if it is a connected one, and then it is the
/// one through which the peer is connected.
pub proof fn law_connected_states_have_senders<S>(state: PeerState<S>, sender: S)
    ensures
        state.sender() is None <==> state is Disconnected,
        state.sender() == Some(sender) <==> state == PeerState::Connected(sender),
{
}

} // verus!
