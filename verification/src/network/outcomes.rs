//! What each command and each event comes to, told by the list of peers before
//! and after, the messages that are to be sent, and the result.
//!
//! The laws on the handling of a command or an event as a whole hold where
//! nothing else changes the list of peers in the meantime; those on a single
//! step hold of every list.

use crate::network::command::Command;
use crate::network::event::Event;
use crate::network::host::{
    add_turn, command_turn, disconnect_turn, remove_turn, resume_turn, Error, Message, MessageView,
    Rest, Step, StepView, Todo,
};
use crate::network::list::{Peer, PeerListView};
use crate::network::peer::{Multiaddr, PeerError, PeerId, PeerInfo, PeerRelation, PeerState};
use crate::network::run::{command_run, dropped_run, established_run, run_from};
use vstd::prelude::*;

verus! {

/// A peer that is not listed, and that the rules of the node refuse, is not
/// added, whatever is banned: the list stays as it was, nothing but the failure
/// of the command is announced, and the handling fails for the reason given. A
/// peer that is refused as a duplicate, though it is not listed, is reported as
/// missing.
pub proof fn law_outcome_of_adding_a_refused_peer<S, R>(
    list: PeerListView<S>,
    peer_id: PeerId,
    multiaddr: Multiaddr,
    alias: Option<String>,
    relation: PeerRelation,
    reason: PeerError,
    sendable: spec_fn(nat) -> bool,
)
    requires
        !list.peers.contains_key(peer_id@),
    ensures
        ({
            let run = command_run::<S, R>(
                list,
                Command::AddPeer { peer_id, multiaddr, alias, relation },
                Err(reason),
                sendable,
            );
            let name = if alias is Some {
                alias->0
            } else {
                peer_id.alias
            };
            let told = if reason is PeerIsDuplicate {
                PeerError::PeerNotPresent(peer_id)
            } else {
                reason
            };
            let command = Command::AddPeer { peer_id, multiaddr, alias: Some(name), relation };
            &&& run.list == list
            &&& run.messages == seq![
                MessageView::<S, R>::Event(Event::CommandFailed { command, reason: told }),
            ]
            &&& run.result == Err::<(), Error>(
                if sendable(0) {
                    Error::Peer(told)
                } else {
                    Error::SendingEventFailed
                },
            )
        }),
{
    reveal_with_fuel(run_from, 3);
}

/// A peer that is not listed, and that the rules of the node admit, is added,
/// whatever is banned: it is listed under its id, with the address and the
/// relation that were given, under the name that was given or that it has from
/// its id, and is not connected. That is announced, and then a known peer is
/// dialed.
pub proof fn law_outcome_of_adding_an_admitted_peer<S, R>(
    list: PeerListView<S>,
    peer_id: PeerId,
    multiaddr: Multiaddr,
    alias: Option<String>,
    relation: PeerRelation,
    sendable: spec_fn(nat) -> bool,
)
    requires
        !list.peers.contains_key(peer_id@),
    ensures
        ({
            let run = command_run::<S, R>(
                list,
                Command::AddPeer { peer_id, multiaddr, alias, relation },
                Ok(()),
                sendable,
            );
            let name = if alias is Some {
                alias->0
            } else {
                peer_id.alias
            };
            let info = PeerInfo { address: multiaddr, alias: name, relation };
            let added = MessageView::<S, R>::Event(Event::PeerAdded { peer_id, info });
            let dial = MessageView::<S, R>::Command(Command::DialPeer { peer_id });
            &&& run.list.peers == list.peers.insert(
                peer_id@,
                Peer { id: peer_id, info, state: PeerState::Disconnected },
            )
            &&& run.list.banned_peers == list.banned_peers
            &&& run.list.banned_addresses == list.banned_addresses
            &&& sendable(0) && relation == PeerRelation::Known ==> {
                &&& run.messages == seq![added, dial]
                &&& run.result == if sendable(1) {
                    Ok::<(), Error>(())
                } else {
                    Err(Error::SendingCommandFailed)
                }
            }
            &&& sendable(0) && relation == PeerRelation::Unknown ==> {
                &&& run.messages == seq![added]
                &&& run.result == Ok::<(), Error>(())
            }
            &&& !sendable(0) ==> {
                &&& run.messages == seq![added]
                &&& run.result == Err::<(), Error>(Error::SendingEventFailed)
            }
        }),
{
    reveal_with_fuel(run_from, 4);
}

/// Adding a peer that is listed already replaces what is known of it, whatever
/// the rules of the node say and whatever is banned: it keeps its id and its
/// state. That is announced, and then a known peer is dialed.
pub proof fn law_outcome_of_adding_a_listed_peer<S, R>(
    list: PeerListView<S>,
    peer_id: PeerId,
    multiaddr: Multiaddr,
    alias: Option<String>,
    relation: PeerRelation,
    admission: Result<(), PeerError>,
    sendable: spec_fn(nat) -> bool,
)
    requires
        list.peers.contains_key(peer_id@),
    ensures
        ({
            let run = command_run::<S, R>(
                list,
                Command::AddPeer { peer_id, multiaddr, alias, relation },
                admission,
                sendable,
            );
            let name = if alias is Some {
                alias->0
            } else {
                peer_id.alias
            };
            let info = PeerInfo { address: multiaddr, alias: name, relation };
            let before = list.peers[peer_id@];
            let added = MessageView::<S, R>::Event(Event::PeerAdded { peer_id, info });
            let dial = MessageView::<S, R>::Command(Command::DialPeer { peer_id });
            &&& run.list.peers == list.peers.insert(
                peer_id@,
                Peer { id: before.id, info, state: before.state },
            )
            &&& run.list.banned_peers == list.banned_peers
            &&& run.list.banned_addresses == list.banned_addresses
            &&& sendable(0) && relation == PeerRelation::Known ==> {
                &&& run.messages == seq![added, dial]
                &&& run.result == if sendable(1) {
                    Ok::<(), Error>(())
                } else {
                    Err(Error::SendingCommandFailed)
                }
            }
            &&& sendable(0) && relation == PeerRelation::Unknown ==> {
                &&& run.messages == seq![added]
                &&& run.result == Ok::<(), Error>(())
            }
            &&& !sendable(0) ==> {
                &&& run.messages == seq![added]
                &&& run.result == Err::<(), Error>(Error::SendingEventFailed)
            }
        }),
{
    reveal_with_fuel(run_from, 4);
}

/// Banning a peer that is not banned bans it, listed or not, and announces just
/// that. One that is banned cannot be banned: nothing changes and nothing is
/// sent.
pub proof fn law_outcome_of_banning_a_peer<S, R>(
    list: PeerListView<S>,
    peer_id: PeerId,
    admission: Result<(), PeerError>,
    sendable: spec_fn(nat) -> bool,
)
    ensures
        ({
            let run = command_run::<S, R>(list, Command::BanPeer { peer_id }, admission, sendable);
            &&& run.list.peers == list.peers
            &&& run.list.banned_peers == list.banned_peers.insert(peer_id@)
            &&& run.list.banned_addresses == list.banned_addresses
            &&& !list.banned_peers.contains(peer_id@) ==> {
                &&& run.messages == seq![MessageView::<S, R>::Event(Event::PeerBanned { peer_id })]
                &&& run.result == if sendable(0) {
                    Ok::<(), Error>(())
                } else {
                    Err(Error::SendingEventFailed)
                }
            }
            &&& list.banned_peers.contains(peer_id@) ==> {
                &&& run.messages == Seq::<MessageView<S, R>>::empty()
                &&& run.result == Err::<(), Error>(
                    Error::Peer(PeerError::PeerAlreadyBanned(peer_id)),
                )
            }
        }),
{
    reveal_with_fuel(run_from, 3);
}

/// Lifting the ban of a banned peer lifts it, whether the peer is listed or not,
/// and announces just that. Where there is no ban, nothing changes and nothing is
/// sent.
pub proof fn law_outcome_of_unbanning_a_peer<S, R>(
    list: PeerListView<S>,
    peer_id: PeerId,
    admission: Result<(), PeerError>,
    sendable: spec_fn(nat) -> bool,
)
    ensures
        ({
            let run = command_run::<S, R>(
                list,
                Command::UnbanPeer { peer_id },
                admission,
                sendable,
            );
            &&& run.list.peers == list.peers
            &&& run.list.banned_peers == list.banned_peers.remove(peer_id@)
            &&& run.list.banned_addresses == list.banned_addresses
            &&& list.banned_peers.contains(peer_id@) ==> {
                &&& run.messages == seq![
                    MessageView::<S, R>::Event(Event::PeerUnbanned { peer_id }),
                ]
                &&& run.result == if sendable(0) {
                    Ok::<(), Error>(())
                } else {
                    Err(Error::SendingEventFailed)
                }
            }
            &&& !list.banned_peers.contains(peer_id@) ==> {
                &&& run.messages == Seq::<MessageView<S, R>>::empty()
                &&& run.result == Err::<(), Error>(Error::Peer(PeerError::PeerNotBanned(peer_id)))
            }
        }),
{
    reveal_with_fuel(run_from, 3);
}

/// Banning an address that is not banned bans it, and announces just that. One
/// that is banned cannot be banned: nothing changes and nothing is sent.
pub proof fn law_outcome_of_banning_an_address<S, R>(
    list: PeerListView<S>,
    address: Multiaddr,
    admission: Result<(), PeerError>,
    sendable: spec_fn(nat) -> bool,
)
    ensures
        ({
            let run = command_run::<S, R>(
                list,
                Command::BanAddress { address },
                admission,
                sendable,
            );
            &&& run.list.peers == list.peers
            &&& run.list.banned_peers == list.banned_peers
            &&& run.list.banned_addresses == list.banned_addresses.insert(address@)
            &&& !list.banned_addresses.contains(address@) ==> {
                &&& run.messages == seq![
                    MessageView::<S, R>::Event(Event::AddressBanned { address }),
                ]
                &&& run.result == if sendable(0) {
                    Ok::<(), Error>(())
                } else {
                    Err(Error::SendingEventFailed)
                }
            }
            &&& list.banned_addresses.contains(address@) ==> {
                &&& run.messages == Seq::<MessageView<S, R>>::empty()
                &&& run.result == Err::<(), Error>(
                    Error::Peer(PeerError::AddressAlreadyBanned(address)),
                )
            }
        }),
{
    reveal_with_fuel(run_from, 3);
}

/// Lifting the ban of a banned address lifts it, and announces just that. Where
/// there is no ban, nothing changes and nothing is sent.
pub proof fn law_outcome_of_unbanning_an_address<S, R>(
    list: PeerListView<S>,
    address: Multiaddr,
    admission: Result<(), PeerError>,
    sendable: spec_fn(nat) -> bool,
)
    ensures
        ({
            let run = command_run::<S, R>(
                list,
                Command::UnbanAddress { address },
                admission,
                sendable,
            );
            &&& run.list.peers == list.peers
            &&& run.list.banned_peers == list.banned_peers
            &&& run.list.banned_addresses == list.banned_addresses.remove(address@)
            &&& list.banned_addresses.contains(address@) ==> {
                &&& run.messages == seq![
                    MessageView::<S, R>::Event(Event::AddressUnbanned { address }),
                ]
                &&& run.result == if sendable(0) {
                    Ok::<(), Error>(())
                } else {
                    Err(Error::SendingEventFailed)
                }
            }
            &&& !list.banned_addresses.contains(address@) ==> {
                &&& run.messages == Seq::<MessageView<S, R>>::empty()
                &&& run.result == Err::<(), Error>(
                    Error::Peer(PeerError::AddressNotBanned(address)),
                )
            }
        }),
{
    reveal_with_fuel(run_from, 3);
}

/// Changing the relation to a listed peer leaves the peer listed with the new
/// relation and with the id, the address, the name and the state that it had.
/// Nothing else changes, and nothing is sent. Where the peer is not listed,
/// nothing changes at all, and the handling fails.
pub proof fn law_outcome_of_changing_a_relation<S, R>(
    list: PeerListView<S>,
    peer_id: PeerId,
    to: PeerRelation,
    admission: Result<(), PeerError>,
    sendable: spec_fn(nat) -> bool,
)
    ensures
        ({
            let run = command_run::<S, R>(
                list,
                Command::ChangeRelation { peer_id, to },
                admission,
                sendable,
            );
            &&& run.messages == Seq::<MessageView<S, R>>::empty()
            &&& list.peers.contains_key(peer_id@) ==> {
                let before = list.peers[peer_id@];
                let after = run.list.peers[peer_id@];
                &&& run.list.peers.contains_key(peer_id@)
                &&& after.info.relation == to
                &&& after.info.address == before.info.address
                &&& after.info.alias == before.info.alias
                &&& after.id == before.id
                &&& after.state == before.state
                &&& run.list.peers.remove(peer_id@) == list.peers.remove(peer_id@)
                &&& run.list.banned_peers == list.banned_peers
                &&& run.list.banned_addresses == list.banned_addresses
                &&& run.result == Ok::<(), Error>(())
            }
            &&& !list.peers.contains_key(peer_id@) ==> {
                &&& run.list == list
                &&& run.result == Err::<(), Error>(Error::Peer(PeerError::PeerNotPresent(peer_id)))
            }
        }),
{
}

/// Dialing a peer or an address changes nothing on the list; just the command is
/// passed on.
pub proof fn law_outcome_of_dialing<S, R>(
    list: PeerListView<S>,
    peer_id: PeerId,
    address: Multiaddr,
    admission: Result<(), PeerError>,
    sendable: spec_fn(nat) -> bool,
)
    ensures
        ({
            let peer = Command::DialPeer { peer_id };
            let at = Command::DialAddress { address };
            let dialed_peer = command_run::<S, R>(list, peer, admission, sendable);
            let dialed_address = command_run::<S, R>(list, at, admission, sendable);
            let result = if sendable(0) {
                Ok::<(), Error>(())
            } else {
                Err(Error::SendingCommandFailed)
            };
            &&& dialed_peer.list == list
            &&& dialed_peer.messages == seq![MessageView::<S, R>::Command(peer)]
            &&& dialed_peer.result == result
            &&& dialed_address.list == list
            &&& dialed_address.messages == seq![MessageView::<S, R>::Command(at)]
            &&& dialed_address.result == result
        }),
{
    reveal_with_fuel(run_from, 3);
}

/// Disconnecting a connected peer notes it as disconnected and leaves all else
/// as it was. That is announced, and then an empty message goes out through the
/// sender that the peer was connected with; whether that one can be sent makes
/// no difference.
pub proof fn law_outcome_of_disconnecting_a_connected_peer<S, R>(
    list: PeerListView<S>,
    peer_id: PeerId,
    sender: S,
    admission: Result<(), PeerError>,
    sendable: spec_fn(nat) -> bool,
)
    requires
        list.peers.contains_key(peer_id@),
        list.peers[peer_id@].state == PeerState::Connected(sender),
    ensures
        ({
            let run = command_run::<S, R>(
                list,
                Command::DisconnectPeer { peer_id },
                admission,
                sendable,
            );
            let before = list.peers[peer_id@];
            let told = MessageView::<S, R>::Event(Event::PeerDisconnected { peer_id });
            let signal = MessageView::<S, R>::Shutdown { sender, signal: Seq::empty() };
            &&& run.list.peers == list.peers.insert(
                peer_id@,
                Peer { id: before.id, info: before.info, state: PeerState::Disconnected },
            )
            &&& run.list.banned_peers == list.banned_peers
            &&& run.list.banned_addresses == list.banned_addresses
            &&& sendable(0) ==> {
                &&& run.messages == seq![told, signal]
                &&& run.result == Ok::<(), Error>(())
            }
            &&& !sendable(0) ==> {
                &&& run.messages == seq![told]
                &&& run.result == Err::<(), Error>(Error::SendingEventFailed)
            }
        }),
{
    reveal_with_fuel(run_from, 4);
}

/// Disconnecting a peer that is not connected changes nothing: for a listed peer
/// nothing is sent and the handling succeeds, for one that is not listed the
/// failure of the command is announced.
pub proof fn law_outcome_of_disconnecting_other_peers<S, R>(
    list: PeerListView<S>,
    peer_id: PeerId,
    admission: Result<(), PeerError>,
    sendable: spec_fn(nat) -> bool,
)
    requires
        list.peers.contains_key(peer_id@) ==> list.peers[peer_id@].state is Disconnected,
    ensures
        ({
            let command = Command::DisconnectPeer { peer_id };
            let run = command_run::<S, R>(list, command, admission, sendable);
            let reason = PeerError::PeerNotPresent(peer_id);
            &&& run.list == list
            &&& list.peers.contains_key(peer_id@) ==> {
                &&& run.messages == Seq::<MessageView<S, R>>::empty()
                &&& run.result == Ok::<(), Error>(())
            }
            &&& !list.peers.contains_key(peer_id@) ==> {
                &&& run.messages == seq![
                    MessageView::<S, R>::Event(Event::CommandFailed { command, reason }),
                ]
                &&& run.result == Err::<(), Error>(
                    if sendable(0) {
                        Error::Peer(reason)
                    } else {
                        Error::SendingEventFailed
                    },
                )
            }
        }),
{
    reveal_with_fuel(run_from, 3);
}

/// Removing a connected peer disconnects it, and takes it off the list once that
/// could be announced. Between the two announcements an empty message goes out
/// through the sender that the peer was connected with; whether that one can be
/// sent makes no difference.
pub proof fn law_outcome_of_removing_a_connected_peer<S, R>(
    list: PeerListView<S>,
    peer_id: PeerId,
    sender: S,
    admission: Result<(), PeerError>,
    sendable: spec_fn(nat) -> bool,
)
    requires
        list.peers.contains_key(peer_id@),
        list.peers[peer_id@].state == PeerState::Connected(sender),
    ensures
        ({
            let run = command_run::<S, R>(
                list,
                Command::RemovePeer { peer_id },
                admission,
                sendable,
            );
            let before = list.peers[peer_id@];
            let told = MessageView::<S, R>::Event(Event::PeerDisconnected { peer_id });
            let signal = MessageView::<S, R>::Shutdown { sender, signal: Seq::empty() };
            let removed = MessageView::<S, R>::Event(Event::PeerRemoved { peer_id });
            &&& run.list.banned_peers == list.banned_peers
            &&& run.list.banned_addresses == list.banned_addresses
            &&& sendable(0) ==> {
                &&& run.list.peers == list.peers.remove(peer_id@)
                &&& run.messages == seq![told, signal, removed]
                &&& run.result == if sendable(2) {
                    Ok::<(), Error>(())
                } else {
                    Err(Error::SendingEventFailed)
                }
            }
            &&& !sendable(0) ==> {
                &&& run.list.peers == list.peers.insert(
                    peer_id@,
                    Peer { id: before.id, info: before.info, state: PeerState::Disconnected },
                )
                &&& run.messages == seq![told]
                &&& run.result == Err::<(), Error>(Error::SendingEventFailed)
            }
        }),
{
    reveal_with_fuel(run_from, 5);
}

/// Removing a listed peer that is not connected takes it off the list and
/// announces just that. Where the peer is not listed nothing changes, and the
/// failure to disconnect it is announced.
pub proof fn law_outcome_of_removing_other_peers<S, R>(
    list: PeerListView<S>,
    peer_id: PeerId,
    admission: Result<(), PeerError>,
    sendable: spec_fn(nat) -> bool,
)
    requires
        list.peers.contains_key(peer_id@) ==> list.peers[peer_id@].state is Disconnected,
    ensures
        ({
            let run = command_run::<S, R>(
                list,
                Command::RemovePeer { peer_id },
                admission,
                sendable,
            );
            let reason = PeerError::PeerNotPresent(peer_id);
            &&& run.list.peers == list.peers.remove(peer_id@)
            &&& run.list.banned_peers == list.banned_peers
            &&& run.list.banned_addresses == list.banned_addresses
            &&& list.peers.contains_key(peer_id@) ==> {
                &&& run.messages == seq![
                    MessageView::<S, R>::Event(Event::PeerRemoved { peer_id }),
                ]
                &&& run.result == if sendable(0) {
                    Ok::<(), Error>(())
                } else {
                    Err(Error::SendingEventFailed)
                }
            }
            &&& !list.peers.contains_key(peer_id@) ==> {
                &&& run.messages == seq![
                    MessageView::<S, R>::Event(
                        Event::CommandFailed {
                            command: Command::DisconnectPeer { peer_id },
                            reason,
                        },
                    ),
                ]
                &&& run.result == Err::<(), Error>(
                    if sendable(0) {
                        Error::Peer(reason)
                    } else {
                        Error::SendingEventFailed
                    },
                )
            }
        }),
{
    reveal_with_fuel(run_from, 3);
}

/// Once the gossip protocol with a listed peer is set up, the peer is connected
/// through the sender that is kept, whatever its state was, whatever is banned
/// and whatever the rules of the node say of new peers. Its id and what is known
/// of it stay, and just the connection is announced.
pub proof fn law_outcome_of_establishing_with_a_listed_peer<S, R>(
    list: PeerListView<S>,
    peer_id: PeerId,
    peer_addr: Multiaddr,
    gossip_in: R,
    gossip_out: S,
    kept: S,
    admission: Result<(), PeerError>,
    sendable: spec_fn(nat) -> bool,
)
    requires
        list.peers.contains_key(peer_id@),
    ensures
        ({
            let run = established_run::<S, R>(
                list,
                peer_id,
                peer_addr,
                gossip_in,
                gossip_out,
                kept,
                admission,
                sendable,
            );
            let before = list.peers[peer_id@];
            &&& run.list.peers == list.peers.insert(
                peer_id@,
                Peer { id: before.id, info: before.info, state: PeerState::Connected(kept) },
            )
            &&& run.list.banned_peers == list.banned_peers
            &&& run.list.banned_addresses == list.banned_addresses
            &&& run.messages == seq![
                MessageView::<S, R>::Event(
                    Event::PeerConnected { peer_id, info: before.info, gossip_in, gossip_out },
                ),
            ]
            &&& run.result == if sendable(0) {
                Ok::<(), Error>(())
            } else {
                Err(Error::SendingEventFailed)
            }
        }),
{
    reveal_with_fuel(run_from, 3);
}

/// Once the gossip protocol with a peer that is not listed is set up, the peer is
/// added, as an unknown one at the address it was met at and under the name that
/// it has from its id, if the rules of the node admit it, whatever is banned.
/// That is announced, and where it could be, the peer is connected, which is
/// announced too. A peer that is not admitted is not added, and nothing is sent.
pub proof fn law_outcome_of_establishing_with_a_new_peer<S, R>(
    list: PeerListView<S>,
    peer_id: PeerId,
    peer_addr: Multiaddr,
    gossip_in: R,
    gossip_out: S,
    kept: S,
    admission: Result<(), PeerError>,
    sendable: spec_fn(nat) -> bool,
)
    requires
        !list.peers.contains_key(peer_id@),
    ensures
        ({
            let run = established_run::<S, R>(
                list,
                peer_id,
                peer_addr,
                gossip_in,
                gossip_out,
                kept,
                admission,
                sendable,
            );
            let info = PeerInfo {
                address: peer_addr,
                alias: peer_id.alias,
                relation: PeerRelation::Unknown,
            };
            let added = MessageView::<S, R>::Event(Event::PeerAdded { peer_id, info });
            let connected = MessageView::<S, R>::Event(
                Event::PeerConnected { peer_id, info, gossip_in, gossip_out },
            );
            &&& run.list.banned_peers == list.banned_peers
            &&& run.list.banned_addresses == list.banned_addresses
            &&& admission is Ok && sendable(0) ==> {
                &&& run.list.peers == list.peers.insert(
                    peer_id@,
                    Peer { id: peer_id, info, state: PeerState::Connected(kept) },
                )
                &&& run.messages == seq![added, connected]
                &&& run.result == if sendable(1) {
                    Ok::<(), Error>(())
                } else {
                    Err(Error::SendingEventFailed)
                }
            }
            &&& admission is Ok && !sendable(0) ==> {
                &&& run.list.peers == list.peers.insert(
                    peer_id@,
                    Peer { id: peer_id, info, state: PeerState::Disconnected },
                )
                &&& run.messages == seq![added]
                &&& run.result == Err::<(), Error>(Error::SendingEventFailed)
            }
            &&& admission matches Err(reason) ==> {
                &&& run.list.peers == list.peers
                &&& run.messages == Seq::<MessageView<S, R>>::empty()
                &&& run.result == Err::<(), Error>(Error::Peer(reason))
            }
        }),
{
    reveal_with_fuel(run_from, 4);
}

/// When the gossip protocol with a peer comes to its end, a known peer is noted
/// as disconnected, with all that is known of it, and an unknown one is off the
/// list, whatever is banned. Just that the peer is disconnected is announced,
/// also of a peer that is not listed.
pub proof fn law_outcome_of_dropping<S, R>(
    list: PeerListView<S>,
    peer_id: PeerId,
    sendable: spec_fn(nat) -> bool,
)
    ensures
        ({
            let run = dropped_run::<S, R>(list, peer_id, sendable);
            let before = list.peers[peer_id@];
            let known = list.peers.contains_key(peer_id@) && before.info.relation
                == PeerRelation::Known;
            &&& known ==> run.list.peers == list.peers.insert(
                peer_id@,
                Peer { id: before.id, info: before.info, state: PeerState::Disconnected },
            )
            &&& !known ==> run.list.peers == list.peers.remove(peer_id@)
            &&& run.list.banned_peers == list.banned_peers
            &&& run.list.banned_addresses == list.banned_addresses
            &&& run.messages == seq![
                MessageView::<S, R>::Event(Event::PeerDisconnected { peer_id }),
            ]
            &&& run.result == if sendable(0) {
                Ok::<(), Error>(())
            } else {
                Err(Error::SendingEventFailed)
            }
        }),
{
    reveal_with_fuel(run_from, 3);
}

/// The handling ends, with the list as it is, where a message is lost without
/// which it fails, and where nothing is left to do.
pub proof fn law_outcome_of_last_messages<S, R>(
    list: PeerListView<S>,
    rest: Rest<S, R>,
    error: Error,
    sent: bool,
)
    ensures
        rest.if_unsent == Some(error) ==> resume_turn(list, rest, false) == (
            list,
            StepView::<S, R>::Done(Err(error)),
        ),
        (sent || rest.if_unsent is None) && rest.todo is Finish ==> resume_turn(list, rest, sent)
            == (list, StepView::<S, R>::Done(Ok(()))),
        (sent || rest.if_unsent is None) && rest.todo == Todo::<S, R>::Fail(error) ==> resume_turn(
            list,
            rest,
            sent,
        ) == (list, StepView::<S, R>::Done(Err(error))),
{
}

/// Where a peer is left to be dialed, the command to dial it follows, without
/// which the handling fails. Where a sender is left to be shut down, an empty
/// message through it follows, which may be lost, and then the removal of the
/// peer, if one is to be removed. The list stays as it is.
pub proof fn law_outcome_of_dial_and_shutdown_steps<S, R>(
    list: PeerListView<S>,
    rest: Rest<S, R>,
    sent: bool,
    peer_id: PeerId,
    sender: S,
)
    requires
        sent || rest.if_unsent is None,
    ensures
        rest.todo == Todo::<S, R>::Dial(peer_id) ==> resume_turn(list, rest, sent) == (
            list,
            StepView::<S, R>::Send {
                message: MessageView::Command(Command::DialPeer { peer_id }),
                rest: Rest { if_unsent: Some(Error::SendingCommandFailed), todo: Todo::Finish },
            },
        ),
        rest.todo == (Todo::<S, R>::Shutdown { sender, remove: None }) ==> resume_turn(
            list,
            rest,
            sent,
        ) == (
            list,
            StepView::<S, R>::Send {
                message: MessageView::Shutdown { sender, signal: Seq::empty() },
                rest: Rest { if_unsent: None, todo: Todo::Finish },
            },
        ),
        rest.todo == (Todo::<S, R>::Shutdown { sender, remove: Some(peer_id) }) ==> resume_turn(
            list,
            rest,
            sent,
        ) == (
            list,
            StepView::<S, R>::Send {
                message: MessageView::Shutdown { sender, signal: Seq::empty() },
                rest: Rest { if_unsent: None, todo: Todo::Remove(peer_id) },
            },
        ),
{
}

/// Where a peer is left to be removed, it is taken off the list as it then is,
/// in whatever state, which is announced. If it is gone by then, nothing changes,
/// and the failure of the removal is announced.
pub proof fn law_outcome_of_removal_step<S, R>(
    list: PeerListView<S>,
    if_unsent: Option<Error>,
    sent: bool,
    peer_id: PeerId,
)
    requires
        sent || if_unsent is None,
    ensures
        ({
            let rest = Rest::<S, R> { if_unsent, todo: Todo::Remove(peer_id) };
            let (after, step) = resume_turn(list, rest, sent);
            let reason = PeerError::PeerNotPresent(peer_id);
            &&& after.peers == list.peers.remove(peer_id@)
            &&& after.banned_peers == list.banned_peers
            &&& after.banned_addresses == list.banned_addresses
            &&& list.peers.contains_key(peer_id@) ==> step == (StepView::<S, R>::Send {
                message: MessageView::Event(Event::PeerRemoved { peer_id }),
                rest: Rest { if_unsent: Some(Error::SendingEventFailed), todo: Todo::Finish },
            })
            &&& !list.peers.contains_key(peer_id@) ==> step == (StepView::<S, R>::Send {
                message: MessageView::Event(
                    Event::CommandFailed { command: Command::RemovePeer { peer_id }, reason },
                ),
                rest: Rest {
                    if_unsent: Some(Error::SendingEventFailed),
                    todo: Todo::Fail(Error::Peer(reason)),
                },
            })
        }),
{
}

/// Where a listed peer is left to be connected, it is connected through the
/// sender that is kept, with its id and what is known of it as they then are,
/// and the connection is announced.
pub proof fn law_outcome_of_connection_step<S, R>(
    list: PeerListView<S>,
    if_unsent: Option<Error>,
    sent: bool,
    peer_id: PeerId,
    gossip_in: R,
    gossip_out: S,
    kept: S,
)
    requires
        sent || if_unsent is None,
        list.peers.contains_key(peer_id@),
    ensures
        ({
            let todo = Todo::Connect { peer_id, gossip_in, gossip_out, kept };
            let (after, step) = resume_turn(list, Rest::<S, R> { if_unsent, todo }, sent);
            let before = list.peers[peer_id@];
            &&& after.peers == list.peers.insert(
                peer_id@,
                Peer { id: before.id, info: before.info, state: PeerState::Connected(kept) },
            )
            &&& after.banned_peers == list.banned_peers
            &&& after.banned_addresses == list.banned_addresses
            &&& step == (StepView::<S, R>::Send {
                message: MessageView::Event(
                    Event::PeerConnected { peer_id, info: before.info, gossip_in, gossip_out },
                ),
                rest: Rest { if_unsent: Some(Error::SendingEventFailed), todo: Todo::Finish },
            })
        }),
{
}

/// Adding, disconnecting and removing a peer is the same when it is asked for by
/// a command, but that after the command a known peer is dialed: adding an
/// unknown peer is what the command to add it does, and adding any peer differs
/// from the command only in what is left to do once the announcement was sent.
pub proof fn law_commands_are_their_operations<S, R>(
    list: PeerListView<S>,
    peer_id: PeerId,
    info: PeerInfo,
    admission: Result<(), PeerError>,
)
    ensures
        command_turn::<S, R>(list, Command::DisconnectPeer { peer_id }, admission)
            == disconnect_turn::<S, R>(list, peer_id),
        command_turn::<S, R>(list, Command::RemovePeer { peer_id }, admission) == remove_turn::<
            S,
            R,
        >(list, peer_id),
        ({
            let command = Command::AddPeer {
                peer_id,
                multiaddr: info.address,
                alias: Some(info.alias),
                relation: info.relation,
            };
            let (commanded_list, commanded) = command_turn::<S, R>(list, command, admission);
            let (list, step) = add_turn::<S, R>(list, peer_id, info, admission);
            &&& commanded_list == list
            &&& info.relation == PeerRelation::Unknown ==> commanded == step
            &&& commanded is Send
            &&& step is Send
            &&& commanded->message == step->message
            &&& commanded->rest.if_unsent == step->rest.if_unsent
            &&& step->rest.todo is Finish || step->rest.todo is Fail
            &&& step->rest.todo is Fail ==> commanded == step
            &&& step->rest.todo is Finish && info.relation == PeerRelation::Known
                ==> commanded->rest.todo == Todo::<S, R>::Dial(peer_id)
        }),
{
}

/// A message and a step hold what they are made of, and nothing stands for
/// anything else: an event for just that event, a command for just that command,
/// a signal for its bytes.
pub proof fn law_messages_and_steps_hold_their_parts<S, R>(
    event: Event<S, R>,
    command: Command,
    sender: S,
    signal: Vec<u8>,
    message: Message<S, R>,
    rest: Rest<S, R>,
    result: Result<(), Error>,
)
    ensures
        Message::<S, R>::Event(event)@ == MessageView::Event(event),
        Message::<S, R>::Command(command)@ == MessageView::<S, R>::Command(command),
        (Message::<S, R>::Shutdown { sender, signal })@ == (MessageView::<S, R>::Shutdown {
            sender,
            signal: signal@,
        }),
        Step::<S, R>::Done(result)@ == StepView::<S, R>::Done(result),
        (Step::<S, R>::Send { message, rest })@ == (StepView::<S, R>::Send {
            message: message@,
            rest,
        }),
{
}

} // verus!
