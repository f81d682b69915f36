//! Laws of the service. Those that speak of the handling of a command or an
//! event as a whole hold where nothing else changes the list of peers in the
//! meantime.

use crate::network::command::Command;
use crate::network::event::Event;
use crate::network::host::{
    add_refusal, alias_or_default, command_turn, dropped_turn, established_turn, list_with_added,
    resume_turn, Error, MessageView, Rest, StepView, Todo,
};
use crate::network::list::{Peer, PeerListView};
use crate::network::peer::{Multiaddr, PeerError, PeerId, PeerInfo, PeerRelation, PeerState};
use crate::network::run::{command_run, dropped_run, established_run, messages_left, run_from, Run};
use vstd::prelude::*;

verus! {

/// The handling of a command or an event ends: with every message that was
/// sent, or could not be sent, fewer messages are left.
pub proof fn law_handling_ends<S, R>(
    list: PeerListView<S>,
    message: MessageView<S, R>,
    rest: Rest<S, R>,
    sent: bool,
)
    ensures
        messages_left(resume_turn(list, rest, sent).1) < messages_left(StepView::Send { message, rest }),
{
}

/// A peer that can be added is listed under the name that was given to it, or
/// that it has from its id. That it was added is announced, and if it is known,
/// and the announcement could be sent, it is dialed.
pub proof fn law_added_peer_is_listed_and_announced<S, R>(
    list: PeerListView<S>,
    peer_id: PeerId,
    multiaddr: Multiaddr,
    alias: Option<String>,
    relation: PeerRelation,
    admission: Result<(), PeerError>,
    sendable: spec_fn(nat) -> bool,
)
    requires
        add_refusal(list, peer_id, admission) is None,
    ensures
        ({
            let command = Command::AddPeer { peer_id, multiaddr, alias, relation };
            let run = command_run::<S, R>(list, command, admission, sendable);
            let info = PeerInfo {
                address: multiaddr,
                alias: alias_or_default(alias, peer_id),
                relation,
            };
            let added = MessageView::<S, R>::Event(Event::PeerAdded { peer_id, info });
            let dial = MessageView::<S, R>::Command(Command::DialPeer { peer_id });
            &&& run.list == list_with_added(list, peer_id, info)
            &&& run.list.peers[peer_id@].info == info
            &&& run.messages == if sendable(0) && relation == PeerRelation::Known {
                seq![added, dial]
            } else {
                seq![added]
            }
            &&& run.result == if !sendable(0) {
                Err::<(), Error>(Error::SendingEventFailed)
            } else if relation == PeerRelation::Known && !sendable(1) {
                Err(Error::SendingCommandFailed)
            } else {
                Ok(())
            }
        }),
{
    reveal_with_fuel(run_from, 4);
}

/// A peer that cannot be added leaves the list as it was. That the command
/// failed is announced, with the reason and with the name that the peer would
/// have had, and the handling fails for that reason.
pub proof fn law_refused_peer_is_reported<S, R>(
    list: PeerListView<S>,
    peer_id: PeerId,
    multiaddr: Multiaddr,
    alias: Option<String>,
    relation: PeerRelation,
    admission: Result<(), PeerError>,
    sendable: spec_fn(nat) -> bool,
)
    requires
        add_refusal(list, peer_id, admission) is Some,
    ensures
        ({
            let command = Command::AddPeer { peer_id, multiaddr, alias, relation };
            let run = command_run::<S, R>(list, command, admission, sendable);
            let reason = add_refusal(list, peer_id, admission)->0;
            let named = Command::AddPeer {
                peer_id,
                multiaddr,
                alias: Some(alias_or_default(alias, peer_id)),
                relation,
            };
            &&& run.list == list
            &&& run.messages == seq![
                MessageView::<S, R>::Event(Event::CommandFailed { command: named, reason }),
            ]
            &&& run.result == Err::<(), Error>(
                if sendable(0) {
                    Error::Peer(reason)
                } else {
                    Error::SendingEventFailed
                },
            )
        }),
{
    reveal_with_fuel(run_from, 3);
}

/// A connected peer that is to be disconnected is noted as disconnected. That
/// is announced before the signal to shut down is sent, which only the
/// announcement can prevent, and whose loss does no harm.
pub proof fn law_disconnection_is_announced_before_shutdown<S, R>(
    list: PeerListView<S>,
    peer_id: PeerId,
    sender: S,
    admission: Result<(), PeerError>,
    sendable: spec_fn(nat) -> bool,
)
    requires
        list.peers.contains_key(peer_id@),
        list.peers[peer_id@].state == PeerState::Connected(sender),
    ensures
        ({
            let command = Command::DisconnectPeer { peer_id };
            let run = command_run::<S, R>(list, command, admission, sendable);
            let gone = MessageView::<S, R>::Event(Event::PeerDisconnected { peer_id });
            &&& run.list == list.with_state(peer_id@, PeerState::Disconnected)
            &&& run.messages == if sendable(0) {
                seq![gone, MessageView::shutdown(sender)]
            } else {
                seq![gone]
            }
            &&& run.result == if sendable(0) {
                Ok::<(), Error>(())
            } else {
                Err(Error::SendingEventFailed)
            }
        }),
{
    reveal_with_fuel(run_from, 4);
}

/// Disconnecting a peer that is not connected does nothing, and succeeds.
pub proof fn law_disconnecting_twice_does_nothing_more<S, R>(
    list: PeerListView<S>,
    peer_id: PeerId,
    admission: Result<(), PeerError>,
    first_sendable: spec_fn(nat) -> bool,
    sendable: spec_fn(nat) -> bool,
)
    requires
        list.peers.contains_key(peer_id@),
    ensures
        ({
            let command = Command::DisconnectPeer { peer_id };
            let first = command_run::<S, R>(list, command, admission, first_sendable);
            command_run::<S, R>(first.list, command, admission, sendable) == (Run::<S, R> {
                list: first.list,
                messages: seq![],
                result: Ok(()),
            })
        }),
{
    reveal_with_fuel(run_from, 4);
}

/// Disconnecting or removing a peer that is not listed changes nothing. That
/// the peer could not be disconnected is announced, with the reason, and the
/// handling fails for that reason.
pub proof fn law_missing_peer_is_reported<S, R>(
    list: PeerListView<S>,
    peer_id: PeerId,
    command: Command,
    admission: Result<(), PeerError>,
    sendable: spec_fn(nat) -> bool,
)
    requires
        !list.peers.contains_key(peer_id@),
        command == (Command::DisconnectPeer { peer_id }) || command == (Command::RemovePeer {
            peer_id,
        }),
    ensures
        ({
            let run = command_run::<S, R>(list, command, admission, sendable);
            let reason = PeerError::PeerNotPresent(peer_id);
            &&& run.list == list
            &&& run.messages == seq![
                MessageView::<S, R>::Event(
                    Event::CommandFailed { command: Command::DisconnectPeer { peer_id }, reason },
                ),
            ]
            &&& run.result == Err::<(), Error>(
                if sendable(0) {
                    Error::Peer(reason)
                } else {
                    Error::SendingEventFailed
                },
            )
        }),
{
    reveal_with_fuel(run_from, 3);
}

/// A connected peer that is to be removed is disconnected first, with the
/// announcement and the signal that go with it, and then taken off the list,
/// which is announced as well. If the first announcement cannot be sent, the
/// peer stays on the list.
pub proof fn law_removed_peer_is_disconnected_first<S, R>(
    list: PeerListView<S>,
    peer_id: PeerId,
    sender: S,
    admission: Result<(), PeerError>,
    sendable: spec_fn(nat) -> bool,
)
    requires
        list.peers.contains_key(peer_id@),
        list.peers[peer_id@].state == PeerState::Connected(sender),
    ensures
        ({
            let command = Command::RemovePeer { peer_id };
            let run = command_run::<S, R>(list, command, admission, sendable);
            let gone = MessageView::<S, R>::Event(Event::PeerDisconnected { peer_id });
            let removed = MessageView::<S, R>::Event(Event::PeerRemoved { peer_id });
            if sendable(0) {
                &&& run.list == list.without_peer(peer_id@)
                &&& run.messages == seq![gone, MessageView::shutdown(sender), removed]
                &&& run.result == if sendable(2) {
                    Ok::<(), Error>(())
                } else {
                    Err(Error::SendingEventFailed)
                }
            } else {
                &&& run.list == list.with_state(peer_id@, PeerState::Disconnected)
                &&& run.messages == seq![gone]
                &&& run.result == Err::<(), Error>(Error::SendingEventFailed)
            }
        }),
{
    reveal_with_fuel(run_from, 5);
    assert(list.with_state(peer_id@, PeerState::Disconnected).without_peer(peer_id@)
        =~= list.without_peer(peer_id@));
}

/// A peer that is not connected is removed right away, and that is announced.
pub proof fn law_disconnected_peer_is_removed<S, R>(
    list: PeerListView<S>,
    peer_id: PeerId,
    admission: Result<(), PeerError>,
    sendable: spec_fn(nat) -> bool,
)
    requires
        list.peers.contains_key(peer_id@),
        list.peers[peer_id@].state is Disconnected,
    ensures
        ({
            let command = Command::RemovePeer { peer_id };
            let run = command_run::<S, R>(list, command, admission, sendable);
            &&& run.list == list.without_peer(peer_id@)
            &&& run.messages == seq![MessageView::<S, R>::Event(Event::PeerRemoved { peer_id })]
            &&& run.result == if sendable(0) {
                Ok::<(), Error>(())
            } else {
                Err(Error::SendingEventFailed)
            }
        }),
{
    reveal_with_fuel(run_from, 3);
}

/// Removing a peer that was just added, and was not listed before, gives back
/// the list as it was. So it does if the peer could not be added.
pub proof fn law_removing_undoes_adding<S, R>(
    list: PeerListView<S>,
    peer_id: PeerId,
    multiaddr: Multiaddr,
    alias: Option<String>,
    relation: PeerRelation,
    admission: Result<(), PeerError>,
    first_sendable: spec_fn(nat) -> bool,
    sendable: spec_fn(nat) -> bool,
)
    requires
        !list.peers.contains_key(peer_id@),
    ensures
        ({
            let add = Command::AddPeer { peer_id, multiaddr, alias, relation };
            let remove = Command::RemovePeer { peer_id };
            let added = command_run::<S, R>(list, add, admission, first_sendable);
            command_run::<S, R>(added.list, remove, admission, sendable).list == list
        }),
{
    let add = Command::AddPeer { peer_id, multiaddr, alias, relation };
    let remove = Command::RemovePeer { peer_id };
    let added = command_run::<S, R>(list, add, admission, first_sendable);
    if add_refusal(list, peer_id, admission) is None {
        law_added_peer_is_listed_and_announced::<S, R>(
            list,
            peer_id,
            multiaddr,
            alias,
            relation,
            admission,
            first_sendable,
        );
        law_disconnected_peer_is_removed::<S, R>(added.list, peer_id, admission, sendable);
        assert(added.list.without_peer(peer_id@) =~= list);
    } else {
        law_refused_peer_is_reported::<S, R>(
            list,
            peer_id,
            multiaddr,
            alias,
            relation,
            admission,
            first_sendable,
        );
        law_missing_peer_is_reported::<S, R>(list, peer_id, remove, admission, sendable);
    }
}

/// Lifting the ban of a peer that was not banned before gives back the list as
/// it was.
pub proof fn law_unbanning_undoes_banning_of_peer<S, R>(
    list: PeerListView<S>,
    peer_id: PeerId,
    admission: Result<(), PeerError>,
    first_sendable: spec_fn(nat) -> bool,
    sendable: spec_fn(nat) -> bool,
)
    requires
        !list.banned_peers.contains(peer_id@),
    ensures
        ({
            let ban = command_run::<S, R>(
                list,
                Command::BanPeer { peer_id },
                admission,
                first_sendable,
            );
            let unban = Command::UnbanPeer { peer_id };
            &&& ban.list.banned_peers.contains(peer_id@)
            &&& command_run::<S, R>(ban.list, unban, admission, sendable).list == list
        }),
{
    reveal_with_fuel(run_from, 3);
    assert(list.banned_peers.insert(peer_id@).remove(peer_id@) =~= list.banned_peers);
}

/// Lifting the ban of an address that was not banned before gives back the list
/// as it was.
pub proof fn law_unbanning_undoes_banning_of_address<S, R>(
    list: PeerListView<S>,
    address: Multiaddr,
    admission: Result<(), PeerError>,
    first_sendable: spec_fn(nat) -> bool,
    sendable: spec_fn(nat) -> bool,
)
    requires
        !list.banned_addresses.contains(address@),
    ensures
        ({
            let ban = command_run::<S, R>(
                list,
                Command::BanAddress { address },
                admission,
                first_sendable,
            );
            let unban = Command::UnbanAddress { address };
            &&& ban.list.banned_addresses.contains(address@)
            &&& command_run::<S, R>(ban.list, unban, admission, sendable).list == list
        }),
{
    reveal_with_fuel(run_from, 3);
    assert(list.banned_addresses.insert(address@).remove(address@) =~= list.banned_addresses);
}

/// The peer that a command is about, if it is about one.
pub open spec fn peer_of(command: Command) -> Option<PeerId> {
    match command {
        Command::AddPeer { peer_id, .. } => Some(peer_id),
        Command::BanPeer { peer_id } => Some(peer_id),
        Command::ChangeRelation { peer_id, .. } => Some(peer_id),
        Command::DialPeer { peer_id } => Some(peer_id),
        Command::DisconnectPeer { peer_id } => Some(peer_id),
        Command::RemovePeer { peer_id } => Some(peer_id),
        Command::UnbanPeer { peer_id } => Some(peer_id),
        _ => None,
    }
}

/// A command leaves alone every peer but the one that it is about.
pub proof fn law_other_peers_are_left_alone<S, R>(
    list: PeerListView<S>,
    command: Command,
    admission: Result<(), PeerError>,
    sendable: spec_fn(nat) -> bool,
    other: Seq<char>,
)
    requires
        peer_of(command) matches Some(peer_id) ==> peer_id@ != other,
    ensures
        ({
            let after = command_run::<S, R>(list, command, admission, sendable).list;
            &&& after.peers.contains_key(other) == list.peers.contains_key(other)
            &&& after.peers[other] == list.peers[other]
            &&& after.banned_peers.contains(other) == list.banned_peers.contains(other)
        }),
{
    reveal_with_fuel(run_from, 5);
}

/// Bans are kept apart from the peers: banning, and lifting a ban, changes no
/// peer, and every other command changes no ban.
pub proof fn law_bans_and_peers_are_kept_apart<S, R>(
    list: PeerListView<S>,
    command: Command,
    admission: Result<(), PeerError>,
    sendable: spec_fn(nat) -> bool,
)
    ensures
        ({
            let after = command_run::<S, R>(list, command, admission, sendable).list;
            if command is BanPeer || command is BanAddress || command is UnbanPeer
                || command is UnbanAddress {
                after.peers == list.peers
            } else {
                after.banned_peers == list.banned_peers && after.banned_addresses
                    == list.banned_addresses
            }
        }),
{
    reveal_with_fuel(run_from, 5);
}

/// A command that asks for a peer or an address to be dialed is passed on to
/// the network as it is, and changes nothing on the list.
pub proof fn law_dial_commands_are_passed_on<S, R>(
    list: PeerListView<S>,
    command: Command,
    admission: Result<(), PeerError>,
    sendable: spec_fn(nat) -> bool,
)
    requires
        command is DialPeer || command is DialAddress,
    ensures
        command_run::<S, R>(list, command, admission, sendable) == (Run::<S, R> {
            list,
            messages: seq![MessageView::Command(command)],
            result: if sendable(0) {
                Ok(())
            } else {
                Err(Error::SendingCommandFailed)
            },
        }),
{
    reveal_with_fuel(run_from, 3);
    let run = command_run::<S, R>(list, command, admission, sendable);
    assert(run.messages =~= seq![MessageView::Command(command)]);
}

/// Once the gossip protocol with a peer is set up, the peer is listed as
/// connected through the sender that is kept. A peer that was listed keeps what
/// is known of it; one that was not is added, as an unknown one, which is
/// announced before the connection is.
pub proof fn law_established_peer_is_connected<S, R>(
    list: PeerListView<S>,
    peer_id: PeerId,
    peer_addr: Multiaddr,
    gossip_in: R,
    gossip_out: S,
    kept: S,
    admission: Result<(), PeerError>,
    sendable: spec_fn(nat) -> bool,
)
    requires
        list.peers.contains_key(peer_id@) || (admission is Ok && sendable(0)),
    ensures
        ({
            let run = established_run::<S, R>(
                list,
                peer_id,
                peer_addr,
                gossip_in,
                gossip_out,
                kept,
                admission,
                sendable,
            );
            let listed = list.peers.contains_key(peer_id@);
            let id = if listed {
                list.peers[peer_id@].id
            } else {
                peer_id
            };
            let info = if listed {
                list.peers[peer_id@].info
            } else {
                PeerInfo {
                    address: peer_addr,
                    alias: peer_id.alias,
                    relation: PeerRelation::Unknown,
                }
            };
            let added = MessageView::<S, R>::Event(Event::PeerAdded { peer_id, info });
            let connected = MessageView::<S, R>::Event(
                Event::PeerConnected { peer_id, info, gossip_in, gossip_out },
            );
            &&& run.list == list.with_peer(
                peer_id@,
                Peer { id, info, state: PeerState::Connected(kept) },
            )
            &&& run.messages == if listed {
                seq![connected]
            } else {
                seq![added, connected]
            }
            &&& run.result == if sendable(if listed { 0 } else { 1 }) {
                Ok::<(), Error>(())
            } else {
                Err(Error::SendingEventFailed)
            }
        }),
{
    reveal_with_fuel(run_from, 4);
    if !list.peers.contains_key(peer_id@) {
        let info = PeerInfo {
            address: peer_addr,
            alias: peer_id.alias,
            relation: PeerRelation::Unknown,
        };
        let added = Peer { id: peer_id, info, state: PeerState::Disconnected };
        let connected = Peer { state: PeerState::Connected(kept), ..added };
        assert(list.with_peer(peer_id@, added).with_state(peer_id@, PeerState::Connected(kept))
            =~= list.with_peer(peer_id@, connected));
    }
}

/// A peer that is not listed, and that the rules of the node do not admit, is
/// not connected: nothing changes, nothing is sent, and the handling fails for
/// the reason given.
pub proof fn law_peer_not_admitted_is_not_connected<S, R>(
    list: PeerListView<S>,
    peer_id: PeerId,
    peer_addr: Multiaddr,
    gossip_in: R,
    gossip_out: S,
    kept: S,
    reason: PeerError,
    sendable: spec_fn(nat) -> bool,
)
    requires
        !list.peers.contains_key(peer_id@),
    ensures
        established_run::<S, R>(
            list,
            peer_id,
            peer_addr,
            gossip_in,
            gossip_out,
            kept,
            Err(reason),
            sendable,
        ) == (Run::<S, R> { list, messages: seq![], result: Err(Error::Peer(reason)) }),
{
}

/// Where a peer is still to be noted as connected, it is on the list. So the
/// step that follows the announcement that it was added can be taken, if nothing
/// else happened to the list in the meantime.
pub proof fn law_peer_to_connect_is_listed<S, R>(
    list: PeerListView<S>,
    peer_id: PeerId,
    peer_addr: Multiaddr,
    gossip_in: R,
    gossip_out: S,
    kept: S,
    admission: Result<(), PeerError>,
)
    ensures
        ({
            let (after, step) = established_turn::<S, R>(
                list,
                peer_id,
                peer_addr,
                gossip_in,
                gossip_out,
                kept,
                admission,
            );
            step matches StepView::Send { rest, .. } ==> (rest.todo matches Todo::Connect {
                peer_id: to_connect,
                ..
            } ==> after.peers.contains_key(to_connect@))
        }),
{
}

/// No other step leaves a peer to be noted as connected.
pub proof fn law_only_established_peers_are_connected<S, R>(
    list: PeerListView<S>,
    command: Command,
    admission: Result<(), PeerError>,
    peer_id: PeerId,
    rest: Rest<S, R>,
    sent: bool,
)
    ensures
        !leaves_connecting(command_turn::<S, R>(list, command, admission).1),
        !leaves_connecting(dropped_turn::<S, R>(list, peer_id).1),
        !leaves_connecting(resume_turn(list, rest, sent).1),
{
}

/// Whether a step leaves a peer to be noted as connected.
pub open spec fn leaves_connecting<S, R>(step: StepView<S, R>) -> bool {
    step matches StepView::Send { rest, .. } && rest.todo is Connect
}

/// When the gossip protocol with a peer comes to its end, that the peer is
/// disconnected is announced, an unknown peer is forgotten, and a known one is
/// due for a reconnect.
pub proof fn law_dropped_peer_is_forgotten_or_due_for_reconnect<S, R>(
    list: PeerListView<S>,
    peer_id: PeerId,
    sendable: spec_fn(nat) -> bool,
)
    ensures
        ({
            let run = dropped_run::<S, R>(list, peer_id, sendable);
            let known = list.peers.contains_key(peer_id@) && list.peers[peer_id@].info.relation
                == PeerRelation::Known;
            &&& run.messages == seq![MessageView::<S, R>::Event(Event::PeerDisconnected { peer_id })]
            &&& run.result == if sendable(0) {
                Ok::<(), Error>(())
            } else {
                Err(Error::SendingEventFailed)
            }
            &&& known ==> run.list.is_due_for_reconnect(peer_id@) && run.list == list.with_state(
                peer_id@,
                PeerState::Disconnected,
            )
            &&& !known ==> run.list == list.without_peer(peer_id@)
        }),
{
    reveal_with_fuel(run_from, 3);
    if !list.peers.contains_key(peer_id@) {
        assert(list.without_peer(peer_id@) =~= list);
    }
}

/// The end of the gossip protocol with a peer that was added on the fly gives
/// back the list as it was before.
pub proof fn law_dropping_undoes_establishing_of_unlisted_peer<S, R>(
    list: PeerListView<S>,
    peer_id: PeerId,
    peer_addr: Multiaddr,
    gossip_in: R,
    gossip_out: S,
    kept: S,
    admission: Result<(), PeerError>,
    first_sendable: spec_fn(nat) -> bool,
    sendable: spec_fn(nat) -> bool,
)
    requires
        !list.peers.contains_key(peer_id@),
    ensures
        ({
            let established = established_run::<S, R>(
                list,
                peer_id,
                peer_addr,
                gossip_in,
                gossip_out,
                kept,
                admission,
                first_sendable,
            );
            dropped_run::<S, R>(established.list, peer_id, sendable).list == list
        }),
{
    reveal_with_fuel(run_from, 4);
    let established = established_run::<S, R>(
        list,
        peer_id,
        peer_addr,
        gossip_in,
        gossip_out,
        kept,
        admission,
        first_sendable,
    );
    assert(dropped_run::<S, R>(established.list, peer_id, sendable).list =~= list);
}

/// If every message can be sent, a command that fails changes nothing.
pub proof fn law_failed_command_changes_nothing<S, R>(
    list: PeerListView<S>,
    command: Command,
    admission: Result<(), PeerError>,
    sendable: spec_fn(nat) -> bool,
)
    requires
        forall|n: nat| #[trigger] sendable(n),
    ensures
        ({
            let run = command_run::<S, R>(list, command, admission, sendable);
            run.result is Err ==> run.list == list
        }),
{
    reveal_with_fuel(run_from, 5);
}

/// Banning what is banned already changes nothing, and nothing is sent.
pub proof fn law_repeated_ban_is_refused<S, R>(
    list: PeerListView<S>,
    peer_id: PeerId,
    address: Multiaddr,
    admission: Result<(), PeerError>,
    sendable: spec_fn(nat) -> bool,
)
    ensures
        list.banned_peers.contains(peer_id@) ==> command_run::<S, R>(
            list,
            Command::BanPeer { peer_id },
            admission,
            sendable,
        ) == (Run::<S, R> {
            list,
            messages: seq![],
            result: Err(Error::Peer(PeerError::PeerAlreadyBanned(peer_id))),
        }),
        list.banned_addresses.contains(address@) ==> command_run::<S, R>(
            list,
            Command::BanAddress { address },
            admission,
            sendable,
        ) == (Run::<S, R> {
            list,
            messages: seq![],
            result: Err(Error::Peer(PeerError::AddressAlreadyBanned(address))),
        }),
{
}

/// Lifting a ban that does not exist changes nothing, and nothing is sent.
pub proof fn law_missing_ban_cannot_be_lifted<S, R>(
    list: PeerListView<S>,
    peer_id: PeerId,
    address: Multiaddr,
    admission: Result<(), PeerError>,
    sendable: spec_fn(nat) -> bool,
)
    ensures
        !list.banned_peers.contains(peer_id@) ==> command_run::<S, R>(
            list,
            Command::UnbanPeer { peer_id },
            admission,
            sendable,
        ) == (Run::<S, R> {
            list,
            messages: seq![],
            result: Err(Error::Peer(PeerError::PeerNotBanned(peer_id))),
        }),
        !list.banned_addresses.contains(address@) ==> command_run::<S, R>(
            list,
            Command::UnbanAddress { address },
            admission,
            sendable,
        ) == (Run::<S, R> {
            list,
            messages: seq![],
            result: Err(Error::Peer(PeerError::AddressNotBanned(address))),
        }),
{
}

/// A peer that was added on the fly, but could not be announced, stays on the
/// list, and is not noted as connected.
pub proof fn law_unannounced_peer_is_not_connected<S, R>(
    list: PeerListView<S>,
    peer_id: PeerId,
    peer_addr: Multiaddr,
    gossip_in: R,
    gossip_out: S,
    kept: S,
    sendable: spec_fn(nat) -> bool,
)
    requires
        !list.peers.contains_key(peer_id@),
        !sendable(0),
    ensures
        ({
            let info = PeerInfo {
                address: peer_addr,
                alias: peer_id.alias,
                relation: PeerRelation::Unknown,
            };
            let run = established_run::<S, R>(
                list,
                peer_id,
                peer_addr,
                gossip_in,
                gossip_out,
                kept,
                Ok(()),
                sendable,
            );
            &&& run.list == list.with_peer(
                peer_id@,
                Peer { id: peer_id, info, state: PeerState::Disconnected },
            )
            &&& run.messages == seq![MessageView::<S, R>::Event(Event::PeerAdded { peer_id, info })]
            &&& run.result == Err::<(), Error>(Error::SendingEventFailed)
        }),
{
    reveal_with_fuel(run_from, 3);
}

/// Following that the gossip protocol with a peer was set up, or came to its
/// end, leaves alone every other peer and all bans.
pub proof fn law_events_leave_other_peers_alone<S, R>(
    list: PeerListView<S>,
    peer_id: PeerId,
    peer_addr: Multiaddr,
    gossip_in: R,
    gossip_out: S,
    kept: S,
    admission: Result<(), PeerError>,
    sendable: spec_fn(nat) -> bool,
    other: Seq<char>,
)
    requires
        peer_id@ != other,
    ensures
        ({
            let established = established_run::<S, R>(
                list,
                peer_id,
                peer_addr,
                gossip_in,
                gossip_out,
                kept,
                admission,
                sendable,
            ).list;
            let dropped = dropped_run::<S, R>(list, peer_id, sendable).list;
            &&& established.peers.contains_key(other) == list.peers.contains_key(other)
            &&& established.peers[other] == list.peers[other]
            &&& established.banned_peers == list.banned_peers
            &&& established.banned_addresses == list.banned_addresses
            &&& dropped.peers.contains_key(other) == list.peers.contains_key(other)
            &&& dropped.peers[other] == list.peers[other]
            &&& dropped.banned_peers == list.banned_peers
            &&& dropped.banned_addresses == list.banned_addresses
        }),
{
    reveal_with_fuel(run_from, 4);
}

/// Adding a peer a second time, with the same command, changes nothing more.
pub proof fn law_adding_twice_changes_nothing_more<S, R>(
    list: PeerListView<S>,
    peer_id: PeerId,
    multiaddr: Multiaddr,
    alias: Option<String>,
    relation: PeerRelation,
    admission: Result<(), PeerError>,
    first_sendable: spec_fn(nat) -> bool,
    sendable: spec_fn(nat) -> bool,
)
    ensures
        ({
            let add = Command::AddPeer { peer_id, multiaddr, alias, relation };
            let first = command_run::<S, R>(list, add, admission, first_sendable);
            command_run::<S, R>(first.list, add, admission, sendable).list == first.list
        }),
{
    reveal_with_fuel(run_from, 4);
    let add = Command::AddPeer { peer_id, multiaddr, alias, relation };
    let first = command_run::<S, R>(list, add, admission, first_sendable);
    assert(command_run::<S, R>(first.list, add, admission, sendable).list =~= first.list);
}

/// Carrying out a command passes at most one command on to the network.
pub proof fn law_at_most_one_command_is_passed_on<S, R>(
    list: PeerListView<S>,
    command: Command,
    admission: Result<(), PeerError>,
    sendable: spec_fn(nat) -> bool,
    i: int,
    j: int,
)
    requires
        0 <= i < j < command_run::<S, R>(list, command, admission, sendable).messages.len(),
    ensures
        ({
            let messages = command_run::<S, R>(list, command, admission, sendable).messages;
            !(messages[i] is Command && messages[j] is Command)
        }),
{
    reveal_with_fuel(run_from, 5);
}

} // verus!
