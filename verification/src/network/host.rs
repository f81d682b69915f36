//! The service that carries out commands and follows internal events.
//!
//! Handling a command or an event is a sequence of steps. Each step changes the
//! list of peers, and either ends the handling or asks for one message to be
//! sent. Once it is known whether the message could be sent, [`resume`] takes
//! the next step.

use crate::network::command::Command;
use crate::network::event::{Event, InternalEvent};
use crate::network::list::{Peer, PeerList, PeerListView};
use crate::network::peer::{Multiaddr, PeerError, PeerId, PeerInfo, PeerRelation, PeerState};
use crate::random::number::random_in_range;
use vstd::prelude::*;

verus! {

/// Where the service sends to: the channels to the users of the network layer,
/// to the other parts of it, and to the network.
#[derive(Debug)]
pub struct Senders<E, I, C> {
    pub events: E,
    pub internal_events: I,
    pub internal_commands: C,
}

impl<E: Clone, I: Clone, C: Clone> Clone for Senders<E, I, C> {
    fn clone(&self) -> (senders: Self)
        ensures
            cloned(self.events, senders.events),
            cloned(self.internal_events, senders.internal_events),
            cloned(self.internal_commands, senders.internal_commands),
    {
        Senders {
            events: self.events.clone(),
            internal_events: self.internal_events.clone(),
            internal_commands: self.internal_commands.clone(),
        }
    }
}

/// Where the service receives from: the channels with the commands of the users
/// of the network layer, and with the events from the other parts of it.
#[derive(Debug)]
pub struct Receivers<C, I> {
    pub commands: C,
    pub internal_events: I,
}

/// Why the handling of a command or an event failed.
#[derive(Debug, PartialEq, Eq)]
pub enum Error {
    /// A command could not be sent to the network.
    SendingCommandFailed,
    /// An event could not be sent to the users of the network layer.
    SendingEventFailed,
    /// The list of peers refused an operation.
    Peer(PeerError),
}

/// A message to be sent.
#[derive(Debug)]
pub enum Message<S, R> {
    /// An event, for the users of the network layer.
    Event(Event<S, R>),
    /// A command, for the network.
    Command(Command),
    /// The signal to shut down, for the task that writes to a peer, through the
    /// peer's own sender.
    Shutdown { sender: S, signal: Vec<u8> },
}

/// What a message holds.
#[verifier::ext_equal]
pub enum MessageView<S, R> {
    /// An event, for the users of the network layer.
    Event(Event<S, R>),
    /// A command, for the network.
    Command(Command),
    /// The signal to shut down, for the task that writes to a peer.
    Shutdown { sender: S, signal: Seq<u8> },
}

impl<S, R> View for Message<S, R> {
    type V = MessageView<S, R>;

    open spec fn view(&self) -> MessageView<S, R> {
        match *self {
            Message::Event(event) => MessageView::Event(event),
            Message::Command(command) => MessageView::Command(command),
            Message::Shutdown { sender, signal } => MessageView::Shutdown {
                sender,
                signal: signal@,
            },
        }
    }
}

impl<S, R> MessageView<S, R> {
    /// The signal to shut down: an empty message.
    pub open spec fn shutdown(sender: S) -> Self {
        MessageView::Shutdown { sender, signal: seq![] }
    }
}

/// What is left to do once a message was sent.
#[derive(Debug)]
pub enum Todo<S, R> {
    /// Nothing: the handling has succeeded.
    Finish,
    /// Nothing: the handling has failed.
    Fail(Error),
    /// Have the peer dialed.
    Dial(PeerId),
    /// Send the signal to shut down through this sender, then remove the peer,
    /// if one is given.
    Shutdown { sender: S, remove: Option<PeerId> },
    /// Take the peer off the list.
    Remove(PeerId),
    /// Note that the peer is connected through `kept`, and announce it.
    Connect { peer_id: PeerId, gossip_in: R, gossip_out: S, kept: S },
}

/// How the handling goes on once it is known whether a message could be sent.
#[derive(Debug)]
pub struct Rest<S, R> {
    /// With which error the handling ends if the message could not be sent;
    /// without one it goes on all the same.
    pub if_unsent: Option<Error>,
    /// What is left to do otherwise.
    pub todo: Todo<S, R>,
}

/// A step of the handling of a command or an event.
#[derive(Debug)]
pub enum Step<S, R> {
    /// The handling has come to its end.
    Done(Result<(), Error>),
    /// A message is to be sent.
    Send { message: Message<S, R>, rest: Rest<S, R> },
}

/// What a step of the handling holds.
#[verifier::ext_equal]
pub enum StepView<S, R> {
    /// The handling has come to its end.
    Done(Result<(), Error>),
    /// A message is to be sent.
    Send { message: MessageView<S, R>, rest: Rest<S, R> },
}

impl<S, R> View for Step<S, R> {
    type V = StepView<S, R>;

    open spec fn view(&self) -> StepView<S, R> {
        match *self {
            Step::Done(result) => StepView::Done(result),
            Step::Send { message, rest } => StepView::Send { message: message@, rest },
        }
    }
}

impl<S, R> StepView<S, R> {
    /// The step that sends an event, without which the handling fails.
    pub open spec fn event(event: Event<S, R>, todo: Todo<S, R>) -> Self {
        StepView::Send {
            message: MessageView::Event(event),
            rest: Rest { if_unsent: Some(Error::SendingEventFailed), todo },
        }
    }

    /// The step that sends a command, without which the handling fails.
    pub open spec fn command(command: Command) -> Self {
        StepView::Send {
            message: MessageView::Command(command),
            rest: Rest { if_unsent: Some(Error::SendingCommandFailed), todo: Todo::Finish },
        }
    }

    /// The step that sends the signal to shut down. The peer may have gone in
    /// the meantime, so the handling goes on in any case.
    pub open spec fn shutdown(sender: S, todo: Todo<S, R>) -> Self {
        StepView::Send { message: MessageView::shutdown(sender), rest: Rest { if_unsent: None, todo } }
    }

    /// The step that says that a command failed, and why.
    pub open spec fn failed(command: Command, reason: PeerError) -> Self {
        StepView::event(Event::CommandFailed { command, reason }, Todo::Fail(Error::Peer(reason)))
    }
}

fn send_event<S, R>(event: Event<S, R>, todo: Todo<S, R>) -> (step: Step<S, R>)
    ensures
        step@ == StepView::event(event, todo),
{
    Step::Send {
        message: Message::Event(event),
        rest: Rest { if_unsent: Some(Error::SendingEventFailed), todo },
    }
}

fn send_command<S, R>(command: Command) -> (step: Step<S, R>)
    ensures
        step@ == StepView::<S, R>::command(command),
{
    Step::Send {
        message: Message::Command(command),
        rest: Rest { if_unsent: Some(Error::SendingCommandFailed), todo: Todo::Finish },
    }
}

fn send_failure<S, R>(command: Command, reason: PeerError) -> (step: Step<S, R>)
    ensures
        step@ == StepView::<S, R>::failed(command, reason),
{
    let todo = Todo::Fail(Error::Peer(reason.clone()));
    send_event(Event::CommandFailed { command, reason }, todo)
}

/// Why a peer cannot be added, if it cannot. A peer that is listed already can:
/// what is known of it is replaced.
pub open spec fn add_refusal<S>(
    list: PeerListView<S>,
    peer_id: PeerId,
    admission: Result<(), PeerError>,
) -> Option<PeerError> {
    if list.peers.contains_key(peer_id@) {
        None
    } else {
        match admission {
            Ok(()) => None,
            Err(PeerError::PeerIsDuplicate(_)) => Some(PeerError::PeerNotPresent(peer_id)),
            Err(reason) => Some(reason),
        }
    }
}

/// The list after a peer was added: a peer that is new is not connected, one
/// that was listed already is in the state that it was in.
pub open spec fn list_with_added<S>(
    list: PeerListView<S>,
    peer_id: PeerId,
    info: PeerInfo,
) -> PeerListView<S> {
    if list.peers.contains_key(peer_id@) {
        list.with_info(peer_id@, info)
    } else {
        list.with_peer(peer_id@, Peer { id: peer_id, info, state: PeerState::Disconnected })
    }
}

/// Adding a peer.
pub open spec fn add_turn<S, R>(
    list: PeerListView<S>,
    peer_id: PeerId,
    info: PeerInfo,
    admission: Result<(), PeerError>,
) -> (PeerListView<S>, StepView<S, R>) {
    match add_refusal(list, peer_id, admission) {
        None => (
            list_with_added(list, peer_id, info),
            StepView::event(Event::PeerAdded { peer_id, info }, Todo::Finish),
        ),
        Some(reason) => (
            list,
            StepView::failed(
                Command::AddPeer {
                    peer_id,
                    multiaddr: info.address,
                    alias: Some(info.alias),
                    relation: info.relation,
                },
                reason,
            ),
        ),
    }
}

/// Adds a peer, where `admission` is what the rules of the node say of adding
/// it. If the peer is listed already, what is known of it is replaced.
pub fn add_peer<S, R>(
    peer_id: PeerId,
    address: Multiaddr,
    alias: String,
    relation: PeerRelation,
    admission: Result<(), PeerError>,
    peerlist: &mut PeerList<S>,
) -> (step: Step<S, R>)
    requires
        old(peerlist).wf(),
    ensures
        final(peerlist).wf(),
        (final(peerlist)@, step@) == add_turn::<S, R>(
            old(peerlist)@,
            peer_id,
            PeerInfo { address, alias, relation },
            admission,
        ),
{
    let peer_info = PeerInfo { address, alias, relation };
    // If the peer is not inserted, we get its data back, so that it can be reused.
    match peerlist.insert_peer(peer_id.clone(), peer_info.clone(), admission) {
        Ok(()) => send_event(Event::PeerAdded { peer_id, info: peer_info }, Todo::Finish),
        Err((peer_id, peer_info, reason)) => {
            let mut reason = reason;
            // A peer that is in fact known may have connected, as an unknown
            // one, before it is added.
            if let PeerError::PeerIsDuplicate(_) = &reason {
                match peerlist.update_info(&peer_id, peer_info.clone()) {
                    Ok(()) => {
                        return send_event(
                            Event::PeerAdded { peer_id, info: peer_info },
                            Todo::Finish,
                        );
                    },
                    Err(error) => {
                        reason = error;
                    },
                }
            }
            send_failure(
                Command::AddPeer {
                    peer_id,
                    multiaddr: peer_info.address,
                    alias: Some(peer_info.alias),
                    relation: peer_info.relation,
                },
                reason,
            )
        },
    }
}

/// Disconnecting a peer.
pub open spec fn disconnect_turn<S, R>(list: PeerListView<S>, peer_id: PeerId) -> (
    PeerListView<S>,
    StepView<S, R>,
) {
    if !list.peers.contains_key(peer_id@) {
        (
            list,
            StepView::failed(
                Command::DisconnectPeer { peer_id },
                PeerError::PeerNotPresent(peer_id),
            ),
        )
    } else {
        match list.peers[peer_id@].state {
            PeerState::Disconnected => (list, StepView::Done(Ok(()))),
            PeerState::Connected(sender) => (
                list.with_state(peer_id@, PeerState::Disconnected),
                StepView::event(
                    Event::PeerDisconnected { peer_id },
                    Todo::Shutdown { sender, remove: None },
                ),
            ),
        }
    }
}

/// Disconnects a peer. Nothing is sent if the peer is not connected.
///
/// The event that the peer is disconnected goes out before the signal to shut
/// down, so that nothing is added to the channel once its other end is gone.
pub fn disconnect_peer<S, R>(peer_id: PeerId, peerlist: &mut PeerList<S>) -> (step: Step<S, R>)
    requires
        old(peerlist).wf(),
    ensures
        final(peerlist).wf(),
        (final(peerlist)@, step@) == disconnect_turn::<S, R>(old(peerlist)@, peer_id),
{
    match peerlist.set_disconnected(&peer_id) {
        Ok(Some(sender)) => send_event(
            Event::PeerDisconnected { peer_id },
            Todo::Shutdown { sender, remove: None },
        ),
        Ok(None) => {
            // already disconnected
            assert(peerlist@.peers == old(peerlist)@.peers);
            Step::Done(Ok(()))
        },
        Err(error) => send_failure(Command::DisconnectPeer { peer_id }, error),
    }
}

/// Taking a peer off the list.
pub open spec fn take_off_turn<S, R>(list: PeerListView<S>, peer_id: PeerId) -> (
    PeerListView<S>,
    StepView<S, R>,
) {
    if list.peers.contains_key(peer_id@) {
        (
            list.without_peer(peer_id@),
            StepView::event(Event::PeerRemoved { peer_id }, Todo::Finish),
        )
    } else {
        (
            list,
            StepView::failed(Command::RemovePeer { peer_id }, PeerError::PeerNotPresent(peer_id)),
        )
    }
}

fn take_off<S, R>(peer_id: PeerId, peerlist: &mut PeerList<S>) -> (step: Step<S, R>)
    requires
        old(peerlist).wf(),
    ensures
        final(peerlist).wf(),
        (final(peerlist)@, step@) == take_off_turn::<S, R>(old(peerlist)@, peer_id),
{
    match peerlist.remove(&peer_id) {
        Ok(_) => send_event(Event::PeerRemoved { peer_id }, Todo::Finish),
        Err(error) => {
            assert(peerlist@.peers == old(peerlist)@.peers);
            send_failure(Command::RemovePeer { peer_id }, error)
        },
    }
}

/// Removing a peer: it is disconnected first, and taken off the list only once
/// that has succeeded.
pub open spec fn remove_turn<S, R>(list: PeerListView<S>, peer_id: PeerId) -> (
    PeerListView<S>,
    StepView<S, R>,
) {
    if list.peers.contains_key(peer_id@) {
        match list.peers[peer_id@].state {
            PeerState::Disconnected => take_off_turn(list, peer_id),
            PeerState::Connected(sender) => (
                list.with_state(peer_id@, PeerState::Disconnected),
                StepView::event(
                    Event::PeerDisconnected { peer_id },
                    Todo::Shutdown { sender, remove: Some(peer_id) },
                ),
            ),
        }
    } else {
        disconnect_turn(list, peer_id)
    }
}

/// Removes a peer, which is disconnected first.
pub fn remove_peer<S, R>(peer_id: PeerId, peerlist: &mut PeerList<S>) -> (step: Step<S, R>)
    requires
        old(peerlist).wf(),
    ensures
        final(peerlist).wf(),
        (final(peerlist)@, step@) == remove_turn::<S, R>(old(peerlist)@, peer_id),
{
    match disconnect_peer(peer_id.clone(), peerlist) {
        Step::Done(Ok(())) => take_off(peer_id, peerlist),
        Step::Send {
            message,
            rest: Rest { if_unsent, todo: Todo::Shutdown { sender, .. } },
        } => {
            let todo = Todo::Shutdown { sender, remove: Some(peer_id) };
            Step::Send { message, rest: Rest { if_unsent, todo } }
        },
        step => step,
    }
}

/// The name of a peer for which none was given.
pub open spec fn alias_or_default(alias: Option<String>, peer_id: PeerId) -> String {
    match alias {
        Some(alias) => alias,
        None => peer_id.alias,
    }
}

/// The step `step`, but that the peer is dialed where the handling would have
/// succeeded.
pub open spec fn with_dial<S, R>(step: StepView<S, R>, peer_id: PeerId) -> StepView<S, R> {
    match step {
        StepView::Send { message, rest: Rest { if_unsent, todo: Todo::Finish } } => StepView::Send {
            message,
            rest: Rest { if_unsent, todo: Todo::Dial(peer_id) },
        },
        step => step,
    }
}

/// The first step of carrying out a command, where `admission` is what the
/// rules of the node say of a peer that the command is to add.
pub open spec fn command_turn<S, R>(
    list: PeerListView<S>,
    command: Command,
    admission: Result<(), PeerError>,
) -> (PeerListView<S>, StepView<S, R>) {
    match command {
        Command::AddPeer { peer_id, multiaddr, alias, relation } => {
            let info = PeerInfo {
                address: multiaddr,
                alias: alias_or_default(alias, peer_id),
                relation,
            };
            let (after, step) = add_turn::<S, R>(list, peer_id, info, admission);
            (after, if relation == PeerRelation::Known { with_dial(step, peer_id) } else { step })
        },
        Command::BanAddress { address } => if list.banned_addresses.contains(address@) {
            (list, StepView::Done(Err(Error::Peer(PeerError::AddressAlreadyBanned(address)))))
        } else {
            (
                PeerListView {
                    banned_addresses: list.banned_addresses.insert(address@),
                    ..list
                },
                StepView::event(Event::AddressBanned { address }, Todo::Finish),
            )
        },
        Command::BanPeer { peer_id } => if list.banned_peers.contains(peer_id@) {
            (list, StepView::Done(Err(Error::Peer(PeerError::PeerAlreadyBanned(peer_id)))))
        } else {
            (
                PeerListView { banned_peers: list.banned_peers.insert(peer_id@), ..list },
                StepView::event(Event::PeerBanned { peer_id }, Todo::Finish),
            )
        },
        Command::ChangeRelation { peer_id, to } => if list.peers.contains_key(peer_id@) {
            (
                list.with_info(
                    peer_id@,
                    PeerInfo { relation: to, ..list.peers[peer_id@].info },
                ),
                StepView::Done(Ok(())),
            )
        } else {
            (list, StepView::Done(Err(Error::Peer(PeerError::PeerNotPresent(peer_id)))))
        },
        Command::DialAddress { address } => (
            list,
            StepView::command(Command::DialAddress { address }),
        ),
        Command::DialPeer { peer_id } => (list, StepView::command(Command::DialPeer { peer_id })),
        Command::DisconnectPeer { peer_id } => disconnect_turn(list, peer_id),
        Command::RemovePeer { peer_id } => remove_turn(list, peer_id),
        Command::UnbanAddress { address } => if list.banned_addresses.contains(address@) {
            (
                PeerListView {
                    banned_addresses: list.banned_addresses.remove(address@),
                    ..list
                },
                StepView::event(Event::AddressUnbanned { address }, Todo::Finish),
            )
        } else {
            (list, StepView::Done(Err(Error::Peer(PeerError::AddressNotBanned(address)))))
        },
        Command::UnbanPeer { peer_id } => if list.banned_peers.contains(peer_id@) {
            (
                PeerListView { banned_peers: list.banned_peers.remove(peer_id@), ..list },
                StepView::event(Event::PeerUnbanned { peer_id }, Todo::Finish),
            )
        } else {
            (list, StepView::Done(Err(Error::Peer(PeerError::PeerNotBanned(peer_id)))))
        },
    }
}

/// Takes the first step of carrying out a command, where `admission` is what
/// the rules of the node say of a peer that the command is to add.
pub fn process_command<S, R>(
    command: Command,
    admission: Result<(), PeerError>,
    peerlist: &mut PeerList<S>,
) -> (step: Step<S, R>)
    requires
        old(peerlist).wf(),
    ensures
        final(peerlist).wf(),
        (final(peerlist)@, step@) == command_turn::<S, R>(old(peerlist)@, command, admission),
{
    match command {
        Command::AddPeer { peer_id, multiaddr, alias, relation } => {
            let alias = match alias {
                Some(alias) => alias,
                None => peer_id.alias.clone(),
            };
            let step = add_peer(
                peer_id.clone(),
                multiaddr,
                alias,
                relation,
                admission,
                peerlist,
            );
            // Automatically connect to "known" peers.
            if relation.is_known() {
                match step {
                    Step::Send { message, rest: Rest { if_unsent, todo: Todo::Finish } } => {
                        let rest = Rest { if_unsent, todo: Todo::Dial(peer_id) };
                        Step::Send { message, rest }
                    },
                    step => step,
                }
            } else {
                step
            }
        },
        Command::BanAddress { address } => match peerlist.ban_address(address.clone()) {
            Ok(()) => send_event(Event::AddressBanned { address }, Todo::Finish),
            Err(error) => {
                assert(peerlist@ =~= old(peerlist)@);
                Step::Done(Err(Error::Peer(error)))
            },
        },
        Command::BanPeer { peer_id } => match peerlist.ban_peer(peer_id.clone()) {
            Ok(()) => send_event(Event::PeerBanned { peer_id }, Todo::Finish),
            Err(error) => {
                assert(peerlist@ =~= old(peerlist)@);
                Step::Done(Err(Error::Peer(error)))
            },
        },
        Command::ChangeRelation { peer_id, to } => match peerlist.update_relation(&peer_id, to) {
            Ok(()) => Step::Done(Ok(())),
            Err(error) => Step::Done(Err(Error::Peer(error))),
        },
        Command::DialAddress { address } => send_command(Command::DialAddress { address }),
        Command::DialPeer { peer_id } => send_command(Command::DialPeer { peer_id }),
        Command::DisconnectPeer { peer_id } => disconnect_peer(peer_id, peerlist),
        Command::RemovePeer { peer_id } => remove_peer(peer_id, peerlist),
        Command::UnbanAddress { address } => match peerlist.unban_address(&address) {
            Ok(()) => send_event(Event::AddressUnbanned { address }, Todo::Finish),
            Err(error) => {
                assert(peerlist@ =~= old(peerlist)@);
                Step::Done(Err(Error::Peer(error)))
            },
        },
        Command::UnbanPeer { peer_id } => match peerlist.unban_peer(&peer_id) {
            Ok(()) => send_event(Event::PeerUnbanned { peer_id }, Todo::Finish),
            Err(error) => {
                assert(peerlist@ =~= old(peerlist)@);
                Step::Done(Err(Error::Peer(error)))
            },
        },
    }
}

/// Following the end of the gossip protocol with a peer: a known peer is noted
/// as disconnected, an unknown one is forgotten.
pub open spec fn dropped_turn<S, R>(list: PeerListView<S>, peer_id: PeerId) -> (
    PeerListView<S>,
    StepView<S, R>,
) {
    (
        if list.is_unknown(peer_id@) {
            list.without_peer(peer_id@)
        } else if list.peers.contains_key(peer_id@) {
            list.with_state(peer_id@, PeerState::Disconnected)
        } else {
            list
        },
        StepView::event(Event::PeerDisconnected { peer_id }, Todo::Finish),
    )
}

/// Noting that a listed peer is connected through `kept`, and announcing it.
pub open spec fn connect_turn<S, R>(
    list: PeerListView<S>,
    peer_id: PeerId,
    gossip_in: R,
    gossip_out: S,
    kept: S,
) -> (PeerListView<S>, StepView<S, R>) {
    (
        list.with_state(peer_id@, PeerState::Connected(kept)),
        StepView::event(
            Event::PeerConnected {
                peer_id,
                info: list.peers[peer_id@].info,
                gossip_in,
                gossip_out,
            },
            Todo::Finish,
        ),
    )
}

fn connect<S, R>(
    peer_id: PeerId,
    gossip_in: R,
    gossip_out: S,
    kept: S,
    peerlist: &mut PeerList<S>,
) -> (step: Step<S, R>)
    requires
        old(peerlist).wf(),
        old(peerlist)@.peers.contains_key(peer_id@),
    ensures
        final(peerlist).wf(),
        (final(peerlist)@, step@) == connect_turn::<S, R>(
            old(peerlist)@,
            peer_id,
            gossip_in,
            gossip_out,
            kept,
        ),
{
    let info = peerlist.info(&peer_id).unwrap();
    let _ = peerlist.set_connected(&peer_id, kept);
    send_event(Event::PeerConnected { peer_id, info, gossip_in, gossip_out }, Todo::Finish)
}

/// Following that the gossip protocol with a peer was set up: a peer that is
/// not listed is added as an unknown one first, if that is admitted.
pub open spec fn established_turn<S, R>(
    list: PeerListView<S>,
    peer_id: PeerId,
    peer_addr: Multiaddr,
    gossip_in: R,
    gossip_out: S,
    kept: S,
    admission: Result<(), PeerError>,
) -> (PeerListView<S>, StepView<S, R>) {
    if list.peers.contains_key(peer_id@) {
        connect_turn(list, peer_id, gossip_in, gossip_out, kept)
    } else {
        match admission {
            Ok(()) => {
                let info = PeerInfo {
                    address: peer_addr,
                    alias: peer_id.alias,
                    relation: PeerRelation::Unknown,
                };
                (
                    list.with_peer(
                        peer_id@,
                        Peer { id: peer_id, info, state: PeerState::Disconnected },
                    ),
                    StepView::event(
                        Event::PeerAdded { peer_id, info },
                        Todo::Connect { peer_id, gossip_in, gossip_out, kept },
                    ),
                )
            },
            Err(error) => (list, StepView::Done(Err(Error::Peer(error)))),
        }
    }
}

/// Takes the first step of following an internal event, where `admission` is
/// what the rules of the node say of a peer that is to be added on the fly.
pub fn process_internal_event<S: Clone, R>(
    int_event: InternalEvent<S, R>,
    admission: Result<(), PeerError>,
    peerlist: &mut PeerList<S>,
) -> (step: Step<S, R>)
    requires
        old(peerlist).wf(),
    ensures
        final(peerlist).wf(),
        match int_event {
            InternalEvent::AddressBound { address } => {
                &&& final(peerlist)@ == old(peerlist)@
                &&& step@ == StepView::<S, R>::event(Event::AddressBound { address }, Todo::Finish)
            },
            InternalEvent::ProtocolDropped { peer_id } => (final(peerlist)@, step@)
                == dropped_turn::<S, R>(old(peerlist)@, peer_id),
            InternalEvent::ProtocolEstablished { peer_id, peer_addr, gossip_in, gossip_out, .. } =>
            exists|kept: S| #[trigger]
                cloned(gossip_out, kept) && (final(peerlist)@, step@) == established_turn::<S, R>(
                    old(peerlist)@,
                    peer_id,
                    peer_addr,
                    gossip_in,
                    gossip_out,
                    kept,
                    admission,
                ),
        },
        int_event matches InternalEvent::AddressBound { address } ==> step == (Step::<S, R>::Send {
            message: Message::Event(Event::AddressBound { address }),
            rest: Rest { if_unsent: Some(Error::SendingEventFailed), todo: Todo::Finish },
        }),
{
    match int_event {
        InternalEvent::AddressBound { address } => send_event(
            Event::AddressBound { address },
            Todo::Finish,
        ),
        InternalEvent::ProtocolDropped { peer_id } => {
            // Try to disconnect, but ignore errors in case the peer was disconnected already.
            let _ = peerlist.set_disconnected(&peer_id);
            // Try to remove unknown peers.
            let _ = peerlist.remove_unknown(&peer_id);
            assert(peerlist@ =~= dropped_turn::<S, R>(old(peerlist)@, peer_id).0);
            send_event(Event::PeerDisconnected { peer_id }, Todo::Finish)
        },
        InternalEvent::ProtocolEstablished { peer_id, peer_addr, gossip_in, gossip_out, .. } => {
            // The list keeps a clone of the sender in order to send a shutdown signal.
            let kept = gossip_out.clone();
            assert(cloned(gossip_out, kept));
            if peerlist.contains(&peer_id) {
                return connect(peer_id, gossip_in, gossip_out, kept, peerlist);
            }
            // In case the peer doesn't exist yet, its info is made up on the fly.
            let peer_info = PeerInfo {
                address: peer_addr,
                alias: peer_id.alias.clone(),
                relation: PeerRelation::Unknown,
            };
            match peerlist.insert_peer(peer_id.clone(), peer_info.clone(), admission) {
                Ok(()) => send_event(
                    Event::PeerAdded { peer_id: peer_id.clone(), info: peer_info },
                    Todo::Connect { peer_id, gossip_in, gossip_out, kept },
                ),
                Err((_, _, error)) => Step::Done(Err(Error::Peer(error))),
            }
        },
    }
}

/// The step that follows a message of which it is known whether it could be
/// sent.
pub open spec fn resume_turn<S, R>(list: PeerListView<S>, rest: Rest<S, R>, sent: bool) -> (
    PeerListView<S>,
    StepView<S, R>,
) {
    if !sent && rest.if_unsent is Some {
        (list, StepView::Done(Err(rest.if_unsent->0)))
    } else {
        match rest.todo {
            Todo::Finish => (list, StepView::Done(Ok(()))),
            Todo::Fail(error) => (list, StepView::Done(Err(error))),
            Todo::Dial(peer_id) => (list, StepView::command(Command::DialPeer { peer_id })),
            Todo::Shutdown { sender, remove } => (
                list,
                StepView::shutdown(
                    sender,
                    match remove {
                        Some(peer_id) => Todo::Remove(peer_id),
                        None => Todo::Finish,
                    },
                ),
            ),
            Todo::Remove(peer_id) => take_off_turn(list, peer_id),
            Todo::Connect { peer_id, gossip_in, gossip_out, kept } => connect_turn(
                list,
                peer_id,
                gossip_in,
                gossip_out,
                kept,
            ),
        }
    }
}

/// Takes the step that follows a message, where `sent` says whether the message
/// could be sent.
///
/// A peer that was added on the fly and is still to be noted as connected has
/// to be on the list.
pub fn resume<S, R>(rest: Rest<S, R>, sent: bool, peerlist: &mut PeerList<S>) -> (step: Step<S, R>)
    requires
        old(peerlist).wf(),
        rest.todo matches Todo::Connect { peer_id, .. } ==> old(peerlist)@.peers.contains_key(
            peer_id@,
        ),
    ensures
        final(peerlist).wf(),
        (final(peerlist)@, step@) == resume_turn(old(peerlist)@, rest, sent),
{
    if !sent {
        if let Some(error) = rest.if_unsent {
            return Step::Done(Err(error));
        }
    }
    match rest.todo {
        Todo::Finish => Step::Done(Ok(())),
        Todo::Fail(error) => Step::Done(Err(error)),
        Todo::Dial(peer_id) => send_command(Command::DialPeer { peer_id }),
        Todo::Shutdown { sender, remove } => {
            let todo = match remove {
                Some(peer_id) => Todo::Remove(peer_id),
                None => Todo::Finish,
            };
            // The signal has to be a Vec<u8>, but it doesn't have to allocate.
            let message = Message::Shutdown { sender, signal: Vec::new() };
            Step::Send { message, rest: Rest { if_unsent: None, todo } }
        },
        Todo::Remove(peer_id) => take_off(peer_id, peerlist),
        Todo::Connect { peer_id, gossip_in, gossip_out, kept } => connect(
            peer_id,
            gossip_in,
            gossip_out,
            kept,
            peerlist,
        ),
    }
}

/// The commands that have each known peer dialed that is not connected, under
/// the id that was given when the peer was added, each with the alias of the
/// peer.
pub fn check_peer_states<S>(peerlist: &PeerList<S>) -> (dials: Vec<(String, Command)>)
    requires
        peerlist.wf(),
    ensures
        forall|i: int, j: int|
            0 <= i < j < dials@.len() ==> dialed(dials@[i].1) != dialed(dials@[j].1),
        forall|i: int|
            0 <= i < dials@.len() ==> {
                &&& (#[trigger] dials@[i]).1 is DialPeer
                &&& peerlist@.is_due_for_reconnect(dialed(dials@[i].1))
                &&& dials@[i].1->DialPeer_peer_id == peerlist@.peers[dialed(dials@[i].1)].id
                &&& dials@[i].0 == peerlist@.peers[dialed(dials@[i].1)].info.alias
            },
        forall|id: Seq<char>| #[trigger]
            peerlist@.is_due_for_reconnect(id) ==> exists|i: int|
                0 <= i < dials@.len() && dialed((#[trigger] dials@[i]).1) == id,
        forall|i: int|
            0 <= i < dials@.len() ==> ((#[trigger] dials@[i]).1 matches Command::DialPeer {
                peer_id,
            } && {
                &&& peerlist@.peers.contains_key(peer_id@)
                &&& peerlist@.peers[peer_id@].id == peer_id
                &&& peerlist@.peers[peer_id@].info.relation == PeerRelation::Known
                &&& peerlist@.peers[peer_id@].state is Disconnected
                &&& peerlist@.peers[peer_id@].info.alias == dials@[i].0
            }),
        forall|id: Seq<char>| #[trigger]
            peerlist@.peers.contains_key(id) && peerlist@.peers[id].info.relation
                == PeerRelation::Known && peerlist@.peers[id].state is Disconnected ==> exists|
                i: int,
            |
                0 <= i < dials@.len() && (#[trigger] dials@[i]).1->DialPeer_peer_id@ == id,
{
    let due: Vec<(PeerId, String)> = peerlist.peers_to_reconnect();
    let mut dials: Vec<(String, Command)> = Vec::new();
    for n in 0..due.len()
        invariant
            dials@.len() == n,
            forall|i: int|
                0 <= i < n ==> {
                    &&& (#[trigger] dials@[i]).0 == due@[i].1
                    &&& dials@[i].1 == (Command::DialPeer { peer_id: due@[i].0 })
                },
    {
        let command = Command::DialPeer { peer_id: due[n].0.clone() };
        dials.push((due[n].1.clone(), command));
    }
    assert forall|id: Seq<char>| #[trigger] peerlist@.is_due_for_reconnect(id) implies exists|
        i: int,
    |
        0 <= i < dials@.len() && dialed((#[trigger] dials@[i]).1) == id by {
        let i = choose|i: int| 0 <= i < due@.len() && (#[trigger] due@[i]).0@ == id;
        assert(dialed(dials@[i].1) == id);
    }
    dials
}

/// The id of the peer that a command has dialed.
pub open spec fn dialed(command: Command) -> Seq<char>
    recommends
        command is DialPeer,
{
    command->DialPeer_peer_id@
}

/// How many milliseconds to wait before the first check of the states of the
/// peers. The delay is random, and short, so that nodes that are started at the
/// same time do not all dial each other at once.
pub fn start_delay_millis() -> (millis: u64)
    ensures
        millis < 1000,
{
    random_in_range(0, 1000)
}

} // verus!
