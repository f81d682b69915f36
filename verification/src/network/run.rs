//! The handling of a command or an event as a whole, where nothing else changes
//! the list of peers in the meantime.

use crate::network::command::Command;
use crate::network::host::{
    command_turn, dropped_turn, established_turn, resume_turn, Error, MessageView, StepView, Todo,
};
use crate::network::list::PeerListView;
use crate::network::peer::{Multiaddr, PeerError, PeerId};
use vstd::prelude::*;

verus! {

/// What the handling of a command or an event has come to.
pub struct Run<S, R> {
    /// The list of peers at the end.
    pub list: PeerListView<S>,
    /// The messages that were to be sent, in their order.
    pub messages: Seq<MessageView<S, R>>,
    /// Whether the handling succeeded.
    pub result: Result<(), Error>,
}

/// How many messages a step, and all that can follow it, asks to be sent, at
/// most.
pub open spec fn messages_left<S, R>(step: StepView<S, R>) -> nat {
    match step {
        StepView::Done(_) => 0,
        StepView::Send { rest, .. } => match rest.todo {
            Todo::Finish => 1,
            Todo::Fail(_) => 1,
            Todo::Dial(_) => 2,
            Todo::Shutdown { remove: None, .. } => 2,
            Todo::Shutdown { remove: Some(_), .. } => 3,
            Todo::Remove(_) => 2,
            Todo::Connect { .. } => 2,
        },
    }
}

/// What follows a step, where `sendable` says of the messages from the `n`th on
/// which of them can be sent.
pub open spec fn run_from<S, R>(
    list: PeerListView<S>,
    step: StepView<S, R>,
    sendable: spec_fn(nat) -> bool,
    n: nat,
) -> Run<S, R>
    decreases messages_left(step),
{
    match step {
        StepView::Done(result) => Run { list, messages: seq![], result },
        StepView::Send { message, rest } => {
            let (list, next) = resume_turn(list, rest, sendable(n));
            let run = run_from(list, next, sendable, n + 1);
            Run { messages: seq![message] + run.messages, ..run }
        },
    }
}

/// Carrying out a command, where `sendable` says which of the messages can be
/// sent.
pub open spec fn command_run<S, R>(
    list: PeerListView<S>,
    command: Command,
    admission: Result<(), PeerError>,
    sendable: spec_fn(nat) -> bool,
) -> Run<S, R> {
    let (list, step) = command_turn::<S, R>(list, command, admission);
    run_from(list, step, sendable, 0)
}

/// Following that the gossip protocol with a peer was set up, where `kept` is
/// the sender that the list keeps, and `sendable` says which of the messages can
/// be sent.
pub open spec fn established_run<S, R>(
    list: PeerListView<S>,
    peer_id: PeerId,
    peer_addr: Multiaddr,
    gossip_in: R,
    gossip_out: S,
    kept: S,
    admission: Result<(), PeerError>,
    sendable: spec_fn(nat) -> bool,
) -> Run<S, R> {
    let (list, step) = established_turn::<S, R>(
        list,
        peer_id,
        peer_addr,
        gossip_in,
        gossip_out,
        kept,
        admission,
    );
    run_from(list, step, sendable, 0)
}

/// Following the end of the gossip protocol with a peer, where `sendable` says
/// which of the messages can be sent.
pub open spec fn dropped_run<S, R>(
    list: PeerListView<S>,
    peer_id: PeerId,
    sendable: spec_fn(nat) -> bool,
) -> Run<S, R> {
    let (list, step) = dropped_turn::<S, R>(list, peer_id);
    run_from(list, step, sendable, 0)
}

} // verus!
