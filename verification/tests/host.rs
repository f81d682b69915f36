use bee_node::network::command::Command;
use bee_node::network::event::{ConnectionInfo, Event, InternalEvent, Origin};
use bee_node::network::host::{
    check_peer_states, process_command, process_internal_event, resume, Error, Message, Rest, Senders, Step, Todo,
};
use bee_node::network::list::PeerList;
use bee_node::network::peer::{Multiaddr, PeerError, PeerId, PeerInfo, PeerRelation};

type List = PeerList<u32>;

fn id(text: &str) -> PeerId {
    PeerId { text: text.to_string(), alias: format!("short {text}") }
}

fn addr(text: &str) -> Multiaddr {
    Multiaddr { text: text.to_string() }
}

fn info(address: &str, alias: &str, relation: PeerRelation) -> PeerInfo {
    PeerInfo { address: addr(address), alias: alias.to_string(), relation }
}

fn add(peer: &str, alias: Option<&str>, relation: PeerRelation) -> Command {
    Command::AddPeer {
        peer_id: id(peer),
        multiaddr: addr("/ip4/1.2.3.4"),
        alias: alias.map(|alias| alias.to_string()),
        relation,
    }
}

fn established(peer: &str, sender: u32) -> InternalEvent<u32, u8> {
    InternalEvent::ProtocolEstablished {
        peer_id: id(peer),
        peer_addr: addr("/ip4/5.6.7.8"),
        conn_info: ConnectionInfo { origin: Origin::Inbound },
        gossip_in: 77,
        gossip_out: sender,
    }
}

/// Takes all steps. The message with the number `lost` cannot be sent.
fn run(mut step: Step<u32, u8>, list: &mut List, lost: Option<usize>) -> (Vec<String>, Result<(), Error>) {
    let mut messages = Vec::new();
    loop {
        match step {
            Step::Done(result) => return (messages, result),
            Step::Send { message, rest } => {
                let sent = lost != Some(messages.len());
                messages.push(format!("{message:?}"));
                step = resume(rest, sent, list);
            }
        }
    }
}

fn command_with(
    list: &mut List,
    command: Command,
    admission: Result<(), PeerError>,
    lost: Option<usize>,
) -> (Vec<String>, Result<(), Error>) {
    let step = process_command(command, admission, list);
    run(step, list, lost)
}

fn command(list: &mut List, command: Command) -> (Vec<String>, Result<(), Error>) {
    command_with(list, command, Ok(()), None)
}

fn event(list: &mut List, event: InternalEvent<u32, u8>) -> (Vec<String>, Result<(), Error>) {
    let step = process_internal_event(event, Ok(()), list);
    run(step, list, None)
}

fn text(message: Message<u32, u8>) -> String {
    format!("{message:?}")
}

fn event_text(event: Event<u32, u8>) -> String {
    text(Message::Event(event))
}

#[test]
fn known_peer_is_added_and_dialed() {
    let mut list = List::new();
    let (messages, result) = command(&mut list, add("a", Some("ada"), PeerRelation::Known));
    let ada = info("/ip4/1.2.3.4", "ada", PeerRelation::Known);
    assert_eq!(result, Ok(()));
    assert_eq!(
        messages,
        vec![
            event_text(Event::PeerAdded { peer_id: id("a"), info: ada.clone() }),
            text(Message::Command(Command::DialPeer { peer_id: id("a") })),
        ]
    );
    assert_eq!(list.info(&id("a")), Ok(ada));
}

#[test]
fn unknown_peer_is_added_under_its_short_id_and_not_dialed() {
    let mut list = List::new();
    let (messages, result) = command(&mut list, add("a", None, PeerRelation::Unknown));
    let unnamed = info("/ip4/1.2.3.4", "short a", PeerRelation::Unknown);
    assert_eq!(result, Ok(()));
    assert_eq!(messages, vec![event_text(Event::PeerAdded { peer_id: id("a"), info: unnamed.clone() })]);
    assert_eq!(list.info(&id("a")), Ok(unnamed));
}

#[test]
fn adding_a_listed_peer_replaces_its_info_and_keeps_its_state() {
    let mut list = List::new();
    event(&mut list, established("a", 5)).1.unwrap();
    let (messages, result) = command(&mut list, add("a", Some("ada"), PeerRelation::Known));
    assert_eq!(result, Ok(()));
    assert_eq!(messages.len(), 2);
    assert_eq!(list.info(&id("a")), Ok(info("/ip4/1.2.3.4", "ada", PeerRelation::Known)));
    assert_eq!(list.set_disconnected(&id("a")), Ok(Some(5)));
}

#[test]
fn peer_that_is_not_admitted_is_reported() {
    let mut list = List::new();
    let reason = PeerError::NotAdmitted("too many".to_string());
    let refused = add("a", None, PeerRelation::Known);
    let (messages, result) = command_with(&mut list, refused, Err(reason.clone()), None);
    // The command is handed back with the name that the peer would have had.
    let named = add("a", Some("short a"), PeerRelation::Known);
    assert_eq!(messages, vec![event_text(Event::CommandFailed { command: named, reason: reason.clone() })]);
    assert_eq!(result, Err(Error::Peer(reason)));
    assert!(!list.contains(&id("a")));
}

#[test]
fn unlisted_duplicate_is_reported_as_not_present() {
    let mut list = List::new();
    let admission = Err(PeerError::PeerIsDuplicate(id("a")));
    let (_, result) = command_with(&mut list, add("a", None, PeerRelation::Known), admission, None);
    assert_eq!(result, Err(Error::Peer(PeerError::PeerNotPresent(id("a")))));
}

#[test]
fn lost_messages_end_the_handling() {
    let mut list = List::new();
    let (messages, result) = command_with(&mut list, add("a", None, PeerRelation::Known), Ok(()), Some(0));
    assert_eq!((messages.len(), result), (1, Err(Error::SendingEventFailed)));
    assert!(list.contains(&id("a")));
    let (messages, result) = command_with(&mut list, add("b", None, PeerRelation::Known), Ok(()), Some(1));
    assert_eq!((messages.len(), result), (2, Err(Error::SendingCommandFailed)));
}

#[test]
fn disconnection_is_announced_before_the_shutdown() {
    let mut list = List::new();
    event(&mut list, established("a", 5)).1.unwrap();
    let (messages, result) = command_with(&mut list, Command::DisconnectPeer { peer_id: id("a") }, Ok(()), Some(1));
    assert_eq!(result, Ok(()));
    assert_eq!(
        messages,
        vec![event_text(Event::PeerDisconnected { peer_id: id("a") }), text(Message::Shutdown { sender: 5, signal: vec![] })]
    );
    // A second time there is nothing to do.
    assert_eq!(command(&mut list, Command::DisconnectPeer { peer_id: id("a") }), (vec![], Ok(())));
}

#[test]
fn missing_peers_are_reported() {
    let mut list = List::new();
    let reason = PeerError::PeerNotPresent(id("a"));
    let report = event_text(Event::CommandFailed {
        command: Command::DisconnectPeer { peer_id: id("a") },
        reason: reason.clone(),
    });
    let expected = (vec![report], Err(Error::Peer(reason)));
    assert_eq!(command(&mut list, Command::DisconnectPeer { peer_id: id("a") }), expected);
    assert_eq!(command(&mut list, Command::RemovePeer { peer_id: id("a") }), expected);
}

#[test]
fn removed_peer_is_disconnected_first() {
    let mut list = List::new();
    event(&mut list, established("a", 5)).1.unwrap();
    let (messages, result) = command(&mut list, Command::RemovePeer { peer_id: id("a") });
    assert_eq!(result, Ok(()));
    assert_eq!(
        messages,
        vec![
            event_text(Event::PeerDisconnected { peer_id: id("a") }),
            text(Message::Shutdown { sender: 5, signal: vec![] }),
            event_text(Event::PeerRemoved { peer_id: id("a") }),
        ]
    );
    assert!(!list.contains(&id("a")));
}

#[test]
fn peer_stays_listed_if_its_disconnection_cannot_be_announced() {
    let mut list = List::new();
    event(&mut list, established("a", 5)).1.unwrap();
    let (messages, result) = command_with(&mut list, Command::RemovePeer { peer_id: id("a") }, Ok(()), Some(0));
    assert_eq!((messages.len(), result), (1, Err(Error::SendingEventFailed)));
    assert!(list.contains(&id("a")));
    // It is not connected any more, and removed right away the next time.
    let removed = event_text(Event::PeerRemoved { peer_id: id("a") });
    assert_eq!(command(&mut list, Command::RemovePeer { peer_id: id("a") }), (vec![removed], Ok(())));
}

#[test]
fn peer_that_is_gone_before_it_is_taken_off_is_reported() {
    let mut list = List::new();
    let rest: Rest<u32, u8> = Rest { if_unsent: None, todo: Todo::Remove(id("a")) };
    let step = resume(rest, true, &mut list);
    let reason = PeerError::PeerNotPresent(id("a"));
    let report = event_text(Event::CommandFailed {
        command: Command::RemovePeer { peer_id: id("a") },
        reason: reason.clone(),
    });
    assert_eq!(run(step, &mut list, None), (vec![report], Err(Error::Peer(reason))));
}

#[test]
fn peers_are_banned_and_unbanned() {
    let mut list = List::new();
    let ban = || Command::BanPeer { peer_id: id("a") };
    let unban = || Command::UnbanPeer { peer_id: id("a") };
    let not_banned = Err(Error::Peer(PeerError::PeerNotBanned(id("a"))));
    assert_eq!(command(&mut list, unban()), (vec![], not_banned));
    let banned = event_text(Event::PeerBanned { peer_id: id("a") });
    assert_eq!(command(&mut list, ban()), (vec![banned], Ok(())));
    assert!(list.is_peer_banned(&id("a")));
    let twice = Err(Error::Peer(PeerError::PeerAlreadyBanned(id("a"))));
    assert_eq!(command(&mut list, ban()), (vec![], twice));
    let unbanned = event_text(Event::PeerUnbanned { peer_id: id("a") });
    assert_eq!(command(&mut list, unban()), (vec![unbanned], Ok(())));
    assert!(!list.is_peer_banned(&id("a")));
}

#[test]
fn addresses_are_banned_and_unbanned() {
    let mut list = List::new();
    let ban = || Command::BanAddress { address: addr("x") };
    let unban = || Command::UnbanAddress { address: addr("x") };
    let not_banned = Err(Error::Peer(PeerError::AddressNotBanned(addr("x"))));
    assert_eq!(command(&mut list, unban()), (vec![], not_banned));
    let banned = event_text(Event::AddressBanned { address: addr("x") });
    assert_eq!(command(&mut list, ban()), (vec![banned], Ok(())));
    assert!(list.is_address_banned(&addr("x")));
    let twice = Err(Error::Peer(PeerError::AddressAlreadyBanned(addr("x"))));
    assert_eq!(command(&mut list, ban()), (vec![], twice));
    let unbanned = event_text(Event::AddressUnbanned { address: addr("x") });
    assert_eq!(command(&mut list, unban()), (vec![unbanned], Ok(())));
    assert!(!list.is_address_banned(&addr("x")));
}

#[test]
fn relation_is_changed() {
    let mut list = List::new();
    let change = || Command::ChangeRelation { peer_id: id("a"), to: PeerRelation::Known };
    let missing = Err(Error::Peer(PeerError::PeerNotPresent(id("a"))));
    assert_eq!(command(&mut list, change()), (vec![], missing));
    command(&mut list, add("a", Some("ada"), PeerRelation::Unknown)).1.unwrap();
    assert_eq!(command(&mut list, change()), (vec![], Ok(())));
    assert_eq!(list.info(&id("a")), Ok(info("/ip4/1.2.3.4", "ada", PeerRelation::Known)));
}

#[test]
fn dial_commands_are_passed_on() {
    let mut list = List::new();
    let dial = || Command::DialAddress { address: addr("x") };
    assert_eq!(command(&mut list, dial()), (vec![text(Message::Command(dial()))], Ok(())));
    let dial = || Command::DialPeer { peer_id: id("a") };
    let passed_on = vec![text(Message::Command(dial()))];
    assert_eq!(command(&mut list, dial()), (passed_on.clone(), Ok(())));
    let lost = command_with(&mut list, dial(), Ok(()), Some(0));
    assert_eq!(lost, (passed_on, Err(Error::SendingCommandFailed)));
}

#[test]
fn bound_addresses_are_announced() {
    let mut list = List::new();
    let bound = InternalEvent::AddressBound { address: addr("x") };
    let announced = event_text(Event::AddressBound { address: addr("x") });
    assert_eq!(event(&mut list, bound), (vec![announced], Ok(())));
}

#[test]
fn unlisted_peer_is_added_on_the_fly_and_forgotten_later() {
    let mut list = List::new();
    let (messages, result) = event(&mut list, established("a", 5));
    let made_up = info("/ip4/5.6.7.8", "short a", PeerRelation::Unknown);
    assert_eq!(result, Ok(()));
    assert_eq!(
        messages,
        vec![
            event_text(Event::PeerAdded { peer_id: id("a"), info: made_up.clone() }),
            event_text(Event::PeerConnected { peer_id: id("a"), info: made_up, gossip_in: 77, gossip_out: 5 }),
        ]
    );
    let (messages, result) = event(&mut list, InternalEvent::ProtocolDropped { peer_id: id("a") });
    assert_eq!(result, Ok(()));
    assert_eq!(messages, vec![event_text(Event::PeerDisconnected { peer_id: id("a") })]);
    assert!(!list.contains(&id("a")));
    // The end of the protocol with a peer that is not listed is announced all the same.
    assert_eq!(event(&mut list, InternalEvent::ProtocolDropped { peer_id: id("a") }).0, messages);
}

#[test]
fn unlisted_peer_that_is_not_admitted_is_not_connected() {
    let mut list = List::new();
    let reason = PeerError::NotAdmitted("too many".to_string());
    let step = process_internal_event(established("a", 5), Err(reason.clone()), &mut list);
    assert_eq!(run(step, &mut list, None), (vec![], Err(Error::Peer(reason))));
    assert!(!list.contains(&id("a")));
}

#[test]
fn listed_peer_keeps_its_info_when_it_connects() {
    let mut list = List::new();
    command(&mut list, add("a", Some("ada"), PeerRelation::Known)).1.unwrap();
    let ada = info("/ip4/1.2.3.4", "ada", PeerRelation::Known);
    let connected =
        event_text(Event::PeerConnected { peer_id: id("a"), info: ada, gossip_in: 77, gossip_out: 5 });
    assert_eq!(event(&mut list, established("a", 5)), (vec![connected], Ok(())));
}

#[test]
fn known_peers_that_are_not_connected_are_dialed_again() {
    let mut list = List::new();
    command(&mut list, add("a", Some("ada"), PeerRelation::Known)).1.unwrap();
    command(&mut list, add("b", Some("bob"), PeerRelation::Unknown)).1.unwrap();
    command(&mut list, add("c", Some("cyd"), PeerRelation::Known)).1.unwrap();
    event(&mut list, established("c", 5)).1.unwrap();
    let dial = |peer: &str, alias: &str| (alias.to_string(), Command::DialPeer { peer_id: id(peer) });
    assert_eq!(check_peer_states(&list), vec![dial("a", "ada")]);
    event(&mut list, InternalEvent::ProtocolDropped { peer_id: id("c") }).1.unwrap();
    assert_eq!(check_peer_states(&list), vec![dial("a", "ada"), dial("c", "cyd")]);
}

#[test]
fn other_peers_are_left_alone() {
    let mut list = List::new();
    event(&mut list, established("a", 5)).1.unwrap();
    event(&mut list, established("b", 6)).1.unwrap();
    command(&mut list, Command::RemovePeer { peer_id: id("a") }).1.unwrap();
    command(&mut list, Command::BanPeer { peer_id: id("b") }).1.unwrap();
    assert_eq!(list.info(&id("b")), Ok(info("/ip4/5.6.7.8", "short b", PeerRelation::Unknown)));
    assert_eq!(list.set_disconnected(&id("b")), Ok(Some(6)));
    assert_eq!(list.info(&id("a")), Err(PeerError::PeerNotPresent(id("a"))));
}

#[test]
fn senders_are_cloned() {
    let senders = Senders { events: 1, internal_events: "two".to_string(), internal_commands: 3u8 };
    let cloned = senders.clone();
    assert_eq!(cloned.events, 1);
    assert_eq!(cloned.internal_events, "two");
    assert_eq!(cloned.internal_commands, 3);
}

#[test]
fn peer_whose_addition_cannot_be_announced_is_not_connected() {
    let mut list = List::new();
    let step = process_internal_event(established("a", 5), Ok(()), &mut list);
    let (messages, result) = run(step, &mut list, Some(0));
    assert_eq!((messages.len(), result), (1, Err(Error::SendingEventFailed)));
    assert_eq!(list.set_disconnected(&id("a")), Ok(None));
}

#[test]
fn peers_are_dialed_under_the_ids_that_they_were_added_with() {
    let mut list = List::new();
    command(&mut list, add("a", Some("ada"), PeerRelation::Known)).1.unwrap();
    command(&mut list, add("b", Some("bob"), PeerRelation::Known)).1.unwrap();
    command(&mut list, add("a", Some("new name"), PeerRelation::Known)).1.unwrap();
    let due = list.peers_to_reconnect();
    assert_eq!(due, vec![(id("a"), "new name".to_string()), (id("b"), "bob".to_string())]);
    assert_eq!(due[0].0.alias, "short a");
    assert_eq!(due[1].0.alias, "short b");
}

#[test]
fn adding_twice_changes_nothing_more() {
    let mut list = List::new();
    command(&mut list, add("a", Some("ada"), PeerRelation::Known)).1.unwrap();
    let first = list.peers_to_reconnect();
    let (messages, result) = command(&mut list, add("a", Some("ada"), PeerRelation::Known));
    assert_eq!((messages.len(), result), (2, Ok(())));
    assert_eq!(list.peers_to_reconnect(), first);
    assert_eq!(list.info(&id("a")), Ok(info("/ip4/1.2.3.4", "ada", PeerRelation::Known)));
}

#[test]
fn shutdown_signal_is_empty() {
    let mut list = List::new();
    let rest: Rest<u32, u8> = Rest { if_unsent: None, todo: Todo::Shutdown { sender: 9, remove: None } };
    match resume(rest, true, &mut list) {
        Step::Send { message: Message::Shutdown { sender, signal }, .. } => {
            assert_eq!(sender, 9);
            assert!(signal.is_empty());
        }
        step => panic!("unexpected step: {step:?}"),
    }
}
