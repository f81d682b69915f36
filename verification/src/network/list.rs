//! The list of the peers of a node.

use crate::network::peer::{Multiaddr, PeerError, PeerId, PeerInfo, PeerRelation, PeerState};
use crate::network::text_set::TextSet;
use vstd::prelude::*;

verus! {

/// A peer of a node: its id, as it was given when the peer was added, what is
/// known of the peer, and whether it is connected.
pub struct Peer<S> {
    pub id: PeerId,
    pub info: PeerInfo,
    pub state: PeerState<S>,
}

/// What a list of peers holds. Peers are found by the texts of their ids,
/// addresses by their texts.
#[verifier::ext_equal]
pub struct PeerListView<S> {
    pub peers: Map<Seq<char>, Peer<S>>,
    pub banned_peers: Set<Seq<char>>,
    pub banned_addresses: Set<Seq<char>>,
}

impl<S> PeerListView<S> {
    /// Whether the peer of this id is listed as an unknown one.
    pub open spec fn is_unknown(self, id: Seq<char>) -> bool {
        self.peers.contains_key(id) && self.peers[id].info.relation == PeerRelation::Unknown
    }

    /// Whether the peer of this id is listed as a known one, but not connected.
    pub open spec fn is_due_for_reconnect(self, id: Seq<char>) -> bool {
        &&& self.peers.contains_key(id)
        &&& self.peers[id].info.relation == PeerRelation::Known
        &&& self.peers[id].state is Disconnected
    }

    /// The list in which this peer stands under this id, and all else is as
    /// it is here.
    pub open spec fn with_peer(self, id: Seq<char>, peer: Peer<S>) -> Self {
        PeerListView { peers: self.peers.insert(id, peer), ..self }
    }

    /// The list without the peer of this id.
    pub open spec fn without_peer(self, id: Seq<char>) -> Self {
        PeerListView { peers: self.peers.remove(id), ..self }
    }

    /// The list in which other things are known of the peer of this id.
    pub open spec fn with_info(self, id: Seq<char>, info: PeerInfo) -> Self {
        self.with_peer(id, Peer { info, ..self.peers[id] })
    }

    /// The list in which the peer of this id is in another state.
    pub open spec fn with_state(self, id: Seq<char>, state: PeerState<S>) -> Self {
        self.with_peer(id, Peer { state, ..self.peers[id] })
    }
}

/// The peers of a node, and the peers and addresses that are banned.
pub struct PeerList<S> {
    peers: Vec<Peer<S>>,
    banned_peers: TextSet,
    banned_addresses: TextSet,
}

spec fn ids<S>(entries: Seq<Peer<S>>) -> Seq<Seq<char>> {
    entries.map_values(|entry: Peer<S>| entry.id@)
}

spec fn peers_by_id<S>(entries: Seq<Peer<S>>) -> Map<Seq<char>, Peer<S>> {
    Map::new(
        |id: Seq<char>| ids(entries).contains(id),
        |id: Seq<char>| entries[ids(entries).index_of(id)],
    )
}

proof fn lemma_peer_of_entry<S>(entries: Seq<Peer<S>>, i: int)
    requires
        ids(entries).no_duplicates(),
        0 <= i < entries.len(),
    ensures
        peers_by_id(entries).contains_key(entries[i].id@),
        peers_by_id(entries)[entries[i].id@] == entries[i],
{
    assert(ids(entries)[i] == entries[i].id@);
}

proof fn lemma_peers_are<S>(entries: Seq<Peer<S>>, peers: Map<Seq<char>, Peer<S>>)
    requires
        ids(entries).no_duplicates(),
        forall|i: int|
            0 <= i < entries.len() ==> peers.contains_key((#[trigger] entries[i]).id@)
                && peers[entries[i].id@] == entries[i],
        forall|id: Seq<char>| peers.contains_key(id) ==> ids(entries).contains(id),
    ensures
        peers_by_id(entries) == peers,
{
    assert forall|id: Seq<char>| ids(entries).contains(id) implies peers.contains_key(id)
        && peers_by_id(entries)[id] == peers[id] by {
        let i = ids(entries).index_of(id);
        assert(ids(entries)[i] == entries[i].id@);
    }
    assert(peers_by_id(entries) =~= peers);
}

proof fn lemma_push_entry<S>(entries: Seq<Peer<S>>, entry: Peer<S>)
    requires
        ids(entries).no_duplicates(),
        !peers_by_id(entries).contains_key(entry.id@),
    ensures
        ids(entries.push(entry)).no_duplicates(),
        peers_by_id(entries.push(entry)) == peers_by_id(entries).insert(entry.id@, entry),
{
    let after = entries.push(entry);
    let peers = peers_by_id(entries).insert(entry.id@, entry);
    assert(ids(after) == ids(entries).push(entry.id@));
    assert forall|i: int| 0 <= i < after.len() implies peers.contains_key(
        (#[trigger] after[i]).id@,
    ) && peers[after[i].id@] == after[i] by {
        if i < entries.len() {
            lemma_peer_of_entry(entries, i);
        }
    }
    assert forall|id: Seq<char>| peers.contains_key(id) implies ids(after).contains(id) by {
        if id == entry.id@ {
            assert(ids(after)[entries.len() as int] == id);
        } else {
            let i = ids(entries).index_of(id);
            assert(ids(after)[i] == id);
        }
    }
    lemma_peers_are(after, peers);
}

proof fn lemma_remove_entry<S>(entries: Seq<Peer<S>>, i: int)
    requires
        ids(entries).no_duplicates(),
        0 <= i < entries.len(),
    ensures
        ids(entries.remove(i)).no_duplicates(),
        peers_by_id(entries.remove(i)) == peers_by_id(entries).remove(entries[i].id@),
{
    let after = entries.remove(i);
    let peers = peers_by_id(entries).remove(entries[i].id@);
    assert(ids(after) == ids(entries).remove(i));
    assert forall|j: int| 0 <= j < after.len() implies peers.contains_key(
        (#[trigger] after[j]).id@,
    ) && peers[after[j].id@] == after[j] by {
        let k = if j < i { j } else { j + 1 };
        lemma_peer_of_entry(entries, k);
        assert(ids(entries)[k] != ids(entries)[i]);
    }
    assert forall|id: Seq<char>| peers.contains_key(id) implies ids(after).contains(id) by {
        let k = ids(entries).index_of(id);
        assert(ids(after)[if k < i { k } else { k - 1 }] == id);
    }
    lemma_peers_are(after, peers);
}

proof fn lemma_update_entry<S>(entries: Seq<Peer<S>>, i: int, peer: Peer<S>)
    requires
        ids(entries).no_duplicates(),
        0 <= i < entries.len(),
        peer.id == entries[i].id,
    ensures
        ids(entries.update(i, peer)).no_duplicates(),
        peers_by_id(entries.update(i, peer)) == peers_by_id(entries).insert(entries[i].id@, peer),
{
    let after = entries.update(i, peer);
    let peers = peers_by_id(entries).insert(entries[i].id@, peer);
    assert(ids(after) == ids(entries));
    assert forall|j: int| 0 <= j < after.len() implies peers.contains_key(
        (#[trigger] after[j]).id@,
    ) && peers[after[j].id@] == after[j] by {
        lemma_peer_of_entry(entries, j);
        assert(j != i ==> ids(entries)[j] != ids(entries)[i]);
    }
    assert forall|id: Seq<char>| peers.contains_key(id) implies ids(after).contains(id) by {
        assert(ids(entries)[i] == entries[i].id@);
    }
    lemma_peers_are(after, peers);
}

impl<S> View for PeerList<S> {
    type V = PeerListView<S>;

    closed spec fn view(&self) -> PeerListView<S> {
        PeerListView {
            peers: peers_by_id(self.peers@),
            banned_peers: self.banned_peers@,
            banned_addresses: self.banned_addresses@,
        }
    }
}

impl<S> PeerList<S> {
    /// No peer is listed twice, and nothing is banned twice.
    pub closed spec fn wf(&self) -> bool {
        &&& ids(self.peers@).no_duplicates()
        &&& self.banned_peers.wf()
        &&& self.banned_addresses.wf()
    }

    /// A list without peers and without bans.
    pub fn new() -> (list: Self)
        ensures
            list.wf(),
            list@.peers == Map::<Seq<char>, Peer<S>>::empty(),
            list@.banned_peers == Set::<Seq<char>>::empty(),
            list@.banned_addresses == Set::<Seq<char>>::empty(),
    {
        let list = PeerList {
            peers: Vec::new(),
            banned_peers: TextSet::new(),
            banned_addresses: TextSet::new(),
        };
        assert(list@.peers == Map::<Seq<char>, Peer<S>>::empty());
        list
    }

    fn position(&self, peer_id: &PeerId) -> (position: Option<usize>)
        requires
            self.wf(),
        ensures
            match position {
                Some(i) => {
                    &&& i < self.peers@.len()
                    &&& self.peers@[i as int].id@ == peer_id@
                    &&& self@.peers.contains_key(peer_id@)
                    &&& self@.peers[peer_id@] == self.peers@[i as int]
                },
                None => !self@.peers.contains_key(peer_id@),
            },
    {
        for i in 0..self.peers.len()
            invariant
                self.wf(),
                forall|j: int| 0 <= j < i ==> ids(self.peers@)[j] != peer_id@,
        {
            assert(ids(self.peers@)[i as int] == self.peers@[i as int].id@);
            if self.peers[i].id.text == peer_id.text {
                proof {
                    lemma_peer_of_entry(self.peers@, i as int);
                }
                return Some(i);
            }
        }
        None
    }

    /// Whether the peer is listed.
    pub fn contains(&self, peer_id: &PeerId) -> (listed: bool)
        requires
            self.wf(),
        ensures
            listed == self@.peers.contains_key(peer_id@),
    {
        self.position(peer_id).is_some()
    }

    /// What is known of a peer.
    pub fn info(&self, peer_id: &PeerId) -> (info: Result<PeerInfo, PeerError>)
        requires
            self.wf(),
        ensures
            info == if self@.peers.contains_key(peer_id@) {
                Ok::<PeerInfo, PeerError>(self@.peers[peer_id@].info)
            } else {
                Err(PeerError::PeerNotPresent(*peer_id))
            },
    {
        match self.position(peer_id) {
            Some(i) => Ok(self.peers[i].info.clone()),
            None => Err(PeerError::PeerNotPresent(peer_id.clone())),
        }
    }

    /// Adds a peer that is not connected.
    ///
    /// A peer that is listed already is a duplicate. Of any other peer,
    /// `admission` is what the rules of the node say of adding it. A peer that
    /// is not added is handed back with the reason.
    pub fn insert_peer(
        &mut self,
        peer_id: PeerId,
        info: PeerInfo,
        admission: Result<(), PeerError>,
    ) -> (inserted: Result<(), (PeerId, PeerInfo, PeerError)>)
        requires
            old(self).wf(),
        ensures
            final(self).wf(),
            inserted is Ok <==> !old(self)@.peers.contains_key(peer_id@) && admission is Ok,
            match insertion(old(self)@, peer_id, admission) {
                Ok(()) => {
                    &&& inserted is Ok
                    &&& final(self)@ == old(self)@.with_peer(
                        peer_id@,
                        Peer { id: peer_id, info, state: PeerState::Disconnected },
                    )
                },
                Err(error) => {
                    &&& inserted == Err::<(), (PeerId, PeerInfo, PeerError)>((peer_id, info, error))
                    &&& final(self)@ == old(self)@
                },
            },
    {
        if self.contains(&peer_id) {
            let error = PeerError::PeerIsDuplicate(peer_id.clone());
            return Err((peer_id, info, error));
        }
        if let Err(error) = admission {
            return Err((peer_id, info, error));
        }
        let entry = Peer { id: peer_id, info, state: PeerState::Disconnected };
        proof {
            lemma_push_entry(self.peers@, entry);
        }
        self.peers.push(entry);
        Ok(())
    }

    /// Takes a peer off the list.
    pub fn remove(&mut self, peer_id: &PeerId) -> (removed: Result<PeerInfo, PeerError>)
        requires
            old(self).wf(),
        ensures
            final(self).wf(),
            final(self)@ == old(self)@.without_peer(peer_id@),
            removed == if old(self)@.peers.contains_key(peer_id@) {
                Ok::<PeerInfo, PeerError>(old(self)@.peers[peer_id@].info)
            } else {
                Err(PeerError::PeerNotPresent(*peer_id))
            },
    {
        match self.position(peer_id) {
            Some(i) => {
                proof {
                    lemma_remove_entry(self.peers@, i as int);
                }
                let entry = self.peers.remove(i);
                Ok(entry.info)
            },
            None => {
                assert(self@.peers.remove(peer_id@) == self@.peers);
                Err(PeerError::PeerNotPresent(peer_id.clone()))
            },
        }
    }

    /// Replaces what is known of a peer.
    pub fn update_info(&mut self, peer_id: &PeerId, info: PeerInfo) -> (updated: Result<
        (),
        PeerError,
    >)
        requires
            old(self).wf(),
        ensures
            final(self).wf(),
            if old(self)@.peers.contains_key(peer_id@) {
                &&& updated == Ok::<(), PeerError>(())
                &&& final(self)@ == old(self)@.with_info(peer_id@, info)
            } else {
                &&& updated == Err::<(), PeerError>(PeerError::PeerNotPresent(*peer_id))
                &&& final(self)@ == old(self)@
            },
    {
        match self.position(peer_id) {
            Some(i) => {
                proof {
                    lemma_update_entry(
                        self.peers@,
                        i as int,
                        Peer { info, ..self.peers@[i as int] },
                    );
                }
                self.peers[i].info = info;
                Ok(())
            },
            None => Err(PeerError::PeerNotPresent(peer_id.clone())),
        }
    }

    /// Changes how the node relates to a peer.
    pub fn update_relation(&mut self, peer_id: &PeerId, to: PeerRelation) -> (updated: Result<
        (),
        PeerError,
    >)
        requires
            old(self).wf(),
        ensures
            final(self).wf(),
            if old(self)@.peers.contains_key(peer_id@) {
                &&& updated == Ok::<(), PeerError>(())
                &&& final(self)@ == old(self)@.with_info(
                    peer_id@,
                    PeerInfo { relation: to, ..old(self)@.peers[peer_id@].info },
                )
            } else {
                &&& updated == Err::<(), PeerError>(PeerError::PeerNotPresent(*peer_id))
                &&& final(self)@ == old(self)@
            },
    {
        match self.position(peer_id) {
            Some(i) => {
                proof {
                    let peer = self.peers@[i as int];
                    lemma_update_entry(
                        self.peers@,
                        i as int,
                        Peer { info: PeerInfo { relation: to, ..peer.info }, ..peer },
                    );
                }
                self.peers[i].info.relation = to;
                Ok(())
            },
            None => Err(PeerError::PeerNotPresent(peer_id.clone())),
        }
    }

    /// Notes that a peer is connected through `sender`.
    pub fn set_connected(&mut self, peer_id: &PeerId, sender: S) -> (updated: Result<(), PeerError>)
        requires
            old(self).wf(),
        ensures
            final(self).wf(),
            if old(self)@.peers.contains_key(peer_id@) {
                &&& updated == Ok::<(), PeerError>(())
                &&& final(self)@ == old(self)@.with_state(peer_id@, PeerState::Connected(sender))
            } else {
                &&& updated == Err::<(), PeerError>(PeerError::PeerNotPresent(*peer_id))
                &&& final(self)@ == old(self)@
            },
    {
        match self.position(peer_id) {
            Some(i) => {
                proof {
                    lemma_update_entry(
                        self.peers@,
                        i as int,
                        Peer { state: PeerState::Connected(sender), ..self.peers@[i as int] },
                    );
                }
                self.peers[i].state.set_connected(sender);
                Ok(())
            },
            None => Err(PeerError::PeerNotPresent(peer_id.clone())),
        }
    }

    /// Notes that a peer is not connected, and hands out the sender through
    /// which it was connected until now, if it was.
    pub fn set_disconnected(&mut self, peer_id: &PeerId) -> (sender: Result<Option<S>, PeerError>)
        requires
            old(self).wf(),
        ensures
            final(self).wf(),
            if old(self)@.peers.contains_key(peer_id@) {
                &&& sender == Ok::<Option<S>, PeerError>(old(self)@.peers[peer_id@].state.sender())
                &&& final(self)@ == old(self)@.with_state(peer_id@, PeerState::Disconnected)
            } else {
                &&& sender == Err::<Option<S>, PeerError>(PeerError::PeerNotPresent(*peer_id))
                &&& final(self)@ == old(self)@
            },
    {
        match self.position(peer_id) {
            Some(i) => {
                proof {
                    lemma_update_entry(
                        self.peers@,
                        i as int,
                        Peer { state: PeerState::Disconnected, ..self.peers@[i as int] },
                    );
                }
                Ok(self.peers[i].state.set_disconnected())
            },
            None => Err(PeerError::PeerNotPresent(peer_id.clone())),
        }
    }

    /// Takes a peer off the list if it is unknown, and says whether it did.
    pub fn remove_unknown(&mut self, peer_id: &PeerId) -> (removed: bool)
        requires
            old(self).wf(),
        ensures
            final(self).wf(),
            removed == old(self)@.is_unknown(peer_id@),
            removed <==> {
                &&& old(self)@.peers.contains_key(peer_id@)
                &&& old(self)@.peers[peer_id@].info.relation == PeerRelation::Unknown
            },
            final(self)@ == if removed {
                old(self)@.without_peer(peer_id@)
            } else {
                old(self)@
            },
    {
        match self.position(peer_id) {
            Some(i) => {
                if !self.peers[i].info.relation.is_unknown() {
                    return false;
                }
                proof {
                    lemma_remove_entry(self.peers@, i as int);
                }
                let _ = self.peers.remove(i);
                true
            },
            None => false,
        }
    }

    /// The ids of the known peers that are not connected, as they were given when
    /// the peers were added, each with the alias of the peer.
    pub fn peers_to_reconnect(&self) -> (due: Vec<(PeerId, String)>)
        requires
            self.wf(),
        ensures
            forall|i: int, j: int| 0 <= i < j < due@.len() ==> due@[i].0@ != due@[j].0@,
            forall|i: int|
                0 <= i < due@.len() ==> {
                    &&& self@.is_due_for_reconnect((#[trigger] due@[i]).0@)
                    &&& due@[i].0 == self@.peers[due@[i].0@].id
                    &&& due@[i].1 == self@.peers[due@[i].0@].info.alias
                },
            forall|id: Seq<char>| #[trigger]
                self@.is_due_for_reconnect(id) ==> exists|i: int|
                    0 <= i < due@.len() && (#[trigger] due@[i]).0@ == id,
            forall|i: int|
                0 <= i < due@.len() ==> {
                    let id = (#[trigger] due@[i]).0@;
                    &&& self@.peers.contains_key(id)
                    &&& self@.peers[id].info.relation == PeerRelation::Known
                    &&& self@.peers[id].state is Disconnected
                },
            forall|id: Seq<char>| #[trigger]
                self@.peers.contains_key(id) && self@.peers[id].info.relation
                    == PeerRelation::Known && self@.peers[id].state is Disconnected ==> exists|
                    i: int,
                |
                    0 <= i < due@.len() && (#[trigger] due@[i]).0@ == id,
    {
        let mut due: Vec<(PeerId, String)> = Vec::new();
        for n in 0..self.peers.len()
            invariant
                self.wf(),
                forall|i: int, j: int| 0 <= i < j < due@.len() ==> due@[i].0@ != due@[j].0@,
                forall|i: int|
                    0 <= i < due@.len() ==> {
                        &&& self@.is_due_for_reconnect((#[trigger] due@[i]).0@)
                        &&& due@[i].0 == self@.peers[due@[i].0@].id
                        &&& due@[i].1 == self@.peers[due@[i].0@].info.alias
                        &&& exists|k: int| 0 <= k < n && ids(self.peers@)[k] == due@[i].0@
                    },
                forall|k: int|
                    0 <= k < n && self@.is_due_for_reconnect(#[trigger] ids(self.peers@)[k])
                        ==> exists|i: int|
                        0 <= i < due@.len() && (#[trigger] due@[i]).0@ == ids(self.peers@)[k],
        {
            let entry = &self.peers[n];
            proof {
                lemma_peer_of_entry(self.peers@, n as int);
                assert(ids(self.peers@)[n as int] == entry.id@);
            }
            let ghost before = due@;
            if entry.info.relation.is_known() && entry.state.is_disconnected() {
                due.push((entry.id.clone(), entry.info.alias.clone()));
                assert(due@[before.len() as int].0@ == ids(self.peers@)[n as int]);
            }
            assert forall|k: int|
                0 <= k < n && self@.is_due_for_reconnect(
                    #[trigger] ids(self.peers@)[k],
                ) implies exists|i: int|
                0 <= i < due@.len() && (#[trigger] due@[i]).0@ == ids(self.peers@)[k] by {
                let i = choose|i: int|
                    0 <= i < before.len() && (#[trigger] before[i]).0@ == ids(self.peers@)[k];
                assert(due@[i].0@ == ids(self.peers@)[k]);
            }
        }
        assert forall|id: Seq<char>| #[trigger]
            self@.is_due_for_reconnect(id) implies exists|i: int|
            0 <= i < due@.len() && (#[trigger] due@[i]).0@ == id by {
            let k = ids(self.peers@).index_of(id);
            assert(ids(self.peers@)[k] == id);
        }
        due
    }

    /// Whether a peer is banned.
    pub fn is_peer_banned(&self, peer_id: &PeerId) -> (banned: bool)
        ensures
            banned == self@.banned_peers.contains(peer_id@),
    {
        self.banned_peers.contains(&peer_id.text)
    }

    /// Whether an address is banned.
    pub fn is_address_banned(&self, address: &Multiaddr) -> (banned: bool)
        ensures
            banned == self@.banned_addresses.contains(address@),
    {
        self.banned_addresses.contains(&address.text)
    }

    /// Bans a peer.
    pub fn ban_peer(&mut self, peer_id: PeerId) -> (banned: Result<(), PeerError>)
        requires
            old(self).wf(),
        ensures
            final(self).wf(),
            final(self)@ == (PeerListView {
                banned_peers: old(self)@.banned_peers.insert(peer_id@),
                ..old(self)@
            }),
            banned == if old(self)@.banned_peers.contains(peer_id@) {
                Err::<(), PeerError>(PeerError::PeerAlreadyBanned(peer_id))
            } else {
                Ok(())
            },
    {
        if self.banned_peers.insert(peer_id.text.clone()) {
            Ok(())
        } else {
            Err(PeerError::PeerAlreadyBanned(peer_id))
        }
    }

    /// Lifts the ban of a peer.
    pub fn unban_peer(&mut self, peer_id: &PeerId) -> (unbanned: Result<(), PeerError>)
        requires
            old(self).wf(),
        ensures
            final(self).wf(),
            final(self)@ == (PeerListView {
                banned_peers: old(self)@.banned_peers.remove(peer_id@),
                ..old(self)@
            }),
            unbanned == if old(self)@.banned_peers.contains(peer_id@) {
                Ok::<(), PeerError>(())
            } else {
                Err(PeerError::PeerNotBanned(*peer_id))
            },
    {
        if self.banned_peers.remove(&peer_id.text) {
            Ok(())
        } else {
            Err(PeerError::PeerNotBanned(peer_id.clone()))
        }
    }

    /// Bans an address.
    pub fn ban_address(&mut self, address: Multiaddr) -> (banned: Result<(), PeerError>)
        requires
            old(self).wf(),
        ensures
            final(self).wf(),
            final(self)@ == (PeerListView {
                banned_addresses: old(self)@.banned_addresses.insert(address@),
                ..old(self)@
            }),
            banned == if old(self)@.banned_addresses.contains(address@) {
                Err::<(), PeerError>(PeerError::AddressAlreadyBanned(address))
            } else {
                Ok(())
            },
    {
        if self.banned_addresses.insert(address.text.clone()) {
            Ok(())
        } else {
            Err(PeerError::AddressAlreadyBanned(address))
        }
    }

    /// Lifts the ban of an address.
    pub fn unban_address(&mut self, address: &Multiaddr) -> (unbanned: Result<(), PeerError>)
        requires
            old(self).wf(),
        ensures
            final(self).wf(),
            final(self)@ == (PeerListView {
                banned_addresses: old(self)@.banned_addresses.remove(address@),
                ..old(self)@
            }),
            unbanned == if old(self)@.banned_addresses.contains(address@) {
                Ok::<(), PeerError>(())
            } else {
                Err(PeerError::AddressNotBanned(*address))
            },
    {
        if self.banned_addresses.remove(&address.text) {
            Ok(())
        } else {
            Err(PeerError::AddressNotBanned(address.clone()))
        }
    }
}

/// What comes of adding a peer, where `admission` is what the rules of the
/// node say of adding a peer that is not listed.
pub open spec fn insertion<S>(
    list: PeerListView<S>,
    peer_id: PeerId,
    admission: Result<(), PeerError>,
) -> Result<(), PeerError> {
    if list.peers.contains_key(peer_id@) {
        Err(PeerError::PeerIsDuplicate(peer_id))
    } else {
        admission
    }
}

/// Every peer is listed under the text of its id.
pub proof fn law_peers_are_listed_by_their_ids<S>(list: PeerList<S>, id: Seq<char>)
    requires
        list.wf(),
        list@.peers.contains_key(id),
    ensures
        list@.peers[id].id@ == id,
{
    let i = ids(list.peers@).index_of(id);
    assert(ids(list.peers@)[i] == list.peers@[i].id@);
}

/// A peer is due for a reconnect if and only if it is listed, known, and not
/// connected, whatever else the list holds.
pub proof fn law_peers_due_for_reconnect<S>(list: PeerListView<S>, id: Seq<char>)
    ensures
        list.is_due_for_reconnect(id) <==> {
            &&& list.peers.contains_key(id)
            &&& list.peers[id].info.relation == PeerRelation::Known
            &&& list.peers[id].state is Disconnected
        },
{
}

/// A peer is an unknown one if and only if it is listed, and as an unknown one.
pub proof fn law_unknown_peers<S>(list: PeerListView<S>, id: Seq<char>)
    ensures
        list.is_unknown(id) <==> {
            &&& list.peers.contains_key(id)
            &&& list.peers[id].info.relation == PeerRelation::Unknown
        },
{
}

/// Whether a peer that is not listed is added is for the rules of the node to
/// say. One that is listed is a duplicate, whatever they say.
pub proof fn law_insertion_goes_by_admission<S>(
    list: PeerListView<S>,
    peer_id: PeerId,
    admission: Result<(), PeerError>,
)
    ensures
        !list.peers.contains_key(peer_id@) ==> insertion(list, peer_id, admission) == admission,
        list.peers.contains_key(peer_id@) ==> insertion(list, peer_id, admission) == Err::<
            (),
            PeerError,
        >(PeerError::PeerIsDuplicate(peer_id)),
{
}

/// Putting a peer on the list, and changing what is known of a peer or its state,
/// touches nothing but that peer, and of a listed peer nothing but what is to be
/// changed.
pub proof fn law_changes_touch_one_peer<S>(
    list: PeerListView<S>,
    id: Seq<char>,
    peer: Peer<S>,
    info: PeerInfo,
    state: PeerState<S>,
    other: Seq<char>,
)
    requires
        other != id,
    ensures
        list.with_peer(id, peer).peers.contains_key(id),
        list.with_peer(id, peer).peers[id] == peer,
        list.with_info(id, info).peers.contains_key(id),
        list.with_info(id, info).peers[id].id == list.peers[id].id,
        list.with_info(id, info).peers[id].info == info,
        list.with_info(id, info).peers[id].state == list.peers[id].state,
        list.with_state(id, state).peers.contains_key(id),
        list.with_state(id, state).peers[id].id == list.peers[id].id,
        list.with_state(id, state).peers[id].info == list.peers[id].info,
        list.with_state(id, state).peers[id].state == state,
        !list.without_peer(id).peers.contains_key(id),
        forall|after: PeerListView<S>|
            #![trigger after.peers.contains_key(other)]
            #![trigger after.peers[other]]
            after == list.with_peer(id, peer) || after == list.with_info(id, info) || after
                == list.with_state(id, state) || after == list.without_peer(id) ==> {
                &&& after.peers.contains_key(other) == list.peers.contains_key(other)
                &&& after.peers[other] == list.peers[other]
            },
{
}

/// Putting a peer on the list, changing it, and taking it off touches no ban.
pub proof fn law_changes_of_peers_touch_no_ban<S>(
    list: PeerListView<S>,
    id: Seq<char>,
    peer: Peer<S>,
    info: PeerInfo,
    state: PeerState<S>,
)
    ensures
        list.with_peer(id, peer).banned_peers == list.banned_peers,
        list.with_peer(id, peer).banned_addresses == list.banned_addresses,
        list.with_info(id, info).banned_peers == list.banned_peers,
        list.with_info(id, info).banned_addresses == list.banned_addresses,
        list.with_state(id, state).banned_peers == list.banned_peers,
        list.with_state(id, state).banned_addresses == list.banned_addresses,
        list.without_peer(id).banned_peers == list.banned_peers,
        list.without_peer(id).banned_addresses == list.banned_addresses,
{
}

} // verus!
