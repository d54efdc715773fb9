//! The peers that a process knows, by identity.
//!
//! A registry starts empty and only grows: a peer is entered when it is
//! first heard of and replaced by what it says of itself whenever it is
//! heard again. Nothing is ever removed.

use crate::network_discovery::peer::{PeerInfo, PeerInfoView};
use vstd::prelude::*;

verus! {

/// The peers of a sequence by identity. Of two peers with one identity the
/// later one counts.
pub open spec fn peers_by_id(peers: Seq<PeerInfoView>) -> Map<Seq<char>, PeerInfoView>
    decreases peers.len(),
{
    if peers.len() == 0 {
        Map::empty()
    } else {
        peers_by_id(peers.drop_last()).insert(peers.last().id, peers.last())
    }
}

/// No two peers of the sequence have the same identity.
pub open spec fn distinct_ids(peers: Seq<PeerInfoView>) -> bool {
    forall|i: int, j: int| 0 <= i < j < peers.len() ==> peers[i].id != peers[j].id
}

/// The peers of a sequence as mathematical values.
pub open spec fn peer_views(peers: Seq<PeerInfo>) -> Seq<PeerInfoView> {
    peers.map_values(|p: PeerInfo| p@)
}

/// An identity that no peer of the sequence has is not among their identities.
proof fn lemma_absent(peers: Seq<PeerInfoView>, id: Seq<char>)
    requires
        forall|i: int| 0 <= i < peers.len() ==> (#[trigger] peers[i]).id != id,
    ensures
        !peers_by_id(peers).contains_key(id),
    decreases peers.len(),
{
    if peers.len() > 0 {
        let rest = peers.drop_last();
        lemma_absent(rest, id);
    }
}

/// Each peer of a sequence without repeated identities is found under its identity.
pub proof fn lemma_present(peers: Seq<PeerInfoView>, i: int)
    requires
        distinct_ids(peers),
        0 <= i < peers.len(),
    ensures
        peers_by_id(peers).contains_key(peers[i].id),
        peers_by_id(peers)[peers[i].id] == peers[i],
    decreases peers.len(),
{
    let rest = peers.drop_last();
    let last = peers.len() - 1;
    if i < last {
        assert(distinct_ids(rest));
        lemma_present(rest, i);
    }
}

/// A sequence without repeated identities has as many identities as peers.
proof fn lemma_count(peers: Seq<PeerInfoView>)
    requires
        distinct_ids(peers),
    ensures
        peers_by_id(peers).dom().finite(),
        peers_by_id(peers).len() == peers.len(),
    decreases peers.len(),
{
    if peers.len() > 0 {
        let rest = peers.drop_last();
        let last = peers.len() - 1;
        assert(distinct_ids(rest));
        lemma_count(rest);
        lemma_absent(rest, peers[last].id);
    }
}

/// Entering a peer at the end of a sequence enters it under its identity.
proof fn lemma_pushed(peers: Seq<PeerInfoView>, peer: PeerInfoView)
    ensures
        peers_by_id(peers.push(peer)) == peers_by_id(peers).insert(peer.id, peer),
{
    assert(peers.push(peer).drop_last() =~= peers);
}

/// Replacing a peer by one of the same identity replaces what is found
/// under that identity, and nothing else.
proof fn lemma_replaced(peers: Seq<PeerInfoView>, i: int, peer: PeerInfoView)
    requires
        distinct_ids(peers),
        0 <= i < peers.len(),
        peers[i].id == peer.id,
    ensures
        distinct_ids(peers.update(i, peer)),
        peers_by_id(peers.update(i, peer)) == peers_by_id(peers).insert(peer.id, peer),
    decreases peers.len(),
{
    let now = peers.update(i, peer);
    let rest = peers.drop_last();
    let last = peers.len() - 1;
    if i == last {
        assert(now.drop_last() =~= rest);
        assert(peers_by_id(now) =~= peers_by_id(peers).insert(peer.id, peer));
    } else {
        assert(distinct_ids(rest));
        lemma_replaced(rest, i, peer);
        assert(now.drop_last() =~= rest.update(i, peer));
        assert(peers_by_id(now) =~= peers_by_id(peers).insert(peer.id, peer));
    }
}

/// An identity that is among those of a sequence belongs to one of its peers.
pub proof fn lemma_found(peers: Seq<PeerInfoView>, id: Seq<char>)
    requires
        peers_by_id(peers).contains_key(id),
    ensures
        exists|i: int| 0 <= i < peers.len() && (#[trigger] peers[i]).id == id,
{
    if forall|i: int| 0 <= i < peers.len() ==> (#[trigger] peers[i]).id != id {
        lemma_absent(peers, id);
    }
}

/// Registry idempotence. When a peer is entered twice under one identity,
/// the later entry replaces the earlier one: the registry is as if only the
/// later one had been made, and any listing of it without repeated
/// identities holds that identity exactly once, with what the later entry
/// said, its time of last sight included. Where the two entries come in the
/// order of their times, that is the later of the two times.
pub proof fn lemma_entered_twice(
    known: Map<Seq<char>, PeerInfoView>,
    first: PeerInfoView,
    second: PeerInfoView,
    listed: Seq<PeerInfoView>,
)
    requires
        first.id == second.id,
        distinct_ids(listed),
        peers_by_id(listed) == known.insert(first.id, first).insert(second.id, second),
    ensures
        known.insert(first.id, first).insert(second.id, second) == known.insert(
            second.id,
            second,
        ),
        exists|i: int| 0 <= i < listed.len() && #[trigger] listed[i] == second,
        forall|i: int, j: int|
            0 <= i < listed.len() && 0 <= j < listed.len() && listed[i].id == second.id
                && listed[j].id == second.id ==> i == j,
        forall|i: int|
            0 <= i < listed.len() && (#[trigger] listed[i]).id == second.id ==> listed[i]
                == second && listed[i].last_seen == second.last_seen,
        forall|i: int|
            0 <= i < listed.len() && (#[trigger] listed[i]).id == second.id && first.last_seen
                <= second.last_seen ==> listed[i].last_seen >= first.last_seen
                && listed[i].last_seen >= second.last_seen,
{
    let after = known.insert(first.id, first).insert(second.id, second);
    assert(after =~= known.insert(second.id, second));
    lemma_found(listed, second.id);
    let at = choose|i: int| 0 <= i < listed.len() && (#[trigger] listed[i]).id == second.id;
    lemma_present(listed, at);
    assert forall|i: int| 0 <= i < listed.len() && (#[trigger] listed[i]).id
        == second.id implies listed[i] == second by {
        lemma_present(listed, i);
    }
}

/// The known peers, by identity.
#[derive(Debug)]
pub struct PeerRegistry {
    entries: Vec<PeerInfo>,
}

impl View for PeerRegistry {
    type V = Map<Seq<char>, PeerInfoView>;

    closed spec fn view(&self) -> Map<Seq<char>, PeerInfoView> {
        peers_by_id(peer_views(self.entries@))
    }
}

impl PeerRegistry {
    /// No identity is entered twice.
    #[verifier::type_invariant]
    spec fn identities_are_unique(self) -> bool {
        distinct_ids(peer_views(self.entries@))
    }

    /// A registry without peers.
    pub fn new() -> (r: PeerRegistry)
        ensures
            r@ == Map::<Seq<char>, PeerInfoView>::empty(),
    {
        let r = PeerRegistry { entries: Vec::new() };
        r
    }

    fn position(&self, id: &String) -> (r: Option<usize>)
        ensures
            match r {
                Some(i) => i < self.entries@.len() && self.entries@[i as int].id@ == id@,
                None => forall|i: int|
                    0 <= i < self.entries@.len() ==> (#[trigger] self.entries@[i]).id@ != id@,
            },
    {
        let mut i: usize = 0;
        while i < self.entries.len()
            invariant
                i <= self.entries@.len(),
                forall|j: int| 0 <= j < i ==> (#[trigger] self.entries@[j]).id@ != id@,
            decreases self.entries@.len() - i,
        {
            if self.entries[i].id == *id {
                return Some(i);
            }
            i += 1;
        }
        None
    }

    /// How many peers are known.
    pub fn len(&self) -> (r: usize)
        ensures
            self@.dom().finite(),
            r == self@.len(),
    {
        proof {
            use_type_invariant(self);
            lemma_count(peer_views(self.entries@));
        }
        self.entries.len()
    }

    /// Whether a peer of this identity is known.
    pub fn contains(&self, id: &str) -> (r: bool)
        ensures
            r == self@.contains_key(id@),
    {
        self.get(id).is_some()
    }

    /// The peer of this identity, if it is known.
    pub fn get(&self, id: &str) -> (r: Option<PeerInfo>)
        ensures
            match r {
                Some(peer) => self@.contains_key(id@) && peer@ == self@[id@],
                None => !self@.contains_key(id@),
            },
    {
        let wanted = id.to_owned();
        match self.position(&wanted) {
            Some(i) => {
                proof {
                    use_type_invariant(self);
                    lemma_present(peer_views(self.entries@), i as int);
                }
                Some(self.entries[i].clone())
            },
            None => {
                proof {
                    lemma_absent(peer_views(self.entries@), id@);
                }
                None
            },
        }
    }

    /// Enters a peer: it is known under its identity afterwards, in place of
    /// whatever was known under that identity before. What is known under
    /// other identities stays.
    pub fn insert_or_update(&mut self, peer: PeerInfo)
        ensures
            final(self)@ == old(self)@.insert(peer.id@, peer@),
    {
        proof {
            use_type_invariant(&*self);
        }
        let found = self.position(&peer.id);
        let ghost before = peer_views(self.entries@);
        let mut entries: Vec<PeerInfo> = Vec::new();
        std::mem::swap(&mut entries, &mut self.entries);
        match found {
            Some(i) => {
                proof {
                    lemma_replaced(before, i as int, peer@);
                }
                entries.set(i, peer);
                assert(peer_views(entries@) =~= before.update(i as int, peer@));
            },
            None => {
                proof {
                    lemma_pushed(before, peer@);
                }
                entries.push(peer);
                assert(peer_views(entries@) =~= before.push(peer@));
            },
        }
        self.entries = entries;
    }

    /// The known peers, each once, in no particular order.
    pub fn snapshot(&self) -> (r: Vec<PeerInfo>)
        ensures
            distinct_ids(peer_views(r@)),
            peers_by_id(peer_views(r@)) == self@,
            r@.len() == self@.len(),
    {
        proof {
            use_type_invariant(self);
            lemma_count(peer_views(self.entries@));
        }
        let mut peers: Vec<PeerInfo> = Vec::new();
        let mut i: usize = 0;
        while i < self.entries.len()
            invariant
                i <= self.entries@.len(),
                peers@.len() == i,
                forall|j: int| 0 <= j < i ==> peers@[j] == self.entries@[j],
            decreases self.entries@.len() - i,
        {
            peers.push(self.entries[i].clone());
            i += 1;
        }
        assert(peers@ =~= self.entries@);
        peers
    }
}

} // verus!
