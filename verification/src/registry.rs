//! The peer registry of the rendezvous role.
//!
//! A mapping from node identity to the last-known external address of
//! that peer. Keys are unique, insertion order carries no meaning, and
//! identity 0 never enters the registry. Entries are written whenever a
//! REGISTER datagram, or a DATA datagram with a readable source
//! identity, arrives; they are never expired.

use vstd::prelude::*;
use crate::addr::PeerAddr;

verus! {

/// True when some entry of `s` carries identity `id`.
pub open spec fn has_id(s: Seq<(u8, PeerAddr)>, id: u8) -> bool {
    exists|i: int| 0 <= i < s.len() && s[i].0 == id
}

/// Index of the entry carrying `id`; meaningful when ids are unique.
pub open spec fn idx_of(s: Seq<(u8, PeerAddr)>, id: u8) -> int {
    choose|i: int| 0 <= i < s.len() && s[i].0 == id
}

/// The mapping that a sequence of entries stands for.
pub open spec fn seq_to_map(s: Seq<(u8, PeerAddr)>) -> Map<u8, PeerAddr> {
    Map::new(|id: u8| has_id(s, id), |id: u8| s[idx_of(s, id)].1)
}

/// Entry identities are mutually distinct and never 0.
pub open spec fn entries_wf(s: Seq<(u8, PeerAddr)>) -> bool {
    &&& forall|i: int, j: int| 0 <= i < j < s.len() ==> s[i].0 != s[j].0
    &&& forall|i: int| 0 <= i < s.len() ==> s[i].0 != 0
}

/// Last-write-wins upsert at the level of the mathematical map;
/// identity 0 never enters the registry.
pub open spec fn upsert_spec(m: Map<u8, PeerAddr>, id: u8, addr: PeerAddr) -> Map<u8, PeerAddr> {
    if id == 0 {
        m
    } else {
        m.insert(id, addr)
    }
}

/// What a lookup returns on the mathematical map.
pub open spec fn lookup_spec(m: Map<u8, PeerAddr>, id: u8) -> Option<PeerAddr> {
    if m.dom().contains(id) {
        Some(m[id])
    } else {
        None
    }
}

/// A snapshot sequence lists exactly the pairs of `m`, each once, in
/// some order.
pub open spec fn seq_matches_map(s: Seq<(u8, PeerAddr)>, m: Map<u8, PeerAddr>) -> bool {
    &&& forall|i: int| 0 <= i < s.len() ==> m.contains_pair(#[trigger] s[i].0, s[i].1)
    &&& forall|id: u8| m.dom().contains(id) ==> exists|i: int|
        0 <= i < s.len() && #[trigger] s[i] == (id, m[id])
    &&& forall|i: int, j: int| 0 <= i < j < s.len() ==> s[i].0 != s[j].0
}

/// An entry of a sequence with unique identities is the one its
/// identity maps to.
proof fn lemma_entry_value(s: Seq<(u8, PeerAddr)>, i: int)
    requires
        forall|p: int, q: int| 0 <= p < q < s.len() ==> s[p].0 != s[q].0,
        0 <= i < s.len(),
    ensures
        seq_to_map(s).dom().contains(s[i].0),
        seq_to_map(s)[s[i].0] == s[i].1,
{
    assert(has_id(s, s[i].0));
    let j = idx_of(s, s[i].0);
    assert(0 <= j < s.len() && s[j].0 == s[i].0);
    assert(j == i);
}

/// Overwriting the address at an existing identity is a map insert.
proof fn lemma_map_after_update(s: Seq<(u8, PeerAddr)>, i: int, id: u8, addr: PeerAddr)
    requires
        forall|p: int, q: int| 0 <= p < q < s.len() ==> s[p].0 != s[q].0,
        0 <= i < s.len(),
        s[i].0 == id,
    ensures
        seq_to_map(s.update(i, (id, addr))) == seq_to_map(s).insert(id, addr),
{
    let t = s.update(i, (id, addr));
    assert(forall|p: int| 0 <= p < s.len() ==> (#[trigger] t[p]).0 == s[p].0);
    assert forall|k: u8| #[trigger] has_id(t, k) == has_id(s, k) by {
        if has_id(t, k) {
            let w = choose|w: int| 0 <= w < t.len() && t[w].0 == k;
            assert(s[w].0 == k);
        }
        if has_id(s, k) {
            let w = choose|w: int| 0 <= w < s.len() && s[w].0 == k;
            assert(t[w].0 == k);
        }
    }
    assert(has_id(s, id));
    assert forall|k: u8| has_id(t, k) implies seq_to_map(t)[k] == seq_to_map(s).insert(
        id,
        addr,
    )[k] by {
        let w = idx_of(t, k);
        assert(0 <= w < t.len() && t[w].0 == k);
        if k == id {
            assert(w == i);
            assert(seq_to_map(t)[k] == addr);
        } else {
            assert(w != i);
            assert(t[w] == s[w]);
            lemma_entry_value(s, w);
        }
    }
    assert(seq_to_map(t) =~= seq_to_map(s).insert(id, addr));
}

/// Appending a fresh identity is a map insert.
proof fn lemma_map_after_push(s: Seq<(u8, PeerAddr)>, id: u8, addr: PeerAddr)
    requires
        forall|p: int, q: int| 0 <= p < q < s.len() ==> s[p].0 != s[q].0,
        !has_id(s, id),
    ensures
        seq_to_map(s.push((id, addr))) == seq_to_map(s).insert(id, addr),
{
    let t = s.push((id, addr));
    assert(forall|p: int| 0 <= p < s.len() ==> #[trigger] t[p] == s[p]);
    assert(t[s.len() as int].0 == id);
    assert forall|k: u8| #[trigger] has_id(t, k) == (has_id(s, k) || k == id) by {
        if has_id(t, k) && k != id {
            let w = choose|w: int| 0 <= w < t.len() && t[w].0 == k;
            assert(w < s.len());
            assert(s[w].0 == k);
        }
        if has_id(s, k) {
            let w = choose|w: int| 0 <= w < s.len() && s[w].0 == k;
            assert(t[w].0 == k);
        }
        assert(has_id(t, id));
    }
    assert forall|k: u8| has_id(t, k) implies seq_to_map(t)[k] == seq_to_map(s).insert(
        id,
        addr,
    )[k] by {
        let w = idx_of(t, k);
        assert(0 <= w < t.len() && t[w].0 == k);
        if k == id {
            assert(w == s.len() as int);
            assert(seq_to_map(t)[k] == addr);
        } else {
            assert(w < s.len());
            assert(t[w] == s[w]);
            lemma_entry_value(s, w);
        }
    }
    assert(seq_to_map(t) =~= seq_to_map(s).insert(id, addr));
}

/// A sequence with unique identities lists exactly the pairs of its map.
proof fn lemma_seq_matches_own_map(s: Seq<(u8, PeerAddr)>)
    requires
        forall|p: int, q: int| 0 <= p < q < s.len() ==> s[p].0 != s[q].0,
    ensures
        seq_matches_map(s, seq_to_map(s)),
{
    let m = seq_to_map(s);
    assert forall|i: int| 0 <= i < s.len() implies m.contains_pair(
        #[trigger] s[i].0,
        s[i].1,
    ) by {
        lemma_entry_value(s, i);
    }
    assert forall|id: u8| m.dom().contains(id) implies exists|i: int|
        0 <= i < s.len() && #[trigger] s[i] == (id, m[id]) by {
        let w = idx_of(s, id);
        assert(0 <= w < s.len() && s[w].0 == id);
        lemma_entry_value(s, w);
        assert(s[w] == (id, m[id]));
    }
}

/// Index of the entry carrying `id`, if any.
fn find_index(entries: &Vec<(u8, PeerAddr)>, id: u8) -> (r: Option<usize>)
    ensures
        match r {
            Some(i) => i < entries@.len() && entries@[i as int].0 == id,
            None => forall|j: int| 0 <= j < entries@.len() ==> entries@[j].0 != id,
        },
{
    let mut i: usize = 0;
    while i < entries.len()
        invariant
            0 <= i <= entries@.len(),
            forall|j: int| 0 <= j < i ==> entries@[j].0 != id,
        decreases entries@.len() - i,
    {
        if entries[i].0 == id {
            return Some(i);
        }
        i = i + 1;
    }
    None
}

/// The peer registry: node identity to last-known external address.
///
/// Viewed as a `Map<u8, PeerAddr>`; `entry_seq` names the order its
/// snapshot lists the entries in, which no protocol step depends on.
pub struct Registry {
    entries: Vec<(u8, PeerAddr)>,
}

impl View for Registry {
    type V = Map<u8, PeerAddr>;

    closed spec fn view(&self) -> Map<u8, PeerAddr> {
        seq_to_map(self.entries@)
    }
}

impl Registry {
    /// Well-formedness: entry identities are unique and never 0.
    /// Constructors establish it and every method preserves it.
    pub closed spec fn wf(self) -> bool {
        entries_wf(self.entries@)
    }

    /// The order a snapshot lists the entries in.
    pub closed spec fn entry_seq(self) -> Seq<(u8, PeerAddr)> {
        self.entries@
    }

    /// An empty registry.
    pub fn new() -> (r: Registry)
        ensures
            r.wf(),
            r@ == Map::<u8, PeerAddr>::empty(),
            r.entry_seq() == Seq::<(u8, PeerAddr)>::empty(),
    {
        let r = Registry { entries: Vec::new() };
        proof {
            assert(r@ =~= Map::<u8, PeerAddr>::empty());
        }
        r
    }

    /// Inserts or overwrites the address for `id`, last write wins;
    /// identity 0 is silently ignored.
    pub fn upsert(&mut self, id: u8, addr: PeerAddr)
        requires
            old(self).wf(),
        ensures
            final(self).wf(),
            final(self)@ == upsert_spec(old(self)@, id, addr),
    {
        if id == 0 {
            return;
        }
        match find_index(&self.entries, id) {
            Some(i) => {
                self.entries.set(i, (id, addr));
                proof {
                    lemma_map_after_update(old(self).entries@, i as int, id, addr);
                }
            },
            None => {
                self.entries.push((id, addr));
                proof {
                    lemma_map_after_push(old(self).entries@, id, addr);
                }
            },
        }
    }

    /// The current address for `id`, or nothing when unknown; identity
    /// 0 is never known.
    pub fn lookup(&self, id: u8) -> (r: Option<PeerAddr>)
        requires
            self.wf(),
        ensures
            r == lookup_spec(self@, id),
            id == 0 ==> r is None,
    {
        match find_index(&self.entries, id) {
            Some(i) => {
                proof {
                    lemma_entry_value(self.entries@, i as int);
                }
                Some(self.entries[i].1)
            },
            None => {
                proof {
                    assert(!has_id(self.entries@, id));
                }
                None
            },
        }
    }

    /// A point-in-time copy of the registry, safe to serialize after
    /// the registry has been released: exactly the current pairs, each
    /// once, in the registry's snapshot order.
    pub fn snapshot(&self) -> (r: Vec<(u8, PeerAddr)>)
        requires
            self.wf(),
        ensures
            r@ == self.entry_seq(),
            seq_matches_map(r@, self@),
    {
        proof {
            lemma_seq_matches_own_map(self.entries@);
        }
        let mut r: Vec<(u8, PeerAddr)> = Vec::new();
        let mut i: usize = 0;
        while i < self.entries.len()
            invariant
                0 <= i <= self.entries@.len(),
                r@ == self.entries@.take(i as int),
            decreases self.entries@.len() - i,
        {
            r.push(self.entries[i]);
            proof {
                assert(r@ =~= self.entries@.take(i + 1));
            }
            i = i + 1;
        }
        proof {
            assert(r@ =~= self.entries@);
        }
        r
    }
}

/// Registry idempotence: upserting the same address for an identity
/// other than 0 any number of times leaves the registry that one upsert
/// leaves, and lookup on it returns that address; an upsert for
/// identity 0 never changes the registry.
pub proof fn lemma_registry_idempotence(m: Map<u8, PeerAddr>, id: u8, a: PeerAddr)
    ensures
        id != 0 ==> upsert_spec(upsert_spec(m, id, a), id, a) == upsert_spec(m, id, a),
        id != 0 ==> lookup_spec(upsert_spec(m, id, a), id) == Some(a),
        upsert_spec(m, 0, a) == m,
{
    if id != 0 {
        assert(upsert_spec(upsert_spec(m, id, a), id, a) =~= upsert_spec(m, id, a));
    }
}

/// Registry overwrite: of two upserts for the same identity, the last
/// one wins.
pub proof fn lemma_registry_overwrite(m: Map<u8, PeerAddr>, id: u8, a: PeerAddr, b: PeerAddr)
    requires
        id != 0,
    ensures
        lookup_spec(upsert_spec(upsert_spec(m, id, a), id, b), id) == Some(b),
{
}

/// The registry invariant: no upsert ever creates an entry for
/// identity 0.
pub proof fn lemma_no_zero_identity(m: Map<u8, PeerAddr>, id: u8, a: PeerAddr)
    requires
        !m.dom().contains(0),
    ensures
        !upsert_spec(m, id, a).dom().contains(0),
{
}

} // verus!
