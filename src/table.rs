//! The flow table: flows by key, each key held once.

use vstd::prelude::*;
use crate::datatype::Ipv4Connection;

verus! {

/// No flow is held under both a key and its reversal, unless the two are the
/// same key: traffic in either direction of a flow finds one entry.
pub open spec fn one_orientation<R>(m: Map<Ipv4Connection, R>) -> bool {
    forall|k: Ipv4Connection|
        #![trigger m.contains_key(k.reversed())]
        m.contains_key(k) && m.contains_key(k.reversed()) ==> k.reversed() == k
}

/// A map from flow keys to flow records. Entries keep the order in which
/// their keys were first inserted. Keys and records are held in two vectors
/// and looked up by a linear scan; the view is the map they hold, and the
/// idle sweep walks the entries by position.
pub struct FlowTable<R> {
    keys: Vec<Ipv4Connection>,
    records: Vec<R>,
    contents: Ghost<Map<Ipv4Connection, R>>,
}

impl<R> View for FlowTable<R> {
    type V = Map<Ipv4Connection, R>;

    closed spec fn view(&self) -> Map<Ipv4Connection, R> {
        self.contents@
    }
}

impl<R> FlowTable<R> {
    /// The keys in the order of the entries.
    pub closed spec fn order(&self) -> Seq<Ipv4Connection> {
        self.keys@
    }

    pub closed spec fn wf(&self) -> bool {
        &&& self.keys@.len() == self.records@.len()
        &&& forall|i: int, j: int|
            0 <= i < j < self.keys@.len() ==> self.keys@[i] != self.keys@[j]
        &&& forall|i: int|
            #![trigger self.keys@[i]]
            0 <= i < self.keys@.len() ==> self.contents@.contains_key(self.keys@[i])
                && self.contents@[self.keys@[i]] == self.records@[i]
        &&& forall|k: Ipv4Connection|
            #[trigger] self.contents@.contains_key(k) ==> exists|i: int|
                0 <= i < self.keys@.len() && self.keys@[i] == k
    }

    /// The keys of a well-formed table are those of its entries, each once.
    pub proof fn lemma_order(&self)
        requires
            self.wf(),
        ensures
            self.order().no_duplicates(),
            forall|k: Ipv4Connection| self@.contains_key(k) <==> self.order().contains(k),
    {
        assert forall|k: Ipv4Connection| self@.contains_key(k) <==> self.order().contains(k) by {
            if self.order().contains(k) {
                let i = choose|i: int| 0 <= i < self.keys@.len() && self.keys@[i] == k;
                assert(self.contents@.contains_key(self.keys@[i]));
            }
        }
    }

    pub fn new() -> (r: FlowTable<R>)
        ensures
            r.wf(),
            r@ == Map::<Ipv4Connection, R>::empty(),
            r.order().len() == 0,
    {
        FlowTable { keys: Vec::new(), records: Vec::new(), contents: Ghost(Map::empty()) }
    }

    /// The number of entries.
    pub fn len(&self) -> (r: usize)
        requires
            self.wf(),
        ensures
            r == self.order().len(),
    {
        self.keys.len()
    }

    /// The key of entry `i`.
    pub fn key_at(&self, i: usize) -> (r: Ipv4Connection)
        requires
            self.wf(),
            i < self.order().len(),
        ensures
            r == self.order()[i as int],
            self@.contains_key(r),
    {
        self.keys[i]
    }

    /// The record of entry `i`.
    pub fn record_at(&self, i: usize) -> (r: &R)
        requires
            self.wf(),
            i < self.order().len(),
        ensures
            *r == self@[self.order()[i as int]],
    {
        &self.records[i]
    }

    /// The position of `k` among the entries, if it is held.
    pub fn find(&self, k: &Ipv4Connection) -> (r: Option<usize>)
        requires
            self.wf(),
        ensures
            r is None <==> !self@.contains_key(*k),
            r matches Some(i) ==> i < self.order().len() && self.order()[i as int] == *k,
    {
        let mut i: usize = 0;
        while i < self.keys.len()
            invariant
                self.wf(),
                i <= self.keys@.len(),
                forall|j: int| 0 <= j < i ==> self.keys@[j] != *k,
            decreases self.keys@.len() - i,
        {
            if self.keys[i] == *k {
                return Some(i);
            }
            i = i + 1;
        }
        None
    }

    /// The record held under `k`, if any.
    pub fn get(&self, k: &Ipv4Connection) -> (r: Option<&R>)
        requires
            self.wf(),
        ensures
            r is None <==> !self@.contains_key(*k),
            r matches Some(v) ==> *v == self@[*k],
    {
        match self.find(k) {
            Some(i) => Some(&self.records[i]),
            None => None,
        }
    }

    /// Replaces the record of entry `i`.
    pub fn set_at(&mut self, i: usize, v: R)
        requires
            old(self).wf(),
            i < old(self).order().len(),
        ensures
            final(self).wf(),
            final(self).order() == old(self).order(),
            final(self)@ == old(self)@.insert(old(self).order()[i as int], v),
    {
        let ghost k = self.keys@[i as int];
        self.records.set(i, v);
        self.contents = Ghost(self.contents@.insert(k, v));
        assert forall|k2: Ipv4Connection| #[trigger] self.contents@.contains_key(k2) implies exists|j: int|
            0 <= j < self.keys@.len() && self.keys@[j] == k2 by {
            if k2 == k {
                assert(self.keys@[i as int] == k2);
            } else {
                assert(old(self).contents@.contains_key(k2));
            }
        }
    }

    /// Holds `v` under `k`, in place of what `k` held before, if anything.
    pub fn insert(&mut self, k: Ipv4Connection, v: R)
        requires
            old(self).wf(),
        ensures
            final(self).wf(),
            final(self)@ == old(self)@.insert(k, v),
    {
        match self.find(&k) {
            Some(i) => {
                self.set_at(i, v);
            },
            None => {
                let ghost n = self.keys@.len();
                self.keys.push(k);
                self.records.push(v);
                self.contents = Ghost(self.contents@.insert(k, v));
                assert(self.keys@[n as int] == k);
                assert forall|k2: Ipv4Connection| #[trigger] self.contents@.contains_key(k2) implies exists|j: int|
                    0 <= j < self.keys@.len() && self.keys@[j] == k2 by {
                    if k2 == k {
                        assert(self.keys@[n as int] == k2);
                    } else {
                        assert(old(self).contents@.contains_key(k2));
                        let j = choose|j: int| 0 <= j < old(self).keys@.len() && old(self).keys@[j] == k2;
                        assert(self.keys@[j] == k2);
                    }
                }
            },
        }
    }
}

} // verus!
