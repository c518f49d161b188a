//! A small map from names to values, kept as a list of entries with unique keys.

use vstd::prelude::*;

verus! {

/// Values keyed by name; a name appears at most once.
pub struct KeyedStore<V: View> {
    entries: Vec<(String, V)>,
    model: Ghost<Map<Seq<char>, V::V>>,
}

impl<V: View> KeyedStore<V> {
    /// The store as a map from names to the values' views.
    pub closed spec fn view(&self) -> Map<Seq<char>, V::V> {
        self.model@
    }

    /// The entries hold exactly the map, one entry per name.
    pub closed spec fn wf(&self) -> bool {
        &&& forall|i: int|
            0 <= i < self.entries.len() ==> #[trigger] self.model@.contains_key(
                self.entries@[i].0@,
            ) && self.model@[self.entries@[i].0@] == self.entries@[i].1@
        &&& forall|k: Seq<char>|
            #[trigger] self.model@.contains_key(k) ==> exists|i: int|
                0 <= i < self.entries.len() && #[trigger] self.entries@[i].0@ == k
        &&& forall|i: int, j: int|
            0 <= i < self.entries.len() && 0 <= j < self.entries.len() && i != j
                ==> #[trigger] self.entries@[i].0@ != #[trigger] self.entries@[j].0@
    }

    /// An empty store.
    pub fn new() -> (r: Self)
        ensures
            r.wf(),
            r.view() == Map::<Seq<char>, V::V>::empty(),
    {
        KeyedStore { entries: Vec::new(), model: Ghost(Map::empty()) }
    }

    /// Position of the entry named `key`, if there is one.
    fn position(&self, key: &String) -> (r: Option<usize>)
        requires
            self.wf(),
        ensures
            r is None <==> !self.view().contains_key(key@),
            r matches Some(i) ==> i < self.entries.len() && self.entries@[i as int].0@ == key@,
    {
        let mut i: usize = 0;
        while i < self.entries.len()
            invariant
                self.wf(),
                i <= self.entries.len(),
                forall|j: int| 0 <= j < i ==> #[trigger] self.entries@[j].0@ != key@,
            decreases self.entries.len() - i,
        {
            if self.entries[i].0 == *key {
                return Some(i);
            }
            i += 1;
        }
        None
    }

    /// The value stored under `key`, if any.
    pub fn get(&self, key: &String) -> (r: Option<&V>)
        requires
            self.wf(),
        ensures
            r is None <==> !self.view().contains_key(key@),
            r matches Some(v) ==> v@ == self.view()[key@],
    {
        match self.position(key) {
            Some(i) => Some(&self.entries[i].1),
            None => None,
        }
    }

    /// Stores `value` under `key`, replacing what was there.
    pub fn insert(&mut self, key: String, value: V)
        requires
            old(self).wf(),
        ensures
            final(self).wf(),
            final(self).view() == old(self).view().insert(key@, value@),
    {
        let ghost k = key@;
        let ghost v = value@;
        let ghost old_entries = self.entries@;
        match self.position(&key) {
            Some(i) => {
                self.entries.set(i, (key, value));
            },
            None => {
                self.entries.push((key, value));
            },
        }
        self.model = Ghost(self.model@.insert(k, v));
        assert forall|q: Seq<char>| #[trigger] self.model@.contains_key(q) implies exists|i: int|
            0 <= i < self.entries.len() && #[trigger] self.entries@[i].0@ == q by {
            if q != k {
                let i = choose|i: int| 0 <= i < old_entries.len() && old_entries[i].0@ == q;
                assert(self.entries@[i].0@ == q);
            } else {
                let i = if self.entries.len() > old_entries.len() {
                    old_entries.len() as int
                } else {
                    choose|i: int| 0 <= i < old_entries.len() && old_entries[i].0@ == k
                };
                assert(self.entries@[i].0@ == q);
            }
        }
    }
}

} // verus!
