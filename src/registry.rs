//! A table keyed by peer id, kept as a vector of entries with unique keys.
use vstd::prelude::*;

verus! {

/// Entries keyed by a string id; each id appears at most once.
pub struct Registry<V> {
    entries: Vec<(String, V)>,
    model: Ghost<Map<Seq<char>, V>>,
}

impl<V> Registry<V> {
    /// The table as a map from id to value.
    pub closed spec fn view(&self) -> Map<Seq<char>, V> {
        self.model@
    }

    /// Number of entries held.
    pub closed spec fn size(&self) -> nat {
        self.entries@.len()
    }

    /// Key of the entry at position `i`.
    pub closed spec fn key_at(&self, i: int) -> Seq<char> {
        self.entries@[i].0@
    }

    /// Each key is held by one entry only, and every entry is in the map.
    pub proof fn lemma_one_entry_per_key(&self)
        requires
            self.wf(),
        ensures
            forall|i: int, j: int|
                0 <= i < j < self.size() ==> #[trigger] self.key_at(i) != #[trigger] self.key_at(j),
            forall|i: int| 0 <= i < self.size() ==> #[trigger] self@.contains_key(self.key_at(i)),
    {
    }

    /// Keys are unique and the entries hold exactly the map.
    pub closed spec fn wf(&self) -> bool {
        &&& forall|i: int, j: int|
            0 <= i < j < self.entries@.len() ==> #[trigger] self.entries@[i].0@
                != #[trigger] self.entries@[j].0@
        &&& forall|i: int|
            0 <= i < self.entries@.len() ==> #[trigger] self.model@.contains_key(
                self.entries@[i].0@,
            ) && self.model@[self.entries@[i].0@] == self.entries@[i].1
        &&& forall|k: Seq<char>| #[trigger]
            self.model@.contains_key(k) ==> exists|i: int|
                0 <= i < self.entries@.len() && #[trigger] self.entries@[i].0@ == k
    }

    /// An empty table.
    pub fn new() -> (r: Self)
        ensures
            r.wf(),
            r@ == Map::<Seq<char>, V>::empty(),
    {
        Registry { entries: Vec::new(), model: Ghost(Map::empty()) }
    }

    /// Position of `key` among the entries, if present.
    fn position(&self, key: &str) -> (r: Option<usize>)
        requires
            self.wf(),
        ensures
            match r {
                Some(i) => i < self.entries@.len() && self.entries@[i as int].0@ == key@,
                None => !self@.contains_key(key@),
            },
    {
        let wanted = key.to_owned();
        let mut i: usize = 0;
        while i < self.entries.len()
            invariant
                self.wf(),
                wanted@ == key@,
                i <= self.entries@.len(),
                forall|j: int| 0 <= j < i ==> #[trigger] self.entries@[j].0@ != key@,
            decreases self.entries@.len() - i,
        {
            if self.entries[i].0 == wanted {
                return Some(i);
            }
            i = i + 1;
        }
        None
    }

    /// The entries, in the order they were first stored.
    pub fn entries(&self) -> (r: &Vec<(String, V)>)
        requires
            self.wf(),
        ensures
            r@.len() == self.size(),
            forall|i: int| 0 <= i < r@.len() ==> #[trigger] r@[i].0@ == self.key_at(i),
            forall|i: int| 0 <= i < r@.len() ==> #[trigger] r@[i].1 == self@[self.key_at(i)],
    {
        assert forall|i: int| 0 <= i < self.entries@.len() implies #[trigger] self.entries@[i].1
            == self@[self.key_at(i)] by {
            assert(self.model@.contains_key(self.entries@[i].0@));
        }
        &self.entries
    }

    /// Whether `key` has an entry.
    pub fn contains_key(&self, key: &str) -> (r: bool)
        requires
            self.wf(),
        ensures
            r == self@.contains_key(key@),
    {
        match self.position(key) {
            Some(_) => true,
            None => false,
        }
    }

    /// The value stored under `key`, if any.
    pub fn get(&self, key: &str) -> (r: Option<&V>)
        requires
            self.wf(),
        ensures
            r == (if self@.contains_key(key@) {
                Some(&self@[key@])
            } else {
                None
            }),
    {
        match self.position(key) {
            Some(i) => Some(&self.entries[i].1),
            None => None,
        }
    }

    /// Stores `value` under `key`, replacing what was there.
    pub fn insert(&mut self, key: &str, value: V)
        requires
            old(self).wf(),
        ensures
            final(self).wf(),
            final(self)@ == old(self)@.insert(key@, value),
    {
        let ghost m = self.model@.insert(key@, value);
        match self.position(key) {
            Some(i) => {
                let ghost before = self.entries@;
                self.entries.set(i, (key.to_owned(), value));
                self.model = Ghost(m);
                assert forall|j: int| 0 <= j < self.entries@.len() && j != i implies #[trigger]
                    self.entries@[j] == before[j] by {}
                assert forall|a: int, b: int|
                    0 <= a < b < self.entries@.len() implies #[trigger] self.entries@[a].0@
                    != #[trigger] self.entries@[b].0@ by {
                    assert(before[a].0@ != before[b].0@);
                }
                assert forall|k: Seq<char>| #[trigger] self.model@.contains_key(k) implies exists|
                    j: int,
                | 0 <= j < self.entries@.len() && #[trigger] self.entries@[j].0@ == k by {
                    if k != key@ {
                        let j = choose|j: int|
                            0 <= j < old(self).entries@.len() && #[trigger] old(
                                self,
                            ).entries@[j].0@ == k;
                        assert(j != i);
                        assert(self.entries@[j].0@ == k);
                    } else {
                        assert(self.entries@[i as int].0@ == k);
                    }
                }
            },
            None => {
                self.entries.push((key.to_owned(), value));
                self.model = Ghost(m);
                let n = self.entries.len() - 1;
                assert forall|k: Seq<char>| #[trigger] self.model@.contains_key(k) implies exists|
                    j: int,
                | 0 <= j < self.entries@.len() && #[trigger] self.entries@[j].0@ == k by {
                    if k != key@ {
                        let j = choose|j: int|
                            0 <= j < old(self).entries@.len() && #[trigger] old(
                                self,
                            ).entries@[j].0@ == k;
                        assert(self.entries@[j].0@ == k);
                    } else {
                        assert(self.entries@[n as int].0@ == k);
                    }
                }
            },
        }
    }

    /// Drops the entry under `key`, if any.
    pub fn remove(&mut self, key: &str)
        requires
            old(self).wf(),
        ensures
            final(self).wf(),
            final(self)@ == old(self)@.remove(key@),
            old(self)@.contains_key(key@) ==> final(self).size() < old(self).size(),
    {
        match self.position(key) {
            Some(i) => {
                let ghost before = self.entries@;
                let _ = self.entries.remove(i);
                self.model = Ghost(self.model@.remove(key@));
                assert forall|j: int| 0 <= j < self.entries@.len() implies #[trigger] self.entries@[j]
                    == before[if j < i {
                    j
                } else {
                    j + 1
                }] by {}
                assert forall|a: int, b: int|
                    0 <= a < b < self.entries@.len() implies #[trigger] self.entries@[a].0@
                    != #[trigger] self.entries@[b].0@ by {
                    let a0 = if a < i { a } else { a + 1 };
                    let b0 = if b < i { b } else { b + 1 };
                    assert(self.entries@[a] == before[a0]);
                    assert(self.entries@[b] == before[b0]);
                }
                assert forall|j: int| 0 <= j < self.entries@.len() implies #[trigger]
                    self.model@.contains_key(self.entries@[j].0@) && self.model@[self.entries@[j].0@]
                    == self.entries@[j].1 by {
                    let j0 = if j < i { j } else { j + 1 };
                    assert(self.entries@[j] == before[j0]);
                    if j0 < i {
                        assert(before[j0].0@ != before[i as int].0@);
                    } else {
                        assert(before[i as int].0@ != before[j0].0@);
                    }
                    assert(old(self).model@.contains_key(before[j0].0@));
                }
                assert forall|k: Seq<char>| #[trigger] self.model@.contains_key(k) implies exists|
                    j: int,
                | 0 <= j < self.entries@.len() && #[trigger] self.entries@[j].0@ == k by {
                    let j0 = choose|j0: int| 0 <= j0 < before.len() && #[trigger] before[j0].0@ == k;
                    assert(j0 != i);
                    let j = if j0 < i { j0 } else { j0 - 1 };
                    assert(self.entries@[j] == before[j0]);
                }
            },
            None => {
                assert(self.model@.remove(key@) =~= self.model@);
            },
        }
    }
}

impl Registry<String> {
    /// Some key whose value is `value`, scanning entries in order.
    pub fn key_of_value(&self, value: &str) -> (r: Option<String>)
        requires
            self.wf(),
        ensures
            match r {
                Some(k) => self@.contains_key(k@) && self@[k@]@ == value@,
                None => forall|k: Seq<char>| #[trigger]
                    self@.contains_key(k) ==> self@[k]@ != value@,
            },
    {
        let wanted = value.to_owned();
        let mut i: usize = 0;
        while i < self.entries.len()
            invariant
                self.wf(),
                wanted@ == value@,
                i <= self.entries@.len(),
                forall|j: int| 0 <= j < i ==> #[trigger] self.entries@[j].1@ != value@,
            decreases self.entries@.len() - i,
        {
            if self.entries[i].1 == wanted {
                return Some(self.entries[i].0.clone());
            }
            i = i + 1;
        }
        assert forall|k: Seq<char>| #[trigger] self@.contains_key(k) implies self@[k]@ != value@ by {
            let j = choose|j: int| 0 <= j < self.entries@.len() && #[trigger] self.entries@[j].0@ == k;
            assert(self.entries@[j].1@ != value@);
        }
        None
    }

    /// Drops every entry whose value is `value`.
    pub fn remove_by_value(&mut self, value: &str)
        requires
            old(self).wf(),
        ensures
            final(self).wf(),
            forall|k: Seq<char>| #[trigger]
                final(self)@.contains_key(k) <==> (old(self)@.contains_key(k) && old(self)@[k]@
                    != value@),
            forall|k: Seq<char>| #[trigger]
                final(self)@.contains_key(k) ==> final(self)@[k] == old(self)@[k],
    {
        let ghost start = self@;
        loop
            invariant
                self.wf(),
                forall|k: Seq<char>| #[trigger]
                    self@.contains_key(k) ==> start.contains_key(k) && self@[k] == start[k],
                forall|k: Seq<char>| #[trigger]
                    start.contains_key(k) && start[k]@ != value@ ==> self@.contains_key(k),
            ensures
                forall|k: Seq<char>| #[trigger] self@.contains_key(k) ==> self@[k]@ != value@,
            decreases self.size(),
        {
            match self.key_of_value(value) {
                Some(k) => {
                    self.remove(k.as_str());
                },
                None => {
                    break ;
                },
            }
        }
    }
}

} // verus!
