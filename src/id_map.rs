//! A store of records keyed by string identifiers.

use vstd::prelude::*;

verus! {

/// Records keyed by a string identifier, one record per key.
///
/// Entries are never reordered except by `insert` on a fresh key (appended)
/// and `take` (removed); the store's meaning is the map from key to record.
#[derive(Debug, PartialEq, Eq)]
pub struct IdMap<V> {
    entries: Vec<(String, V)>,
}

impl<V> View for IdMap<V> {
    type V = Map<Seq<char>, V>;

    /// The map from each key to its record.
    closed spec fn view(&self) -> Map<Seq<char>, V> {
        Map::new(
            |k: Seq<char>| exists|i: int| self.has_key_at(k, i),
            |k: Seq<char>| self.entries@[choose|i: int| self.has_key_at(k, i)].1,
        )
    }
}

impl<V> IdMap<V> {
    /// No key occurs twice among the entries.
    pub closed spec fn well_formed(&self) -> bool {
        forall|i: int, j: int|
            0 <= i < j < self.entries@.len() ==> #[trigger] self.entries@[i].0@
                != #[trigger] self.entries@[j].0@
    }

    spec fn has_key_at(&self, k: Seq<char>, i: int) -> bool {
        0 <= i < self.entries@.len() && self.entries@[i].0@ == k
    }

    proof fn lemma_entry(&self, i: int)
        requires
            self.well_formed(),
            0 <= i < self.entries@.len(),
        ensures
            self.view().contains_key(self.entries@[i].0@),
            self.view()[self.entries@[i].0@] == self.entries@[i].1,
    {
        let k = self.entries@[i].0@;
        assert(self.has_key_at(k, i));
        let j = choose|j: int| self.has_key_at(k, j);
        if j < i {
            assert(self.entries@[j].0@ != self.entries@[i].0@);
        } else if i < j {
            assert(self.entries@[i].0@ != self.entries@[j].0@);
        }
    }

    /// An empty store.
    pub fn new() -> (r: Self)
        ensures
            r.well_formed(),
            r.view() == Map::<Seq<char>, V>::empty(),
    {
        let r = IdMap { entries: Vec::new() };
        assert(r.view() =~= Map::<Seq<char>, V>::empty());
        r
    }

    fn index_of(&self, k: &String) -> (r: Option<usize>)
        requires
            self.well_formed(),
        ensures
            match r {
                Some(i) => self.has_key_at(k@, i as int),
                None => !self.view().contains_key(k@),
            },
    {
        let mut i: usize = 0;
        while i < self.entries.len()
            invariant
                i <= self.entries@.len(),
                forall|j: int| 0 <= j < i ==> self.entries@[j].0@ != k@,
            decreases self.entries@.len() - i,
        {
            if self.entries[i].0 == *k {
                return Some(i);
            }
            i = i + 1;
        }
        None
    }

    /// Whether a record is stored under `k`.
    pub fn contains_key(&self, k: &String) -> (r: bool)
        requires
            self.well_formed(),
        ensures
            r == self.view().contains_key(k@),
    {
        match self.index_of(k) {
            Some(i) => {
                proof {
                    self.lemma_entry(i as int);
                }
                true
            },
            None => false,
        }
    }

    /// The record stored under `k`, if any.
    pub fn get(&self, k: &String) -> (r: Option<&V>)
        requires
            self.well_formed(),
        ensures
            match r {
                Some(v) => self.view().contains_key(k@) && *v == self.view()[k@],
                None => !self.view().contains_key(k@),
            },
    {
        match self.index_of(k) {
            Some(i) => {
                proof {
                    self.lemma_entry(i as int);
                }
                Some(&self.entries[i].1)
            },
            None => None,
        }
    }

    /// Stores `v` under `k`, replacing any record already stored there.
    pub fn insert(&mut self, k: String, v: V)
        requires
            old(self).well_formed(),
        ensures
            final(self).well_formed(),
            final(self).view() == old(self).view().insert(k@, v),
    {
        let ghost old_map = self.view();
        let ghost key = k@;
        match self.index_of(&k) {
            Some(i) => {
                self.entries.set(i, (k, v));
                assert forall|a: int, b: int|
                    0 <= a < b < self.entries@.len() implies #[trigger] self.entries@[a].0@
                    != #[trigger] self.entries@[b].0@ by {
                    assert(old(self).entries@[a].0@ != old(self).entries@[b].0@);
                }
                assert forall|q: Seq<char>|
                    #![auto]
                    self.view().contains_key(q) <==> old_map.insert(key, v).contains_key(q) by {
                    if q != key && old_map.contains_key(q) {
                        let j = choose|j: int| old(self).has_key_at(q, j);
                        assert(self.has_key_at(q, j));
                    }
                    if q == key {
                        assert(self.has_key_at(q, i as int));
                    }
                    if self.view().contains_key(q) && q != key {
                        let j = choose|j: int| self.has_key_at(q, j);
                        assert(old(self).has_key_at(q, j));
                    }
                }
                assert forall|q: Seq<char>|
                    #![auto]
                    self.view().contains_key(q) implies self.view()[q] == old_map.insert(key, v)[q] by {
                    let j = choose|j: int| self.has_key_at(q, j);
                    self.lemma_entry(j);
                    if q != key {
                        old(self).lemma_entry(j);
                    }
                }
                assert(self.view() =~= old_map.insert(key, v));
            },
            None => {
                self.entries.push((k, v));
                let ghost n = self.entries@.len() - 1;
                assert forall|a: int, b: int|
                    0 <= a < b < self.entries@.len() implies #[trigger] self.entries@[a].0@
                    != #[trigger] self.entries@[b].0@ by {
                    if b == n {
                        assert(old(self).has_key_at(self.entries@[a].0@, a));
                    } else {
                        assert(old(self).entries@[a].0@ != old(self).entries@[b].0@);
                    }
                }
                assert forall|q: Seq<char>|
                    #![auto]
                    self.view().contains_key(q) <==> old_map.insert(key, v).contains_key(q) by {
                    if q != key && old_map.contains_key(q) {
                        let j = choose|j: int| old(self).has_key_at(q, j);
                        assert(self.has_key_at(q, j));
                    }
                    if q == key {
                        assert(self.has_key_at(q, n));
                    }
                    if self.view().contains_key(q) && q != key {
                        let j = choose|j: int| self.has_key_at(q, j);
                        assert(old(self).has_key_at(q, j));
                    }
                }
                assert forall|q: Seq<char>|
                    #![auto]
                    self.view().contains_key(q) implies self.view()[q] == old_map.insert(key, v)[q] by {
                    let j = choose|j: int| self.has_key_at(q, j);
                    self.lemma_entry(j);
                    if q != key {
                        assert(j != n);
                        old(self).lemma_entry(j);
                        assert(self.entries@[j] == old(self).entries@[j]);
                    } else {
                        self.lemma_entry(n);
                    }
                }
                assert(self.view() =~= old_map.insert(key, v));
            },
        }
    }
    /// Removes the record stored under `k` and hands it back.
    pub fn take(&mut self, k: &String) -> (r: V)
        requires
            old(self).well_formed(),
            old(self).view().contains_key(k@),
        ensures
            final(self).well_formed(),
            r == old(self).view()[k@],
            final(self).view() == old(self).view().remove(k@),
    {
        let ghost old_map = self.view();
        let i = match self.index_of(k) {
            Some(i) => i,
            None => { 0 },
        };
        proof {
            old(self).lemma_entry(i as int);
        }
        let (_, v) = self.entries.remove(i);
        assert forall|a: int, b: int|
            0 <= a < b < self.entries@.len() implies #[trigger] self.entries@[a].0@
            != #[trigger] self.entries@[b].0@ by {
            let a0 = if a < i { a } else { a + 1 };
            let b0 = if b < i { b } else { b + 1 };
            assert(old(self).entries@[a0].0@ != old(self).entries@[b0].0@);
        }
        assert forall|q: Seq<char>|
            #![auto]
            self.view().contains_key(q) <==> old_map.remove(k@).contains_key(q) by {
            if q != k@ && old_map.contains_key(q) {
                let j = choose|j: int| old(self).has_key_at(q, j);
                assert(j != i);
                if j < i {
                    assert(self.has_key_at(q, j));
                } else {
                    assert(self.has_key_at(q, j - 1));
                }
            }
            if self.view().contains_key(q) {
                let j = choose|j: int| self.has_key_at(q, j);
                if j < i {
                    assert(old(self).has_key_at(q, j));
                    assert(old(self).entries@[j].0@ != old(self).entries@[i as int].0@);
                } else {
                    assert(old(self).has_key_at(q, j + 1));
                    assert(old(self).entries@[i as int].0@ != old(self).entries@[j + 1].0@);
                }
            }
        }
        assert forall|q: Seq<char>|
            #![auto]
            self.view().contains_key(q) implies self.view()[q] == old_map.remove(k@)[q] by {
            let j = choose|j: int| self.has_key_at(q, j);
            self.lemma_entry(j);
            if j < i {
                old(self).lemma_entry(j);
            } else {
                old(self).lemma_entry(j + 1);
            }
        }
        assert(self.view() =~= old_map.remove(k@));
        v
    }

    /// Every stored record, each once.
    pub fn values(&self) -> (r: Vec<&V>)
        requires
            self.well_formed(),
        ensures
            self.view().dom().finite(),
            r@.len() == self.view().dom().len(),
            forall|i: int| 0 <= i < r@.len() ==> self.view().values().contains(*#[trigger] r@[i]),
            forall|k: Seq<char>| #[trigger] self.view().contains_key(k) ==> r@.contains(&self.view()[k]),
    {
        let mut r: Vec<&V> = Vec::new();
        let mut i: usize = 0;
        while i < self.entries.len()
            invariant
                self.well_formed(),
                i <= self.entries@.len(),
                r@.len() == i,
                forall|j: int| 0 <= j < i ==> r@[j] == #[trigger] self.entries@[j].1,
            decreases self.entries@.len() - i,
        {
            r.push(&self.entries[i].1);
            i = i + 1;
        }
        let ghost ks = self.entries@.map_values(|e: (String, V)| e.0@);
        proof {
            assert(ks.no_duplicates()) by {
                assert forall|a: int, b: int|
                    0 <= a < ks.len() && 0 <= b < ks.len() && a != b implies ks[a] != ks[b] by {
                    if a < b {
                        assert(self.entries@[a].0@ != self.entries@[b].0@);
                    } else {
                        assert(self.entries@[b].0@ != self.entries@[a].0@);
                    }
                }
            }
            ks.unique_seq_to_set();
            assert forall|q: Seq<char>| #![auto] self.view().dom().contains(q) <==> ks.to_set().contains(q) by {
                if ks.to_set().contains(q) {
                    let j = choose|j: int| 0 <= j < ks.len() && ks[j] == q;
                    assert(self.has_key_at(q, j));
                }
                if self.view().contains_key(q) {
                    let j = choose|j: int| self.has_key_at(q, j);
                    assert(ks[j] == q);
                }
            }
            assert(self.view().dom() =~= ks.to_set());
            assert forall|j: int| 0 <= j < r@.len() implies self.view().values().contains(
                *#[trigger] r@[j],
            ) by {
                self.lemma_entry(j);
            }
            assert forall|q: Seq<char>| #[trigger] self.view().contains_key(q) implies r@.contains(
                &self.view()[q],
            ) by {
                let j = choose|j: int| self.has_key_at(q, j);
                self.lemma_entry(j);
                assert(r@[j] == &self.view()[q]);
            }
        }
        r
    }
}

} // verus!
