//! A small map from paths to values, kept as a list of distinct keys.
use vstd::prelude::*;

verus! {

/// A map keyed by path strings; viewed as a `Map` from the paths' characters.
pub struct PathMap<V> {
    entries: Vec<(String, V)>,
}

impl<V> PathMap<V> {
    /// Number of stored entries.
    pub closed spec fn count(self) -> int {
        self.entries@.len() as int
    }

    /// The keys, in storage order.
    pub closed spec fn key_seq(self) -> Seq<Seq<char>> {
        Seq::new(self.entries@.len(), |i: int| self.entries@[i].0@)
    }

    /// The key of the `i`-th entry.
    pub closed spec fn key_at_spec(self, i: int) -> Seq<char> {
        self.key_seq()[i]
    }

    /// The value of the `i`-th entry.
    pub closed spec fn value_at_spec(self, i: int) -> V {
        self.entries@[i].1
    }

    /// No key is stored twice.
    pub closed spec fn wf(self) -> bool {
        self.key_seq().no_duplicates()
    }

    /// Every stored entry is in the view, with its value.
    pub proof fn lemma_entry(self, i: int)
        requires
            self.wf(),
            0 <= i < self.count(),
        ensures
            self@.contains_key(self.key_at_spec(i)),
            self@[self.key_at_spec(i)] == self.value_at_spec(i),
    {
        let k = self.key_seq()[i];
        assert(self.key_seq().contains(k));
        let j = self.key_seq().index_of(k);
        assert(self.key_seq()[j] == k);
    }

    /// Every key of the view is stored at some index.
    pub proof fn lemma_key(self, k: Seq<char>) -> (i: int)
        requires
            self@.contains_key(k),
        ensures
            0 <= i < self.count(),
            self.key_at_spec(i) == k,
    {
        self.key_seq().index_of(k)
    }

    /// The view is finite and has one key per stored entry.
    pub proof fn lemma_len(self)
        requires
            self.wf(),
        ensures
            self@.dom().finite(),
            self@.dom().len() == self.count(),
    {
        assert(self@.dom() =~= self.key_seq().to_set());
        self.key_seq().unique_seq_to_set();
    }
}

impl<V> View for PathMap<V> {
    type V = Map<Seq<char>, V>;

    closed spec fn view(&self) -> Map<Seq<char>, V> {
        Map::new(
            |k: Seq<char>| self.key_seq().contains(k),
            |k: Seq<char>| self.entries@[self.key_seq().index_of(k)].1,
        )
    }
}

impl<V: Copy> PathMap<V> {
    /// An empty map.
    pub fn new() -> (m: Self)
        ensures
            m.wf(),
            m@ == Map::<Seq<char>, V>::empty(),
    {
        let m = PathMap { entries: Vec::new() };
        assert(m.key_seq() =~= Seq::<Seq<char>>::empty());
        assert(m@ =~= Map::<Seq<char>, V>::empty());
        m
    }

    /// Number of entries.
    pub fn len(&self) -> (n: usize)
        requires
            self.wf(),
        ensures
            n == self@.len(),
            n == self.count(),
    {
        proof {
            self.lemma_len();
        }
        self.entries.len()
    }

    /// The key stored at index `i`.
    pub fn key_at(&self, i: usize) -> (k: &String)
        requires
            i < self.count(),
        ensures
            k@ == self.key_at_spec(i as int),
    {
        &self.entries[i].0
    }

    /// The value stored at index `i`.
    pub fn value_at(&self, i: usize) -> (v: V)
        requires
            i < self.count(),
        ensures
            v == self.value_at_spec(i as int),
    {
        self.entries[i].1
    }

    /// Index of `key`, if stored.
    fn find(&self, key: &String) -> (r: Option<usize>)
        ensures
            match r {
                Some(i) => i < self.count() && self.key_at_spec(i as int) == key@,
                None => !self@.contains_key(key@),
            },
    {
        let mut i: usize = 0;
        while i < self.entries.len()
            invariant
                i <= self.entries@.len(),
                forall|j: int| 0 <= j < i ==> self.key_seq()[j] != key@,
            decreases self.entries@.len() - i,
        {
            if self.entries[i].0 == *key {
                return Some(i);
            }
            i = i + 1;
        }
        None
    }

    /// The value stored under `key`.
    pub fn get(&self, key: &String) -> (r: Option<V>)
        requires
            self.wf(),
        ensures
            r == if self@.contains_key(key@) {
                Some(self@[key@])
            } else {
                None::<V>
            },
    {
        match self.find(key) {
            Some(i) => {
                proof {
                    self.lemma_entry(i as int);
                }
                Some(self.entries[i].1)
            },
            None => None,
        }
    }

    /// Stores `value` under `key`, replacing what was there.
    pub fn insert(&mut self, key: String, value: V)
        requires
            old(self).wf(),
        ensures
            final(self).wf(),
            final(self)@ == old(self)@.insert(key@, value),
    {
        let ghost k = key@;
        let ghost before = *self;
        match self.find(&key) {
            Some(i) => {
                self.entries.set(i, (key, value));
                proof {
                    assert(self.key_seq() =~= before.key_seq());
                    assert(self@.dom() =~= before@.insert(k, value).dom()) by {
                        assert(before.key_seq()[i as int] == k);
                    }
                    assert forall|q: Seq<char>| #[trigger]
                        self@.contains_key(q) implies self@[q] == before@.insert(k, value)[q] by {
                        let j = self.lemma_key(q);
                        self.lemma_entry(j);
                        if j != i {
                            before.lemma_entry(j);
                        }
                    }
                    assert(self@ =~= before@.insert(k, value));
                }
            },
            None => {
                self.entries.push((key, value));
                proof {
                    let n = before.count();
                    assert(self.key_seq() =~= before.key_seq().push(k));
                    assert(!before.key_seq().contains(k));
                    assert(self@.dom() =~= before@.insert(k, value).dom()) by {
                        assert(self.key_seq()[n] == k);
                        assert forall|q: Seq<char>| #[trigger]
                            before.key_seq().contains(q) implies self.key_seq().contains(q) by {
                            let j = before.key_seq().index_of(q);
                            assert(self.key_seq()[j] == q);
                        }
                        assert forall|q: Seq<char>| #[trigger]
                            self.key_seq().contains(q) && q != k implies before.key_seq().contains(q) by {
                            let j = self.key_seq().index_of(q);
                            assert(j != n);
                            assert(before.key_seq()[j] == q);
                        }
                    }
                    assert forall|q: Seq<char>| #[trigger]
                        self@.contains_key(q) implies self@[q] == before@.insert(k, value)[q] by {
                        let j = self.lemma_key(q);
                        self.lemma_entry(j);
                        if j != n {
                            before.lemma_entry(j);
                        }
                    }
                    assert(self@ =~= before@.insert(k, value));
                }
            },
        }
    }

    /// Removes what is stored under `key`.
    pub fn remove(&mut self, key: &String)
        requires
            old(self).wf(),
        ensures
            final(self).wf(),
            final(self)@ == old(self)@.remove(key@),
    {
        let ghost k = key@;
        let ghost before = *self;
        match self.find(key) {
            Some(i) => {
                self.entries.remove(i);
                proof {
                    let ks = before.key_seq();
                    assert(self.key_seq() =~= ks.remove(i as int));
                    assert(ks[i as int] == k);
                    assert(self@.dom() =~= before@.remove(k).dom()) by {
                        assert forall|q: Seq<char>| #[trigger]
                            self.key_seq().contains(q) implies ks.contains(q) && q != k by {
                            let j = self.key_seq().index_of(q);
                            let j0 = if j < i { j } else { j + 1 };
                            assert(ks[j0] == q);
                        }
                        assert forall|q: Seq<char>| #[trigger]
                            ks.contains(q) && q != k implies self.key_seq().contains(q) by {
                            let j0 = ks.index_of(q);
                            assert(j0 != i);
                            let j = if j0 < i { j0 } else { j0 - 1 };
                            assert(self.key_seq()[j] == q);
                        }
                    }
                    assert forall|q: Seq<char>| #[trigger]
                        self@.contains_key(q) implies self@[q] == before@.remove(k)[q] by {
                        let j = self.lemma_key(q);
                        self.lemma_entry(j);
                        let j0 = if j < i { j } else { j + 1 };
                        assert(before.entries@[j0] == self.entries@[j]);
                        before.lemma_entry(j0);
                    }
                    assert(self@ =~= before@.remove(k));
                }
            },
            None => {
                assert(self@ =~= before@.remove(k));
            },
        }
    }

    /// Removes every entry.
    pub fn clear(&mut self)
        ensures
            final(self).wf(),
            final(self)@ == Map::<Seq<char>, V>::empty(),
    {
        self.entries.clear();
        assert(self.key_seq() =~= Seq::<Seq<char>>::empty());
        assert(self@ =~= Map::<Seq<char>, V>::empty());
    }
}

} // verus!
