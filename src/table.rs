use vstd::prelude::*;

use crate::text::same_text;

verus! {

/// A finite map from text keys to values, each key held at most once.
/// Entries keep the order in which their keys were first inserted.
pub struct Table<V> {
    entries: Vec<(String, V)>,
}

impl<V> Table<V> {
    /// The keys, in the order they are held.
    pub closed spec fn key_seq(&self) -> Seq<Seq<char>> {
        self.entries@.map_values(|e: (String, V)| e.0@)
    }

    /// The index at which `k` is held, if any.
    pub closed spec fn holds_at(&self, k: Seq<char>, i: int) -> bool {
        0 <= i < self.entries@.len() && self.entries@[i].0@ == k
    }

    /// Each key is held at most once.
    pub closed spec fn wf(&self) -> bool {
        self.keys_unique()
    }

    closed spec fn keys_unique(&self) -> bool {
        forall|i: int, j: int|
            0 <= i < j < self.entries@.len() ==> self.entries@[i].0@ != self.entries@[j].0@
    }

    /// The table as a map.
    pub closed spec fn view(&self) -> Map<Seq<char>, V> {
        Map::new(
            |k: Seq<char>| exists|i: int| self.holds_at(k, i),
            |k: Seq<char>| self.entries@[choose|i: int| self.holds_at(k, i)].1,
        )
    }

    proof fn lemma_value_at(&self, i: int)
        requires
            self.keys_unique(),
            0 <= i < self.entries@.len(),
        ensures
            self@.contains_key(self.entries@[i].0@),
            self@[self.entries@[i].0@] == self.entries@[i].1,
    {
        let k = self.entries@[i].0@;
        assert(self.holds_at(k, i));
        let j = choose|j: int| self.holds_at(k, j);
        assert(j == i);
    }

    proof fn lemma_dom_finite(&self)
        ensures
            self@.dom().finite(),
            self@.dom() == self.key_seq().to_set(),
    {
        assert forall|k: Seq<char>| self@.dom().contains(k) <==> self.key_seq().to_set().contains(k) by {
            if self@.dom().contains(k) {
                let i = choose|i: int| self.holds_at(k, i);
                assert(self.key_seq()[i] == k);
            }
            if self.key_seq().to_set().contains(k) {
                let i = choose|i: int| 0 <= i < self.key_seq().len() && self.key_seq()[i] == k;
                assert(self.holds_at(k, i));
            }
        }
        assert(self@.dom() =~= self.key_seq().to_set());
    }

    /// An empty table.
    pub fn new() -> (r: Self)
        ensures
            r.wf(),
            r@ == Map::<Seq<char>, V>::empty(),
    {
        let r = Table { entries: Vec::new() };
        assert(r@ =~= Map::<Seq<char>, V>::empty());
        r
    }

    /// The number of keys.
    pub fn len(&self) -> (r: usize)
        requires
            self.wf(),
        ensures
            r as nat == self@.len(),
            r == 0 <==> self@ == Map::<Seq<char>, V>::empty(),
    {
        proof {
            self.lemma_dom_finite();
            let ks = self.key_seq();
            assert forall|i: int, j: int| 0 <= i < j < ks.len() implies ks[i] != ks[j] by {}
            ks.unique_seq_to_set();
            if self.entries.len() > 0 {
                self.lemma_value_at(0);
                assert(self@.contains_key(self.entries@[0].0@));
                assert(!Map::<Seq<char>, V>::empty().contains_key(self.entries@[0].0@));
            } else {
                assert(self@ =~= Map::<Seq<char>, V>::empty());
            }
        }
        self.entries.len()
    }

    /// The position of `k`, if it is held.
    fn find(&self, k: &str) -> (r: Option<usize>)
        ensures
            match r {
                Some(i) => self.holds_at(k@, i as int),
                None => !self@.contains_key(k@),
            },
    {
        let mut i: usize = 0;
        while i < self.entries.len()
            invariant
                i <= self.entries@.len(),
                forall|j: int| 0 <= j < i ==> self.entries@[j].0@ != k@,
            decreases self.entries.len() - i,
        {
            if same_text(self.entries[i].0.as_str(), k) {
                return Some(i);
            }
            i = i + 1;
        }
        None
    }

    /// Whether `k` is held.
    pub fn contains_key(&self, k: &str) -> (r: bool)
        ensures
            r == self@.contains_key(k@),
    {
        match self.find(k) {
            Some(_) => true,
            None => false,
        }
    }

    /// The value held under `k`, if any.
    pub fn get(&self, k: &str) -> (r: Option<&V>)
        requires
            self.wf(),
        ensures
            match r {
                Some(v) => self@.contains_key(k@) && self@[k@] == *v,
                None => !self@.contains_key(k@),
            },
    {
        match self.find(k) {
            Some(i) => {
                proof {
                    self.lemma_value_at(i as int);
                }
                Some(&self.entries[i].1)
            },
            None => None,
        }
    }

    /// Holds `v` under `k`, replacing what was held there.
    pub fn insert(&mut self, k: String, v: V)
        requires
            old(self).wf(),
        ensures
            final(self).wf(),
            final(self)@ == old(self)@.insert(k@, v),
    {
        let ghost before = *self;
        match self.find(k.as_str()) {
            Some(i) => {
                let ghost ki = k@;
                self.entries.set(i, (k, v));
                proof {
                    let after = *self;
                    assert forall|a: int, b: int|
                        0 <= a < b < after.entries@.len() implies after.entries@[a].0@
                        != after.entries@[b].0@ by {}
                    assert forall|key: Seq<char>| #[trigger]
                        after@.contains_key(key) == before@.insert(ki, v).contains_key(key) by {
                        if key != ki && before@.contains_key(key) {
                            let j = choose|j: int| before.holds_at(key, j);
                            assert(after.holds_at(key, j));
                        }
                        if key != ki && after@.contains_key(key) {
                            let j = choose|j: int| after.holds_at(key, j);
                            assert(before.holds_at(key, j));
                        }
                        if key == ki {
                            assert(after.holds_at(key, i as int));
                        }
                    }
                    assert forall|key: Seq<char>| after@.contains_key(key) implies after@[key]
                        == before@.insert(ki, v)[key] by {
                        let j = choose|j: int| after.holds_at(key, j);
                        after.lemma_value_at(j);
                        if j != i {
                            before.lemma_value_at(j);
                        }
                    }
                    assert(after@ =~= before@.insert(ki, v));
                }
            },
            None => {
                let ghost ki = k@;
                self.entries.push((k, v));
                proof {
                    let after = *self;
                    let n = before.entries@.len() as int;
                    assert forall|a: int, b: int|
                        0 <= a < b < after.entries@.len() implies after.entries@[a].0@
                        != after.entries@[b].0@ by {
                        if b == n {
                            assert(!before.holds_at(ki, a));
                        }
                    }
                    assert forall|key: Seq<char>| #[trigger]
                        after@.contains_key(key) == before@.insert(ki, v).contains_key(key) by {
                        if key != ki && before@.contains_key(key) {
                            let j = choose|j: int| before.holds_at(key, j);
                            assert(after.holds_at(key, j));
                        }
                        if key != ki && after@.contains_key(key) {
                            let j = choose|j: int| after.holds_at(key, j);
                            assert(before.holds_at(key, j));
                        }
                        if key == ki {
                            assert(after.holds_at(key, n));
                        }
                    }
                    assert forall|key: Seq<char>| after@.contains_key(key) implies after@[key]
                        == before@.insert(ki, v)[key] by {
                        let j = choose|j: int| after.holds_at(key, j);
                        after.lemma_value_at(j);
                        if j != n {
                            before.lemma_value_at(j);
                        }
                    }
                    assert(after@ =~= before@.insert(ki, v));
                }
            },
        }
    }

    /// Removes `k`, giving back the value that was held under it.
    pub fn remove(&mut self, k: &str) -> (r: Option<V>)
        requires
            old(self).wf(),
        ensures
            final(self).wf(),
            final(self)@ == old(self)@.remove(k@),
            match r {
                Some(v) => old(self)@.contains_key(k@) && old(self)@[k@] == v,
                None => !old(self)@.contains_key(k@),
            },
    {
        let ghost before = *self;
        match self.find(k) {
            Some(i) => {
                let (_, v) = self.entries.remove(i);
                proof {
                    let after = *self;
                    before.lemma_value_at(i as int);
                    let kk = k@;
                    assert forall|a: int, b: int|
                        0 <= a < b < after.entries@.len() implies after.entries@[a].0@
                        != after.entries@[b].0@ by {
                        let a0 = if a < i { a } else { a + 1 };
                        let b0 = if b < i { b } else { b + 1 };
                        assert(after.entries@[a] == before.entries@[a0]);
                        assert(after.entries@[b] == before.entries@[b0]);
                    }
                    assert forall|key: Seq<char>| #[trigger]
                        after@.contains_key(key) == before@.remove(kk).contains_key(key) by {
                        if key != kk && before@.contains_key(key) {
                            let j = choose|j: int| before.holds_at(key, j);
                            if j < i {
                                assert(after.holds_at(key, j));
                            } else {
                                assert(after.holds_at(key, j - 1));
                            }
                        }
                        if after@.contains_key(key) {
                            let j = choose|j: int| after.holds_at(key, j);
                            if j < i {
                                assert(before.holds_at(key, j));
                            } else {
                                assert(before.holds_at(key, j + 1));
                            }
                        }
                    }
                    assert forall|key: Seq<char>| after@.contains_key(key) implies after@[key]
                        == before@.remove(kk)[key] by {
                        let j = choose|j: int| after.holds_at(key, j);
                        after.lemma_value_at(j);
                        if j < i {
                            before.lemma_value_at(j);
                        } else {
                            before.lemma_value_at(j + 1);
                        }
                    }
                    assert(after@ =~= before@.remove(kk));
                }
                Some(v)
            },
            None => {
                assert(self@ =~= self@.remove(k@));
                None
            },
        }
    }

    /// The keys, each once, in the order they are held.
    pub fn keys(&self) -> (r: Vec<String>)
        requires
            self.wf(),
        ensures
            r.len() == self@.len(),
            forall|i: int| 0 <= i < r.len() ==> self@.contains_key(#[trigger] r@[i]@),
            forall|k: Seq<char>| self@.contains_key(k) ==> exists|i: int| 0 <= i < r.len() && r@[i]@ == k,
    {
        let n = self.len();
        let mut r: Vec<String> = Vec::new();
        let mut i: usize = 0;
        while i < self.entries.len()
            invariant
                n == self@.len(),
                self.keys_unique(),
                i <= self.entries@.len(),
                r.len() == i,
                forall|j: int| 0 <= j < i ==> r@[j]@ == self.entries@[j].0@,
            decreases self.entries.len() - i,
        {
            r.push(self.entries[i].0.clone());
            i = i + 1;
        }
        proof {
            self.lemma_dom_finite();
            let ks = self.key_seq();
            assert forall|a: int, b: int| 0 <= a < b < ks.len() implies ks[a] != ks[b] by {}
            ks.unique_seq_to_set();
            assert forall|j: int| 0 <= j < r.len() implies self@.contains_key(#[trigger] r@[j]@) by {
                self.lemma_value_at(j);
            }
            assert forall|k: Seq<char>| self@.contains_key(k) implies exists|j: int|
                0 <= j < r.len() && r@[j]@ == k by {
                let j = choose|j: int| self.holds_at(k, j);
                assert(r@[j]@ == k);
            }
        }
        r
    }

    /// The value held under the key at position `i` of `keys`.
    pub fn entry_at(&self, i: usize) -> (r: (&String, &V))
        requires
            self.wf(),
            i < self@.len(),
        ensures
            self@.contains_key(r.0@),
            self@[r.0@] == *r.1,
    {
        proof {
            self.lemma_dom_finite();
            let ks = self.key_seq();
            assert forall|a: int, b: int| 0 <= a < b < ks.len() implies ks[a] != ks[b] by {}
            ks.unique_seq_to_set();
            self.lemma_value_at(i as int);
        }
        (&self.entries[i].0, &self.entries[i].1)
    }
}

} // verus!
