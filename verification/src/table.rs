use vstd::prelude::*;
use crate::identity::Key;

verus! {

/// A finite map from keys to records, held as a list of entries in which no
/// key occurs twice.
pub struct Table<K, V> {
    entries: Vec<(K, V)>,
}

impl<K: Key, V> Table<K, V> {
    /// No key occurs in two entries.
    pub closed spec fn wf(&self) -> bool {
        forall|i: int, j: int|
            0 <= i < j < self.entries@.len() ==> (#[trigger] self.entries@[i]).0 != (
            #[trigger] self.entries@[j]).0
    }

    /// Whether entry `i` exists and is filed under `k`.
    pub closed spec fn at(&self, i: int, k: K) -> bool {
        0 <= i < self.entries@.len() && self.entries@[i].0 == k
    }

    /// The map that the table stands for.
    pub closed spec fn view(&self) -> Map<K, V> {
        Map::new(
            |k: K| exists|i: int| self.at(i, k),
            |k: K| self.entries@[choose|i: int| self.at(i, k)].1,
        )
    }

    proof fn lemma_entry(&self, i: int)
        requires
            self.wf(),
            0 <= i < self.entries@.len(),
        ensures
            self.view().contains_key(self.entries@[i].0),
            self.view()[self.entries@[i].0] == self.entries@[i].1,
    {
        let k = self.entries@[i].0;
        assert(self.at(i, k));
        let c = choose|c: int| self.at(c, k);
        assert(self.at(c, k));
        if c < i {
            assert(self.entries@[c].0 != self.entries@[i].0);
        } else if i < c {
            assert(self.entries@[i].0 != self.entries@[c].0);
        }
    }

    /// The table without entries.
    pub fn new() -> (t: Table<K, V>)
        ensures
            t.wf(),
            t@ == Map::<K, V>::empty(),
    {
        let t = Table { entries: Vec::new() };
        assert(t@ =~= Map::<K, V>::empty()) by {
            assert(forall|k: K, i: int| !#[trigger] t.at(i, k));
        }
        t
    }

    fn position(&self, k: &K) -> (r: Option<usize>)
        requires
            self.wf(),
        ensures
            match r {
                Some(i) => self.at(i as int, *k),
                None => !self@.contains_key(*k),
            },
    {
        let mut i: usize = 0;
        while i < self.entries.len()
            invariant
                i <= self.entries@.len(),
                forall|j: int| 0 <= j < i ==> !self.at(j, *k),
            decreases self.entries@.len() - i,
        {
            if self.entries[i].0.same(k) {
                return Some(i);
            }
            i += 1;
        }
        assert(forall|j: int| !self.at(j, *k));
        None
    }

    /// Whether a record is filed under `k`.
    pub fn contains(&self, k: &K) -> (r: bool)
        requires
            self.wf(),
        ensures
            r == self@.contains_key(*k),
    {
        match self.position(k) {
            Some(i) => {
                proof {
                    self.lemma_entry(i as int);
                }
                true
            },
            None => false,
        }
    }

    /// The record filed under `k`, if there is one.
    pub fn get(&self, k: &K) -> (r: Option<&V>)
        requires
            self.wf(),
        ensures
            match r {
                Some(v) => self@.contains_key(*k) && self@[*k] == *v,
                None => !self@.contains_key(*k),
            },
    {
        match self.position(k) {
            Some(i) => {
                proof {
                    self.lemma_entry(i as int);
                }
                Some(&self.entries[i].1)
            },
            None => None,
        }
    }

    /// Files `v` under `k`, in place of the record that was there, if any.
    pub fn put(&mut self, k: K, v: V)
        requires
            old(self).wf(),
        ensures
            final(self).wf(),
            final(self)@ == old(self)@.insert(k, v),
    {
        let ghost before = *self;
        match self.position(&k) {
            Some(i) => {
                self.entries[i] = (k, v);
                proof {
                    let after = *self;
                    assert(after.entries@ == before.entries@.update(i as int, (k, v)));
                    assert(after.wf()) by {
                        assert forall|a: int, b: int| 0 <= a < b < after.entries@.len() implies (
                        #[trigger] after.entries@[a]).0 != (#[trigger] after.entries@[b]).0 by {
                            assert(before.entries@[a].0 != before.entries@[b].0);
                        }
                    }
                    assert forall|q: K| #[trigger]
                        after@.contains_key(q) == before@.insert(k, v).contains_key(q) by {
                        if after@.contains_key(q) {
                            let c = choose|c: int| after.at(c, q);
                            assert(before.at(c, before.entries@[c].0));
                        }
                        if before@.contains_key(q) {
                            let c = choose|c: int| before.at(c, q);
                            assert(after.at(c, q));
                        }
                        if q == k {
                            assert(after.at(i as int, q));
                        }
                    }
                    assert forall|q: K| after@.contains_key(q) implies #[trigger] after@[q]
                        == before@.insert(k, v)[q] by {
                        let c = choose|c: int| after.at(c, q);
                        after.lemma_entry(c);
                        if q != k {
                            assert(before.at(c, q));
                            before.lemma_entry(c);
                        }
                    }
                    assert(after@ =~= before@.insert(k, v));
                }
            },
            None => {
                self.entries.push((k, v));
                proof {
                    let after = *self;
                    let n = before.entries@.len() as int;
                    assert(after.entries@ == before.entries@.push((k, v)));
                    assert(after.wf()) by {
                        assert forall|a: int, b: int| 0 <= a < b < after.entries@.len() implies (
                        #[trigger] after.entries@[a]).0 != (#[trigger] after.entries@[b]).0 by {
                            if b < n {
                                assert(before.entries@[a].0 != before.entries@[b].0);
                            } else {
                                if after.entries@[a].0 == k {
                                    assert(before.at(a, k));
                                }
                            }
                        }
                    }
                    assert forall|q: K| #[trigger]
                        after@.contains_key(q) == before@.insert(k, v).contains_key(q) by {
                        if after@.contains_key(q) {
                            let c = choose|c: int| after.at(c, q);
                            if c < n {
                                assert(before.at(c, q));
                            }
                        }
                        if before@.contains_key(q) {
                            let c = choose|c: int| before.at(c, q);
                            assert(after.at(c, q));
                        }
                        if q == k {
                            assert(after.at(n, q));
                        }
                    }
                    assert forall|q: K| after@.contains_key(q) implies #[trigger] after@[q]
                        == before@.insert(k, v)[q] by {
                        let c = choose|c: int| after.at(c, q);
                        after.lemma_entry(c);
                        if q != k {
                            assert(before.at(c, q));
                            before.lemma_entry(c);
                        }
                    }
                    assert(after@ =~= before@.insert(k, v));
                }
            },
        }
    }

    /// Takes out the record filed under `k`, if there is one.
    pub fn remove(&mut self, k: &K)
        requires
            old(self).wf(),
        ensures
            final(self).wf(),
            final(self)@ == old(self)@.remove(*k),
    {
        let ghost before = *self;
        match self.position(k) {
            Some(i) => {
                let _ = self.entries.remove(i);
                proof {
                    let after = *self;
                    let p = i as int;
                    assert(after.entries@ == before.entries@.remove(p));
                    assert forall|a: int| 0 <= a < after.entries@.len() implies #[trigger]
                        after.entries@[a] == before.entries@[if a < p {
                            a
                        } else {
                            a + 1
                        }] by {}
                    assert(after.wf()) by {
                        assert forall|a: int, b: int| 0 <= a < b < after.entries@.len() implies (
                        #[trigger] after.entries@[a]).0 != (#[trigger] after.entries@[b]).0 by {
                            let a0 = if a < p { a } else { a + 1 };
                            let b0 = if b < p { b } else { b + 1 };
                            assert(before.entries@[a0].0 != before.entries@[b0].0);
                        }
                    }
                    assert forall|q: K| #[trigger]
                        after@.contains_key(q) == before@.remove(*k).contains_key(q) by {
                        if after@.contains_key(q) {
                            let c = choose|c: int| after.at(c, q);
                            let c0 = if c < p { c } else { c + 1 };
                            assert(before.at(c0, q));
                            if q == *k {
                                if c0 < p {
                                    assert(before.entries@[c0].0 != before.entries@[p].0);
                                } else {
                                    assert(before.entries@[p].0 != before.entries@[c0].0);
                                }
                            }
                        }
                        if before@.contains_key(q) && q != *k {
                            let c = choose|c: int| before.at(c, q);
                            let c1 = if c < p { c } else { c - 1 };
                            assert(after.at(c1, q));
                        }
                    }
                    assert forall|q: K| after@.contains_key(q) implies #[trigger] after@[q]
                        == before@.remove(*k)[q] by {
                        let c = choose|c: int| after.at(c, q);
                        after.lemma_entry(c);
                        let c0 = if c < p { c } else { c + 1 };
                        assert(before.at(c0, q));
                        before.lemma_entry(c0);
                    }
                    assert(after@ =~= before@.remove(*k));
                }
            },
            None => {
                assert(self@ =~= before@.remove(*k));
            },
        }
    }
}

impl<K: Key + Copy, V: Copy> Table<K, V> {
    /// A second table with the same entries.
    pub fn snapshot(&self) -> (t: Table<K, V>)
        requires
            self.wf(),
        ensures
            t.wf(),
            t@ == self@,
    {
        let mut entries: Vec<(K, V)> = Vec::new();
        let mut i: usize = 0;
        while i < self.entries.len()
            invariant
                i <= self.entries@.len(),
                entries@ == self.entries@.subrange(0, i as int),
            decreases self.entries@.len() - i,
        {
            let entry = self.entries[i];
            entries.push(entry);
            i += 1;
        }
        assert(entries@ == self.entries@);
        let t = Table { entries };
        proof {
            assert forall|k: K| #[trigger] t@.contains_key(k) == self@.contains_key(k) by {
                if t@.contains_key(k) {
                    let c = choose|c: int| t.at(c, k);
                    assert(self.at(c, k));
                }
                if self@.contains_key(k) {
                    let c = choose|c: int| self.at(c, k);
                    assert(t.at(c, k));
                }
            }
            assert forall|k: K| t@.contains_key(k) implies #[trigger] t@[k] == self@[k] by {
                let c = choose|c: int| t.at(c, k);
                assert(self.at(c, k));
                t.lemma_entry(c);
                self.lemma_entry(c);
            }
            assert(t@ =~= self@);
        }
        t
    }
}

} // verus!
