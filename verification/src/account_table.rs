//! An account-keyed table backed by a vector of pairs with pairwise distinct
//! keys, viewed in specifications as a `Map<Seq<char>, V>`. It stands in for
//! the host platform's per-account key-value storage.

use vstd::prelude::*;

verus! {

/// The index of the entry whose key reads `k`.
spec fn key_index<V>(entries: Seq<(String, V)>, k: Seq<char>) -> int {
    choose|i: int| 0 <= i < entries.len() && entries[i].0@ == k
}

/// A table from account names to values with pairwise distinct keys.
pub struct AccountTable<V> {
    entries: Vec<(String, V)>,
}

impl<V> View for AccountTable<V> {
    type V = Map<Seq<char>, V>;

    closed spec fn view(&self) -> Map<Seq<char>, V> {
        Map::new(
            |k: Seq<char>|
                exists|i: int| 0 <= i < self.entries@.len() && self.entries@[i].0@ == k,
            |k: Seq<char>| self.entries@[key_index(self.entries@, k)].1,
        )
    }
}

impl<V> AccountTable<V> {
    /// Keys are pairwise distinct.
    pub closed spec fn wf(&self) -> bool {
        forall|i: int, j: int|
            0 <= i < j < self.entries@.len() ==> self.entries@[i].0@ != self.entries@[j].0@
    }

    /// The entry at index `i` is the one the view holds for its key.
    proof fn lemma_at(&self, i: int)
        requires
            self.wf(),
            0 <= i < self.entries@.len(),
        ensures
            self@.contains_key(self.entries@[i].0@),
            self@[self.entries@[i].0@] == self.entries@[i].1,
    {
        let es = self.entries@;
        let k = es[i].0@;
        assert(0 <= i < es.len() && es[i].0@ == k);
        let j = key_index(es, k);
        assert(0 <= j < es.len() && es[j].0@ == k);
        if j < i {
            assert(es[j].0@ != es[i].0@);
        }
        if i < j {
            assert(es[i].0@ != es[j].0@);
        }
    }

    /// A key matched by no entry is outside the view's domain.
    proof fn lemma_absent(&self, k: Seq<char>)
        requires
            forall|i: int| 0 <= i < self.entries@.len() ==> self.entries@[i].0@ != k,
        ensures
            !self@.contains_key(k),
    {
    }

    /// An empty table.
    pub fn new() -> (r: Self)
        ensures
            r.wf(),
            r@ == Map::<Seq<char>, V>::empty(),
    {
        let r = AccountTable { entries: Vec::new() };
        proof {
            assert(r@ =~= Map::<Seq<char>, V>::empty());
        }
        r
    }

    /// Where `key` sits in the backing vector, if anywhere.
    fn index_of(&self, key: &String) -> (r: Option<usize>)
        ensures
            match r {
                Some(i) => i < self.entries@.len() && self.entries@[i as int].0@ == key@,
                None => forall|j: int|
                    0 <= j < self.entries@.len() ==> self.entries@[j].0@ != key@,
            },
    {
        let n = self.entries.len();
        let mut i: usize = 0;
        while i < n
            invariant
                n == self.entries@.len(),
                i <= n,
                forall|j: int| 0 <= j < i ==> self.entries@[j].0@ != key@,
            decreases n - i,
        {
            if self.entries[i].0 == *key {
                return Some(i);
            }
            i += 1;
        }
        None
    }

    /// Binds `key` to `value`, overwriting any previous binding.
    pub fn insert(&mut self, key: String, value: V)
        requires
            old(self).wf(),
        ensures
            final(self).wf(),
            final(self)@ == old(self)@.insert(key@, value),
    {
        let ghost m0 = old(self)@;
        let ghost es0 = old(self).entries@;
        let ghost k = key@;
        match self.index_of(&key) {
            Some(i) => {
                self.entries[i] = (key, value);
                proof {
                    let es1 = self.entries@;
                    assert(es1 == es0.update(i as int, (es1[i as int].0, value)));
                    assert forall|j: int| 0 <= j < es1.len() implies es1[j].0@ == es0[j].0@ by {
                        if j != i {
                            assert(es1[j] == es0[j]);
                        }
                    }
                    assert(self.wf());
                    self.lemma_at(i as int);
                    assert forall|k2: Seq<char>| #![auto]
                        m0.insert(k, value).contains_key(k2) implies self@.contains_key(k2)
                        && self@[k2] == m0.insert(k, value)[k2] by {
                        if k2 == k {
                            assert(self@[k2] == value);
                        } else {
                            let j = key_index(es0, k2);
                            assert(0 <= j < es0.len() && es0[j].0@ == k2);
                            assert(es1[j] == es0[j]);
                            old(self).lemma_at(j);
                            self.lemma_at(j);
                        }
                    }
                    assert forall|k2: Seq<char>| #![auto]
                        self@.contains_key(k2) implies m0.insert(k, value).contains_key(k2) by {
                        let j = key_index(es1, k2);
                        assert(0 <= j < es1.len() && es1[j].0@ == k2);
                        if k2 != k {
                            assert(es0[j].0@ == k2);
                        }
                    }
                    assert(self@ =~= m0.insert(k, value));
                }
            },
            None => {
                self.entries.push((key, value));
                proof {
                    let es1 = self.entries@;
                    assert(es1 == es0.push((es1[es0.len() as int].0, value)));
                    assert forall|i: int, j: int|
                        0 <= i < j < es1.len() implies es1[i].0@ != es1[j].0@ by {
                        if j < es0.len() {
                            assert(es1[i] == es0[i] && es1[j] == es0[j]);
                        } else {
                            assert(es1[i] == es0[i]);
                            assert(es0[i].0@ != k);
                        }
                    }
                    assert(self.wf());
                    self.lemma_at(es0.len() as int);
                    assert forall|k2: Seq<char>|
                        self@.dom().contains(k2) == m0.insert(k, value).dom().contains(k2) by {
                        if m0.insert(k, value).contains_key(k2) {
                            if k2 == k {
                                assert(self@.contains_key(k2));
                            } else {
                                let j = key_index(es0, k2);
                                assert(0 <= j < es0.len() && es0[j].0@ == k2);
                                assert(es1[j] == es0[j]);
                                self.lemma_at(j);
                            }
                        }
                        if self@.contains_key(k2) {
                            let j = key_index(es1, k2);
                            assert(0 <= j < es1.len() && es1[j].0@ == k2);
                            if j < es0.len() {
                                assert(es0[j].0@ == k2);
                                old(self).lemma_at(j);
                            }
                        }
                    }
                    assert(self@.dom() =~= m0.insert(k, value).dom());
                    assert forall|k2: Seq<char>| #![auto]
                        self@.dom().contains(k2) implies self@[k2] == m0.insert(k, value)[k2] by {
                        if k2 == k {
                            assert(self@[k2] == value);
                        } else {
                            let j = key_index(es1, k2);
                            assert(0 <= j < es1.len() && es1[j].0@ == k2);
                            assert(j < es0.len());
                            assert(es1[j] == es0[j]);
                            old(self).lemma_at(j);
                            self.lemma_at(j);
                        }
                    }
                    assert(self@ =~= m0.insert(k, value));
                }
            },
        }
    }

    /// Drops the binding for `key`, if there is one.
    pub fn remove(&mut self, key: &String)
        requires
            old(self).wf(),
        ensures
            final(self).wf(),
            final(self)@ == old(self)@.remove(key@),
    {
        let ghost m0 = old(self)@;
        let ghost es0 = old(self).entries@;
        let ghost k = key@;
        match self.index_of(key) {
            Some(i) => {
                self.entries.remove(i);
                proof {
                    let es1 = self.entries@;
                    assert(es1 == es0.remove(i as int));
                    assert forall|i2: int, j2: int|
                        0 <= i2 < j2 < es1.len() implies es1[i2].0@ != es1[j2].0@ by {
                        let oi = if i2 < i { i2 } else { i2 + 1 };
                        let oj = if j2 < i { j2 } else { j2 + 1 };
                        assert(es1[i2] == es0[oi] && es1[j2] == es0[oj]);
                    }
                    assert(self.wf());
                    assert forall|j: int| 0 <= j < es1.len() implies es1[j].0@ != k by {
                        let oj = if j < i { j } else { j + 1 };
                        assert(es1[j] == es0[oj]);
                        if oj < i {
                            assert(es0[oj].0@ != es0[i as int].0@);
                        }
                        if oj > i {
                            assert(es0[i as int].0@ != es0[oj].0@);
                        }
                    }
                    self.lemma_absent(k);
                    assert forall|k2: Seq<char>|
                        self@.dom().contains(k2) == m0.remove(k).dom().contains(k2) by {
                        if m0.remove(k).contains_key(k2) {
                            let j = key_index(es0, k2);
                            assert(0 <= j < es0.len() && es0[j].0@ == k2);
                            let nj = if j < i { j } else { j - 1 };
                            assert(es1[nj] == es0[j]);
                            self.lemma_at(nj);
                        }
                        if self@.contains_key(k2) {
                            let j = key_index(es1, k2);
                            assert(0 <= j < es1.len() && es1[j].0@ == k2);
                            let oj = if j < i { j } else { j + 1 };
                            assert(es1[j] == es0[oj]);
                            old(self).lemma_at(oj);
                            if oj < i {
                                assert(es0[oj].0@ != es0[i as int].0@);
                            }
                            if oj > i {
                                assert(es0[i as int].0@ != es0[oj].0@);
                            }
                        }
                    }
                    assert(self@.dom() =~= m0.remove(k).dom());
                    assert forall|k2: Seq<char>| #![auto]
                        self@.dom().contains(k2) implies self@[k2] == m0.remove(k)[k2] by {
                        let j = key_index(es1, k2);
                        assert(0 <= j < es1.len() && es1[j].0@ == k2);
                        let oj = if j < i { j } else { j + 1 };
                        assert(es1[j] == es0[oj]);
                        old(self).lemma_at(oj);
                        self.lemma_at(j);
                        if oj < i {
                            assert(es0[oj].0@ != es0[i as int].0@);
                        }
                        if oj > i {
                            assert(es0[i as int].0@ != es0[oj].0@);
                        }
                    }
                    assert(self@ =~= m0.remove(k));
                }
            },
            None => {
                proof {
                    self.lemma_absent(k);
                    assert(self@ =~= m0.remove(k));
                }
            },
        }
    }
}

/// The map a list of pairs denotes when read left to right, the last
/// binding of a key winning.
pub open spec fn table_of<V>(s: Seq<(String, V)>) -> Map<Seq<char>, V>
    decreases s.len(),
{
    if s.len() == 0 {
        Map::empty()
    } else {
        table_of(s.drop_last()).insert(s.last().0@, s.last().1)
    }
}

impl<V> AccountTable<V> {
    /// Rebuilds a table from listed pairs, as when state read back from
    /// storage is turned into values again; a repeated key keeps its last
    /// binding.
    pub fn from_entries(list: Vec<(String, V)>) -> (r: Self)
        ensures
            r.wf(),
            r@ == table_of(list@),
    {
        let mut r = AccountTable::new();
        let mut list = list;
        let ghost all = list@;
        let n = list.len();
        let mut i: usize = 0;
        proof {
            assert(r@ =~= table_of(all.subrange(0, 0)));
            assert(list@ =~= all.subrange(0, n as int));
        }
        while i < n
            invariant
                i <= n,
                n == all.len(),
                list@ == all.subrange(i as int, n as int),
                r.wf(),
                r@ == table_of(all.subrange(0, i as int)),
            decreases n - i,
        {
            let (key, value) = list.remove(0);
            proof {
                assert(list@ =~= all.subrange(i as int + 1, n as int));
                assert(all.subrange(0, i as int + 1).drop_last() =~= all.subrange(0, i as int));
                assert(all.subrange(0, i as int + 1).last() == all[i as int]);
            }
            r.insert(key, value);
            i += 1;
        }
        proof {
            assert(all.subrange(0, n as int) =~= all);
        }
        r
    }

    /// The backing pairs, for handing the table to storage: distinct keys,
    /// each bound to exactly what the view holds.
    pub fn entries(&self) -> (r: &Vec<(String, V)>)
        requires
            self.wf(),
        ensures
            forall|i: int, j: int| 0 <= i < j < r@.len() ==> r@[i].0@ != r@[j].0@,
            forall|i: int|
                0 <= i < r@.len() ==> self@.contains_key(#[trigger] r@[i].0@) && self@[r@[i].0@]
                    == r@[i].1,
            forall|k: Seq<char>|
                self@.contains_key(k) ==> exists|i: int| 0 <= i < r@.len() && r@[i].0@ == k,
    {
        proof {
            assert forall|i: int|
                0 <= i < self.entries@.len() implies self@.contains_key(
                #[trigger] self.entries@[i].0@,
            ) && self@[self.entries@[i].0@] == self.entries@[i].1 by {
                self.lemma_at(i);
            }
            assert forall|k: Seq<char>| self@.contains_key(k) implies exists|i: int|
                0 <= i < self.entries@.len() && self.entries@[i].0@ == k by {
                let j = key_index(self.entries@, k);
                assert(0 <= j < self.entries@.len() && self.entries@[j].0@ == k);
            }
        }
        &self.entries
    }
}

impl<V: Copy> AccountTable<V> {
    /// The value bound to `key`, if any.
    pub fn get(&self, key: &String) -> (r: Option<V>)
        requires
            self.wf(),
        ensures
            r == if self@.contains_key(key@) {
                Some(self@[key@])
            } else {
                None::<V>
            },
    {
        match self.index_of(key) {
            Some(i) => {
                proof {
                    self.lemma_at(i as int);
                }
                Some(self.entries[i].1)
            },
            None => {
                proof {
                    self.lemma_absent(key@);
                }
                None
            },
        }
    }
}

} // verus!
