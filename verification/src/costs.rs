//! The pricing table: at most four entries mapping a bundle size (games per
//! purchase) to the price of one game at that bundle size, kept in insertion
//! order because the payment converter scans it in that order.

use vstd::prelude::*;

verus! {

/// The table may hold at most this many entries.
pub const MAX_COST_ENTRIES: usize = 4;

/// Some entry carries `key` as its bundle size.
pub open spec fn cost_contains(s: Seq<(u8, u128)>, key: u8) -> bool {
    exists|i: int| 0 <= i < s.len() && s[i].0 == key
}

/// The index of the entry for bundle size `key`.
pub open spec fn cost_index(s: Seq<(u8, u128)>, key: u8) -> int {
    choose|i: int| 0 <= i < s.len() && s[i].0 == key
}

/// The price stored for bundle size `key`.
pub open spec fn cost_price(s: Seq<(u8, u128)>, key: u8) -> u128 {
    s[cost_index(s, key)].1
}

/// An entry's bundle size is positive and its price is above zero; positive
/// prices keep the converter's divisions meaningful.
pub open spec fn cost_entry_ok(e: (u8, u128)) -> bool {
    e.0 > 0 && e.1 > 0
}

/// Bundle sizes are pairwise distinct, every entry is well formed, and the
/// table is within its capacity.
pub open spec fn cost_wf(s: Seq<(u8, u128)>) -> bool {
    &&& s.len() <= MAX_COST_ENTRIES
    &&& forall|i: int| 0 <= i < s.len() ==> #[trigger] cost_entry_ok(s[i])
    &&& forall|i: int, j: int| 0 <= i < j < s.len() ==> s[i].0 != s[j].0
}

/// With distinct bundle sizes, the entry holding `key` is the one
/// `cost_index` picks.
pub proof fn lemma_cost_index_at(s: Seq<(u8, u128)>, i: int)
    requires
        cost_wf(s),
        0 <= i < s.len(),
    ensures
        cost_contains(s, s[i].0),
        cost_index(s, s[i].0) == i,
        cost_price(s, s[i].0) == s[i].1,
{
    let key = s[i].0;
    assert(0 <= i < s.len() && s[i].0 == key);
    let j = cost_index(s, key);
    assert(0 <= j < s.len() && s[j].0 == key);
    if j < i {
        assert(s[j].0 != s[i].0);
    }
    if i < j {
        assert(s[i].0 != s[j].0);
    }
}

/// The bounded pricing table.
pub struct CostTable {
    entries: Vec<(u8, u128)>,
}

impl View for CostTable {
    type V = Seq<(u8, u128)>;

    closed spec fn view(&self) -> Seq<(u8, u128)> {
        self.entries@
    }
}

impl CostTable {
    /// An empty table.
    pub fn new() -> (r: Self)
        ensures
            r@ == Seq::<(u8, u128)>::empty(),
            cost_wf(r@),
    {
        let r = CostTable { entries: Vec::new() };
        proof {
            assert(r@ =~= Seq::<(u8, u128)>::empty());
        }
        r
    }

    /// How many entries the table holds.
    pub fn len(&self) -> (r: usize)
        ensures
            r == self@.len(),
    {
        self.entries.len()
    }

    /// The entry at position `i` in iteration order.
    pub fn pair_at(&self, i: usize) -> (r: (u8, u128))
        requires
            i < self@.len(),
        ensures
            r == self@[i as int],
    {
        (self.entries[i].0, self.entries[i].1)
    }

    /// Where `key` sits in the backing vector, if anywhere.
    fn index_of(&self, key: u8) -> (r: Option<usize>)
        ensures
            match r {
                Some(i) => i < self@.len() && self@[i as int].0 == key,
                None => forall|j: int| 0 <= j < self@.len() ==> self@[j].0 != key,
            },
    {
        let n = self.entries.len();
        let mut i: usize = 0;
        while i < n
            invariant
                n == self@.len(),
                i <= n,
                forall|j: int| 0 <= j < i ==> self@[j].0 != key,
            decreases n - i,
        {
            if self.entries[i].0 == key {
                return Some(i);
            }
            i += 1;
        }
        None
    }

    /// Whether the table has an entry for bundle size `key`.
    pub fn contains(&self, key: u8) -> (r: bool)
        ensures
            r == cost_contains(self@, key),
    {
        self.index_of(key).is_some()
    }

    /// The price stored for bundle size `key`, if any.
    pub fn get(&self, key: u8) -> (r: Option<u128>)
        requires
            cost_wf(self@),
        ensures
            r == if cost_contains(self@, key) {
                Some(cost_price(self@, key))
            } else {
                None::<u128>
            },
    {
        match self.index_of(key) {
            Some(i) => {
                proof {
                    lemma_cost_index_at(self@, i as int);
                }
                Some(self.entries[i].1)
            },
            None => None,
        }
    }

    /// Stores `value` for bundle size `key`: an existing entry is overwritten
    /// in place, a new one appended.
    pub fn insert(&mut self, key: u8, value: u128)
        requires
            cost_wf(old(self)@),
            key > 0,
            value > 0,
            cost_contains(old(self)@, key) || old(self)@.len() < MAX_COST_ENTRIES,
        ensures
            cost_wf(final(self)@),
            cost_contains(old(self)@, key) ==> final(self)@ == old(self)@.update(
                cost_index(old(self)@, key),
                (key, value),
            ),
            !cost_contains(old(self)@, key) ==> final(self)@ == old(self)@.push((key, value)),
    {
        let ghost s0 = self@;
        match self.index_of(key) {
            Some(i) => {
                self.entries[i] = (key, value);
                proof {
                    lemma_cost_index_at(s0, i as int);
                    assert(self@ =~= s0.update(cost_index(s0, key), (key, value)));
                    assert forall|i2: int, j2: int|
                        0 <= i2 < j2 < self@.len() implies self@[i2].0 != self@[j2].0 by {
                        assert(self@[i2].0 == s0[i2].0 && self@[j2].0 == s0[j2].0);
                    }
                    assert forall|i2: int| 0 <= i2 < self@.len() implies #[trigger] cost_entry_ok(
                        self@[i2],
                    ) by {
                        if i2 != i {
                            assert(self@[i2] == s0[i2]);
                            assert(cost_entry_ok(s0[i2]));
                        }
                    }
                    assert(cost_wf(self@));
                }
            },
            None => {
                self.entries.push((key, value));
                proof {
                    assert(self@ =~= s0.push((key, value)));
                    assert forall|i2: int, j2: int|
                        0 <= i2 < j2 < self@.len() implies self@[i2].0 != self@[j2].0 by {
                        if j2 < s0.len() {
                            assert(self@[i2] == s0[i2] && self@[j2] == s0[j2]);
                        } else {
                            assert(self@[i2] == s0[i2]);
                            assert(s0[i2].0 != key);
                        }
                    }
                    assert forall|i2: int| 0 <= i2 < self@.len() implies #[trigger] cost_entry_ok(
                        self@[i2],
                    ) by {
                        if i2 < s0.len() {
                            assert(self@[i2] == s0[i2]);
                            assert(cost_entry_ok(s0[i2]));
                        }
                    }
                    assert(cost_wf(self@));
                }
            },
        }
    }

    /// Rebuilds a table from listed entries, as when state read back from
    /// storage is turned into values again. A list that is already well
    /// formed comes back exactly; one that breaks the table's rules is
    /// refused.
    #[verifier::loop_isolation(false)]
    pub fn from_entries(list: Vec<(u8, u128)>) -> (r: Option<Self>)
        ensures
            match r {
                Some(t) => cost_wf(t@),
                None => !cost_wf(list@),
            },
            cost_wf(list@) ==> (r matches Some(t) && t@ == list@),
    {
        let ghost all = list@;
        if list.len() > MAX_COST_ENTRIES {
            return None;
        }
        let mut r = CostTable::new();
        let mut list = list;
        let n = list.len();
        let mut i: usize = 0;
        proof {
            assert(r@ =~= all.subrange(0, 0));
            assert(list@ =~= all.subrange(0, n as int));
        }
        while i < n
            invariant
                i <= n,
                n == all.len(),
                n <= MAX_COST_ENTRIES,
                list@ == all.subrange(i as int, n as int),
                cost_wf(r@),
                r@ == all.subrange(0, i as int),
            decreases n - i,
        {
            let (key, value) = list.remove(0);
            proof {
                assert(list@ =~= all.subrange(i as int + 1, n as int));
            }
            if key == 0 || value == 0 {
                proof {
                    assert(all[i as int] == (key, value));
                    assert(!cost_entry_ok(all[i as int]));
                }
                return None;
            }
            if r.contains(key) {
                proof {
                    let j = cost_index(r@, key);
                    assert(all[j] == r@[j]);
                    assert(all[i as int] == (key, value));
                    assert(all[j].0 == all[i as int].0);
                }
                return None;
            }
            r.insert(key, value);
            proof {
                assert(r@ =~= all.subrange(0, i as int + 1));
            }
            i += 1;
        }
        proof {
            assert(all.subrange(0, n as int) =~= all);
        }
        Some(r)
    }

    /// The backing entries in iteration order, for handing the table to
    /// storage.
    pub fn entries(&self) -> (r: &Vec<(u8, u128)>)
        ensures
            r@ == self@,
    {
        &self.entries
    }

    /// Drops the entry for bundle size `key`, keeping the order of the rest.
    pub fn remove(&mut self, key: u8)
        requires
            cost_wf(old(self)@),
            cost_contains(old(self)@, key),
        ensures
            cost_wf(final(self)@),
            final(self)@ == old(self)@.remove(cost_index(old(self)@, key)),
    {
        let ghost s0 = self@;
        if let Some(i) = self.index_of(key) {
            proof {
                lemma_cost_index_at(s0, i as int);
            }
            self.entries.remove(i);
            proof {
                assert(self@ =~= s0.remove(i as int));
                assert forall|i2: int, j2: int|
                    0 <= i2 < j2 < self@.len() implies self@[i2].0 != self@[j2].0 by {
                    let oi = if i2 < i { i2 } else { i2 + 1 };
                    let oj = if j2 < i { j2 } else { j2 + 1 };
                    assert(self@[i2] == s0[oi] && self@[j2] == s0[oj]);
                }
                assert forall|i2: int| 0 <= i2 < self@.len() implies #[trigger] cost_entry_ok(
                    self@[i2],
                ) by {
                    let oi = if i2 < i { i2 } else { i2 + 1 };
                    assert(self@[i2] == s0[oi]);
                    assert(cost_entry_ok(s0[oi]));
                }
                assert(cost_wf(self@));
            }
        }
    }
}

} // verus!
