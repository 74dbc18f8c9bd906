use vstd::prelude::*;

use crate::address::Address;

verus! {

/// A key of a [`Table`]: a plain value that can be told from another.
pub trait TableKey: Copy + Sized {
    /// Whether the two keys are the same value.
    fn same(self, other: Self) -> (same: bool)
        ensures
            same == (self == other),
    ;
}

impl TableKey for u32 {
    fn same(self, other: Self) -> (same: bool) {
        self == other
    }
}

impl TableKey for Address {
    fn same(self, other: Self) -> (same: bool) {
        self == other
    }
}

/// A value of a [`Table`]: it can be copied without a change to its view.
pub trait TableValue: View + Sized {
    /// A copy with the same view.
    fn duplicate(&self) -> (copy: Self)
        ensures
            copy@ == self@,
    ;
}

impl TableValue for u128 {
    fn duplicate(&self) -> (copy: Self) {
        *self
    }
}

/// A finite map from keys to values, kept as a list of pairs in which no key
/// occurs twice.
#[derive(Debug)]
pub struct Table<K, V> {
    rows: Vec<(K, V)>,
}

impl<K: TableKey, V: TableValue> View for Table<K, V> {
    type V = Map<K, V::V>;

    closed spec fn view(&self) -> Map<K, V::V> {
        Map::new(
            |key: K| exists|i: int| self.row_holds(i, key),
            |key: K| self.rows[choose|i: int| self.row_holds(i, key)].1@,
        )
    }
}

impl<K: TableKey, V: TableValue> Table<K, V> {
    /// Row `i` exists and holds `key`.
    spec fn row_holds(&self, i: int, key: K) -> bool {
        0 <= i < self.rows.len() && self.rows[i].0 == key
    }

    /// No key occurs in two rows.
    pub closed spec fn wf(&self) -> bool {
        forall|i: int, j: int|
            0 <= i < j < self.rows.len() ==> (#[trigger] self.rows[i]).0 != (
            #[trigger] self.rows[j]).0
    }

    /// What the map holds under a key that row `i` holds.
    proof fn lemma_row(&self, i: int, key: K)
        requires
            self.wf(),
            self.row_holds(i, key),
        ensures
            self@.contains_key(key),
            self@[key] == self.rows[i].1@,
    {
        let j = choose|j: int| self.row_holds(j, key);
        assert(self.row_holds(j, key));
        assert(i == j);
    }

    /// A table without rows.
    pub fn new() -> (table: Self)
        ensures
            table.wf(),
            table@ == Map::<K, V::V>::empty(),
    {
        let table = Table { rows: Vec::new() };
        assert(table@ =~= Map::<K, V::V>::empty());
        table
    }

    /// The row that holds `key`, if there is one.
    fn find(&self, key: K) -> (row: Option<usize>)
        requires
            self.wf(),
        ensures
            match row {
                Some(i) => self.row_holds(i as int, key),
                None => !self@.contains_key(key),
            },
    {
        let mut i: usize = 0;
        while i < self.rows.len()
            invariant
                i <= self.rows.len(),
                forall|j: int| 0 <= j < i ==> (#[trigger] self.rows[j]).0 != key,
            decreases self.rows.len() - i,
        {
            if self.rows[i].0.same(key) {
                return Some(i);
            }
            i += 1;
        }
        None
    }

    /// The value under `key`, if there is one.
    pub fn get(&self, key: K) -> (value: Option<&V>)
        requires
            self.wf(),
        ensures
            match value {
                Some(v) => self@.contains_key(key) && v@ == self@[key],
                None => !self@.contains_key(key),
            },
    {
        match self.find(key) {
            Some(i) => {
                proof {
                    self.lemma_row(i as int, key);
                }
                Some(&self.rows[i].1)
            },
            None => None,
        }
    }

    /// Puts `value` under `key`, in place of the value that was there.
    pub fn set(&mut self, key: K, value: V)
        requires
            old(self).wf(),
        ensures
            final(self).wf(),
            final(self)@ == old(self)@.insert(key, value@),
    {
        let ghost before = *self;
        let ghost after = old(self)@.insert(key, value@);
        let row = self.find(key);
        let ghost at = match row {
            Some(i) => i as int,
            None => self.rows.len() as int,
        };
        match row {
            Some(i) => {
                self.rows.set(i, (key, value));
            },
            None => {
                self.rows.push((key, value));
                assert forall|j: int| 0 <= j < at implies (#[trigger] self.rows[j]).0 != key by {
                    if before.rows[j].0 == key {
                        assert(before.row_holds(j, key));
                    }
                }
            },
        }
        proof {
            self.lemma_row(at, key);
        }
        assert forall|k: K| #[trigger] self@.contains_key(k) <==> after.contains_key(k) by {
            if k != key && before@.contains_key(k) {
                let j = choose|j: int| before.row_holds(j, k);
                assert(self.row_holds(j, k));
            } else if k != key && self@.contains_key(k) {
                let j = choose|j: int| self.row_holds(j, k);
                assert(before.row_holds(j, k));
            }
        }
        assert forall|k: K| #[trigger] self@.contains_key(k) implies self@[k] == after[k] by {
            if k != key {
                let j = choose|j: int| self.row_holds(j, k);
                self.lemma_row(j, k);
                before.lemma_row(j, k);
            }
        }
        assert(self@ =~= after);
    }

    /// A copy that holds the same map.
    pub fn duplicate(&self) -> (copy: Self)
        requires
            self.wf(),
        ensures
            copy.wf(),
            copy@ == self@,
    {
        let mut rows: Vec<(K, V)> = Vec::new();
        let mut i: usize = 0;
        while i < self.rows.len()
            invariant
                i <= self.rows.len(),
                rows.len() == i,
                forall|j: int|
                    0 <= j < i ==> (#[trigger] rows[j]).0 == self.rows[j].0 && rows[j].1@
                        == self.rows[j].1@,
            decreases self.rows.len() - i,
        {
            let row = &self.rows[i];
            rows.push((row.0, row.1.duplicate()));
            i += 1;
        }
        let copy = Table { rows };
        assert forall|k: K| #[trigger] copy@.contains_key(k) <==> self@.contains_key(k) by {
            if copy@.contains_key(k) {
                let j = choose|j: int| copy.row_holds(j, k);
                assert(self.row_holds(j, k));
            }
            if self@.contains_key(k) {
                let j = choose|j: int| self.row_holds(j, k);
                assert(copy.row_holds(j, k));
            }
        }
        assert forall|k: K| #[trigger] copy@.contains_key(k) implies copy@[k] == self@[k] by {
            let j = choose|j: int| copy.row_holds(j, k);
            copy.lemma_row(j, k);
            self.lemma_row(j, k);
        }
        assert(copy@ =~= self@);
        copy
    }
}

} // verus!
