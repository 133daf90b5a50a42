//! Per-address records kept by the escrow: a small association list keyed by an
//! address in its textual (strkey) form, seen from outside as a finite map; and the sum
//! of a finite map's values.

use vstd::prelude::*;

verus! {

/// The map that a list of entries denotes; a later entry for a key overrides an earlier one.
pub open spec fn entries_map<V>(s: Seq<(String, V)>) -> Map<Seq<char>, V>
    decreases s.len(),
{
    if s.len() == 0 {
        Map::empty()
    } else {
        entries_map(s.drop_last()).insert(s.last().0@, s.last().1)
    }
}

/// The sum of the values of a finite map.
pub open spec fn map_total(m: Map<Seq<char>, i128>) -> int
    decreases m.dom().len(),
    when m.dom().finite()
{
    if m.dom().len() == 0 {
        0
    } else {
        let k = m.dom().choose();
        m[k] + map_total(m.remove(k))
    }
}

/// Any key can be taken out first: the sum is its value plus the sum of the rest.
pub proof fn lemma_map_total_remove(m: Map<Seq<char>, i128>, k: Seq<char>)
    requires
        m.dom().finite(),
        m.contains_key(k),
    ensures
        map_total(m) == m[k] + map_total(m.remove(k)),
    decreases m.dom().len(),
{
    let c = m.dom().choose();
    if c != k {
        lemma_map_total_remove(m.remove(c), k);
        lemma_map_total_remove(m.remove(k), c);
        assert(m.remove(c).remove(k) =~= m.remove(k).remove(c));
    }
}

/// Setting one key moves the sum by the difference between the new and the old value.
pub proof fn lemma_map_total_insert(m: Map<Seq<char>, i128>, k: Seq<char>, v: i128)
    requires
        m.dom().finite(),
    ensures
        map_total(m.insert(k, v)) == map_total(m) - (if m.contains_key(k) {
            m[k] as int
        } else {
            0
        }) + v,
{
    let n = m.insert(k, v);
    lemma_map_total_remove(n, k);
    if m.contains_key(k) {
        assert(n.remove(k) =~= m.remove(k));
        lemma_map_total_remove(m, k);
    } else {
        assert(n.remove(k) =~= m);
    }
}

/// A finite map of non-negative values has a non-negative sum.
pub proof fn lemma_map_total_nonneg(m: Map<Seq<char>, i128>)
    requires
        m.dom().finite(),
        forall|k: Seq<char>| m.contains_key(k) ==> m[k] >= 0,
    ensures
        map_total(m) >= 0,
    decreases m.dom().len(),
{
    if m.dom().len() > 0 {
        let c = m.dom().choose();
        lemma_map_total_nonneg(m.remove(c));
    }
}

/// In a finite map of non-negative values, no value exceeds the sum.
pub proof fn lemma_map_value_le_total(m: Map<Seq<char>, i128>, k: Seq<char>)
    requires
        m.dom().finite(),
        forall|j: Seq<char>| m.contains_key(j) ==> m[j] >= 0,
        m.contains_key(k),
    ensures
        m[k] <= map_total(m),
{
    lemma_map_total_remove(m, k);
    lemma_map_total_nonneg(m.remove(k));
}

/// Looking a key up in the map of a prefix: the entry at `n - 1` decides when it holds the key.
proof fn lemma_map_prefix_step<V>(s: Seq<(String, V)>, n: int, k: Seq<char>)
    requires
        0 < n <= s.len(),
    ensures
        s.take(n).drop_last() == s.take(n - 1),
        s[n - 1].0@ == k ==> entries_map(s.take(n)).contains_key(k) && entries_map(s.take(n))[k]
            == s[n - 1].1,
        s[n - 1].0@ != k ==> (entries_map(s.take(n)).contains_key(k) == entries_map(
            s.take(n - 1),
        ).contains_key(k) && entries_map(s.take(n))[k] == entries_map(s.take(n - 1))[k]),
{
    assert(s.take(n).drop_last() =~= s.take(n - 1));
    assert(s.take(n).last() == s[n - 1]);
}

/// Overwriting the last entry that holds a key overwrites that key in the map.
proof fn lemma_update_last_occurrence<V>(s: Seq<(String, V)>, i: int, e: (String, V))
    requires
        0 <= i < s.len(),
        e.0@ == s[i].0@,
        forall|j: int| i < j < s.len() ==> s[j].0@ != s[i].0@,
    ensures
        entries_map(s.update(i, e)) == entries_map(s).insert(e.0@, e.1),
    decreases s.len(),
{
    let t = s.update(i, e);
    if i == s.len() - 1 {
        assert(t.drop_last() =~= s.drop_last());
        assert(entries_map(t) =~= entries_map(s).insert(e.0@, e.1));
    } else {
        assert(t.drop_last() =~= s.drop_last().update(i, e));
        lemma_update_last_occurrence(s.drop_last(), i, e);
        assert(t.last() == s.last());
        assert(entries_map(t) =~= entries_map(s).insert(e.0@, e.1));
    }
}

/// A finite record from addresses (by their strkey text) to values.
pub struct Ledger<V> {
    entries: Vec<(String, V)>,
}

impl<V: Copy> Ledger<V> {
    /// The record's content.
    pub closed spec fn view(&self) -> Map<Seq<char>, V> {
        entries_map(self.entries@)
    }

    /// The empty record.
    pub fn new() -> (r: Self)
        ensures
            r@ == Map::<Seq<char>, V>::empty(),
    {
        Ledger { entries: Vec::new() }
    }

    /// The value recorded for `key`, if any.
    pub fn get(&self, key: &String) -> (r: Option<V>)
        ensures
            r == (if self@.contains_key(key@) {
                Some(self@[key@])
            } else {
                None
            }),
    {
        let mut n = self.entries.len();
        proof {
            assert(self.entries@.take(n as int) =~= self.entries@);
        }
        while n > 0
            invariant
                n <= self.entries@.len(),
                entries_map(self.entries@).contains_key(key@) == entries_map(
                    self.entries@.take(n as int),
                ).contains_key(key@),
                entries_map(self.entries@)[key@] == entries_map(self.entries@.take(n as int))[key@],
            decreases n,
        {
            proof {
                lemma_map_prefix_step(self.entries@, n as int, key@);
            }
            if self.entries[n - 1].0 == *key {
                return Some(self.entries[n - 1].1);
            }
            n = n - 1;
        }
        None
    }

    /// Index of the entry that holds `key`, scanning from the back.
    fn position(&self, key: &String) -> (r: Option<usize>)
        ensures
            match r {
                Some(i) => i < self.entries@.len() && self.entries@[i as int].0@ == key@
                    && forall|j: int| i < j < self.entries@.len() ==> self.entries@[j].0@ != key@,
                None => forall|j: int| 0 <= j < self.entries@.len() ==> self.entries@[j].0@ != key@,
            },
    {
        let mut n = self.entries.len();
        while n > 0
            invariant
                n <= self.entries@.len(),
                forall|j: int| n <= j < self.entries@.len() ==> self.entries@[j].0@ != key@,
            decreases n,
        {
            if self.entries[n - 1].0 == *key {
                return Some(n - 1);
            }
            n = n - 1;
        }
        None
    }

    /// Record `value` for `key`, replacing what was there.
    pub fn set(&mut self, key: String, value: V)
        ensures
            final(self)@ == old(self)@.insert(key@, value),
    {
        match self.position(&key) {
            Some(i) => {
                proof {
                    lemma_update_last_occurrence(self.entries@, i as int, (key, value));
                }
                self.entries.set(i, (key, value));
            },
            None => {
                self.entries.push((key, value));
                proof {
                    let s = self.entries@;
                    assert(s.drop_last() =~= old(self).entries@);
                }
            },
        }
    }
}

} // verus!
