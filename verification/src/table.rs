//! A small verified association table, the storage primitive under the
//! job store and the custodian's ledgers.

use vstd::prelude::*;

verus! {

/// The finite map described by a sequence of key-value pairs; a later entry
/// for a key shadows an earlier one (with pairwise-distinct keys nothing is
/// ever shadowed).
pub open spec fn seq_as_map<V>(s: Seq<(u64, V)>) -> Map<u64, V>
    decreases s.len(),
{
    if s.len() == 0 {
        Map::empty()
    } else {
        seq_as_map(s.drop_last()).insert(s.last().0, s.last().1)
    }
}

/// All keys of the sequence are pairwise distinct.
pub open spec fn keys_distinct<V>(s: Seq<(u64, V)>) -> bool {
    forall|i: int, j: int|
        0 <= i < j < s.len() ==> (#[trigger] s[i]).0 != (#[trigger] s[j]).0
}

/// An association table from `u64` keys to copyable values, backed by a
/// vector whose keys are pairwise distinct. Its view is the finite map the
/// entries describe.
pub struct Table<V> {
    entries: Vec<(u64, V)>,
}

impl<V> Table<V> {
    /// The keys held by the backing vector are pairwise distinct.
    pub closed spec fn wf(&self) -> bool {
        keys_distinct(self.entries@)
    }
}

impl<V> View for Table<V> {
    type V = Map<u64, V>;

    closed spec fn view(&self) -> Map<u64, V> {
        seq_as_map(self.entries@)
    }
}

proof fn lemma_keys_distinct_drop_last<V>(s: Seq<(u64, V)>)
    requires
        keys_distinct(s),
        s.len() > 0,
    ensures
        keys_distinct(s.drop_last()),
{
    assert forall|i: int, j: int|
        0 <= i < j < s.drop_last().len() implies (#[trigger] s.drop_last()[i]).0
        != (#[trigger] s.drop_last()[j]).0 by {
        assert(s.drop_last()[i] == s[i]);
        assert(s.drop_last()[j] == s[j]);
    }
}

/// A key is in the map of a sequence exactly when some entry holds it.
proof fn lemma_seq_as_map_domain<V>(s: Seq<(u64, V)>, k: u64)
    ensures
        seq_as_map(s).contains_key(k) <==> exists|i: int|
            0 <= i < s.len() && (#[trigger] s[i]).0 == k,
    decreases s.len(),
{
    if s.len() > 0 {
        lemma_seq_as_map_domain(s.drop_last(), k);
        if s.last().0 == k {
            assert(s[s.len() - 1].0 == k);
        } else if seq_as_map(s).contains_key(k) {
            let i = choose|i: int| 0 <= i < s.drop_last().len() && (#[trigger] s.drop_last()[i]).0 == k;
            assert(s[i].0 == k);
        } else {
            assert forall|i: int| 0 <= i < s.len() implies (#[trigger] s[i]).0 != k by {
                if i < s.len() - 1 {
                    assert(s.drop_last()[i] == s[i]);
                }
            }
        }
    }
}

/// With distinct keys, the map of a sequence sends each entry's key to that
/// entry's value.
proof fn lemma_seq_as_map_at<V>(s: Seq<(u64, V)>, i: int)
    requires
        keys_distinct(s),
        0 <= i < s.len(),
    ensures
        seq_as_map(s).contains_key(s[i].0),
        seq_as_map(s)[s[i].0] == s[i].1,
    decreases s.len(),
{
    if i < s.len() - 1 {
        lemma_keys_distinct_drop_last(s);
        lemma_seq_as_map_at(s.drop_last(), i);
        assert(s.drop_last()[i] == s[i]);
        assert(s[i].0 != s.last().0);
    }
}

/// Replacing the value of the entry that holds key `k` turns the map of the
/// sequence into the map with `k` re-bound.
proof fn lemma_seq_as_map_update<V>(s: Seq<(u64, V)>, i: int, v: V)
    requires
        keys_distinct(s),
        0 <= i < s.len(),
    ensures
        keys_distinct(s.update(i, (s[i].0, v))),
        seq_as_map(s.update(i, (s[i].0, v))) == seq_as_map(s).insert(s[i].0, v),
    decreases s.len(),
{
    let k = s[i].0;
    let t = s.update(i, (k, v));
    assert forall|p: int, q: int|
        0 <= p < q < t.len() implies (#[trigger] t[p]).0 != (#[trigger] t[q]).0 by {
        assert(t[p].0 == s[p].0);
        assert(t[q].0 == s[q].0);
    }
    if i == s.len() - 1 {
        assert(t.drop_last() =~= s.drop_last());
        assert(t.last() == (k, v));
        assert(seq_as_map(t) == seq_as_map(s.drop_last()).insert(k, v));
        assert(seq_as_map(s.drop_last()).insert(k, s.last().1).insert(k, v) =~= seq_as_map(
            s.drop_last(),
        ).insert(k, v));
    } else {
        lemma_keys_distinct_drop_last(s);
        assert(s.drop_last()[i] == s[i]);
        lemma_seq_as_map_update(s.drop_last(), i, v);
        assert(t.drop_last() =~= s.drop_last().update(i, (k, v)));
        assert(t.last() == s.last());
        // the two inserts commute because the keys differ
        assert(s.last().0 != k);
        assert(seq_as_map(s.drop_last()).insert(k, v).insert(s.last().0, s.last().1) =~= seq_as_map(
            s.drop_last(),
        ).insert(s.last().0, s.last().1).insert(k, v));
    }
}

impl<V: Copy> Table<V> {
    /// An empty table.
    pub fn new() -> (t: Self)
        ensures
            t.wf(),
            t@ == Map::<u64, V>::empty(),
    {
        Table { entries: Vec::new() }
    }

    /// Look a key up; `None` exactly when the key is absent.
    pub fn get(&self, key: u64) -> (r: Option<V>)
        requires
            self.wf(),
        ensures
            match r {
                Some(v) => self@.contains_key(key) && self@[key] == v,
                None => !self@.contains_key(key),
            },
    {
        let n = self.entries.len();
        let mut i: usize = 0;
        while i < n
            invariant
                self.wf(),
                n == self.entries.len(),
                i <= n,
                forall|j: int| 0 <= j < i ==> (#[trigger] self.entries@[j]).0 != key,
            decreases n - i,
        {
            let (k, v) = self.entries[i];
            if k == key {
                proof {
                    lemma_seq_as_map_at(self.entries@, i as int);
                }
                return Some(v);
            }
            i += 1;
        }
        proof {
            lemma_seq_as_map_domain(self.entries@, key);
        }
        None
    }

    /// Bind `key` to `value`, replacing any earlier binding.
    pub fn set(&mut self, key: u64, value: V)
        requires
            old(self).wf(),
        ensures
            final(self).wf(),
            final(self)@ == old(self)@.insert(key, value),
    {
        let ghost s0 = self.entries@;
        let n = self.entries.len();
        let mut i: usize = 0;
        while i < n
            invariant
                self.entries@ == s0,
                old(self).entries@ == s0,
                keys_distinct(s0),
                n == s0.len(),
                i <= n,
                forall|j: int| 0 <= j < i ==> (#[trigger] s0[j]).0 != key,
            decreases n - i,
        {
            let (k, _) = self.entries[i];
            if k == key {
                self.entries.remove(i);
                self.entries.insert(i, (key, value));
                proof {
                    assert(s0[i as int].0 == key);
                    assert(self.entries@ =~= s0.update(i as int, (key, value)));
                    lemma_seq_as_map_update(s0, i as int, value);
                    assert(seq_as_map(self.entries@) == seq_as_map(s0).insert(key, value));
                }
                return ;
            }
            i += 1;
        }
        self.entries.push((key, value));
        proof {
            assert(self.entries@.drop_last() =~= s0);
            assert(self.entries@.last() == (key, value));
            assert forall|p: int, q: int|
                0 <= p < q < self.entries@.len() implies (#[trigger] self.entries@[p]).0
                != (#[trigger] self.entries@[q]).0 by {
                if q < s0.len() {
                    assert(self.entries@[p] == s0[p]);
                    assert(self.entries@[q] == s0[q]);
                } else {
                    assert(self.entries@[p] == s0[p]);
                    assert(self.entries@[q] == (key, value));
                }
            }
        }
    }
}

} // verus!
