use vstd::prelude::*;

use crate::types::ActorId;

verus! {

/// Whether some entry of `s` has the key `k`.
pub open spec fn has_key<V>(s: Seq<(ActorId, V)>, k: ActorId) -> bool {
    exists|i: int| 0 <= i < s.len() && (#[trigger] s[i]).0 == k
}

/// Whether no two entries of `s` have the same key.
pub open spec fn keys_distinct<V>(s: Seq<(ActorId, V)>) -> bool {
    forall|i: int, j: int|
        0 <= i < s.len() && 0 <= j < s.len() && i != j ==> (#[trigger] s[i]).0 != (#[trigger] s[j]).0
}

/// The map that pairs each key of `s` with the value of its entry.
pub open spec fn entries_map<V>(s: Seq<(ActorId, V)>) -> Map<ActorId, V> {
    Map::new(
        |k: ActorId| has_key(s, k),
        |k: ActorId| s[choose|i: int| 0 <= i < s.len() && (#[trigger] s[i]).0 == k].1,
    )
}

/// The entry of a key gives its value in the map.
proof fn lemma_entry_value<V>(s: Seq<(ActorId, V)>, i: int)
    requires
        keys_distinct(s),
        0 <= i < s.len(),
    ensures
        entries_map(s).contains_key(s[i].0),
        entries_map(s)[s[i].0] == s[i].1,
{
    let k = s[i].0;
    assert(has_key(s, k));
    let j = choose|j: int| 0 <= j < s.len() && (#[trigger] s[j]).0 == k;
    assert(j == i);
}

/// The map of a sequence with distinct keys, one key at a time.
proof fn lemma_lookup<V>(s: Seq<(ActorId, V)>, k: ActorId)
    requires
        keys_distinct(s),
    ensures
        entries_map(s).contains_key(k) <==> has_key(s, k),
        forall|i: int| 0 <= i < s.len() && (#[trigger] s[i]).0 == k ==> entries_map(s)[k] == s[i].1,
{
    assert forall|i: int| 0 <= i < s.len() && (#[trigger] s[i]).0 == k implies entries_map(s)[k] == s[i].1 by {
        lemma_entry_value(s, i);
    }
}

/// Whether `k` holds the highest value of `m`, and among the keys that hold it
/// comes last in the order of identifiers.
pub open spec fn is_top_entry(m: Map<ActorId, u128>, k: ActorId) -> bool {
    &&& m.contains_key(k)
    &&& forall|j: ActorId| #[trigger] m.contains_key(j) ==> m[j] < m[k] || (m[j] == m[k] && (j == k || j.precedes(k)))
}

/// The key that holds the highest value of `m`, ties going to the key that comes
/// last, with its value; `None` for the empty map.
pub open spec fn top_entry(m: Map<ActorId, u128>) -> Option<(ActorId, u128)> {
    if exists|k: ActorId| is_top_entry(m, k) {
        let k = choose|k: ActorId| is_top_entry(m, k);
        Some((k, m[k]))
    } else {
        None
    }
}

/// A map has at most one top entry.
pub proof fn lemma_top_entry_unique(m: Map<ActorId, u128>, a: ActorId, b: ActorId)
    requires
        is_top_entry(m, a),
        is_top_entry(m, b),
    ensures
        a == b,
{
    assert(m.contains_key(a) && m.contains_key(b));
}

/// The keys of a sequence of entries are finitely many.
proof fn lemma_entries_finite<V>(s: Seq<(ActorId, V)>)
    ensures
        entries_map(s).dom().finite(),
    decreases s.len(),
{
    if s.len() == 0 {
        assert(entries_map(s).dom() =~= Set::<ActorId>::empty());
    } else {
        let rest = s.drop_last();
        lemma_entries_finite(rest);
        assert forall|k: ActorId| #[trigger] entries_map(s).dom().contains(k) == entries_map(rest).dom().insert(
            s.last().0,
        ).contains(k) by {
            if has_key(s, k) && k != s.last().0 {
                let i = choose|i: int| 0 <= i < s.len() && (#[trigger] s[i]).0 == k;
                assert(rest[i] == s[i]);
            }
            if has_key(rest, k) {
                let i = choose|i: int| 0 <= i < rest.len() && (#[trigger] rest[i]).0 == k;
                assert(rest[i] == s[i]);
            }
            if k == s.last().0 {
                assert(s[s.len() - 1].0 == k);
            }
        }
        assert(entries_map(s).dom() =~= entries_map(rest).dom().insert(s.last().0));
    }
}

/// Every finite map with a key has a top entry.
pub proof fn lemma_top_entry_exists(m: Map<ActorId, u128>)
    requires
        m.dom().finite(),
        m.dom().len() > 0,
    ensures
        exists|k: ActorId| is_top_entry(m, k),
    decreases m.dom().len(),
{
    let k = m.dom().choose();
    let rest = m.remove(k);
    assert(rest.dom() =~= m.dom().remove(k));
    if rest.dom().len() == 0 {
        assert forall|j: ActorId| #[trigger] m.contains_key(j) implies m[j] < m[k] || (m[j] == m[k] && (j == k
            || j.precedes(k))) by {
            if j != k {
                assert(rest.dom().contains(j));
            }
        }
        assert(is_top_entry(m, k));
    } else {
        lemma_top_entry_exists(rest);
        let t = choose|t: ActorId| is_top_entry(rest, t);
        if m[k] > m[t] || (m[k] == m[t] && t.precedes(k)) {
            assert forall|j: ActorId| #[trigger] m.contains_key(j) implies m[j] < m[k] || (m[j] == m[k] && (j
                == k || j.precedes(k))) by {
                if j != k {
                    assert(rest.contains_key(j));
                }
            }
            assert(is_top_entry(m, k));
        } else {
            assert forall|j: ActorId| #[trigger] m.contains_key(j) implies m[j] < m[t] || (m[j] == m[t] && (j
                == t || j.precedes(t))) by {
                if j != k {
                    assert(rest.contains_key(j));
                }
            }
            assert(is_top_entry(m, t));
        }
    }
}

/// A finite map keyed by actor identifiers: one value for each key.
pub struct ActorMap<V> {
    entries: Vec<(ActorId, V)>,
}

impl<V> View for ActorMap<V> {
    type V = Map<ActorId, V>;

    closed spec fn view(&self) -> Map<ActorId, V> {
        entries_map(self.entries@)
    }
}

impl<V> ActorMap<V> {
    #[verifier::type_invariant]
    spec fn distinct_keys(self) -> bool {
        keys_distinct(self.entries@)
    }

    /// The map holds finitely many keys.
    pub proof fn lemma_finite(&self)
        ensures
            self@.dom().finite(),
    {
        lemma_entries_finite(self.entries@);
    }

    /// The empty map.
    pub fn new() -> (r: Self)
        ensures
            r@ == Map::<ActorId, V>::empty(),
    {
        let r = ActorMap { entries: Vec::new() };
        assert(r@ =~= Map::<ActorId, V>::empty());
        r
    }

    /// The index of the entry with the key `key`, if there is one.
    fn position(&self, key: &ActorId) -> (r: Option<usize>)
        ensures
            match r {
                Some(i) => i < self.entries@.len() && self.entries@[i as int].0 == *key,
                None => !has_key(self.entries@, *key),
            },
    {
        let n = self.entries.len();
        let mut i: usize = 0;
        while i < n
            invariant
                n == self.entries@.len(),
                i <= n,
                forall|j: int| 0 <= j < i ==> (#[trigger] self.entries@[j]).0 != *key,
            decreases n - i,
        {
            if self.entries[i].0 == *key {
                return Some(i);
            }
            i = i + 1;
        }
        None
    }

    /// Whether the map holds a value for `key`.
    pub fn contains_key(&self, key: &ActorId) -> (r: bool)
        ensures
            r == self@.contains_key(*key),
    {
        proof {
            use_type_invariant(self);
            lemma_lookup(self.entries@, *key);
        }
        self.position(key).is_some()
    }

    /// Sets the value of `key` to `value`.
    pub fn insert(&mut self, key: ActorId, value: V)
        ensures
            final(self)@ == old(self)@.insert(key, value),
    {
        proof {
            use_type_invariant(&*self);
        }
        let ghost before = self.entries@;
        let pos = self.position(&key);
        let mut entries: Vec<(ActorId, V)> = Vec::new();
        std::mem::swap(&mut entries, &mut self.entries);
        match pos {
            Some(i) => {
                entries[i] = (key, value);
                assert(has_key(entries@, key));
            },
            None => {
                entries.push((key, value));
                assert(entries@[entries@.len() - 1].0 == key);
                assert(has_key(entries@, key));
            },
        }
        let ghost after = entries@;
        assert(keys_distinct(after));
        self.entries = entries;
        proof {
            assert forall|k: ActorId| #[trigger] entries_map(after).contains_key(k) == entries_map(before).insert(key, value).contains_key(k) by {
                lemma_lookup(before, k);
                lemma_lookup(after, k);
                if has_key(after, k) && k != key {
                    let j = choose|j: int| 0 <= j < after.len() && (#[trigger] after[j]).0 == k;
                    assert(before[j].0 == k);
                }
                if has_key(before, k) {
                    let j = choose|j: int| 0 <= j < before.len() && (#[trigger] before[j]).0 == k;
                    assert(after[j].0 == k || k == key);
                }
            }
            assert forall|k: ActorId| #[trigger] entries_map(after).contains_key(k) implies entries_map(after)[k] == entries_map(before).insert(key, value)[k] by {
                lemma_lookup(before, k);
                lemma_lookup(after, k);
                let j = choose|j: int| 0 <= j < after.len() && (#[trigger] after[j]).0 == k;
                if k != key {
                    assert(before[j] == after[j]);
                }
            }
            assert(entries_map(after) =~= entries_map(before).insert(key, value));
        }
    }

    /// Removes the value of `key`, if there is one.
    pub fn remove(&mut self, key: &ActorId)
        ensures
            final(self)@ == old(self)@.remove(*key),
    {
        proof {
            use_type_invariant(&*self);
            lemma_lookup(self.entries@, *key);
        }
        let ghost before = self.entries@;
        match self.position(key) {
            Some(i) => {
                let mut entries: Vec<(ActorId, V)> = Vec::new();
                std::mem::swap(&mut entries, &mut self.entries);
                entries.remove(i);
                let ghost after = entries@;
                assert(keys_distinct(after)) by {
                    assert forall|a: int, b: int|
                        0 <= a < after.len() && 0 <= b < after.len() && a != b implies (#[trigger] after[a]).0
                        != (#[trigger] after[b]).0 by {
                        let a2 = if a < i { a } else { a + 1 };
                        let b2 = if b < i { b } else { b + 1 };
                        assert(after[a] == before[a2]);
                        assert(after[b] == before[b2]);
                    }
                }
                self.entries = entries;
                proof {
                    assert forall|k: ActorId| #[trigger] entries_map(after).contains_key(k) == entries_map(before).remove(*key).contains_key(k) by {
                        lemma_lookup(before, k);
                        lemma_lookup(after, k);
                        if has_key(after, k) {
                            let j = choose|j: int| 0 <= j < after.len() && (#[trigger] after[j]).0 == k;
                            let j2 = if j < i { j } else { j + 1 };
                            assert(before[j2] == after[j]);
                            assert(j2 != i);
                        }
                        if has_key(before, k) && k != *key {
                            let j = choose|j: int| 0 <= j < before.len() && (#[trigger] before[j]).0 == k;
                            let j2 = if j < i { j } else { j - 1 };
                            assert(before[j] == after[j2]);
                        }
                    }
                    assert forall|k: ActorId| #[trigger] entries_map(after).contains_key(k) implies entries_map(after)[k] == entries_map(before).remove(*key)[k] by {
                        lemma_lookup(before, k);
                        lemma_lookup(after, k);
                        let j = choose|j: int| 0 <= j < after.len() && (#[trigger] after[j]).0 == k;
                        let j2 = if j < i { j } else { j + 1 };
                        assert(before[j2] == after[j]);
                    }
                    assert(entries_map(after) =~= entries_map(before).remove(*key));
                }
            },
            None => {
                assert(entries_map(before).remove(*key) =~= entries_map(before));
            },
        }
    }

    /// The entries of the map, in the order in which they are held.
    fn copy_entries(&self) -> (r: Vec<(ActorId, V)>)
        where V: Copy
        ensures
            r@ == self.entries@,
    {
        let n = self.entries.len();
        let mut r: Vec<(ActorId, V)> = Vec::new();
        let mut i: usize = 0;
        while i < n
            invariant
                n == self.entries@.len(),
                i <= n,
                r@ == self.entries@.take(i as int),
            decreases n - i,
        {
            r.push(self.entries[i]);
            assert(self.entries@.take(i + 1) =~= self.entries@.take(i as int).push(self.entries@[i as int]));
            i = i + 1;
        }
        assert(self.entries@.take(n as int) =~= self.entries@);
        r
    }

    /// The pairs of the map, each key once.
    pub fn entries(&self) -> (r: Vec<(ActorId, V)>)
        where V: Copy
        ensures
            keys_distinct(r@),
            entries_map(r@) == self@,
    {
        proof {
            use_type_invariant(self);
        }
        self.copy_entries()
    }

    /// The value of `key`, if the map holds one.
    pub fn get(&self, key: &ActorId) -> (r: Option<V>)
        where V: Copy
        ensures
            r == (if self@.contains_key(*key) { Some(self@[*key]) } else { None::<V> }),
    {
        proof {
            use_type_invariant(self);
            lemma_lookup(self.entries@, *key);
        }
        match self.position(key) {
            Some(i) => Some(self.entries[i].1),
            None => None,
        }
    }
}

impl<V: Copy> Clone for ActorMap<V> {
    fn clone(&self) -> (r: Self)
        ensures
            r@ == self@,
    {
        proof {
            use_type_invariant(self);
        }
        ActorMap { entries: self.copy_entries() }
    }
}

impl ActorMap<u128> {
    /// The key with the highest value, and that value; among keys with the same
    /// highest value, the one that comes last in the order of identifiers.
    pub fn max_by_value(&self) -> (r: Option<(ActorId, u128)>)
        ensures
            r == top_entry(self@),
            r is None <==> self@ == Map::<ActorId, u128>::empty(),
    {
        proof {
            use_type_invariant(self);
        }
        let ghost s = self.entries@;
        let n = self.entries.len();
        let mut best: Option<(ActorId, u128)> = None;
        let mut i: usize = 0;
        while i < n
            invariant
                n == s.len(),
                s == self.entries@,
                keys_distinct(s),
                i <= n,
                best is None <==> i == 0,
                match best {
                    Some((k, v)) => {
                        &&& exists|t: int| 0 <= t < i && #[trigger] s[t] == (k, v)
                        &&& forall|t: int|
                            0 <= t < i ==> (#[trigger] s[t]).1 < v || (s[t].1 == v && (s[t].0 == k || s[t].0.precedes(k)))
                    },
                    None => true,
                },
            decreases n - i,
        {
            let (key, value) = self.entries[i];
            let replace = match best {
                None => true,
                Some((k, v)) => value > v || (value == v && k.is_before(&key)),
            };
            if replace {
                best = Some((key, value));
                assert(s[i as int] == (key, value));
            } else {
                proof {
                    let (k, v) = best.unwrap();
                    let t = choose|t: int| 0 <= t < i && #[trigger] s[t] == (k, v);
                    assert(t != i);
                    assert(s[t].0 != s[i as int].0);
                }
            }
            i = i + 1;
        }
        proof {
            lemma_lookup(s, ActorId { high: 0, low: 0 });
            match best {
                Some((k, v)) => {
                    let t = choose|t: int| 0 <= t < n && #[trigger] s[t] == (k, v);
                    lemma_entry_value(s, t);
                    assert forall|j: ActorId| #[trigger] self@.contains_key(j) implies self@[j] < self@[k] || (
                    self@[j] == self@[k] && (j == k || j.precedes(k))) by {
                        lemma_lookup(s, j);
                        let u = choose|u: int| 0 <= u < s.len() && (#[trigger] s[u]).0 == j;
                        lemma_entry_value(s, u);
                    }
                    assert(is_top_entry(self@, k));
                    let c = choose|c: ActorId| is_top_entry(self@, c);
                    lemma_top_entry_unique(self@, c, k);
                    assert(self@.contains_key(k));
                },
                None => {
                    assert(self@ =~= Map::<ActorId, u128>::empty());
                    if exists|c: ActorId| is_top_entry(self@, c) {
                        let c = choose|c: ActorId| is_top_entry(self@, c);
                        lemma_lookup(s, c);
                    }
                },
            }
        }
        best
    }
}

} // verus!
