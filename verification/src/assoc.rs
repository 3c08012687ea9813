//! An association list from byte-string keys to values, the coordinator's
//! map keyed by raw bytes. Each key is held at most once; the view of the
//! list is the `Map` its entries spell out.
use vstd::prelude::*;
use crate::bytes_equal;

verus! {

/// A map from byte-string keys to values, stored as a list of entries with
/// each key held at most once.
pub struct AssocList<V> {
    entries: Vec<(Vec<u8>, V)>,
}

/// Whether some entry of `s` holds key `k`.
pub open spec fn has_key<V>(s: Seq<(Vec<u8>, V)>, k: Seq<u8>) -> bool {
    exists|i: int| 0 <= i < s.len() && s[i].0@ == k
}

/// The index of an entry of `s` holding key `k`.
pub open spec fn key_index<V>(s: Seq<(Vec<u8>, V)>, k: Seq<u8>) -> int {
    choose|i: int| 0 <= i < s.len() && s[i].0@ == k
}

/// Each key held by at most one entry of `s`.
pub open spec fn keys_unique<V>(s: Seq<(Vec<u8>, V)>) -> bool {
    forall|i: int, j: int| 0 <= i < j < s.len() ==> s[i].0@ != s[j].0@
}

/// The entries of `s` read as a map.
pub open spec fn entries_map<V: View>(s: Seq<(Vec<u8>, V)>) -> Map<Seq<u8>, V::V> {
    Map::new(|k: Seq<u8>| has_key(s, k), |k: Seq<u8>| s[key_index(s, k)].1@)
}

/// With unique keys, the entry holding `k` is the one `key_index` picks.
proof fn lemma_key_index_agrees<V>(s: Seq<(Vec<u8>, V)>, k: Seq<u8>, i: int)
    requires
        keys_unique(s),
        0 <= i < s.len(),
        s[i].0@ == k,
    ensures
        has_key(s, k),
        key_index(s, k) == i,
{
    assert(has_key(s, k));
    let j = key_index(s, k);
    assert(0 <= j < s.len() && s[j].0@ == k);
    if i < j {
        assert(s[i].0@ != s[j].0@);
    } else if j < i {
        assert(s[j].0@ != s[i].0@);
    }
}

/// Replacing the entry that holds a key updates the map at that key.
proof fn lemma_entries_update<V: View>(s: Seq<(Vec<u8>, V)>, i: int, e: (Vec<u8>, V))
    requires
        keys_unique(s),
        0 <= i < s.len(),
        e.0@ == s[i].0@,
    ensures
        keys_unique(s.update(i, e)),
        entries_map(s.update(i, e)) == entries_map(s).insert(e.0@, e.1@),
{
    let s2 = s.update(i, e);
    let k = e.0@;
    assert forall|a: int, b: int| 0 <= a < b < s2.len() implies s2[a].0@ != s2[b].0@ by {
        assert(s[a].0@ != s[b].0@);
    }
    assert forall|q: Seq<u8>| has_key(s2, q) implies (q == k || has_key(s, q)) by {
        let j = key_index(s2, q);
        assert(0 <= j < s2.len() && s2[j].0@ == q);
        if j != i {
            assert(s[j].0@ == q);
        }
    }
    assert forall|q: Seq<u8>| (q == k || has_key(s, q)) implies has_key(s2, q) by {
        if q == k {
            assert(s2[i].0@ == q);
        } else {
            let j = key_index(s, q);
            assert(0 <= j < s.len() && s[j].0@ == q);
            if j == i {
                assert(q == k);
            } else {
                assert(s2[j].0@ == q);
            }
        }
    }
    assert forall|q: Seq<u8>| has_key(s2, q) && q != k implies entries_map(s2)[q]
        == entries_map(s)[q] by {
        let j = key_index(s2, q);
        assert(0 <= j < s2.len() && s2[j].0@ == q);
        assert(j != i);
        lemma_key_index_agrees(s, q, j);
    }
    lemma_key_index_agrees(s2, k, i);
    assert(entries_map(s2)[k] == e.1@);
    assert(entries_map(s2) =~= entries_map(s).insert(k, e.1@));
}

/// Appending an entry for an absent key inserts it into the map.
proof fn lemma_entries_push<V: View>(s: Seq<(Vec<u8>, V)>, e: (Vec<u8>, V))
    requires
        keys_unique(s),
        !has_key(s, e.0@),
    ensures
        keys_unique(s.push(e)),
        entries_map(s.push(e)) == entries_map(s).insert(e.0@, e.1@),
{
    let s2 = s.push(e);
    let k = e.0@;
    let n = s.len() as int;
    assert forall|a: int, b: int| 0 <= a < b < s2.len() implies s2[a].0@ != s2[b].0@ by {
        if b < n {
            assert(s[a].0@ != s[b].0@);
        } else {
            assert(s2[b].0@ == k);
            assert(s2[a].0@ == s[a].0@);
            if s[a].0@ == k {
                assert(has_key(s, k));
            }
        }
    }
    assert forall|q: Seq<u8>| has_key(s2, q) implies (q == k || has_key(s, q)) by {
        let j = key_index(s2, q);
        assert(0 <= j < s2.len() && s2[j].0@ == q);
        if j < n {
            assert(s[j].0@ == q);
        }
    }
    assert forall|q: Seq<u8>| (q == k || has_key(s, q)) implies has_key(s2, q) by {
        if q == k {
            assert(s2[n].0@ == q);
        } else {
            let j = key_index(s, q);
            assert(s2[j].0@ == q);
        }
    }
    assert forall|q: Seq<u8>| has_key(s2, q) && q != k implies entries_map(s2)[q]
        == entries_map(s)[q] by {
        let j = key_index(s2, q);
        assert(0 <= j < s2.len() && s2[j].0@ == q);
        assert(j < n);
        lemma_key_index_agrees(s, q, j);
    }
    lemma_key_index_agrees(s2, k, n);
    assert(entries_map(s2)[k] == e.1@);
    assert(entries_map(s2) =~= entries_map(s).insert(k, e.1@));
}

/// Removing the entry that holds a key removes that key from the map.
proof fn lemma_entries_remove<V: View>(s: Seq<(Vec<u8>, V)>, i: int)
    requires
        keys_unique(s),
        0 <= i < s.len(),
    ensures
        keys_unique(s.remove(i)),
        entries_map(s.remove(i)) == entries_map(s).remove(s[i].0@),
{
    let s2 = s.remove(i);
    let k = s[i].0@;
    assert forall|a: int, b: int| 0 <= a < b < s2.len() implies s2[a].0@ != s2[b].0@ by {
        let a0 = if a < i { a } else { a + 1 };
        let b0 = if b < i { b } else { b + 1 };
        assert(s2[a].0@ == s[a0].0@);
        assert(s2[b].0@ == s[b0].0@);
        assert(s[a0].0@ != s[b0].0@);
    }
    assert forall|q: Seq<u8>| has_key(s2, q) implies (q != k && has_key(s, q)) by {
        let j = key_index(s2, q);
        assert(0 <= j < s2.len() && s2[j].0@ == q);
        let j0 = if j < i { j } else { j + 1 };
        assert(s[j0].0@ == q);
        assert(j0 != i);
        if q == k {
            if j0 < i {
                assert(s[j0].0@ != s[i].0@);
            } else {
                assert(s[i].0@ != s[j0].0@);
            }
        }
    }
    assert forall|q: Seq<u8>| (q != k && has_key(s, q)) implies has_key(s2, q) by {
        let j = key_index(s, q);
        assert(0 <= j < s.len() && s[j].0@ == q);
        assert(j != i);
        if j < i {
            assert(s2[j].0@ == q);
        } else {
            assert(s2[j - 1].0@ == q);
        }
    }
    assert forall|q: Seq<u8>| has_key(s2, q) implies entries_map(s2)[q] == entries_map(s)[q] by {
        let j = key_index(s2, q);
        assert(0 <= j < s2.len() && s2[j].0@ == q);
        let j0 = if j < i { j } else { j + 1 };
        assert(s2[j].1@ == s[j0].1@);
        lemma_key_index_agrees(s, q, j0);
    }
    assert(entries_map(s2) =~= entries_map(s).remove(k));
}

impl<V: View> View for AssocList<V> {
    type V = Map<Seq<u8>, V::V>;

    closed spec fn view(&self) -> Map<Seq<u8>, V::V> {
        entries_map(self.entries@)
    }
}

impl<V> AssocList<V> {
    #[verifier::type_invariant]
    spec fn inv(self) -> bool {
        keys_unique(self.entries@)
    }
}

impl<V: View> AssocList<V> {
    /// An empty map.
    pub fn new() -> (r: Self)
        ensures
            r@ == Map::<Seq<u8>, V::V>::empty(),
    {
        let r = AssocList { entries: Vec::new() };
        proof {
            assert(r@ =~= Map::<Seq<u8>, V::V>::empty());
        }
        r
    }

    /// The index of the entry holding `key`, if any.
    fn find(&self, key: &Vec<u8>) -> (r: Option<usize>)
        ensures
            match r {
                Some(i) => i < self.entries@.len() && self.entries@[i as int].0@ == key@,
                None => !has_key(self.entries@, key@),
            },
    {
        let n = self.entries.len();
        let mut i: usize = 0;
        while i < n
            invariant
                n == self.entries@.len(),
                i <= n,
                forall|j: int| 0 <= j < i ==> self.entries@[j].0@ != key@,
            decreases n - i,
        {
            if bytes_equal(&self.entries[i].0, key) {
                return Some(i);
            }
            i += 1;
        }
        None
    }

    /// The value under `key`, if the key is present.
    pub fn get(&self, key: &Vec<u8>) -> (r: Option<&V>)
        ensures
            match r {
                Some(v) => self@.contains_key(key@) && v@ == self@[key@],
                None => !self@.contains_key(key@),
            },
    {
        proof {
            use_type_invariant(self);
        }
        match self.find(key) {
            Some(i) => {
                proof {
                    lemma_key_index_agrees(self.entries@, key@, i as int);
                }
                Some(&self.entries[i].1)
            },
            None => None,
        }
    }

    /// Bind `value` to `key`, replacing any earlier binding.
    pub fn set(&mut self, key: Vec<u8>, value: V)
        ensures
            final(self)@ == old(self)@.insert(key@, value@),
    {
        proof {
            use_type_invariant(&*self);
        }
        let ghost s0 = self.entries@;
        let found = self.find(&key);
        let mut entries: Vec<(Vec<u8>, V)> = Vec::new();
        std::mem::swap(&mut entries, &mut self.entries);
        match found {
            Some(i) => {
                proof {
                    lemma_entries_update(s0, i as int, (key, value));
                }
                entries.set(i, (key, value));
            },
            None => {
                proof {
                    lemma_entries_push(s0, (key, value));
                }
                entries.push((key, value));
            },
        }
        self.entries = entries;
    }

    /// Unbind `key`, returning the value it was bound to, if any.
    pub fn remove(&mut self, key: &Vec<u8>) -> (r: Option<V>)
        ensures
            final(self)@ == old(self)@.remove(key@),
            match r {
                Some(v) => old(self)@.contains_key(key@) && v@ == old(self)@[key@],
                None => !old(self)@.contains_key(key@),
            },
    {
        proof {
            use_type_invariant(&*self);
        }
        let ghost s0 = self.entries@;
        let found = self.find(key);
        let mut entries: Vec<(Vec<u8>, V)> = Vec::new();
        std::mem::swap(&mut entries, &mut self.entries);
        match found {
            Some(i) => {
                proof {
                    lemma_key_index_agrees(s0, key@, i as int);
                    lemma_entries_remove(s0, i as int);
                }
                let e = entries.remove(i);
                self.entries = entries;
                Some(e.1)
            },
            None => {
                self.entries = entries;
                proof {
                    assert(old(self)@ =~= old(self)@.remove(key@));
                }
                None
            },
        }
    }
}

} // verus!
