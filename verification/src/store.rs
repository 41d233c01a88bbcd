//! A verified key-value store standing for one persisted ledger mapping.
//!
//! Each ledger mapping is independently addressable by its key and holds one
//! record per key. [`StoreMap`] realizes that as an association vector whose
//! keys are pairwise distinct, abstracted by a mathematical `Map` from key
//! views to value views.

use vstd::prelude::*;

verus! {

/// A key usable in a [`StoreMap`]: executable equality must coincide with
/// equality of the key's mathematical view.
pub trait StoreKey: View + Sized {
    /// Decides whether two keys have the same view.
    fn key_eq(&self, other: &Self) -> (r: bool)
        ensures
            r == (self@ == other@),
    ;
}

/// Decides equality of two byte strings.
pub fn bytes_eq(a: &[u8], b: &[u8]) -> (r: bool)
    ensures
        r == (a@ == b@),
{
    if a.len() != b.len() {
        return false;
    }
    let mut i: usize = 0;
    while i < a.len()
        invariant
            0 <= i <= a@.len(),
            a@.len() == b@.len(),
            forall|j: int| 0 <= j < i ==> a@[j] == b@[j],
        decreases a@.len() - i,
    {
        if a[i] != b[i] {
            return false;
        }
        i = i + 1;
    }
    proof {
        assert(a@ =~= b@);
    }
    true
}

/// Copies a byte string.
pub fn copy_bytes(src: &Vec<u8>) -> (r: Vec<u8>)
    ensures
        r@ == src@,
{
    let mut out: Vec<u8> = Vec::new();
    let mut i: usize = 0;
    while i < src.len()
        invariant
            0 <= i <= src@.len(),
            out@ == src@.take(i as int),
        decreases src@.len() - i,
    {
        out.push(src[i]);
        proof {
            assert(out@ =~= src@.take(i + 1 as int));
        }
        i = i + 1;
    }
    proof {
        assert(src@.take(src@.len() as int) =~= src@);
    }
    out
}

impl StoreKey for u64 {
    fn key_eq(&self, other: &Self) -> (r: bool) {
        *self == *other
    }
}

impl StoreKey for Vec<u8> {
    fn key_eq(&self, other: &Self) -> (r: bool) {
        bytes_eq(self.as_slice(), other.as_slice())
    }
}

impl StoreKey for (u64, u64) {
    fn key_eq(&self, other: &Self) -> (r: bool) {
        self.0 == other.0 && self.1 == other.1
    }
}

impl StoreKey for (u64, Vec<u8>) {
    fn key_eq(&self, other: &Self) -> (r: bool) {
        self.0 == other.0 && bytes_eq(self.1.as_slice(), other.1.as_slice())
    }
}

/// The mapping abstracted by an association sequence: later entries shadow
/// earlier ones, though a well-formed store never has two entries per key.
pub(crate) open spec fn map_of<K: StoreKey, T: View>(s: Seq<(K, T)>) -> Map<K::V, T::V>
    decreases s.len(),
{
    if s.len() == 0 {
        Map::empty()
    } else {
        map_of(s.drop_last()).insert(s.last().0@, s.last().1@)
    }
}

/// Whether the entries of an association sequence have pairwise distinct keys.
pub(crate) open spec fn keys_unique<K: StoreKey, T: View>(s: Seq<(K, T)>) -> bool {
    forall|i: int, j: int| 0 <= i < j < s.len() ==> s[i].0@ != s[j].0@
}

/// A key is in the abstract mapping exactly when some entry holds it.
proof fn lemma_map_of_contains<K: StoreKey, T: View>(s: Seq<(K, T)>, k: K::V)
    ensures
        map_of::<K, T>(s).contains_key(k) <==> (exists|i: int|
            0 <= i < s.len() && #[trigger] s[i].0@ == k),
    decreases s.len(),
{
    if s.len() > 0 {
        lemma_map_of_contains::<K, T>(s.drop_last(), k);
        if s.last().0@ == k {
            assert(s[s.len() - 1].0@ == k);
        } else {
            if exists|i: int| 0 <= i < s.len() && #[trigger] s[i].0@ == k {
                let i = choose|i: int| 0 <= i < s.len() && #[trigger] s[i].0@ == k;
                assert(s.drop_last()[i].0@ == k);
            }
            if exists|i: int| 0 <= i < s.drop_last().len() && #[trigger] s.drop_last()[i].0@
                == k {
                let i = choose|i: int|
                    0 <= i < s.drop_last().len() && #[trigger] s.drop_last()[i].0@ == k;
                assert(s[i].0@ == k);
            }
        }
    }
}

/// With distinct keys, the abstract mapping sends each entry's key to that
/// entry's value.
proof fn lemma_map_of_sel<K: StoreKey, T: View>(s: Seq<(K, T)>, i: int)
    requires
        keys_unique::<K, T>(s),
        0 <= i < s.len(),
    ensures
        map_of::<K, T>(s).contains_key(s[i].0@),
        map_of::<K, T>(s)[s[i].0@] == s[i].1@,
    decreases s.len(),
{
    if i == s.len() - 1 {
        assert(s.last() == s[i]);
    } else {
        assert(keys_unique::<K, T>(s.drop_last())) by {
            assert(forall|m: int, n: int|
                0 <= m < n < s.drop_last().len() ==> s.drop_last()[m] == s[m]
                    && s.drop_last()[n] == s[n]);
        }
        lemma_map_of_sel::<K, T>(s.drop_last(), i);
        assert(s.drop_last()[i] == s[i]);
        assert(s[i].0@ != s.last().0@);
    }
}

/// Removing the entry at an index removes exactly that entry's key from the
/// abstract mapping.
proof fn lemma_map_of_remove<K: StoreKey, T: View>(s: Seq<(K, T)>, i: int)
    requires
        keys_unique::<K, T>(s),
        0 <= i < s.len(),
    ensures
        keys_unique::<K, T>(s.remove(i)),
        map_of::<K, T>(s.remove(i)) == map_of::<K, T>(s).remove(s[i].0@),
    decreases s.len(),
{
    assert(keys_unique::<K, T>(s.remove(i))) by {
        assert(forall|m: int|
            0 <= m < s.remove(i).len() ==> s.remove(i)[m] == (if m < i {
                s[m]
            } else {
                s[m + 1]
            }));
    }
    let k = s[i].0@;
    if i == s.len() - 1 {
        assert(s.remove(i) =~= s.drop_last());
        assert(!map_of::<K, T>(s.drop_last()).contains_key(k)) by {
            lemma_map_of_contains::<K, T>(s.drop_last(), k);
            assert(forall|m: int|
                0 <= m < s.drop_last().len() ==> #[trigger] s.drop_last()[m].0@ == s[m].0@);
        }
        assert(map_of::<K, T>(s.remove(i)) =~= map_of::<K, T>(s).remove(k));
    } else {
        let d = s.drop_last();
        assert(keys_unique::<K, T>(d)) by {
            assert(forall|m: int| 0 <= m < d.len() ==> d[m] == s[m]);
        }
        assert(d[i] == s[i]);
        lemma_map_of_remove::<K, T>(d, i);
        assert(s.remove(i).drop_last() =~= d.remove(i)) by {
            assert(forall|m: int|
                0 <= m < s.remove(i).len() ==> s.remove(i)[m] == (if m < i {
                    s[m]
                } else {
                    s[m + 1]
                }));
            assert(forall|m: int|
                0 <= m < d.remove(i).len() ==> d.remove(i)[m] == (if m < i {
                    d[m]
                } else {
                    d[m + 1]
                }));
        }
        assert(s.remove(i).last() == s.last());
        assert(s.remove(i).len() == s.len() - 1 > 0);
        assert(map_of::<K, T>(s.remove(i)) == map_of::<K, T>(d.remove(i)).insert(
            s.last().0@,
            s.last().1@,
        ));
        assert(s.last().0@ != k);
        assert(map_of::<K, T>(d).remove(k).insert(s.last().0@, s.last().1@) =~= map_of::<K, T>(
            d,
        ).insert(s.last().0@, s.last().1@).remove(k));
    }
}

/// Appending a fresh entry inserts its key-value pair into the abstract
/// mapping.
proof fn lemma_map_of_push<K: StoreKey, T: View>(s: Seq<(K, T)>, e: (K, T))
    ensures
        map_of::<K, T>(s.push(e)) == map_of::<K, T>(s).insert(e.0@, e.1@),
{
    assert(s.push(e).drop_last() =~= s);
    assert(s.push(e).last() == e);
}

/// One persisted ledger mapping: at most one live record per key.
pub struct StoreMap<K: StoreKey, T: View> {
    entries: Vec<(K, T)>,
}

impl<K: StoreKey, T: View> View for StoreMap<K, T> {
    type V = Map<K::V, T::V>;

    closed spec fn view(&self) -> Map<K::V, T::V> {
        map_of::<K, T>(self.entries@)
    }
}

impl<K: StoreKey, T: View> StoreMap<K, T> {
    /// Every key identifies at most one live record.
    #[verifier::type_invariant]
    spec fn wf(self) -> bool {
        keys_unique::<K, T>(self.entries@)
    }

    /// An empty mapping.
    pub fn new() -> (r: Self)
        ensures
            r@ == Map::<K::V, T::V>::empty(),
    {
        StoreMap { entries: Vec::new() }
    }

    /// The index of the entry holding the key, if any.
    fn index_of(&self, key: &K) -> (r: Option<usize>)
        ensures
            match r {
                Some(i) => 0 <= i < self.entries@.len() && self.entries@[i as int].0@ == key@,
                None => forall|j: int|
                    0 <= j < self.entries@.len() ==> self.entries@[j].0@ != key@,
            },
    {
        let mut i: usize = 0;
        while i < self.entries.len()
            invariant
                0 <= i <= self.entries@.len(),
                forall|j: int| 0 <= j < i ==> self.entries@[j].0@ != key@,
            decreases self.entries@.len() - i,
        {
            if self.entries[i].0.key_eq(key) {
                return Some(i);
            }
            i = i + 1;
        }
        None
    }

    /// Whether a live record exists for the key.
    pub fn contains_key(&self, key: &K) -> (r: bool)
        ensures
            r == self@.contains_key(key@),
    {
        proof {
            use_type_invariant(&*self);
            lemma_map_of_contains::<K, T>(self.entries@, key@);
        }
        match self.index_of(key) {
            Some(_) => true,
            None => false,
        }
    }

    /// The record stored under the key, if any.
    pub fn get(&self, key: &K) -> (r: Option<&T>)
        ensures
            match r {
                Some(v) => self@.contains_key(key@) && v@ == self@[key@],
                None => !self@.contains_key(key@),
            },
    {
        proof {
            use_type_invariant(&*self);
            lemma_map_of_contains::<K, T>(self.entries@, key@);
        }
        match self.index_of(key) {
            Some(i) => {
                proof {
                    lemma_map_of_sel::<K, T>(self.entries@, i as int);
                }
                Some(&self.entries[i].1)
            },
            None => None,
        }
    }

    /// Stores a record under the key, replacing any previous record.
    pub fn insert(&mut self, key: K, value: T)
        ensures
            final(self)@ == old(self)@.insert(key@, value@),
    {
        proof {
            use_type_invariant(&*self);
        }
        let idx = self.index_of(&key);
        let ghost s0 = self.entries@;
        let mut entries: Vec<(K, T)> = Vec::new();
        core::mem::swap(&mut entries, &mut self.entries);
        match idx {
            Some(i) => {
                proof {
                    lemma_map_of_remove::<K, T>(s0, i as int);
                }
                entries.remove(i);
                proof {
                    assert(forall|m: int|
                        0 <= m < s0.remove(i as int).len() ==> s0.remove(i as int)[m] == (
                        if m < i {
                            s0[m]
                        } else {
                            s0[m + 1]
                        }));
                    lemma_map_of_push::<K, T>(s0.remove(i as int), (key, value));
                }
                entries.push((key, value));
                proof {
                    assert(map_of::<K, T>(entries@) =~= map_of::<K, T>(s0).insert(
                        key@,
                        value@,
                    ));
                }
            },
            None => {
                proof {
                    lemma_map_of_push::<K, T>(s0, (key, value));
                }
                entries.push((key, value));
            },
        }
        core::mem::swap(&mut entries, &mut self.entries);
    }

    /// Removes and returns the record stored under the key, if any.
    pub fn take(&mut self, key: &K) -> (r: Option<T>)
        ensures
            match r {
                Some(v) => old(self)@.contains_key(key@) && v@ == old(self)@[key@]
                    && final(self)@ == old(self)@.remove(key@),
                None => !old(self)@.contains_key(key@) && final(self)@ == old(self)@,
            },
    {
        proof {
            use_type_invariant(&*self);
            lemma_map_of_contains::<K, T>(self.entries@, key@);
        }
        let idx = self.index_of(key);
        let ghost s0 = self.entries@;
        match idx {
            Some(i) => {
                proof {
                    lemma_map_of_sel::<K, T>(s0, i as int);
                    lemma_map_of_remove::<K, T>(s0, i as int);
                }
                let mut entries: Vec<(K, T)> = Vec::new();
                core::mem::swap(&mut entries, &mut self.entries);
                let e = entries.remove(i);
                core::mem::swap(&mut entries, &mut self.entries);
                Some(e.1)
            },
            None => None,
        }
    }

    /// Deletes the record stored under the key, if any.
    pub fn remove(&mut self, key: &K)
        ensures
            final(self)@ == old(self)@.remove(key@),
    {
        let _ = self.take(key);
    }
}

} // verus!
