//! Identities and the keyed tables that hold registry state.
//!
//! A registry's storage is a family of key-value namespaces. Each one is held
//! here as a [`Table`]: an association list with unique keys whose abstract
//! view is a `Map` from the key's bytes to the stored value.

use vstd::prelude::*;

verus! {

/// A 32-byte digest used as an identifier (issuer id, proof id, WASM hash,
/// metadata commitment).
#[derive(Clone, Copy, Debug, PartialEq, Eq)]
pub struct Hash32 {
    pub bytes: [u8; 32],
}

/// An account or contract address, held as its 56-character strkey text.
#[derive(Clone, Copy, Debug, PartialEq, Eq)]
pub struct Address {
    pub strkey: [u8; 56],
}

impl View for Hash32 {
    type V = Seq<u8>;

    open spec fn view(&self) -> Seq<u8> {
        self.bytes@
    }
}

impl View for Address {
    type V = Seq<u8>;

    open spec fn view(&self) -> Seq<u8> {
        self.strkey@
    }
}

/// A value that identifies a table entry by its bytes.
pub trait TableKey: Sized {
    spec fn key(&self) -> Seq<u8>;

    fn same_key(&self, other: &Self) -> (r: bool)
        ensures
            r == (self.key() == other.key()),
    ;
}

impl Hash32 {
    /// The digest whose bytes are all `value`.
    pub fn filled(value: u8) -> (r: Hash32)
        ensures
            forall|i: int| 0 <= i < 32 ==> #[trigger] r@[i] == value,
            r@.len() == 32,
    {
        Hash32 { bytes: [value; 32] }
    }

    /// The all-zero digest, the "nothing recorded" sentinel.
    pub fn zero() -> (r: Hash32)
        ensures
            r == spec_zero_hash(),
            r@ == spec_zero_digest(),
    {
        let r = Hash32 { bytes: [0u8; 32] };
        assert(r@ =~= spec_zero_digest());
        r
    }

    /// Whether every byte of the digest is zero.
    pub fn is_zero(&self) -> (r: bool)
        ensures
            r == (self@ == spec_zero_digest()),
    {
        let mut i: usize = 0;
        while i < 32
            invariant
                i <= 32,
                self@.len() == 32,
                forall|j: int| 0 <= j < i ==> self@[j] == 0u8,
            decreases 32 - i,
        {
            if self.bytes[i] != 0 {
                assert(self@[i as int] != spec_zero_digest()[i as int]);
                return false;
            }
            i = i + 1;
        }
        assert(self@ =~= spec_zero_digest());
        true
    }
}

/// The all-zero digest.
pub open spec fn spec_zero_hash() -> Hash32 {
    Hash32 { bytes: vstd::array::spec_array_fill_for_copy_type::<u8, 32>(0u8) }
}

/// The 32 zero bytes.
pub open spec fn spec_zero_digest() -> Seq<u8> {
    Seq::new(32, |i: int| 0u8)
}

impl TableKey for Hash32 {
    open spec fn key(&self) -> Seq<u8> {
        self@
    }

    fn same_key(&self, other: &Self) -> (r: bool) {
        let mut i: usize = 0;
        while i < 32
            invariant
                i <= 32,
                self@.len() == 32,
                other@.len() == 32,
                forall|j: int| 0 <= j < i ==> self@[j] == other@[j],
            decreases 32 - i,
        {
            if self.bytes[i] != other.bytes[i] {
                assert(self@[i as int] != other@[i as int]);
                return false;
            }
            i = i + 1;
        }
        assert(self@ =~= other@);
        true
    }
}

impl TableKey for Address {
    open spec fn key(&self) -> Seq<u8> {
        self@
    }

    fn same_key(&self, other: &Self) -> (r: bool) {
        let mut i: usize = 0;
        while i < 56
            invariant
                i <= 56,
                self@.len() == 56,
                other@.len() == 56,
                forall|j: int| 0 <= j < i ==> self@[j] == other@[j],
            decreases 56 - i,
        {
            if self.strkey[i] != other.strkey[i] {
                assert(self@[i as int] != other@[i as int]);
                return false;
            }
            i = i + 1;
        }
        assert(self@ =~= other@);
        true
    }
}

/// An association list with unique keys.
pub struct Table<K, V> {
    pub entries: Vec<(K, V)>,
}

/// No two entries of `s` share a key.
pub open spec fn keys_unique<K: TableKey, V>(s: Seq<(K, V)>) -> bool {
    forall|i: int, j: int|
        0 <= i < s.len() && 0 <= j < s.len() && i != j ==> #[trigger] s[i].0.key() != #[trigger] s[j].0.key()
}

/// Some entry of `s` has key `k`.
pub open spec fn has_key<K: TableKey, V>(s: Seq<(K, V)>, k: Seq<u8>) -> bool {
    exists|i: int| 0 <= i < s.len() && #[trigger] s[i].0.key() == k
}

/// The map that an association list stands for.
pub open spec fn entries_map<K: TableKey, V>(s: Seq<(K, V)>) -> Map<Seq<u8>, V> {
    Map::new(
        |k: Seq<u8>| has_key(s, k),
        |k: Seq<u8>| s[choose|i: int| 0 <= i < s.len() && #[trigger] s[i].0.key() == k].1,
    )
}

/// With unique keys, the map holds at each entry's key that entry's value.
pub proof fn lemma_entries_map_at<K: TableKey, V>(s: Seq<(K, V)>, i: int)
    requires
        keys_unique(s),
        0 <= i < s.len(),
    ensures
        entries_map(s).contains_key(s[i].0.key()),
        entries_map(s)[s[i].0.key()] == s[i].1,
{
    let k = s[i].0.key();
    assert(has_key(s, k));
    let j = choose|j: int| 0 <= j < s.len() && #[trigger] s[j].0.key() == k;
    assert(j == i);
}

impl<K: TableKey, V> Table<K, V> {
    /// The table's contents keyed by key bytes.
    pub open spec fn view(&self) -> Map<Seq<u8>, V> {
        entries_map(self.entries@)
    }

    /// Keys are unique.
    pub open spec fn wf(&self) -> bool {
        keys_unique(self.entries@)
    }

    /// An empty table.
    pub fn new() -> (r: Self)
        ensures
            r.wf(),
            r.view() == Map::<Seq<u8>, V>::empty(),
    {
        let r = Table { entries: Vec::new() };
        assert(r.view() =~= Map::<Seq<u8>, V>::empty());
        r
    }

    /// Position of the entry with key `k`, if any.
    pub fn find(&self, k: &K) -> (r: Option<usize>)
        requires
            self.wf(),
        ensures
            match r {
                Some(i) => i < self.entries@.len() && self.entries@[i as int].0.key() == k.key(),
                None => !self.view().contains_key(k.key()),
            },
    {
        let n = self.entries.len();
        let mut i: usize = 0;
        while i < n
            invariant
                n == self.entries@.len(),
                i <= n,
                forall|j: int| 0 <= j < i ==> #[trigger] self.entries@[j].0.key() != k.key(),
            decreases n - i,
        {
            if self.entries[i].0.same_key(k) {
                return Some(i);
            }
            i = i + 1;
        }
        None
    }

    /// Whether an entry with key `k` exists.
    pub fn contains(&self, k: &K) -> (r: bool)
        requires
            self.wf(),
        ensures
            r == self.view().contains_key(k.key()),
    {
        match self.find(k) {
            Some(i) => {
                proof {
                    lemma_entries_map_at(self.entries@, i as int);
                }
                true
            },
            None => false,
        }
    }

    /// The value stored under `k`, if any.
    pub fn get(&self, k: &K) -> (r: Option<&V>)
        requires
            self.wf(),
        ensures
            match r {
                Some(v) => self.view().contains_key(k.key()) && *v == self.view()[k.key()],
                None => !self.view().contains_key(k.key()),
            },
    {
        match self.find(k) {
            Some(i) => {
                proof {
                    lemma_entries_map_at(self.entries@, i as int);
                }
                Some(&self.entries[i].1)
            },
            None => None,
        }
    }

    /// Stores `v` under `k`, replacing any previous value.
    pub fn set(&mut self, k: K, v: V)
        requires
            old(self).wf(),
        ensures
            final(self).wf(),
            final(self).view() == old(self).view().insert(k.key(), v),
    {
        let ghost kk = k.key();
        match self.find(&k) {
            Some(i) => {
                let ghost old_s = self.entries@;
                self.entries.set(i, (k, v));
                proof {
                    let s = self.entries@;
                    assert(s == old_s.update(i as int, s[i as int]));
                    assert forall|a: int, b: int|
                        0 <= a < s.len() && 0 <= b < s.len() && a != b implies
                        #[trigger] s[a].0.key() != #[trigger] s[b].0.key() by {
                        if a != i && b != i {
                            assert(s[a] == old_s[a] && s[b] == old_s[b]);
                        } else if a == i {
                            assert(s[b] == old_s[b]);
                            assert(old_s[i as int].0.key() != old_s[b].0.key());
                        } else {
                            assert(s[a] == old_s[a]);
                            assert(old_s[i as int].0.key() != old_s[a].0.key());
                        }
                    }
                    assert(s[i as int].0.key() == kk);
                    assert(has_key(s, kk));
                    assert forall|key: Seq<u8>| #[trigger] has_key(s, key) implies has_key(old_s, key) || key == kk by {
                        let a = choose|a: int| 0 <= a < s.len() && #[trigger] s[a].0.key() == key;
                        if a != i {
                            assert(old_s[a] == s[a]);
                            assert(old_s[a].0.key() == key);
                        }
                    }
                    assert forall|key: Seq<u8>| #[trigger] has_key(old_s, key) implies has_key(s, key) by {
                        let a = choose|a: int| 0 <= a < old_s.len() && #[trigger] old_s[a].0.key() == key;
                        if a != i {
                            assert(old_s[a] == s[a]);
                            assert(s[a].0.key() == key);
                        } else {
                            assert(s[a].0.key() == key);
                        }
                    }
                    assert forall|key: Seq<u8>|
                        #[trigger] self.view().contains_key(key) == old(self).view().insert(kk, v).contains_key(key) by {
                        if key == kk {
                            assert(has_key(s, key));
                        }
                    }
                    assert forall|key: Seq<u8>| #[trigger] self.view().contains_key(key) implies
                        self.view()[key] == old(self).view().insert(kk, v)[key] by {
                        let a = choose|a: int| 0 <= a < s.len() && #[trigger] s[a].0.key() == key;
                        lemma_entries_map_at(s, a);
                        if a != i {
                            assert(old_s[a] == s[a]);
                            lemma_entries_map_at(old_s, a);
                        }
                    }
                    assert(self.view() =~= old(self).view().insert(kk, v));
                }
            },
            None => {
                let ghost old_s = self.entries@;
                self.entries.push((k, v));
                proof {
                    let s = self.entries@;
                    let n = old_s.len() as int;
                    assert forall|a: int, b: int|
                        0 <= a < s.len() && 0 <= b < s.len() && a != b implies
                        #[trigger] s[a].0.key() != #[trigger] s[b].0.key() by {
                        if a < n && b < n {
                            assert(s[a] == old_s[a] && s[b] == old_s[b]);
                        } else if a == n {
                            assert(s[b] == old_s[b]);
                            if s[b].0.key() == kk {
                                assert(has_key(old_s, kk));
                            }
                        } else {
                            assert(s[a] == old_s[a]);
                            if s[a].0.key() == kk {
                                assert(has_key(old_s, kk));
                            }
                        }
                    }
                    assert(s == old_s.push((k, v)));
                    assert(s.len() == n + 1);
                    assert(s[n].0.key() == kk);
                    assert(has_key(s, kk));
                    assert forall|key: Seq<u8>| #[trigger] has_key(s, key) implies has_key(old_s, key) || key == kk by {
                        let a = choose|a: int| 0 <= a < s.len() && #[trigger] s[a].0.key() == key;
                        if a < n {
                            assert(old_s[a] == s[a]);
                            assert(old_s[a].0.key() == key);
                        }
                    }
                    assert forall|key: Seq<u8>| #[trigger] has_key(old_s, key) implies has_key(s, key) by {
                        let a = choose|a: int| 0 <= a < old_s.len() && #[trigger] old_s[a].0.key() == key;
                        assert(old_s[a] == s[a]);
                        assert(s[a].0.key() == key);
                    }
                    assert forall|key: Seq<u8>|
                        #[trigger] self.view().contains_key(key) == old(self).view().insert(kk, v).contains_key(key) by {
                        if key == kk {
                            assert(has_key(s, key));
                        }
                    }
assert forall|key: Seq<u8>| #[trigger] self.view().contains_key(key) implies
                        self.view()[key] == old(self).view().insert(kk, v)[key] by {
                        let a = choose|a: int| 0 <= a < s.len() && #[trigger] s[a].0.key() == key;
                        lemma_entries_map_at(s, a);
                        if a < n {
                            assert(old_s[a] == s[a]);
                            lemma_entries_map_at(old_s, a);
                        }
                    }
                    assert(self.view() =~= old(self).view().insert(kk, v));
                }
            },
        }
    }

    /// Removes the entry with key `k`, if any, returning its value.
    pub fn remove(&mut self, k: &K) -> (r: Option<V>)
        requires
            old(self).wf(),
        ensures
            final(self).wf(),
            final(self).view() == old(self).view().remove(k.key()),
            match r {
                Some(v) => old(self).view().contains_key(k.key()) && v == old(self).view()[k.key()],
                None => !old(self).view().contains_key(k.key()),
            },
    {
        let ghost kk = k.key();
        match self.find(k) {
            Some(i) => {
                let ghost old_s = self.entries@;
                proof {
                    lemma_entries_map_at(old_s, i as int);
                }
                let (_, v) = self.entries.remove(i);
                proof {
                    let s = self.entries@;
                    assert(s == old_s.remove(i as int));
                    assert forall|a: int, b: int|
                        0 <= a < s.len() && 0 <= b < s.len() && a != b implies
                        #[trigger] s[a].0.key() != #[trigger] s[b].0.key() by {
                        let a2 = if a < i { a } else { a + 1 };
                        let b2 = if b < i { b } else { b + 1 };
                        assert(s[a] == old_s[a2]);
                        assert(s[b] == old_s[b2]);
                    }
                    assert forall|key: Seq<u8>|
                        #[trigger] self.view().contains_key(key) == old(self).view().remove(kk).contains_key(key) by {
                        if has_key(s, key) {
                            let a = choose|a: int| 0 <= a < s.len() && #[trigger] s[a].0.key() == key;
                            let a2 = if a < i { a } else { a + 1 };
                            assert(s[a] == old_s[a2]);
                        }
                        if has_key(old_s, key) && key != kk {
                            let a = choose|a: int| 0 <= a < old_s.len() && #[trigger] old_s[a].0.key() == key;
                            assert(a != i);
                            let a1 = if a < i { a } else { a - 1 };
                            assert(s[a1] == old_s[a]);
                        }
                    }
                    assert forall|key: Seq<u8>| #[trigger] self.view().contains_key(key) implies
                        self.view()[key] == old(self).view().remove(kk)[key] by {
                        let a = choose|a: int| 0 <= a < s.len() && #[trigger] s[a].0.key() == key;
                        lemma_entries_map_at(s, a);
                        let a2 = if a < i { a } else { a + 1 };
                        assert(s[a] == old_s[a2]);
                        lemma_entries_map_at(old_s, a2);
                    }
                    assert(self.view() =~= old(self).view().remove(kk));
                }
                Some(v)
            },
            None => {
                assert(old(self).view().remove(kk) =~= old(self).view());
                None
            },
        }
    }
}

} // verus!
