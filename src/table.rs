use vstd::prelude::*;

verus! {

/// A key that executable code can compare for equality.
pub trait Key: Copy {
    fn same(&self, other: &Self) -> (r: bool)
        ensures
            r == (*self == *other),
    ;
}

impl Key for u32 {
    fn same(&self, other: &Self) -> (r: bool) {
        *self == *other
    }
}

impl Key for usize {
    fn same(&self, other: &Self) -> (r: bool) {
        *self == *other
    }
}

/// A value that can be copied deeply, so that the copy shares nothing with
/// the original and has the same abstract value.
pub trait Duplicate: View + Sized {
    fn duplicate(&self) -> (r: Self)
        ensures
            r@ == self@,
    ;
}

impl Duplicate for u32 {
    fn duplicate(&self) -> (r: u32) {
        *self
    }
}

/// A finite set of keys, stored as a vector.
pub struct KeySet<K> {
    items: Vec<K>,
}

impl<K> View for KeySet<K> {
    type V = Set<K>;

    closed spec fn view(&self) -> Set<K> {
        Set::new(|k: K| self.items@.contains(k))
    }
}

impl<K: Key> KeySet<K> {
    pub fn new() -> (r: Self)
        ensures
            r@ == Set::<K>::empty(),
    {
        let r = KeySet { items: Vec::new() };
        assert(r@ =~= Set::<K>::empty());
        r
    }

    pub fn contains(&self, k: &K) -> (r: bool)
        ensures
            r == self@.contains(*k),
    {
        let mut i: usize = 0;
        while i < self.items.len()
            invariant
                i <= self.items.len(),
                forall|j: int| 0 <= j < i ==> self.items@[j] != *k,
            decreases self.items.len() - i,
        {
            if self.items[i].same(k) {
                assert(self.items@.contains(*k));
                return true;
            }
            i += 1;
        }
        false
    }

    pub fn insert(&mut self, k: K)
        ensures
            final(self)@ == old(self)@.insert(k),
    {
        let present = self.contains(&k);
        if !present {
            self.items.push(k);
            assert(self.items@[self.items@.len() - 1] == k);
        }
        assert forall|x: K| self.items@.contains(x) <==> (old(self).items@.contains(x) || x == k) by {
            if old(self).items@.contains(x) {
                let j = choose|j: int| 0 <= j < old(self).items@.len() && old(self).items@[j] == x;
                assert(self.items@[j] == x);
            }
            if x == k && present {
                assert(old(self).items@.contains(x));
            }
        }
        assert(self@ =~= old(self)@.insert(k));
    }

    pub fn remove(&mut self, k: &K)
        ensures
            final(self)@ == old(self)@.remove(*k),
    {
        let mut kept: Vec<K> = Vec::new();
        let mut i: usize = 0;
        while i < self.items.len()
            invariant
                i <= self.items.len(),
                forall|m: int| 0 <= m < kept@.len() ==> kept@[m] != *k && self.items@.contains(kept@[m]),
                forall|j: int| 0 <= j < i && self.items@[j] != *k ==> kept@.contains(self.items@[j]),
            decreases self.items.len() - i,
        {
            let x = self.items[i];
            let ghost before = kept@;
            if !x.same(k) {
                kept.push(x);
                assert(self.items@.contains(x)) by {
                    assert(self.items@[i as int] == x);
                }
                assert(kept@[kept@.len() - 1] == x);
            }
            assert forall|j: int| 0 <= j < i + 1 && self.items@[j] != *k implies kept@.contains(self.items@[j]) by {
                if j < i {
                    let w = choose|w: int| 0 <= w < before.len() && before[w] == self.items@[j];
                    assert(kept@[w] == self.items@[j]);
                } else {
                    assert(kept@[kept@.len() - 1] == x);
                }
            }
            i += 1;
        }
        assert forall|x: K| kept@.contains(x) <==> (self.items@.contains(x) && x != *k) by {
            if self.items@.contains(x) && x != *k {
                let j = choose|j: int| 0 <= j < self.items@.len() && self.items@[j] == x;
                assert(kept@.contains(self.items@[j]));
            }
        }
        self.items = kept;
        assert(self@ =~= old(self)@.remove(*k));
    }

    pub fn clear(&mut self)
        ensures
            final(self)@ == Set::<K>::empty(),
    {
        self.items = Vec::new();
        assert(self@ =~= Set::<K>::empty());
    }

    /// The members, each once.
    pub fn to_vec(&self) -> (r: Vec<K>)
        ensures
            forall|k: K| r@.contains(k) <==> self@.contains(k),
    {
        let mut r: Vec<K> = Vec::new();
        let mut i: usize = 0;
        while i < self.items.len()
            invariant
                i <= self.items.len(),
                r@ == self.items@.subrange(0, i as int),
            decreases self.items.len() - i,
        {
            r.push(self.items[i]);
            i += 1;
            assert(r@ =~= self.items@.subrange(0, i as int));
        }
        assert(r@ =~= self.items@);
        r
    }
}

impl<K: Key> Duplicate for KeySet<K> {
    fn duplicate(&self) -> (r: Self) {
        let items = self.to_vec();
        let r = KeySet { items };
        assert(r@ =~= self@);
        r
    }
}

/// A finite map from keys to values, stored as a vector of entries with
/// pairwise distinct keys. Its abstract value maps each key to the view of
/// its value.
pub struct KeyMap<K, V> {
    entries: Vec<(K, V)>,
}

spec fn distinct_keys<K, V>(s: Seq<(K, V)>) -> bool {
    forall|i: int, j: int| 0 <= i < s.len() && 0 <= j < s.len() && i != j ==> s[i].0 != s[j].0
}

spec fn has_key<K, V>(s: Seq<(K, V)>, k: K) -> bool {
    exists|i: int| 0 <= i < s.len() && s[i].0 == k
}

spec fn entries_view<K, V: View>(s: Seq<(K, V)>) -> Map<K, V::V> {
    Map::new(|k: K| has_key(s, k), |k: K| s[choose|i: int| 0 <= i < s.len() && s[i].0 == k].1@)
}

proof fn lemma_entry<K, V: View>(s: Seq<(K, V)>, i: int)
    requires
        distinct_keys(s),
        0 <= i < s.len(),
    ensures
        entries_view(s).contains_key(s[i].0),
        entries_view(s)[s[i].0] == s[i].1@,
{
    let k = s[i].0;
    assert(has_key(s, k));
    let j = choose|j: int| 0 <= j < s.len() && s[j].0 == k;
    assert(j == i);
}

impl<K, V> KeyMap<K, V> {
    #[verifier::type_invariant]
    spec fn keys_distinct(&self) -> bool {
        distinct_keys(self.entries@)
    }
}

impl<K, V: View> KeyMap<K, V> {
    /// The abstract value: each stored key mapped to the view of its value.
    pub closed spec fn map_view(&self) -> Map<K, V::V> {
        entries_view(self.entries@)
    }
}

impl<K, V: View> View for KeyMap<K, V> {
    type V = Map<K, V::V>;

    open spec fn view(&self) -> Map<K, V::V> {
        self.map_view()
    }
}

impl<K: Key, V: View> KeyMap<K, V> {
    pub fn new() -> (r: Self)
        ensures
            r@ == Map::<K, V::V>::empty(),
    {
        let r = KeyMap { entries: Vec::new() };
        assert(r@ =~= Map::<K, V::V>::empty());
        r
    }

    fn index_of(&self, k: &K) -> (r: Option<usize>)
        ensures
            match r {
                Some(i) => i < self.entries@.len() && self.entries@[i as int].0 == *k,
                None => !self@.contains_key(*k),
            },
    {
        let mut i: usize = 0;
        while i < self.entries.len()
            invariant
                i <= self.entries.len(),
                forall|j: int| 0 <= j < i ==> self.entries@[j].0 != *k,
            decreases self.entries.len() - i,
        {
            if self.entries[i].0.same(k) {
                return Some(i);
            }
            i += 1;
        }
        None
    }

    pub fn contains_key(&self, k: &K) -> (r: bool)
        ensures
            r == self@.contains_key(*k),
    {
        proof { use_type_invariant(self); }
        match self.index_of(k) {
            Some(i) => {
                proof { lemma_entry(self.entries@, i as int); }
                true
            },
            None => false,
        }
    }

    pub fn get(&self, k: &K) -> (r: Option<&V>)
        ensures
            match r {
                Some(v) => self@.contains_key(*k) && v@ == self@[*k],
                None => !self@.contains_key(*k),
            },
    {
        proof { use_type_invariant(self); }
        match self.index_of(k) {
            Some(i) => {
                proof { lemma_entry(self.entries@, i as int); }
                Some(&self.entries[i].1)
            },
            None => None,
        }
    }

    /// Removes the entry of `k` and hands its value back.
    pub fn take(&mut self, k: &K) -> (r: Option<V>)
        ensures
            final(self)@ == old(self)@.remove(*k),
            match r {
                Some(v) => old(self)@.contains_key(*k) && v@ == old(self)@[*k],
                None => !old(self)@.contains_key(*k),
            },
    {
        proof { use_type_invariant(&*self); }
        match self.index_of(k) {
            Some(i) => {
                proof { lemma_entry(self.entries@, i as int); }
                let ghost before = self.entries@;
                let mut entries: Vec<(K, V)> = Vec::new();
                std::mem::swap(&mut self.entries, &mut entries);
                let (_, v) = entries.remove(i);
                self.entries = entries;
                proof {
                    assert forall|a: int, b: int|
                        0 <= a < self.entries@.len() && 0 <= b < self.entries@.len() && a != b
                            implies self.entries@[a].0 != self.entries@[b].0 by {
                        let a0 = if a < i { a } else { a + 1 };
                        let b0 = if b < i { b } else { b + 1 };
                        assert(self.entries@[a] == before[a0]);
                        assert(self.entries@[b] == before[b0]);
                    }
                    assert forall|kk: K| has_key(self.entries@, kk) <==> has_key(before, kk) && kk != *k by {
                        if has_key(self.entries@, kk) {
                            let a = choose|a: int| 0 <= a < self.entries@.len() && self.entries@[a].0 == kk;
                            let a0 = if a < i { a } else { a + 1 };
                            assert(self.entries@[a] == before[a0]);
                        }
                        if has_key(before, kk) && kk != *k {
                            let a0 = choose|a: int| 0 <= a < before.len() && before[a].0 == kk;
                            let a = if a0 < i { a0 } else { a0 - 1 };
                            assert(self.entries@[a] == before[a0]);
                        }
                    }
                    assert forall|a: int| 0 <= a < self.entries@.len() implies
                        old(self)@.contains_key(self.entries@[a].0)
                        && old(self)@[self.entries@[a].0] == self.entries@[a].1@ by {
                        let a0 = if a < i { a } else { a + 1 };
                        assert(self.entries@[a] == before[a0]);
                        lemma_entry(before, a0);
                    }
                    assert forall|kk: K| self@.contains_key(kk) implies self@[kk] == old(self)@[kk] by {
                        let a = choose|a: int| 0 <= a < self.entries@.len() && self.entries@[a].0 == kk;
                        lemma_entry(self.entries@, a);
                    }
                    assert(self@ =~= old(self)@.remove(*k));
                }
                Some(v)
            },
            None => {
                assert(self@ =~= old(self)@.remove(*k));
                None
            },
        }
    }

    pub fn insert(&mut self, k: K, v: V)
        ensures
            final(self)@ == old(self)@.insert(k, v@),
    {
        let _ = self.take(&k);
        proof { use_type_invariant(&*self); }
        let ghost before = self.entries@;
        let ghost mid = self@;
        let mut entries: Vec<(K, V)> = Vec::new();
        std::mem::swap(&mut self.entries, &mut entries);
        entries.push((k, v));
        proof {
            assert(!entries_view(before).contains_key(k));
            assert forall|a: int, b: int|
                0 <= a < entries@.len() && 0 <= b < entries@.len() && a != b
                    implies entries@[a].0 != entries@[b].0 by {
                if a == before.len() {
                    assert(entries@[b] == before[b]);
                } else if b == before.len() {
                    assert(entries@[a] == before[a]);
                } else {
                    assert(entries@[a] == before[a]);
                    assert(entries@[b] == before[b]);
                }
            }
        }
        self.entries = entries;
        proof {
            lemma_entry(self.entries@, before.len() as int);
            assert forall|kk: K| self@.contains_key(kk) <==> mid.insert(k, v@).contains_key(kk) by {
                if has_key(self.entries@, kk) && kk != k {
                    let a = choose|a: int| 0 <= a < self.entries@.len() && self.entries@[a].0 == kk;
                    assert(self.entries@[a] == before[a]);
                    assert(has_key(before, kk));
                }
                if has_key(before, kk) {
                    let a = choose|a: int| 0 <= a < before.len() && before[a].0 == kk;
                    assert(self.entries@[a] == before[a]);
                }
            }
            assert forall|kk: K| self@.contains_key(kk) && kk != k implies self@[kk] == mid[kk] by {
                let a = choose|a: int| 0 <= a < self.entries@.len() && self.entries@[a].0 == kk;
                lemma_entry(self.entries@, a);
                assert(self.entries@[a] == before[a]);
                lemma_entry(before, a);
            }
            assert(self@ =~= mid.insert(k, v@));
            assert(mid.insert(k, v@) =~= old(self)@.insert(k, v@));
        }
    }

    /// The stored keys, each once.
    pub fn keys(&self) -> (r: Vec<K>)
        ensures
            forall|k: K| r@.contains(k) <==> self@.contains_key(k),
    {
        let mut r: Vec<K> = Vec::new();
        let mut i: usize = 0;
        while i < self.entries.len()
            invariant
                i <= self.entries.len(),
                r@.len() == i,
                forall|j: int| 0 <= j < i ==> r@[j] == self.entries@[j].0,
            decreases self.entries.len() - i,
        {
            r.push(self.entries[i].0);
            i += 1;
        }
        assert forall|k: K| r@.contains(k) <==> self@.contains_key(k) by {
            if has_key(self.entries@, k) {
                let j = choose|j: int| 0 <= j < self.entries@.len() && self.entries@[j].0 == k;
                assert(r@[j] == k);
            }
        }
        r
    }
}

impl<K: Key, V: Duplicate> Duplicate for KeyMap<K, V> {
    fn duplicate(&self) -> (r: Self) {
        proof { use_type_invariant(self); }
        let mut entries: Vec<(K, V)> = Vec::new();
        let mut i: usize = 0;
        while i < self.entries.len()
            invariant
                i <= self.entries.len(),
                entries@.len() == i,
                forall|j: int| 0 <= j < i ==> entries@[j].0 == self.entries@[j].0
                    && entries@[j].1@ == self.entries@[j].1@,
            decreases self.entries.len() - i,
        {
            let v = self.entries[i].1.duplicate();
            entries.push((self.entries[i].0, v));
            i += 1;
        }
        let r = KeyMap { entries };
        proof {
            assert forall|kk: K| has_key(r.entries@, kk) <==> has_key(self.entries@, kk) by {
                if has_key(r.entries@, kk) {
                    let a = choose|a: int| 0 <= a < r.entries@.len() && r.entries@[a].0 == kk;
                    assert(self.entries@[a].0 == kk);
                }
                if has_key(self.entries@, kk) {
                    let a = choose|a: int| 0 <= a < self.entries@.len() && self.entries@[a].0 == kk;
                    assert(r.entries@[a].0 == kk);
                }
            }
            assert forall|kk: K| r@.contains_key(kk) implies r@[kk] == self@[kk] by {
                let a = choose|a: int| 0 <= a < r.entries@.len() && r.entries@[a].0 == kk;
                lemma_entry(r.entries@, a);
                lemma_entry(self.entries@, a);
            }
            assert(r@ =~= self@);
        }
        r
    }
}

} // verus!
