//! A small association table keyed by a protocol object id. The tracker keeps
//! one per protocol: object ids are assigned per connection, so a plain
//! unsigned key suffices. Keys are unique; lookup finds the entry for a key,
//! `set` replaces or appends, `remove_key` deletes.

use vstd::prelude::*;

verus! {

pub struct KeyedEntry<V> {
    pub key: u32,
    pub value: V,
}

/// First index whose entry has key `k`, if any.
pub open spec fn key_index<V>(s: Seq<KeyedEntry<V>>, k: u32) -> Option<int>
    decreases s.len(),
{
    if s.len() == 0 {
        Option::None
    } else if s[0].key == k {
        Option::Some(0)
    } else {
        match key_index(s.subrange(1, s.len() as int), k) {
            Option::None => Option::None,
            Option::Some(i) => Option::Some(i + 1),
        }
    }
}

pub proof fn lemma_key_index_first<V>(s: Seq<KeyedEntry<V>>, k: u32, i: int)
    requires
        0 <= i < s.len(),
        s[i].key == k,
        forall|j: int| 0 <= j < i ==> (#[trigger] s[j]).key != k,
    ensures
        key_index(s, k) == Option::Some(i),
    decreases s.len(),
{
    if i == 0 {
    } else {
        let t = s.subrange(1, s.len() as int);
        assert(forall|j: int| 0 <= j < i - 1 ==> #[trigger] t[j] == s[j + 1]);
        lemma_key_index_first(t, k, i - 1);
    }
}

pub proof fn lemma_key_index_none<V>(s: Seq<KeyedEntry<V>>, k: u32)
    requires
        forall|j: int| 0 <= j < s.len() ==> (#[trigger] s[j]).key != k,
    ensures
        key_index(s, k) is None,
    decreases s.len(),
{
    if s.len() == 0 {
    } else {
        let t = s.subrange(1, s.len() as int);
        assert(forall|j: int| 0 <= j < t.len() ==> #[trigger] t[j] == s[j + 1]);
        lemma_key_index_none(t, k);
    }
}

pub proof fn lemma_key_index_valid<V>(s: Seq<KeyedEntry<V>>, k: u32)
    ensures
        key_index(s, k) matches Option::Some(i) ==> 0 <= i < s.len() && s[i].key == k,
    decreases s.len(),
{
    if s.len() == 0 {
    } else if s[0].key == k {
    } else {
        lemma_key_index_valid(s.subrange(1, s.len() as int), k);
    }
}

pub struct KeyedTable<V> {
    pub entries: Vec<KeyedEntry<V>>,
}

impl<V> KeyedTable<V> {
    /// Keys are pairwise distinct.
    pub open spec fn wf(self) -> bool {
        forall|i: int, j: int|
            0 <= i < j < self.entries@.len() ==> (#[trigger] self.entries@[i]).key != (
            #[trigger] self.entries@[j]).key
    }

    pub open spec fn spec_get(self, k: u32) -> Option<V> {
        match key_index(self.entries@, k) {
            Option::None => Option::None,
            Option::Some(i) => Option::Some(self.entries@[i].value),
        }
    }

    pub open spec fn contains_key(self, k: u32) -> bool {
        key_index(self.entries@, k) is Some
    }

    pub fn new() -> (r: Self)
        ensures
            r.wf(),
            r.entries@ == Seq::<KeyedEntry<V>>::empty(),
    {
        KeyedTable { entries: Vec::new() }
    }

    pub fn len(&self) -> (n: usize)
        ensures
            n == self.entries@.len(),
    {
        self.entries.len()
    }

    /// Index of the entry with key `k`, scanning from the front.
    fn index_of(&self, k: u32) -> (r: Option<usize>)
        ensures
            r matches Option::Some(i) ==> key_index(self.entries@, k) == Option::Some(i as int),
            r is None ==> key_index(self.entries@, k) is None,
    {
        let n = self.entries.len();
        let mut i: usize = 0;
        while i < n
            invariant
                n == self.entries@.len(),
                0 <= i <= n,
                forall|j: int| 0 <= j < i ==> (#[trigger] self.entries@[j]).key != k,
            decreases n - i,
        {
            if self.entries[i].key == k {
                proof {
                    lemma_key_index_first(self.entries@, k, i as int);
                }
                return Option::Some(i);
            }
            i = i + 1;
        }
        proof {
            lemma_key_index_none(self.entries@, k);
        }
        Option::None
    }

    pub fn get(&self, k: u32) -> (r: Option<&V>)
        ensures
            match (r, self.spec_get(k)) {
                (Option::Some(v), Option::Some(sv)) => *v == sv,
                (Option::None, Option::None) => true,
                _ => false,
            },
    {
        match self.index_of(k) {
            Option::Some(i) => {
                proof {
                    lemma_key_index_valid(self.entries@, k);
                }
                Option::Some(&self.entries[i].value)
            },
            Option::None => Option::None,
        }
    }

    /// Inserts or replaces the value stored for `k`.
    pub fn set(&mut self, k: u32, v: V)
        requires
            old(self).wf(),
        ensures
            final(self).wf(),
            final(self).spec_get(k) == Option::Some(v),
            match key_index(old(self).entries@, k) {
                Option::Some(i) => final(self).entries@ == old(self).entries@.update(
                    i,
                    KeyedEntry { key: k, value: v },
                ),
                Option::None => final(self).entries@ == old(self).entries@.push(
                    KeyedEntry { key: k, value: v },
                ),
            },
            forall|k2: u32| k2 != k ==> final(self).spec_get(k2) == old(self).spec_get(k2),
    {
        let ghost s0 = self.entries@;
        match self.index_of(k) {
            Option::Some(i) => {
                proof {
                    lemma_key_index_valid(self.entries@, k);
                }
                self.entries.set(i, KeyedEntry { key: k, value: v });
                proof {
                    let i = i as int;
                    let s1 = self.entries@;
                    assert(s1 =~= s0.update(i, KeyedEntry { key: k, value: v }));
                    assert forall|a: int, b: int| 0 <= a < b < s1.len() implies (
                    #[trigger] s1[a]).key != (#[trigger] s1[b]).key by {
                        assert(s0[a].key == s1[a].key && s0[b].key == s1[b].key);
                    }
                    assert(forall|j: int| 0 <= j < i ==> (#[trigger] s1[j]).key != k);
                    lemma_key_index_first(s1, k, i);
                    assert forall|k2: u32| k2 != k implies final(self).spec_get(k2) == old(
                        self,
                    ).spec_get(k2) by {
                        lemma_key_index_same(s0, s1, k2);
                    }
                }
            },
            Option::None => {
                proof {
                    lemma_key_index_valid(self.entries@, k);
                    assert forall|j: int| 0 <= j < s0.len() implies (#[trigger] s0[j]).key != k by {
                        if s0[j].key == k {
                            lemma_first_with_key(s0, k, j);
                            lemma_key_index_first(s0, k, first_with_key(s0, k, j));
                        }
                    }
                }
                self.entries.push(KeyedEntry { key: k, value: v });
                proof {
                    let s1 = self.entries@;
                    lemma_key_index_first(s1, k, s1.len() - 1);
                    assert forall|k2: u32| k2 != k implies final(self).spec_get(k2) == old(
                        self,
                    ).spec_get(k2) by {
                        lemma_key_index_same(s0, s1, k2);
                    }
                }
            },
        }
    }

    /// Removes the entry stored for `k`, returning whether one was present.
    pub fn remove_key(&mut self, k: u32) -> (r: bool)
        requires
            old(self).wf(),
        ensures
            final(self).wf(),
            r == old(self).contains_key(k),
            final(self).spec_get(k) is None,
            match key_index(old(self).entries@, k) {
                Option::Some(i) => final(self).entries@ == old(self).entries@.remove(i),
                Option::None => final(self).entries@ == old(self).entries@,
            },
            forall|k2: u32| k2 != k ==> final(self).spec_get(k2) == old(self).spec_get(k2),
    {
        let ghost s0 = self.entries@;
        match self.index_of(k) {
            Option::Some(i) => {
                proof {
                    lemma_key_index_valid(self.entries@, k);
                }
                let _removed = self.entries.remove(i);
                proof {
                    let i = i as int;
                    let s1 = self.entries@;
                    s0.remove_ensures(i);
                    assert forall|a: int, b: int| 0 <= a < b < s1.len() implies (
                    #[trigger] s1[a]).key != (#[trigger] s1[b]).key by {
                        let a0: int = if a < i {
                            a
                        } else {
                            a + 1
                        };
                        let b0: int = if b < i {
                            b
                        } else {
                            b + 1
                        };
                        assert(s1[a] == s0[a0] && s1[b] == s0[b0]);
                    }
                    assert forall|j: int| 0 <= j < s1.len() implies (#[trigger] s1[j]).key != k by {
                        let j0: int = if j < i {
                            j
                        } else {
                            j + 1
                        };
                        assert(s1[j] == s0[j0]);
                    }
                    lemma_key_index_none(s1, k);
                    assert forall|k2: u32| k2 != k implies final(self).spec_get(k2) == old(
                        self,
                    ).spec_get(k2) by {
                        lemma_key_index_spec(s0, k2);
                        match key_index(s0, k2) {
                            Option::Some(i2) => {
                                if i2 < i {
                                    assert(s1[i2] == s0[i2]);
                                    assert(forall|j: int|
                                        0 <= j < i2 ==> #[trigger] s1[j] == s0[j]);
                                    lemma_key_index_first(s1, k2, i2);
                                } else {
                                    assert(i2 > i);
                                    assert(s1[i2 - 1] == s0[i2]);
                                    assert forall|j: int| 0 <= j < i2 - 1 implies (
                                    #[trigger] s1[j]).key != k2 by {
                                        let j0: int = if j < i {
                                            j
                                        } else {
                                            j + 1
                                        };
                                        assert(s1[j] == s0[j0]);
                                    }
                                    lemma_key_index_first(s1, k2, i2 - 1);
                                }
                            },
                            Option::None => {
                                assert forall|j: int| 0 <= j < s1.len() implies (
                                #[trigger] s1[j]).key != k2 by {
                                    let j0: int = if j < i {
                                        j
                                    } else {
                                        j + 1
                                    };
                                    assert(s1[j] == s0[j0]);
                                }
                                lemma_key_index_none(s1, k2);
                            },
                        }
                    }
                }
                true
            },
            Option::None => {
                false
            },
        }
    }
}

/// The least index at or below `j` holding key `k` (helper for proofs).
pub open spec fn first_with_key<V>(s: Seq<KeyedEntry<V>>, k: u32, j: int) -> int
    decreases j,
{
    if exists|i: int| 0 <= i < j && (#[trigger] s[i]).key == k {
        first_with_key(s, k, choose|i: int| 0 <= i < j && (#[trigger] s[i]).key == k)
    } else {
        j
    }
}

pub proof fn lemma_first_with_key<V>(s: Seq<KeyedEntry<V>>, k: u32, j: int)
    requires
        0 <= j < s.len(),
        s[j].key == k,
    ensures
        0 <= first_with_key(s, k, j) <= j,
        s[first_with_key(s, k, j)].key == k,
        forall|i: int| 0 <= i < first_with_key(s, k, j) ==> (#[trigger] s[i]).key != k,
    decreases j,
{
    if exists|i: int| 0 <= i < j && (#[trigger] s[i]).key == k {
        let w = choose|i: int| 0 <= i < j && (#[trigger] s[i]).key == k;
        lemma_first_with_key(s, k, w);
    }
}

/// Two tables that agree on which entries hold a key `k` and on those
/// entries' positions and values agree on `spec_get(k)`.
proof fn lemma_key_index_same<V>(s0: Seq<KeyedEntry<V>>, s1: Seq<KeyedEntry<V>>, k: u32)
    requires
        forall|j: int|
            0 <= j < s0.len() && (#[trigger] s0[j]).key == k ==> j < s1.len() && s1[j] == s0[j],
        forall|j: int|
            0 <= j < s1.len() && (#[trigger] s1[j]).key == k ==> j < s0.len() && s0[j] == s1[j],
    ensures
        key_index_value(s0, k) == key_index_value(s1, k),
{
    match key_index(s0, k) {
        Option::Some(i0) => {
            lemma_key_index_spec(s0, k);
            lemma_key_index_first(s1, k, i0);
        },
        Option::None => {
            lemma_key_index_spec(s0, k);
            assert forall|j: int| 0 <= j < s1.len() implies (#[trigger] s1[j]).key != k by {
                if s1[j].key == k {
                    assert(s0[j] == s1[j]);
                }
            }
            lemma_key_index_none(s1, k);
        },
    }
}

/// The value stored at the key's entry, if any.
pub open spec fn key_index_value<V>(s: Seq<KeyedEntry<V>>, k: u32) -> Option<V> {
    match key_index(s, k) {
        Option::None => Option::None,
        Option::Some(i) => Option::Some(s[i].value),
    }
}

/// Characterization of `key_index`: it is the first index holding the key.
pub proof fn lemma_key_index_spec<V>(s: Seq<KeyedEntry<V>>, k: u32)
    ensures
        match key_index(s, k) {
            Option::Some(i) => 0 <= i < s.len() && s[i].key == k && forall|j: int|
                0 <= j < i ==> (#[trigger] s[j]).key != k,
            Option::None => forall|j: int| 0 <= j < s.len() ==> (#[trigger] s[j]).key != k,
        },
    decreases s.len(),
{
    if s.len() == 0 {
    } else if s[0].key == k {
    } else {
        let t = s.subrange(1, s.len() as int);
        lemma_key_index_spec(t, k);
        assert(forall|j: int| 0 <= j < t.len() ==> #[trigger] t[j] == s[j + 1]);
        assert(forall|j: int| 1 <= j < s.len() ==> #[trigger] s[j] == t[j - 1]);
    }
}

} // verus!
