//! A string-keyed association map.
//!
//! Texture caches and image tables map names (strings) to entries.  The map
//! is a vector of key/value pairs with pairwise-distinct keys; its
//! specification is stated over the pair sequence, with lookup defined by
//! the (unique) index of a key.

use vstd::prelude::*;

verus! {

/// Whether the keys of the pair sequence are pairwise distinct.
pub open spec fn keys_unique<V>(s: Seq<(String, V)>) -> bool {
    forall|i: int, j: int| 0 <= i < j < s.len() ==> (#[trigger] s[i]).0@ != (#[trigger] s[j]).0@
}

/// Whether some pair of `s` has key `k`.
pub open spec fn map_has<V>(s: Seq<(String, V)>, k: Seq<char>) -> bool {
    exists|i: int| 0 <= i < s.len() && (#[trigger] s[i]).0@ == k
}

/// The index of the pair with key `k`; meaningful when `map_has(s, k)` and
/// the keys are pairwise distinct.
pub open spec fn map_idx<V>(s: Seq<(String, V)>, k: Seq<char>) -> int {
    choose|i: int| 0 <= i < s.len() && (#[trigger] s[i]).0@ == k
}

/// The value associated with key `k`; meaningful when `map_has(s, k)`.
pub open spec fn map_get<V>(s: Seq<(String, V)>, k: Seq<char>) -> V {
    s[map_idx(s, k)].1
}

/// Under pairwise-distinct keys, any index whose pair has key `k` is the
/// index that lookup uses.
pub proof fn lemma_idx_unique<V>(s: Seq<(String, V)>, k: Seq<char>, i: int)
    requires
        keys_unique(s),
        0 <= i < s.len(),
        s[i].0@ == k,
    ensures
        map_has(s, k),
        map_idx(s, k) == i,
        map_get(s, k) == s[i].1,
{
    assert(map_has(s, k));
    let j = map_idx(s, k);
    if i < j {
        assert(s[i].0@ != s[j].0@);
    } else if j < i {
        assert(s[j].0@ != s[i].0@);
    }
}

/// Whether `s1` is `s0` with the entry for key `k` set to `v`: replaced in
/// place if the key was present, appended otherwise.
pub open spec fn upserted<V>(s0: Seq<(String, V)>, s1: Seq<(String, V)>, k: String, v: V) -> bool {
    if map_has(s0, k@) {
        s1 == s0.update(map_idx(s0, k@), (s0[map_idx(s0, k@)].0, v))
    } else {
        s1 == s0.push((k, v))
    }
}

/// A map from string keys to values, with pairwise-distinct keys.
pub struct StrMap<V> {
    pub pairs: Vec<(String, V)>,
}

impl<V> StrMap<V> {
    /// Whether the map's keys are pairwise distinct.
    pub open spec fn wf(&self) -> bool {
        keys_unique(self.pairs@)
    }

    /// Whether the map has an entry with key `k`.
    pub open spec fn has(&self, k: Seq<char>) -> bool {
        map_has(self.pairs@, k)
    }

    /// The value of the entry with key `k`.
    pub open spec fn spec_get(&self, k: Seq<char>) -> V {
        map_get(self.pairs@, k)
    }

    /// The empty map.
    pub fn new() -> (r: Self)
        ensures
            r.pairs@.len() == 0,
            r.wf(),
    {
        StrMap { pairs: Vec::new() }
    }

    /// The number of entries.
    pub fn len(&self) -> (r: usize)
        ensures
            r == self.pairs@.len(),
    {
        self.pairs.len()
    }

    /// The index of the entry with key `k`, if one exists.
    pub fn find(&self, k: &String) -> (r: Option<usize>)
        requires
            self.wf(),
        ensures
            match r {
                Some(i) => i < self.pairs@.len() && self.pairs@[i as int].0@ == k@ && self.has(k@)
                    && map_idx(self.pairs@, k@) == i,
                None => !self.has(k@),
            },
    {
        let mut i: usize = 0;
        let n = self.pairs.len();
        while i < n
            invariant
                self.wf(),
                n == self.pairs@.len(),
                0 <= i <= n,
                forall|j: int| 0 <= j < i ==> (#[trigger] self.pairs@[j]).0@ != k@,
            decreases n - i,
        {
            if self.pairs[i].0 == *k {
                proof {
                    lemma_idx_unique(self.pairs@, k@, i as int);
                }
                return Some(i);
            }
            i = i + 1;
        }
        None
    }

    /// Whether the map has an entry with key `k`.
    pub fn contains(&self, k: &String) -> (r: bool)
        requires
            self.wf(),
        ensures
            r == self.has(k@),
    {
        match self.find(k) {
            Some(_) => true,
            None => false,
        }
    }

    /// The value of the entry with key `k`, if one exists.
    pub fn get(&self, k: &String) -> (r: Option<&V>)
        requires
            self.wf(),
        ensures
            match r {
                Some(v) => self.has(k@) && *v == self.spec_get(k@),
                None => !self.has(k@),
            },
    {
        match self.find(k) {
            Some(i) => Some(&self.pairs[i].1),
            None => None,
        }
    }

    /// Appends an entry with a key not yet present.
    pub fn insert_new(&mut self, k: String, v: V)
        requires
            old(self).wf(),
            !old(self).has(k@),
        ensures
            final(self).pairs@ == old(self).pairs@.push((k, v)),
            final(self).wf(),
            final(self).has(k@),
            final(self).spec_get(k@) == v,
    {
        self.pairs.push((k, v));
        proof {
            let s = self.pairs@;
            assert forall|i: int, j: int| 0 <= i < j < s.len() implies (#[trigger] s[i]).0@ != (
            #[trigger] s[j]).0@ by {
                if j < s.len() - 1 {
                    assert(old(self).pairs@[i].0@ != old(self).pairs@[j].0@);
                } else {
                    assert(s[i] == old(self).pairs@[i]);
                    assert(!map_has(old(self).pairs@, s[j].0@));
                }
            }
            lemma_idx_unique(s, s[s.len() - 1].0@, s.len() - 1);
        }
    }

    /// Replaces the value of the entry at index `i`, keeping its key.
    pub fn set_at(&mut self, i: usize, v: V)
        requires
            old(self).wf(),
            i < old(self).pairs@.len(),
        ensures
            final(self).pairs@ == old(self).pairs@.update(
                i as int,
                (old(self).pairs@[i as int].0, v),
            ),
            final(self).wf(),
    {
        let prev = self.pairs.remove(i);
        self.pairs.insert(i, (prev.0, v));
        proof {
            assert(self.pairs@ =~= old(self).pairs@.update(
                i as int,
                (old(self).pairs@[i as int].0, v),
            ));
        }
    }

    /// The entry at index `i`.
    pub fn at(&self, i: usize) -> (r: &(String, V))
        requires
            i < self.pairs@.len(),
        ensures
            *r == self.pairs@[i as int],
    {
        &self.pairs[i]
    }

    /// Inserts an entry, replacing the value (and keeping the key and its
    /// position) if the key is already present.
    pub fn upsert(&mut self, k: String, v: V)
        requires
            old(self).wf(),
        ensures
            final(self).wf(),
            upserted(old(self).pairs@, final(self).pairs@, k, v),
            final(self).has(k@),
            final(self).spec_get(k@) == v,
    {
        match self.find(&k) {
            Some(i) => {
                self.set_at(i, v);
                proof {
                    lemma_idx_unique(self.pairs@, k@, i as int);
                }
            },
            None => {
                self.insert_new(k, v);
            },
        }
    }

    /// Removes the entry with key `k`, if one exists.
    pub fn remove_by_key(&mut self, k: &String) -> (removed: bool)
        requires
            old(self).wf(),
        ensures
            final(self).wf(),
            removed == old(self).has(k@),
            old(self).has(k@) ==> final(self).pairs@ == old(self).pairs@.remove(
                map_idx(old(self).pairs@, k@),
            ) && !final(self).has(k@),
            !old(self).has(k@) ==> *final(self) == *old(self),
    {
        match self.find(k) {
            Some(i) => {
                self.remove_at(i);
                true
            },
            None => false,
        }
    }

    /// Removes the entry at index `i`.
    pub fn remove_at(&mut self, i: usize) -> (r: (String, V))
        requires
            old(self).wf(),
            i < old(self).pairs@.len(),
        ensures
            r == old(self).pairs@[i as int],
            final(self).pairs@ == old(self).pairs@.remove(i as int),
            final(self).wf(),
            !final(self).has(r.0@),
    {
        let r = self.pairs.remove(i);
        proof {
            let s = self.pairs@;
            let olds = old(self).pairs@;
            assert forall|a: int, b: int| 0 <= a < b < s.len() implies (#[trigger] s[a]).0@ != (
            #[trigger] s[b]).0@ by {
                let a0 = if a < i { a } else { a + 1 };
                let b0 = if b < i { b } else { b + 1 };
                assert(olds[a0].0@ != olds[b0].0@);
            }
            assert forall|a: int| 0 <= a < s.len() implies (#[trigger] s[a]).0@ != r.0@ by {
                let a0 = if a < i { a } else { a + 1 };
                assert(olds[a0].0@ != olds[i as int].0@);
            }
        }
        r
    }
}

} // verus!
