//! A small map from strings to values, kept as a vector of distinct keys.
use vstd::prelude::*;
use crate::text::str_eq;

verus! {

/// Entries keyed by string; no key occurs twice.
pub struct KeyedVec<V> {
    entries: Vec<(String, V)>,
}

impl<V> KeyedVec<V> {
    /// The map the entries stand for.
    pub closed spec fn view(&self) -> Map<Seq<char>, V> {
        Map::new(
            |k: Seq<char>| exists|i: int| 0 <= i < self.entries@.len() && self.entries@[i].0@ == k,
            |k: Seq<char>| {
                let i = choose|i: int| 0 <= i < self.entries@.len() && self.entries@[i].0@ == k;
                self.entries@[i].1
            },
        )
    }

    /// No key occurs twice.
    pub closed spec fn wf(&self) -> bool {
        forall|i: int, j: int|
            0 <= i < self.entries@.len() && 0 <= j < self.entries@.len() && i != j
                ==> self.entries@[i].0@ != self.entries@[j].0@
    }

    proof fn lemma_view_at(&self, i: int)
        requires
            self.wf(),
            0 <= i < self.entries@.len(),
        ensures
            self.view().contains_key(self.entries@[i].0@),
            self.view()[self.entries@[i].0@] == self.entries@[i].1,
    {
        let k = self.entries@[i].0@;
        assert(self.view().dom().contains(k));
        let j = choose|j: int| 0 <= j < self.entries@.len() && self.entries@[j].0@ == k;
        assert(i == j);
    }

    /// An empty map.
    pub fn new() -> (m: KeyedVec<V>)
        ensures
            m.wf(),
            m.view() == Map::<Seq<char>, V>::empty(),
    {
        let m = KeyedVec { entries: Vec::new() };
        assert(m.view() =~= Map::<Seq<char>, V>::empty());
        m
    }

    /// Where `key` stands, if it is present.
    fn find(&self, key: &str) -> (r: Option<usize>)
        requires
            self.wf(),
        ensures
            r matches Some(i) ==> i < self.entries@.len() && self.entries@[i as int].0@ == key@,
            r is None ==> !self.view().contains_key(key@),
    {
        let mut i: usize = 0;
        while i < self.entries.len()
            invariant
                i <= self.entries@.len(),
                forall|j: int| 0 <= j < i ==> self.entries@[j].0@ != key@,
            decreases self.entries.len() - i,
        {
            if str_eq(self.entries[i].0.as_str(), key) {
                return Some(i);
            }
            i = i + 1;
        }
        assert(!self.view().contains_key(key@));
        None
    }

    /// Whether `key` is present.
    pub fn contains_key(&self, key: &str) -> (r: bool)
        requires
            self.wf(),
        ensures
            r == self.view().contains_key(key@),
    {
        match self.find(key) {
            Some(i) => {
                proof {
                    self.lemma_view_at(i as int);
                }
                true
            },
            None => false,
        }
    }

    /// The value under `key`.
    pub fn get(&self, key: &str) -> (r: Option<&V>)
        requires
            self.wf(),
        ensures
            r matches Some(v) ==> self.view().contains_key(key@) && self.view()[key@] == *v,
            r is None ==> !self.view().contains_key(key@),
    {
        match self.find(key) {
            Some(i) => {
                proof {
                    self.lemma_view_at(i as int);
                }
                Some(&self.entries[i].1)
            },
            None => None,
        }
    }

    /// Puts `value` under `key`, replacing what was there.
    pub fn insert(&mut self, key: String, value: V)
        requires
            old(self).wf(),
        ensures
            final(self).wf(),
            final(self).view() == old(self).view().insert(key@, value),
    {
        let ghost k = key@;
        match self.find(key.as_str()) {
            Some(i) => {
                let ghost pre = self.entries@;
                self.entries.set(i, (key, value));
                assert forall|kk: Seq<char>| #[trigger] self.view().contains_key(kk)
                    == old(self).view().insert(k, value).contains_key(kk) by {
                    if kk != k && old(self).view().contains_key(kk) {
                        let j = choose|j: int| 0 <= j < pre.len() && pre[j].0@ == kk;
                        assert(self.entries@[j].0@ == kk);
                    }
                    if self.view().contains_key(kk) && kk != k {
                        let j = choose|j: int| 0 <= j < self.entries@.len() && self.entries@[j].0@ == kk;
                        assert(pre[j].0@ == kk);
                    }
                    if kk == k {
                        assert(self.entries@[i as int].0@ == k);
                    }
                }
                assert forall|kk: Seq<char>| #[trigger] self.view().contains_key(kk)
                    implies self.view()[kk] == old(self).view().insert(k, value)[kk] by {
                    let j = choose|j: int| 0 <= j < self.entries@.len() && self.entries@[j].0@ == kk;
                    self.lemma_view_at(j);
                    if kk != k {
                        assert(pre[j] == self.entries@[j]);
                        old(self).lemma_view_at(j);
                    } else {
                        assert(j == i);
                    }
                }
                assert(self.view() =~= old(self).view().insert(k, value));
            },
            None => {
                let ghost pre = self.entries@;
                self.entries.push((key, value));
                assert forall|kk: Seq<char>| #[trigger] self.view().contains_key(kk)
                    == old(self).view().insert(k, value).contains_key(kk) by {
                    if kk != k && old(self).view().contains_key(kk) {
                        let j = choose|j: int| 0 <= j < pre.len() && pre[j].0@ == kk;
                        assert(self.entries@[j].0@ == kk);
                    }
                    if self.view().contains_key(kk) && kk != k {
                        let j = choose|j: int| 0 <= j < self.entries@.len() && self.entries@[j].0@ == kk;
                        assert(pre[j].0@ == kk);
                    }
                    if kk == k {
                        assert(self.entries@[pre.len() as int].0@ == k);
                    }
                }
                assert forall|kk: Seq<char>| #[trigger] self.view().contains_key(kk)
                    implies self.view()[kk] == old(self).view().insert(k, value)[kk] by {
                    let j = choose|j: int| 0 <= j < self.entries@.len() && self.entries@[j].0@ == kk;
                    self.lemma_view_at(j);
                    if kk != k {
                        assert(pre[j] == self.entries@[j]);
                        old(self).lemma_view_at(j);
                    } else {
                        assert(j == pre.len());
                    }
                }
                assert(self.view() =~= old(self).view().insert(k, value));
            },
        }
    }

    /// Takes out what is under `key`, if anything.
    pub fn remove(&mut self, key: &str) -> (r: Option<V>)
        requires
            old(self).wf(),
        ensures
            final(self).wf(),
            final(self).view() == old(self).view().remove(key@),
            r matches Some(v) ==> old(self).view().contains_key(key@) && old(self).view()[key@] == v,
            r is None ==> !old(self).view().contains_key(key@),
    {
        match self.find(key) {
            Some(i) => {
                proof {
                    self.lemma_view_at(i as int);
                }
                let ghost pre = self.entries@;
                let e = self.entries.remove(i);
                assert forall|kk: Seq<char>| #[trigger] self.view().contains_key(kk)
                    == old(self).view().remove(key@).contains_key(kk) by {
                    if kk != key@ && old(self).view().contains_key(kk) {
                        let j = choose|j: int| 0 <= j < pre.len() && pre[j].0@ == kk;
                        if j < i {
                            assert(self.entries@[j].0@ == kk);
                        } else {
                            assert(j != i);
                            assert(self.entries@[j - 1].0@ == kk);
                        }
                    }
                    if self.view().contains_key(kk) {
                        let j = choose|j: int| 0 <= j < self.entries@.len() && self.entries@[j].0@ == kk;
                        if j < i {
                            assert(pre[j].0@ == kk);
                        } else {
                            assert(pre[j + 1].0@ == kk);
                        }
                    }
                }
                assert forall|kk: Seq<char>| #[trigger] self.view().contains_key(kk)
                    implies self.view()[kk] == old(self).view().remove(key@)[kk] by {
                    let j = choose|j: int| 0 <= j < self.entries@.len() && self.entries@[j].0@ == kk;
                    self.lemma_view_at(j);
                    if j < i {
                        old(self).lemma_view_at(j);
                    } else {
                        old(self).lemma_view_at(j + 1);
                    }
                }
                assert(self.view() =~= old(self).view().remove(key@));
                Some(e.1)
            },
            None => {
                assert(self.view() =~= old(self).view().remove(key@));
                None
            },
        }
    }

    /// The keys, in insertion order.
    pub fn keys(&self) -> (r: Vec<String>)
        requires
            self.wf(),
        ensures
            forall|k: Seq<char>| self.view().contains_key(k) <==> exists|i: int|
                0 <= i < r@.len() && #[trigger] r@[i]@ == k,
            forall|i: int, j: int| 0 <= i < r@.len() && 0 <= j < r@.len() && i != j ==> r@[i]@ != r@[j]@,
    {
        let mut r: Vec<String> = Vec::new();
        let mut i: usize = 0;
        while i < self.entries.len()
            invariant
                i <= self.entries@.len(),
                r@.len() == i,
                forall|j: int| 0 <= j < i ==> #[trigger] r@[j]@ == self.entries@[j].0@,
            decreases self.entries.len() - i,
        {
            r.push(self.entries[i].0.clone());
            i = i + 1;
        }
        assert forall|k: Seq<char>| self.view().contains_key(k) <==> exists|i: int|
            0 <= i < r@.len() && #[trigger] r@[i]@ == k by {
            if self.view().contains_key(k) {
                let j = choose|j: int| 0 <= j < self.entries@.len() && self.entries@[j].0@ == k;
                assert(r@[j]@ == k);
            }
            if exists|i: int| 0 <= i < r@.len() && #[trigger] r@[i]@ == k {
                let j = choose|j: int| 0 <= j < r@.len() && #[trigger] r@[j]@ == k;
                assert(self.entries@[j].0@ == k);
            }
        }
        r
    }
}

} // verus!
