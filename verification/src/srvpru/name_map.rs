//! Values looked up by name.
use vstd::prelude::*;

verus! {

/// Values stored under distinct names; the order in which they were stored
/// carries no meaning.
#[derive(Debug)]
pub struct NameMap<V> {
    entries: Vec<(String, V)>,
}

impl<V: View> NameMap<V> {
    /// No name occurs twice.
    pub closed spec fn wf(&self) -> bool {
        forall|i: int, j: int|
            0 <= i < j < self.entries@.len() ==> #[trigger] self.entries@[i].0@ != #[trigger] self.entries@[j].0@
    }

    closed spec fn has(&self, k: Seq<char>) -> bool {
        exists|i: int| 0 <= i < self.entries@.len() && #[trigger] self.entries@[i].0@ == k
    }

    closed spec fn index_of(&self, k: Seq<char>) -> int {
        choose|i: int| 0 <= i < self.entries@.len() && #[trigger] self.entries@[i].0@ == k
    }

    /// The values by name.
    pub closed spec fn map(&self) -> Map<Seq<char>, V::V> {
        Map::new(|k: Seq<char>| self.has(k), |k: Seq<char>| self.entries@[self.index_of(k)].1@)
    }

    proof fn lemma_at(&self, i: int)
        requires
            self.wf(),
            0 <= i < self.entries@.len(),
        ensures
            self.map().contains_key(self.entries@[i].0@),
            self.map()[self.entries@[i].0@] == self.entries@[i].1@,
            self.index_of(self.entries@[i].0@) == i,
    {
        let k = self.entries@[i].0@;
        assert(self.has(k));
        let j = self.index_of(k);
        if j != i {
            if j < i {
                assert(self.entries@[j].0@ != self.entries@[i].0@);
            } else {
                assert(self.entries@[i].0@ != self.entries@[j].0@);
            }
        }
    }

    pub fn new() -> (r: NameMap<V>)
        ensures
            r.wf(),
            r.map() == Map::<Seq<char>, V::V>::empty(),
    {
        let r = NameMap { entries: Vec::new() };
        assert(r.map() =~= Map::<Seq<char>, V::V>::empty());
        r
    }

    fn find(&self, key: &String) -> (r: Option<usize>)
        requires
            self.wf(),
        ensures
            match r {
                None => !self.map().contains_key(key@),
                Some(i) => i < self.entries@.len() && self.entries@[i as int].0@ == key@,
            },
    {
        let mut i: usize = 0;
        while i < self.entries.len()
            invariant
                i <= self.entries@.len(),
                forall|j: int| 0 <= j < i ==> #[trigger] self.entries@[j].0@ != key@,
            decreases self.entries@.len() - i,
        {
            if self.entries[i].0 == *key {
                return Some(i);
            }
            i = i + 1;
        }
        None
    }

    /// The value stored under `key`, if any.
    pub fn get(&self, key: &String) -> (r: Option<&V>)
        requires
            self.wf(),
        ensures
            match r {
                None => !self.map().contains_key(key@),
                Some(v) => self.map().contains_key(key@) && self.map()[key@] == v@,
            },
    {
        match self.find(key) {
            None => None,
            Some(i) => {
                proof { self.lemma_at(i as int); }
                Some(&self.entries[i].1)
            },
        }
    }

    /// Whether a value is stored under `key`.
    pub fn contains_key(&self, key: &String) -> (r: bool)
        requires
            self.wf(),
        ensures
            r == self.map().contains_key(key@),
    {
        match self.find(key) {
            None => false,
            Some(i) => {
                proof { self.lemma_at(i as int); }
                true
            },
        }
    }

    /// Take the value stored under `key` out.
    pub fn remove(&mut self, key: &String) -> (r: Option<V>)
        requires
            old(self).wf(),
        ensures
            final(self).wf(),
            final(self).map() == old(self).map().remove(key@),
            match r {
                None => !old(self).map().contains_key(key@),
                Some(v) => old(self).map().contains_key(key@) && old(self).map()[key@] == v@,
            },
    {
        match self.find(key) {
            None => {
                assert(self.map() =~= old(self).map().remove(key@));
                None
            },
            Some(i) => {
                proof { self.lemma_at(i as int); }
                let ghost before = self.entries@;
                let (_, v) = self.entries.remove(i);
                assert forall|a: int, b: int| 0 <= a < b < self.entries@.len() implies
                    #[trigger] self.entries@[a].0@ != #[trigger] self.entries@[b].0@ by {
                    let a0 = if a < i { a } else { a + 1 };
                    let b0 = if b < i { b } else { b + 1 };
                    assert(self.entries@[a] == before[a0]);
                    assert(self.entries@[b] == before[b0]);
                    assert(a0 < b0);
                    assert(before[a0].0@ != before[b0].0@);
                }
                assert forall|k: Seq<char>| #[trigger] self.map().contains_key(k) == old(self).map().remove(key@).contains_key(k) by {
                    if self.has(k) {
                        let j = self.index_of(k);
                        let j0 = if j < i { j } else { j + 1 };
                        assert(before[j0].0@ == k);
                        assert(k != key@);
                        assert(old(self).has(k));
                    }
                    if old(self).has(k) && k != key@ {
                        let j0 = old(self).index_of(k);
                        assert(j0 != i);
                        let j = if j0 < i { j0 } else { j0 - 1 };
                        assert(self.entries@[j] == before[j0]);
                        assert(self.has(k));
                    }
                }
                assert forall|k: Seq<char>| #[trigger] self.map().contains_key(k) implies self.map()[k] == old(self).map()[k] by {
                    let j = self.index_of(k);
                    self.lemma_at(j);
                    let j0 = if j < i { j } else { j + 1 };
                    assert(self.entries@[j] == before[j0]);
                    old(self).lemma_at(j0);
                }
                assert(self.map() =~= old(self).map().remove(key@));
                Some(v)
            },
        }
    }

    /// Store `value` under `key`, in place of what was stored there.
    pub fn insert(&mut self, key: String, value: V)
        requires
            old(self).wf(),
        ensures
            final(self).wf(),
            final(self).map() == old(self).map().insert(key@, value@),
    {
        let _ = self.remove(&key);
        let ghost mid = self.map();
        let ghost before = self.entries@;
        assert(!mid.contains_key(key@));
        self.entries.push((key, value));
        let ghost n: int = self.entries@.len() - 1;
        assert forall|a: int, b: int| 0 <= a < b < self.entries@.len() implies
            #[trigger] self.entries@[a].0@ != #[trigger] self.entries@[b].0@ by {
            if b == n {
                assert(self.entries@[a] == before[a]);
                if before[a].0@ == key@ {
                    assert(mid.contains_key(key@));
                }
            } else {
                assert(self.entries@[a] == before[a]);
                assert(self.entries@[b] == before[b]);
            }
        }
        assert forall|k: Seq<char>| #[trigger] self.map().contains_key(k) == mid.insert(key@, value@).contains_key(k) by {
            if self.has(k) {
                let j = self.index_of(k);
                if j < n {
                    assert(self.entries@[j] == before[j]);
                }
            }
            if mid.contains_key(k) {
                let j = choose|j: int| 0 <= j < before.len() && #[trigger] before[j].0@ == k;
                assert(self.entries@[j] == before[j]);
            }
            if k == key@ {
                assert(self.entries@[n].0@ == k);
            }
        }
        assert forall|k: Seq<char>| #[trigger] self.map().contains_key(k) implies self.map()[k] == mid.insert(key@, value@)[k] by {
            let j = self.index_of(k);
            self.lemma_at(j);
            if j < n {
                assert(self.entries@[j] == before[j]);
            }
        }
        assert(self.map() =~= mid.insert(key@, value@));
        assert(mid.insert(key@, value@) =~= old(self).map().insert(key@, value@));
    }
}

} // verus!
