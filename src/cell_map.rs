//! A map keyed by grid cells, kept as a list of entries with distinct keys.
use vstd::prelude::*;
use crate::cell::DiscreteVec3;

verus! {

/// A finite map from cells to values.
pub struct CellMap<T> {
    entries: Vec<(DiscreteVec3, T)>,
    contents: Ghost<Map<DiscreteVec3, T>>,
}

impl<T> View for CellMap<T> {
    type V = Map<DiscreteVec3, T>;

    closed spec fn view(&self) -> Map<DiscreteVec3, T> {
        self.contents@
    }
}

impl<T> CellMap<T> {
    /// Keys of the entries are distinct, and the entries are exactly the map.
    pub closed spec fn wf(&self) -> bool {
        &&& forall|i: int, j: int|
            0 <= i < j < self.entries@.len() ==> (#[trigger] self.entries@[i]).0 != (
            #[trigger] self.entries@[j]).0
        &&& forall|i: int|
            0 <= i < self.entries@.len() ==> self.contents@.contains_key(
                (#[trigger] self.entries@[i]).0,
            ) && self.contents@[self.entries@[i].0] == self.entries@[i].1
        &&& forall|k: DiscreteVec3| #[trigger]
            self.contents@.contains_key(k) ==> exists|i: int|
                0 <= i < self.entries@.len() && (#[trigger] self.entries@[i]).0 == k
    }

    pub fn new() -> (r: CellMap<T>)
        ensures
            r.wf(),
            r@ == Map::<DiscreteVec3, T>::empty(),
    {
        CellMap { entries: Vec::new(), contents: Ghost(Map::empty()) }
    }

    fn find(&self, k: &DiscreteVec3) -> (r: Option<usize>)
        requires
            self.wf(),
        ensures
            match r {
                Some(i) => i < self.entries@.len() && self.entries@[i as int].0 == *k,
                None => !self@.contains_key(*k),
            },
    {
        let mut i: usize = 0;
        while i < self.entries.len()
            invariant
                self.wf(),
                i <= self.entries@.len(),
                forall|j: int| 0 <= j < i ==> (#[trigger] self.entries@[j]).0 != *k,
            decreases self.entries@.len() - i,
        {
            if self.entries[i].0 == *k {
                return Some(i);
            }
            i = i + 1;
        }
        None
    }

    pub fn contains_key(&self, k: &DiscreteVec3) -> (r: bool)
        requires
            self.wf(),
        ensures
            r == self@.contains_key(*k),
    {
        self.find(k).is_some()
    }

    pub fn get(&self, k: &DiscreteVec3) -> (r: Option<&T>)
        requires
            self.wf(),
        ensures
            r.is_some() == self@.contains_key(*k),
            r matches Some(v) ==> *v == self@[*k],
    {
        match self.find(k) {
            Some(i) => Some(&self.entries[i].1),
            None => None,
        }
    }

    /// Sets the value of `k`, replacing any earlier one.
    pub fn insert(&mut self, k: DiscreteVec3, v: T)
        requires
            old(self).wf(),
        ensures
            final(self).wf(),
            final(self)@ == old(self)@.insert(k, v),
    {
        match self.find(&k) {
            Some(i) => {
                self.entries.set(i, (k, v));
                self.contents = Ghost(self.contents@.insert(k, v));
                assert forall|k2: DiscreteVec3| #[trigger]
                    self.contents@.contains_key(k2) implies exists|j: int|
                        0 <= j < self.entries@.len() && (#[trigger] self.entries@[j]).0 == k2 by {
                    if k2 == k {
                        assert(self.entries@[i as int].0 == k2);
                    } else {
                        assert(old(self).contents@.contains_key(k2));
                        let j = choose|j: int|
                            0 <= j < old(self).entries@.len() && (#[trigger] old(self).entries@[j]).0
                                == k2;
                        assert(self.entries@[j].0 == k2);
                    }
                }
            },
            None => {
                self.entries.push((k, v));
                self.contents = Ghost(self.contents@.insert(k, v));
                let ghost n: int = self.entries@.len() - 1;
                assert(forall|i: int| 0 <= i < n ==> self.entries@[i] == old(self).entries@[i]);
                assert forall|i: int|
                    0 <= i < self.entries@.len() implies self.contents@.contains_key(
                        (#[trigger] self.entries@[i]).0,
                    ) && self.contents@[self.entries@[i].0] == self.entries@[i].1 by {
                    if i < n {
                        assert(old(self).entries@[i].0 != k);
                    }
                }
                assert forall|k2: DiscreteVec3| #[trigger]
                    self.contents@.contains_key(k2) implies exists|j: int|
                        0 <= j < self.entries@.len() && (#[trigger] self.entries@[j]).0 == k2 by {
                    if k2 == k {
                        assert(self.entries@[n].0 == k2);
                    } else {
                        assert(old(self).contents@.contains_key(k2));
                        let j = choose|j: int|
                            0 <= j < old(self).entries@.len() && (#[trigger] old(self).entries@[j]).0
                                == k2;
                        assert(self.entries@[j].0 == k2);
                    }
                }
            },
        }
    }

    /// Takes out the entry of `k`, returning its value if there was one.
    pub fn remove(&mut self, k: &DiscreteVec3) -> (r: Option<T>)
        requires
            old(self).wf(),
        ensures
            final(self).wf(),
            final(self)@ == old(self)@.remove(*k),
            r.is_some() == old(self)@.contains_key(*k),
            r matches Some(v) ==> v == old(self)@[*k],
    {
        match self.find(k) {
            Some(i) => {
                let e = self.entries.remove(i);
                self.contents = Ghost(self.contents@.remove(*k));
                let ghost o = old(self).entries@;
                assert(forall|j: int|
                    0 <= j < self.entries@.len() ==> #[trigger] self.entries@[j] == if j < i {
                        o[j]
                    } else {
                        o[j + 1]
                    });
                assert forall|a: int, b: int|
                    0 <= a < b < self.entries@.len() implies (#[trigger] self.entries@[a]).0 != (
                    #[trigger] self.entries@[b]).0 by {
                    let a2 = if a < i { a } else { a + 1 };
                    let b2 = if b < i { b } else { b + 1 };
                    assert(o[a2].0 != o[b2].0);
                }
                assert forall|j: int|
                    0 <= j < self.entries@.len() implies self.contents@.contains_key(
                        (#[trigger] self.entries@[j]).0,
                    ) && self.contents@[self.entries@[j].0] == self.entries@[j].1 by {
                    let j2 = if j < i { j } else { j + 1 };
                    assert(o[j2].0 != o[i as int].0);
                }
                assert forall|k2: DiscreteVec3| #[trigger]
                    self.contents@.contains_key(k2) implies exists|j: int|
                        0 <= j < self.entries@.len() && (#[trigger] self.entries@[j]).0 == k2 by {
                    assert(old(self).contents@.contains_key(k2));
                    let j = choose|j: int| 0 <= j < o.len() && (#[trigger] o[j]).0 == k2;
                    assert(j != i);
                    if j < i {
                        assert(self.entries@[j].0 == k2);
                    } else {
                        assert(self.entries@[j - 1].0 == k2);
                    }
                }
                Some(e.1)
            },
            None => {
                assert(self.contents@.remove(*k) =~= self.contents@);
                None
            },
        }
    }
}

} // verus!
