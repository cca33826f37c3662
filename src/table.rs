//! A table of groups keyed by name or by number, with unique keys.

use vstd::prelude::*;
use crate::group::{Group, GroupView};

verus! {

/// A key of a group table: a name or a number.
pub trait TableKey: Sized + View {
    /// Whether the two keys are the same.
    fn same(&self, other: &Self) -> (r: bool)
        ensures
            r == (self@ == other@),
    ;

    /// A copy of the key.
    fn duplicate(&self) -> (r: Self)
        ensures
            r@ == self@,
    ;
}

impl TableKey for String {
    fn same(&self, other: &Self) -> (r: bool) {
        *self == *other
    }

    fn duplicate(&self) -> (r: Self) {
        self.clone()
    }
}

impl TableKey for usize {
    fn same(&self, other: &Self) -> (r: bool) {
        *self == *other
    }

    fn duplicate(&self) -> (r: Self) {
        *self
    }
}

/// Groups keyed by `K`; no key occurs twice.
#[derive(Debug)]
pub struct GroupTable<K> {
    keys: Vec<K>,
    groups: Vec<Group>,
}

impl<K: TableKey> View for GroupTable<K> {
    type V = Map<K::V, GroupView>;

    closed spec fn view(&self) -> Map<K::V, GroupView> {
        Map::new(
            |k: K::V| exists|i: int| 0 <= i < self.keys@.len() && #[trigger] self.keys@[i]@ == k,
            |k: K::V|
                self.groups@[choose|i: int| 0 <= i < self.keys@.len() && #[trigger] self.keys@[i]@ == k]@,
        )
    }
}

impl<K: TableKey> GroupTable<K> {
    /// The table is well formed: one group per key, and no key twice.
    pub closed spec fn wf(&self) -> bool {
        &&& self.keys@.len() == self.groups@.len()
        &&& forall|i: int, j: int|
            0 <= i < j < self.keys@.len() ==> (#[trigger] self.keys@[i])@ != (#[trigger] self.keys@[j])@
    }

    proof fn lemma_entry(&self, i: int)
        requires
            self.wf(),
            0 <= i < self.keys@.len(),
        ensures
            self@.contains_key(self.keys@[i]@),
            self@[self.keys@[i]@] == self.groups@[i]@,
    {
        let k = self.keys@[i]@;
        assert(self@.contains_key(k));
        let j = choose|j: int| 0 <= j < self.keys@.len() && #[trigger] self.keys@[j]@ == k;
        assert(self.keys@[j]@ == k);
        if i < j {
            assert(self.keys@[i]@ != self.keys@[j]@);
        } else if j < i {
            assert(self.keys@[j]@ != self.keys@[i]@);
        }
    }

    /// An empty table.
    pub fn new() -> (r: Self)
        ensures
            r.wf(),
            r@ == Map::<K::V, GroupView>::empty(),
    {
        let r = GroupTable { keys: Vec::new(), groups: Vec::new() };
        assert(r@ =~= Map::<K::V, GroupView>::empty());
        r
    }

    /// The number of groups in the table.
    pub fn len(&self) -> (r: usize)
        requires
            self.wf(),
        ensures
            r == self@.len(),
    {
        proof {
            self.lemma_len();
        }
        self.keys.len()
    }

    proof fn lemma_len(&self)
        requires
            self.wf(),
        ensures
            self@.len() == self.keys@.len(),
            self@.dom().finite(),
        decreases self.keys@.len(),
    {
        let ks = self.keys@.map_values(|k: K| k@);
        assert(ks.no_duplicates()) by {
            assert forall|i: int, j: int| 0 <= i < ks.len() && 0 <= j < ks.len() && i != j
                implies ks[i] != ks[j] by {
                if i < j {
                    assert(self.keys@[i]@ != self.keys@[j]@);
                } else {
                    assert(self.keys@[j]@ != self.keys@[i]@);
                }
            }
        }
        assert(self@.dom() =~= ks.to_set()) by {
            assert forall|k: K::V| self@.dom().contains(k) implies ks.to_set().contains(k) by {
                let i = choose|i: int| 0 <= i < self.keys@.len() && #[trigger] self.keys@[i]@ == k;
                assert(ks[i] == k);
            }
            assert forall|k: K::V| ks.to_set().contains(k) implies self@.dom().contains(k) by {
                let i = choose|i: int| 0 <= i < ks.len() && ks[i] == k;
                assert(self.keys@[i]@ == k);
            }
        }
        ks.unique_seq_to_set();
    }

    /// The position of `key` in the table, if it is there.
    fn find(&self, key: &K) -> (r: Option<usize>)
        requires
            self.wf(),
        ensures
            r is None <==> !self@.contains_key(key@),
            r matches Some(i) ==> i < self.keys@.len() && self.keys@[i as int]@ == key@,
    {
        let mut i: usize = 0;
        while i < self.keys.len()
            invariant
                self.wf(),
                i <= self.keys@.len(),
                forall|j: int| 0 <= j < i ==> (#[trigger] self.keys@[j])@ != key@,
            decreases self.keys@.len() - i,
        {
            if self.keys[i].same(key) {
                return Some(i);
            }
            i = i + 1;
        }
        None
    }

    /// The keys of the table, each once.
    pub fn keys(&self) -> (r: &Vec<K>)
        requires
            self.wf(),
        ensures
            r@.len() == self@.len(),
            forall|i: int| 0 <= i < r@.len() ==> self@.contains_key(#[trigger] r@[i]@),
            forall|k: K::V| #[trigger] self@.contains_key(k) ==> exists|i: int| 0 <= i < r@.len() && r@[i]@ == k,
    {
        proof {
            self.lemma_len();
            assert forall|i: int| 0 <= i < self.keys@.len() implies self@.contains_key(#[trigger] self.keys@[i]@) by {
                self.lemma_entry(i);
            }
        }
        &self.keys
    }

    /// The group stored under `key`, if any.
    pub fn get(&self, key: &K) -> (r: Option<&Group>)
        requires
            self.wf(),
        ensures
            r is Some <==> self@.contains_key(key@),
            r matches Some(g) ==> g@ == self@[key@],
    {
        match self.find(key) {
            Some(i) => {
                proof {
                    self.lemma_entry(i as int);
                }
                Some(&self.groups[i])
            },
            None => None,
        }
    }

    /// Removes the group stored under `key` and hands it back, if there is one.
    pub fn take(&mut self, key: &K) -> (r: Option<Group>)
        requires
            old(self).wf(),
        ensures
            final(self).wf(),
            r is Some <==> old(self)@.contains_key(key@),
            r matches Some(g) ==> g@ == old(self)@[key@],
            final(self)@ == old(self)@.remove(key@),
    {
        match self.find(key) {
            None => {
                assert(self@ =~= self@.remove(key@));
                None
            },
            Some(i) => {
                let ghost before = *self;
                proof {
                    before.lemma_entry(i as int);
                }
                self.keys.remove(i);
                let g = self.groups.remove(i);
                proof {
                    let ok = before.keys@;
                    let og = before.groups@;
                    assert forall|a: int, b: int| 0 <= a < b < self.keys@.len() implies
                        (#[trigger] self.keys@[a])@ != (#[trigger] self.keys@[b])@ by {
                        let oa = if a < i { a } else { a + 1 };
                        let ob = if b < i { b } else { b + 1 };
                        assert(self.keys@[a] == ok[oa]);
                        assert(self.keys@[b] == ok[ob]);
                        assert(ok[oa]@ != ok[ob]@);
                    }
                    assert forall|k: K::V| #[trigger] self@.contains_key(k) == before@.remove(key@).contains_key(k)
                        && (self@.contains_key(k) ==> self@[k] == before@.remove(key@)[k]) by {
                        if self@.contains_key(k) {
                            let a = choose|a: int| 0 <= a < self.keys@.len() && #[trigger] self.keys@[a]@ == k;
                            let oa = if a < i { a } else { a + 1 };
                            assert(self.keys@[a] == ok[oa]);
                            assert(self.groups@[a] == og[oa]);
                            self.lemma_entry(a);
                            before.lemma_entry(oa);
                            if oa < i {
                                assert(ok[oa]@ != ok[i as int]@);
                            } else {
                                assert(ok[i as int]@ != ok[oa]@);
                            }
                        }
                        if before@.remove(key@).contains_key(k) {
                            let b = choose|b: int| 0 <= b < ok.len() && #[trigger] ok[b]@ == k;
                            assert(b != i);
                            let a = if b < i { b } else { b - 1 };
                            assert(self.keys@[a] == ok[b]);
                        }
                    }
                    assert(self@ =~= before@.remove(key@));
                }
                Some(g)
            },
        }
    }

    /// Stores `group` under `key`, which is not in the table yet.
    pub fn insert_new(&mut self, key: K, group: Group)
        requires
            old(self).wf(),
            !old(self)@.contains_key(key@),
        ensures
            final(self).wf(),
            final(self)@ == old(self)@.insert(key@, group@),
    {
        let ghost before = *self;
        let ghost kv = key@;
        let ghost gv = group@;
        self.keys.push(key);
        self.groups.push(group);
        proof {
            let n = before.keys@.len() as int;
            assert forall|a: int, b: int| 0 <= a < b < self.keys@.len() implies
                (#[trigger] self.keys@[a])@ != (#[trigger] self.keys@[b])@ by {
                assert(self.keys@[a] == before.keys@[a]);
                if b < n {
                    assert(self.keys@[b] == before.keys@[b]);
                } else {
                    assert(before@.contains_key(self.keys@[a]@)) by {
                        before.lemma_entry(a);
                    }
                }
            }
            assert forall|k: K::V| #[trigger] self@.contains_key(k) == before@.insert(kv, gv).contains_key(k)
                && (self@.contains_key(k) ==> self@[k] == before@.insert(kv, gv)[k]) by {
                if self@.contains_key(k) {
                    let a = choose|a: int| 0 <= a < self.keys@.len() && #[trigger] self.keys@[a]@ == k;
                    self.lemma_entry(a);
                    if a < n {
                        assert(self.keys@[a] == before.keys@[a]);
                        before.lemma_entry(a);
                    } else {
                        assert(self.keys@[a]@ == kv);
                    }
                }
                if before@.contains_key(k) {
                    let b = choose|b: int| 0 <= b < n && #[trigger] before.keys@[b]@ == k;
                    assert(self.keys@[b] == before.keys@[b]);
                }
                if k == kv {
                    assert(self.keys@[n]@ == kv);
                }
            }
            assert(self@ =~= before@.insert(kv, gv));
        }
    }
}

} // verus!
