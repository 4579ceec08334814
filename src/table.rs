use vstd::prelude::*;
use crate::address::Address;

verus! {

/// A record stored under its address.
#[derive(Debug)]
pub struct Entry<T> {
    pub address: Address,
    pub record: T,
}

pub open spec fn present<T>(s: Seq<Entry<T>>, a: Seq<u8>) -> bool {
    exists|i: int| 0 <= i < s.len() && s[i].address@ == a
}

pub open spec fn unique<T>(s: Seq<Entry<T>>) -> bool {
    forall|i: int, j: int|
        0 <= i < s.len() && 0 <= j < s.len() && s[i].address@ == s[j].address@ ==> i == j
}

pub open spec fn lookup<T>(s: Seq<Entry<T>>, a: Seq<u8>) -> T
    recommends
        present(s, a),
{
    s[choose|i: int| 0 <= i < s.len() && s[i].address@ == a].record
}

proof fn lemma_lookup_at<T>(s: Seq<Entry<T>>, i: int)
    requires
        unique(s),
        0 <= i < s.len(),
    ensures
        present(s, s[i].address@),
        lookup(s, s[i].address@) == s[i].record,
{
    let a = s[i].address@;
    assert(0 <= i < s.len() && s[i].address@ == a);
    let j = choose|j: int| 0 <= j < s.len() && s[j].address@ == a;
    assert(j == i);
}

/// A collection of records keyed by address, at most one record per address.
pub struct Table<T> {
    entries: Vec<Entry<T>>,
}

impl<T: Copy> Table<T> {
    pub closed spec fn wf(&self) -> bool {
        unique(self.entries@)
    }

    /// The records by address.
    pub closed spec fn view(&self) -> Map<Seq<u8>, T> {
        Map::new(|a: Seq<u8>| present(self.entries@, a), |a: Seq<u8>| lookup(self.entries@, a))
    }

    pub fn new() -> (r: Table<T>)
        ensures
            r.wf(),
            r@ == Map::<Seq<u8>, T>::empty(),
    {
        let r = Table { entries: Vec::new() };
        assert(r@ =~= Map::<Seq<u8>, T>::empty());
        r
    }

    fn position(&self, a: &Address) -> (r: Option<usize>)
        ensures
            match r {
                Some(i) => i < self.entries@.len() && self.entries@[i as int].address@ == a@,
                None => !present(self.entries@, a@),
            },
    {
        let mut i: usize = 0;
        while i < self.entries.len()
            invariant
                0 <= i <= self.entries@.len(),
                forall|j: int| 0 <= j < i ==> self.entries@[j].address@ != a@,
            decreases self.entries@.len() - i,
        {
            if self.entries[i].address.same_as(a) {
                return Some(i);
            }
            i = i + 1;
        }
        None
    }

    /// The record stored under `a`, if any.
    pub fn get(&self, a: &Address) -> (r: Option<T>)
        requires
            self.wf(),
        ensures
            r == (if self@.contains_key(a@) { Some(self@[a@]) } else { None::<T> }),
    {
        match self.position(a) {
            Some(i) => {
                proof {
                    lemma_lookup_at(self.entries@, i as int);
                }
                Some(self.entries[i].record)
            },
            None => None,
        }
    }

    /// Stores `v` under `a`, replacing the record there if there is one.
    pub fn put(&mut self, a: Address, v: T)
        requires
            old(self).wf(),
        ensures
            final(self).wf(),
            final(self)@ == old(self)@.insert(a@, v),
    {
        let ghost s = self.entries@;
        let e = Entry { address: a, record: v };
        match self.position(&a) {
            Some(i) => {
                self.entries.set(i, e);
                let ghost s2 = self.entries@;
                assert(s2 == s.update(i as int, e));
                assert(unique(s2)) by {
                    assert forall|p: int, q: int|
                        0 <= p < s2.len() && 0 <= q < s2.len() && s2[p].address@ == s2[q].address@
                        implies p == q by {
                        assert(s2[p].address@ == s[p].address@);
                        assert(s2[q].address@ == s[q].address@);
                    }
                }
                assert forall|k: Seq<u8>| #[trigger] present(s2, k) == (present(s, k) || k == a@) by {
                    if present(s, k) {
                        let j = choose|j: int| 0 <= j < s.len() && s[j].address@ == k;
                        assert(s2[j].address@ == s[j].address@);
                    }
                    if present(s2, k) {
                        let j = choose|j: int| 0 <= j < s2.len() && s2[j].address@ == k;
                        assert(s2[j].address@ == s[j].address@);
                    }
                }
                assert forall|k: Seq<u8>| present(s2, k) implies #[trigger] lookup(s2, k)
                    == (if k == a@ { v } else { lookup(s, k) }) by {
                    if k == a@ {
                        lemma_lookup_at(s2, i as int);
                    } else {
                        let j = choose|j: int| 0 <= j < s2.len() && s2[j].address@ == k;
                        lemma_lookup_at(s2, j);
                        assert(j != i);
                        assert(s2[j] == s[j]);
                        lemma_lookup_at(s, j);
                    }
                }
            },
            None => {
                self.entries.push(e);
                let ghost s2 = self.entries@;
                assert(s2 == s.push(e));
                assert(unique(s2)) by {
                    assert forall|p: int, q: int|
                        0 <= p < s2.len() && 0 <= q < s2.len() && s2[p].address@ == s2[q].address@
                        implies p == q by {
                        if p < s.len() && q < s.len() {
                            assert(s2[p] == s[p]);
                            assert(s2[q] == s[q]);
                        } else if p < s.len() {
                            assert(s2[p] == s[p]);
                        } else if q < s.len() {
                            assert(s2[q] == s[q]);
                        }
                    }
                }
                assert forall|k: Seq<u8>| #[trigger] present(s2, k) == (present(s, k) || k == a@) by {
                    if present(s, k) {
                        let j = choose|j: int| 0 <= j < s.len() && s[j].address@ == k;
                        assert(s2[j] == s[j]);
                    }
                    if k == a@ {
                        assert(s2[s.len() as int] == e);
                    }
                }
                assert forall|k: Seq<u8>| present(s2, k) implies #[trigger] lookup(s2, k)
                    == (if k == a@ { v } else { lookup(s, k) }) by {
                    if k == a@ {
                        assert(s2[s.len() as int] == e);
                        lemma_lookup_at(s2, s.len() as int);
                    } else {
                        let j = choose|j: int| 0 <= j < s2.len() && s2[j].address@ == k;
                        lemma_lookup_at(s2, j);
                        assert(j != s.len());
                        assert(s2[j] == s[j]);
                        lemma_lookup_at(s, j);
                    }
                }
            },
        }
        assert(self@ =~= old(self)@.insert(a@, v));
    }
}

} // verus!
