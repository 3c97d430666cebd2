//! The accession dedup store: the set of accession numbers already recorded.
//! Where the numbers persist between polls is up to the caller, which loads
//! them into a store before a poll and saves the ones added after it.

use vstd::prelude::*;

verus! {

/// The accession numbers recorded so far.
pub struct AccessionStore {
    numbers: Vec<usize>,
}

impl View for AccessionStore {
    type V = Set<usize>;

    closed spec fn view(&self) -> Set<usize> {
        self.numbers@.to_set()
    }
}

impl AccessionStore {
    /// An empty store.
    pub fn new() -> (r: AccessionStore)
        ensures
            r@ == Set::<usize>::empty(),
    {
        let r = AccessionStore { numbers: Vec::new() };
        proof {
            assert(r.numbers@.to_set() =~= Set::<usize>::empty());
        }
        r
    }

    /// Whether `acc` has been recorded.
    pub fn has_accession_number(&self, acc: usize) -> (r: bool)
        ensures
            r == self@.contains(acc),
    {
        let mut i: usize = 0;
        while i < self.numbers.len()
            invariant
                i <= self.numbers.len(),
                forall|k: int| 0 <= k < i ==> self.numbers@[k] != acc,
            decreases self.numbers.len() - i,
        {
            if self.numbers[i] == acc {
                proof {
                    assert(self.numbers@.contains(acc));
                }
                return true;
            }
            i = i + 1;
        }
        false
    }

    /// Records `acc`.
    pub fn write_accession_number(&mut self, acc: usize)
        ensures
            final(self)@ == old(self)@.insert(acc),
    {
        if !self.has_accession_number(acc) {
            self.numbers.push(acc);
            proof {
                assert(self.numbers@.to_set() =~= old(self).numbers@.to_set().insert(acc)) by {
                    assert(forall|x: usize| self.numbers@.contains(x) <==> (old(self).numbers@.contains(x) || x == acc)) by {
                        assert(self.numbers@ == old(self).numbers@.push(acc));
                        assert(self.numbers@[old(self).numbers@.len() as int] == acc);
                        assert forall|x: usize| old(self).numbers@.contains(x) implies self.numbers@.contains(x) by {
                            let k = choose|k: int| 0 <= k < old(self).numbers@.len() && old(self).numbers@[k] == x;
                            assert(self.numbers@[k] == x);
                        }
                    }
                }
            }
        } else {
            proof {
                assert(old(self)@.insert(acc) =~= old(self)@);
            }
        }
    }

    /// Forgets `acc`; returns whether it had been recorded.
    pub fn delete_accession_number(&mut self, acc: usize) -> (r: bool)
        ensures
            r == old(self)@.contains(acc),
            final(self)@ == old(self)@.remove(acc),
    {
        let ghost before = self.numbers@;
        let mut kept: Vec<usize> = Vec::new();
        let mut found = false;
        let mut i: usize = 0;
        while i < self.numbers.len()
            invariant
                i <= self.numbers.len(),
                self.numbers@ == before,
                found == before.subrange(0, i as int).contains(acc),
                forall|x: usize| kept@.contains(x) <==> (x != acc && before.subrange(0, i as int).contains(x)),
            decreases self.numbers.len() - i,
        {
            let x = self.numbers[i];
            let ghost p = before.subrange(0, i as int);
            let ghost q = before.subrange(0, i + 1);
            proof {
                assert(q == p.push(x));
                assert forall|y: usize| q.contains(y) <==> (p.contains(y) || y == x) by {
                    if p.contains(y) {
                        let k = choose|k: int| 0 <= k < p.len() && p[k] == y;
                        assert(q[k] == y);
                    }
                    if q.contains(y) && y != x {
                        let k = choose|k: int| 0 <= k < q.len() && q[k] == y;
                        assert(k < p.len());
                        assert(p[k] == y);
                    }
                    if y == x {
                        assert(q[i as int] == y);
                    }
                }
            }
            let ghost k0 = kept@;
            assert(forall|y: usize| k0.contains(y) <==> (y != acc && p.contains(y)));
            if x == acc {
                found = true;
            } else {
                kept.push(x);
                proof {
                    assert forall|y: usize| kept@.contains(y) <==> (k0.contains(y) || y == x) by {
                        if k0.contains(y) {
                            let k = choose|k: int| 0 <= k < k0.len() && k0[k] == y;
                            assert(kept@[k] == y);
                        }
                        if kept@.contains(y) && y != x {
                            let k = choose|k: int| 0 <= k < kept@.len() && kept@[k] == y;
                            assert(k0[k] == y);
                        }
                        if y == x {
                            assert(kept@[k0.len() as int] == y);
                        }
                    }
                }
            }
            i = i + 1;
            proof {
                assert(before.subrange(0, i as int) == q);
                assert forall|y: usize| kept@.contains(y) <==> (y != acc && q.contains(y)) by {
                    assert(q.contains(y) <==> (p.contains(y) || y == x));
                    assert(k0.contains(y) <==> (y != acc && p.contains(y)));
                }
            }
        }
        proof {
            assert(before.subrange(0, before.len() as int) == before);
        }
        self.numbers = kept;
        proof {
            assert(self.numbers@.to_set() =~= before.to_set().remove(acc));
        }
        found
    }

    /// Forgets every recorded number.
    pub fn delete_all(&mut self)
        ensures
            final(self)@ == Set::<usize>::empty(),
    {
        self.numbers = Vec::new();
        proof {
            assert(self.numbers@.to_set() =~= Set::<usize>::empty());
        }
    }
}

} // verus!
