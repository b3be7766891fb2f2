//! Per-identity admission control: each anonymized client identity carries a
//! counter of its live sessions, and a connection is admitted only while the
//! counter is below the configured ceiling. An identity whose counter returns
//! to zero leaves no residue in the map.

use vstd::prelude::*;

verus! {

/// The total count recorded for `id` in a sequence of entries (the sum,
/// so the statement needs no uniqueness assumption).
pub open spec fn count_of_seq(s: Seq<(u64, u64)>, id: u64) -> nat
    decreases s.len(),
{
    if s.len() == 0 {
        0
    } else {
        count_of_seq(s.drop_last(), id) + (if s.last().0 == id {
            s.last().1 as nat
        } else {
            0
        })
    }
}

proof fn lemma_count_absent(s: Seq<(u64, u64)>, id: u64)
    requires
        forall|j: int| 0 <= j < s.len() ==> s[j].0 != id,
    ensures
        count_of_seq(s, id) == 0,
    decreases s.len(),
{
    if s.len() > 0 {
        lemma_count_absent(s.drop_last(), id);
    }
}

proof fn lemma_count_at(s: Seq<(u64, u64)>, i: int, id: u64)
    requires
        0 <= i < s.len(),
        s[i].0 == id,
        forall|j1: int, j2: int| 0 <= j1 < j2 < s.len() ==> s[j1].0 != s[j2].0,
    ensures
        count_of_seq(s, id) == s[i].1 as nat,
    decreases s.len(),
{
    if i == s.len() - 1 {
        assert(forall|j: int| 0 <= j < s.drop_last().len() ==> s.drop_last()[j].0 != id);
        lemma_count_absent(s.drop_last(), id);
    } else {
        lemma_count_at(s.drop_last(), i, id);
    }
}

proof fn lemma_count_update(s: Seq<(u64, u64)>, i: int, p: (u64, u64), id: u64)
    requires
        0 <= i < s.len(),
    ensures
        count_of_seq(s.update(i, p), id) + (if s[i].0 == id {
            s[i].1 as nat
        } else {
            0
        }) == count_of_seq(s, id) + (if p.0 == id {
            p.1 as nat
        } else {
            0
        }),
    decreases s.len(),
{
    let t = s.update(i, p);
    if i == s.len() - 1 {
        assert(t.drop_last() =~= s.drop_last());
    } else {
        assert(t.drop_last() =~= s.drop_last().update(i, p));
        lemma_count_update(s.drop_last(), i, p, id);
    }
}

proof fn lemma_count_remove(s: Seq<(u64, u64)>, i: int, id: u64)
    requires
        0 <= i < s.len(),
    ensures
        count_of_seq(s.remove(i), id) + (if s[i].0 == id {
            s[i].1 as nat
        } else {
            0
        }) == count_of_seq(s, id),
    decreases s.len(),
{
    let t = s.remove(i);
    if i == s.len() - 1 {
        assert(t =~= s.drop_last());
    } else {
        assert(t.drop_last() =~= s.drop_last().remove(i));
        assert(t.last() == s.last());
        lemma_count_remove(s.drop_last(), i, id);
    }
}

/// The admission map: one entry per identity with at least one live
/// session.
pub struct AdmissionController {
    pairs: Vec<(u64, u64)>,
}

/// Two controllers that record the same count, and the same presence, for
/// every identity.
pub open spec fn same_admission(a: &AdmissionController, b: &AdmissionController) -> bool {
    forall|id: u64| a.count(id) == b.count(id) && a.has_entry(id) == b.has_entry(id)
}

impl AdmissionController {
    /// The number of live sessions recorded for an identity; zero when it
    /// has no entry.
    pub closed spec fn count(&self, id: u64) -> nat {
        count_of_seq(self.pairs@, id)
    }

    /// Whether the identity occupies an entry of the map at all.
    pub closed spec fn has_entry(&self, id: u64) -> bool {
        exists|i: int| 0 <= i < self.pairs@.len() && self.pairs@[i].0 == id
    }

    /// Each identity has at most one entry, and every entry is live.
    pub closed spec fn wf(&self) -> bool {
        (forall|j1: int, j2: int|
            0 <= j1 < j2 < self.pairs@.len() ==> self.pairs@[j1].0 != self.pairs@[j2].0) && (
        forall|j: int| 0 <= j < self.pairs@.len() ==> self.pairs@[j].1 > 0)
    }

    /// An identity occupies an entry exactly while its count is positive.
    pub proof fn lemma_entry_iff_count(&self, id: u64)
        requires
            self.wf(),
        ensures
            self.has_entry(id) <==> self.count(id) > 0,
    {
        if self.has_entry(id) {
            let i = choose|i: int|
                0 <= i < self.pairs@.len() && self.pairs@[i].0 == id;
            lemma_count_at(self.pairs@, i, id);
        } else {
            assert(forall|j: int| 0 <= j < self.pairs@.len() ==> self.pairs@[j].0 != id);
            lemma_count_absent(self.pairs@, id);
        }
    }

    /// An empty admission map.
    pub fn new() -> (r: AdmissionController)
        ensures
            r.wf(),
            forall|id: u64| r.count(id) == 0 && !r.has_entry(id),
    {
        let r = AdmissionController { pairs: Vec::new() };
        proof {
            assert forall|id: u64| r.count(id) == 0 && !r.has_entry(id) by {
                lemma_count_absent(r.pairs@, id);
            }
        }
        r
    }

    /// Index of the entry of `id`, when one exists.
    #[verifier::loop_isolation(false)]
    fn find_idx(&self, id: u64) -> (r: Option<usize>)
        ensures
            match r {
                Some(i) => i < self.pairs@.len() && self.pairs@[i as int].0 == id,
                None => forall|j: int| 0 <= j < self.pairs@.len() ==> self.pairs@[j].0 != id,
            },
    {
        let len = self.pairs.len();
        let mut i: usize = 0;
        while i < len
            invariant
                i <= len,
                forall|j: int| 0 <= j < i ==> self.pairs@[j].0 != id,
            decreases len - i,
        {
            if self.pairs[i].0 == id {
                return Some(i);
            }
            i += 1;
        }
        None
    }

    /// The current count of an identity.
    pub fn current(&self, id: u64) -> (n: u64)
        requires
            self.wf(),
        ensures
            n as nat == self.count(id),
    {
        match self.find_idx(id) {
            Some(i) => {
                proof {
                    lemma_count_at(self.pairs@, i as int, id);
                }
                self.pairs[i].1
            },
            None => {
                proof {
                    lemma_count_absent(self.pairs@, id);
                }
                0
            },
        }
    }

    /// Whether the identity currently occupies an entry of the map.
    pub fn has_slot(&self, id: u64) -> (r: bool)
        ensures
            r == self.has_entry(id),
    {
        match self.find_idx(id) {
            Some(_) => true,
            None => false,
        }
    }

    /// Admit one more session of `id` unless its count has reached the
    /// ceiling. The decision and the increment are one atomic step: the
    /// session is admitted exactly when the prior count was below `limit`,
    /// and a rejected attempt changes nothing.
    pub fn try_admit(&mut self, id: u64, limit: u8) -> (r: bool)
        requires
            old(self).wf(),
        ensures
            final(self).wf(),
            r == (old(self).count(id) < limit as nat),
            r ==> final(self).count(id) == old(self).count(id) + 1 && final(self).has_entry(id),
            r ==> forall|id2: u64|
                id2 != id ==> final(self).count(id2) == old(self).count(id2)
                    && final(self).has_entry(id2) == old(self).has_entry(id2),
            !r ==> *final(self) == *old(self),
    {
        match self.find_idx(id) {
            Some(i) => {
                let cur = self.pairs[i].1;
                proof {
                    lemma_count_at(self.pairs@, i as int, id);
                }
                if cur >= limit as u64 {
                    false
                } else {
                    let ghost s0 = self.pairs@;
                    self.pairs.set(i, (id, cur + 1));
                    proof {
                        lemma_count_update(s0, i as int, (id, (cur + 1) as u64), id);
                        assert(self.pairs@[i as int].0 == id);
                        assert(self.has_entry(id));
                        assert forall|id2: u64| id2 != id implies self.count(id2) == count_of_seq(
                            s0,
                            id2,
                        ) && self.has_entry(id2) == (exists|k: int|
                            0 <= k < s0.len() && s0[k].0 == id2) by {
                            lemma_count_update(s0, i as int, (id, (cur + 1) as u64), id2);
                            assert(forall|k: int|
                                0 <= k < s0.len() && k != i ==> self.pairs@[k] == s0[k]);
                        }
                    }
                    true
                }
            },
            None => {
                proof {
                    lemma_count_absent(self.pairs@, id);
                }
                if (limit as u64) > 0 {
                    let ghost s0 = self.pairs@;
                    self.pairs.push((id, 1));
                    proof {
                        assert(self.pairs@.drop_last() =~= s0);
                        assert(self.pairs@.last() == (id, 1u64));
                        assert(self.count(id) == count_of_seq(s0, id) + 1);
                        assert(self.pairs@[self.pairs@.len() - 1].0 == id);
                        assert(self.has_entry(id));
                        assert forall|id2: u64| id2 != id implies self.count(id2) == count_of_seq(
                            s0,
                            id2,
                        ) && self.has_entry(id2) == (exists|k: int|
                            0 <= k < s0.len() && s0[k].0 == id2) by {
                            assert(forall|k: int| 0 <= k < s0.len() ==> self.pairs@[k] == s0[k]);
                        }
                    }
                    true
                } else {
                    false
                }
            },
        }
    }

    /// Release the slot held by one session of `id`: the counter drops by
    /// one, and the entry disappears exactly when the counter reaches
    /// zero.
    #[verifier::rlimit(30)]
    pub fn release(&mut self, id: u64)
        requires
            old(self).wf(),
            old(self).count(id) > 0,
        ensures
            final(self).wf(),
            final(self).count(id) == old(self).count(id) - 1,
            final(self).has_entry(id) == (old(self).count(id) > 1),
            forall|id2: u64|
                id2 != id ==> final(self).count(id2) == old(self).count(id2)
                    && final(self).has_entry(id2) == old(self).has_entry(id2),
    {
        proof {
            self.lemma_entry_iff_count(id);
        }
        match self.find_idx(id) {
            Some(i) => {
                let cur = self.pairs[i].1;
                proof {
                    lemma_count_at(self.pairs@, i as int, id);
                }
                let ghost s0 = self.pairs@;
                if cur == 1 {
                    self.pairs.remove(i);
                    proof {
                        lemma_count_remove(s0, i as int, id);
                        assert forall|k: int|
                            0 <= k < self.pairs@.len() implies self.pairs@[k].0 != id by {
                            if k < i {
                                assert(self.pairs@[k] == s0[k]);
                            } else {
                                assert(self.pairs@[k] == s0[k + 1]);
                            }
                        }
                        assert(!self.has_entry(id));
                        assert(forall|k: int| 0 <= k < i ==> self.pairs@[k] == s0[k]);
                        assert(forall|k: int|
                            i <= k < self.pairs@.len() ==> self.pairs@[k] == s0[k + 1]);
                        assert forall|id2: u64| id2 != id implies self.count(id2) == old(
                            self,
                        ).count(id2) && self.has_entry(id2) == old(self).has_entry(id2) by {
                            assert(old(self).pairs@ == s0);
                            lemma_count_remove(s0, i as int, id2);
                            if exists|k: int| 0 <= k < s0.len() && s0[k].0 == id2 {
                                let k = choose|k: int| 0 <= k < s0.len() && s0[k].0 == id2;
                                if k < i {
                                    assert(self.pairs@[k].0 == id2);
                                } else {
                                    assert(k != i);
                                    assert(self.pairs@[k - 1].0 == id2);
                                }
                                assert(self.has_entry(id2));
                            }
                            if self.has_entry(id2) {
                                let j = choose|j: int|
                                    0 <= j < self.pairs@.len() && self.pairs@[j].0 == id2;
                                if j < i {
                                    assert(s0[j].0 == id2);
                                } else {
                                    assert(s0[j + 1].0 == id2);
                                }
                                assert(exists|k: int| 0 <= k < s0.len() && s0[k].0 == id2);
                            }
                        }
                    }
                } else {
                    self.pairs.set(i, (id, cur - 1));
                    proof {
                        lemma_count_update(s0, i as int, (id, (cur - 1) as u64), id);
                        assert(self.pairs@[i as int].0 == id);
                        assert(self.has_entry(id));
                        assert forall|id2: u64| id2 != id implies self.count(id2) == old(
                            self,
                        ).count(id2) && self.has_entry(id2) == old(self).has_entry(id2) by {
                            assert(old(self).pairs@ == s0);
                            lemma_count_update(s0, i as int, (id, (cur - 1) as u64), id2);
                            assert(forall|k: int|
                                0 <= k < s0.len() && k != i ==> self.pairs@[k] == s0[k]);
                        }
                    }
                }
            },
            None => {
                proof {
                    assert(false);
                }
            },
        }
    }
}

/// The admission ceiling is never exceeded: an admission attempt against a
/// controller in which every identity is within the ceiling leaves every
/// identity within the ceiling. The attempt's outcome is described exactly
/// as `try_admit` ensures it.
pub proof fn lemma_ceiling_preserved(
    pre: &AdmissionController,
    post: &AdmissionController,
    id: u64,
    limit: u8,
    accepted: bool,
)
    requires
        accepted == (pre.count(id) < limit as nat),
        accepted ==> post.count(id) == pre.count(id) + 1,
        accepted ==> forall|id2: u64| id2 != id ==> post.count(id2) == pre.count(id2),
        !accepted ==> forall|id2: u64| post.count(id2) == pre.count(id2),
        forall|k: u64| pre.count(k) <= limit as nat,
    ensures
        forall|k: u64| post.count(k) <= limit as nat,
{
}

} // verus!
