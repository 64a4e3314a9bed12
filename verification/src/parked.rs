//! Workspaces kept alive in memory while another one is shown: each parked
//! slot's pages (whatever the caller keeps for them, `T`) under the slot's
//! id, so that switching back restores the same pages without reloading.

use vstd::prelude::*;

verus! {

/// The parked slots: at most one entry per id.
pub struct WorkspaceRuntime<T> {
    pub parked: Vec<(u32, T)>,
}

/// No id occurs twice.
pub open spec fn distinct_ids<T>(s: Seq<(u32, T)>) -> bool {
    forall|i: int, j: int| 0 <= i < j < s.len() ==> #[trigger] s[i].0 != #[trigger] s[j].0
}

/// Some entry has this id.
pub open spec fn has_id<T>(s: Seq<(u32, T)>, id: u32) -> bool {
    exists|i: int| 0 <= i < s.len() && #[trigger] s[i].0 == id
}

/// What is parked under `id`.
pub open spec fn parked_of<T>(s: Seq<(u32, T)>, id: u32) -> Option<T> {
    if has_id(s, id) {
        Some(s[choose|i: int| 0 <= i < s.len() && #[trigger] s[i].0 == id].1)
    } else {
        None
    }
}

/// The id a parked slot has after slot `removed` is deleted and the slots
/// after it move down by one.
pub open spec fn shifted_id(id: u32, removed: u32) -> u32 {
    if id > removed {
        (id - 1) as u32
    } else {
        id
    }
}

/// `new` holds what `old` held once slot `removed` is gone and the slots
/// after it have moved down by one.
pub open spec fn reindexed_as<T>(old: Seq<(u32, T)>, new: Seq<(u32, T)>, removed: u32) -> bool {
    forall|k: u32| #[trigger] parked_of(new, k) == if k < removed {
        parked_of(old, k)
    } else if k < u32::MAX {
        parked_of(old, (k + 1) as u32)
    } else {
        None::<T>
    }
}

/// Every other parked slot follows its workspace through the renumbering:
/// what was parked under `k` is found under `k`'s new number.
pub proof fn law_parked_follow_renumbering<T>(old: Seq<(u32, T)>, new: Seq<(u32, T)>, removed: u32, k: u32)
    requires
        reindexed_as(old, new, removed),
        k != removed,
    ensures
        parked_of(new, shifted_id(k, removed)) == parked_of(old, k),
{
    assert(parked_of(new, shifted_id(k, removed)) == if shifted_id(k, removed) < removed {
        parked_of(old, shifted_id(k, removed))
    } else if shifted_id(k, removed) < u32::MAX {
        parked_of(old, (shifted_id(k, removed) + 1) as u32)
    } else {
        None::<T>
    });
}

proof fn lemma_parked_at<T>(s: Seq<(u32, T)>, i: int)
    requires
        distinct_ids(s),
        0 <= i < s.len(),
    ensures
        parked_of(s, s[i].0) == Some(s[i].1),
{
    let id = s[i].0;
    assert(has_id(s, id));
    let j = choose|j: int| 0 <= j < s.len() && #[trigger] s[j].0 == id;
    if j != i {
        if j < i {
            assert(s[j].0 != s[i].0);
        } else {
            assert(s[i].0 != s[j].0);
        }
    }
}

impl<T> WorkspaceRuntime<T> {
    pub closed spec fn wf(&self) -> bool {
        distinct_ids(self.parked@)
    }

    /// Nothing parked.
    pub fn new() -> (r: Self)
        ensures
            r.wf(),
            forall|id: u32| #[trigger] parked_of(r.parked@, id) is None,
    {
        WorkspaceRuntime { parked: Vec::new() }
    }

    /// Takes what is parked under `id` off the list.
    pub fn take(&mut self, id: u32) -> (r: Option<T>)
        requires
            old(self).wf(),
        ensures
            final(self).wf(),
            r == parked_of(old(self).parked@, id),
            parked_of(final(self).parked@, id) is None,
            forall|k: u32| k != id ==> #[trigger] parked_of(final(self).parked@, k) == parked_of(old(self).parked@, k),
    {
        let ghost old_s = self.parked@;
        let mut i: usize = 0;
        while i < self.parked.len()
            invariant
                i <= self.parked@.len(),
                self.parked@ == old_s,
                old_s == old(self).parked@,
                distinct_ids(old_s),
                forall|k: int| 0 <= k < i ==> old_s[k].0 != id,
            decreases self.parked@.len() - i,
        {
            if self.parked[i].0 == id {
                proof {
                    lemma_parked_at(old_s, i as int);
                }
                let (_, v) = self.parked.remove(i);
                proof {
                    let s = self.parked@;
                    assert(s == old_s.remove(i as int));
                    assert forall|a: int, b: int| 0 <= a < b < s.len() implies #[trigger] s[a].0
                        != #[trigger] s[b].0 by {
                        let a0 = if a < i { a } else { a + 1 };
                        let b0 = if b < i { b } else { b + 1 };
                        assert(s[a] == old_s[a0] && s[b] == old_s[b0]);
                    }
                    assert(!has_id(s, id)) by {
                        if has_id(s, id) {
                            let a = choose|a: int| 0 <= a < s.len() && #[trigger] s[a].0 == id;
                            let a0 = if a < i { a } else { a + 1 };
                            assert(s[a] == old_s[a0]);
                            assert(old_s[a0].0 == old_s[i as int].0);
                        }
                    }
                    assert forall|k: u32| k != id implies #[trigger] parked_of(s, k) == parked_of(old_s, k) by {
                        if has_id(old_s, k) {
                            let a = choose|a: int| 0 <= a < old_s.len() && #[trigger] old_s[a].0 == k;
                            lemma_parked_at(old_s, a);
                            assert(a != i);
                            let a1 = if a < i { a } else { a - 1 };
                            assert(s[a1] == old_s[a]);
                            lemma_parked_at(s, a1);
                        } else if has_id(s, k) {
                            let a = choose|a: int| 0 <= a < s.len() && #[trigger] s[a].0 == k;
                            let a0 = if a < i { a } else { a + 1 };
                            assert(s[a] == old_s[a0]);
                        }
                    }
                }
                return Some(v);
            }
            i = i + 1;
        }
        proof {
            assert(!has_id(old_s, id));
        }
        None
    }

    /// Parks `value` under `id`, replacing what was parked there; returns
    /// what was replaced.
    pub fn park(&mut self, id: u32, value: T) -> (r: Option<T>)
        requires
            old(self).wf(),
        ensures
            final(self).wf(),
            r == parked_of(old(self).parked@, id),
            parked_of(final(self).parked@, id) == Some(value),
            forall|k: u32| k != id ==> #[trigger] parked_of(final(self).parked@, k) == parked_of(old(self).parked@, k),
    {
        let r = self.take(id);
        let ghost mid = self.parked@;
        self.parked.push((id, value));
        proof {
            let s = self.parked@;
            assert(s == mid.push((id, value)));
            assert forall|a: int, b: int| 0 <= a < b < s.len() implies #[trigger] s[a].0 != #[trigger] s[b].0 by {
                if b == s.len() - 1 {
                    assert(s[a] == mid[a]);
                    if mid[a].0 == id {
                        assert(has_id(mid, id));
                    }
                }
            }
            lemma_parked_at(s, s.len() - 1);
            assert forall|k: u32| k != id implies #[trigger] parked_of(s, k) == parked_of(mid, k) by {
                if has_id(mid, k) {
                    let a = choose|a: int| 0 <= a < mid.len() && #[trigger] mid[a].0 == k;
                    lemma_parked_at(mid, a);
                    assert(s[a] == mid[a]);
                    lemma_parked_at(s, a);
                } else if has_id(s, k) {
                    let a = choose|a: int| 0 <= a < s.len() && #[trigger] s[a].0 == k;
                    if a < mid.len() {
                        assert(s[a] == mid[a]);
                    }
                }
            }
        }
        r
    }

    /// Drops what is parked under `id` (a deleted slot), handing it back
    /// so its pages can be closed.
    pub fn discard(&mut self, id: u32) -> (r: Option<T>)
        requires
            old(self).wf(),
        ensures
            final(self).wf(),
            r == parked_of(old(self).parked@, id),
            parked_of(final(self).parked@, id) is None,
            forall|k: u32| k != id ==> #[trigger] parked_of(final(self).parked@, k) == parked_of(old(self).parked@, k),
    {
        self.take(id)
    }

    /// After slot `removed` is deleted and later slots are renumbered down
    /// by one, moves the parked slots the same way: what was parked under
    /// `removed + 1` and up is found one lower. Anything still parked under
    /// `removed` itself is dropped.
    pub fn reindex_after_remove(&mut self, removed: u32) -> (r: Option<T>)
        requires
            old(self).wf(),
        ensures
            final(self).wf(),
            r == parked_of(old(self).parked@, removed),
            reindexed_as(old(self).parked@, final(self).parked@, removed),
    {
        let dropped = self.take(removed);
        let ghost mid = self.parked@;
        let mut rest: Vec<(u32, T)> = Vec::new();
        std::mem::swap(&mut rest, &mut self.parked);
        let ghost src = rest@;
        assert(src == mid);
        let mut out: Vec<(u32, T)> = Vec::new();
        let mut n: usize = 0;
        let total = rest.len();
        while rest.len() > 0
            invariant
                n + rest@.len() == total,
                total == src.len(),
                rest@ == src.skip(n as int),
                out@.len() == n,
                distinct_ids(src),
                !has_id(src, removed),
                forall|a: int| 0 <= a < n ==> #[trigger] out@[a] == (shifted_id(src[a].0, removed), src[a].1),
            decreases rest@.len(),
        {
            let (id, v) = rest.remove(0);
            assert(src.skip(n as int)[0] == src[n as int]);
            assert(rest@ == src.skip(n + 1)) by {
                assert(src.skip(n as int).remove(0) =~= src.skip(n + 1));
            }
            let nid = if id > removed { id - 1 } else { id };
            out.push((nid, v));
            n = n + 1;
        }
        proof {
            let s = out@;
            assert(s.len() == src.len());
            assert forall|a: int, b: int| 0 <= a < b < s.len() implies #[trigger] s[a].0 != #[trigger] s[b].0 by {
                assert(src[a].0 != src[b].0);
                assert(src[a].0 != removed && src[b].0 != removed) by {
                    if src[a].0 == removed {
                        assert(has_id(src, removed));
                    }
                    if src[b].0 == removed {
                        assert(has_id(src, removed));
                    }
                }
            }
            assert forall|k: u32| #[trigger] parked_of(s, k) == if k < removed {
                parked_of(mid, k)
            } else if k < u32::MAX {
                parked_of(mid, (k + 1) as u32)
            } else {
                None::<T>
            } by {
                let want: u32 = if k < removed { k } else if k < u32::MAX { (k + 1) as u32 } else { 0 };
                if has_id(s, k) {
                    let a = choose|a: int| 0 <= a < s.len() && #[trigger] s[a].0 == k;
                    lemma_parked_at(s, a);
                    assert(s[a] == (shifted_id(src[a].0, removed), src[a].1));
                    if src[a].0 == removed {
                        assert(has_id(src, removed));
                    }
                    assert(k < u32::MAX || src[a].0 <= removed);
                    lemma_parked_at(src, a);
                } else {
                    if k < removed {
                        if has_id(src, k) {
                            let a = choose|a: int| 0 <= a < src.len() && #[trigger] src[a].0 == k;
                            assert(s[a].0 == k);
                        }
                    } else if k < u32::MAX {
                        if has_id(src, (k + 1) as u32) {
                            let a = choose|a: int| 0 <= a < src.len() && #[trigger] src[a].0 == (k + 1) as u32;
                            assert(s[a].0 == k);
                        }
                    }
                }
            }
        }
        self.parked = out;
        proof {
            assert forall|k: u32| #[trigger] parked_of(self.parked@, k) == if k < removed {
                parked_of(old(self).parked@, k)
            } else if k < u32::MAX {
                parked_of(old(self).parked@, (k + 1) as u32)
            } else {
                None::<T>
            } by {
                assert(parked_of(self.parked@, k) == if k < removed {
                    parked_of(mid, k)
                } else if k < u32::MAX {
                    parked_of(mid, (k + 1) as u32)
                } else {
                    None::<T>
                });
            }
        }
        dropped
    }
}

} // verus!
