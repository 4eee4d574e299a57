//! Shared registry of child-session handles owned by in-flight research
//! orchestrations. The relay loop tests membership to classify inbound
//! traffic; only orchestrations mutate it.

use vstd::prelude::*;

verus! {

/// The set of session handles currently owned by an in-flight research
/// orchestration. Its abstract value is the set of handle strings it holds.
pub struct SessionRegistry {
    handles: Vec<String>,
}

impl View for SessionRegistry {
    type V = Set<Seq<char>>;

    closed spec fn view(&self) -> Set<Seq<char>> {
        Set::new(
            |s: Seq<char>|
                exists|i: int| 0 <= i < self.handles@.len() && self.handles@[i]@ == s,
        )
    }
}

impl SessionRegistry {
    /// Each handle is held at most once, so removing its one occurrence
    /// removes it from the abstract set.
    pub closed spec fn wf(&self) -> bool {
        forall|i: int, j: int|
            0 <= i < j < self.handles@.len() ==> self.handles@[i]@ != self.handles@[j]@
    }

    pub fn new() -> (r: SessionRegistry)
        ensures
            r.wf(),
            r@ == Set::<Seq<char>>::empty(),
    {
        let r = SessionRegistry { handles: Vec::new() };
        proof {
            assert(r@ =~= Set::<Seq<char>>::empty());
        }
        r
    }

    /// Membership test, safe for any concurrent reader of the shared registry.
    pub fn contains(&self, handle: &String) -> (b: bool)
        ensures
            b == self@.contains(handle@),
    {
        let n = self.handles.len();
        let mut i: usize = 0;
        while i < n
            invariant
                n == self.handles@.len(),
                0 <= i <= n,
                forall|k: int| 0 <= k < i ==> self.handles@[k]@ != handle@,
            decreases n - i,
        {
            if self.handles[i].eq(handle) {
                return true;
            }
            i += 1;
        }
        false
    }

    /// Adds a handle; inserting one already present leaves the set unchanged.
    pub fn register(&mut self, handle: &String)
        requires
            old(self).wf(),
        ensures
            final(self).wf(),
            final(self)@ == old(self)@.insert(handle@),
    {
        if !self.contains(handle) {
            let ghost pre = self@;
            self.handles.push(handle.clone());
            proof {
                assert forall|s: Seq<char>| self@.contains(s) <==> pre.insert(handle@).contains(
                    s,
                ) by {
                    if pre.insert(handle@).contains(s) {
                        if s == handle@ {
                            assert(self.handles@[self.handles@.len() - 1]@ == s);
                        } else {
                            let i = choose|i: int|
                                0 <= i < old(self).handles@.len() && old(self).handles@[i]@ == s;
                            assert(self.handles@[i]@ == s);
                        }
                    }
                }
                assert(self@ =~= pre.insert(handle@));
            }
        } else {
            proof {
                assert(self@ =~= old(self)@.insert(handle@));
            }
        }
    }

    /// Removes a handle; removing an absent one is a no-op, not an error.
    pub fn unregister(&mut self, handle: &String)
        requires
            old(self).wf(),
        ensures
            final(self).wf(),
            final(self)@ == old(self)@.remove(handle@),
    {
        let n = self.handles.len();
        let mut i: usize = 0;
        while i < n
            invariant
                n == self.handles@.len(),
                0 <= i <= n,
                *self == *old(self),
                old(self).wf(),
                forall|k: int| 0 <= k < i ==> self.handles@[k]@ != handle@,
            decreases n - i,
        {
            if self.handles[i].eq(handle) {
                let ghost pre = self@;
                let ghost ii = i as int;
                let ghost oldseq = old(self).handles@;
                self.handles.remove(i);
                proof {
                    let newseq = self.handles@;
                    assert(newseq == oldseq.remove(ii));
                    assert(oldseq[ii]@ == handle@);
                    assert forall|p: int, q: int|
                        0 <= p < q < newseq.len() implies newseq[p]@ != newseq[q]@ by {
                        let p2: int = if p < ii {
                            p
                        } else {
                            p + 1
                        };
                        let q2: int = if q < ii {
                            q
                        } else {
                            q + 1
                        };
                        assert(newseq[p] == oldseq[p2]);
                        assert(newseq[q] == oldseq[q2]);
                        assert(oldseq[p2]@ != oldseq[q2]@);
                    }
                    assert forall|s: Seq<char>| self@.contains(s) implies pre.remove(
                        handle@,
                    ).contains(s) by {
                        let j = choose|j: int| 0 <= j < newseq.len() && newseq[j]@ == s;
                        let j2: int = if j < ii {
                            j
                        } else {
                            j + 1
                        };
                        assert(newseq[j] == oldseq[j2]);
                        assert(oldseq[j2]@ == s);
                        assert(j2 != ii ==> oldseq[j2]@ != oldseq[ii]@);
                        assert(s != handle@);
                        assert(pre.contains(s));
                    }
                    assert forall|s: Seq<char>| pre.remove(handle@).contains(s) implies self@.contains(
                        s,
                    ) by {
                        let j = choose|j: int| 0 <= j < oldseq.len() && oldseq[j]@ == s;
                        assert(s != handle@);
                        assert(j != ii);
                        if j < ii {
                            assert(newseq[j] == oldseq[j]);
                            assert(newseq[j]@ == s);
                        } else {
                            assert(newseq[j - 1] == oldseq[j]);
                            assert(newseq[j - 1]@ == s);
                        }
                    }
                    assert(self@ =~= pre.remove(handle@));
                }
                return;
            }
            i += 1;
        }
        proof {
            assert(!self@.contains(handle@));
            assert(self@ =~= old(self)@.remove(handle@));
        }
    }
}

/// Law: once a handle is registered, every reader observes it as present.
pub proof fn lemma_register_makes_contains(r: Set<Seq<char>>, h: Seq<char>)
    ensures
        r.insert(h).contains(h),
{
}

/// Law: once a handle is unregistered, no later reader observes it as
/// present; there is no transient window in which it still appears.
pub proof fn lemma_unregister_hides(r: Set<Seq<char>>, h: Seq<char>)
    ensures
        !r.remove(h).contains(h),
{
}

/// Law: another orchestration registering or unregistering a different
/// handle never changes what a reader observes of this one.
pub proof fn lemma_other_handles_independent(r: Set<Seq<char>>, h: Seq<char>, g: Seq<char>)
    requires
        h != g,
    ensures
        r.insert(g).contains(h) == r.contains(h),
        r.remove(g).contains(h) == r.contains(h),
{
}

/// Law: an orchestration that registers a fresh handle and unregisters it on
/// the way out — on success, failure or abandonment alike — leaves the
/// registry exactly as it found it.
pub proof fn lemma_orchestration_leaves_registry_clean(r: Set<Seq<char>>, h: Seq<char>)
    requires
        !r.contains(h),
    ensures
        r.insert(h).remove(h) == r,
{
    assert(r.insert(h).remove(h) =~= r);
}

/// Law: unregistering is idempotent, and unregistering a handle that was
/// never registered changes nothing.
pub proof fn lemma_unregister_idempotent(r: Set<Seq<char>>, h: Seq<char>)
    ensures
        r.remove(h).remove(h) == r.remove(h),
        !r.contains(h) ==> r.remove(h) == r,
{
    assert(r.remove(h).remove(h) =~= r.remove(h));
    if !r.contains(h) {
        assert(r.remove(h) =~= r);
    }
}

} // verus!
