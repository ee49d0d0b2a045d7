//! The set of correlation ids currently in flight on one transport.
//!
//! Both sides of the system keep one: the server channel tracks accepted
//! requests that still owe a response, and the client dispatch loop tracks
//! outstanding calls still awaiting resolution. The view is the sequence of
//! ids in insertion order; well-formedness says no id is in flight twice.
use vstd::prelude::*;

verus! {

/// A duplicate-free collection of correlation ids, in insertion order.
pub struct InFlightIds {
    ids: Vec<u64>,
}

impl View for InFlightIds {
    type V = Seq<u64>;

    closed spec fn view(&self) -> Seq<u64> {
        self.ids@
    }
}

impl InFlightIds {
    /// Well-formed: no correlation id occurs twice.
    pub open spec fn wf(self) -> bool {
        self@.no_duplicates()
    }

    /// An empty id set.
    pub fn new() -> (r: InFlightIds)
        ensures
            r@ == Seq::<u64>::empty(),
            r.wf(),
    {
        InFlightIds { ids: Vec::new() }
    }

    /// How many ids are in flight.
    pub fn len(&self) -> (n: usize)
        ensures
            n == self@.len(),
    {
        self.ids.len()
    }

    /// Decides whether `id` is in flight.
    pub fn contains(&self, id: u64) -> (r: bool)
        ensures
            r == self@.contains(id),
    {
        let mut i: usize = 0;
        while i < self.ids.len()
            invariant
                0 <= i <= self.ids@.len(),
                forall|k: int| 0 <= k < i ==> self.ids@[k] != id,
            decreases self.ids@.len() - i,
        {
            if self.ids[i] == id {
                return true;
            }
            i += 1;
        }
        false
    }

    /// Records `id` as in flight. It must not be in flight already.
    pub fn insert(&mut self, id: u64)
        requires
            old(self).wf(),
            !old(self)@.contains(id),
        ensures
            final(self).wf(),
            final(self)@ == old(self)@.push(id),
    {
        self.ids.push(id);
        proof {
            let pre = old(self)@;
            let post = self@;
            assert forall|i: int, j: int|
                0 <= i < post.len() && 0 <= j < post.len() && i != j implies post[i]
                != post[j] by {
                if i < pre.len() && j < pre.len() {
                } else if j == pre.len() {
                    assert(pre[i] != id) by {
                        if pre[i] == id {
                            assert(pre.contains(id));
                        }
                    }
                } else {
                    assert(pre[j] != id) by {
                        if pre[j] == id {
                            assert(pre.contains(id));
                        }
                    }
                }
            }
        }
    }

    /// Removes `id` from the in-flight set: exactly that id stops being in
    /// flight, and every other id is in flight exactly as before.
    pub fn remove(&mut self, id: u64)
        requires
            old(self).wf(),
            old(self)@.contains(id),
        ensures
            final(self).wf(),
            !final(self)@.contains(id),
            forall|x: u64| x != id ==> (final(self)@.contains(x) <==> old(self)@.contains(x)),
            final(self)@.len() == old(self)@.len() - 1,
    {
        let ghost pre = old(self)@;
        let mut i: usize = 0;
        while i < self.ids.len()
            invariant
                *self == *old(self),
                self.ids@ == pre,
                pre.no_duplicates(),
                pre.contains(id),
                0 <= i <= pre.len(),
                forall|k: int| 0 <= k < i ==> pre[k] != id,
            decreases self.ids@.len() - i,
        {
            if self.ids[i] == id {
                self.ids.remove(i);
                proof {
                    let post = self@;
                    pre.remove_ensures(i as int);
                    assert forall|x: u64| post.contains(x) implies pre.contains(x) by {
                        let k = choose|k: int| 0 <= k < post.len() && post[k] == x;
                        if k < i {
                            assert(pre[k] == x);
                        } else {
                            assert(pre[k + 1] == x);
                        }
                    }
                    assert(!post.contains(id)) by {
                        if post.contains(id) {
                            let k = choose|k: int| 0 <= k < post.len() && post[k] == id;
                            if k < i {
                                assert(pre[k] == id);
                            } else {
                                assert(pre[k + 1] == id);
                            }
                        }
                    }
                    assert forall|x: u64| x != id && pre.contains(x) implies post.contains(x) by {
                        let k = choose|k: int| 0 <= k < pre.len() && pre[k] == x;
                        if k < i {
                            assert(post[k] == x);
                        } else {
                            assert(pre[i as int] == id);
                            assert(k != i);
                            assert(post[k - 1] == x);
                        }
                    }
                    assert(post.no_duplicates()) by {
                        assert forall|m: int, n: int|
                            0 <= m < post.len() && 0 <= n < post.len() && m != n implies post[m]
                            != post[n] by {
                            let pm: int = if m < i { m } else { m + 1 };
                            let pn: int = if n < i { n } else { n + 1 };
                            assert(post[m] == pre[pm]);
                            assert(post[n] == pre[pn]);
                        }
                    }
                }
                return ;
            }
            i += 1;
        }
        proof {
            let k = choose|k: int| 0 <= k < pre.len() && pre[k] == id;
            assert(false);
        }
    }

    /// Empties the set and hands back every id that was in flight, in
    /// insertion order.
    pub fn take_all(&mut self) -> (v: Vec<u64>)
        ensures
            v@ == old(self)@,
            final(self)@ == Seq::<u64>::empty(),
            final(self).wf(),
    {
        let mut v: Vec<u64> = Vec::new();
        core::mem::swap(&mut self.ids, &mut v);
        v
    }
}

} // verus!
