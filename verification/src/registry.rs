//! Ledger of kernel allocations owned by wrapper values.
//!
//! Every owning wrapper (resources, connector, encoder, CRTC) holds a handle
//! into one `Registry`. Registering a handle stands for taking ownership of
//! one kernel allocation; releasing it stands for giving that allocation
//! back. The contracts here make the ownership discipline checkable: a
//! handle can be released only while it is live, releasing it touches no
//! other handle, and the number of live handles goes down by exactly one.

use vstd::prelude::*;

verus! {

/// Number of live entries in a sequence of liveness flags.
pub open spec fn count_live(s: Seq<bool>) -> int
    decreases s.len(),
{
    if s.len() == 0 {
        0
    } else {
        count_live(s.drop_last()) + if s.last() {
            1int
        } else {
            0int
        }
    }
}

pub proof fn lemma_count_live_push(s: Seq<bool>, b: bool)
    ensures
        count_live(s.push(b)) == count_live(s) + if b {
            1int
        } else {
            0int
        },
{
    assert(s.push(b).drop_last() =~= s);
}

pub proof fn lemma_count_live_clear(s: Seq<bool>, i: int)
    requires
        0 <= i < s.len(),
        s[i],
    ensures
        count_live(s.update(i, false)) == count_live(s) - 1,
    decreases s.len(),
{
    let t = s.update(i, false);
    if i == s.len() - 1 {
        assert(t.drop_last() =~= s.drop_last());
    } else {
        assert(t.drop_last() =~= s.drop_last().update(i, false));
        lemma_count_live_clear(s.drop_last(), i);
    }
}

/// Ledger of allocations: slot `h` is `true` while the allocation with
/// handle `h` is owned by some wrapper.
pub struct Registry {
    live: Vec<bool>,
}

impl Registry {
    /// All slots ever handed out, live or not.
    pub closed spec fn slots(&self) -> Seq<bool> {
        self.live@
    }

    /// How many allocations are currently live.
    pub open spec fn live_count(&self) -> int {
        count_live(self.slots())
    }

    /// Whether handle `h` refers to a live allocation.
    pub open spec fn is_live_spec(&self, h: int) -> bool {
        0 <= h < self.slots().len() && self.slots()[h]
    }

    /// A fresh ledger with no allocations.
    pub fn new() -> (r: Registry)
        ensures
            r.slots() =~= Seq::<bool>::empty(),
            r.live_count() == 0,
    {
        Registry { live: Vec::new() }
    }

    /// Record ownership of one new kernel allocation.
    pub fn register(&mut self) -> (h: usize)
        ensures
            h as int == old(self).slots().len(),
            final(self).slots() =~= old(self).slots().push(true),
            final(self).live_count() == old(self).live_count() + 1,
            final(self).is_live_spec(h as int),
    {
        let h = self.live.len();
        self.live.push(true);
        proof {
            lemma_count_live_push(old(self).slots(), true);
        }
        h
    }

    /// Give one allocation back. Only a live handle may be released, so a
    /// second release of the same handle is ruled out.
    pub fn release(&mut self, h: usize)
        requires
            old(self).is_live_spec(h as int),
        ensures
            final(self).slots() =~= old(self).slots().update(h as int, false),
            final(self).live_count() == old(self).live_count() - 1,
    {
        self.live[h] = false;
        proof {
            lemma_count_live_clear(old(self).slots(), h as int);
        }
    }

    /// Whether handle `h` is currently live.
    pub fn is_live(&self, h: usize) -> (r: bool)
        ensures
            r == self.is_live_spec(h as int),
    {
        h < self.live.len() && self.live[h]
    }

    /// Number of slots ever handed out.
    pub fn slot_count(&self) -> (n: usize)
        ensures
            n as int == self.slots().len(),
    {
        self.live.len()
    }

    /// Number of allocations currently live.
    pub fn live_total(&self) -> (n: usize)
        ensures
            n as int == self.live_count(),
    {
        let mut n: usize = 0;
        let mut i: usize = 0;
        while i < self.live.len()
            invariant
                i <= self.live@.len(),
                n as int == count_live(self.live@.take(i as int)),
                n <= i,
            decreases self.live@.len() - i,
        {
            proof {
                assert(self.live@.take(i as int + 1).drop_last() =~= self.live@.take(i as int));
            }
            if self.live[i] {
                n = n + 1;
            }
            i = i + 1;
        }
        proof {
            assert(self.live@.take(self.live@.len() as int) =~= self.live@);
        }
        n
    }
}

/// Law: releases are order-independent and isolated. For two distinct live
/// handles, releasing one leaves the other live, the two release orders end
/// in the same ledger, and together they free exactly two allocations. With
/// `Registry::release` requiring a live handle, this is why destroying N
/// wrappers in any order releases exactly N allocations, never more or
/// fewer.
pub proof fn lemma_release_order_independent(s: Seq<bool>, i: int, j: int)
    requires
        0 <= i < s.len(),
        0 <= j < s.len(),
        i != j,
        s[i],
        s[j],
    ensures
        s.update(i, false)[j],
        s.update(i, false).update(j, false) =~= s.update(j, false).update(i, false),
        count_live(s.update(i, false).update(j, false)) == count_live(s) - 2,
{
    lemma_count_live_clear(s, i);
    lemma_count_live_clear(s.update(i, false), j);
}

} // verus!
