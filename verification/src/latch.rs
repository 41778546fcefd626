use vstd::prelude::*;

verus! {

/// A single-slot exclusion latch: the resource pool of size one that
/// stands before the one provider client. At most one caller holds it
/// at any time; callers that find it held must wait and try again.
pub struct SlotLatch {
    held: bool,
}

/// The latch's transition on an acquisition attempt: a free latch is
/// taken, a held one refuses.
pub closed spec fn latch_acquire(l: SlotLatch) -> (SlotLatch, bool) {
    if l.is_held() {
        (l, false)
    } else {
        (SlotLatch { held: true }, true)
    }
}

/// What an acquisition attempt does: it succeeds exactly on a free
/// latch, and leaves it held either way.
pub proof fn lemma_latch_acquire(l: SlotLatch)
    ensures
        ({
            let (l1, r) = latch_acquire(l);
            r == !l.is_held() && l1.is_held()
        }),
{
}

impl SlotLatch {
    /// Whether some caller holds the latch.
    pub closed spec fn is_held(&self) -> bool {
        self.held
    }

    pub fn new() -> (l: SlotLatch)
        ensures
            !l.is_held(),
    {
        SlotLatch { held: false }
    }

    /// Attempt to take the latch; succeeds exactly when it was free.
    pub fn try_acquire(&mut self) -> (r: bool)
        ensures
            r == !old(self).is_held(),
            final(self).is_held(),
            (*final(self), r) == latch_acquire(*old(self)),
    {
        let r = !self.held;
        self.held = true;
        r
    }

    /// Give the latch back; demands that the caller holds it.
    pub fn release(&mut self)
        requires
            old(self).is_held(),
        ensures
            !final(self).is_held(),
    {
        self.held = false;
    }
}

/// Exclusivity of the latch: once an acquisition succeeds, every
/// further acquisition fails until a release, so no two holders ever
/// overlap.
pub proof fn lemma_latch_excludes_second_holder(l: SlotLatch)
    ensures
        ({
            let (l1, r1) = latch_acquire(l);
            let (l2, r2) = latch_acquire(l1);
            !(r1 && r2)
        }),
{
}

} // verus!
