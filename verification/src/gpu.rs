//! The GPU handle ledger: every GPU-owning wrapper (buffer, program,
//! texture, framebuffer, renderbuffer) draws its handle from here, and
//! returns it exactly once. The ledger's live set is ghost state: the host
//! shell mirrors each allocation and release with the corresponding
//! graphics-API create and delete call.

use vstd::prelude::*;

verus! {

/// Allocator and ownership ledger for GPU object handles.
pub struct Gpu {
    next: u64,
    live: Ghost<Set<u64>>,
}

impl Gpu {
    /// The set of handles that are currently allocated and not yet released.
    pub closed spec fn live(self) -> Set<u64> {
        self.live@
    }

    /// The next handle value to be allocated.
    pub closed spec fn next_handle(self) -> int {
        self.next as int
    }

    /// Every live handle was allocated before `next_handle`.
    pub closed spec fn wf(self) -> bool {
        forall|h: u64| self.live@.contains(h) ==> h < self.next
    }

    /// A fresh ledger with no live handles.
    pub fn new() -> (r: Gpu)
        ensures
            r.wf(),
            r.live() == Set::<u64>::empty(),
            r.next_handle() == 0,
    {
        Gpu { next: 0, live: Ghost(Set::empty()) }
    }

    /// Allocates a fresh handle: one that is distinct from every handle
    /// currently live.
    pub fn allocate(&mut self) -> (h: u64)
        requires
            old(self).wf(),
            old(self).next_handle() < u64::MAX,
        ensures
            final(self).wf(),
            h == old(self).next_handle(),
            !old(self).live().contains(h),
            final(self).live() == old(self).live().insert(h),
            final(self).next_handle() == old(self).next_handle() + 1,
    {
        let h = self.next;
        self.next = self.next + 1;
        proof {
            self.live@ = self.live@.insert(h);
        }
        h
    }

    /// Releases a live handle. A handle can only be released while it is
    /// live, so each handle is released at most once.
    pub fn release(&mut self, h: u64)
        requires
            old(self).wf(),
            old(self).live().contains(h),
        ensures
            final(self).wf(),
            final(self).live() == old(self).live().remove(h),
            final(self).next_handle() == old(self).next_handle(),
    {
        proof {
            self.live@ = self.live@.remove(h);
        }
    }
}

} // verus!
