//! The non-paged pool collaborator.
//!
//! The containers of this crate keep each protected value in a single
//! stable pool allocation.  The raw allocator itself is outside the scope
//! of the crate; what matters to the containers is only its observable
//! account: how many allocations it can still furnish and how many are
//! outstanding.  `KMAlloc` keeps exactly that account, so every
//! allocate/free decision of the containers is verified against it, and a
//! caller can check that teardown really returns the account to zero.

use vstd::prelude::*;

verus! {

/// The 4-byte tag, `kmtx` read as a big-endian word, that marks every
/// allocation made on behalf of the mutex containers.
pub const MEM_TAG_WDK_MUTEX: u32 = 0x6B6D7478;

/// The account of a non-paged pool: allocations it can still furnish and
/// allocations currently outstanding.
///
/// An allocation is counted as one unit whatever its byte size; absence of
/// memory is a first-class outcome of [`KMAlloc::allocate`], never a panic.
pub struct KMAlloc {
    available: u64,
    outstanding: u64,
}

impl KMAlloc {
    /// How many further allocations the pool can furnish.
    pub closed spec fn available(self) -> u64 {
        self.available
    }

    /// How many allocations are outstanding, that is, not yet freed.
    pub closed spec fn outstanding(self) -> u64 {
        self.outstanding
    }

    /// The pool keeps its account: the two counters never overflow
    /// together.
    pub closed spec fn wf(self) -> bool {
        self.available + self.outstanding <= u64::MAX
    }

    /// The pool state after one allocation has been furnished.
    pub closed spec fn after_alloc(self) -> KMAlloc {
        KMAlloc {
            available: (self.available - 1) as u64,
            outstanding: (self.outstanding + 1) as u64,
        }
    }

    /// The pool state after one outstanding allocation has been freed.
    pub closed spec fn after_free(self) -> KMAlloc {
        KMAlloc {
            available: (self.available + 1) as u64,
            outstanding: (self.outstanding - 1) as u64,
        }
    }

    /// A fresh pool able to furnish `capacity` allocations.
    pub fn new(capacity: u64) -> (r: KMAlloc)
        ensures
            r.wf(),
            r.available() == capacity,
            r.outstanding() == 0,
    {
        KMAlloc { available: capacity, outstanding: 0 }
    }

    /// Request one allocation, marked with `tag` for diagnostic tooling.
    ///
    /// Returns `true` exactly when the pool furnished the allocation; an
    /// exhausted pool answers `false` and is left unchanged.
    pub fn allocate(&mut self, tag: u32) -> (r: bool)
        requires
            old(self).wf(),
        ensures
            final(self).wf(),
            r == (old(self).available() > 0),
            r ==> *final(self) == old(self).after_alloc(),
            r ==> final(self).available() == old(self).available() - 1
                && final(self).outstanding() == old(self).outstanding() + 1,
            !r ==> *final(self) == *old(self),
    {
        let _ = tag;
        if self.available == 0 {
            return false;
        }
        self.available = self.available - 1;
        self.outstanding = self.outstanding + 1;
        true
    }

    /// Return one outstanding allocation to the pool.
    ///
    /// Freeing more than was allocated would be a double free, which the
    /// containers never do; the precondition records that.
    pub fn free(&mut self)
        requires
            old(self).wf(),
            old(self).outstanding() >= 1,
        ensures
            final(self).wf(),
            *final(self) == old(self).after_free(),
            final(self).available() == old(self).available() + 1,
            final(self).outstanding() == old(self).outstanding() - 1,
    {
        self.available = self.available + 1;
        self.outstanding = self.outstanding - 1;
    }

    /// Read the outstanding count, so a caller can confirm that teardown
    /// freed everything.
    pub fn outstanding_count(&self) -> (r: u64)
        ensures
            r == self.outstanding(),
    {
        self.outstanding
    }

    /// Read how many allocations the pool can still furnish.
    pub fn available_count(&self) -> (r: u64)
        ensures
            r == self.available(),
    {
        self.available
    }
}

/// Law: creating a container and finalising it deallocates the backing
/// allocation exactly once — the pool returns to its starting account.
/// [`crate::mutex::PoolMutex::new`] moves the pool to `after_alloc`;
/// [`crate::mutex::PoolMutex::finalize`] (or a consuming extraction)
/// moves it to `after_free`; the two compose to no net change.
pub proof fn lemma_create_then_finalize_frees_once(pool: KMAlloc)
    requires
        pool.wf(),
        pool.available() > 0,
    ensures
        pool.after_alloc().after_free() == pool,
{
}

} // verus!
