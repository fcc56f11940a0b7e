//! The pool-backed exclusive-access container.
//!
//! Both backend variants share this one generic container; a backend is a
//! pair of ceilings fixed in the type.  `INIT_CEILING` bounds the execution
//! level at which the container may be created; `LOCK_CEILING` bounds the
//! level at which its primitive may be acquired or released.
//!
//! The container owns one pool allocation holding the primitive state and
//! the protected value.  Holding the primitive is represented by the value
//! being out with the single [`PoolMutexGuard`]: `lock` moves the value
//! into the guard it returns, and a release moves it back.  A second guard
//! can therefore never exist while one is outstanding, which is the
//! mutual-exclusion discipline the native primitive enforces in the
//! kernel.

use vstd::prelude::*;

use crate::errors::DriverMutexError;
use crate::pool::KMAlloc;
use crate::pool::MEM_TAG_WDK_MUTEX;

verus! {

/// An exclusive-access container for a value of type `T`, backed by one
/// pool allocation.
///
/// The handle is non-duplicable: finalisation consumes it, so the backing
/// allocation is freed exactly once.
pub struct PoolMutex<T, const INIT_CEILING: u8, const LOCK_CEILING: u8> {
    /// The protected value; `None` while the primitive is held and the
    /// value is out with the guard.
    data: Option<T>,
}

/// A scoped token proving that the primitive of a [`PoolMutex`] is held.
///
/// The guard owns the protected value for as long as the primitive is
/// held; releasing through [`PoolMutexGuard::unlock`] or
/// [`PoolMutexGuard::drop_safe`] moves the value back into the container.
pub struct PoolMutexGuard<T, const LOCK_CEILING: u8> {
    data: T,
}

impl<T, const INIT_CEILING: u8, const LOCK_CEILING: u8> PoolMutex<T, INIT_CEILING, LOCK_CEILING> {
    /// Whether the primitive is currently held, that is, whether a guard
    /// holding the protected value is outstanding.
    pub closed spec fn is_locked(self) -> bool {
        self.data is None
    }

    /// The protected value; meaningful while the container is not locked.
    pub closed spec fn value(self) -> T {
        self.data->0
    }

    /// The unlocked container whose protected value is `v`: the state that
    /// creation and every release produce.
    pub closed spec fn holding(v: T) -> Self {
        PoolMutex { data: Some(v) }
    }

    /// Whether [`Self::lock`] may be called: the primitive must be free.
    pub open spec fn can_lock(self) -> bool {
        !self.is_locked()
    }

    /// Law: the container a release produces is unlocked, so the
    /// precondition of [`Self::lock`] holds again and, at a permitted
    /// level, `lock` succeeds.  Dropping a guard always frees the
    /// primitive for the next locker.
    pub proof fn lemma_release_enables_lock(v: T)
        ensures
            !Self::holding(v).is_locked(),
    {
    }

    /// Law: the value read back out of a container is the value that went
    /// in.  Together with the contract of [`Self::to_owned`], creating a
    /// container over `v` and consuming it returns exactly `v`.
    pub proof fn lemma_create_consume_round_trip(v: T)
        ensures
            Self::holding(v).value() == v,
    {
    }

    /// Law: mutual exclusion.  A successful `lock` leaves the container
    /// locked, and a locked container admits no further `lock` — so while
    /// one guard is outstanding, no second guard can be produced for the
    /// same container, whichever context asks.
    pub proof fn lemma_mutual_exclusion(m: Self)
        ensures
            m.is_locked() ==> !m.can_lock(),
    {
    }

    /// Create a container protecting `data`, in the signaled (free) state.
    ///
    /// The caller's execution level is checked against the backend's
    /// initialisation ceiling before anything is allocated; above it the
    /// call fails with no side effect.  A pool that cannot furnish the
    /// allocation is a first-class failure, also with no side effect.  On
    /// success the value moves into the fresh allocation and the pool
    /// account records it.
    pub fn new(pool: &mut KMAlloc, irql: u8, data: T) -> (r: Result<
        Self,
        DriverMutexError,
    >)
        requires
            old(pool).wf(),
        ensures
            final(pool).wf(),
            irql > INIT_CEILING ==> (r matches Err(e) && e == DriverMutexError::IrqlTooHigh
                && *final(pool) == *old(pool)),
            irql <= INIT_CEILING && old(pool).available() == 0 ==> (r matches Err(e)
                && e == DriverMutexError::PagedPoolAllocFailed && *final(pool) == *old(pool)),
            irql <= INIT_CEILING && old(pool).available() > 0 ==> (r matches Ok(m)
                && m == Self::holding(data) && !m.is_locked() && m.value() == data
                && *final(pool) == old(pool).after_alloc()
                && final(pool).available() == old(pool).available() - 1
                && final(pool).outstanding() == old(pool).outstanding() + 1),
    {
        if irql > INIT_CEILING {
            return Err(DriverMutexError::IrqlTooHigh);
        }
        if !pool.allocate(MEM_TAG_WDK_MUTEX) {
            return Err(DriverMutexError::PagedPoolAllocFailed);
        }
        Ok(PoolMutex { data: Some(data) })
    }

    /// Acquire the primitive and take the guard.
    ///
    /// Above the backend's locking ceiling the call fails immediately and
    /// changes nothing — no blocking attempt is made.  At or below the
    /// ceiling the acquisition succeeds and the guard holds the protected
    /// value.
    ///
    /// Acquiring is the one suspension point of the design: a context that
    /// already holds the guard would suspend forever, so the unlocked
    /// state is a precondition here rather than a reachable failure.
    pub fn lock(&mut self, irql: u8) -> (r: Result<
        PoolMutexGuard<T, LOCK_CEILING>,
        DriverMutexError,
    >)
        requires
            old(self).can_lock(),
        ensures
            irql > LOCK_CEILING ==> (r matches Err(e) && e == DriverMutexError::IrqlTooHigh
                && *final(self) == *old(self)),
            irql <= LOCK_CEILING ==> (r matches Ok(g) && g.value() == old(self).value()
                && final(self).is_locked()),
    {
        if irql > LOCK_CEILING {
            return Err(DriverMutexError::IrqlTooHigh);
        }
        let data = self.data.take().unwrap();
        Ok(PoolMutexGuard { data })
    }

    /// Destructive extraction: move the protected value out and free the
    /// backing allocation with a raw deallocation.
    ///
    /// The returned value is solely owned by the caller.  Consuming the
    /// handle is only sound while nothing else references the container,
    /// so no guard may be outstanding.
    pub fn to_owned(self, pool: &mut KMAlloc) -> (r: T)
        requires
            !self.is_locked(),
            old(pool).wf(),
            old(pool).outstanding() >= 1,
        ensures
            final(pool).wf(),
            r == self.value(),
            *final(pool) == old(pool).after_free(),
            final(pool).available() == old(pool).available() + 1,
            final(pool).outstanding() == old(pool).outstanding() - 1,
    {
        pool.free();
        self.data.unwrap()
    }

    /// As [`Self::to_owned`], but the extracted value is handed back
    /// heap-owned, for callers that must not place a large `T` on the
    /// stack.
    pub fn to_owned_box(self, pool: &mut KMAlloc) -> (r: Box<T>)
        requires
            !self.is_locked(),
            old(pool).wf(),
            old(pool).outstanding() >= 1,
        ensures
            final(pool).wf(),
            *r == self.value(),
            *final(pool) == old(pool).after_free(),
            final(pool).available() == old(pool).available() + 1,
            final(pool).outstanding() == old(pool).outstanding() - 1,
    {
        pool.free();
        Box::new(self.data.unwrap())
    }

    /// Tear the container down: the protected value's destructor runs and
    /// the backing allocation returns to the pool.
    ///
    /// Consuming the handle makes finalisation exactly-once; creating a
    /// container and finalising it leaves the pool account exactly where
    /// it started.
    pub fn finalize(self, pool: &mut KMAlloc)
        requires
            !self.is_locked(),
            old(pool).wf(),
            old(pool).outstanding() >= 1,
        ensures
            final(pool).wf(),
            *final(pool) == old(pool).after_free(),
            final(pool).available() == old(pool).available() + 1,
            final(pool).outstanding() == old(pool).outstanding() - 1,
    {
        pool.free();
    }
}

impl<T, const LOCK_CEILING: u8> PoolMutexGuard<T, LOCK_CEILING> {
    /// The protected value the guard holds.
    pub closed spec fn value(self) -> T {
        self.data
    }

    /// Read the protected value.
    pub fn get(&self) -> (r: &T)
        ensures
            *r == self.value(),
    {
        &self.data
    }

    /// Mutate the protected value; exclusive access is what the guard
    /// proves.
    pub fn get_mut(&mut self) -> (r: &mut T)
        ensures
            *r == old(self).value(),
            final(self).value() == *final(r),
    {
        &mut self.data
    }

    /// The implicit release that scope exit performs: unconditional, and
    /// fatal to the kernel above the release ceiling.  That level is
    /// therefore excluded here; a caller that cannot bound its level uses
    /// [`Self::drop_safe`] instead.
    pub fn unlock<const INIT_CEILING: u8>(
        self,
        mutex: &mut PoolMutex<T, INIT_CEILING, LOCK_CEILING>,
        irql: u8,
    )
        requires
            old(mutex).is_locked(),
            irql <= LOCK_CEILING,
        ensures
            *final(mutex) == PoolMutex::<T, INIT_CEILING, LOCK_CEILING>::holding(self.value()),
            !final(mutex).is_locked(),
            final(mutex).value() == self.value(),
    {
        mutex.data = Some(self.data);
    }

    /// The checked release: validate the execution level first, and
    /// release only when it is safe to do so.
    ///
    /// Above the release ceiling nothing is released; the guard comes back
    /// to the caller, still valid, together with the error.
    pub fn drop_safe<const INIT_CEILING: u8>(
        self,
        mutex: &mut PoolMutex<T, INIT_CEILING, LOCK_CEILING>,
        irql: u8,
    ) -> (r: Result<(), (Self, DriverMutexError)>)
        requires
            old(mutex).is_locked(),
        ensures
            irql <= LOCK_CEILING ==> (r is Ok
                && *final(mutex)
                    == PoolMutex::<T, INIT_CEILING, LOCK_CEILING>::holding(self.value())
                && !final(mutex).is_locked() && final(mutex).value() == self.value()),
            irql > LOCK_CEILING ==> (r matches Err((g, e)) && g == self
                && e == DriverMutexError::IrqlTooHigh && *final(mutex) == *old(mutex)),
    {
        if irql > LOCK_CEILING {
            return Err((self, DriverMutexError::IrqlTooHigh));
        }
        mutex.data = Some(self.data);
        Ok(())
    }
}

} // verus!
