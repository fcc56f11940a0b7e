//! The event-wait backend.
//!
//! `KMutex` acquires its primitive through an alertable, reason-tagged
//! wait.  It may be initialised and locked at any level up to
//! [`crate::irql::DISPATCH_LEVEL`], the highest non-blocking level, and
//! releases under the same ceiling; both ceilings are fixed in the type.

use vstd::prelude::*;

use crate::mutex::PoolMutex;
use crate::mutex::PoolMutexGuard;

verus! {

/// The event-wait exclusive-access container: initialisation ceiling and
/// locking/release ceiling are both the dispatcher level.
pub type KMutex<T> = PoolMutex<T, 2, 2>;

/// The guard of a [`KMutex`]; it releases under the dispatcher-level
/// ceiling.
pub type KMutexGuard<T> = PoolMutexGuard<T, 2>;

} // verus!
