//! The fast backend.
//!
//! `FastMutex` uses the lighter counter-and-event primitive: lower
//! overhead, but a strictly lower locking ceiling than the event-wait
//! backend.  It may be initialised up to
//! [`crate::irql::DISPATCH_LEVEL`] and locked or released only up to
//! [`crate::irql::APC_LEVEL`]; both ceilings are fixed in the type.

use vstd::prelude::*;

use crate::mutex::PoolMutex;
use crate::mutex::PoolMutexGuard;

verus! {

/// The fast exclusive-access container: initialisation ceiling at the
/// dispatcher level, locking/release ceiling at the APC level.
pub type FastMutex<T> = PoolMutex<T, 2, 1>;

/// The guard of a [`FastMutex`]; it releases under the APC-level ceiling.
pub type FastMutexGuard<T> = PoolMutexGuard<T, 1>;

} // verus!
