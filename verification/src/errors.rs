//! Error types reported by the mutex containers and the Global Reference
//! Tracker.

use vstd::prelude::*;

verus! {

/// Failures of the exclusive-access containers.
///
/// Every fallible container entry point reports one of these values instead
/// of reaching a state that would halt the kernel.
#[derive(Clone, Copy, Debug, PartialEq, Eq, Structural)]
pub enum DriverMutexError {
    /// The operation was attempted above its permitted execution level.
    IrqlTooHigh,
    /// The operation needed the caller to run at APC level and it did not.
    IrqlNotAPCLevel,
    /// The pool could not furnish the backing allocation.
    PagedPoolAllocFailed,
}

/// Failures of the Global Reference Tracker.
#[derive(Clone, Copy, Debug, PartialEq, Eq, Structural)]
pub enum GrtError {
    /// `init` was called while the tracker was already present.
    GrtAlreadyExists,
    /// The tracker is absent: `init` has not run, or `destroy` already ran.
    GrtIsNull,
    /// The tracker holds no entries at all.
    GrtIsEmpty,
    /// No entry is registered under the requested key.
    KeyNotFound,
    /// The checked registration path found the key already taken.
    KeyExists,
    /// The entry under the key does not hold the requested type.
    DowncastError,
    /// Constructing the backing mutex failed; the container error is kept.
    DriverMutexError(DriverMutexError),
}

} // verus!
