//! Execution levels.
//!
//! Kernel code runs at an ordinal priority, the IRQL, that bounds which
//! operations may block or allocate.  Every operation of this crate that
//! could be fatal when misused takes the caller's current level as an
//! explicit argument and is gated against a named ceiling, so the gating
//! decisions are part of the verified logic rather than hidden behind a
//! global query.

use vstd::prelude::*;

verus! {

/// The ordinary level at which most driver code runs.
pub const PASSIVE_LEVEL: u8 = 0;

/// The level of asynchronous procedure calls.
pub const APC_LEVEL: u8 = 1;

/// The dispatcher level: the highest level at which the pool may still be
/// used, and the ceiling for initialising either mutex backend.
pub const DISPATCH_LEVEL: u8 = 2;

/// The highest device interrupt level; useful to exercise the gating paths.
pub const HIGH_LEVEL: u8 = 15;

} // verus!
