//! Ownership-disciplined mutual-exclusion containers for kernel code, with
//! verified contracts.
//!
//! A protected value lives in a single stable pool allocation and is reached
//! only through a scoped guard; every operation that would be fatal at the
//! wrong execution level is gated against a named ceiling and reports a
//! typed error instead.  Two backend variants share one contract: the
//! event-wait backend ([`kmutex::KMutex`]) and the fast backend
//! ([`fast_mutex::FastMutex`]).  The Global Reference Tracker
//! ([`grt::Grt`]) is a keyed registry of type-erased containers with a
//! checked downcast on retrieval.
//!
//! The two kernel collaborators — the non-paged pool and the execution-level
//! query — appear as explicit arguments: the pool as the account type
//! [`pool::KMAlloc`], the level as a plain ordinal compared against the
//! ceilings in [`irql`].  Everything the crate decides about them is stated
//! in contracts and verified.

pub mod erased;
pub mod errors;
pub mod fast_mutex;
pub mod grt;
pub mod irql;
pub mod kmutex;
pub mod mutex;
pub mod pool;
