//! A small toolkit of low-level synchronization primitives, each given as a
//! verified state-machine model with a precise exclusive-access contract:
//! a flag-based lock with a scoped guard, a reference-counted shared box,
//! a one-shot single-use transfer cell split into sender and receiver
//! capabilities, and a FIFO queue channel.

/// A single-message, single-use transfer cell with sender/receiver capabilities.
pub mod oneshot;
/// An unbounded FIFO channel.
pub mod queue;
/// A shared-ownership box keyed by an explicit owner count.
pub mod refcount;
/// A lock with a boolean exclusion flag and a scoped guard.
pub mod spinlock;
