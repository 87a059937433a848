//! Scheduling engine for a one-shot deferred shutdown.
//!
//! The engine converts a scheduling request into an absolute monotonic
//! deadline, tracks that deadline in a single shared store guarded by a
//! generation token, and decides on each one-second cycle whether to keep
//! ticking, warn, fire, or stand down. All time values are plain integers:
//! monotonic instants in milliseconds, wall-clock time as seconds past the
//! local midnight.

pub mod laws;
pub mod resolver;
pub mod scheduler;
