//! A monotonic clock that reports nanosecond timestamps.
//!
//! The native timer read belongs to the caller; this crate turns what the
//! platform hands back into a nanosecond count, with the conversion factor
//! fixed once when a clock is built.
use vstd::prelude::*;

pub mod monotonic;

pub use monotonic::{Monotonic, TickMonotonic};

verus! {

} // verus!
