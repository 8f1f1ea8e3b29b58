//! Verified core of a load generator that drives CPU, memory and loopback
//! network in sine-shaped patterns so that system monitors draw smooth waves.

pub mod cli;
pub mod clock;
pub mod control;
pub mod cpu;
pub mod memory;
pub mod net;
pub mod pattern;

use vstd::prelude::*;

verus! {

/// Driver tick granularity in milliseconds.
pub const TICK_MS: u64 = 100;

} // verus!
