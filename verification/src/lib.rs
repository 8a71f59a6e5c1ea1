//! A verified core for publishing a game's avatar and camera pose into the
//! fixed-layout shared-memory record read by a positional-audio application
//! speaking the Link protocol.
//!
//! The library owns the byte-exact record layout, the per-tick update
//! protocol, and the attach/update state machine. The surrounding process
//! does the OS work (mapping the shared segment, extracting fields from the
//! host runtime) and hands this library plain values.

use vstd::prelude::*;

pub mod guard;
pub mod laws;
pub mod layout;
pub mod name;
pub mod record;
pub mod wide;

verus! {

/// Total byte size of one Link record.
pub const RECORD_SIZE: usize = 5460;

} // verus!
