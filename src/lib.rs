use vstd::prelude::*;

pub mod archive;
pub mod engine;
pub mod error;
pub mod job;
pub mod rules;

verus! {

/// Upper bound, in bytes, on a retrieved artifact held in memory.
pub const MAX_SIZE: usize = 250000000;

} // verus!
