//! Proving-side handles of the proof-relay prototype.

use vstd::prelude::*;

verus! {

/// Handle to the SNARK proving library. The proving key and its companions
/// live behind the outside library, so the handle itself carries no state.
pub struct ZKSnarkLibs {}

impl ZKSnarkLibs {
    /// A fresh proving-library handle.
    pub fn new() -> Self {
        Self {  }
    }
}

/// What one program execution cost, as measured by the estimator.
#[derive(Debug, Clone, Copy, PartialEq, Eq, Structural)]
pub struct ResourceUsage {
    pub cpu_cycles: u64,
    pub memory_usage: u64,
}

} // verus!
