//! Verifying-side handles of the proof-relay prototype.

use vstd::prelude::*;

verus! {

/// Handle to the SNARK verification library. The verification key and its
/// companions live behind the outside library, so the handle itself carries
/// no state.
pub struct ZKSnarkLibs {}

impl ZKSnarkLibs {
    /// A fresh verification-library handle.
    pub fn new() -> Self {
        Self {  }
    }
}

} // verus!
