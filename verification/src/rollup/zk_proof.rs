//! The proof payload carrier of the proof-relay prototype.

use vstd::prelude::*;

verus! {

/// A serialized proof, as produced by the prover and read by the verifier.
#[derive(Debug, Clone)]
pub struct Proof {
    pub data: Vec<u8>,
}

impl Proof {
    /// Wrap serialized proof bytes.
    pub fn new(data: Vec<u8>) -> (r: Self)
        ensures
            r.data@ == data@,
    {
        Self { data }
    }
}

} // verus!
