//! The transaction payload carrier of the proof-relay prototype.

use vstd::prelude::*;

verus! {

/// A transaction's raw payload, as handed to the sequencer.
#[derive(Debug, Clone)]
pub struct Transaction {
    pub data: Vec<u8>,
}

impl Transaction {
    /// Wrap a raw payload.
    pub fn new(data: Vec<u8>) -> (r: Self)
        ensures
            r.data@ == data@,
    {
        Self { data }
    }
}

} // verus!
