//! Configuration of the proof-relay prototype.

use vstd::prelude::*;

verus! {

/// Where the proving parameters and the state database live.
#[derive(Debug)]
pub struct Config {
    pub zk_params_path: String,
    pub state_db_path: String,
}

} // verus!
