//! Data shells of the companion proof-relay prototype: the payload carriers
//! handed between its sequencer, prover and verifier, and the placeholder
//! handles of its SNARK libraries. The prototype's own processing lives
//! entirely with outside services; only these plain carriers are part of the
//! library.

pub mod config;
pub mod zk_proof;
pub mod prover;
pub mod transaction;
pub mod verifying;
