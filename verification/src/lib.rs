//! Core of a concurrent WebSocket load-generation and measurement engine.
//!
//! The crate holds the verified logic of the engine: the shared statistics
//! aggregators, the admission scheduler's batching rules, the connection
//! lifetime classification, and the per-message steps of the pluggable
//! workloads. Everything that touches a socket, a clock, a lock or an async
//! runtime lives outside this crate and drives these functions with plain
//! values.
//!
//! A small side module, [`rollup`], holds the plain payload carriers of the
//! companion proof-relay prototype that shares this codebase.

pub mod rollup;
pub mod run;
pub mod sched;
pub mod stats;
pub mod supervisor;
pub mod trace;
pub mod workload;
