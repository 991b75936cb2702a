//! The lifetime supervisor: bounds one connection's workload by the keepalive
//! ceiling and classifies how the connection ended.
//!
//! The runner races the workload against a timer of `second` seconds (no timer
//! when `second == 0`) and reports which side won as a [`WorkloadEnd`];
//! [`keepalive`] and [`classify_outcome`] then decide the terminal
//! classification. The asymmetry is deliberate: a workload overtaken by the
//! timer is the intended, graceful stop ([`Outcome::Close`]), while a workload
//! that concluded on its own — by success, by failure, or because the remote
//! ended the stream — ended before its allotted lifetime and is always
//! [`Outcome::Lost`].

use vstd::prelude::*;

verus! {

/// Failure conditions of one connection slot.
#[derive(Debug, Clone, Copy, PartialEq, Eq, Structural)]
pub enum Error {
    /// Transport failure.
    IO,
    /// Protocol failure during the upgrade handshake or a frame exchange.
    Ws,
    /// Connecting plus upgrading exceeded the fixed deadline.
    ConnectTimeout,
    /// The keepalive ceiling fired while the connection was alive. Internal
    /// signal: it is translated to [`Outcome::Close`], never surfaced.
    AliveTimeout,
    /// The connection ended before its allotted lifetime.
    Lost,
}

/// How the supervised race concluded: either the workload itself finished,
/// well or badly, or the ceiling timer fired first.
#[derive(Debug, Clone, Copy, PartialEq, Eq, Structural)]
pub enum WorkloadEnd {
    /// The workload ran to natural completion.
    Done,
    /// The workload stopped with a failure of its own.
    Failed(Error),
    /// The ceiling timer fired before the workload concluded; the workload is
    /// abandoned in place. Only possible with a positive ceiling.
    Ceiling,
}

/// Terminal classification of a connection that reached the alive state.
#[derive(Debug, Clone, Copy, PartialEq, Eq, Structural)]
pub enum Outcome {
    /// Deliberately cut off because it reached its lifetime ceiling.
    Close,
    /// Ended — for any reason, failure or clean — before the ceiling.
    Lost,
}

/// What supervising a workload returns: the ceiling becomes `AliveTimeout`,
/// natural completion is passed through, and any failure of the workload's
/// own collapses to `Lost`.
pub open spec fn keepalive_spec(second: u64, end: WorkloadEnd) -> Result<(), Error> {
    match end {
        WorkloadEnd::Done => Ok(()),
        WorkloadEnd::Failed(_) => Err(Error::Lost),
        WorkloadEnd::Ceiling => Err(Error::AliveTimeout),
    }
}

/// Fold the observed end of a workload, supervised under a ceiling of
/// `second` seconds, into the supervisor's result. With `second == 0` there
/// is no timer, so the ceiling cannot be the end.
pub fn keepalive(second: u64, end: WorkloadEnd) -> (r: Result<(), Error>)
    requires
        second == 0 ==> !(end is Ceiling),
    ensures
        r == keepalive_spec(second, end),
{
    match end {
        WorkloadEnd::Done => Ok(()),
        WorkloadEnd::Failed(_) => Err(Error::Lost),
        WorkloadEnd::Ceiling => Err(Error::AliveTimeout),
    }
}

/// Terminal classification of a supervisor result: only the ceiling's own
/// signal counts as `Close`; everything else — success included — is `Lost`.
pub open spec fn outcome_spec(r: Result<(), Error>) -> Outcome {
    if r == Err::<(), Error>(Error::AliveTimeout) {
        Outcome::Close
    } else {
        Outcome::Lost
    }
}

/// Classify how a supervised connection ended.
pub fn classify_outcome(r: &Result<(), Error>) -> (o: Outcome)
    ensures
        o == outcome_spec(*r),
{
    match r {
        Err(Error::AliveTimeout) => Outcome::Close,
        _ => Outcome::Lost,
    }
}

/// Law of keepalive classification. With any ceiling, a workload overtaken by
/// the timer — in particular one that never terminates naturally under a
/// positive ceiling — is always classified `Close`; a workload that concluded
/// on its own, even cleanly because the remote closed the stream at once, is
/// always classified `Lost`, never an error.
pub proof fn lemma_outcome_classification(second: u64, end: WorkloadEnd)
    requires
        second == 0 ==> !(end is Ceiling),
    ensures
        end is Ceiling ==> outcome_spec(keepalive_spec(second, end)) == Outcome::Close,
        !(end is Ceiling) ==> outcome_spec(keepalive_spec(second, end)) == Outcome::Lost,
{
}

} // verus!
