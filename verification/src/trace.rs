//! Interleaved traces of a whole run.
//!
//! [`crate::run`] accounts for a run slot by slot, as if each slot applied
//! its counter updates in one piece. In a live run the slots' tasks
//! interleave freely: between two updates of one slot, any number of updates
//! of other slots may hit the shared counters. This module models that
//! directly: each slot is in a phase, one step advances one slot by one
//! counter update, and the bookkeeping invariant [`run_inv`] ties the shared
//! counters to the phases of all slots — at every instant, under every
//! interleaving. The invariant yields the spec's running guarantee
//! (`connect >= alive` at any instant) and the terminal accounting
//! (`complete == total == error + lost + close`, `alive == 0`).

use crate::stats::{
    connect_stats_init, cs_attempt, cs_complete, cs_conclude, cs_elapsed, cs_error,
    cs_established, ConnectStatsV,
};
use crate::supervisor::Outcome;
use vstd::prelude::*;

verus! {

/// How a slot's task left the connecting-or-alive stage.
pub enum SlotEnd {
    /// It failed before becoming alive.
    ByError,
    /// It was alive and was classified with this outcome.
    ByOutcome(Outcome),
}

/// The phase one slot's task is in, between the counter updates it applies.
pub enum SlotPhase {
    /// Admitted; its connect call is not yet recorded.
    Ready,
    /// Its connect call is recorded and in flight.
    Connecting,
    /// Established and running its workload.
    Alive,
    /// Its terminal counter is recorded; its completion mark is still owed.
    Settled(SlotEnd),
    /// Finished: its completion mark is recorded.
    Done(SlotEnd),
}

/// One counter update of one slot's task.
pub enum SlotStep {
    /// `record_attempt`: the connect call starts.
    Attempt,
    /// `record_elapsed`: the wall clock is observed after the connect call.
    Observe { elapsed: int },
    /// `record_error`: the connect call failed.
    Fail,
    /// `record_established`: the handshake finished.
    Establish { latency: int },
    /// `record_conclusion`: the supervised workload concluded.
    Conclude { outcome: Outcome },
    /// `record_complete`: the slot is finished, whatever its path.
    Finish,
}

/// Whether a slot in phase `p` may apply step `st` next: the protocol every
/// slot's task follows.
pub open spec fn step_enabled(p: SlotPhase, st: SlotStep) -> bool {
    match st {
        SlotStep::Attempt => p is Ready,
        SlotStep::Observe { .. } => p is Connecting,
        SlotStep::Fail => p is Connecting,
        SlotStep::Establish { .. } => p is Connecting,
        SlotStep::Conclude { .. } => p is Alive,
        SlotStep::Finish => p is Settled,
    }
}

/// The phase a slot moves to by applying `st`.
pub open spec fn phase_after(p: SlotPhase, st: SlotStep) -> SlotPhase {
    match st {
        SlotStep::Attempt => SlotPhase::Connecting,
        SlotStep::Observe { .. } => p,
        SlotStep::Fail => SlotPhase::Settled(SlotEnd::ByError),
        SlotStep::Establish { .. } => SlotPhase::Alive,
        SlotStep::Conclude { outcome } => SlotPhase::Settled(SlotEnd::ByOutcome(outcome)),
        SlotStep::Finish => match p {
            SlotPhase::Settled(e) => SlotPhase::Done(e),
            _ => p,
        },
    }
}

/// The counter update that `st` applies to the shared aggregator: exactly the
/// transitions of the aggregator's update methods.
pub open spec fn stats_after(s: ConnectStatsV, st: SlotStep) -> ConnectStatsV {
    match st {
        SlotStep::Attempt => cs_attempt(s),
        SlotStep::Observe { elapsed } => cs_elapsed(s, elapsed),
        SlotStep::Fail => cs_error(s),
        SlotStep::Establish { latency } => cs_established(s, latency),
        SlotStep::Conclude { outcome } => cs_conclude(s, outcome),
        SlotStep::Finish => cs_complete(s),
    }
}

/// Whether `p` carries the error mark.
pub open spec fn marked_error(p: SlotPhase) -> bool {
    ||| p == SlotPhase::Settled(SlotEnd::ByError)
    ||| p == SlotPhase::Done(SlotEnd::ByError)
}

/// Whether `p` carries the mark of outcome `o`.
pub open spec fn marked_outcome(p: SlotPhase, o: Outcome) -> bool {
    ||| p == SlotPhase::Settled(SlotEnd::ByOutcome(o))
    ||| p == SlotPhase::Done(SlotEnd::ByOutcome(o))
}

/// How many slots stand in each class of phases.
pub struct PhaseCounts {
    pub started: int,
    pub alive: int,
    pub complete: int,
    pub errored: int,
    pub lost: int,
    pub closed: int,
}

/// The contribution of one slot in phase `p` to the class counts.
pub open spec fn phase_weight(p: SlotPhase) -> PhaseCounts {
    PhaseCounts {
        started: if p is Ready {
            0int
        } else {
            1int
        },
        alive: if p is Alive {
            1int
        } else {
            0int
        },
        complete: if p is Done {
            1int
        } else {
            0int
        },
        errored: if marked_error(p) {
            1int
        } else {
            0int
        },
        lost: if marked_outcome(p, Outcome::Lost) {
            1int
        } else {
            0int
        },
        closed: if marked_outcome(p, Outcome::Close) {
            1int
        } else {
            0int
        },
    }
}

/// Componentwise sum of two class counts.
pub open spec fn pc_add(a: PhaseCounts, b: PhaseCounts) -> PhaseCounts {
    PhaseCounts {
        started: a.started + b.started,
        alive: a.alive + b.alive,
        complete: a.complete + b.complete,
        errored: a.errored + b.errored,
        lost: a.lost + b.lost,
        closed: a.closed + b.closed,
    }
}

/// No slots counted yet.
pub open spec fn pc_zero() -> PhaseCounts {
    PhaseCounts { started: 0, alive: 0, complete: 0, errored: 0, lost: 0, closed: 0 }
}

/// The class counts over all slots of `ps`.
pub open spec fn phase_counts(ps: Seq<SlotPhase>) -> PhaseCounts
    decreases ps.len(),
{
    if ps.len() == 0 {
        pc_zero()
    } else {
        pc_add(phase_counts(ps.drop_last()), phase_weight(ps.last()))
    }
}

/// The bookkeeping invariant of a run in flight: at any instant, the shared
/// counters are exactly the class counts of the slots' phases.
pub open spec fn run_inv(total: int, ps: Seq<SlotPhase>, s: ConnectStatsV) -> bool {
    &&& ps.len() == total
    &&& s.total == total
    &&& s.connect == phase_counts(ps).started
    &&& s.alive == phase_counts(ps).alive
    &&& s.complete == phase_counts(ps).complete
    &&& s.error == phase_counts(ps).errored
    &&& s.lost == phase_counts(ps).lost
    &&& s.close == phase_counts(ps).closed
}

/// Changing the phase of one slot moves each class count by the weight
/// difference of that slot alone.
proof fn lemma_phase_counts_update(ps: Seq<SlotPhase>, j: int, v: SlotPhase)
    requires
        0 <= j < ps.len(),
    ensures
        ({
            let a = phase_counts(ps.update(j, v));
            let b = phase_counts(ps);
            let wo = phase_weight(ps[j]);
            let wn = phase_weight(v);
            &&& a.started == b.started - wo.started + wn.started
            &&& a.alive == b.alive - wo.alive + wn.alive
            &&& a.complete == b.complete - wo.complete + wn.complete
            &&& a.errored == b.errored - wo.errored + wn.errored
            &&& a.lost == b.lost - wo.lost + wn.lost
            &&& a.closed == b.closed - wo.closed + wn.closed
        }),
    decreases ps.len(),
{
    let ps2 = ps.update(j, v);
    if j == ps.len() - 1 {
        assert(ps2.drop_last() =~= ps.drop_last());
        assert(ps2.last() == v);
    } else {
        assert(ps2.drop_last() =~= ps.drop_last().update(j, v));
        assert(ps2.last() == ps.last());
        lemma_phase_counts_update(ps.drop_last(), j, v);
    }
}

/// The class counts are consistent: every class is within the slot count,
/// a slot is counted started before it can be alive or classified, the
/// classifications are mutually exclusive, and a completed slot is a
/// classified one.
proof fn lemma_phase_counts_bounds(ps: Seq<SlotPhase>)
    ensures
        ({
            let c = phase_counts(ps);
            &&& 0 <= c.started <= ps.len()
            &&& 0 <= c.alive
            &&& 0 <= c.complete
            &&& 0 <= c.errored
            &&& 0 <= c.lost
            &&& 0 <= c.closed
            &&& c.alive + c.errored + c.lost + c.closed <= c.started
            &&& c.complete <= c.errored + c.lost + c.closed
        }),
    decreases ps.len(),
{
    if ps.len() > 0 {
        lemma_phase_counts_bounds(ps.drop_last());
    }
}

/// A run starts with every slot ready and the counters fresh.
pub proof fn lemma_run_inv_init(total: int, ps: Seq<SlotPhase>)
    requires
        0 <= total,
        ps.len() == total,
        forall|i: int| 0 <= i < ps.len() ==> ps[i] is Ready,
    ensures
        run_inv(total, ps, connect_stats_init(total)),
    decreases ps.len(),
{
    if ps.len() > 0 {
        let pre = ps.drop_last();
        assert(forall|i: int| 0 <= i < pre.len() ==> pre[i] == #[trigger] ps[i]);
        lemma_run_inv_init(total - 1, pre);
    }
}

/// Law of interleaved bookkeeping: whichever slot applies whichever of its
/// enabled counter updates next, the run invariant is preserved. Together
/// with [`lemma_run_inv_init`] this holds the invariant at every instant of
/// every interleaving of the slots' tasks.
pub proof fn lemma_step_preserves_inv(
    total: int,
    ps: Seq<SlotPhase>,
    s: ConnectStatsV,
    j: int,
    st: SlotStep,
)
    requires
        run_inv(total, ps, s),
        0 <= j < ps.len(),
        step_enabled(ps[j], st),
    ensures
        run_inv(total, ps.update(j, phase_after(ps[j], st)), stats_after(s, st)),
{
    lemma_phase_counts_update(ps, j, phase_after(ps[j], st));
}

/// Law of the running guarantee: at any instant of a run, no more slots are
/// alive than have started their connect call, every counter is
/// non-negative, and no more slots are complete than are classified.
pub proof fn lemma_run_inv_bounds(total: int, ps: Seq<SlotPhase>, s: ConnectStatsV)
    requires
        run_inv(total, ps, s),
    ensures
        0 <= s.alive <= s.connect <= s.total,
        0 <= s.complete <= s.error + s.lost + s.close,
        s.alive + s.error + s.lost + s.close <= s.connect,
        0 <= s.error && 0 <= s.lost && 0 <= s.close,
{
    lemma_phase_counts_bounds(ps);
}

/// Every slot of `ps` is done.
pub open spec fn all_done(ps: Seq<SlotPhase>) -> bool {
    forall|i: int| 0 <= i < ps.len() ==> ps[i] is Done
}

proof fn lemma_phase_counts_all_done(ps: Seq<SlotPhase>)
    requires
        all_done(ps),
    ensures
        ({
            let c = phase_counts(ps);
            &&& c.started == ps.len()
            &&& c.alive == 0
            &&& c.complete == ps.len()
            &&& c.errored + c.lost + c.closed == ps.len()
        }),
    decreases ps.len(),
{
    if ps.len() > 0 {
        let pre = ps.drop_last();
        assert(forall|i: int| 0 <= i < pre.len() ==> pre[i] == #[trigger] ps[i]);
        lemma_phase_counts_all_done(pre);
        assert(ps[ps.len() - 1] is Done);
    }
}

/// Law of termination for interleaved runs: the moment every slot is done —
/// under whatever interleaving the run took — the counters show
/// `complete == total == error + lost + close` and `alive == 0`.
pub proof fn lemma_interleaved_termination(total: int, ps: Seq<SlotPhase>, s: ConnectStatsV)
    requires
        run_inv(total, ps, s),
        all_done(ps),
    ensures
        s.complete == s.total,
        s.total == total,
        s.error + s.lost + s.close == s.total,
        s.alive == 0,
{
    lemma_phase_counts_all_done(ps);
}

} // verus!
