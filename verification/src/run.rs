//! The life of one connection slot, and the accounting of a whole run.
//!
//! A slot is admitted, starts its connect call, and then either fails before
//! becoming alive or becomes alive and is later classified by the lifetime
//! supervisor. Every path ends by marking the slot complete, exactly once.
//! The laws below state the counter bookkeeping of these paths with each
//! slot's updates taken in one piece; [`crate::trace`] re-proves the run's
//! accounting for arbitrary interleavings of the slots' tasks.

use crate::stats::{
    connect_stats_init, cs_attempt, cs_complete, cs_conclude, cs_elapsed, cs_error,
    cs_established, ConnectStatsV,
};
use crate::supervisor::Outcome;
use vstd::prelude::*;

verus! {

/// How one slot turned out, as its own task observed it.
pub enum SlotResultV {
    /// The connect call failed before the slot became alive.
    Errored,
    /// The slot became alive after `latency` establishment time and was
    /// classified `outcome` when its supervised workload concluded.
    Finished { latency: int, outcome: Outcome },
}

/// One slot's trace: the wall-clock elapsed value it observed right after its
/// connect call returned, and how it turned out.
pub struct SlotRecord {
    pub elapsed: int,
    pub result: SlotResultV,
}

/// The counter updates of one whole slot, in the order the slot's task
/// applies them: admission, the elapsed observation, then either the error
/// path or the alive path with its terminal classification, and finally the
/// unconditional completion mark.
pub open spec fn slot_apply(s: ConnectStatsV, rec: SlotRecord) -> ConnectStatsV {
    match rec.result {
        SlotResultV::Errored => cs_complete(cs_error(cs_elapsed(cs_attempt(s), rec.elapsed))),
        SlotResultV::Finished { latency, outcome } => cs_complete(
            cs_conclude(cs_established(cs_elapsed(cs_attempt(s), rec.elapsed), latency), outcome),
        ),
    }
}

/// Law of single counting: one slot, from any counter state, increments
/// `complete` exactly once and exactly one of `error`, `lost`, `close` by
/// exactly one, leaves `alive` unchanged on balance, and never touches
/// `total`.
pub proof fn lemma_slot_single_count(s: ConnectStatsV, rec: SlotRecord)
    ensures
        ({
            let s2 = slot_apply(s, rec);
            &&& s2.complete == s.complete + 1
            &&& s2.connect == s.connect + 1
            &&& s2.alive == s.alive
            &&& s2.total == s.total
            &&& s2.error + s2.lost + s2.close == s.error + s.lost + s.close + 1
            &&& (rec.result is Errored ==> s2.error == s.error + 1 && s2.lost == s.lost
                && s2.close == s.close)
            &&& (rec.result matches SlotResultV::Finished { outcome, .. } ==> {
                &&& s2.error == s.error
                &&& (outcome is Lost ==> s2.lost == s.lost + 1 && s2.close == s.close)
                &&& (outcome is Close ==> s2.close == s.close + 1 && s2.lost == s.lost)
            })
        }),
{
}

/// The counters after the slots of `recs` have all run, starting from `s`.
pub open spec fn run_apply(s: ConnectStatsV, recs: Seq<SlotRecord>) -> ConnectStatsV
    decreases recs.len(),
{
    if recs.len() == 0 {
        s
    } else {
        slot_apply(run_apply(s, recs.drop_last()), recs.last())
    }
}

/// The number of slots of `recs` that errored before becoming alive.
pub open spec fn count_errored(recs: Seq<SlotRecord>) -> int
    decreases recs.len(),
{
    if recs.len() == 0 {
        0
    } else {
        count_errored(recs.drop_last()) + if recs.last().result is Errored {
            1int
        } else {
            0int
        }
    }
}

/// The number of slots of `recs` classified lost.
pub open spec fn count_lost(recs: Seq<SlotRecord>) -> int
    decreases recs.len(),
{
    if recs.len() == 0 {
        0
    } else {
        count_lost(recs.drop_last()) + if recs.last().result matches SlotResultV::Finished {
            outcome: Outcome::Lost,
            ..
        } {
            1int
        } else {
            0int
        }
    }
}

/// The number of slots of `recs` classified closed.
pub open spec fn count_closed(recs: Seq<SlotRecord>) -> int
    decreases recs.len(),
{
    if recs.len() == 0 {
        0
    } else {
        count_closed(recs.drop_last()) + if recs.last().result matches SlotResultV::Finished {
            outcome: Outcome::Close,
            ..
        } {
            1int
        } else {
            0int
        }
    }
}

/// Every slot lands in exactly one of the three classifications.
pub proof fn lemma_counts_partition(recs: Seq<SlotRecord>)
    ensures
        count_errored(recs) + count_lost(recs) + count_closed(recs) == recs.len(),
    decreases recs.len(),
{
    if recs.len() > 0 {
        lemma_counts_partition(recs.drop_last());
    }
}

/// Law of run accounting: a run that starts from fresh counters over `total`
/// planned slots and completes the slots of `recs` ends with `complete` and
/// `connect` equal to the number of completed slots, no slot still alive, and
/// each classification counter equal to the number of slots so classified.
pub proof fn lemma_run_accounting(total: int, recs: Seq<SlotRecord>)
    ensures
        ({
            let f = run_apply(connect_stats_init(total), recs);
            &&& f.total == total
            &&& f.complete == recs.len()
            &&& f.connect == recs.len()
            &&& f.alive == 0
            &&& f.error == count_errored(recs)
            &&& f.lost == count_lost(recs)
            &&& f.close == count_closed(recs)
        }),
    decreases recs.len(),
{
    if recs.len() > 0 {
        lemma_run_accounting(total, recs.drop_last());
        lemma_slot_single_count(
            run_apply(connect_stats_init(total), recs.drop_last()),
            recs.last(),
        );
    }
}

/// Law of termination: when every one of the `total` planned slots has
/// completed, `complete == total == error + lost + close` and `alive == 0`,
/// whatever mixture of paths the slots took.
pub proof fn lemma_run_termination(total: int, recs: Seq<SlotRecord>)
    requires
        recs.len() == total,
    ensures
        ({
            let f = run_apply(connect_stats_init(total), recs);
            &&& f.complete == f.total
            &&& f.total == total
            &&& f.error + f.lost + f.close == f.total
            &&& f.alive == 0
        }),
{
    lemma_run_accounting(total, recs);
    lemma_counts_partition(recs);
}

} // verus!
