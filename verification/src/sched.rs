//! The admission scheduler's plan and the reporter's windowing.
//!
//! A run admits `count` connection slots at `rate` slots per second: slots are
//! launched in batches of `rate`, with a one-second pause after every full
//! batch except the last. The functions here are the plan the runner follows:
//! which batch a slot belongs to, how many batches there are, whether to pause
//! after a given slot, and which local bind address a slot uses.

use vstd::arithmetic::div_mod::{
    lemma_div_is_ordered, lemma_div_nonincreasing, lemma_fundamental_div_mod,
    lemma_fundamental_div_mod_converse_div, lemma_fundamental_div_mod_converse_mod,
    lemma_mod_division_less_than_divisor,
};
use vstd::prelude::*;

verus! {

/// Seconds the scheduler pauses after launching a full batch.
pub const BATCH_PAUSE_SECS: u64 = 1;

/// Seconds between two snapshots of the reporter.
pub const REPORT_INTERVAL_SECS: u64 = 2;

/// Seconds the establisher allows for connecting plus the upgrade handshake,
/// as one fixed deadline; exceeding it is a connect timeout, distinct from
/// ordinary transport failure.
pub const CONNECT_DEADLINE_SECS: u64 = 60;

/// Options of one benchmark run: the target address, the planned connection
/// count, the admission rate in connections per second, the keepalive ceiling
/// in seconds (0 = unbounded), the worker-pool size hint (0 = runtime
/// default), and an optional list of local bind addresses that the slots
/// round-robin over.
#[derive(Debug, Clone)]
pub struct BenchOpts {
    pub url: String,
    pub count: usize,
    pub rate: usize,
    pub keepalive: u64,
    pub threads: usize,
    pub interface: Option<Vec<String>>,
}

/// The batch that slot `i` belongs to: slots are admitted `rate` at a time.
pub open spec fn slot_batch(i: int, rate: int) -> int {
    i / rate
}

/// How many batches a run of `count` slots at `rate` per second issues:
/// `count / rate`, rounded up.
pub open spec fn batch_count_spec(count: int, rate: int) -> int {
    if count % rate == 0 {
        count / rate
    } else {
        count / rate + 1
    }
}

/// Number of admission batches of the run.
pub fn batch_count(count: usize, rate: usize) -> (r: usize)
    requires
        rate >= 1,
    ensures
        r == batch_count_spec(count as int, rate as int),
{
    let q: usize = count / rate;
    if count % rate == 0 {
        q
    } else {
        proof {
            lemma_fundamental_div_mod(count as int, rate as int);
            lemma_mod_division_less_than_divisor(count as int, rate as int);
            assert(q < count) by (nonlinear_arith)
                requires
                    count as int == rate as int * q as int + count as int % rate as int,
                    count as int % rate as int >= 1,
                    rate >= 1,
                    q >= 0,
            {}
        }
        q + 1
    }
}

/// The pacing decision: after launching slot `i`, the scheduler pauses for
/// one second exactly when slot `i` closes a full batch and further slots
/// remain; no pause follows the last batch.
pub open spec fn pace_after_spec(i: int, count: int, rate: int) -> bool {
    (i + 1) % rate == 0 && i + 1 < count
}

/// Whether to pause for one second after launching slot `i`.
pub fn pace_after_slot(i: usize, count: usize, rate: usize) -> (r: bool)
    requires
        rate >= 1,
        i < count,
    ensures
        r == pace_after_spec(i as int, count as int, rate as int),
{
    (i + 1) % rate == 0 && i + 1 < count
}

/// How the batch number moves from slot `i` to slot `i + 1`.
proof fn lemma_batch_step(i: int, rate: int)
    requires
        0 <= i,
        1 <= rate,
    ensures
        (i + 1) % rate == 0 ==> slot_batch(i + 1, rate) == slot_batch(i, rate) + 1,
        (i + 1) % rate != 0 ==> slot_batch(i + 1, rate) == slot_batch(i, rate),
{
    let q = i / rate;
    let r = i % rate;
    lemma_fundamental_div_mod(i, rate);
    lemma_mod_division_less_than_divisor(i, rate);
    assert(rate * q == q * rate) by (nonlinear_arith);
    if r + 1 < rate {
        lemma_fundamental_div_mod_converse_div(i + 1, rate, q, r + 1);
        lemma_fundamental_div_mod_converse_mod(i + 1, rate, q, r + 1);
    } else {
        assert((q + 1) * rate == q * rate + rate) by (nonlinear_arith);
        lemma_fundamental_div_mod_converse_div(i + 1, rate, q + 1, 0);
        lemma_fundamental_div_mod_converse_mod(i + 1, rate, q + 1, 0);
    }
}

/// Where the last slot of the run lands, and that every slot's batch is in
/// range.
proof fn lemma_batch_bound(i: int, count: int, rate: int)
    requires
        1 <= rate,
        0 <= i < count,
    ensures
        0 <= slot_batch(i, rate) < batch_count_spec(count, rate),
        i == count - 1 ==> slot_batch(i, rate) == batch_count_spec(count, rate) - 1,
{
    let qc = count / rate;
    let rc = count % rate;
    lemma_fundamental_div_mod(count, rate);
    lemma_mod_division_less_than_divisor(count, rate);
    lemma_div_nonincreasing(i, rate);
    lemma_div_is_ordered(0, i, rate);
    assert(rate * qc == qc * rate) by (nonlinear_arith);
    if rc == 0 {
        assert((qc - 1) * rate + (rate - 1) == qc * rate - 1) by (nonlinear_arith);
        lemma_fundamental_div_mod_converse_div(count - 1, rate, qc - 1, rate - 1);
        lemma_div_is_ordered(i, count - 1, rate);
    } else {
        lemma_fundamental_div_mod_converse_div(count - 1, rate, qc, rc - 1);
        lemma_div_is_ordered(i, count - 1, rate);
    }
}

/// Law of the admission plan: with admission rate `rate >= 1`, the `count`
/// slots partition into exactly `batch_count_spec(count, rate)` batches; the
/// batch number is the same across two consecutive slots without a pause
/// between them and increases by exactly one across a pause; the run starts
/// at batch 0 and ends in the last batch, and no pause follows the last slot
/// of the run.
pub proof fn lemma_admission_plan(count: int, rate: int)
    requires
        1 <= rate,
        0 <= count,
    ensures
        forall|i: int|
            0 <= i < count ==> 0 <= #[trigger] slot_batch(i, rate) < batch_count_spec(
                count,
                rate,
            ),
        forall|i: int|
            0 <= i < count - 1 ==> #[trigger] slot_batch(i + 1, rate) == slot_batch(i, rate) + (
            if pace_after_spec(i, count, rate) {
                1int
            } else {
                0int
            }),
        count > 0 ==> slot_batch(0, rate) == 0,
        count > 0 ==> slot_batch(count - 1, rate) == batch_count_spec(count, rate) - 1,
        count > 0 ==> !pace_after_spec(count - 1, count, rate),
{
    assert forall|i: int| 0 <= i < count implies 0 <= #[trigger] slot_batch(i, rate)
        < batch_count_spec(count, rate) by {
        lemma_batch_bound(i, count, rate);
    }
    assert forall|i: int| 0 <= i < count - 1 implies #[trigger] slot_batch(i + 1, rate)
        == slot_batch(i, rate) + (
    if pace_after_spec(i, count, rate) {
        1int
    } else {
        0int
    }) by {
        lemma_batch_step(i, rate);
    }
    if count > 0 {
        lemma_batch_bound(count - 1, count, rate);
        lemma_div_is_ordered(0, 0, rate);
    }
}

impl BenchOpts {
    /// The index into the local bind-address list that slot `i` uses:
    /// addresses are round-robined across slots by index. `None` when no
    /// list, or an empty one, was supplied, in which case the slot binds no
    /// explicit local address.
    pub fn interface_for_slot(&self, i: usize) -> (r: Option<usize>)
        ensures
            (match self.interface {
                Option::None => r is None,
                Option::Some(v) => {
                    if v@.len() == 0 {
                        r is None
                    } else {
                        (r matches Option::Some(k) && k as int == i as int % v@.len() as int)
                    }
                },
            }),
    {
        match &self.interface {
            None => None,
            Some(v) => {
                if v.len() == 0 {
                    None
                } else {
                    Some(i % v.len())
                }
            },
        }
    }
}

/// The reporter's between-snapshots window for message workloads: what the
/// previous snapshot showed as completed-and-not-errored round trips and as
/// cumulative bytes.
#[derive(Debug, Clone, Copy, PartialEq, Eq, Structural)]
pub struct ReportWindow {
    pub last_count: usize,
    pub last_size: usize,
}

impl ReportWindow {
    /// A window that has seen nothing yet.
    pub fn new() -> (r: Self)
        ensures
            r.last_count == 0,
            r.last_size == 0,
    {
        ReportWindow { last_count: 0, last_size: 0 }
    }

    /// Advance the window over a fresh message-stats snapshot, returning how
    /// many round trips succeeded and how many bytes crossed since the
    /// previous snapshot. Throughput rates are the caller's to derive from
    /// its own clock. Both counters of a snapshot are non-decreasing over a
    /// run, which is what the preconditions record.
    pub fn advance(&mut self, complete: usize, error: usize, size: usize) -> (r: (usize, usize))
        requires
            error <= complete,
            old(self).last_count <= complete - error,
            old(self).last_size <= size,
        ensures
            r.0 == complete - error - old(self).last_count,
            r.1 == size - old(self).last_size,
            final(self).last_count == complete - error,
            final(self).last_size == size,
    {
        let cur: usize = complete - error;
        let dc: usize = cur - self.last_count;
        let ds: usize = size - self.last_size;
        self.last_count = cur;
        self.last_size = size;
        (dc, ds)
    }
}

} // verus!
