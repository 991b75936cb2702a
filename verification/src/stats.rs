//! Shared statistics aggregators: the running-latency accumulator and the
//! connection-level and message-level counter groups.
//!
//! Each aggregator is a plain value; callers that share one across tasks wrap
//! it in a lock and call exactly one update method per logical event, so that
//! every update is applied atomically as a group.

use crate::supervisor::Outcome;
use vstd::arithmetic::div_mod::{lemma_div_is_ordered, lemma_div_multiples_vanish};
use vstd::prelude::*;

verus! {

/// Ghost image of [`TimeStats`], with unbounded integer fields.
pub struct TimeStatsV {
    pub count: int,
    pub total: int,
    pub avg: int,
    pub min: int,
    pub max: int,
}

/// Running latency accumulator: sample count, running total, running average
/// (`total / count`, integer division), minimum and maximum, in integer time
/// units chosen by the caller (the engine records nanoseconds).
///
/// `count == 0` means that no sample has been recorded yet; the first sample
/// is stored unconditionally as both `min` and `max`. Initialization is
/// tracked by `count` alone, so a genuine first sample of zero duration is
/// kept as the minimum rather than being mistaken for "unset".
#[derive(Debug, Clone, Copy, PartialEq, Eq, Structural)]
pub struct TimeStats {
    pub count: usize,
    pub total: u64,
    pub avg: u64,
    pub min: u64,
    pub max: u64,
}

impl View for TimeStats {
    type V = TimeStatsV;

    open spec fn view(&self) -> TimeStatsV {
        TimeStatsV {
            count: self.count as int,
            total: self.total as int,
            avg: self.avg as int,
            min: self.min as int,
            max: self.max as int,
        }
    }
}

/// The accumulator before any sample.
pub open spec fn time_stats_empty() -> TimeStatsV {
    TimeStatsV { count: 0, total: 0, avg: 0, min: 0, max: 0 }
}

/// One recorded sample: count and total grow, the average is recomputed, and
/// min/max absorb the sample (unconditionally if it is the first one).
pub open spec fn time_stats_add(s: TimeStatsV, t: int) -> TimeStatsV {
    TimeStatsV {
        count: s.count + 1,
        total: s.total + t,
        avg: (s.total + t) / (s.count + 1),
        min: if s.count == 0 { t } else if t < s.min { t } else { s.min },
        max: if s.count == 0 { t } else if t > s.max { t } else { s.max },
    }
}

impl TimeStats {
    /// Record one latency sample.
    pub fn add(self, time: u64) -> (r: Self)
        requires
            self.total + time <= u64::MAX,
            self.count < usize::MAX,
        ensures
            r@ == time_stats_add(self@, time as int),
    {
        let count: usize = self.count + 1;
        let total: u64 = self.total + time;
        let min: u64 = if self.count == 0 {
            time
        } else if time < self.min {
            time
        } else {
            self.min
        };
        let max: u64 = if self.count == 0 {
            time
        } else if time > self.max {
            time
        } else {
            self.max
        };
        TimeStats { count, total, avg: total / (count as u64), min, max }
    }
}

/// The accumulator produced by recording the samples of `samples` in order,
/// starting from the empty accumulator.
pub open spec fn time_stats_of(samples: Seq<u64>) -> TimeStatsV
    decreases samples.len(),
{
    if samples.len() == 0 {
        time_stats_empty()
    } else {
        time_stats_add(time_stats_of(samples.drop_last()), samples.last() as int)
    }
}

/// Sum of a sequence of samples.
pub open spec fn sum_of(samples: Seq<u64>) -> int
    decreases samples.len(),
{
    if samples.len() == 0 {
        0
    } else {
        sum_of(samples.drop_last()) + samples.last()
    }
}

/// Least sample of a non-empty sequence (0 on the empty one).
pub open spec fn min_of(samples: Seq<u64>) -> int
    decreases samples.len(),
{
    if samples.len() == 0 {
        0
    } else if samples.len() == 1 {
        samples.last() as int
    } else if samples.last() < min_of(samples.drop_last()) {
        samples.last() as int
    } else {
        min_of(samples.drop_last())
    }
}

/// Greatest sample of a non-empty sequence (0 on the empty one).
pub open spec fn max_of(samples: Seq<u64>) -> int
    decreases samples.len(),
{
    if samples.len() == 0 {
        0
    } else if samples.len() == 1 {
        samples.last() as int
    } else if samples.last() > max_of(samples.drop_last()) {
        samples.last() as int
    } else {
        max_of(samples.drop_last())
    }
}

proof fn lemma_time_stats_of_core(samples: Seq<u64>)
    requires
        samples.len() >= 1,
    ensures
        ({
            let ts = time_stats_of(samples);
            &&& ts.count == samples.len()
            &&& ts.total == sum_of(samples)
            &&& ts.avg == sum_of(samples) / samples.len() as int
            &&& ts.min == min_of(samples)
            &&& ts.max == max_of(samples)
            &&& samples.len() * ts.min <= ts.total
            &&& ts.total <= samples.len() * ts.max
        }),
    decreases samples.len(),
{
    let ts = time_stats_of(samples);
    let n = samples.len() as int;
    if samples.len() == 1 {
        reveal_with_fuel(time_stats_of, 2);
        reveal_with_fuel(sum_of, 2);
        reveal_with_fuel(min_of, 2);
        reveal_with_fuel(max_of, 2);
        assert(samples.drop_last().len() == 0);
    } else {
        let pre = samples.drop_last();
        lemma_time_stats_of_core(pre);
        let tp = time_stats_of(pre);
        let t = samples.last() as int;
        assert(ts.min <= tp.min && ts.min <= t);
        assert(tp.max <= ts.max && t <= ts.max);
        assert(n * ts.min <= ts.total) by (nonlinear_arith)
            requires
                ts.total == tp.total + t,
                (n - 1) * tp.min <= tp.total,
                ts.min <= tp.min,
                ts.min <= t,
                n >= 2,
        {}
        assert(ts.total <= n * ts.max) by (nonlinear_arith)
            requires
                ts.total == tp.total + t,
                tp.total <= (n - 1) * tp.max,
                tp.max <= ts.max,
                t <= ts.max,
                n >= 2,
        {}
    }
}

/// Law of the latency accumulator: after one or more samples, `count` is the
/// number of samples, `total` their sum, `avg` the integer quotient
/// `total / count`, `min` and `max` the true least and greatest sample, and
/// `min <= avg <= max`.
pub proof fn lemma_time_stats_of(samples: Seq<u64>)
    requires
        samples.len() >= 1,
    ensures
        ({
            let ts = time_stats_of(samples);
            &&& ts.count == samples.len()
            &&& ts.total == sum_of(samples)
            &&& ts.avg == sum_of(samples) / samples.len() as int
            &&& ts.min == min_of(samples)
            &&& ts.max == max_of(samples)
            &&& ts.min <= ts.avg <= ts.max
        }),
{
    lemma_time_stats_of_core(samples);
    let ts = time_stats_of(samples);
    let n = samples.len() as int;
    lemma_div_multiples_vanish(ts.min, n);
    lemma_div_multiples_vanish(ts.max, n);
    lemma_div_is_ordered(n * ts.min, ts.total, n);
    lemma_div_is_ordered(ts.total, n * ts.max, n);
}

/// Law of the extremes: `min_of` and `max_of` bound every sample of the
/// sequence, and each is attained by some sample.
pub proof fn lemma_min_max_of(samples: Seq<u64>)
    requires
        samples.len() >= 1,
    ensures
        forall|i: int|
            0 <= i < samples.len() ==> min_of(samples) <= #[trigger] samples[i] <= max_of(
                samples,
            ),
        exists|i: int| 0 <= i < samples.len() && samples[i] == min_of(samples),
        exists|i: int| 0 <= i < samples.len() && samples[i] == max_of(samples),
    decreases samples.len(),
{
    if samples.len() == 1 {
        assert(samples[0] == samples.last());
    } else {
        let pre = samples.drop_last();
        lemma_min_max_of(pre);
        assert(forall|i: int| 0 <= i < pre.len() ==> pre[i] == #[trigger] samples[i]);
        assert(samples[samples.len() - 1] == samples.last());
        let im = choose|i: int| 0 <= i < pre.len() && pre[i] == min_of(pre);
        let ix = choose|i: int| 0 <= i < pre.len() && pre[i] == max_of(pre);
        if samples.last() < min_of(pre) {
            assert(samples[samples.len() - 1] == min_of(samples));
        } else {
            assert(samples[im] == min_of(samples));
        }
        if samples.last() > max_of(pre) {
            assert(samples[samples.len() - 1] == max_of(samples));
        } else {
            assert(samples[ix] == max_of(samples));
        }
    }
}

impl Default for TimeStats {
    /// The accumulator with no samples.
    fn default() -> (r: Self)
        ensures
            r@ == time_stats_empty(),
    {
        TimeStats { count: 0, total: 0, avg: 0, min: 0, max: 0 }
    }
}

/// Ghost image of [`ConnectStats`], with unbounded integer fields.
pub struct ConnectStatsV {
    pub total: int,
    pub complete: int,
    pub connect: int,
    pub alive: int,
    pub error: int,
    pub lost: int,
    pub close: int,
    pub time: int,
    pub success_time: TimeStatsV,
}

/// Connection-level counters, shared by every slot of a run and mutated one
/// event at a time: `total` is fixed at the planned slot count; `connect`
/// counts connect calls started; `alive` the currently open connections;
/// `error` the slots that failed before becoming alive; `lost` and `close`
/// the two terminal classifications of slots that were alive; `complete` the
/// slots that finished on any path; `time` the latest observed wall-clock
/// elapsed value; and `success_time` accumulates the establishment latency of
/// successful connects.
#[derive(Debug, Clone, Copy, PartialEq, Eq, Structural)]
pub struct ConnectStats {
    pub total: usize,
    pub complete: usize,
    pub connect: usize,
    pub alive: usize,
    pub error: usize,
    pub lost: usize,
    pub close: usize,
    pub time: u64,
    pub success_time: TimeStats,
}

impl View for ConnectStats {
    type V = ConnectStatsV;

    open spec fn view(&self) -> ConnectStatsV {
        ConnectStatsV {
            total: self.total as int,
            complete: self.complete as int,
            connect: self.connect as int,
            alive: self.alive as int,
            error: self.error as int,
            lost: self.lost as int,
            close: self.close as int,
            time: self.time as int,
            success_time: self.success_time@,
        }
    }
}

/// The counters at the start of a run over `total` planned slots.
pub open spec fn connect_stats_init(total: int) -> ConnectStatsV {
    ConnectStatsV {
        total: total,
        complete: 0,
        connect: 0,
        alive: 0,
        error: 0,
        lost: 0,
        close: 0,
        time: 0,
        success_time: time_stats_empty(),
    }
}

/// A slot started its connect call.
pub open spec fn cs_attempt(s: ConnectStatsV) -> ConnectStatsV {
    ConnectStatsV { connect: s.connect + 1, ..s }
}

/// The run's wall-clock elapsed value was observed anew.
pub open spec fn cs_elapsed(s: ConnectStatsV, t: int) -> ConnectStatsV {
    ConnectStatsV { time: t, ..s }
}

/// A slot finished its handshake: it is now alive, and its establishment
/// latency is recorded.
pub open spec fn cs_established(s: ConnectStatsV, latency: int) -> ConnectStatsV {
    ConnectStatsV {
        alive: s.alive + 1,
        success_time: time_stats_add(s.success_time, latency),
        ..s
    }
}

/// A slot failed before becoming alive.
pub open spec fn cs_error(s: ConnectStatsV) -> ConnectStatsV {
    ConnectStatsV { error: s.error + 1, ..s }
}

/// A slot that was alive concluded, with its terminal classification.
pub open spec fn cs_conclude(s: ConnectStatsV, outcome: Outcome) -> ConnectStatsV {
    ConnectStatsV {
        alive: s.alive - 1,
        close: if outcome is Close {
            s.close + 1
        } else {
            s.close
        },
        lost: if outcome is Lost {
            s.lost + 1
        } else {
            s.lost
        },
        ..s
    }
}

/// A slot finished, on any path.
pub open spec fn cs_complete(s: ConnectStatsV) -> ConnectStatsV {
    ConnectStatsV { complete: s.complete + 1, ..s }
}

impl ConnectStats {
    /// Fresh counters for a run over `total` planned slots.
    pub fn new(total: usize) -> (r: Self)
        ensures
            r@ == connect_stats_init(total as int),
    {
        ConnectStats {
            total,
            complete: 0,
            connect: 0,
            alive: 0,
            error: 0,
            lost: 0,
            close: 0,
            time: 0,
            success_time: TimeStats::default(),
        }
    }

    /// A slot started its connect call.
    pub fn record_attempt(&mut self)
        requires
            old(self).connect < usize::MAX,
        ensures
            final(self)@ == cs_attempt(old(self)@),
    {
        self.connect = self.connect + 1;
    }

    /// The run's wall-clock elapsed value was observed anew.
    pub fn record_elapsed(&mut self, time: u64)
        ensures
            final(self)@ == cs_elapsed(old(self)@, time as int),
    {
        self.time = time;
    }

    /// A slot finished its handshake with the given establishment latency.
    pub fn record_established(&mut self, latency: u64)
        requires
            old(self).alive < usize::MAX,
            old(self).success_time.total + latency <= u64::MAX,
            old(self).success_time.count < usize::MAX,
        ensures
            final(self)@ == cs_established(old(self)@, latency as int),
    {
        self.alive = self.alive + 1;
        self.success_time = self.success_time.add(latency);
    }

    /// A slot failed before becoming alive.
    pub fn record_error(&mut self)
        requires
            old(self).error < usize::MAX,
        ensures
            final(self)@ == cs_error(old(self)@),
    {
        self.error = self.error + 1;
    }

    /// A slot that was alive concluded, with its terminal classification.
    pub fn record_conclusion(&mut self, outcome: Outcome)
        requires
            old(self).alive >= 1,
            old(self).close < usize::MAX,
            old(self).lost < usize::MAX,
        ensures
            final(self)@ == cs_conclude(old(self)@, outcome),
    {
        self.alive = self.alive - 1;
        match outcome {
            Outcome::Close => {
                self.close = self.close + 1;
            },
            Outcome::Lost => {
                self.lost = self.lost + 1;
            },
        }
    }

    /// A slot finished, on any path.
    pub fn record_complete(&mut self)
        requires
            old(self).complete < usize::MAX,
        ensures
            final(self)@ == cs_complete(old(self)@),
    {
        self.complete = self.complete + 1;
    }

    /// The reporter's stop test: every planned slot has finished.
    pub fn run_complete(&self) -> (r: bool)
        ensures
            r == (self.complete == self.total),
    {
        self.complete == self.total
    }
}

impl Default for ConnectStats {
    /// Counters for a run over zero slots.
    fn default() -> (r: Self)
        ensures
            r@ == connect_stats_init(0),
    {
        ConnectStats::new(0)
    }
}

/// Ghost image of [`MessageStats`], with unbounded integer fields.
pub struct MessageStatsV {
    pub total: int,
    pub complete: int,
    pub error: int,
    pub success_time: TimeStatsV,
    pub size: int,
    pub event: int,
}

/// Message-level counters for the echo and request-cycle workloads: `total`
/// counts round-trip attempts started, `complete` the round trips finished,
/// `size` the cumulative bytes transferred in both directions, `event` the
/// protocol-specific secondary markers observed, and `success_time`
/// accumulates per-round-trip latency. `error` is carried in every snapshot
/// for round trips that failed.
#[derive(Debug, Clone, Copy, PartialEq, Eq, Structural)]
pub struct MessageStats {
    pub total: usize,
    pub complete: usize,
    pub error: usize,
    pub success_time: TimeStats,
    pub size: usize,
    pub event: usize,
}

impl View for MessageStats {
    type V = MessageStatsV;

    open spec fn view(&self) -> MessageStatsV {
        MessageStatsV {
            total: self.total as int,
            complete: self.complete as int,
            error: self.error as int,
            success_time: self.success_time@,
            size: self.size as int,
            event: self.event as int,
        }
    }
}

/// The message counters before any round trip.
pub open spec fn message_stats_init() -> MessageStatsV {
    MessageStatsV {
        total: 0,
        complete: 0,
        error: 0,
        success_time: time_stats_empty(),
        size: 0,
        event: 0,
    }
}

/// A round-trip attempt started.
pub open spec fn ms_attempt(s: MessageStatsV) -> MessageStatsV {
    MessageStatsV { total: s.total + 1, ..s }
}

/// `bytes` more bytes crossed the connection.
pub open spec fn ms_transfer(s: MessageStatsV, bytes: int) -> MessageStatsV {
    MessageStatsV { size: s.size + bytes, ..s }
}

/// A secondary protocol marker was observed.
pub open spec fn ms_event(s: MessageStatsV) -> MessageStatsV {
    MessageStatsV { event: s.event + 1, ..s }
}

/// A round trip finished: its latency is recorded, it is complete, and the
/// next attempt begins at once.
pub open spec fn ms_round_trip(s: MessageStatsV, rtt: int) -> MessageStatsV {
    MessageStatsV {
        complete: s.complete + 1,
        total: s.total + 1,
        success_time: time_stats_add(s.success_time, rtt),
        ..s
    }
}

impl MessageStats {
    /// Fresh message counters.
    pub fn new() -> (r: Self)
        ensures
            r@ == message_stats_init(),
    {
        MessageStats {
            total: 0,
            complete: 0,
            error: 0,
            success_time: TimeStats::default(),
            size: 0,
            event: 0,
        }
    }

    /// A round-trip attempt started.
    pub fn record_attempt(&mut self)
        requires
            old(self).total < usize::MAX,
        ensures
            final(self)@ == ms_attempt(old(self)@),
    {
        self.total = self.total + 1;
    }

    /// `bytes` more bytes crossed the connection.
    pub fn record_transfer(&mut self, bytes: usize)
        requires
            old(self).size + bytes <= usize::MAX,
        ensures
            final(self)@ == ms_transfer(old(self)@, bytes as int),
    {
        self.size = self.size + bytes;
    }

    /// A secondary protocol marker was observed.
    pub fn record_event(&mut self)
        requires
            old(self).event < usize::MAX,
        ensures
            final(self)@ == ms_event(old(self)@),
    {
        self.event = self.event + 1;
    }

    /// A round trip finished with the given latency; the next attempt begins
    /// at once.
    pub fn record_round_trip(&mut self, rtt: u64)
        requires
            old(self).complete < usize::MAX,
            old(self).total < usize::MAX,
            old(self).success_time.total + rtt <= u64::MAX,
            old(self).success_time.count < usize::MAX,
        ensures
            final(self)@ == ms_round_trip(old(self)@, rtt as int),
    {
        self.complete = self.complete + 1;
        self.total = self.total + 1;
        self.success_time = self.success_time.add(rtt);
    }
}

impl Default for MessageStats {
    /// Fresh message counters.
    fn default() -> (r: Self)
        ensures
            r@ == message_stats_init(),
    {
        MessageStats::new()
    }
}

} // verus!
