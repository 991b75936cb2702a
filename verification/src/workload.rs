//! Per-message steps of the pluggable workload strategies.
//!
//! A workload drives one established connection: the runner reads frames from
//! the socket and hands each one to the step function of the configured
//! strategy, which updates the shared message counters and says what to do
//! next. The connect-and-idle strategy has no step of its own: it discards
//! every frame until the stream ends.

use crate::stats::{ms_event, ms_round_trip, ms_transfer, MessageStats};
use vstd::prelude::*;

verus! {

/// The shape of one incoming frame, as the transport reported it; the data
/// frames carry their payload length in bytes.
#[derive(Debug, Clone, Copy, PartialEq, Eq, Structural)]
pub enum MsgKind {
    /// A text frame of the given payload length.
    Text(usize),
    /// A binary frame of the given payload length.
    Binary(usize),
    /// A close frame: the remote is ending the stream.
    Close,
    /// Any other frame (ping, pong, raw); the workloads ignore these.
    Other,
}

/// The payload length of a data frame; `None` for every other frame.
pub open spec fn data_len(kind: MsgKind) -> Option<int> {
    match kind {
        MsgKind::Text(n) => Some(n as int),
        MsgKind::Binary(n) => Some(n as int),
        MsgKind::Close => None,
        MsgKind::Other => None,
    }
}

/// What the echo loop does after one incoming frame.
#[derive(Debug, Clone, Copy, PartialEq, Eq, Structural)]
pub enum EchoAction {
    /// Send the payload again: the reply completed a round trip.
    Reply,
    /// Not a data frame; keep waiting.
    Ignore,
    /// The remote closed the stream; the workload is over.
    Stop,
}

/// One step of the echo loop. A data frame is the reply that completes the
/// pending round trip: the transferred bytes — the reply's length plus the
/// length of the payload about to be re-sent — and the round-trip time `rtt`
/// are recorded, the round trip is complete, and re-sending starts the next
/// one. A close frame stops the loop; other frames change nothing.
pub fn echo_on_message(
    stats: &mut MessageStats,
    kind: MsgKind,
    sent_len: usize,
    rtt: u64,
) -> (r: EchoAction)
    requires
        (data_len(kind) matches Some(n) ==> {
            &&& old(stats).size + n + sent_len <= usize::MAX
            &&& old(stats).complete < usize::MAX
            &&& old(stats).total < usize::MAX
            &&& old(stats).success_time.total + rtt <= u64::MAX
            &&& old(stats).success_time.count < usize::MAX
        }),
    ensures
        (data_len(kind) matches Some(n) ==> final(stats)@ == ms_round_trip(
            ms_transfer(old(stats)@, n + sent_len),
            rtt as int,
        ) && r == EchoAction::Reply),
        data_len(kind) is None ==> final(stats)@ == old(stats)@,
        kind is Close ==> r == EchoAction::Stop,
        kind is Other ==> r == EchoAction::Ignore,
{
    match kind {
        MsgKind::Text(n) => {
            stats.record_transfer(n + sent_len);
            stats.record_round_trip(rtt);
            EchoAction::Reply
        },
        MsgKind::Binary(n) => {
            stats.record_transfer(n + sent_len);
            stats.record_round_trip(rtt);
            EchoAction::Reply
        },
        MsgKind::Close => EchoAction::Stop,
        MsgKind::Other => EchoAction::Ignore,
    }
}

/// `needle` occurs in `hay` starting at position `i`.
pub open spec fn subseq_at(hay: Seq<u8>, needle: Seq<u8>, i: int) -> bool {
    &&& 0 <= i
    &&& i + needle.len() <= hay.len()
    &&& forall|k: int| 0 <= k < needle.len() ==> hay[i + k] == needle[k]
}

/// `needle` occurs somewhere in `hay`.
pub open spec fn has_subseq(hay: Seq<u8>, needle: Seq<u8>) -> bool {
    exists|i: int| subseq_at(hay, needle, i)
}

/// Whether `needle` occurs in `hay` starting exactly at `i`.
fn match_at(hay: &[u8], needle: &[u8], i: usize) -> (r: bool)
    requires
        i + needle@.len() <= hay@.len(),
    ensures
        r == subseq_at(hay@, needle@, i as int),
{
    let hlen: usize = hay.len();
    let nlen: usize = needle.len();
    let mut k: usize = 0;
    while k < nlen
        invariant
            hlen == hay@.len(),
            nlen == needle@.len(),
            i + nlen <= hlen,
            0 <= k <= nlen,
            forall|t: int| 0 <= t < k ==> hay@[i + t] == needle@[t],
        decreases nlen - k,
    {
        if hay[i + k] != needle[k] {
            return false;
        }
        k = k + 1;
    }
    true
}

/// Byte-string search: whether `needle` occurs anywhere in `hay`.
pub fn contains_subslice(hay: &[u8], needle: &[u8]) -> (r: bool)
    ensures
        r == has_subseq(hay@, needle@),
{
    let hlen: usize = hay.len();
    let nlen: usize = needle.len();
    if nlen > hlen {
        return false;
    }
    let n: usize = hlen - nlen;
    let mut i: usize = 0;
    loop
        invariant
            hlen == hay@.len(),
            nlen == needle@.len(),
            nlen <= hlen,
            n == hlen - nlen,
            i <= n,
            forall|j: int| 0 <= j < i ==> !subseq_at(hay@, needle@, j),
        ensures
            forall|j: int| 0 <= j <= n ==> !subseq_at(hay@, needle@, j),
        decreases n - i,
    {
        if match_at(hay, needle, i) {
            return true;
        }
        if i == n {
            break;
        }
        i = i + 1;
    }
    false
}

/// The ASCII bytes of the secondary-marker tag that event messages carry.
pub open spec fn event_marker() -> Seq<u8> {
    seq![69u8, 86u8, 69u8, 78u8, 84u8]
}

/// The ASCII bytes of the end-of-results marker that closes one query's
/// stream of results.
pub open spec fn eose_marker() -> Seq<u8> {
    seq![69u8, 79u8, 83u8, 69u8]
}

/// The secondary-marker tag as a byte string.
fn event_marker_bytes() -> (r: Vec<u8>)
    ensures
        r@ == event_marker(),
{
    let mut v: Vec<u8> = Vec::new();
    v.push(69);
    v.push(86);
    v.push(69);
    v.push(78);
    v.push(84);
    proof {
        assert(v@ =~= event_marker());
    }
    v
}

/// The end-of-results marker as a byte string.
fn eose_marker_bytes() -> (r: Vec<u8>)
    ensures
        r@ == eose_marker(),
{
    let mut v: Vec<u8> = Vec::new();
    v.push(69);
    v.push(79);
    v.push(83);
    v.push(69);
    proof {
        assert(v@ =~= eose_marker());
    }
    v
}

/// What the request-cycle loop does after one text frame.
#[derive(Debug, Clone, Copy, PartialEq, Eq, Structural)]
pub enum ReqAction {
    /// The end-of-results marker arrived: the round trip is complete; cancel
    /// the answered query and issue a fresh one, restarting the timer.
    NextRound,
    /// More results are still owed to the pending query; keep reading.
    Continue,
}

/// One step of the request-cycle loop over the payload of a text frame. The
/// transferred bytes — the frame's length plus the length `req_len` of the
/// query that a completed round would re-issue — are always recorded; a
/// secondary event marker anywhere in the payload bumps the event counter;
/// and an end-of-results marker completes the pending round trip with
/// round-trip time `rtt`.
pub fn req_on_text(stats: &mut MessageStats, msg: &[u8], req_len: usize, rtt: u64) -> (r:
    ReqAction)
    requires
        old(stats).size + msg@.len() + req_len <= usize::MAX,
        old(stats).event < usize::MAX,
        old(stats).complete < usize::MAX,
        old(stats).total < usize::MAX,
        old(stats).success_time.total + rtt <= u64::MAX,
        old(stats).success_time.count < usize::MAX,
    ensures
        ({
            let after_size = ms_transfer(old(stats)@, msg@.len() + req_len);
            let after_event = if has_subseq(msg@, event_marker()) {
                ms_event(after_size)
            } else {
                after_size
            };
            &&& (has_subseq(msg@, eose_marker()) ==> final(stats)@ == ms_round_trip(
                after_event,
                rtt as int,
            ) && r == ReqAction::NextRound)
            &&& (!has_subseq(msg@, eose_marker()) ==> final(stats)@ == after_event && r
                == ReqAction::Continue)
        }),
{
    stats.record_transfer(msg.len() + req_len);
    let event = event_marker_bytes();
    if contains_subslice(msg, event.as_slice()) {
        stats.record_event();
    }
    let eose = eose_marker_bytes();
    if contains_subslice(msg, eose.as_slice()) {
        stats.record_round_trip(rtt);
        ReqAction::NextRound
    } else {
        ReqAction::Continue
    }
}

} // verus!
