//! GraftX observability.
//!
//! Lightweight building blocks for instrumenting GraftX call traffic: a
//! [`CallStats`] accumulator for per-API call/byte counters, a registry of them
//! by API name, a guard that records one call, a latency histogram, and a timer.
//!
//! The counters use saturating arithmetic so a long-lived server cannot panic
//! on overflow; statistics are best-effort and clamping at `u64::MAX` is the
//! intended behaviour rather than wrapping or aborting.
use vstd::prelude::*;

pub mod guard;
pub mod hist;
pub mod registry;
pub mod timer;

pub use guard::{begin, CallGuard};
pub use hist::LatencyHist;
pub use registry::ObsRegistry;
pub use timer::{time_call, Timer};

verus! {

/// Accumulated statistics for a stream of GraftX calls.
///
/// All mutating operations saturate at [`u64::MAX`]; they never wrap or panic.
#[derive(Debug, Clone, Copy, PartialEq, Eq, Structural)]
pub struct CallStats {
    /// Number of calls observed.
    pub calls: u64,
    /// Total bytes sent (request/arguments) across those calls.
    pub bytes_out: u64,
    /// Total bytes received (response/results) across those calls.
    pub bytes_in: u64,
}

/// The sum of two counts, held at the largest count.
pub open spec fn saturating(a: u64, b: u64) -> u64 {
    if a + b <= u64::MAX {
        (a + b) as u64
    } else {
        u64::MAX
    }
}

impl CallStats {
    /// The statistics of no call.
    pub open spec fn zero() -> CallStats {
        CallStats { calls: 0, bytes_out: 0, bytes_in: 0 }
    }

    /// The statistics of both streams, each field saturating.
    pub open spec fn plus(self, other: CallStats) -> CallStats {
        CallStats {
            calls: saturating(self.calls, other.calls),
            bytes_out: saturating(self.bytes_out, other.bytes_out),
            bytes_in: saturating(self.bytes_in, other.bytes_in),
        }
    }

    /// The statistics of the stream with one more call.
    pub open spec fn recorded(self, bytes_out: u64, bytes_in: u64) -> CallStats {
        self.plus(CallStats { calls: 1, bytes_out, bytes_in })
    }

    /// Record a single call, adding its outbound and inbound byte counts.
    ///
    /// Increments [`calls`](Self::calls) by one and adds the byte counts,
    /// saturating each field at [`u64::MAX`].
    pub fn record(&mut self, bytes_out: u64, bytes_in: u64)
        ensures
            *final(self) == old(self).recorded(bytes_out, bytes_in),
    {
        self.calls = self.calls.saturating_add(1);
        self.bytes_out = self.bytes_out.saturating_add(bytes_out);
        self.bytes_in = self.bytes_in.saturating_add(bytes_in);
    }

    /// Fold another set of statistics into this one, saturating each field.
    pub fn merge(&mut self, other: &CallStats)
        ensures
            *final(self) == old(self).plus(*other),
    {
        self.calls = self.calls.saturating_add(other.calls);
        self.bytes_out = self.bytes_out.saturating_add(other.bytes_out);
        self.bytes_in = self.bytes_in.saturating_add(other.bytes_in);
    }
}

impl Default for CallStats {
    fn default() -> (stats: Self)
        ensures
            stats == CallStats::zero(),
    {
        CallStats { calls: 0, bytes_out: 0, bytes_in: 0 }
    }
}

/// Merging does not depend on the order or the grouping of the streams.
pub proof fn law_merge_order_free(a: CallStats, b: CallStats, c: CallStats)
    ensures
        a.plus(b) == b.plus(a),
        a.plus(b).plus(c) == a.plus(b.plus(c)),
        a.plus(CallStats::zero()) == a,
{
}

/// A counter never goes down.
pub proof fn law_merge_monotone(a: CallStats, b: CallStats)
    ensures
        a.calls <= a.plus(b).calls,
        a.bytes_out <= a.plus(b).bytes_out,
        a.bytes_in <= a.plus(b).bytes_in,
{
}

/// The smaller of a sum and the largest count.
pub open spec fn capped(sum: int) -> int {
    if sum <= u64::MAX {
        sum
    } else {
        u64::MAX as int
    }
}

/// Recording a call adds one to the calls and the given bytes to each direction,
/// and merging adds each count to its like; a count that would pass its maximum
/// stays there.
pub proof fn law_counts_add_up(a: CallStats, b: CallStats, bytes_out: u64, bytes_in: u64)
    ensures
        a.recorded(bytes_out, bytes_in).calls == capped(a.calls + 1),
        a.recorded(bytes_out, bytes_in).bytes_out == capped(a.bytes_out + bytes_out),
        a.recorded(bytes_out, bytes_in).bytes_in == capped(a.bytes_in + bytes_in),
        a.plus(b).calls == capped(a.calls + b.calls),
        a.plus(b).bytes_out == capped(a.bytes_out + b.bytes_out),
        a.plus(b).bytes_in == capped(a.bytes_in + b.bytes_in),
        CallStats::zero().calls == 0,
        CallStats::zero().bytes_out == 0,
        CallStats::zero().bytes_in == 0,
{
}

/// Recording a call changes the statistics by one call and its bytes, and merging
/// changes them by those of the other stream, which stay as they were.
pub proof fn law_stats_change(
    stats: &mut CallStats,
    other: &CallStats,
    bytes_out: u64,
    bytes_in: u64,
)
    ensures
        call_ensures(CallStats::record, (stats, bytes_out, bytes_in), ()) ==> {
            &&& final(stats).calls == capped(old(stats).calls + 1)
            &&& final(stats).bytes_out == capped(old(stats).bytes_out + bytes_out)
            &&& final(stats).bytes_in == capped(old(stats).bytes_in + bytes_in)
        },
        call_ensures(CallStats::merge, (stats, other), ()) ==> {
            &&& final(stats).calls == capped(old(stats).calls + other.calls)
            &&& final(stats).bytes_out == capped(old(stats).bytes_out + other.bytes_out)
            &&& final(stats).bytes_in == capped(old(stats).bytes_in + other.bytes_in)
        },
{
}

} // verus!
