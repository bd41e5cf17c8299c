//! Lightweight latency measurement helpers.
//!
//! [`Timer`] wraps a single [`std::time::Instant`] start point and reports the
//! [`elapsed`](Timer::elapsed) [`Duration`] since it was started. [`time_call`]
//! is a convenience wrapper that runs a closure and returns both its result and
//! the wall-clock time it took.
//!
//! These helpers are best-effort timers built on the monotonic clock; they make
//! no guarantees about resolution beyond what [`Instant`] provides.
use std::time::{Duration, Instant};

use vstd::prelude::*;

verus! {

/// [`std::time::Instant`], a reading of the monotonic clock.
#[verifier::external_type_specification]
#[verifier::external_body]
pub struct ExInstant(std::time::Instant);

/// [`Instant::now`]. Nothing is said of the instant: it is the time.
#[verifier::external_body]
fn now() -> Instant {
    Instant::now()
}

/// The time from one reading of the clock to another.
pub uninterp spec fn time_between(start: Instant, end: Instant) -> Duration;

/// [`Instant::saturating_duration_since`]: the time from `start` to `end`, zero
/// if `start` is the later one, which depends on the two readings alone. How it
/// follows from what the clock showed is left unsaid: a reading is opaque.
#[verifier::external_body]
fn since(end: Instant, start: Instant) -> (d: Duration)
    ensures
        d == time_between(start, end),
{
    end.saturating_duration_since(start)
}

/// The nanoseconds of a duration.
pub uninterp spec fn whole_nanos(d: Duration) -> u128;

/// [`Duration::as_nanos`]: the number of nanoseconds in `d`, which depends on
/// `d` alone.
#[verifier::external_body]
pub(crate) fn as_nanos(d: Duration) -> (nanos: u128)
    ensures
        nanos == whole_nanos(d),
{
    d.as_nanos()
}

/// [`Duration::as_micros`]: the number of whole microseconds in `d`, a thousand
/// nanoseconds each.
#[verifier::external_body]
pub(crate) fn as_micros(d: Duration) -> (micros: u128)
    ensures
        micros == whole_nanos(d) / 1000,
{
    d.as_micros()
}

/// A monotonic stopwatch anchored at a single start instant.
///
/// Construct with [`Timer::start`] and read the elapsed time with
/// [`elapsed`](Timer::elapsed). Because it is backed by [`Instant`], successive
/// reads never decrease.
#[derive(Debug, Clone, Copy)]
pub struct Timer {
    start: Instant,
}

impl Timer {
    /// The instant that the timer is anchored at.
    pub closed spec fn spec_start(&self) -> Instant {
        self.start
    }

    /// Start a new timer anchored at the current instant.
    pub fn start() -> Timer {
        Timer::at(now())
    }

    /// A timer anchored at `start`.
    pub fn at(start: Instant) -> (timer: Timer)
        ensures
            timer.spec_start() == start,
    {
        Timer { start }
    }

    /// Return the [`Duration`] from the timer's start to `end`.
    pub fn elapsed_at(&self, end: Instant) -> (d: Duration)
        ensures
            d == time_between(self.spec_start(), end),
    {
        since(end, self.start)
    }

    /// Return the [`Duration`] elapsed since the timer was started.
    ///
    /// The underlying clock is monotonic, so repeated calls return values that
    /// never decrease.
    pub fn elapsed(&self) -> (d: Duration)
        ensures
            exists|end: Instant| d == #[trigger] time_between(self.spec_start(), end),
    {
        self.elapsed_at(now())
    }
}

/// Run `f`, returning its result alongside the wall-clock time it took.
///
/// The closure is invoked exactly once; the returned [`Duration`] measures the
/// span between just before and just after the call using the monotonic clock.
pub fn time_call<T, F: FnOnce() -> T>(f: F) -> (r: (T, Duration))
    requires
        f.requires(()),
    ensures
        f.ensures((), r.0),
        exists|start: Instant, end: Instant| r.1 == #[trigger] time_between(start, end),
{
    let timer = Timer::start();
    let value = f();
    (value, timer.elapsed())
}

/// A timer measures from the instant it was started at to the one it is read at.
pub proof fn law_timer_measures(
    start: Instant,
    end: Instant,
    timer: Timer,
    d: Duration,
)
    requires
        call_ensures(Timer::at, (start,), timer),
        call_ensures(Timer::elapsed_at, (&timer, end), d),
    ensures
        d == time_between(start, end),
{
}

} // verus!
