//! GraftX protocol codec micro-benchmark.
//!
//! Encodes and decodes a representative Vulkan frame (a create-instance
//! request) a configurable number of times and measures the wall-clock cost
//! with [`Timer`].
use std::time::{Duration, Instant};

use vstd::prelude::*;

use crate::obs::timer;
use crate::obs::timer::Timer;
use crate::protocol::vk::CreateInstanceRequest;
use crate::protocol::wire::Wire;
use crate::protocol::ProtocolError;
use crate::text;

verus! {

broadcast use crate::protocol::bytes::lemma_append_to_empty;

/// Iteration count used when no positive count is supplied on the command line.
pub const DEFAULT_ITERATIONS: u64 = 100_000;

/// The representative frame whose codec we measure.
///
/// A create-instance request is the first message a client sends, so it is a
/// natural stand-in for "a small, typical Vulkan frame".
pub fn representative_frame() -> (frame: CreateInstanceRequest)
    ensures
        frame == (CreateInstanceRequest { app_api_version: 0x0040_3000 }),
{
    // Vulkan 1.3.0 packed as the standard `VK_MAKE_API_VERSION(0, 1, 3, 0)`.
    CreateInstanceRequest { app_api_version: 0x0040_3000 }
}

/// Encode `frame`, decode the bytes back, and return the decoded value.
///
/// This is the unit of work the benchmark times. It is pure: it allocates a
/// fresh buffer, performs one encode and one decode, and returns the round-trip
/// result so callers (and tests) can assert it matches the input.
pub fn round_trip(frame: &CreateInstanceRequest) -> (r: Result<
    CreateInstanceRequest,
    ProtocolError,
>)
    ensures
        r == Ok::<CreateInstanceRequest, ProtocolError>(*frame),
{
    let mut buf: Vec<u8> = Vec::new();
    frame.encode(&mut buf);
    proof {
        frame.law_whole();
    }
    CreateInstanceRequest::decode(&buf)
}

/// Result of timing `iterations` round-trips of the representative frame.
#[derive(Debug, Clone, Copy)]
pub struct BenchReport {
    /// Number of encode/decode round-trips performed.
    pub iterations: u64,
    /// Total elapsed nanoseconds across all round-trips.
    pub elapsed_nanos: u128,
}

impl BenchReport {
    /// The report on `iterations` round-trips that took `elapsed` together.
    pub fn of(iterations: u64, elapsed: Duration) -> (report: BenchReport)
        ensures
            report.iterations == iterations,
            report.elapsed_nanos == timer::whole_nanos(elapsed),
    {
        BenchReport { iterations, elapsed_nanos: timer::as_nanos(elapsed) }
    }
}

/// Time `iterations` round-trips of the representative frame.
///
/// Propagates the first decode error, if any, so a codec regression surfaces as
/// a failed run rather than misleading timings.
pub fn bench(iterations: u64) -> (r: Result<BenchReport, ProtocolError>)
    ensures
        r matches Ok(report) && {
            &&& report.iterations == iterations
            &&& exists|start: Instant, end: Instant|
                report.elapsed_nanos == timer::whole_nanos(
                    #[trigger] timer::time_between(start, end),
                )
        },
{
    let frame = representative_frame();
    let stopwatch = Timer::start();
    let mut i: u64 = 0;
    while i < iterations
        invariant
            i <= iterations,
        decreases iterations - i,
    {
        let _decoded = round_trip(&frame)?;
        i = i + 1;
    }
    Ok(BenchReport::of(iterations, stopwatch.elapsed()))
}

/// Parse the iteration count from the first CLI argument.
///
/// A missing or unparseable argument falls back to [`DEFAULT_ITERATIONS`]; the
/// chosen count is returned alongside a flag noting whether the fallback fired
/// so the caller can warn the user.
pub fn parse_iterations(arg: Option<&str>) -> (r: (u64, bool))
    ensures
        match arg {
            None => r == (DEFAULT_ITERATIONS, false),
            Some(raw) => match text::number(raw@) {
                Some(n) => r == if n <= u64::MAX {
                    (n as u64, false)
                } else {
                    (DEFAULT_ITERATIONS, true)
                },
                None => r == (DEFAULT_ITERATIONS, true),
            },
        },
{
    match arg {
        Some(raw) => match text::parse_number(raw, u64::MAX) {
            Some(n) => (n, false),
            None => (DEFAULT_ITERATIONS, true),
        },
        None => (DEFAULT_ITERATIONS, false),
    }
}

/// Without an argument the default count is taken; a number in range is taken as it
/// is; anything else falls back to the default, with a note that it did.
pub proof fn law_iterations_parsed(arg: Option<&str>, n: nat, r: (u64, bool))
    requires
        call_ensures(parse_iterations, (arg,), r),
    ensures
        arg is None ==> r == (100_000u64, false),
        arg matches Some(raw) && raw@ == text::dec(n) && n <= u64::MAX ==> r == (n as u64, false),
        arg matches Some(raw) && raw@ == text::dec(n) && n > u64::MAX ==> r == (100_000u64, true),
        arg matches Some(raw) && text::number(raw@) is None ==> r == (100_000u64, true),
{
    text::law_dec_reads_back(n);
}

/// A run reports the number of round trips that it was asked for, and a report
/// carries the count and the time it is made of; the frame that is measured asks
/// for Vulkan 1.3, and a round trip gives a frame back as it was.
pub proof fn law_bench_reports(
    n: u64,
    r: Result<BenchReport, ProtocolError>,
    elapsed: Duration,
    report: BenchReport,
    frame: CreateInstanceRequest,
    sent: &CreateInstanceRequest,
    back: Result<CreateInstanceRequest, ProtocolError>,
)
    ensures
        call_ensures(bench, (n,), r) ==> r is Ok && r->Ok_0.iterations == n,
        call_ensures(BenchReport::of, (n, elapsed), report) ==> report.iterations == n
            && report.elapsed_nanos == timer::whole_nanos(elapsed),
        call_ensures(representative_frame, (), frame) ==> frame.app_api_version == (1 * 0x40_0000
            + 3 * 0x1000),
        call_ensures(round_trip, (sent,), back) ==> back == Ok::<
            CreateInstanceRequest,
            ProtocolError,
        >(*sent),
{
}

} // verus!
