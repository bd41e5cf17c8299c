//! Codec benchmark.
use std::time::Duration;

use graftx::protocol::vk::CreateInstanceRequest;
use graftx::tools::bench::{
    bench, parse_iterations, representative_frame, round_trip, BenchReport, DEFAULT_ITERATIONS,
};

#[test]
fn round_trip_preserves_the_frame() {
    let frame = representative_frame();
    let decoded = round_trip(&frame).expect("representative frame must round-trip");
    assert_eq!(decoded, frame);
}

#[test]
fn round_trip_preserves_arbitrary_versions() {
    for app_api_version in [0u32, 1, 0x0040_3000, u32::MAX] {
        let frame = CreateInstanceRequest { app_api_version };
        let decoded = round_trip(&frame).expect("frame must round-trip");
        assert_eq!(decoded, frame);
    }
}

#[test]
fn bench_reports_the_requested_iteration_count() {
    let report = bench(16).expect("bench must succeed");
    assert_eq!(report.iterations, 16);
}

#[test]
fn parse_iterations_reads_a_valid_count() {
    assert_eq!(parse_iterations(Some("1000")), (1000, false));
}

#[test]
fn parse_iterations_falls_back_on_garbage() {
    assert_eq!(
        parse_iterations(Some("not-a-number")),
        (DEFAULT_ITERATIONS, true)
    );
}

#[test]
fn parse_iterations_defaults_when_absent() {
    assert_eq!(parse_iterations(None), (DEFAULT_ITERATIONS, false));
}

#[test]
fn report_holds_the_elapsed_nanoseconds() {
    let report = BenchReport::of(3, Duration::new(2, 7));
    assert_eq!(report.iterations, 3);
    assert_eq!(report.elapsed_nanos, 2_000_000_007);
    let report = BenchReport::of(0, Duration::MAX);
    assert_eq!(report.elapsed_nanos, u128::from(u64::MAX) * 1_000_000_000 + 999_999_999);
}

#[test]
fn bench_of_no_iterations_succeeds() {
    assert_eq!(bench(0).expect("bench must succeed").iterations, 0);
}

#[test]
fn representative_frame_is_vulkan_1_3() {
    assert_eq!(representative_frame().app_api_version, 0x0040_3000);
}
