//! In-process load generator.
use std::collections::HashMap;
use std::time::Duration;

use graftx::obs::{CallStats, ObsRegistry};
use graftx::tools::loadtest::{drive, parse_ops, run_load, DEFAULT_OPS};

/// Each loop iteration records two Vulkan calls (create-instance and
/// enumerate-physical-devices); the handshake records one core call.
const CALLS_PER_ITERATION: u64 = 2;
const HANDSHAKE_CALLS: u64 = 1;

#[test]
fn run_load_records_expected_call_count() {
    let n = 32usize;
    let total = run_load(n);
    let expected = HANDSHAKE_CALLS + CALLS_PER_ITERATION * n as u64;
    assert_eq!(
        total.calls, expected,
        "unexpected total call count: {total:?}"
    );
    // Every recorded call moved bytes in both directions.
    assert!(total.bytes_out > 0, "expected outbound bytes: {total:?}");
    assert!(total.bytes_in > 0, "expected inbound bytes: {total:?}");
}

#[test]
fn run_load_with_zero_ops_records_only_the_handshake() {
    let total = run_load(0);
    assert_eq!(
        total.calls, HANDSHAKE_CALLS,
        "zero ops should still handshake"
    );
}

#[test]
fn drive_attributes_calls_per_api() {
    let mut registry = ObsRegistry::new();
    let elapsed = drive(8, &mut registry).expect("load run must succeed");
    assert!(elapsed >= Duration::ZERO);

    let snapshot: HashMap<&str, CallStats> = registry.snapshot().into_iter().collect();
    // The handshake is core traffic; the per-iteration calls are Vulkan.
    assert_eq!(snapshot["core"].calls, HANDSHAKE_CALLS);
    assert_eq!(snapshot["vulkan"].calls, CALLS_PER_ITERATION * 8);
    // Only the two namespaces that saw traffic are present.
    assert_eq!(snapshot.len(), 2);
}

#[test]
fn run_load_counts_the_bytes_of_every_frame() {
    assert_eq!(
        run_load(32),
        CallStats { calls: 65, bytes_out: 40 + 68 * 32, bytes_in: 48 + 76 * 32 }
    );
}

#[test]
fn parse_ops_reads_a_valid_count() {
    assert_eq!(parse_ops(Some("1000")), (1000, false));
}

#[test]
fn parse_ops_falls_back_on_garbage() {
    assert_eq!(parse_ops(Some("not-a-number")), (DEFAULT_OPS, true));
}

#[test]
fn parse_ops_defaults_when_absent() {
    assert_eq!(parse_ops(None), (DEFAULT_OPS, false));
}

#[test]
fn parse_ops_falls_back_on_a_count_out_of_range() {
    assert_eq!(parse_ops(Some("18446744073709551616")), (DEFAULT_OPS, true));
    assert_eq!(parse_ops(Some("18446744073709551615")), (usize::MAX, false));
    assert_eq!(parse_ops(Some("")), (DEFAULT_OPS, true));
    assert_eq!(parse_ops(Some("+")), (DEFAULT_OPS, true));
    assert_eq!(parse_ops(Some("+7")), (7, false));
    assert_eq!(parse_ops(Some("-7")), (DEFAULT_OPS, true));
    assert_eq!(parse_ops(Some("007")), (7, false));
}
