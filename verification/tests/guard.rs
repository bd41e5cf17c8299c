//! Guarded calls.
use std::collections::HashMap;

use graftx::obs::{begin, CallStats, ObsRegistry};

#[test]
fn guard_records_one_call_with_set_bytes() {
    let mut registry = ObsRegistry::new();
    {
        let mut guard = begin(&mut registry, "vulkan", 0x10);
        guard.set_bytes(10, 20);
    }

    let snapshot: HashMap<&str, CallStats> = registry.snapshot().into_iter().collect();
    assert_eq!(
        snapshot["vulkan"],
        CallStats {
            calls: 1,
            bytes_out: 10,
            bytes_in: 20,
        }
    );
}

#[test]
fn guard_without_set_bytes_records_zero_bytes() {
    let mut registry = ObsRegistry::new();
    {
        let _guard = begin(&mut registry, "vulkan", 0x10);
    }

    let snapshot: HashMap<&str, CallStats> = registry.snapshot().into_iter().collect();
    assert_eq!(
        snapshot["vulkan"],
        CallStats {
            calls: 1,
            bytes_out: 0,
            bytes_in: 0,
        }
    );
}

#[test]
fn two_guards_in_sequence_record_two_calls() {
    let mut registry = ObsRegistry::new();
    {
        let mut guard = begin(&mut registry, "vulkan", 0x10);
        guard.set_bytes(10, 20);
    }
    {
        let mut guard = begin(&mut registry, "vulkan", 0x11);
        guard.set_bytes(3, 4);
    }

    let snapshot: HashMap<&str, CallStats> = registry.snapshot().into_iter().collect();
    assert_eq!(
        snapshot["vulkan"],
        CallStats {
            calls: 2,
            bytes_out: 13,
            bytes_in: 24,
        }
    );
}

#[test]
fn set_bytes_overwrites_and_records_once() {
    let mut registry = ObsRegistry::new();
    {
        let mut guard = begin(&mut registry, "vulkan", 0x10);
        guard.set_bytes(1, 1);
        guard.set_bytes(10, 20);
    }

    let snapshot: HashMap<&str, CallStats> = registry.snapshot().into_iter().collect();
    assert_eq!(
        snapshot["vulkan"],
        CallStats {
            calls: 1,
            bytes_out: 10,
            bytes_in: 20,
        }
    );
}

#[test]
fn overwritten_bytes_leave_no_trace_at_the_maximum() {
    let mut registry = ObsRegistry::new();
    registry.record("vulkan", u64::MAX - 5, 7);
    {
        let mut guard = begin(&mut registry, "vulkan", 0x10);
        guard.set_bytes(10, 20);
        guard.set_bytes(1, 2);
    }

    assert_eq!(
        registry.get("vulkan"),
        Some(CallStats {
            calls: 2,
            bytes_out: u64::MAX - 4,
            bytes_in: 9,
        })
    );
}

#[test]
fn guards_leave_other_apis_alone() {
    let mut registry = ObsRegistry::new();
    registry.record("cuda", 1, 2);
    let mut guard = begin(&mut registry, "vulkan", 0x10);
    guard.set_bytes(10, 20);
    drop(guard);
    drop(begin(&mut registry, "gl", 0x11));

    let snapshot: HashMap<&str, CallStats> = registry.snapshot().into_iter().collect();
    assert_eq!(snapshot.len(), 3);
    assert_eq!(
        snapshot["cuda"],
        CallStats {
            calls: 1,
            bytes_out: 1,
            bytes_in: 2,
        }
    );
    assert_eq!(
        snapshot["gl"],
        CallStats {
            calls: 1,
            bytes_out: 0,
            bytes_in: 0,
        }
    );
    assert_eq!(
        registry.total(),
        CallStats {
            calls: 3,
            bytes_out: 11,
            bytes_in: 22,
        }
    );
}
