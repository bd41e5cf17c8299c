//! Call statistics.
use graftx::obs::CallStats;

#[test]
fn record_accumulates_calls_and_bytes() {
    let mut stats = CallStats::default();
    stats.record(10, 20);
    stats.record(5, 7);
    assert_eq!(
        stats,
        CallStats {
            calls: 2,
            bytes_out: 15,
            bytes_in: 27,
        }
    );
}

#[test]
fn lib_record_saturates_on_overflow() {
    let mut stats = CallStats {
        calls: u64::MAX,
        bytes_out: u64::MAX,
        bytes_in: u64::MAX - 1,
    };
    stats.record(1, 5);
    assert_eq!(
        stats,
        CallStats {
            calls: u64::MAX,
            bytes_out: u64::MAX,
            bytes_in: u64::MAX,
        }
    );
}

#[test]
fn merge_sums_fields() {
    let mut total = CallStats {
        calls: 3,
        bytes_out: 100,
        bytes_in: 200,
    };
    let other = CallStats {
        calls: 4,
        bytes_out: 50,
        bytes_in: 60,
    };
    total.merge(&other);
    assert_eq!(
        total,
        CallStats {
            calls: 7,
            bytes_out: 150,
            bytes_in: 260,
        }
    );
}

#[test]
fn merge_saturates_on_overflow() {
    let mut total = CallStats {
        calls: u64::MAX,
        bytes_out: u64::MAX - 2,
        bytes_in: 1,
    };
    let other = CallStats {
        calls: 1,
        bytes_out: 10,
        bytes_in: u64::MAX,
    };
    total.merge(&other);
    assert_eq!(
        total,
        CallStats {
            calls: u64::MAX,
            bytes_out: u64::MAX,
            bytes_in: u64::MAX,
        }
    );
}

#[test]
fn merging_does_not_depend_on_the_order() {
    let a = CallStats { calls: u64::MAX - 1, bytes_out: 5, bytes_in: 0 };
    let b = CallStats { calls: 3, bytes_out: 6, bytes_in: 7 };
    let c = CallStats { calls: 9, bytes_out: u64::MAX, bytes_in: 1 };
    let (mut left, mut right) = (a, c);
    left.merge(&b);
    left.merge(&c);
    right.merge(&b);
    right.merge(&a);
    assert_eq!(left, right);
    assert_eq!(left, CallStats { calls: u64::MAX, bytes_out: u64::MAX, bytes_in: 8 });
}
