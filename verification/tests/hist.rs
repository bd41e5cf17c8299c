//! Latency histogram.
use std::time::Duration;

use graftx::obs::hist::BUCKETS;
use graftx::obs::LatencyHist;

#[test]
fn new_and_default_start_empty() {
    let from_new = LatencyHist::new();
    let from_default = LatencyHist::default();
    assert_eq!(from_new, from_default);
    assert_eq!(from_new.count(), 0);
    assert_eq!(*from_new.bucket_counts(), [0u64; BUCKETS]);
}

#[test]
fn record_places_durations_in_expected_buckets() {
    let mut hist = LatencyHist::new();
    // 0us -> bucket 0 (< 1us).
    hist.record(Duration::from_micros(0));
    // 1us -> bucket 1 (< 2us), since bucket 0 is strictly < 1us.
    hist.record(Duration::from_micros(1));
    // 3us -> bucket 2 (< 4us).
    hist.record(Duration::from_micros(3));
    // 1000us -> bucket 10 (< 1024us).
    hist.record(Duration::from_micros(1000));

    let counts = hist.bucket_counts();
    assert_eq!(counts[0], 1);
    assert_eq!(counts[1], 1);
    assert_eq!(counts[2], 1);
    assert_eq!(counts[10], 1);
    assert_eq!(hist.count(), 4);
}

#[test]
fn at_or_above_largest_bound_lands_in_overflow_bucket() {
    let mut hist = LatencyHist::new();
    // Exactly the largest tracked bound (1024us) is not < 1024, so overflow.
    hist.record(Duration::from_micros(1024));
    // Just over a second is well past the largest bound.
    hist.record(Duration::from_secs(1));
    let counts = hist.bucket_counts();
    assert_eq!(counts[BUCKETS - 1], 2);
    assert_eq!(hist.count(), 2);
}

#[test]
fn boundary_is_upper_bound_exclusive() {
    let mut hist = LatencyHist::new();
    // 2us is the bound for bucket 1, so it must fall into bucket 2.
    hist.record(Duration::from_micros(2));
    let counts = hist.bucket_counts();
    assert_eq!(counts[1], 0);
    assert_eq!(counts[2], 1);
}

#[test]
fn hist_record_saturates_on_overflow() {
    let mut hist = LatencyHist::new();
    hist.counts[0] = u64::MAX;
    hist.record(Duration::from_micros(0));
    assert_eq!(hist.bucket_counts()[0], u64::MAX);
}

#[test]
fn report_lists_non_empty_buckets_with_known_rows() {
    let mut hist = LatencyHist::new();
    hist.record(Duration::from_micros(3)); // bucket 2 (< 4us)
    hist.record(Duration::from_micros(3));
    hist.record(Duration::from_secs(1)); // overflow bucket

    let report = hist.report();
    assert!(report.starts_with("| bucket | count |\n| --- | --- |\n"));
    assert!(report.contains("| <4us | 2 |"));
    assert!(report.contains("| >=1024us | 1 |"));
    // Empty buckets are omitted.
    assert!(!report.contains("<1us"));
}

#[test]
fn report_on_empty_histogram_is_header_only() {
    let hist = LatencyHist::new();
    assert_eq!(hist.report(), "| bucket | count |\n| --- | --- |\n");
}

#[test]
fn durations_are_counted_in_whole_microseconds() {
    let mut hist = LatencyHist::new();
    // 1.999 us are one whole microsecond: under 2 us, not under 1 us.
    hist.record(Duration::from_nanos(1_999));
    assert_eq!(hist.bucket_counts()[1], 1);
    // 999 ns are no whole microsecond.
    hist.record(Duration::from_nanos(999));
    assert_eq!(hist.bucket_counts()[0], 1);
    // 1023.999 us stay under the largest bound, 1024 us do not.
    hist.record(Duration::from_nanos(1_023_999));
    assert_eq!(hist.bucket_counts()[BUCKETS - 2], 1);
    hist.record(Duration::from_nanos(1_024_000));
    assert_eq!(hist.bucket_counts()[BUCKETS - 1], 1);
    assert_eq!(hist.count(), 4);
}

#[test]
fn every_duration_has_exactly_one_bucket() {
    for micros in [0u128, 1, 2, 3, 511, 512, 1023, 1024, 1 << 100, u128::MAX] {
        let mut hist = LatencyHist::new();
        hist.record_micros(micros);
        let index = LatencyHist::bucket_index(micros);
        assert_eq!(hist.bucket_counts()[index], 1);
        assert_eq!(hist.count(), 1);
        assert!(index == 0 || micros >= 1 << (index - 1));
        assert!(index == BUCKETS - 1 || micros < 1 << index);
    }
}
