//! Decoder fuzzer.
use graftx::tools::fuzz::{
    exercise, fill_buf, fuzz_accepted, fuzz_iter, parse_iters, Lcg, DEFAULT_ITERS,
    MAX_BUF_LEN,
};

#[test]
fn fuzz_runs_without_panic() {
    // A few thousand iterations across every decoder; the test passing at
    // all is the no-panic assertion.
    let processed = fuzz_iter(0xDEAD_BEEF_CAFE_F00D, 4_000);
    assert_eq!(processed, 4_000, "fuzz_iter must report every input it ran");
}

#[test]
fn input_count_is_deterministic() {
    // Same seed and count must always report the same number of inputs.
    let a = fuzz_iter(1, 2_500);
    let b = fuzz_iter(1, 2_500);
    assert_eq!(a, b);
    assert_eq!(a, 2_500);
}

#[test]
fn zero_iterations_processes_nothing() {
    assert_eq!(fuzz_iter(42, 0), 0);
}

#[test]
fn parse_iters_defaults_when_absent() {
    assert_eq!(parse_iters(None), Some(DEFAULT_ITERS));
}

#[test]
fn parse_iters_reads_a_number() {
    assert_eq!(parse_iters(Some("250".to_string())), Some(250));
}

#[test]
fn parse_iters_rejects_garbage() {
    assert_eq!(parse_iters(Some("not-a-number".to_string())), None);
}

#[test]
fn generator_follows_the_recurrence() {
    let mut rng = Lcg::new(1);
    let first = 6_364_136_223_846_793_005u64.wrapping_add(1_442_695_040_888_963_407);
    assert_eq!(rng.next_u64(), first);
    let second = first
        .wrapping_mul(6_364_136_223_846_793_005)
        .wrapping_add(1_442_695_040_888_963_407);
    assert_eq!(rng.next_below(10), (second % 10) as usize);
    assert_eq!(rng.state, second);
}

#[test]
fn buffers_are_refilled_from_the_generator() {
    let (mut a, mut b) = (Lcg::new(9), Lcg::new(9));
    let (mut left, mut right) = (vec![1, 2, 3], Vec::new());
    for _ in 0..50 {
        fill_buf(&mut a, &mut left);
        fill_buf(&mut b, &mut right);
        assert_eq!(left, right);
        assert!(left.len() <= MAX_BUF_LEN);
        assert_eq!(a.state, b.state);
    }
}

#[test]
fn decoders_accept_long_buffers_and_refuse_empty_ones() {
    // Zeros are a request header, an empty device list, and every other body.
    assert_eq!(exercise(&[0; MAX_BUF_LEN]), 71);
    assert_eq!(exercise(&[]), 0);
    // Four bytes hold the bodies of one word, and an empty device list.
    assert_eq!(exercise(&[0; 4]), 5);
    // With every bit set the frame kind and the device count are out of range.
    assert_eq!(exercise(&[0xFF; MAX_BUF_LEN]), 69);
}

#[test]
fn acceptances_are_summed_over_the_buffers_of_the_seed() {
    let mut rng = Lcg::new(77);
    let mut buf = Vec::new();
    let mut sum: u128 = 0;
    for n in 0..200 {
        assert_eq!(fuzz_accepted(77, n), sum);
        fill_buf(&mut rng, &mut buf);
        sum += exercise(&buf) as u128;
    }
    assert_ne!(fuzz_accepted(77, 200), fuzz_accepted(78, 200));
}
