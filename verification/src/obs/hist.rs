//! A tiny fixed-bucket latency histogram.
//!
//! [`LatencyHist`] sorts call durations into power-of-two microsecond buckets
//! and counts how many observations fall into each. The buckets are upper-bound
//! exclusive: bucket `i` (for `i < `[`BUCKETS`]` - 1`) counts durations whose
//! whole-microsecond value is strictly less than `2^i` microseconds, and the
//! final bucket is an open-ended overflow bucket for everything at or above the
//! largest tracked bound.
//!
//! The upper bounds run from `1us` (`2^0`) through `1024us` (`2^10`), giving
//! twelve buckets once the open-ended overflow bucket (`>=1024us`) is counted.
//! All counts use saturating arithmetic so a long-lived histogram cannot panic
//! on overflow; like the rest of the statistics the numbers are best-effort.
use std::time::Duration;

use vstd::prelude::*;

use crate::text;

verus! {

/// Number of histogram buckets, counting the open-ended overflow bucket.
pub const BUCKETS: usize = 12;

/// The exclusive upper bound of bucket `i` in whole microseconds: `2^i`.
pub open spec fn bound_us(i: nat) -> nat
    decreases i,
{
    if i == 0 {
        1
    } else {
        2 * bound_us((i - 1) as nat)
    }
}

/// Whether a duration of `micros` belongs to bucket `i`: it is under the bound
/// of the bucket, if that has one, and not under the bound before it.
pub open spec fn in_bucket(micros: nat, i: int) -> bool {
    &&& 0 <= i < BUCKETS
    &&& i > 0 ==> bound_us((i - 1) as nat) <= micros
    &&& i < BUCKETS - 1 ==> micros < bound_us(i as nat)
}

/// A latency histogram over power-of-two microsecond buckets.
///
/// Construct with [`LatencyHist::new`] (or [`Default`]), feed it durations with
/// [`record`](LatencyHist::record), and read it back via
/// [`count`](LatencyHist::count), [`bucket_counts`](LatencyHist::bucket_counts),
/// or the Markdown [`report`](LatencyHist::report).
#[derive(Debug, Clone, Copy, PartialEq, Eq)]
pub struct LatencyHist {
    /// The counts, lowest bound first.
    pub counts: [u64; BUCKETS],
}

impl View for LatencyHist {
    type V = Seq<u64>;

    open spec fn view(&self) -> Seq<u64> {
        self.counts@
    }
}

/// The sum of some counts.
pub open spec fn sum_of(counts: Seq<u64>) -> nat
    decreases counts.len(),
{
    if counts.len() == 0 {
        0
    } else {
        sum_of(counts.drop_last()) + counts.last() as nat
    }
}

/// What observing a duration of `micros` makes of the counts: one more in its
/// bucket, which stays at its maximum.
pub open spec fn observed(before: Seq<u64>, after: Seq<u64>, micros: nat) -> bool {
    forall|i: int| #[trigger]
        in_bucket(micros, i) ==> after == before.update(i, super::saturating(before[i], 1))
}

/// The line of the report for bucket `i`, none if nothing was counted in it.
pub open spec fn bucket_line(i: int, count: u64) -> Seq<char> {
    if count == 0 {
        seq![]
    } else if i < BUCKETS - 1 {
        "| <"@ + text::dec(bound_us(i as nat)) + "us | "@ + text::dec(count as nat) + " |\n"@
    } else {
        "| >="@ + text::dec(bound_us((BUCKETS - 2) as nat)) + "us | "@ + text::dec(count as nat)
            + " |\n"@
    }
}

/// The lines of the report for the given counts.
pub open spec fn bucket_lines(counts: Seq<u64>) -> Seq<char>
    decreases counts.len(),
{
    if counts.len() == 0 {
        seq![]
    } else {
        bucket_lines(counts.drop_last()) + bucket_line(counts.len() - 1, counts.last())
    }
}

impl LatencyHist {
    /// Create an empty histogram with all bucket counts at zero.
    pub fn new() -> (hist: LatencyHist)
        ensures
            hist@ == Seq::new(BUCKETS as nat, |i: int| 0u64),
    {
        let hist = LatencyHist { counts: [0, 0, 0, 0, 0, 0, 0, 0, 0, 0, 0, 0] };
        assert(hist@ =~= Seq::new(BUCKETS as nat, |i: int| 0u64));
        hist
    }

    /// Record a single observed duration into its bucket.
    ///
    /// The duration is placed in the first bucket whose exclusive upper bound it
    /// falls under; durations at or above the largest tracked bound land in the
    /// open-ended overflow bucket. The matched bucket's count saturates at
    /// [`u64::MAX`] rather than wrapping or panicking.
    pub fn record(&mut self, d: Duration)
        ensures
            observed(old(self)@, final(self)@, (super::timer::whole_nanos(d) / 1000) as nat),
    {
        self.record_micros(super::timer::as_micros(d));
    }

    /// Record a duration of `micros` whole microseconds into its bucket.
    pub fn record_micros(&mut self, micros: u128)
        ensures
            observed(old(self)@, final(self)@, micros as nat),
    {
        let index: usize = Self::bucket_index(micros);
        proof {
            assert forall|i: int| #[trigger] in_bucket(micros as nat, i) implies i == index by {
                law_one_bucket(micros as nat, i, index as int);
            }
        }
        self.counts[index] = self.counts[index].saturating_add(1);
    }

    /// Return the index of the bucket that a whole-microsecond value belongs to.
    pub fn bucket_index(micros: u128) -> (index: usize)
        ensures
            in_bucket(micros as nat, index as int),
    {
        let mut bound: u128 = 1;
        let mut i: usize = 0;
        while i < BUCKETS - 1
            invariant
                i <= BUCKETS - 1,
                bound == bound_us(i as nat),
                bound <= 0x800,
                i < BUCKETS - 1 ==> bound <= 0x400,
                i > 0 ==> bound_us((i - 1) as nat) <= micros,
            decreases BUCKETS - i,
        {
            if micros < bound {
                return i;
            }
            proof {
                reveal_with_fuel(bound_us, 13);
            }
            bound = bound * 2;
            i = i + 1;
        }
        BUCKETS - 1
    }

    /// Total number of observations recorded across all buckets.
    ///
    /// Computed with saturating addition, so it clamps at [`u64::MAX`].
    pub fn count(&self) -> (n: u64)
        ensures
            n == if sum_of(self@) <= u64::MAX {
                sum_of(self@) as u64
            } else {
                u64::MAX
            },
    {
        let mut total: u64 = 0;
        let mut i: usize = 0;
        while i < BUCKETS
            invariant
                i <= BUCKETS,
                total == if sum_of(self@.take(i as int)) <= u64::MAX {
                    sum_of(self@.take(i as int)) as u64
                } else {
                    u64::MAX
                },
            decreases BUCKETS - i,
        {
            total = total.saturating_add(self.counts[i]);
            i = i + 1;
            assert(self@.take(i as int).drop_last() =~= self@.take(i - 1));
        }
        assert(self@.take(i as int) =~= self@);
        total
    }

    /// Borrow the raw per-bucket counts, lowest bound first.
    ///
    /// Index `i` (for `i < `[`BUCKETS`]` - 1`) is the count for durations under
    /// `2^i` microseconds; the last index is the overflow bucket.
    pub fn bucket_counts(&self) -> (counts: &[u64; BUCKETS])
        ensures
            counts@ == self@,
    {
        &self.counts
    }

    /// Render the non-empty buckets as a small Markdown table.
    ///
    /// The table has two columns, the bucket's exclusive upper bound and its
    /// count; the overflow bucket is shown with a `>=` lower bound. Buckets with
    /// a zero count are omitted to keep the report compact. When no observations
    /// have been recorded the table body is empty (header only).
    pub fn report(&self) -> (out: String)
        ensures
            out@ == "| bucket | count |\n| --- | --- |\n"@ + bucket_lines(self@),
    {
        let mut out = String::from_str("| bucket | count |\n| --- | --- |\n");
        let ghost heading = out@;
        let mut bound: u64 = 1;
        let mut i: usize = 0;
        assert(heading + bucket_lines(self@.take(0)) =~= heading);
        while i < BUCKETS
            invariant
                i <= BUCKETS,
                bound == bound_us(i as nat),
                bound <= 0x1000,
                i < BUCKETS ==> bound <= 0x800,
                out@ == heading + bucket_lines(self@.take(i as int)),
            decreases BUCKETS - i,
        {
            let count: u64 = self.counts[i];
            let ghost before = out@;
            proof {
                reveal_with_fuel(bound_us, 13);
            }
            if count != 0 {
                if i < BUCKETS - 1 {
                    out.append("| <");
                    text::push_dec(&mut out, bound);
                } else {
                    // Overflow bucket: open-ended at the largest tracked bound.
                    out.append("| >=");
                    text::push_dec(&mut out, bound / 2);
                }
                out.append("us | ");
                text::push_dec(&mut out, count);
                out.append(" |\n");
            }
            bound = bound * 2;
            i = i + 1;
            proof {
                let front = self@.take(i as int);
                assert(front.drop_last() =~= self@.take(i - 1));
                assert(out@ =~= before + bucket_line(i - 1, count));
                assert(out@ =~= heading + bucket_lines(front));
            }
        }
        assert(self@.take(i as int) =~= self@);
        out
    }
}

impl Default for LatencyHist {
    fn default() -> (hist: LatencyHist)
        ensures
            hist@ == Seq::new(BUCKETS as nat, |i: int| 0u64),
    {
        LatencyHist::new()
    }
}

/// Bounds grow with the bucket.
proof fn lemma_bounds_grow(i: nat, j: nat)
    requires
        i <= j,
    ensures
        bound_us(i) <= bound_us(j),
        bound_us(i) > 0,
    decreases j,
{
    if i < j {
        lemma_bounds_grow(i, (j - 1) as nat);
    } else if i > 0 {
        lemma_bounds_grow((i - 1) as nat, (i - 1) as nat);
    }
}

/// A duration belongs to one bucket only.
pub proof fn law_one_bucket(micros: nat, i: int, j: int)
    requires
        in_bucket(micros, i),
        in_bucket(micros, j),
    ensures
        i == j,
{
    if i < j {
        lemma_bounds_grow(i as nat, (j - 1) as nat);
    } else if j < i {
        lemma_bounds_grow(j as nat, (i - 1) as nat);
    }
}

/// Every duration belongs to a bucket.
pub proof fn law_some_bucket(micros: nat) -> (i: int)
    ensures
        in_bucket(micros, i),
{
    lemma_some_bucket(micros, 0)
}

/// A duration that is not under the bound before bucket `i` belongs to that
/// bucket or to one above it.
proof fn lemma_some_bucket(micros: nat, i: int) -> (j: int)
    requires
        0 <= i < BUCKETS,
        i > 0 ==> bound_us((i - 1) as nat) <= micros,
    ensures
        in_bucket(micros, j),
    decreases BUCKETS - i,
{
    if i == BUCKETS - 1 || micros < bound_us(i as nat) {
        i
    } else {
        lemma_some_bucket(micros, i + 1)
    }
}

/// The bounds are the powers of two.
pub proof fn law_bounds_are_powers(i: nat)
    ensures
        bound_us(i) == vstd::arithmetic::power2::pow2(i),
    decreases i,
{
    if i == 0 {
        vstd::arithmetic::power2::lemma2_to64();
    } else {
        law_bounds_are_powers((i - 1) as nat);
        vstd::arithmetic::power2::lemma_pow2_unfold(i);
    }
}

/// A duration of zero belongs to the first bucket; every other one below 1024
/// microseconds belongs to the bucket whose power of two it is under while not
/// under half of it; and from 1024 microseconds on it belongs to the last one.
pub proof fn law_bucket_of(micros: nat, i: int)
    ensures
        in_bucket(micros, i) <==> {
            ||| i == 0 && micros == 0
            ||| 0 < i < 11 && vstd::arithmetic::power2::pow2((i - 1) as nat) <= micros
                < vstd::arithmetic::power2::pow2(i as nat)
            ||| i == 11 && 1024 <= micros
        },
{
    if 0 < i < 12 {
        law_bounds_are_powers((i - 1) as nat);
        law_bounds_are_powers(i as nat);
    }
    reveal_with_fuel(bound_us, 12);
}

/// The line of the report for a bucket speaks the truth of the durations in it:
/// of a bucket below the last it names a bound that they are all under while not
/// under half of it, of the last one a bound that they all reach. Beside it stands
/// the count of the bucket. An empty bucket has no line.
pub proof fn law_line_tells_bound(micros: nat, i: int, count: u64)
    requires
        in_bucket(micros, i),
    ensures
        bucket_line(i, 0) == Seq::<char>::empty(),
        count > 0 && i < BUCKETS - 1 ==> exists|label: Seq<char>, shown: Seq<char>|
            #![trigger text::number(label), text::number(shown)]
            {
                &&& bucket_line(i, count) == "| <"@ + label + "us | "@ + shown + " |\n"@
                &&& text::number(shown) == Some(count as nat)
                &&& text::number(label) matches Some(n)
                &&& micros < n
                &&& i > 0 ==> n <= 2 * micros
                &&& i == 0 ==> n == 1
            },
        count > 0 && i == BUCKETS - 1 ==> exists|label: Seq<char>, shown: Seq<char>|
            #![trigger text::number(label), text::number(shown)]
            {
                &&& bucket_line(i, count) == "| >="@ + label + "us | "@ + shown + " |\n"@
                &&& text::number(shown) == Some(count as nat)
                &&& text::number(label) matches Some(n)
                &&& n <= micros
                &&& n == 1024
            },
{
    let shown = text::dec(count as nat);
    text::law_dec_reads_back(count as nat);
    if count > 0 && i < BUCKETS - 1 {
        let n = bound_us(i as nat);
        let label = text::dec(n);
        text::law_dec_reads_back(n);
        assert(bucket_line(i, count) == "| <"@ + label + "us | "@ + shown + " |\n"@);
        assert(text::number(label) == Some(n) && text::number(shown) == Some(count as nat));
    } else if count > 0 {
        reveal_with_fuel(bound_us, 12);
        let n = bound_us(10);
        let label = text::dec(n);
        text::law_dec_reads_back(n);
        assert(bucket_line(i, count) == "| >="@ + label + "us | "@ + shown + " |\n"@);
        assert(text::number(label) == Some(n) && text::number(shown) == Some(count as nat));
    }
}

/// The report goes through the buckets in order: the line of each stands between
/// those of the buckets before it and those of the buckets behind it.
pub proof fn law_report_in_order(counts: Seq<u64>, i: int)
    requires
        0 <= i < counts.len(),
    ensures
        bucket_lines(seq![]) == Seq::<char>::empty(),
        bucket_lines(counts.take(i + 1)) == bucket_lines(counts.take(i)) + bucket_line(
            i,
            counts[i],
        ),
        counts.take(counts.len() as int) == counts,
{
    let front = counts.take(i + 1);
    assert(front.drop_last() =~= counts.take(i));
    assert(front.last() == counts[i]);
    assert(counts.take(counts.len() as int) =~= counts);
}

/// An observation adds one to the count of its bucket, and so to the sum, until
/// the bucket is full; the other buckets keep their counts.
pub proof fn law_observation_adds_one(counts: Seq<u64>, i: int)
    requires
        0 <= i < counts.len(),
        counts[i] < u64::MAX,
    ensures
        sum_of(counts.update(i, super::saturating(counts[i], 1))) == sum_of(counts) + 1,
    decreases counts.len(),
{
    let after = counts.update(i, super::saturating(counts[i], 1));
    if i == counts.len() - 1 {
        assert(after.drop_last() =~= counts.drop_last());
    } else {
        law_observation_adds_one(counts.drop_last(), i);
        assert(after.drop_last() =~= counts.drop_last().update(
            i,
            super::saturating(counts[i], 1),
        ));
    }
}

/// The report of a histogram shows every bucket that something was counted in: a
/// line that tells the bound of the durations in it, as
/// [`law_line_tells_bound`] has it, and its count.
pub proof fn law_report_shows(hist: &LatencyHist, out: String, micros: nat, i: int)
    requires
        call_ensures(LatencyHist::report, (hist,), out),
        in_bucket(micros, i),
        hist@[i] > 0,
    ensures
        exists|front: Seq<char>, label: Seq<char>, shown: Seq<char>, back: Seq<char>|
            #![trigger text::number(label), text::number(shown), front + back]
            {
                &&& i < BUCKETS - 1 ==> out@ == "| bucket | count |\n| --- | --- |\n"@ + (front
                    + ("| <"@ + label + "us | "@ + shown + " |\n"@) + back)
                &&& i == BUCKETS - 1 ==> out@ == "| bucket | count |\n| --- | --- |\n"@ + (front
                    + ("| >="@ + label + "us | "@ + shown + " |\n"@) + back)
                &&& text::number(shown) == Some(hist@[i] as nat)
                &&& text::number(label) matches Some(n)
                &&& i < BUCKETS - 1 ==> micros < n
                &&& 0 < i < BUCKETS - 1 ==> n <= 2 * micros
                &&& i == BUCKETS - 1 ==> n == 1024 && n <= micros
            },
{
    law_line_tells_bound(micros, i, hist@[i]);
    let back = lemma_lines_around(hist@, i);
    let front = bucket_lines(hist@.take(i));
    if i < BUCKETS - 1 {
        let (label, shown) = choose|label: Seq<char>, shown: Seq<char>|
            #![trigger text::number(label), text::number(shown)]
            {
                &&& bucket_line(i, hist@[i]) == "| <"@ + label + "us | "@ + shown + " |\n"@
                &&& text::number(shown) == Some(hist@[i] as nat)
                &&& text::number(label) matches Some(n)
                &&& micros < n
                &&& i > 0 ==> n <= 2 * micros
                &&& i == 0 ==> n == 1
            };
        assert(text::number(label) is Some && text::number(shown) is Some && (front + back).len()
            >= 0);
    } else {
        let (label, shown) = choose|label: Seq<char>, shown: Seq<char>|
            #![trigger text::number(label), text::number(shown)]
            {
                &&& bucket_line(i, hist@[i]) == "| >="@ + label + "us | "@ + shown + " |\n"@
                &&& text::number(shown) == Some(hist@[i] as nat)
                &&& text::number(label) matches Some(n)
                &&& n <= micros
                &&& n == 1024
            };
        assert(text::number(label) is Some && text::number(shown) is Some && (front + back).len()
            >= 0);
    }
}

/// The lines of the report around that of bucket `i`.
proof fn lemma_lines_around(counts: Seq<u64>, i: int) -> (back: Seq<char>)
    requires
        0 <= i < counts.len(),
    ensures
        bucket_lines(counts) == bucket_lines(counts.take(i)) + bucket_line(i, counts[i]) + back,
    decreases counts.len(),
{
    let n = counts.len() - 1;
    if i == n {
        assert(counts.drop_last() =~= counts.take(i));
        assert(bucket_lines(counts) =~= bucket_lines(counts.take(i)) + bucket_line(i, counts[i])
            + seq![]);
        seq![]
    } else {
        let back = lemma_lines_around(counts.drop_last(), i);
        assert(counts.drop_last().take(i) =~= counts.take(i));
        let all = back + bucket_line(n, counts.last());
        assert(bucket_lines(counts) =~= bucket_lines(counts.take(i)) + bucket_line(i, counts[i])
            + all);
        all
    }
}

/// An observation counts once, in the bucket of its duration, until that is full;
/// every other bucket keeps its count.
pub proof fn law_observation_counts_once(before: Seq<u64>, after: Seq<u64>, micros: nat) -> (i: int)
    requires
        observed(before, after, micros),
        before.len() == BUCKETS,
    ensures
        in_bucket(micros, i),
        after.len() == BUCKETS,
        after[i] == super::capped(before[i] + 1),
        forall|j: int| 0 <= j < BUCKETS && j != i ==> after[j] == before[j],
        before[i] < u64::MAX ==> sum_of(after) == sum_of(before) + 1,
{
    let i = law_some_bucket(micros);
    if before[i] < u64::MAX {
        law_observation_adds_one(before, i);
    }
    i
}

/// The count of a histogram is the sum of the counts of its buckets, staying at its
/// maximum; a new histogram has counted nothing.
pub proof fn law_count_is_sum(
    hist: &LatencyHist,
    n: u64,
    new: LatencyHist,
    counts: Seq<u64>,
    c: u64,
)
    requires
        call_ensures(LatencyHist::count, (hist,), n),
        call_ensures(LatencyHist::new, (), new),
    ensures
        n == super::capped(sum_of(hist@) as int),
        sum_of(seq![]) == 0,
        sum_of(counts.push(c)) == sum_of(counts) + c,
        forall|i: int| 0 <= i < BUCKETS ==> new@[i] == 0,
        new@.len() == 12,
{
    assert(counts.push(c).drop_last() =~= counts);
}

/// Recording a duration, given as such or in whole microseconds, counts once, in
/// its bucket, until that is full; every other bucket keeps its count.
pub proof fn law_recording_counts_once(
    hist: &mut LatencyHist,
    d: Duration,
    micros: u128,
) -> (places: (int, int))
    ensures
        in_bucket((super::timer::whole_nanos(d) / 1000) as nat, places.0),
        in_bucket(micros as nat, places.1),
        call_ensures(LatencyHist::record, (hist, d), ()) ==> {
            &&& final(hist)@[places.0] == super::capped(old(hist)@[places.0] + 1)
            &&& forall|j: int|
                0 <= j < BUCKETS && j != places.0 ==> final(hist)@[j] == old(hist)@[j]
        },
        call_ensures(LatencyHist::record_micros, (hist, micros), ()) ==> {
            &&& final(hist)@[places.1] == super::capped(old(hist)@[places.1] + 1)
            &&& forall|j: int|
                0 <= j < BUCKETS && j != places.1 ==> final(hist)@[j] == old(hist)@[j]
        },
{
    (law_some_bucket((super::timer::whole_nanos(d) / 1000) as nat), law_some_bucket(micros as nat))
}

/// The index of a bucket is zero for no time at all, the power of two that a
/// duration is under while not under half of it, and eleven from 1024 microseconds
/// on; and the counts are handed out as they are.
pub proof fn law_bucket_index(
    micros: u128,
    index: usize,
    hist: &LatencyHist,
    counts: &[u64; BUCKETS],
)
    requires
        call_ensures(LatencyHist::bucket_index, (micros,), index),
        call_ensures(LatencyHist::bucket_counts, (hist,), counts),
    ensures
        micros == 0 <==> index == 0,
        micros >= 1024 <==> index == 11,
        0 < micros < 1024 ==> vstd::arithmetic::power2::pow2((index - 1) as nat) <= micros
            < vstd::arithmetic::power2::pow2(index as nat),
        counts@ == hist@,
{
    law_bucket_of(micros as nat, index as int);
    if 0 < index < 11 {
        law_bounds_are_powers(index as nat);
        lemma_bounds_grow(index as nat, 10);
        reveal_with_fuel(bound_us, 12);
    }
}

} // verus!
