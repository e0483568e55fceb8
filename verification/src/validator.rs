//! Accepting or rejecting a candidate viewport from the escape counts of a
//! coarse grid of sample points.

use vstd::prelude::*;
use crate::MAX_ITERATIONS;

verus! {

/// Sample points along each axis of the grid.
pub const GRID_SIZE: u32 = 30;

/// Sample points in the whole grid.
pub const GRID_POINTS: usize = 900;

/// Number of histogram buckets: one for members of the set, four for the rest.
pub const BUCKET_COUNT: usize = 5;

/// Whether every count is a possible escape count.
pub open spec fn counts_in_range(counts: Seq<u32>) -> bool {
    forall|i: int| 0 <= i < counts.len() ==> #[trigger] counts[i] <= MAX_ITERATIONS
}

/// The bucket of an escape count: 0 for a point that never escaped, else one
/// of four equal bands over the escaped range.
pub open spec fn bucket_of_count(count: u32) -> int {
    if count == MAX_ITERATIONS {
        0
    } else {
        1 + (count * 4) / (MAX_ITERATIONS as int)
    }
}

/// How many of the counts fall into `bucket`.
pub open spec fn tally(counts: Seq<u32>, bucket: int) -> nat
    decreases counts.len(),
{
    if counts.len() == 0 {
        0
    } else {
        let rest = tally(counts.drop_last(), bucket);
        if bucket_of_count(counts.last()) == bucket {
            rest + 1
        } else {
            rest
        }
    }
}

/// The histogram of a grid of counts, one entry per bucket.
pub open spec fn histogram_of(counts: Seq<u32>) -> Seq<nat> {
    Seq::new(BUCKET_COUNT as nat, |b: int| tally(counts, b))
}

/// A stored histogram read as a sequence of natural numbers.
pub open spec fn tallies_of(histogram: Seq<usize>) -> Seq<nat> {
    Seq::new(histogram.len(), |b: int| histogram[b] as nat)
}

/// The acceptance rule on a histogram of `total` samples: the share of members
/// lies in `[5%, 95%]`, both ends included, and some escaped bucket is occupied.
pub open spec fn histogram_accepted(histogram: Seq<nat>, total: nat) -> bool {
    &&& 20 * histogram[0] >= total
    &&& 20 * histogram[0] <= 19 * total
    &&& exists|b: int| 1 <= b < BUCKET_COUNT && #[trigger] histogram[b] > 0
}

/// Whether a grid with these escape counts is worth rendering.
pub open spec fn region_accepted(counts: Seq<u32>) -> bool {
    histogram_accepted(histogram_of(counts), counts.len())
}

/// The bucket of one escape count.
pub fn bucket_of(count: u32) -> (bucket: usize)
    requires
        count <= MAX_ITERATIONS,
    ensures
        bucket == bucket_of_count(count),
        bucket < BUCKET_COUNT,
        bucket == 0 <==> count == MAX_ITERATIONS,
{
    if count == MAX_ITERATIONS {
        0
    } else {
        let band: u32 = count * 4 / MAX_ITERATIONS;
        1 + band as usize
    }
}

/// The escaped buckets are quarters of the escaped range: bucket `b` holds the
/// counts from `250 * (b - 1)` up to, not including, `250 * b`.
pub proof fn lemma_bands_are_quarters(count: u32)
    requires
        count < MAX_ITERATIONS,
    ensures
        1 <= bucket_of_count(count) <= 4,
        250 * (bucket_of_count(count) - 1) <= count < 250 * bucket_of_count(count),
{
    let band = (count * 4) / 1000;
    assert(1000 * band <= count * 4 < 1000 * band + 1000);
}

/// No bucket holds more counts than there are.
pub proof fn lemma_tally_bounded(counts: Seq<u32>, bucket: int)
    ensures
        tally(counts, bucket) <= counts.len(),
    decreases counts.len(),
{
    if counts.len() > 0 {
        lemma_tally_bounded(counts.drop_last(), bucket);
    }
}

/// Counts the samples of each bucket.
pub fn build_histogram(counts: &Vec<u32>) -> (histogram: Vec<usize>)
    requires
        counts_in_range(counts@),
    ensures
        histogram.len() == BUCKET_COUNT,
        tallies_of(histogram@) == histogram_of(counts@),
{
    let mut histogram: Vec<usize> = vec![0, 0, 0, 0, 0];
    let mut i: usize = 0;
    while i < counts.len()
        invariant
            i <= counts.len(),
            counts_in_range(counts@),
            histogram.len() == BUCKET_COUNT,
            forall|b: int|
                0 <= b < BUCKET_COUNT ==> #[trigger] histogram[b] == tally(
                    counts@.take(i as int),
                    b,
                ),
        decreases counts.len() - i,
    {
        let bucket = bucket_of(counts[i]);
        proof {
            let before = counts@.take(i as int);
            let after = counts@.take(i + 1);
            assert(after.drop_last() =~= before);
            assert(after.last() == counts@[i as int]);
            lemma_tally_bounded(before, bucket as int);
        }
        let bumped: usize = histogram[bucket] + 1;
        histogram.set(bucket, bumped);
        i += 1;
    }
    proof {
        assert(counts@.take(counts.len() as int) =~= counts@);
        assert(tallies_of(histogram@) =~= histogram_of(counts@));
    }
    histogram
}

/// Applies the acceptance rule to a histogram of `total` samples.
pub fn histogram_accepts(histogram: &Vec<usize>, total: usize) -> (accepted: bool)
    requires
        histogram.len() == BUCKET_COUNT,
    ensures
        accepted == histogram_accepted(tallies_of(histogram@), total as nat),
{
    let inside: u128 = histogram[0] as u128;
    let all: u128 = total as u128;
    let share_ok = 20 * inside >= all && 20 * inside <= 19 * all;
    let detail = histogram[1] > 0 || histogram[2] > 0 || histogram[3] > 0 || histogram[4] > 0;
    proof {
        let tallies = tallies_of(histogram@);
        assert(tallies[0] == histogram[0]);
        assert(tallies[1] == histogram[1]);
        assert(tallies[2] == histogram[2]);
        assert(tallies[3] == histogram[3]);
        assert(tallies[4] == histogram[4]);
    }
    share_ok && detail
}

/// Every count in range falls into exactly one of the five buckets.
pub proof fn lemma_buckets_partition(counts: Seq<u32>)
    requires
        counts_in_range(counts),
    ensures
        tally(counts, 0) + tally(counts, 1) + tally(counts, 2) + tally(counts, 3) + tally(
            counts,
            4,
        ) == counts.len(),
    decreases counts.len(),
{
    if counts.len() > 0 {
        let rest = counts.drop_last();
        assert forall|i: int| 0 <= i < rest.len() implies #[trigger] rest[i] <= MAX_ITERATIONS by {
            assert(rest[i] == counts[i]);
        }
        lemma_buckets_partition(rest);
        let last = counts.last();
        assert(last == counts[counts.len() - 1]);
        assert(0 <= bucket_of_count(last) <= 4);
    }
}

/// A grid on which no point escapes is rejected.
pub proof fn lemma_all_inside_rejected(counts: Seq<u32>)
    requires
        forall|i: int| 0 <= i < counts.len() ==> #[trigger] counts[i] == MAX_ITERATIONS,
    ensures
        tally(counts, 0) == counts.len(),
        !region_accepted(counts),
    decreases counts.len(),
{
    if counts.len() > 0 {
        let rest = counts.drop_last();
        assert forall|i: int| 0 <= i < rest.len() implies #[trigger] rest[i] == MAX_ITERATIONS by {
            assert(rest[i] == counts[i]);
        }
        lemma_all_inside_rejected(rest);
        assert(counts.last() == counts[counts.len() - 1]);
    }
    lemma_tally_bounded(counts, 0);
}

/// A grid on which every point escapes is rejected.
pub proof fn lemma_all_outside_rejected(counts: Seq<u32>)
    requires
        forall|i: int| 0 <= i < counts.len() ==> #[trigger] counts[i] < MAX_ITERATIONS,
    ensures
        tally(counts, 0) == 0,
        !region_accepted(counts),
    decreases counts.len(),
{
    if counts.len() > 0 {
        let rest = counts.drop_last();
        assert forall|i: int| 0 <= i < rest.len() implies #[trigger] rest[i] < MAX_ITERATIONS by {
            assert(rest[i] == counts[i]);
        }
        lemma_all_outside_rejected(rest);
        assert(counts.last() == counts[counts.len() - 1]);
    } else {
        lemma_tally_bounded(counts, 1);
        lemma_tally_bounded(counts, 2);
        lemma_tally_bounded(counts, 3);
        lemma_tally_bounded(counts, 4);
    }
}

/// On a grid that is not empty the share of members decides alone: a share of
/// at most 95% already leaves a point in some escaped bucket.
pub proof fn lemma_share_decides(counts: Seq<u32>)
    requires
        counts_in_range(counts),
    ensures
        region_accepted(counts) <==> {
            &&& counts.len() > 0
            &&& 20 * tally(counts, 0) >= counts.len()
            &&& 20 * tally(counts, 0) <= 19 * counts.len()
        },
{
    lemma_buckets_partition(counts);
    lemma_tally_bounded(counts, 0);
    lemma_tally_bounded(counts, 1);
    lemma_tally_bounded(counts, 2);
    lemma_tally_bounded(counts, 3);
    lemma_tally_bounded(counts, 4);
    let h = histogram_of(counts);
    assert(h[0] == tally(counts, 0));
    assert(h[1] == tally(counts, 1));
    assert(h[2] == tally(counts, 2));
    assert(h[3] == tally(counts, 3));
    assert(h[4] == tally(counts, 4));
    if region_accepted(counts) {
        let b = choose|b: int| 1 <= b < BUCKET_COUNT && #[trigger] h[b] > 0;
        assert(counts.len() > 0);
    }
    if counts.len() > 0 && 20 * tally(counts, 0) <= 19 * counts.len() {
        assert(tally(counts, 0) < counts.len());
        assert(h[1] > 0 || h[2] > 0 || h[3] > 0 || h[4] > 0);
    }
}

/// Decides whether a candidate viewport is worth rendering, from the escape
/// counts of its sample grid.
pub fn is_interesting_region(counts: &Vec<u32>) -> (interesting: bool)
    requires
        counts_in_range(counts@),
    ensures
        interesting == region_accepted(counts@),
{
    let histogram = build_histogram(counts);
    histogram_accepts(&histogram, counts.len())
}

} // verus!
