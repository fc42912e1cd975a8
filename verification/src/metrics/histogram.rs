//! Fixed-bucket histograms for latency metrics.
//!
//! A histogram counts whole subunits: microseconds for a metric in seconds,
//! microseconds again for a metric that is published in microseconds. `scale`
//! says how many subunits make one unit of the published metric.

use vstd::prelude::*;

use crate::double::Double;
use crate::double::{ceiling, fixed_text, integer, product, ratio, Binary};
use crate::order::{
    at_most, law_ceiling_keeps_order, law_product_keeps_order, law_rates_follow_their_part,
};
use crate::text::{decimal, decimal_text};

verus! {

/// What a histogram holds.
#[verifier::ext_equal]
pub struct HistogramView {
    /// Inclusive upper bounds of the buckets, ascending.
    pub bounds: Seq<u64>,
    /// Observations per bucket; each one is counted in a single bucket.
    pub counts: Seq<u64>,
    /// Sum of all observations.
    pub sum: nat,
    /// Number of all observations, those above the last bound included.
    pub count: nat,
    /// Subunits in one unit of the published metric.
    pub scale: nat,
}

/// Observations in the first `n` buckets.
pub open spec fn cumulative(counts: Seq<u64>, n: nat) -> nat
    decreases n,
{
    if n == 0 {
        0
    } else {
        cumulative(counts, (n - 1) as nat) + counts[n - 1] as nat
    }
}

/// The bounds ascend, and none occurs twice.
pub open spec fn ascending(bounds: Seq<u64>) -> bool {
    forall|i: int, j: int| 0 <= i < j < bounds.len() ==> bounds[i] < bounds[j]
}

/// The first bucket from `from` on whose bound reaches `value`; the number of
/// buckets when none does.
pub open spec fn bucket_from(bounds: Seq<u64>, value: u64, from: nat) -> nat
    decreases bounds.len() - from,
{
    if from >= bounds.len() || value <= bounds[from as int] {
        from
    } else {
        bucket_from(bounds, value, from + 1)
    }
}

/// The first bucket from `from` on at which the running count reaches
/// `target`; the number of buckets when none does.
pub open spec fn rank_from(counts: Seq<u64>, target: nat, from: nat) -> nat
    decreases counts.len() - from,
{
    if from >= counts.len() || cumulative(counts, from + 1) >= target {
        from
    } else {
        rank_from(counts, target, from + 1)
    }
}

/// The histogram after one more observation.
pub open spec fn observed(h: HistogramView, value: u64) -> HistogramView {
    let bucket = bucket_from(h.bounds, value, 0);
    HistogramView {
        counts: if bucket < h.bounds.len() {
            h.counts.update(bucket as int, (h.counts[bucket as int] + 1) as u64)
        } else {
            h.counts
        },
        sum: h.sum + value as nat,
        count: h.count + 1,
        ..h
    }
}

/// A histogram without observations.
pub open spec fn empty_histogram(bounds: Seq<u64>, scale: nat) -> HistogramView {
    HistogramView {
        bounds,
        counts: Seq::new(bounds.len(), |i: int| 0u64),
        sum: 0,
        count: 0,
        scale,
    }
}

/// Rank of the observation that the quantile `p` asks for.
pub open spec fn target_rank(h: HistogramView, p: Binary) -> nat {
    ceiling(product(p, integer(h.count)))
}

/// Bound of the bucket that holds the observation of the given rank; the last
/// bound when that observation lies above it.
pub open spec fn bound_at_rank(h: HistogramView, target: nat) -> Option<u64> {
    let bucket = rank_from(h.counts, target, 0);
    if h.count == 0 || h.bounds.len() == 0 {
        None
    } else if bucket < h.bounds.len() {
        Some(h.bounds[bucket as int])
    } else {
        Some(h.bounds.last())
    }
}

/// A bound in units of the published metric.
pub open spec fn bound_value(h: HistogramView, bound: u64) -> Binary {
    ratio(bound as nat, h.scale)
}

/// The quantile `p`, in units of the published metric.
pub open spec fn quantile(h: HistogramView, p: Binary) -> Option<Binary> {
    match bound_at_rank(h, target_rank(h, p)) {
        Some(bound) => Some(bound_value(h, bound)),
        None => None,
    }
}

/// The exposition line of one bucket.
pub open spec fn bucket_line(
    name: Seq<char>,
    labels: Seq<char>,
    bound: Seq<char>,
    count: nat,
) -> Seq<char> {
    name + "_bucket{"@ + labels + "le=\""@ + bound + "\"} "@ + decimal(count) + "\n"@
}

/// The exposition lines of the first `n` buckets.
pub open spec fn bucket_lines(
    h: HistogramView,
    name: Seq<char>,
    labels: Seq<char>,
    n: nat,
) -> Seq<char>
    decreases n,
{
    if n == 0 {
        Seq::empty()
    } else {
        bucket_lines(h, name, labels, (n - 1) as nat) + bucket_line(
            name,
            labels,
            fixed_text(bound_value(h, h.bounds[n - 1]), 3),
            cumulative(h.counts, n),
        )
    }
}

/// The exposition lines of a histogram: its buckets, the bucket without a
/// bound, the sum and the count.
pub open spec fn histogram_text(h: HistogramView, name: Seq<char>, labels: Seq<char>) -> Seq<char> {
    bucket_lines(h, name, labels, h.bounds.len()) + bucket_line(name, labels, "+Inf"@, h.count)
        + sample_line(name + "_sum"@, labels, fixed_text(ratio(h.sum, h.scale), 6)) + sample_line(
        name + "_count"@,
        labels,
        decimal(h.count),
    )
}

/// The exposition line of one sample.
pub open spec fn sample_line(name: Seq<char>, labels: Seq<char>, value: Seq<char>) -> Seq<char> {
    name + "{"@ + labels + "} "@ + value + "\n"@
}

/// Text of one sample line.
pub fn sample_text(name: &str, labels: &str, value: &str) -> (s: String)
    ensures
        s@ == sample_line(name@, labels@, value@),
{
    let mut s: String = String::from_str(name);
    s.append("{");
    s.append(labels);
    s.append("} ");
    s.append(value);
    s.append("\n");
    s
}

fn bucket_text(name: &str, labels: &str, bound: &str, count: u64) -> (s: String)
    ensures
        s@ == bucket_line(name@, labels@, bound@, count as nat),
{
    let mut s: String = String::from_str(name);
    s.append("_bucket{");
    s.append(labels);
    s.append("le=\"");
    s.append(bound);
    s.append("\"} ");
    s.append(decimal_text(count).as_str());
    s.append("\n");
    s
}

/// Latency bounds in microseconds, from 1 ms to 60 s, finer between 10 and
/// 100 ms where the time between tokens usually lies.
pub open spec fn latency_bounds() -> Seq<u64> {
    seq![
        1_000, 2_000, 5_000, 10_000, 15_000, 20_000, 25_000, 30_000, 35_000, 40_000, 50_000,
        75_000, 100_000, 150_000, 200_000, 300_000, 500_000, 1_000_000, 2_000_000, 5_000_000,
        10_000_000, 30_000_000, 60_000_000,
    ]
}

/// Bounds in microseconds for metrics that are published in microseconds.
pub open spec fn microsecond_bounds() -> Seq<u64> {
    seq![
        10, 25, 50, 75, 100, 150, 200, 300, 500, 750, 1_000, 2_000, 5_000, 10_000, 25_000, 50_000,
        100_000, 250_000, 500_000, 1_000_000,
    ]
}

/// The latency bounds, in microseconds.
pub fn latency_buckets() -> (v: Vec<u64>)
    ensures
        v@ == latency_bounds(),
{
    let v: Vec<u64> = vec![
        1_000, 2_000, 5_000, 10_000, 15_000, 20_000, 25_000, 30_000, 35_000, 40_000, 50_000,
        75_000, 100_000, 150_000, 200_000, 300_000, 500_000, 1_000_000, 2_000_000, 5_000_000,
        10_000_000, 30_000_000, 60_000_000,
    ];
    assert(v@ =~= latency_bounds());
    v
}

/// The bounds of metrics in microseconds.
pub fn microsecond_buckets() -> (v: Vec<u64>)
    ensures
        v@ == microsecond_bounds(),
{
    let v: Vec<u64> = vec![
        10, 25, 50, 75, 100, 150, 200, 300, 500, 750, 1_000, 2_000, 5_000, 10_000, 25_000, 50_000,
        100_000, 250_000, 500_000, 1_000_000,
    ];
    assert(v@ =~= microsecond_bounds());
    v
}

/// Fixed-bucket histogram.
pub struct Histogram {
    buckets: Vec<u64>,
    counts: Vec<u64>,
    sum: u128,
    count: u64,
    scale: u64,
}

impl View for Histogram {
    type V = HistogramView;

    closed spec fn view(&self) -> HistogramView {
        HistogramView {
            bounds: self.buckets@,
            counts: self.counts@,
            sum: self.sum as nat,
            count: self.count as nat,
            scale: self.scale as nat,
        }
    }
}

/// A histogram holds one count per bound, its bounds ascend, and the buckets
/// hold no more observations than there were.
pub open spec fn valid_histogram(h: HistogramView) -> bool {
    &&& h.counts.len() == h.bounds.len() <= usize::MAX
    &&& ascending(h.bounds)
    &&& cumulative(h.counts, h.counts.len()) <= h.count <= u64::MAX
    &&& h.sum <= h.count * u64::MAX
    &&& 0 < h.scale <= u64::MAX
}

proof fn lemma_cumulative_step(counts: Seq<u64>, i: nat, j: nat)
    requires
        i <= j <= counts.len(),
    ensures
        cumulative(counts, i) <= cumulative(counts, j),
    decreases j,
{
    if i < j {
        lemma_cumulative_step(counts, i, (j - 1) as nat);
    }
}

proof fn lemma_cumulative_update(counts: Seq<u64>, at: int, value: u64, n: nat)
    requires
        0 <= at < counts.len(),
        n <= counts.len(),
    ensures
        cumulative(counts.update(at, value), n) == cumulative(counts, n) + (if at < n {
            value - counts[at]
        } else {
            0
        }),
    decreases n,
{
    if n > 0 {
        lemma_cumulative_update(counts, at, value, (n - 1) as nat);
    }
}

proof fn lemma_cumulative_zero(counts: Seq<u64>, n: nat)
    requires
        n <= counts.len(),
        forall|i: int| 0 <= i < counts.len() ==> #[trigger] counts[i] == 0,
    ensures
        cumulative(counts, n) == 0,
    decreases n,
{
    if n > 0 {
        lemma_cumulative_zero(counts, (n - 1) as nat);
    }
}

impl Histogram {
    /// Creates an empty histogram. The bounds are sorted ascending, and a bound
    /// that is given more than once is kept once.
    pub fn new(bounds: &Vec<u64>, scale: u64) -> (h: Histogram)
        requires
            scale > 0,
        ensures
            valid_histogram(h@),
            h@ == empty_histogram(h@.bounds, scale as nat),
            forall|i: int, j: int| 0 <= i < j < h@.bounds.len() ==> h@.bounds[i] < h@.bounds[j],
            h@.bounds.to_set() == bounds@.to_set(),
            ascending(bounds@) ==> h@.bounds == bounds@,
    {
        let mut sorted: Vec<u64> = Vec::new();
        let mut i: usize = 0;
        assert(sorted@ =~= bounds@.take(0));
        while i < bounds.len()
            invariant
                i <= bounds@.len(),
                ascending(sorted@),
                sorted@.len() <= i,
                same_members(sorted@, bounds@.take(i as int)),
                ascending(bounds@) ==> sorted@ == bounds@.take(i as int),
            decreases bounds@.len() - i,
        {
            let value: u64 = bounds[i];
            let mut at: usize = sorted.len();
            while at > 0 && sorted[at - 1] > value
                invariant
                    i < bounds@.len(),
                    value == bounds@[i as int],
                    at <= sorted@.len() <= i,
                    ascending(sorted@),
                    ascending(bounds@) ==> sorted@ == bounds@.take(i as int) && at == i,
                    forall|j: int| at <= j < sorted@.len() ==> sorted@[j] > value,
                decreases at,
            {
                assert(!ascending(bounds@)) by {
                    if ascending(bounds@) {
                        assert(bounds@[at - 1] < bounds@[i as int]);
                        assert(sorted@[at - 1] == bounds@[at - 1]);
                    }
                }
                at = at - 1;
            }
            let ghost before = sorted@;
            proof {
                assert(bounds@.take(i + 1) =~= bounds@.take(i as int).push(value));
            }
            if at > 0 && sorted[at - 1] == value {
                proof {
                    if ascending(bounds@) {
                        assert(bounds@[at - 1] < bounds@[i as int]);
                        assert(before[at - 1] == bounds@[at - 1]);
                    }
                    assert(before.contains(value));
                    lemma_member_again(before, bounds@.take(i as int), value);
                }
            } else {
                proof {
                    assert(ascending(before.insert(at as int, value))) by {
                        if at > 0 {
                            assert(forall|j: int|
                                0 <= j < at ==> #[trigger] before[j] <= before[at - 1]);
                        }
                    }
                    if ascending(bounds@) {
                        assert(before.insert(at as int, value) =~= before.push(value));
                    }
                    lemma_member_inserted(before, bounds@.take(i as int), at as int, value);
                }
                sorted.insert(at, value);
            }
            i = i + 1;
        }
        proof {
            assert(bounds@.take(i as int) =~= bounds@);
            assert(sorted@.to_set() =~= bounds@.to_set()) by {
                assert forall|v: u64| sorted@.to_set().contains(v) == bounds@.to_set().contains(v) by {
                    assert(sorted@.contains(v) == bounds@.contains(v));
                }
            }
        }
        let mut counts: Vec<u64> = Vec::new();
        let mut k: usize = 0;
        while k < sorted.len()
            invariant
                k <= sorted@.len(),
                counts@.len() == k,
                forall|j: int| 0 <= j < k ==> #[trigger] counts@[j] == 0,
            decreases sorted@.len() - k,
        {
            counts.push(0);
            k = k + 1;
        }
        proof {
            lemma_cumulative_zero(counts@, counts@.len());
            assert(counts@ =~= Seq::new(sorted@.len(), |j: int| 0u64));
        }
        let h = Histogram { buckets: sorted, counts, sum: 0, count: 0, scale };
        assert(h@ =~= empty_histogram(h@.bounds, scale as nat));
        h
    }

    /// The bucket that an observation falls into.
    fn bucket_index(&self, value: u64) -> (bucket: usize)
        ensures
            bucket == bucket_from(self@.bounds, value, 0),
    {
        let mut i: usize = 0;
        while i < self.buckets.len()
            invariant
                i <= self.buckets@.len(),
                bucket_from(self@.bounds, value, 0) == bucket_from(self@.bounds, value, i as nat),
            decreases self.buckets@.len() - i,
        {
            if value <= self.buckets[i] {
                return i;
            }
            i = i + 1;
        }
        i
    }

    /// Records one observation.
    pub fn observe(&mut self, value: u64)
        requires
            valid_histogram(old(self)@),
            old(self)@.count < u64::MAX,
        ensures
            final(self)@ == observed(old(self)@, value),
            valid_histogram(final(self)@),
    {
        let ghost before = self@;
        proof {
            let c = self.count as int;
            assert(c * u64::MAX + u64::MAX == (c + 1) * u64::MAX) by (nonlinear_arith);
            assert((c + 1) * u64::MAX <= u64::MAX * u64::MAX) by (nonlinear_arith)
                requires
                    c < u64::MAX,
            ;
        }
        let bucket: usize = self.bucket_index(value);
        self.sum = self.sum + value as u128;
        self.count = self.count + 1;
        if bucket < self.buckets.len() {
            proof {
                lemma_cumulative_step(before.counts, (bucket + 1) as nat, before.counts.len());
            }
            let seen: u64 = self.counts[bucket];
            self.counts.set(bucket, seen + 1);
        }
        assert(self@ =~= observed(before, value));
        proof {
            let bucket = bucket_from(before.bounds, value, 0);
            if bucket < before.bounds.len() {
                lemma_cumulative_step(before.counts, bucket + 1, before.counts.len());
                lemma_cumulative_update(
                    before.counts,
                    bucket as int,
                    (before.counts[bucket as int] + 1) as u64,
                    before.counts.len(),
                );
            }
        }
    }

    /// Renders the histogram as exposition lines.
    pub fn render(&self, name: &str, labels: &str) -> (out: String)
        requires
            valid_histogram(self@),
        ensures
            out@ == histogram_text(self@, name@, labels@),
    {
        let mut out: String = String::new();
        let mut total: u64 = 0;
        let mut i: usize = 0;
        while i < self.buckets.len()
            invariant
                i <= self.buckets@.len(),
                valid_histogram(self@),
                total == cumulative(self@.counts, i as nat),
                out@ == bucket_lines(self@, name@, labels@, i as nat),
            decreases self.buckets@.len() - i,
        {
            proof {
                lemma_cumulative_step(self@.counts, (i + 1) as nat, self@.counts.len());
            }
            total = total + self.counts[i];
            let bound: String =
                Double::ratio(self.buckets[i] as u128, self.scale as u128).to_fixed(3);
            let line: String = bucket_text(name, labels, bound.as_str(), total);
            out.append(line.as_str());
            i = i + 1;
        }
        out.append(bucket_text(name, labels, "+Inf", self.count).as_str());
        let mut sum_name: String = String::from_str(name);
        sum_name.append("_sum");
        let sum: String = self.sum().to_fixed(6);
        out.append(sample_text(sum_name.as_str(), labels, sum.as_str()).as_str());
        let mut count_name: String = String::from_str(name);
        count_name.append("_count");
        let count: String = decimal_text(self.count);
        out.append(sample_text(count_name.as_str(), labels, count.as_str()).as_str());
        out
    }

    /// Sum of all observations, in units of the published metric.
    pub fn sum(&self) -> (sum: Double)
        ensures
            sum@ == ratio(self@.sum, self@.scale),
            sum.within(512),
    {
        Double::ratio(self.sum, self.scale as u128)
    }

    /// Number of observations.
    pub fn count(&self) -> (count: u64)
        ensures
            count == self@.count,
    {
        self.count
    }

    /// Estimates the quantile `p` from the bucket counts: the bound of the
    /// bucket that the observation of rank `ceil(p * count)` falls into.
    /// `None` without observations.
    pub fn percentile(&self, p: Double) -> (value: Option<Double>)
        requires
            valid_histogram(self@),
            p.within(9_000),
        ensures
            value is Some <==> quantile(self@, p@) is Some,
            value matches Some(v) ==> quantile(self@, p@) == Some(v@) && v.within(512),
    {
        if self.count == 0 {
            return None;
        }
        let target: u64 = p.multiply(Double::of_integer(self.count as u128)).ceil();
        assert(target == target_rank(self@, p@));
        let mut total: u64 = 0;
        let mut i: usize = 0;
        while i < self.buckets.len()
            invariant
                i <= self.buckets@.len(),
                valid_histogram(self@),
                self.count > 0,
                target == target_rank(self@, p@),
                total == cumulative(self@.counts, i as nat),
                rank_from(self@.counts, target as nat, 0) == rank_from(
                    self@.counts,
                    target as nat,
                    i as nat,
                ),
            decreases self.buckets@.len() - i,
        {
            proof {
                lemma_cumulative_step(self@.counts, (i + 1) as nat, self@.counts.len());
            }
            total = total + self.counts[i];
            if total >= target {
                return Some(Double::ratio(self.buckets[i] as u128, self.scale as u128));
            }
            i = i + 1;
        }
        if self.buckets.len() == 0 {
            None
        } else {
            let last: u64 = self.buckets[self.buckets.len() - 1];
            Some(Double::ratio(last as u128, self.scale as u128))
        }
    }
}

/// Two lists hold the same values.
spec fn same_members(a: Seq<u64>, b: Seq<u64>) -> bool {
    forall|v: u64| #[trigger] a.contains(v) == b.contains(v)
}

proof fn lemma_member_again(a: Seq<u64>, b: Seq<u64>, value: u64)
    requires
        same_members(a, b),
        a.contains(value),
    ensures
        same_members(a, b.push(value)),
{
    assert forall|v: u64| #[trigger] a.contains(v) == b.push(value).contains(v) by {
        lemma_push_contains(b, value, v);
    }
}

proof fn lemma_push_contains(b: Seq<u64>, value: u64, v: u64)
    ensures
        b.push(value).contains(v) == (b.contains(v) || v == value),
{
    if b.contains(v) {
        let k = choose|k: int| 0 <= k < b.len() && b[k] == v;
        assert(b.push(value)[k] == v);
    }
    assert(b.push(value)[b.len() as int] == value);
}

proof fn lemma_member_inserted(a: Seq<u64>, b: Seq<u64>, at: int, value: u64)
    requires
        same_members(a, b),
        0 <= at <= a.len(),
    ensures
        same_members(a.insert(at, value), b.push(value)),
{
    let c = a.insert(at, value);
    assert forall|v: u64| #[trigger] c.contains(v) == b.push(value).contains(v) by {
        lemma_push_contains(b, value, v);
        if a.contains(v) {
            let k = choose|k: int| 0 <= k < a.len() && a[k] == v;
            if k < at {
                assert(c[k] == v);
            } else {
                assert(c[k + 1] == v);
            }
        }
        assert(c[at] == value);
        if c.contains(v) {
            let k = choose|k: int| 0 <= k < c.len() && c[k] == v;
            if k < at {
                assert(a[k] == v);
            } else if k > at {
                assert(a[k - 1] == v);
            }
        }
    }
}

/// A running count never falls: the exposition lines of a histogram are
/// cumulative, and the bucket without a bound counts at least as much as every
/// other.
pub proof fn law_buckets_are_cumulative(h: HistogramView, i: nat, j: nat)
    requires
        valid_histogram(h),
        i <= j <= h.bounds.len(),
    ensures
        cumulative(h.counts, i) <= cumulative(h.counts, j) <= h.count,
{
    lemma_cumulative_step(h.counts, i, j);
    lemma_cumulative_step(h.counts, j, h.counts.len());
}

proof fn lemma_bucket_from(bounds: Seq<u64>, value: u64, from: nat)
    requires
        from <= bounds.len(),
    ensures
        from <= bucket_from(bounds, value, from) <= bounds.len(),
        bucket_from(bounds, value, from) < bounds.len() ==> value <= bounds[bucket_from(
            bounds,
            value,
            from,
        ) as int],
        forall|j: int| from <= j < bucket_from(bounds, value, from) ==> bounds[j] < value,
    decreases bounds.len() - from,
{
    if from < bounds.len() && value > bounds[from as int] {
        lemma_bucket_from(bounds, value, from + 1);
    }
}

/// An observation raises the running count of exactly those buckets whose
/// bound reaches it, each by one, the total count by one and the sum by its
/// value. Bounds and scale stay as they are.
pub proof fn law_observation_raises_reached_buckets(h: HistogramView, value: u64, n: nat)
    requires
        valid_histogram(h),
        h.count < u64::MAX,
        0 < n <= h.bounds.len(),
    ensures
        observed(h, value).count == h.count + 1,
        observed(h, value).sum == h.sum + value,
        observed(h, value).bounds == h.bounds,
        observed(h, value).scale == h.scale,
        cumulative(observed(h, value).counts, n) == cumulative(h.counts, n) + (if value
            <= h.bounds[n - 1] {
            1nat
        } else {
            0nat
        }),
{
    let bucket = bucket_from(h.bounds, value, 0);
    lemma_bucket_from(h.bounds, value, 0);
    if bucket < h.bounds.len() {
        lemma_cumulative_step(h.counts, bucket + 1, h.counts.len());
        lemma_cumulative_update(
            h.counts,
            bucket as int,
            (h.counts[bucket as int] + 1) as u64,
            n,
        );
        if bucket < n {
            assert(h.bounds[bucket as int] <= h.bounds[n - 1]);
        }
    }
}

proof fn lemma_rank_from(counts: Seq<u64>, target: nat, from: nat)
    requires
        from <= counts.len(),
    ensures
        from <= rank_from(counts, target, from) <= counts.len(),
        rank_from(counts, target, from) < counts.len() ==> cumulative(
            counts,
            rank_from(counts, target, from) + 1,
        ) >= target,
        forall|j: nat|
            from <= j < rank_from(counts, target, from) ==> #[trigger] cumulative(counts, j + 1)
                < target,
    decreases counts.len() - from,
{
    if from < counts.len() && cumulative(counts, from + 1) < target {
        lemma_rank_from(counts, target, from + 1);
    }
}

proof fn lemma_ranks_ascend(h: HistogramView, low: nat, high: nat)
    requires
        valid_histogram(h),
        h.count > 0,
        h.bounds.len() > 0,
        low <= high,
    ensures
        bound_at_rank(h, low)->0 <= bound_at_rank(h, high)->0,
{
    lemma_rank_from(h.counts, low, 0);
    lemma_rank_from(h.counts, high, 0);
    let a = rank_from(h.counts, low, 0);
    let b = rank_from(h.counts, high, 0);
    if b < a {
        assert(cumulative(h.counts, b + 1) < low);
    }
}

/// A higher quantile is never a lower estimate.
pub proof fn law_quantiles_ascend(h: HistogramView, p: Binary, q: Binary)
    requires
        valid_histogram(h),
        h.count > 0,
        h.bounds.len() > 0,
        at_most(p, q),
    ensures
        quantile(h, p) is Some,
        quantile(h, q) is Some,
        at_most(quantile(h, p)->0, quantile(h, q)->0),
{
    law_product_keeps_order(p, q, integer(h.count));
    law_ceiling_keeps_order(product(p, integer(h.count)), product(q, integer(h.count)));
    let (low, high) = (target_rank(h, p), target_rank(h, q));
    lemma_ranks_ascend(h, low, high);
    law_rates_follow_their_part(
        bound_at_rank(h, low)->0 as nat,
        bound_at_rank(h, high)->0 as nat,
        h.scale,
    );
}

/// The bucket at place `at` is the first whose running count reaches the rank
/// that the quantile asks for; the last bucket when no count does.
pub open spec fn is_quantile_bucket(h: HistogramView, p: Binary, at: int) -> bool {
    &&& 0 <= at < h.bounds.len()
    &&& forall|j: nat| j < at ==> #[trigger] cumulative(h.counts, j + 1) < target_rank(h, p)
    &&& cumulative(h.counts, (at + 1) as nat) >= target_rank(h, p) || at == h.bounds.len() - 1
}

/// Without observations there is no quantile. With some, it is the smallest
/// bound that as many of them do not exceed as the quantile asks for; the
/// largest bound when none is large enough.
pub proof fn law_quantile_is_the_smallest_reaching_bound(h: HistogramView, p: Binary, at: int)
    requires
        valid_histogram(h),
        h.bounds.len() > 0,
    ensures
        quantile(h, p) is None <==> h.count == 0,
        h.count > 0 && is_quantile_bucket(h, p, at) ==> quantile(h, p) == Some(
            bound_value(h, h.bounds[at]),
        ),
{
    if h.count > 0 && is_quantile_bucket(h, p, at) {
        let target = target_rank(h, p);
        lemma_rank_from(h.counts, target, 0);
        let found = rank_from(h.counts, target, 0);
        if at < found {
            assert(cumulative(h.counts, at as nat + 1) < target);
            assert(at == h.bounds.len() - 1);
        } else if found < at {
            assert(cumulative(h.counts, found + 1) < target);
        }
    }
}

/// Some bucket is the one that a quantile asks for.
pub proof fn law_quantiles_have_a_bucket(h: HistogramView, p: Binary)
    requires
        valid_histogram(h),
        h.bounds.len() > 0,
    ensures
        exists|at: int| is_quantile_bucket(h, p, at),
{
    let target = target_rank(h, p);
    lemma_rank_from(h.counts, target, 0);
    let found = rank_from(h.counts, target, 0);
    let at = if found < h.bounds.len() {
        found as int
    } else {
        h.bounds.len() - 1
    };
    assert(is_quantile_bucket(h, p, at));
}

/// The histograms of one server.
pub struct HistogramSet {
    pub queue_wait: Histogram,
    pub active_ttft: Histogram,
    pub service: Histogram,
    pub ttft: Histogram,
    pub tpot: Histogram,
    pub e2e: Histogram,
    pub scheduler_step: Histogram,
    pub spec_step_latency_us: Histogram,
    pub tier_demote_to_host_latency_us: Histogram,
    pub tier_store_latency_us: Histogram,
    pub tier_readmission_fetch_wait_us: Histogram,
}

/// An empty histogram of latencies in seconds.
pub open spec fn empty_latency() -> HistogramView {
    empty_histogram(latency_bounds(), 1_000_000)
}

/// An empty histogram of latencies in microseconds.
pub open spec fn empty_micros() -> HistogramView {
    empty_histogram(microsecond_bounds(), 1)
}

impl HistogramSet {
    /// Every histogram of the set is valid.
    pub open spec fn wf(&self) -> bool {
        &&& valid_histogram(self.queue_wait@)
        &&& valid_histogram(self.active_ttft@)
        &&& valid_histogram(self.service@)
        &&& valid_histogram(self.ttft@)
        &&& valid_histogram(self.tpot@)
        &&& valid_histogram(self.e2e@)
        &&& valid_histogram(self.scheduler_step@)
        &&& valid_histogram(self.spec_step_latency_us@)
        &&& valid_histogram(self.tier_demote_to_host_latency_us@)
        &&& valid_histogram(self.tier_store_latency_us@)
        &&& valid_histogram(self.tier_readmission_fetch_wait_us@)
    }

    /// No histogram of the set holds an observation.
    pub open spec fn is_empty(&self) -> bool {
        &&& self.queue_wait@ == empty_latency()
        &&& self.active_ttft@ == empty_latency()
        &&& self.service@ == empty_latency()
        &&& self.ttft@ == empty_latency()
        &&& self.tpot@ == empty_latency()
        &&& self.e2e@ == empty_latency()
        &&& self.scheduler_step@ == empty_latency()
        &&& self.spec_step_latency_us@ == empty_micros()
        &&& self.tier_demote_to_host_latency_us@ == empty_micros()
        &&& self.tier_store_latency_us@ == empty_micros()
        &&& self.tier_readmission_fetch_wait_us@ == empty_micros()
    }

    /// Creates the set with the default bounds.
    pub fn new() -> (set: HistogramSet)
        ensures
            set.wf(),
            set.is_empty(),
    {
        let latency: Vec<u64> = latency_buckets();
        let micros: Vec<u64> = microsecond_buckets();
        proof {
            assert(ascending(latency@));
            assert(ascending(micros@));
        }
        HistogramSet {
            queue_wait: Histogram::new(&latency, 1_000_000),
            active_ttft: Histogram::new(&latency, 1_000_000),
            service: Histogram::new(&latency, 1_000_000),
            ttft: Histogram::new(&latency, 1_000_000),
            tpot: Histogram::new(&latency, 1_000_000),
            e2e: Histogram::new(&latency, 1_000_000),
            scheduler_step: Histogram::new(&latency, 1_000_000),
            spec_step_latency_us: Histogram::new(&micros, 1),
            tier_demote_to_host_latency_us: Histogram::new(&micros, 1),
            tier_store_latency_us: Histogram::new(&micros, 1),
            tier_readmission_fetch_wait_us: Histogram::new(&micros, 1),
        }
    }
}

impl Default for HistogramSet {
    fn default() -> (set: HistogramSet)
        ensures
            set.wf(),
            set.is_empty(),
    {
        HistogramSet::new()
    }
}

} // verus!
