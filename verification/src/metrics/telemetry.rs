//! Backend-neutral telemetry of an engine, projected from its metrics.

use vstd::prelude::*;

use crate::double::Double;
use crate::double::{ratio, times, Binary};
use crate::metrics::exposition::utilization;
use crate::metrics::histogram::{
    is_quantile_bucket, law_quantile_is_the_smallest_reaching_bound, quantile, valid_histogram,
    HistogramView,
};
use crate::metrics::server::{ModelArchSummary, PrefillPathStats, ServerMetrics};

verus! {

/// The quantile one half.
pub open spec fn p50() -> Binary {
    ratio(1, 2)
}

/// The quantile ninety-nine hundredths.
pub open spec fn p99() -> Binary {
    ratio(99, 100)
}

/// What an optional double holds.
pub open spec fn optional(x: Option<Double>) -> Option<Binary> {
    match x {
        Some(d) => Some(d@),
        None => None,
    }
}

/// An optional duration of seconds in microseconds.
pub open spec fn in_micros(seconds: Option<Binary>) -> Option<Binary> {
    match seconds {
        Some(s) => Some(times(s, 1_000_000)),
        None => None,
    }
}

/// An optional double lies in the range of the operations.
pub open spec fn optional_within(x: Option<Double>, limit: int) -> bool {
    x matches Some(d) ==> d.within(limit)
}

/// A count as an unsigned 32-bit number, at most `u32::MAX`.
pub open spec fn clamped(n: u64) -> u32 {
    if n <= u32::MAX {
        n as u32
    } else {
        u32::MAX
    }
}

/// Staged blocks of all tiers.
pub open spec fn staged_blocks(m: ServerMetrics) -> nat {
    (m.tier_fetch_staged_host_blocks_total + m.tier_fetch_staged_disk_blocks_total
        + m.tier_fetch_staged_remote_blocks_total) as nat
}

/// The rate of a slower tier, where anything was staged from it.
pub open spec fn tier_entry(label: Seq<char>, staged: u64, all: nat) -> Seq<(Seq<char>, Binary)> {
    if staged > 0 {
        seq![(label, ratio(staged as nat, all))]
    } else {
        Seq::empty()
    }
}

/// Hit rates by tier: the GPU pool always, a slower tier exactly where
/// something was staged from it.
#[verifier::opaque]
pub open spec fn tier_hit_rates(m: ServerMetrics) -> Seq<(Seq<char>, Binary)> {
    let all = staged_blocks(m);
    seq![("T0"@, ratio(m.prefix_hits_total as nat, m.prefix_lookups_total as nat))] + tier_entry(
        "T1"@,
        m.tier_fetch_staged_host_blocks_total,
        all,
    ) + tier_entry("T2"@, m.tier_fetch_staged_disk_blocks_total, all) + tier_entry(
        "T3"@,
        m.tier_fetch_staged_remote_blocks_total,
        all,
    )
}

/// What a list of rates holds.
pub open spec fn rate_views(rates: Seq<(&'static str, Double)>) -> Seq<(Seq<char>, Binary)> {
    rates.map_values(|r: (&'static str, Double)| (r.0@, r.1@))
}

/// Telemetry snapshot of an engine.
pub struct EngineTelemetry {
    pub ttft_us: Option<Double>,
    pub itl_p50_us: Option<Double>,
    pub itl_p99_us: Option<Double>,
    pub queue_depth: u32,
    pub active_requests: u32,
    /// Fraction of the GPU blocks in use.
    pub batch_occupancy: Double,
    pub model_arch: Option<ModelArchSummary>,
    /// Hit rates by tier label.
    pub kv_tier_hit_rates: Vec<(&'static str, Double)>,
    /// Unknown until a draft token was verified.
    pub spec_acceptance_rate: Option<Double>,
    pub prefill_path_stats: PrefillPathStats,
    pub timestamp_ms: u64,
}

impl EngineTelemetry {
    /// Everything but the percentiles and the time is that of `m`.
    pub open spec fn describes(self, m: ServerMetrics) -> bool {
        &&& self.queue_depth == clamped(m.requests_waiting)
        &&& self.active_requests == clamped(m.requests_active)
        &&& self.batch_occupancy@ == utilization(m)
        &&& self.batch_occupancy.within(512)
        &&& self.model_arch == m.model_arch
        &&& rate_views(self.kv_tier_hit_rates@) == tier_hit_rates(m)
        &&& forall|i: int|
            0 <= i < self.kv_tier_hit_rates@.len()
                ==> (#[trigger] self.kv_tier_hit_rates@[i]).1.within(
                512,
            )
        &&& optional(self.spec_acceptance_rate) == (if m.spec_verified_tokens_total > 0 {
            Some(ratio(m.spec_acceptance_rate_ppm as nat, 1_000_000))
        } else {
            None
        })
        &&& self.prefill_path_stats.describes(m)
    }

    /// The telemetry of `m` at the given time, with the percentiles of `m`.
    pub open spec fn is_snapshot(self, m: ServerMetrics, timestamp_ms: u64) -> bool {
        &&& self.describes(m)
        &&& optional(self.ttft_us) == in_micros(quantile(m.histograms.ttft@, p50()))
        &&& optional(self.itl_p50_us) == in_micros(quantile(m.histograms.tpot@, p50()))
        &&& optional(self.itl_p99_us) == in_micros(quantile(m.histograms.tpot@, p99()))
        &&& optional_within(self.ttft_us, 20_128)
        &&& optional_within(self.itl_p50_us, 20_128)
        &&& optional_within(self.itl_p99_us, 20_128)
        &&& self.timestamp_ms == timestamp_ms
    }
}

fn clamp_count(n: u64) -> (c: u32)
    ensures
        c == clamped(n),
{
    if n <= u32::MAX as u64 {
        n as u32
    } else {
        u32::MAX
    }
}

/// An optional duration of seconds in microseconds.
pub fn to_micros(seconds: Option<Double>) -> (micros: Option<Double>)
    requires
        optional_within(seconds, 512),
    ensures
        optional(micros) == in_micros(optional(seconds)),
        optional_within(micros, 20_128),
{
    match seconds {
        Some(s) => Some(s.times(1_000_000)),
        None => None,
    }
}

fn add_tier(rates: &mut Vec<(&'static str, Double)>, label: &'static str, staged: u64, all: u64)
    requires
        staged <= all,
        forall|i: int| 0 <= i < old(rates)@.len() ==> (#[trigger] old(rates)@[i]).1.within(512),
    ensures
        rate_views(final(rates)@) == rate_views(old(rates)@) + tier_entry(
            label@,
            staged,
            all as nat,
        ),
        forall|i: int| 0 <= i < final(rates)@.len() ==> (#[trigger] final(rates)@[i]).1.within(512),
{
    if staged > 0 {
        rates.push((label, Double::ratio(staged as u128, all as u128)));
    }
    assert(rate_views(rates@) =~= rate_views(old(rates)@) + tier_entry(label@, staged, all as nat));
}

impl ServerMetrics {
    /// Telemetry with the percentiles of the time to the first token and of
    /// the time between tokens.
    pub fn snapshot_engine_telemetry(&self, timestamp_ms: u64) -> (t: EngineTelemetry)
        requires
            self.wf(),
            self.rates_exist(),
        ensures
            t.is_snapshot(*self, timestamp_ms),
    {
        let half: Double = Double::ratio(1, 2);
        let high: Double = Double::ratio(99, 100);
        let ttft: Option<Double> = to_micros(self.histograms.ttft.percentile(half));
        let itl_p50: Option<Double> = to_micros(self.histograms.tpot.percentile(half));
        let itl_p99: Option<Double> = to_micros(self.histograms.tpot.percentile(high));
        self.snapshot_engine_telemetry_with(ttft, itl_p50, itl_p99, timestamp_ms)
    }

    /// Telemetry for a caller that has the percentiles already.
    pub fn snapshot_engine_telemetry_with(
        &self,
        ttft_us: Option<Double>,
        itl_p50_us: Option<Double>,
        itl_p99_us: Option<Double>,
        timestamp_ms: u64,
    ) -> (t: EngineTelemetry)
        requires
            self.rates_exist(),
        ensures
            t.describes(*self),
            t.ttft_us == ttft_us,
            t.itl_p50_us == itl_p50_us,
            t.itl_p99_us == itl_p99_us,
            t.timestamp_ms == timestamp_ms,
    {
        proof {
            reveal(tier_hit_rates);
        }
        let mut rates: Vec<(&'static str, Double)> = Vec::new();
        rates.push(("T0", self.prefix_hit_rate()));
        let staged: u64 = self.tier_fetch_staged_blocks_total();
        assert(rate_views(rates@) =~= seq![
            ("T0"@, ratio(self.prefix_hits_total as nat, self.prefix_lookups_total as nat)),
        ]);
        add_tier(&mut rates, "T1", self.tier_fetch_staged_host_blocks_total, staged);
        add_tier(&mut rates, "T2", self.tier_fetch_staged_disk_blocks_total, staged);
        add_tier(&mut rates, "T3", self.tier_fetch_staged_remote_blocks_total, staged);
        let spec_acceptance_rate: Option<Double> = if self.spec_verified_tokens_total > 0 {
            Some(self.spec_acceptance_rate())
        } else {
            None
        };
        let model_arch: Option<ModelArchSummary> = match &self.model_arch {
            Some(summary) => Some(summary.clone()),
            None => None,
        };
        EngineTelemetry {
            ttft_us,
            itl_p50_us,
            itl_p99_us,
            queue_depth: clamp_count(self.requests_waiting),
            active_requests: clamp_count(self.requests_active),
            batch_occupancy: self.kv_gpu_utilization(),
            model_arch,
            kv_tier_hit_rates: rates,
            spec_acceptance_rate,
            prefill_path_stats: self.prefill_path_stats(),
            timestamp_ms,
        }
    }
}

/// The percentile that telemetry gives of a histogram of seconds: none without
/// observations, and otherwise the microseconds of the first bound that so many of
/// the observations, `n` of `d`, do not exceed.
pub open spec fn tells_percentile(t: Option<Double>, h: HistogramView, n: nat, d: nat) -> bool {
    &&& t is None <==> h.count == 0
    &&& forall|at: int|
        h.count > 0 && #[trigger] is_quantile_bucket(h, ratio(n, d), at) ==> optional(t)
            == Some(times(ratio(h.bounds[at] as nat, h.scale), 1_000_000))
}

/// A snapshot tells the median of the times to the first token, and the median and
/// the ninety-ninth percentile of the times between tokens.
pub proof fn law_snapshots_tell_the_percentiles(
    t: EngineTelemetry,
    m: ServerMetrics,
    timestamp_ms: u64,
)
    requires
        t.is_snapshot(m, timestamp_ms),
        valid_histogram(m.histograms.ttft@),
        valid_histogram(m.histograms.tpot@),
        m.histograms.ttft@.bounds.len() > 0,
        m.histograms.tpot@.bounds.len() > 0,
    ensures
        tells_percentile(t.ttft_us, m.histograms.ttft@, 1, 2),
        tells_percentile(t.itl_p50_us, m.histograms.tpot@, 1, 2),
        tells_percentile(t.itl_p99_us, m.histograms.tpot@, 99, 100),
        t.timestamp_ms == timestamp_ms,
{
    lemma_percentile(t.ttft_us, m.histograms.ttft@, 1, 2);
    lemma_percentile(t.itl_p50_us, m.histograms.tpot@, 1, 2);
    lemma_percentile(t.itl_p99_us, m.histograms.tpot@, 99, 100);
}

proof fn lemma_percentile(t: Option<Double>, h: HistogramView, n: nat, d: nat)
    requires
        optional(t) == in_micros(quantile(h, ratio(n, d))),
        valid_histogram(h),
        h.bounds.len() > 0,
    ensures
        tells_percentile(t, h, n, d),
{
    law_quantile_is_the_smallest_reaching_bound(h, ratio(n, d), 0);
    assert forall|at: int| h.count > 0 && #[trigger] is_quantile_bucket(h, ratio(n, d), at) implies
        optional(t) == Some(times(ratio(h.bounds[at] as nat, h.scale), 1_000_000)) by {
        law_quantile_is_the_smallest_reaching_bound(h, ratio(n, d), at);
    }
}

/// Telemetry lists a slower tier under its own label exactly where something was
/// staged from it, with its share of all that was staged, and no other tier.
pub proof fn law_tiers_are_listed_by_label(t: EngineTelemetry, m: ServerMetrics)
    requires
        t.describes(m),
    ensures
        ({
            let rates = rate_views(t.kv_tier_hit_rates@);
            let host = m.tier_fetch_staged_host_blocks_total;
            let disk = m.tier_fetch_staged_disk_blocks_total;
            let remote = m.tier_fetch_staged_remote_blocks_total;
            let all = (host + disk + remote) as nat;
            &&& rates.len() == 1 + (if host > 0 {
                1int
            } else {
                0
            }) + (if disk > 0 {
                1int
            } else {
                0
            }) + (if remote > 0 {
                1int
            } else {
                0
            })
            &&& host > 0 ==> rates.contains(("T1"@, ratio(host as nat, all)))
            &&& disk > 0 ==> rates.contains(("T2"@, ratio(disk as nat, all)))
            &&& remote > 0 ==> rates.contains(("T3"@, ratio(remote as nat, all)))
        }),
        t.batch_occupancy@ == ratio(
            (m.kv_gpu_blocks_total - m.kv_gpu_blocks_free) as nat,
            m.kv_gpu_blocks_total as nat,
        ),
        m.spec_verified_tokens_total > 0 ==> optional(t.spec_acceptance_rate) == Some(
            ratio(m.spec_acceptance_rate_ppm as nat, 1_000_000),
        ),
        t.model_arch == m.model_arch,
{
    reveal(tier_hit_rates);
    let rates = rate_views(t.kv_tier_hit_rates@);
    let host = m.tier_fetch_staged_host_blocks_total;
    let disk = m.tier_fetch_staged_disk_blocks_total;
    let remote = m.tier_fetch_staged_remote_blocks_total;
    let one = 1int;
    let two = if host > 0 {
        2int
    } else {
        1int
    };
    let three = if disk > 0 {
        two + 1
    } else {
        two
    };
    let all = staged_blocks(m);
    if host > 0 {
        assert(rates[one] == ("T1"@, ratio(host as nat, all)));
    }
    if disk > 0 {
        assert(rates[two] == ("T2"@, ratio(disk as nat, all)));
    }
    if remote > 0 {
        assert(rates[three] == ("T3"@, ratio(remote as nat, all)));
    }
}

} // verus!
