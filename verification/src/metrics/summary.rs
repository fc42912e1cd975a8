//! The metrics as one human-readable line.

use vstd::prelude::*;

use crate::double::Double;
use crate::double::{fixed_text, ratio, times, Binary};
use crate::metrics::exposition::{draft_rate, recall_rate, utilization};
use crate::metrics::histogram::quantile;
use crate::metrics::server::ServerMetrics;
use crate::metrics::server::{fallback_count, reasons_by_label};
use crate::metrics::telemetry::EngineTelemetry;
use crate::metrics::telemetry::{
    clamped, in_micros, optional, optional_within, p50, p99, staged_blocks, tier_hit_rates,
};
use crate::metrics::telemetry::rate_views;
use crate::model::requests::reason_label;
use crate::model::requests::MixedBatchFallbackReason;
use crate::text::{decimal, flag, signed_decimal};
use crate::text::{flag_value, push_decimal, signed_text};

verus! {

/// A duration of seconds in milliseconds; a dash without one.
pub open spec fn millis_text(seconds: Option<Binary>) -> Seq<char> {
    match seconds {
        Some(s) => fixed_text(times(s, 1_000), 1) + "ms"@,
        None => "—"@,
    }
}

/// A duration of seconds in microseconds; `na` without one.
pub open spec fn micros_text(seconds: Option<Binary>) -> Seq<char> {
    match in_micros(seconds) {
        Some(us) => fixed_text(us, 1),
        None => "na"@,
    }
}

/// Counts of the first `n` of the given reasons, those that occurred.
pub open spec fn reason_suffix(
    m: ServerMetrics,
    reasons: Seq<MixedBatchFallbackReason>,
    n: nat,
) -> Seq<char>
    decreases n,
{
    if n == 0 {
        Seq::empty()
    } else {
        let before = reason_suffix(m, reasons, (n - 1) as nat);
        let count = fallback_count(m, reasons[n - 1]);
        if count > 0 {
            before + (","@ + reason_label(reasons[n - 1]) + ":"@ + decimal(count as nat))
        } else {
            before
        }
    }
}

/// The first `n` tier hit rates.
pub open spec fn tier_rates_text(rates: Seq<(Seq<char>, Binary)>, n: nat) -> Seq<char>
    decreases n,
{
    if n == 0 {
        Seq::empty()
    } else {
        tier_rates_text(rates, (n - 1) as nat) + (" engine_kv_tier_hit_"@ + rates[n - 1].0 + "="@
            + fixed_text(rates[n - 1].1, 4))
    }
}

/// Averaged cleanup and loop durations.
pub open spec fn cleanup_suffix(m: ServerMetrics) -> Seq<char> {
    ",cleanup:"@
        + decimal(m.scheduler_step_cleanup_us as nat)
        + ",loop_total:"@
        + decimal(m.scheduler_loop_total_us as nat)
}

/// Averaged phase durations, once there are any.
pub open spec fn phases_suffix(m: ServerMetrics) -> Seq<char> {
    " step_phase_us=adm:"@
        + decimal(m.scheduler_step_admission_us as nat)
        + ",prefill:"@
        + decimal(m.scheduler_step_prefill_us as nat)
        + ",decode:"@
        + decimal(m.scheduler_step_decode_us as nat)
        + ",emit:"@
        + decimal(m.scheduler_step_emit_us as nat)
        + ",total:"@
        + decimal(m.scheduler_step_total_us as nat)
        + cleanup_suffix(m)
}

/// Preprocessing, pipeline and runtime placement.
pub open spec fn pipeline_suffix(m: ServerMetrics) -> Seq<char> {
    " preprocess=depth:"@
        + decimal(m.preprocess_queue_depth as nat)
        + ",wait_us:"@
        + decimal(m.preprocess_wait_us as nat)
        + ",tokenize_us:"@
        + decimal(m.preprocess_tokenize_us as nat)
        + " pipeline=snapshot_us:"@
        + decimal(m.scheduler_pipeline_snapshot_us as nat)
        + ",cpu_plan_us:"@
        + decimal(m.scheduler_pipeline_cpu_plan_us as nat)
        + ",gpu_wait_us:"@
        + decimal(m.scheduler_pipeline_gpu_completion_wait_us as nat)
        + ",gpu_q:"@
        + decimal(m.scheduler_pipeline_gpu_command_queue_depth as nat)
        + ",plan_accept:"@
        + decimal(m.scheduler_pipeline_cpu_plan_accept_total as nat)
        + ",plan_stale:"@
        + decimal(m.scheduler_pipeline_cpu_plan_stale_total as nat)
        + " runtime_topology=numa:"@
        + decimal(m.runtime_topology.numa_nodes as nat)
        + ",gpu:"@
        + decimal(m.runtime_topology.gpus as nat)
        + ",worker_numa:"@
        + signed_decimal(m.runtime_topology.worker_numa_node as int)
        + ",worker_cpus:"@
        + decimal(m.runtime_topology.worker_cpu_count as nat)
        + ",pre_workers:"@
        + decimal(m.runtime_topology.preprocess_workers as nat)
        + ",detok_workers:"@
        + decimal(m.runtime_topology.detokenizer_workers as nat)
        + ",h2d_last_us:"@
        + decimal(m.runtime_topology.h2d_latency_last_us as nat)
        + ",numa_route=local:"@
        + decimal(m.runtime_topology.numa_route_local_total as nat)
        + ",cross:"@
        + decimal(m.runtime_topology.numa_route_cross_total as nat)
        + ",unknown:"@
        + decimal(m.runtime_topology.numa_route_unknown_total as nat)
        + ",migrate:"@
        + decimal(m.runtime_topology.numa_migration_total as nat)
        + ",rebalance:"@
        + decimal(m.runtime_topology.numa_rebalance_total as nat)
}

/// Speculative blocks with their rates.
pub open spec fn draft_blocks(m: ServerMetrics) -> Seq<char> {
    " dflash_blocks="@
        + decimal(m.dflash_blocks_total as nat)
        + " dflash_accept="@
        + fixed_text(times(draft_rate(m), 100), 1)
        + "% util="@
        + fixed_text(
            times(
                ratio(m.dflash_accepted_tokens_total as nat, m.dflash_draft_tokens_total as nat),
                100,
            ),
            1,
        )
        + "%"@
}

/// Metal decode paths.
pub open spec fn metal_suffix(m: ServerMetrics) -> Seq<char> {
    " metal_decode=batch:"@
        + decimal(m.metal_decode_batches_total as nat)
        + "/"@
        + decimal(m.metal_decode_batched_rows_total as nat)
        + ",scalar:"@
        + decimal(m.metal_decode_scalar_rows_total as nat)
        + ",fallback:"@
        + decimal(m.metal_decode_batch_fallback_rows_total as nat)
        + ",qwen35_packed:"@
        + decimal(m.metal_qwen35_packed_decode_batches_total as nat)
        + "/"@
        + decimal(m.metal_qwen35_packed_decode_rows_total as nat)
}

/// Ticks by selected plan.
pub open spec fn plan_suffix(m: ServerMetrics) -> Seq<char> {
    " plan_label=idle:"@
        + decimal(m.scheduler_plan_idle_total as nat)
        + ",decode:"@
        + decimal(m.scheduler_plan_decode_total as nat)
        + ",prefill:"@
        + decimal(m.scheduler_plan_prefill_total as nat)
        + ",split:"@
        + decimal(m.scheduler_plan_split_total as nat)
        + ",mixed:"@
        + decimal(m.scheduler_plan_mixed_total as nat)
}

/// Outcomes of the mixed path, with the reasons that occurred.
pub open spec fn prefill_path_suffix(m: ServerMetrics) -> Seq<char> {
    " prefill_path=ok_true:"@
        + decimal(m.prefill_path_mixed_ok_true_total as nat)
        + ",ok_false:"@
        + decimal(m.prefill_path_mixed_ok_false_total as nat)
        + reason_suffix(m, reasons_by_label(), reasons_by_label().len())
}

/// Speculative decoding.
pub open spec fn speculation_suffix(m: ServerMetrics) -> Seq<char> {
    " spec=draft:"@
        + decimal(m.spec_draft_tokens_total as nat)
        + ",verified:"@
        + decimal(m.spec_verified_tokens_total as nat)
        + ",accepted:"@
        + decimal(m.spec_accepted_tokens_total as nat)
        + ",empty_sparse_views:"@
        + decimal(m.spec_sparse_view_empty_total as nat)
        + ",accept_rate:"@
        + fixed_text(times(ratio(m.spec_acceptance_rate_ppm as nat, 1_000_000), 100), 1)
        + "%,step_latency_count:"@
        + decimal(m.histograms.spec_step_latency_us@.count)
}

/// Coordinator queues and store counters.
pub open spec fn queues(m: ServerMetrics) -> Seq<char> {
    " kv_fetch_q="@
        + decimal(m.kv_fetch_queue_depth as nat)
        + "/"@
        + decimal(m.kv_coordinator_queue_capacity as nat)
        + " kv_fetch_waiters="@
        + decimal(m.kv_fetch_waiters as nat)
        + " kv_store_q="@
        + decimal(m.kv_store_queue_depth as nat)
        + "/"@
        + decimal(m.kv_coordinator_queue_capacity as nat)
        + " kv_store=sub:"@
        + decimal(m.kv_store_submitted_total as nat)
        + ",done:"@
        + decimal(m.kv_store_completed_total as nat)
        + ",fail:"@
        + decimal(m.kv_store_failed_total as nat)
        + ",rej:"@
        + decimal(m.kv_store_rejected_total as nat)
        + " kv_bp=fetch:"@
        + decimal(flag(m.kv_fetch_backpressure != 0))
        + ",store:"@
        + decimal(flag(m.kv_store_backpressure != 0))
}

/// Share of prompt tokens that prefixes covered.
pub open spec fn skip_suffix(m: ServerMetrics) -> Seq<char> {
    " prefix_skip_rate="@
        + fixed_text(
            times(
                ratio(
                    m.prefix_reused_tokens_total as nat,
                    m.prefix_lookup_prompt_tokens_total as nat,
                ),
                100,
            ),
            1,
        )
        + "%"@
}

/// Skip rate and staged fetches.
pub open spec fn tiers(m: ServerMetrics) -> Seq<char> {
    " prefix_skip_rate="@
        + fixed_text(
            times(
                ratio(
                    m.prefix_reused_tokens_total as nat,
                    m.prefix_lookup_prompt_tokens_total as nat,
                ),
                100,
            ),
            1,
        )
        + "% tier_recall="@
        + fixed_text(times(recall_rate(m), 100), 1)
        + "% tier_src=h:"@
        + decimal(m.tier_fetch_staged_host_blocks_total as nat)
        + "/d:"@
        + decimal(m.tier_fetch_staged_disk_blocks_total as nat)
        + "/r:"@
        + decimal(m.tier_fetch_staged_remote_blocks_total as nat)
        + " tier_promoted="@
        + decimal(m.tier_fetch_promoted_blocks_total as nat)
        + " tier_fallback="@
        + decimal(m.tier_fetch_fallback_total as nat)
}

/// Prefix reuse of the most recent request.
pub open spec fn cache_suffix(m: ServerMetrics) -> Seq<char> {
    " prefix_request_hit_rate="@
        + fixed_text(times(ratio(m.prefix_request_hit_ppm as nat, 1_000_000), 100), 1)
        + "% prefix_request_skip_rate="@
        + fixed_text(times(ratio(m.prefix_request_skip_ppm as nat, 1_000_000), 100), 1)
        + "% session_affinity_hit="@
        + decimal(m.session_affinity_hit_total as nat)
        + " session_affinity_miss="@
        + decimal(m.session_affinity_miss_total as nat)
        + " session_slot_pressure_evictions_hard="@
        + decimal(m.session_slot_pressure_evictions_hard_total as nat)
        + " prefix_aware_admit_deferrals="@
        + decimal(m.prefix_aware_admit_deferrals_total as nat)
        + " matched_prefix_tokens="@
        + decimal(m.matched_prefix_tokens as nat)
        + " resume_prefill_tokens="@
        + decimal(m.resume_prefill_tokens as nat)
        + " prefix_lookup_latency_us="@
        + decimal(m.prefix_lookup_latency_us as nat)
        + " prefix_lookup_reusable_tokens="@
        + decimal(m.prefix_lookup_reusable_tokens as nat)
        + " prefix_lookup_ready_on_gpu="@
        + decimal(flag(m.prefix_lookup_ready_on_gpu != 0))
        + " prefix_lookup_direct_gpu_attach="@
        + decimal(flag(m.prefix_lookup_direct_gpu_attach != 0))
        + " prefix_lookup_staged="@
        + decimal(flag(m.prefix_lookup_staged != 0))
        + " prefix_lookup_prefetch="@
        + decimal(flag(m.prefix_lookup_prefetch != 0))
        + " prefix_lookup_recompute="@
        + decimal(flag(m.prefix_lookup_recompute != 0))
}

/// Engine telemetry.
pub open spec fn telemetry_suffix(m: ServerMetrics, timestamp_ms: u64) -> Seq<char> {
    " engine_ttft_us="@
        + micros_text(quantile(m.histograms.ttft@, p50()))
        + " engine_itl_p50_us="@
        + micros_text(quantile(m.histograms.tpot@, p50()))
        + " engine_itl_p99_us="@
        + micros_text(quantile(m.histograms.tpot@, p99()))
        + " engine_queue_depth="@
        + decimal(clamped(m.requests_waiting) as nat)
        + " engine_active_requests="@
        + decimal(clamped(m.requests_active) as nat)
        + " engine_batch_occupancy="@
        + fixed_text(utilization(m), 4)
        + " engine_timestamp_ms="@
        + decimal(timestamp_ms as nat)
        + tier_rates_text(tier_hit_rates(m), tier_hit_rates(m).len())
}

/// The summary line.
pub open spec fn summary_text(m: ServerMetrics, timestamp_ms: u64) -> Seq<char> {
    "requests="@
        + decimal(m.requests_total as nat)
        + " active="@
        + decimal(m.requests_active as nat)
        + " waiting="@
        + decimal(m.requests_waiting as nat)
        + " scheduled="@
        + decimal(m.scheduler_scheduled_rows as nat)
        + " decode_rows="@
        + decimal(m.scheduler_scheduled_decode_rows as nat)
        + " prefill_rows="@
        + decimal(m.scheduler_scheduled_prefill_rows as nat)
        + " running_batch="@
        + decimal(m.scheduler_running_batch as nat)
        + " prefill_queue="@
        + decimal(m.scheduler_prefill_queue as nat)
        + " batch_width="@
        + decimal(m.scheduler_batch_width as nat)
        + " decode_tokens="@
        + decimal(m.scheduler_decode_tokens as nat)
        + " prefill_tokens="@
        + decimal(m.scheduler_prefill_tokens as nat)
        + " tokens_out="@
        + decimal(m.tokens_generated_total as nat)
        + " step_last="@
        + fixed_text(times(ratio(m.scheduler_step_last_us as nat, 1_000_000), 1_000), 1)
        + "ms step_p50="@
        + millis_text(quantile(m.histograms.scheduler_step@, p50()))
        + phase_suffix(m)
        + plan_suffix(m)
        + prefill_path_suffix(m)
        + speculation_suffix(m)
        + pipeline_suffix(m)
        + " tier_fetch_wait="@
        + fixed_text(times(ratio(m.tier_fetch_wait_us as nat, 1_000_000), 1_000), 1)
        + "ms tier_store_wait="@
        + fixed_text(times(ratio(m.tier_store_wait_us as nat, 1_000_000), 1_000), 1)
        + "ms kv_util="@
        + fixed_text(times(utilization(m), 100), 1)
        + "% prefix_hit_rate="@
        + fixed_text(
            times(ratio(m.prefix_hits_total as nat, m.prefix_lookups_total as nat), 100),
            1,
        )
        + "% active_mem="@
        + fixed_text(ratio(m.memory_active_bytes as nat, 1_048_576), 1)
        + "MB peak_mem="@
        + fixed_text(ratio(m.memory_peak_bytes as nat, 1_048_576), 1)
        + "MB cache_mem="@
        + fixed_text(ratio(m.memory_cache_bytes as nat, 1_048_576), 1)
        + "MB queue_p50="@
        + millis_text(quantile(m.histograms.queue_wait@, p50()))
        + " active_ttft_p50="@
        + millis_text(quantile(m.histograms.active_ttft@, p50()))
        + " ttft_p50="@
        + millis_text(quantile(m.histograms.ttft@, p50()))
        + " ttft_p99="@
        + millis_text(quantile(m.histograms.ttft@, p99()))
        + " service_p50="@
        + millis_text(quantile(m.histograms.service@, p50()))
        + " tpot_p50="@
        + millis_text(quantile(m.histograms.tpot@, p50()))
        + metal_suffix(m)
        + draft_suffix(m)
        + tier_suffix(m)
        + cache_suffix(m)
        + coordinator_suffix(m)
        + telemetry_suffix(m, timestamp_ms)
}

/// Averaged phase durations, or that there are none.
pub open spec fn phase_suffix(m: ServerMetrics) -> Seq<char> {
    if m.scheduler_step_phase_samples == 0 {
        " step_phase_us=unavailable"@
    } else {
        phases_suffix(m)
    }
}

/// Speculative blocks, if any ran.
pub open spec fn draft_suffix(m: ServerMetrics) -> Seq<char> {
    if m.dflash_blocks_total > 0 {
        draft_blocks(m)
    } else {
        Seq::empty()
    }
}

/// Coordinator queues, where there is a coordinator.
pub open spec fn coordinator_suffix(m: ServerMetrics) -> Seq<char> {
    if m.kv_coordinator_queue_capacity > 0 {
        queues(m)
    } else {
        Seq::empty()
    }
}

/// The skip rate, with the staged fetches once there are any.
pub open spec fn tier_suffix(m: ServerMetrics) -> Seq<char> {
    if staged_blocks(m) > 0 || m.tier_fetch_fallback_total > 0 {
        tiers(m)
    } else {
        skip_suffix(m)
    }
}

impl EngineTelemetry {
    /// The percentiles are those of `m`.
    pub open spec fn has_percentiles_of(self, m: ServerMetrics) -> bool {
        &&& optional(self.ttft_us) == in_micros(quantile(m.histograms.ttft@, p50()))
        &&& optional(self.itl_p50_us) == in_micros(quantile(m.histograms.tpot@, p50()))
        &&& optional(self.itl_p99_us) == in_micros(quantile(m.histograms.tpot@, p99()))
        &&& optional_within(self.ttft_us, 20_128)
        &&& optional_within(self.itl_p50_us, 20_128)
        &&& optional_within(self.itl_p99_us, 20_128)
    }
}

fn optional_millis_text(seconds: Option<Double>) -> (s: String)
    requires
        optional_within(seconds, 512),
    ensures
        s@ == millis_text(optional(seconds)),
{
    match seconds {
        Some(value) => {
            let mut s: String = value.times(1_000).to_fixed(1);
            s.append("ms");
            s
        },
        None => String::from_str("—"),
    }
}

fn optional_micros_text(micros: Option<Double>) -> (s: String)
    requires
        optional_within(micros, 20_128),
    ensures
        s@ == (match optional(micros) {
            Some(us) => fixed_text(us, 1),
            None => "na"@,
        }),
{
    match micros {
        Some(value) => value.to_fixed(1),
        None => String::from_str("na"),
    }
}

fn tier_rates(rates: &Vec<(&'static str, Double)>) -> (s: String)
    requires
        forall|i: int| 0 <= i < rates@.len() ==> (#[trigger] rates@[i]).1.within(512),
    ensures
        s@ == tier_rates_text(rate_views(rates@), rates@.len()),
        rate_views(rates@).len() == rates@.len(),
{
    let mut s: String = String::new();
    let mut i: usize = 0;
    while i < rates.len()
        invariant
            i <= rates@.len(),
            forall|j: int| 0 <= j < rates@.len() ==> (#[trigger] rates@[j]).1.within(512),
            s@ == tier_rates_text(rate_views(rates@), i as nat),
        decreases rates@.len() - i,
    {
        proof {
            assert(rate_views(rates@)[i as int] == (rates@[i as int].0@, rates@[i as int].1@));
        }
        let entry: (&'static str, Double) = rates[i];
        let mut piece: String = String::from_str(" engine_kv_tier_hit_");
        piece.append(entry.0);
        piece.append("=");
        piece.append(entry.1.to_fixed(4).as_str());
        s.append(piece.as_str());
        i = i + 1;
    }
    s
}

impl ServerMetrics {
    fn reason_suffix_text(&self) -> (s: String)
        ensures
            s@ == reason_suffix(*self, reasons_by_label(), reasons_by_label().len()),
    {
        let stats = self.prefill_path_stats();
        let ghost reasons = reasons_by_label();
        let mut s: String = String::new();
        let mut i: usize = 0;
        while i < stats.ok_false_reasons.len()
            invariant
                i <= stats.ok_false_reasons@.len(),
                reasons == reasons_by_label(),
                stats.describes(*self),
                s@ == reason_suffix(*self, reasons, i as nat),
            decreases stats.ok_false_reasons@.len() - i,
        {
            let entry: (&'static str, u64) = stats.ok_false_reasons[i];
            proof {
                assert(stats.ok_false_reasons@[i as int].0@ == reason_label(reasons[i as int]));
            }
            if entry.1 > 0 {
                let mut piece: String = String::from_str(",");
                piece.append(entry.0);
                piece.append(":");
                push_decimal(&mut piece, entry.1 as u128);
                s.append(piece.as_str());
            }
            i = i + 1;
        }
        s
    }

    fn phase_suffix_text(&self) -> (s: String)
        ensures
            s@ == phase_suffix(*self),
    {
        if self.scheduler_step_phase_samples == 0 {
            String::from_str(" step_phase_us=unavailable")
        } else {
            self.phases_suffix_text()
        }
    }

    fn draft_suffix_text(&self) -> (s: String)
        ensures
            s@ == draft_suffix(*self),
    {
        if self.dflash_blocks_total > 0 {
            self.draft_blocks_text()
        } else {
            String::new()
        }
    }

    fn coordinator_suffix_text(&self) -> (s: String)
        ensures
            s@ == coordinator_suffix(*self),
    {
        if self.kv_coordinator_queue_capacity > 0 {
            self.queues_text()
        } else {
            String::new()
        }
    }

    fn tier_suffix_text(&self) -> (s: String)
        requires
            self.rates_exist(),
        ensures
            s@ == tier_suffix(*self),
    {
        if self.tier_fetch_staged_blocks_total() > 0 || self.tier_fetch_fallback_total > 0 {
            self.tiers_text()
        } else {
            self.skip_suffix_text()
        }
    }

    fn cleanup_suffix_text(&self) -> (s: String)
        ensures
            s@ == cleanup_suffix(*self),
    {
        let mut s: String = String::from_str(",cleanup:");
        push_decimal(&mut s, self.scheduler_step_cleanup_us as u128);
        s.append(",loop_total:");
        push_decimal(&mut s, self.scheduler_loop_total_us as u128);
        s
    }

    fn phases_suffix_text(&self) -> (s: String)
        ensures
            s@ == phases_suffix(*self),
    {
        let mut s: String = String::from_str(" step_phase_us=adm:");
        push_decimal(&mut s, self.scheduler_step_admission_us as u128);
        s.append(",prefill:");
        push_decimal(&mut s, self.scheduler_step_prefill_us as u128);
        s.append(",decode:");
        push_decimal(&mut s, self.scheduler_step_decode_us as u128);
        s.append(",emit:");
        push_decimal(&mut s, self.scheduler_step_emit_us as u128);
        s.append(",total:");
        push_decimal(&mut s, self.scheduler_step_total_us as u128);
        s.append(self.cleanup_suffix_text().as_str());
        s
    }

    fn pipeline_suffix_text(&self) -> (s: String)
        ensures
            s@ == pipeline_suffix(*self),
    {
        let mut s: String = String::from_str(" preprocess=depth:");
        push_decimal(&mut s, self.preprocess_queue_depth as u128);
        s.append(",wait_us:");
        push_decimal(&mut s, self.preprocess_wait_us as u128);
        s.append(",tokenize_us:");
        push_decimal(&mut s, self.preprocess_tokenize_us as u128);
        s.append(" pipeline=snapshot_us:");
        push_decimal(&mut s, self.scheduler_pipeline_snapshot_us as u128);
        s.append(",cpu_plan_us:");
        push_decimal(&mut s, self.scheduler_pipeline_cpu_plan_us as u128);
        s.append(",gpu_wait_us:");
        push_decimal(&mut s, self.scheduler_pipeline_gpu_completion_wait_us as u128);
        s.append(",gpu_q:");
        push_decimal(&mut s, self.scheduler_pipeline_gpu_command_queue_depth as u128);
        s.append(",plan_accept:");
        push_decimal(&mut s, self.scheduler_pipeline_cpu_plan_accept_total as u128);
        s.append(",plan_stale:");
        push_decimal(&mut s, self.scheduler_pipeline_cpu_plan_stale_total as u128);
        s.append(" runtime_topology=numa:");
        push_decimal(&mut s, self.runtime_topology.numa_nodes as u128);
        s.append(",gpu:");
        push_decimal(&mut s, self.runtime_topology.gpus as u128);
        s.append(",worker_numa:");
        s.append(signed_text(self.runtime_topology.worker_numa_node).as_str());
        s.append(",worker_cpus:");
        push_decimal(&mut s, self.runtime_topology.worker_cpu_count as u128);
        s.append(",pre_workers:");
        push_decimal(&mut s, self.runtime_topology.preprocess_workers as u128);
        s.append(",detok_workers:");
        push_decimal(&mut s, self.runtime_topology.detokenizer_workers as u128);
        s.append(",h2d_last_us:");
        push_decimal(&mut s, self.runtime_topology.h2d_latency_last_us as u128);
        s.append(",numa_route=local:");
        push_decimal(&mut s, self.runtime_topology.numa_route_local_total as u128);
        s.append(",cross:");
        push_decimal(&mut s, self.runtime_topology.numa_route_cross_total as u128);
        s.append(",unknown:");
        push_decimal(&mut s, self.runtime_topology.numa_route_unknown_total as u128);
        s.append(",migrate:");
        push_decimal(&mut s, self.runtime_topology.numa_migration_total as u128);
        s.append(",rebalance:");
        push_decimal(&mut s, self.runtime_topology.numa_rebalance_total as u128);
        s
    }

    fn draft_blocks_text(&self) -> (s: String)
        ensures
            s@ == draft_blocks(*self),
    {
        let mut s: String = String::from_str(" dflash_blocks=");
        push_decimal(&mut s, self.dflash_blocks_total as u128);
        s.append(" dflash_accept=");
        s.append(self.dflash_acceptance_rate().times(100).to_fixed(1).as_str());
        s.append("% util=");
        s.append(self.dflash_utilization().times(100).to_fixed(1).as_str());
        s.append("%");
        s
    }

    fn metal_suffix_text(&self) -> (s: String)
        ensures
            s@ == metal_suffix(*self),
    {
        let mut s: String = String::from_str(" metal_decode=batch:");
        push_decimal(&mut s, self.metal_decode_batches_total as u128);
        s.append("/");
        push_decimal(&mut s, self.metal_decode_batched_rows_total as u128);
        s.append(",scalar:");
        push_decimal(&mut s, self.metal_decode_scalar_rows_total as u128);
        s.append(",fallback:");
        push_decimal(&mut s, self.metal_decode_batch_fallback_rows_total as u128);
        s.append(",qwen35_packed:");
        push_decimal(&mut s, self.metal_qwen35_packed_decode_batches_total as u128);
        s.append("/");
        push_decimal(&mut s, self.metal_qwen35_packed_decode_rows_total as u128);
        s
    }

    fn plan_suffix_text(&self) -> (s: String)
        ensures
            s@ == plan_suffix(*self),
    {
        let mut s: String = String::from_str(" plan_label=idle:");
        push_decimal(&mut s, self.scheduler_plan_idle_total as u128);
        s.append(",decode:");
        push_decimal(&mut s, self.scheduler_plan_decode_total as u128);
        s.append(",prefill:");
        push_decimal(&mut s, self.scheduler_plan_prefill_total as u128);
        s.append(",split:");
        push_decimal(&mut s, self.scheduler_plan_split_total as u128);
        s.append(",mixed:");
        push_decimal(&mut s, self.scheduler_plan_mixed_total as u128);
        s
    }

    fn prefill_path_suffix_text(&self) -> (s: String)
        ensures
            s@ == prefill_path_suffix(*self),
    {
        let mut s: String = String::from_str(" prefill_path=ok_true:");
        push_decimal(&mut s, self.prefill_path_mixed_ok_true_total as u128);
        s.append(",ok_false:");
        push_decimal(&mut s, self.prefill_path_mixed_ok_false_total as u128);
        s.append(self.reason_suffix_text().as_str());
        s
    }

    fn speculation_suffix_text(&self) -> (s: String)
        ensures
            s@ == speculation_suffix(*self),
    {
        let mut s: String = String::from_str(" spec=draft:");
        push_decimal(&mut s, self.spec_draft_tokens_total as u128);
        s.append(",verified:");
        push_decimal(&mut s, self.spec_verified_tokens_total as u128);
        s.append(",accepted:");
        push_decimal(&mut s, self.spec_accepted_tokens_total as u128);
        s.append(",empty_sparse_views:");
        push_decimal(&mut s, self.spec_sparse_view_empty_total as u128);
        s.append(",accept_rate:");
        s.append(self.spec_acceptance_rate().times(100).to_fixed(1).as_str());
        s.append("%,step_latency_count:");
        push_decimal(&mut s, self.spec_step_latency_count() as u128);
        s
    }

    fn queues_text(&self) -> (s: String)
        ensures
            s@ == queues(*self),
    {
        let mut s: String = String::from_str(" kv_fetch_q=");
        push_decimal(&mut s, self.kv_fetch_queue_depth as u128);
        s.append("/");
        push_decimal(&mut s, self.kv_coordinator_queue_capacity as u128);
        s.append(" kv_fetch_waiters=");
        push_decimal(&mut s, self.kv_fetch_waiters as u128);
        s.append(" kv_store_q=");
        push_decimal(&mut s, self.kv_store_queue_depth as u128);
        s.append("/");
        push_decimal(&mut s, self.kv_coordinator_queue_capacity as u128);
        s.append(" kv_store=sub:");
        push_decimal(&mut s, self.kv_store_submitted_total as u128);
        s.append(",done:");
        push_decimal(&mut s, self.kv_store_completed_total as u128);
        s.append(",fail:");
        push_decimal(&mut s, self.kv_store_failed_total as u128);
        s.append(",rej:");
        push_decimal(&mut s, self.kv_store_rejected_total as u128);
        s.append(" kv_bp=fetch:");
        push_decimal(&mut s, flag_value(self.kv_fetch_backpressure != 0) as u128);
        s.append(",store:");
        push_decimal(&mut s, flag_value(self.kv_store_backpressure != 0) as u128);
        s
    }

    fn skip_suffix_text(&self) -> (s: String)
        ensures
            s@ == skip_suffix(*self),
    {
        let mut s: String = String::from_str(" prefix_skip_rate=");
        s.append(self.prefix_skip_rate().times(100).to_fixed(1).as_str());
        s.append("%");
        s
    }

    fn tiers_text(&self) -> (s: String)
        requires
            self.rates_exist(),
        ensures
            s@ == tiers(*self),
    {
        let mut s: String = String::from_str(" prefix_skip_rate=");
        s.append(self.prefix_skip_rate().times(100).to_fixed(1).as_str());
        s.append("% tier_recall=");
        s.append(self.tier_fetch_recall_rate().times(100).to_fixed(1).as_str());
        s.append("% tier_src=h:");
        push_decimal(&mut s, self.tier_fetch_staged_host_blocks_total as u128);
        s.append("/d:");
        push_decimal(&mut s, self.tier_fetch_staged_disk_blocks_total as u128);
        s.append("/r:");
        push_decimal(&mut s, self.tier_fetch_staged_remote_blocks_total as u128);
        s.append(" tier_promoted=");
        push_decimal(&mut s, self.tier_fetch_promoted_blocks_total as u128);
        s.append(" tier_fallback=");
        push_decimal(&mut s, self.tier_fetch_fallback_total as u128);
        s
    }

    fn cache_suffix_text(&self) -> (s: String)
        ensures
            s@ == cache_suffix(*self),
    {
        let mut s: String = String::from_str(" prefix_request_hit_rate=");
        s.append(self.prefix_request_hit_rate().times(100).to_fixed(1).as_str());
        s.append("% prefix_request_skip_rate=");
        s.append(self.prefix_request_skip_rate().times(100).to_fixed(1).as_str());
        s.append("% session_affinity_hit=");
        push_decimal(&mut s, self.session_affinity_hit_total as u128);
        s.append(" session_affinity_miss=");
        push_decimal(&mut s, self.session_affinity_miss_total as u128);
        s.append(" session_slot_pressure_evictions_hard=");
        push_decimal(&mut s, self.session_slot_pressure_evictions_hard_total as u128);
        s.append(" prefix_aware_admit_deferrals=");
        push_decimal(&mut s, self.prefix_aware_admit_deferrals_total as u128);
        s.append(" matched_prefix_tokens=");
        push_decimal(&mut s, self.matched_prefix_tokens as u128);
        s.append(" resume_prefill_tokens=");
        push_decimal(&mut s, self.resume_prefill_tokens as u128);
        s.append(" prefix_lookup_latency_us=");
        push_decimal(&mut s, self.prefix_lookup_latency_us as u128);
        s.append(" prefix_lookup_reusable_tokens=");
        push_decimal(&mut s, self.prefix_lookup_reusable_tokens as u128);
        s.append(" prefix_lookup_ready_on_gpu=");
        push_decimal(&mut s, flag_value(self.prefix_lookup_ready_on_gpu != 0) as u128);
        s.append(" prefix_lookup_direct_gpu_attach=");
        push_decimal(&mut s, flag_value(self.prefix_lookup_direct_gpu_attach != 0) as u128);
        s.append(" prefix_lookup_staged=");
        push_decimal(&mut s, flag_value(self.prefix_lookup_staged != 0) as u128);
        s.append(" prefix_lookup_prefetch=");
        push_decimal(&mut s, flag_value(self.prefix_lookup_prefetch != 0) as u128);
        s.append(" prefix_lookup_recompute=");
        push_decimal(&mut s, flag_value(self.prefix_lookup_recompute != 0) as u128);
        s
    }

    fn telemetry_suffix_text(&self, t: &EngineTelemetry) -> (s: String)
        requires
            t.describes(*self),
            t.has_percentiles_of(*self),
        ensures
            s@ == telemetry_suffix(*self, t.timestamp_ms),
    {
        let mut s: String = String::from_str(" engine_ttft_us=");
        s.append(optional_micros_text(t.ttft_us).as_str());
        s.append(" engine_itl_p50_us=");
        s.append(optional_micros_text(t.itl_p50_us).as_str());
        s.append(" engine_itl_p99_us=");
        s.append(optional_micros_text(t.itl_p99_us).as_str());
        s.append(" engine_queue_depth=");
        push_decimal(&mut s, t.queue_depth as u128);
        s.append(" engine_active_requests=");
        push_decimal(&mut s, t.active_requests as u128);
        s.append(" engine_batch_occupancy=");
        s.append(t.batch_occupancy.to_fixed(4).as_str());
        s.append(" engine_timestamp_ms=");
        push_decimal(&mut s, t.timestamp_ms as u128);
        s.append(tier_rates(&t.kv_tier_hit_rates).as_str());
        s
    }

    /// Renders the metrics as one human-readable line. Percentiles without
    /// observations show as a dash, or as `na` among the telemetry.
    #[verifier::rlimit(60)]
    #[verifier::spinoff_prover]
    pub fn render_summary(&self, timestamp_ms: u64) -> (s: String)
        requires
            self.wf(),
            self.rates_exist(),
        ensures
            s@ == summary_text(*self, timestamp_ms),
    {
        let telemetry: EngineTelemetry = self.snapshot_engine_telemetry(timestamp_ms);
        let mut s: String = String::from_str("requests=");
        push_decimal(&mut s, self.requests_total as u128);
        s.append(" active=");
        push_decimal(&mut s, self.requests_active as u128);
        s.append(" waiting=");
        push_decimal(&mut s, self.requests_waiting as u128);
        s.append(" scheduled=");
        push_decimal(&mut s, self.scheduler_scheduled_rows as u128);
        s.append(" decode_rows=");
        push_decimal(&mut s, self.scheduler_scheduled_decode_rows as u128);
        s.append(" prefill_rows=");
        push_decimal(&mut s, self.scheduler_scheduled_prefill_rows as u128);
        s.append(" running_batch=");
        push_decimal(&mut s, self.scheduler_running_batch as u128);
        s.append(" prefill_queue=");
        push_decimal(&mut s, self.scheduler_prefill_queue as u128);
        s.append(" batch_width=");
        push_decimal(&mut s, self.scheduler_batch_width as u128);
        s.append(" decode_tokens=");
        push_decimal(&mut s, self.scheduler_decode_tokens as u128);
        s.append(" prefill_tokens=");
        push_decimal(&mut s, self.scheduler_prefill_tokens as u128);
        s.append(" tokens_out=");
        push_decimal(&mut s, self.tokens_generated_total as u128);
        s.append(" step_last=");
        s.append(self.scheduler_step_last_seconds().times(1_000).to_fixed(1).as_str());
        s.append("ms step_p50=");
        s.append(
            optional_millis_text(
                self.histograms.scheduler_step.percentile(Double::ratio(1, 2)),
            ).as_str(),
        );
        s.append(self.phase_suffix_text().as_str());
        s.append(self.plan_suffix_text().as_str());
        s.append(self.prefill_path_suffix_text().as_str());
        s.append(self.speculation_suffix_text().as_str());
        s.append(self.pipeline_suffix_text().as_str());
        s.append(" tier_fetch_wait=");
        s.append(self.tier_fetch_wait_seconds().times(1_000).to_fixed(1).as_str());
        s.append("ms tier_store_wait=");
        s.append(self.tier_store_wait_seconds().times(1_000).to_fixed(1).as_str());
        s.append("ms kv_util=");
        s.append(self.kv_gpu_utilization().times(100).to_fixed(1).as_str());
        s.append("% prefix_hit_rate=");
        s.append(self.prefix_hit_rate().times(100).to_fixed(1).as_str());
        s.append("% active_mem=");
        s.append(Double::ratio(self.memory_active_bytes as u128, 1_048_576).to_fixed(1).as_str());
        s.append("MB peak_mem=");
        s.append(Double::ratio(self.memory_peak_bytes as u128, 1_048_576).to_fixed(1).as_str());
        s.append("MB cache_mem=");
        s.append(Double::ratio(self.memory_cache_bytes as u128, 1_048_576).to_fixed(1).as_str());
        s.append("MB queue_p50=");
        s.append(
            optional_millis_text(
                self.histograms.queue_wait.percentile(Double::ratio(1, 2)),
            ).as_str(),
        );
        s.append(" active_ttft_p50=");
        s.append(
            optional_millis_text(
                self.histograms.active_ttft.percentile(Double::ratio(1, 2)),
            ).as_str(),
        );
        s.append(" ttft_p50=");
        s.append(
            optional_millis_text(self.histograms.ttft.percentile(Double::ratio(1, 2))).as_str(),
        );
        s.append(" ttft_p99=");
        s.append(
            optional_millis_text(self.histograms.ttft.percentile(Double::ratio(99, 100))).as_str(),
        );
        s.append(" service_p50=");
        s.append(
            optional_millis_text(self.histograms.service.percentile(Double::ratio(1, 2))).as_str(),
        );
        s.append(" tpot_p50=");
        s.append(
            optional_millis_text(self.histograms.tpot.percentile(Double::ratio(1, 2))).as_str(),
        );
        s.append(self.metal_suffix_text().as_str());
        s.append(self.draft_suffix_text().as_str());
        s.append(self.tier_suffix_text().as_str());
        s.append(self.cache_suffix_text().as_str());
        s.append(self.coordinator_suffix_text().as_str());
        s.append(self.telemetry_suffix_text(&telemetry).as_str());
        s
    }
}

} // verus!
