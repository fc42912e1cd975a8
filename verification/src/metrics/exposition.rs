//! Metrics in the Prometheus text exposition format.

use vstd::prelude::*;

use crate::double::{fixed_text, ratio, Binary};
use crate::metrics::histogram::Histogram;
use crate::metrics::histogram::{histogram_text, sample_line, sample_text, valid_histogram};
use crate::metrics::histogram::HistogramView;
use crate::metrics::server::ServerMetrics;
use crate::text::{decimal, flag, signed_decimal};
use crate::text::{decimal_text, flag_value, signed_text};

verus! {

/// One sample of a metric family: a label besides the model's, and the value.
pub struct SampleView {
    pub label: Seq<char>,
    pub value: Seq<char>,
}

/// A metric family: name, help text, kind and samples.
pub struct FamilyView {
    pub name: Seq<char>,
    pub help: Seq<char>,
    pub kind: Seq<char>,
    pub samples: Seq<SampleView>,
}

/// A label of a sample.
pub open spec fn label_text(key: Seq<char>, value: Seq<char>) -> Seq<char> {
    key + "=\""@ + value + "\","@
}

/// A family with a single sample.
pub open spec fn family(
    name: Seq<char>,
    help: Seq<char>,
    kind: Seq<char>,
    value: Seq<char>,
) -> FamilyView {
    FamilyView { name, help, kind, samples: seq![SampleView { label: Seq::empty(), value }] }
}

/// A sample that a label tells apart.
pub open spec fn labelled(key: Seq<char>, label: Seq<char>, value: nat) -> SampleView {
    SampleView { label: label_text(key, label), value: decimal(value) }
}

/// The `HELP` and `TYPE` lines of a family.
pub open spec fn family_header(name: Seq<char>, help: Seq<char>, kind: Seq<char>) -> Seq<char> {
    "# HELP "@ + name + " "@ + help + "\n# TYPE "@ + name + " "@ + kind + "\n"@
}

/// The lines of the first `n` samples of a family.
pub open spec fn samples_text(f: FamilyView, labels: Seq<char>, n: nat) -> Seq<char>
    decreases n,
{
    if n == 0 {
        Seq::empty()
    } else {
        samples_text(f, labels, (n - 1) as nat) + sample_line(
            f.name,
            labels + f.samples[n - 1].label,
            f.samples[n - 1].value,
        )
    }
}

/// The lines of a family.
pub open spec fn family_text(f: FamilyView, labels: Seq<char>) -> Seq<char> {
    family_header(f.name, f.help, f.kind) + samples_text(f, labels, f.samples.len())
}

/// The lines of the first `n` families.
pub open spec fn families_text(fs: Seq<FamilyView>, labels: Seq<char>, n: nat) -> Seq<char>
    decreases n,
{
    if n == 0 {
        Seq::empty()
    } else {
        families_text(fs, labels, (n - 1) as nat) + family_text(fs[n - 1], labels)
    }
}

/// The labels that every sample carries: the model, if it has a name.
pub open spec fn model_labels(model_id: Seq<char>) -> Seq<char> {
    if model_id.len() == 0 {
        Seq::empty()
    } else {
        label_text("model"@, model_id)
    }
}

/// Fraction of the GPU blocks in use.
pub open spec fn utilization(m: ServerMetrics) -> Binary {
    ratio((m.kv_gpu_blocks_total - m.kv_gpu_blocks_free) as nat, m.kv_gpu_blocks_total as nat)
}

/// Promoted over staged blocks.
pub open spec fn recall_rate(m: ServerMetrics) -> Binary {
    ratio(
        m.tier_fetch_promoted_blocks_total as nat,
        (m.tier_fetch_staged_host_blocks_total + m.tier_fetch_staged_disk_blocks_total
            + m.tier_fetch_staged_remote_blocks_total) as nat,
    )
}

/// Fraction of generated tokens that came from drafts.
pub open spec fn draft_rate(m: ServerMetrics) -> Binary {
    ratio(
        m.dflash_accepted_tokens_total.saturating_sub(m.dflash_blocks_total) as nat,
        m.dflash_accepted_tokens_total as nat,
    )
}

/// Scheduler CPU candidate-plan validation outcomes.
pub open spec fn cpu_plan_outcomes(m: ServerMetrics) -> FamilyView {
    FamilyView {
        name: "infer_scheduler_pipeline_cpu_plan_total"@,
        help: "Scheduler CPU candidate-plan validation outcomes."@,
        kind: "counter"@,
        samples: seq![
            labelled("outcome"@, "accept"@, m.scheduler_pipeline_cpu_plan_accept_total as nat),
            labelled("outcome"@, "stale"@, m.scheduler_pipeline_cpu_plan_stale_total as nat),
        ],
    }
}

/// Process memory pages by runtime placement locality.
pub open spec fn pages_by_placement(m: ServerMetrics) -> FamilyView {
    FamilyView {
        name: "infer_runtime_numastat_pages"@,
        help: "Process memory pages by runtime placement locality."@,
        kind: "gauge"@,
        samples: seq![
            labelled("placement"@, "local"@, m.runtime_topology.numastat_local_pages as nat),
            labelled("placement"@, "remote"@, m.runtime_topology.numastat_remote_pages as nat),
            labelled("placement"@, "total"@, m.runtime_topology.numastat_total_pages as nat),
        ],
    }
}

/// Host-to-device copy latency.
pub open spec fn copy_latency(m: ServerMetrics) -> FamilyView {
    FamilyView {
        name: "infer_runtime_h2d_latency_microseconds"@,
        help: "Host-to-device copy latency."@,
        kind: "gauge"@,
        samples: seq![
            labelled("stat"@, "last"@, m.runtime_topology.h2d_latency_last_us as nat),
            labelled("stat"@, "max"@, m.runtime_topology.h2d_latency_max_us as nat),
        ],
    }
}

/// NUMA router decisions by locality outcome.
pub open spec fn routes_by_locality(m: ServerMetrics) -> FamilyView {
    FamilyView {
        name: "infer_scheduler_numa_route_total"@,
        help: "NUMA router decisions by locality outcome."@,
        kind: "counter"@,
        samples: seq![
            labelled("outcome"@, "local"@, m.runtime_topology.numa_route_local_total as nat),
            labelled("outcome"@, "cross"@, m.runtime_topology.numa_route_cross_total as nat),
            labelled("outcome"@, "unknown"@, m.runtime_topology.numa_route_unknown_total as nat),
        ],
    }
}

/// Scheduler ticks by selected plan label.
pub open spec fn ticks_by_plan(m: ServerMetrics) -> FamilyView {
    FamilyView {
        name: "infer_scheduler_plan_total"@,
        help: "Scheduler ticks by selected plan label."@,
        kind: "counter"@,
        samples: seq![
            labelled("plan"@, "idle"@, m.scheduler_plan_idle_total as nat),
            labelled("plan"@, "decode"@, m.scheduler_plan_decode_total as nat),
            labelled("plan"@, "prefill"@, m.scheduler_plan_prefill_total as nat),
            labelled("plan"@, "split"@, m.scheduler_plan_split_total as nat),
            labelled("plan"@, "mixed"@, m.scheduler_plan_mixed_total as nat),
        ],
    }
}

/// Mixed decode+prefill path outcomes.
pub open spec fn mixed_outcomes(m: ServerMetrics) -> FamilyView {
    FamilyView {
        name: "infer_prefill_path_mixed_batch_total"@,
        help: "Mixed decode+prefill path outcomes."@,
        kind: "counter"@,
        samples: seq![
            labelled("outcome"@, "ok_true"@, m.prefill_path_mixed_ok_true_total as nat),
            labelled("outcome"@, "ok_false"@, m.prefill_path_mixed_ok_false_total as nat),
        ],
    }
}

/// Mixed decode+prefill fallback reasons.
pub open spec fn mixed_fallbacks(m: ServerMetrics) -> FamilyView {
    FamilyView {
        name: "infer_prefill_path_mixed_batch_fallback_total"@,
        help: "Mixed decode+prefill fallback reasons."@,
        kind: "counter"@,
        samples: seq![
            labelled(
                "reason"@,
                "decode_slot_count_mismatch"@,
                m.prefill_path_mixed_decode_slot_count_mismatch_total as nat,
            ),
            labelled(
                "reason"@,
                "duplicate_prefill_slot"@,
                m.prefill_path_mixed_duplicate_prefill_slot_total as nat,
            ),
            labelled(
                "reason"@,
                "empty_decode_batch"@,
                m.prefill_path_mixed_empty_decode_batch_total as nat,
            ),
            labelled(
                "reason"@,
                "empty_prefill_batch"@,
                m.prefill_path_mixed_empty_prefill_batch_total as nat,
            ),
            labelled(
                "reason"@,
                "empty_prefill_tokens"@,
                m.prefill_path_mixed_empty_prefill_tokens_total as nat,
            ),
            labelled(
                "reason"@,
                "inactive_paged_pool"@,
                m.prefill_path_mixed_inactive_paged_pool_total as nat,
            ),
            labelled("reason"@, "lora_enabled"@, m.prefill_path_mixed_lora_enabled_total as nat),
            labelled(
                "reason"@,
                "prefill_seq_len_mismatch"@,
                m.prefill_path_mixed_prefill_seq_len_mismatch_total as nat,
            ),
            labelled(
                "reason"@,
                "prefill_slot_in_decode_batch"@,
                m.prefill_path_mixed_prefill_slot_in_decode_batch_total as nat,
            ),
            labelled(
                "reason"@,
                "prefill_start_position_count_mismatch"@,
                m.prefill_path_mixed_prefill_start_position_count_mismatch_total as nat,
            ),
            labelled(
                "reason"@,
                "scheduler_pre_dispatch_fallback"@,
                m.prefill_path_mixed_scheduler_pre_dispatch_fallback_total as nat,
            ),
            labelled(
                "reason"@,
                "unsupported_kv_format"@,
                m.prefill_path_mixed_unsupported_kv_format_total as nat,
            ),
            labelled(
                "reason"@,
                "unsupported_model"@,
                m.prefill_path_mixed_unsupported_model_total as nat,
            ),
        ],
    }
}

/// Requests, tokens and prefix reuse.
#[verifier::opaque]
pub open spec fn request_families(m: ServerMetrics) -> Seq<FamilyView> {
    seq![
        family(
            "infer_requests_total"@,
            "Total completed inference requests."@,
            "counter"@,
            decimal(m.requests_total as nat),
        ),
        family(
            "infer_tokens_generated_total"@,
            "Total output tokens generated."@,
            "counter"@,
            decimal(m.tokens_generated_total as nat),
        ),
        family(
            "infer_tokens_prompt_total"@,
            "Total prompt tokens processed."@,
            "counter"@,
            decimal(m.tokens_prompt_total as nat),
        ),
        family(
            "infer_requests_failed_total"@,
            "Total failed inference requests."@,
            "counter"@,
            decimal(m.requests_failed_total as nat),
        ),
        family(
            "infer_prefix_lookups_total"@,
            "Total prefix-cache lookups."@,
            "counter"@,
            decimal(m.prefix_lookups_total as nat),
        ),
        family(
            "infer_prefix_hits_total"@,
            "Total reusable prefix-cache hits."@,
            "counter"@,
            decimal(m.prefix_hits_total as nat),
        ),
        family(
            "infer_prefix_hit_rate"@,
            "Reusable prefix-cache hit rate [0,1]."@,
            "gauge"@,
            fixed_text(ratio(m.prefix_hits_total as nat, m.prefix_lookups_total as nat), 4),
        ),
        family(
            "infer_prefix_reused_tokens_total"@,
            "Prefix tokens skipped by reuse."@,
            "counter"@,
            decimal(m.prefix_reused_tokens_total as nat),
        ),
        family(
            "infer_prefix_lookup_prompt_tokens_total"@,
            "Prompt tokens seen by prefix lookup."@,
            "counter"@,
            decimal(m.prefix_lookup_prompt_tokens_total as nat),
        ),
        family(
            "infer_prefix_skip_rate"@,
            "Fraction of prompt tokens skipped by prefix reuse [0,1]."@,
            "gauge"@,
            fixed_text(
                ratio(
                    m.prefix_reused_tokens_total as nat,
                    m.prefix_lookup_prompt_tokens_total as nat,
                ),
                4,
            ),
        ),
        family(
            "infer_prefix_request_hit_rate"@,
            "Prefix-cache hit rate for the most recent lookup [0,1]."@,
            "gauge"@,
            fixed_text(ratio(m.prefix_request_hit_ppm as nat, 1_000_000), 4),
        ),
        family(
            "infer_prefix_request_skip_rate"@,
            "Prefix-token skip rate for the most recent lookup [0,1]."@,
            "gauge"@,
            fixed_text(ratio(m.prefix_request_skip_ppm as nat, 1_000_000), 4),
        ),
        family(
            "infer_session_affinity_hit_total"@,
            "Session-tagged requests that reused a prefix."@,
            "counter"@,
            decimal(m.session_affinity_hit_total as nat),
        ),
        family(
            "infer_session_affinity_miss_total"@,
            "Session-tagged requests without prefix reuse."@,
            "counter"@,
            decimal(m.session_affinity_miss_total as nat),
        ),
        family(
            "infer_session_slot_pressure_evictions_hard_total"@,
            "Inactive session slots evicted under hard pressure."@,
            "counter"@,
            decimal(m.session_slot_pressure_evictions_hard_total as nat),
        ),
        family(
            "infer_prefix_aware_admit_deferrals_total"@,
            "Cold admission candidates deferred by PrefixAware soft-cap."@,
            "counter"@,
            decimal(m.prefix_aware_admit_deferrals_total as nat),
        ),
        family(
            "infer_matched_prefix_tokens"@,
            "Matched prefix tokens for the most recent lookup."@,
            "gauge"@,
            decimal(m.matched_prefix_tokens as nat),
        ),
        family(
            "infer_resume_prefill_tokens"@,
            "Effective prefill tokens for the most recent lookup."@,
            "gauge"@,
            decimal(m.resume_prefill_tokens as nat),
        ),
        family(
            "infer_prefix_lookup_latency_microseconds"@,
            "Latency of the most recent scheduler prefix lookup."@,
            "gauge"@,
            decimal(m.prefix_lookup_latency_us as nat),
        ),
        family(
            "infer_prefix_lookup_reusable_tokens"@,
            "Reusable tokens selected by the most recent scheduler prefix lookup."@,
            "gauge"@,
            decimal(m.prefix_lookup_reusable_tokens as nat),
        ),
    ]
}

/// The most recent scheduler prefix lookup.
#[verifier::opaque]
pub open spec fn lookup_families(m: ServerMetrics) -> Seq<FamilyView> {
    seq![
        family(
            "infer_prefix_lookup_ready_on_gpu"@,
            "Whether the most recent scheduler prefix lookup was fully ready on GPU."@,
            "gauge"@,
            decimal(flag(m.prefix_lookup_ready_on_gpu != 0)),
        ),
        family(
            "infer_prefix_lookup_direct_gpu_attach"@,
            "Whether the most recent scheduler prefix lookup selected direct GPU attachment."@,
            "gauge"@,
            decimal(flag(m.prefix_lookup_direct_gpu_attach != 0)),
        ),
        family(
            "infer_prefix_lookup_staged"@,
            "Whether the most recent scheduler prefix lookup selected staged readmission."@,
            "gauge"@,
            decimal(flag(m.prefix_lookup_staged != 0)),
        ),
        family(
            "infer_prefix_lookup_prefetch"@,
            "Whether the most recent staged prefix lookup queued prefetch."@,
            "gauge"@,
            decimal(flag(m.prefix_lookup_prefetch != 0)),
        ),
        family(
            "infer_prefix_lookup_recompute"@,
            "Whether the most recent scheduler prefix lookup advised recompute."@,
            "gauge"@,
            decimal(flag(m.prefix_lookup_recompute != 0)),
        ),
    ]
}

/// Staged fetches from slower tiers.
#[verifier::opaque]
pub open spec fn tier_families(m: ServerMetrics) -> Seq<FamilyView> {
    seq![
        family(
            "infer_tier_fetch_staged_host_blocks_total"@,
            "Request-weighted staged blocks found in T1."@,
            "counter"@,
            decimal(m.tier_fetch_staged_host_blocks_total as nat),
        ),
        family(
            "infer_tier_fetch_staged_disk_blocks_total"@,
            "Request-weighted staged blocks found in T2."@,
            "counter"@,
            decimal(m.tier_fetch_staged_disk_blocks_total as nat),
        ),
        family(
            "infer_tier_fetch_staged_remote_blocks_total"@,
            "Request-weighted staged blocks found in T3."@,
            "counter"@,
            decimal(m.tier_fetch_staged_remote_blocks_total as nat),
        ),
        family(
            "infer_tier_fetch_promoted_blocks_total"@,
            "Staged blocks promoted back into T0."@,
            "counter"@,
            decimal(m.tier_fetch_promoted_blocks_total as nat),
        ),
        family(
            "infer_tier_fetch_fallback_total"@,
            "Staged-prefix fallbacks back to cold prefill."@,
            "counter"@,
            decimal(m.tier_fetch_fallback_total as nat),
        ),
        family(
            "infer_tier_fetch_recall_rate"@,
            "Promoted staged blocks divided by staged blocks [0,1]."@,
            "gauge"@,
            fixed_text(recall_rate(m), 4),
        ),
    ]
}

/// Speculative blocks and Metal decode paths.
#[verifier::opaque]
pub open spec fn decode_families(m: ServerMetrics) -> Seq<FamilyView> {
    seq![
        family(
            "infer_dflash_blocks_total"@,
            "Total DFlash speculative blocks executed."@,
            "counter"@,
            decimal(m.dflash_blocks_total as nat),
        ),
        family(
            "infer_dflash_accepted_tokens_total"@,
            "Total tokens accepted from DFlash speculative blocks."@,
            "counter"@,
            decimal(m.dflash_accepted_tokens_total as nat),
        ),
        family(
            "infer_dflash_acceptance_rate"@,
            "DFlash acceptance rate: fraction of generated tokens from draft [0,1]."@,
            "gauge"@,
            fixed_text(draft_rate(m), 4),
        ),
        family(
            "infer_dflash_utilization"@,
            "DFlash speculative capacity utilization [0,1]."@,
            "gauge"@,
            fixed_text(
                ratio(m.dflash_accepted_tokens_total as nat, m.dflash_draft_tokens_total as nat),
                4,
            ),
        ),
        family(
            "infer_metal_decode_batches_total"@,
            "Metal decode batches executed on a batched GPU path."@,
            "counter"@,
            decimal(m.metal_decode_batches_total as nat),
        ),
        family(
            "infer_metal_decode_batched_rows_total"@,
            "Metal decode rows executed on a batched GPU path."@,
            "counter"@,
            decimal(m.metal_decode_batched_rows_total as nat),
        ),
        family(
            "infer_metal_decode_scalar_rows_total"@,
            "Metal decode rows executed by the scalar per-request path."@,
            "counter"@,
            decimal(m.metal_decode_scalar_rows_total as nat),
        ),
        family(
            "infer_metal_decode_batch_fallback_rows_total"@,
            "Metal decode rows scheduled together but forced to scalar fallback."@,
            "counter"@,
            decimal(m.metal_decode_batch_fallback_rows_total as nat),
        ),
        family(
            "infer_metal_qwen35_packed_decode_batches_total"@,
            "Qwen3.5 packed decode batches executed."@,
            "counter"@,
            decimal(m.metal_qwen35_packed_decode_batches_total as nat),
        ),
        family(
            "infer_metal_qwen35_packed_decode_rows_total"@,
            "Qwen3.5 packed decode rows executed."@,
            "counter"@,
            decimal(m.metal_qwen35_packed_decode_rows_total as nat),
        ),
    ]
}

/// Queue occupancy and the most recent scheduler tick.
#[verifier::opaque]
pub open spec fn scheduler_families(m: ServerMetrics) -> Seq<FamilyView> {
    seq![
        family(
            "infer_requests_active"@,
            "Currently running requests."@,
            "gauge"@,
            decimal(m.requests_active as nat),
        ),
        family(
            "infer_requests_waiting"@,
            "Requests waiting in queue."@,
            "gauge"@,
            decimal(m.requests_waiting as nat),
        ),
        family(
            "infer_scheduler_running_batch"@,
            "Requests currently held in the running decode batch."@,
            "gauge"@,
            decimal(m.scheduler_running_batch as nat),
        ),
        family(
            "infer_scheduler_prefill_queue"@,
            "Requests currently queued for prefill continuation."@,
            "gauge"@,
            decimal(m.scheduler_prefill_queue as nat),
        ),
        family(
            "infer_scheduler_scheduled_rows"@,
            "Rows scheduled in the most recent scheduler tick."@,
            "gauge"@,
            decimal(m.scheduler_scheduled_rows as nat),
        ),
        family(
            "infer_scheduler_scheduled_decode_rows"@,
            "Decode rows scheduled in the most recent scheduler tick."@,
            "gauge"@,
            decimal(m.scheduler_scheduled_decode_rows as nat),
        ),
        family(
            "infer_scheduler_scheduled_prefill_rows"@,
            "Prefill rows scheduled in the most recent scheduler tick."@,
            "gauge"@,
            decimal(m.scheduler_scheduled_prefill_rows as nat),
        ),
        family(
            "infer_scheduler_decode_tokens"@,
            "Decode tokens advanced in the most recent scheduler tick."@,
            "gauge"@,
            decimal(m.scheduler_decode_tokens as nat),
        ),
        family(
            "infer_scheduler_prefill_tokens"@,
            "Prefill tokens advanced in the most recent scheduler tick."@,
            "gauge"@,
            decimal(m.scheduler_prefill_tokens as nat),
        ),
        family(
            "infer_scheduler_batch_width"@,
            "Total GPU batch width in the most recent scheduler tick."@,
            "gauge"@,
            decimal(m.scheduler_batch_width as nat),
        ),
        family(
            "infer_scheduler_step_last_seconds"@,
            "Most recent end-to-end scheduler tick latency."@,
            "gauge"@,
            fixed_text(ratio(m.scheduler_step_last_us as nat, 1_000_000), 6),
        ),
    ]
}

/// Averaged phase durations of a scheduler tick.
#[verifier::opaque]
pub open spec fn phase_families(m: ServerMetrics) -> Seq<FamilyView> {
    seq![
        family(
            "infer_scheduler_step_phase_admission_microseconds"@,
            "EMA scheduler tick admission phase duration."@,
            "gauge"@,
            decimal(m.scheduler_step_admission_us as nat),
        ),
        family(
            "infer_scheduler_step_phase_prefill_microseconds"@,
            "EMA scheduler tick prefill phase duration."@,
            "gauge"@,
            decimal(m.scheduler_step_prefill_us as nat),
        ),
        family(
            "infer_scheduler_step_phase_decode_microseconds"@,
            "EMA scheduler tick decode phase duration."@,
            "gauge"@,
            decimal(m.scheduler_step_decode_us as nat),
        ),
        family(
            "infer_scheduler_step_phase_emit_microseconds"@,
            "EMA scheduler tick emit phase duration."@,
            "gauge"@,
            decimal(m.scheduler_step_emit_us as nat),
        ),
        family(
            "infer_scheduler_step_phase_total_microseconds"@,
            "EMA scheduler tick total duration."@,
            "gauge"@,
            decimal(m.scheduler_step_total_us as nat),
        ),
        family(
            "infer_scheduler_step_cleanup_microseconds"@,
            "EMA scheduler cleanup duration after GPU step dispatch/readback."@,
            "gauge"@,
            decimal(m.scheduler_step_cleanup_us as nat),
        ),
        family(
            "infer_scheduler_loop_total_microseconds"@,
            "EMA full scheduler loop duration including cleanup."@,
            "gauge"@,
            decimal(m.scheduler_loop_total_us as nat),
        ),
    ]
}

/// Preprocessing and the scheduler pipeline.
#[verifier::opaque]
pub open spec fn pipeline_families(m: ServerMetrics) -> Seq<FamilyView> {
    seq![
        family(
            "infer_preprocess_queue_depth"@,
            "HTTP preprocess requests currently holding a bounded preprocess permit."@,
            "gauge"@,
            decimal(m.preprocess_queue_depth as nat),
        ),
        family(
            "infer_preprocess_wait_microseconds"@,
            "Most recent HTTP preprocess permit wait duration."@,
            "gauge"@,
            decimal(m.preprocess_wait_us as nat),
        ),
        family(
            "infer_preprocess_tokenize_microseconds"@,
            "Most recent HTTP prompt tokenization duration."@,
            "gauge"@,
            decimal(m.preprocess_tokenize_us as nat),
        ),
        family(
            "infer_scheduler_pipeline_snapshot_microseconds"@,
            "Most recent scheduler snapshot construction duration."@,
            "gauge"@,
            decimal(m.scheduler_pipeline_snapshot_us as nat),
        ),
        family(
            "infer_scheduler_pipeline_cpu_plan_microseconds"@,
            "Most recent scheduler CPU candidate-plan duration."@,
            "gauge"@,
            decimal(m.scheduler_pipeline_cpu_plan_us as nat),
        ),
        family(
            "infer_scheduler_pipeline_gpu_completion_wait_microseconds"@,
            "Most recent scheduler wait/readback duration for prior GPU completion."@,
            "gauge"@,
            decimal(m.scheduler_pipeline_gpu_completion_wait_us as nat),
        ),
        family(
            "infer_scheduler_pipeline_gpu_command_queue_depth"@,
            "Scheduler-visible GPU command queue depth."@,
            "gauge"@,
            decimal(m.scheduler_pipeline_gpu_command_queue_depth as nat),
        ),
        cpu_plan_outcomes(m),
    ]
}

/// Topology and placement of the runtime workers.
#[verifier::opaque]
pub open spec fn placement_families(m: ServerMetrics) -> Seq<FamilyView> {
    seq![
        family(
            "infer_runtime_topology_numa_nodes"@,
            "NUMA nodes discovered at runtime startup."@,
            "gauge"@,
            decimal(m.runtime_topology.numa_nodes as nat),
        ),
        family(
            "infer_runtime_topology_gpus"@,
            "GPU devices discovered at runtime startup."@,
            "gauge"@,
            decimal(m.runtime_topology.gpus as nat),
        ),
        family(
            "infer_runtime_topology_nics"@,
            "NIC devices discovered at runtime startup."@,
            "gauge"@,
            decimal(m.runtime_topology.nics as nat),
        ),
        family(
            "infer_runtime_worker_gpu_ordinal"@,
            "GPU ordinal selected for this runtime worker."@,
            "gauge"@,
            decimal(m.runtime_topology.worker_gpu_ordinal as nat),
        ),
        family(
            "infer_runtime_worker_cpu_count"@,
            "CPU count in this runtime worker affinity set."@,
            "gauge"@,
            decimal(m.runtime_topology.worker_cpu_count as nat),
        ),
        family(
            "infer_runtime_worker_nic_count"@,
            "NIC count selected as nearest to this runtime worker GPU."@,
            "gauge"@,
            decimal(m.runtime_topology.worker_nic_count as nat),
        ),
        family(
            "infer_runtime_worker_affinity_applied"@,
            "Whether CPU affinity was applied for the runtime worker."@,
            "gauge"@,
            decimal(flag(m.runtime_topology.affinity_applied)),
        ),
        family(
            "infer_runtime_worker_affinity_threads"@,
            "Threads successfully updated by runtime worker affinity."@,
            "gauge"@,
            decimal(m.runtime_topology.affinity_threads as nat),
        ),
        family(
            "infer_runtime_worker_affinity_failed_threads"@,
            "Threads that failed runtime worker affinity update."@,
            "gauge"@,
            decimal(m.runtime_topology.affinity_failed_threads as nat),
        ),
        family(
            "infer_runtime_preprocess_numa_groups"@,
            "NUMA groups backing the HTTP tokenization pool."@,
            "gauge"@,
            decimal(m.runtime_topology.preprocess_groups as nat),
        ),
        family(
            "infer_runtime_preprocess_workers"@,
            "Worker threads backing the HTTP tokenization pool."@,
            "gauge"@,
            decimal(m.runtime_topology.preprocess_workers as nat),
        ),
        family(
            "infer_runtime_detokenizer_numa_groups"@,
            "NUMA groups backing scheduler detokenization workers."@,
            "gauge"@,
            decimal(m.runtime_topology.detokenizer_groups as nat),
        ),
        family(
            "infer_runtime_detokenizer_workers"@,
            "Worker threads backing scheduler detokenization."@,
            "gauge"@,
            decimal(m.runtime_topology.detokenizer_workers as nat),
        ),
        family(
            "infer_runtime_h2d_latency_count"@,
            "Observed host-to-device latency samples."@,
            "gauge"@,
            decimal(m.runtime_topology.h2d_latency_count as nat),
        ),
        family(
            "infer_scheduler_numa_route_cost"@,
            "NUMA routing cost selected for the most recent request."@,
            "gauge"@,
            decimal(m.runtime_topology.numa_route_cost_last as nat),
        ),
        family(
            "infer_runtime_worker_numa_node"@,
            "NUMA node selected for this runtime worker (-1 unknown)."@,
            "gauge"@,
            signed_decimal(m.runtime_topology.worker_numa_node as int),
        ),
    ]
}

/// Locality, plans and the outcomes of the mixed path.
#[verifier::opaque]
pub open spec fn outcome_families(m: ServerMetrics) -> Seq<FamilyView> {
    seq![
        pages_by_placement(m),
        copy_latency(m),
        routes_by_locality(m),
        family(
            "infer_scheduler_numa_migration_total"@,
            "Requests whose sticky NUMA route migrated for rebalancing."@,
            "counter"@,
            decimal(m.runtime_topology.numa_migration_total as nat),
        ),
        family(
            "infer_scheduler_numa_rebalance_total"@,
            "NUMA router rebalance decisions."@,
            "counter"@,
            decimal(m.runtime_topology.numa_rebalance_total as nat),
        ),
        ticks_by_plan(m),
        mixed_outcomes(m),
        mixed_fallbacks(m),
    ]
}

/// Speculative decoding.
#[verifier::opaque]
pub open spec fn speculation_families(m: ServerMetrics) -> Seq<FamilyView> {
    seq![
        family(
            "infer_spec_draft_tokens_total"@,
            "Draft tokens proposed by Phase 2 speculative decode."@,
            "counter"@,
            decimal(m.spec_draft_tokens_total as nat),
        ),
        family(
            "infer_spec_verified_tokens_total"@,
            "Draft tokens checked by the target verifier."@,
            "counter"@,
            decimal(m.spec_verified_tokens_total as nat),
        ),
        family(
            "infer_spec_accepted_tokens_total"@,
            "Draft tokens accepted by the verifier."@,
            "counter"@,
            decimal(m.spec_accepted_tokens_total as nat),
        ),
        family(
            "infer_spec_sparse_view_empty_total"@,
            "Sparse self-spec decode rows that could not build a sparse KV view."@,
            "counter"@,
            decimal(m.spec_sparse_view_empty_total as nat),
        ),
        family(
            "infer_spec_acceptance_rate"@,
            "Aggregate speculative accepted / verified token ratio [0,1]."@,
            "gauge"@,
            fixed_text(ratio(m.spec_acceptance_rate_ppm as nat, 1_000_000), 6),
        ),
    ]
}

/// KV coordinator, blocks and allocator memory.
#[verifier::opaque]
pub open spec fn kv_families(m: ServerMetrics) -> Seq<FamilyView> {
    seq![
        family(
            "infer_kv_coordinator_queue_capacity"@,
            "Coordinator queue capacity shared by staged KV fetch/store work."@,
            "gauge"@,
            decimal(m.kv_coordinator_queue_capacity as nat),
        ),
        family(
            "infer_kv_fetch_queue_depth"@,
            "In-flight staged KV fetch tickets."@,
            "gauge"@,
            decimal(m.kv_fetch_queue_depth as nat),
        ),
        family(
            "infer_kv_fetch_waiters"@,
            "Requests currently waiting on staged KV fetch completion."@,
            "gauge"@,
            decimal(m.kv_fetch_waiters as nat),
        ),
        family(
            "infer_kv_store_queue_depth"@,
            "In-flight staged KV spill/store tickets."@,
            "gauge"@,
            decimal(m.kv_store_queue_depth as nat),
        ),
        family(
            "infer_kv_store_submitted_total"@,
            "Submitted staged KV spill/store tickets."@,
            "counter"@,
            decimal(m.kv_store_submitted_total as nat),
        ),
        family(
            "infer_kv_store_completed_total"@,
            "Completed staged KV spill/store tickets."@,
            "counter"@,
            decimal(m.kv_store_completed_total as nat),
        ),
        family(
            "infer_kv_store_failed_total"@,
            "Failed staged KV spill/store tickets."@,
            "counter"@,
            decimal(m.kv_store_failed_total as nat),
        ),
        family(
            "infer_kv_store_rejected_total"@,
            "Rejected staged KV spill/store tickets."@,
            "counter"@,
            decimal(m.kv_store_rejected_total as nat),
        ),
        family(
            "infer_kv_fetch_backpressure"@,
            "Staged KV fetch queue backpressure flag (0 or 1)."@,
            "gauge"@,
            decimal(m.kv_fetch_backpressure as nat),
        ),
        family(
            "infer_kv_store_backpressure"@,
            "Staged KV store queue backpressure flag (0 or 1)."@,
            "gauge"@,
            decimal(m.kv_store_backpressure as nat),
        ),
        family(
            "infer_tier_fetch_wait_seconds"@,
            "Oldest outstanding staged KV fetch wait."@,
            "gauge"@,
            fixed_text(ratio(m.tier_fetch_wait_us as nat, 1_000_000), 6),
        ),
        family(
            "infer_tier_store_wait_seconds"@,
            "Oldest outstanding staged KV store wait."@,
            "gauge"@,
            fixed_text(ratio(m.tier_store_wait_us as nat, 1_000_000), 6),
        ),
        family(
            "infer_kv_gpu_utilization"@,
            "GPU KV cache utilization [0,1]."@,
            "gauge"@,
            fixed_text(utilization(m), 4),
        ),
        family(
            "infer_kv_gpu_blocks_free"@,
            "Free GPU KV cache blocks."@,
            "gauge"@,
            decimal(m.kv_gpu_blocks_free as nat),
        ),
        family(
            "infer_kv_gpu_blocks_total"@,
            "Total GPU KV cache blocks."@,
            "gauge"@,
            decimal(m.kv_gpu_blocks_total as nat),
        ),
        family(
            "infer_memory_active_bytes"@,
            "Active MLX allocator memory in bytes."@,
            "gauge"@,
            decimal(m.memory_active_bytes as nat),
        ),
        family(
            "infer_memory_peak_bytes"@,
            "Peak MLX allocator memory in bytes."@,
            "gauge"@,
            decimal(m.memory_peak_bytes as nat),
        ),
        family(
            "infer_memory_cache_bytes"@,
            "Cached MLX allocator memory in bytes."@,
            "gauge"@,
            decimal(m.memory_cache_bytes as nat),
        ),
    ]
}

/// All families but the histograms. The phase durations are left out before
/// their first sample.
pub open spec fn all_families(m: ServerMetrics) -> Seq<FamilyView> {
    let phases = if m.scheduler_step_phase_samples == 0 {
        Seq::<FamilyView>::empty()
    } else {
        phase_families(m)
    };
    request_families(m) + lookup_families(m) + tier_families(m) + decode_families(m)
        + scheduler_families(m) + phases + pipeline_families(m) + placement_families(m)
        + outcome_families(m) + speculation_families(m) + kv_families(m)
}

/// The lines of a histogram family.
pub open spec fn histogram_family(
    h: HistogramView,
    name: Seq<char>,
    help: Seq<char>,
    labels: Seq<char>,
) -> Seq<char> {
    family_header(name, help, "histogram"@) + histogram_text(h, name, labels)
}

/// All metrics in the Prometheus text exposition format.
pub open spec fn prometheus_text(m: ServerMetrics) -> Seq<char> {
    let labels = model_labels(m.model_id@);
    let fs = all_families(m);
    families_text(fs, labels, fs.len())
        + histogram_family(
            m.histograms.queue_wait@,
            "infer_queue_wait_seconds"@,
            "Submit-to-admit queue latency."@,
            labels,
        )
        + histogram_family(
            m.histograms.active_ttft@,
            "infer_active_ttft_seconds"@,
            "Admit-to-first-token latency."@,
            labels,
        )
        + histogram_family(
            m.histograms.ttft@,
            "infer_ttft_seconds"@,
            "Time to first token latency."@,
            labels,
        )
        + histogram_family(
            m.histograms.tpot@,
            "infer_tpot_seconds"@,
            "Time per output token latency."@,
            labels,
        )
        + histogram_family(
            m.histograms.service@,
            "infer_service_seconds"@,
            "First-token-to-finish service latency."@,
            labels,
        )
        + histogram_family(
            m.histograms.e2e@,
            "infer_e2e_seconds"@,
            "End-to-end request latency."@,
            labels,
        )
        + histogram_family(
            m.histograms.scheduler_step@,
            "infer_scheduler_step_seconds"@,
            "End-to-end scheduler tick latency."@,
            labels,
        )
        + histogram_family(
            m.histograms.spec_step_latency_us@,
            "infer_spec_step_latency_us"@,
            "Phase 2 speculative decode step latency."@,
            labels,
        )
}

struct Sample {
    label: String,
    value: String,
}

impl View for Sample {
    type V = SampleView;

    closed spec fn view(&self) -> SampleView {
        SampleView { label: self.label@, value: self.value@ }
    }
}

struct Family {
    name: &'static str,
    help: &'static str,
    kind: &'static str,
    samples: Vec<Sample>,
}

spec fn sample_views(samples: Seq<Sample>) -> Seq<SampleView> {
    samples.map_values(|s: Sample| s@)
}

impl View for Family {
    type V = FamilyView;

    closed spec fn view(&self) -> FamilyView {
        FamilyView {
            name: self.name@,
            help: self.help@,
            kind: self.kind@,
            samples: sample_views(self.samples@),
        }
    }
}

spec fn family_views(families: Seq<Family>) -> Seq<FamilyView> {
    families.map_values(|f: Family| f@)
}

fn add_family(list: &mut Vec<Family>, f: Family)
    ensures
        family_views(final(list)@) == family_views(old(list)@).push(f@),
{
    list.push(f);
    assert(family_views(list@) =~= family_views(old(list)@).push(f@));
}

fn add_sample(list: &mut Vec<Sample>, key: &str, label: &str, value: u64)
    ensures
        sample_views(final(list)@) == sample_views(old(list)@).push(
            labelled(key@, label@, value as nat),
        ),
{
    let mut text: String = String::from_str(key);
    text.append("=\"");
    text.append(label);
    text.append("\",");
    let s = Sample { label: text, value: decimal_text(value) };
    list.push(s);
    assert(sample_views(list@) =~= sample_views(old(list)@).push(s@));
}

fn no_families() -> (list: Vec<Family>)
    ensures
        family_views(list@) == Seq::<FamilyView>::empty(),
{
    let list: Vec<Family> = Vec::new();
    assert(family_views(list@) =~= Seq::<FamilyView>::empty());
    list
}

fn no_samples() -> (list: Vec<Sample>)
    ensures
        sample_views(list@) == Seq::<SampleView>::empty(),
{
    let list: Vec<Sample> = Vec::new();
    assert(sample_views(list@) =~= Seq::<SampleView>::empty());
    list
}

fn text_family(
    name: &'static str,
    help: &'static str,
    kind: &'static str,
    value: String,
) -> (f: Family)
    ensures
        f@ == family(name@, help@, kind@, value@),
{
    let mut samples: Vec<Sample> = Vec::new();
    let s = Sample { label: String::new(), value };
    samples.push(s);
    let f = Family { name, help, kind, samples };
    assert(f@.samples =~= family(name@, help@, kind@, value@).samples);
    f
}

fn labelled_family(
    name: &'static str,
    help: &'static str,
    kind: &'static str,
    samples: Vec<Sample>,
) -> (f: Family)
    ensures
        f@ == (FamilyView {
            name: name@,
            help: help@,
            kind: kind@,
            samples: sample_views(samples@),
        }),
{
    Family { name, help, kind, samples }
}

fn number_family(
    name: &'static str,
    help: &'static str,
    kind: &'static str,
    value: u64,
) -> (f: Family)
    ensures
        f@ == family(name@, help@, kind@, decimal(value as nat)),
{
    text_family(name, help, kind, decimal_text(value))
}

fn header_text(name: &str, help: &str, kind: &str) -> (s: String)
    ensures
        s@ == family_header(name@, help@, kind@),
{
    let mut s: String = String::from_str("# HELP ");
    s.append(name);
    s.append(" ");
    s.append(help);
    s.append("\n# TYPE ");
    s.append(name);
    s.append(" ");
    s.append(kind);
    s.append("\n");
    s
}

impl Family {
    fn render(&self, labels: &str) -> (out: String)
        ensures
            out@ == family_text(self@, labels@),
    {
        let mut lines: String = String::new();
        let mut i: usize = 0;
        while i < self.samples.len()
            invariant
                i <= self.samples@.len(),
                lines@ == samples_text(self@, labels@, i as nat),
            decreases self.samples@.len() - i,
        {
            let mut all_labels: String = String::from_str(labels);
            all_labels.append(self.samples[i].label.as_str());
            let line: String = sample_text(
                self.name,
                all_labels.as_str(),
                self.samples[i].value.as_str(),
            );
            proof {
                assert(self@.samples[i as int] == self.samples@[i as int]@);
            }
            lines.append(line.as_str());
            i = i + 1;
        }
        let mut out: String = header_text(self.name, self.help, self.kind);
        out.append(lines.as_str());
        out
    }
}

fn render_families(list: &Vec<Family>, labels: &str) -> (out: String)
    ensures
        out@ == families_text(family_views(list@), labels@, list@.len()),
        family_views(list@).len() == list@.len(),
{
    let ghost fs = family_views(list@);
    let mut out: String = String::new();
    let mut i: usize = 0;
    while i < list.len()
        invariant
            i <= list@.len(),
            fs == family_views(list@),
            out@ == families_text(fs, labels@, i as nat),
        decreases list@.len() - i,
    {
        proof {
            assert(fs[i as int] == list@[i as int]@);
        }
        out.append(list[i].render(labels).as_str());
        i = i + 1;
    }
    out
}

fn append_families(list: &mut Vec<Family>, more: Vec<Family>)
    ensures
        family_views(final(list)@) == family_views(old(list)@) + family_views(more@),
{
    let mut more: Vec<Family> = more;
    let ghost added = more@;
    list.append(&mut more);
    assert(family_views(list@) =~= family_views(old(list)@) + family_views(added));
}

fn histogram_family_text(
    h: &Histogram,
    name: &str,
    help: &str,
    labels: &str,
) -> (out: String)
    requires
        valid_histogram(h@),
    ensures
        out@ == histogram_family(h@, name@, help@, labels@),
{
    let mut out: String = header_text(name, help, "histogram");
    out.append(h.render(name, labels).as_str());
    out
}

impl ServerMetrics {
    fn cpu_plan_outcomes_family(&self) -> (f: Family)
        ensures
            f@ == cpu_plan_outcomes(*self),
    {
        let mut samples: Vec<Sample> = no_samples();
        add_sample(
            &mut samples,
            "outcome",
            "accept",
            self.scheduler_pipeline_cpu_plan_accept_total,
        );
        add_sample(&mut samples, "outcome", "stale", self.scheduler_pipeline_cpu_plan_stale_total);
        assert(sample_views(samples@) == cpu_plan_outcomes(*self).samples);
        labelled_family(
            "infer_scheduler_pipeline_cpu_plan_total",
            "Scheduler CPU candidate-plan validation outcomes.",
            "counter",
            samples,
        )
    }

    fn pages_by_placement_family(&self) -> (f: Family)
        ensures
            f@ == pages_by_placement(*self),
    {
        let mut samples: Vec<Sample> = no_samples();
        add_sample(&mut samples, "placement", "local", self.runtime_topology.numastat_local_pages);
        add_sample(
            &mut samples,
            "placement",
            "remote",
            self.runtime_topology.numastat_remote_pages,
        );
        add_sample(&mut samples, "placement", "total", self.runtime_topology.numastat_total_pages);
        assert(sample_views(samples@) == pages_by_placement(*self).samples);
        labelled_family(
            "infer_runtime_numastat_pages",
            "Process memory pages by runtime placement locality.",
            "gauge",
            samples,
        )
    }

    fn copy_latency_family(&self) -> (f: Family)
        ensures
            f@ == copy_latency(*self),
    {
        let mut samples: Vec<Sample> = no_samples();
        add_sample(&mut samples, "stat", "last", self.runtime_topology.h2d_latency_last_us);
        add_sample(&mut samples, "stat", "max", self.runtime_topology.h2d_latency_max_us);
        assert(sample_views(samples@) == copy_latency(*self).samples);
        labelled_family(
            "infer_runtime_h2d_latency_microseconds",
            "Host-to-device copy latency.",
            "gauge",
            samples,
        )
    }

    fn routes_by_locality_family(&self) -> (f: Family)
        ensures
            f@ == routes_by_locality(*self),
    {
        let mut samples: Vec<Sample> = no_samples();
        add_sample(&mut samples, "outcome", "local", self.runtime_topology.numa_route_local_total);
        add_sample(&mut samples, "outcome", "cross", self.runtime_topology.numa_route_cross_total);
        add_sample(
            &mut samples,
            "outcome",
            "unknown",
            self.runtime_topology.numa_route_unknown_total,
        );
        assert(sample_views(samples@) == routes_by_locality(*self).samples);
        labelled_family(
            "infer_scheduler_numa_route_total",
            "NUMA router decisions by locality outcome.",
            "counter",
            samples,
        )
    }

    fn ticks_by_plan_family(&self) -> (f: Family)
        ensures
            f@ == ticks_by_plan(*self),
    {
        let mut samples: Vec<Sample> = no_samples();
        add_sample(&mut samples, "plan", "idle", self.scheduler_plan_idle_total);
        add_sample(&mut samples, "plan", "decode", self.scheduler_plan_decode_total);
        add_sample(&mut samples, "plan", "prefill", self.scheduler_plan_prefill_total);
        add_sample(&mut samples, "plan", "split", self.scheduler_plan_split_total);
        add_sample(&mut samples, "plan", "mixed", self.scheduler_plan_mixed_total);
        assert(sample_views(samples@) == ticks_by_plan(*self).samples);
        labelled_family(
            "infer_scheduler_plan_total",
            "Scheduler ticks by selected plan label.",
            "counter",
            samples,
        )
    }

    fn mixed_outcomes_family(&self) -> (f: Family)
        ensures
            f@ == mixed_outcomes(*self),
    {
        let mut samples: Vec<Sample> = no_samples();
        add_sample(&mut samples, "outcome", "ok_true", self.prefill_path_mixed_ok_true_total);
        add_sample(&mut samples, "outcome", "ok_false", self.prefill_path_mixed_ok_false_total);
        assert(sample_views(samples@) == mixed_outcomes(*self).samples);
        labelled_family(
            "infer_prefill_path_mixed_batch_total",
            "Mixed decode+prefill path outcomes.",
            "counter",
            samples,
        )
    }

    fn mixed_fallbacks_family(&self) -> (f: Family)
        ensures
            f@ == mixed_fallbacks(*self),
    {
        let mut samples: Vec<Sample> = no_samples();
        add_sample(
            &mut samples,
            "reason",
            "decode_slot_count_mismatch",
            self.prefill_path_mixed_decode_slot_count_mismatch_total,
        );
        add_sample(
            &mut samples,
            "reason",
            "duplicate_prefill_slot",
            self.prefill_path_mixed_duplicate_prefill_slot_total,
        );
        add_sample(
            &mut samples,
            "reason",
            "empty_decode_batch",
            self.prefill_path_mixed_empty_decode_batch_total,
        );
        add_sample(
            &mut samples,
            "reason",
            "empty_prefill_batch",
            self.prefill_path_mixed_empty_prefill_batch_total,
        );
        add_sample(
            &mut samples,
            "reason",
            "empty_prefill_tokens",
            self.prefill_path_mixed_empty_prefill_tokens_total,
        );
        add_sample(
            &mut samples,
            "reason",
            "inactive_paged_pool",
            self.prefill_path_mixed_inactive_paged_pool_total,
        );
        add_sample(
            &mut samples,
            "reason",
            "lora_enabled",
            self.prefill_path_mixed_lora_enabled_total,
        );
        add_sample(
            &mut samples,
            "reason",
            "prefill_seq_len_mismatch",
            self.prefill_path_mixed_prefill_seq_len_mismatch_total,
        );
        add_sample(
            &mut samples,
            "reason",
            "prefill_slot_in_decode_batch",
            self.prefill_path_mixed_prefill_slot_in_decode_batch_total,
        );
        add_sample(
            &mut samples,
            "reason",
            "prefill_start_position_count_mismatch",
            self.prefill_path_mixed_prefill_start_position_count_mismatch_total,
        );
        add_sample(
            &mut samples,
            "reason",
            "scheduler_pre_dispatch_fallback",
            self.prefill_path_mixed_scheduler_pre_dispatch_fallback_total,
        );
        add_sample(
            &mut samples,
            "reason",
            "unsupported_kv_format",
            self.prefill_path_mixed_unsupported_kv_format_total,
        );
        add_sample(
            &mut samples,
            "reason",
            "unsupported_model",
            self.prefill_path_mixed_unsupported_model_total,
        );
        assert(sample_views(samples@) == mixed_fallbacks(*self).samples);
        labelled_family(
            "infer_prefill_path_mixed_batch_fallback_total",
            "Mixed decode+prefill fallback reasons.",
            "counter",
            samples,
        )
    }

    fn request_list(&self) -> (list: Vec<Family>)
        ensures
            family_views(list@) == request_families(*self),
    {
        proof {
            reveal(request_families);
        }
        let mut list: Vec<Family> = no_families();
        add_family(
            &mut list,
            number_family(
                "infer_requests_total",
                "Total completed inference requests.",
                "counter",
                self.requests_total,
            ),
        );
        add_family(
            &mut list,
            number_family(
                "infer_tokens_generated_total",
                "Total output tokens generated.",
                "counter",
                self.tokens_generated_total,
            ),
        );
        add_family(
            &mut list,
            number_family(
                "infer_tokens_prompt_total",
                "Total prompt tokens processed.",
                "counter",
                self.tokens_prompt_total,
            ),
        );
        add_family(
            &mut list,
            number_family(
                "infer_requests_failed_total",
                "Total failed inference requests.",
                "counter",
                self.requests_failed_total,
            ),
        );
        add_family(
            &mut list,
            number_family(
                "infer_prefix_lookups_total",
                "Total prefix-cache lookups.",
                "counter",
                self.prefix_lookups_total,
            ),
        );
        add_family(
            &mut list,
            number_family(
                "infer_prefix_hits_total",
                "Total reusable prefix-cache hits.",
                "counter",
                self.prefix_hits_total,
            ),
        );
        add_family(
            &mut list,
            text_family(
                "infer_prefix_hit_rate",
                "Reusable prefix-cache hit rate [0,1].",
                "gauge",
                self.prefix_hit_rate().to_fixed(4),
            ),
        );
        add_family(
            &mut list,
            number_family(
                "infer_prefix_reused_tokens_total",
                "Prefix tokens skipped by reuse.",
                "counter",
                self.prefix_reused_tokens_total,
            ),
        );
        add_family(
            &mut list,
            number_family(
                "infer_prefix_lookup_prompt_tokens_total",
                "Prompt tokens seen by prefix lookup.",
                "counter",
                self.prefix_lookup_prompt_tokens_total,
            ),
        );
        add_family(
            &mut list,
            text_family(
                "infer_prefix_skip_rate",
                "Fraction of prompt tokens skipped by prefix reuse [0,1].",
                "gauge",
                self.prefix_skip_rate().to_fixed(4),
            ),
        );
        add_family(
            &mut list,
            text_family(
                "infer_prefix_request_hit_rate",
                "Prefix-cache hit rate for the most recent lookup [0,1].",
                "gauge",
                self.prefix_request_hit_rate().to_fixed(4),
            ),
        );
        add_family(
            &mut list,
            text_family(
                "infer_prefix_request_skip_rate",
                "Prefix-token skip rate for the most recent lookup [0,1].",
                "gauge",
                self.prefix_request_skip_rate().to_fixed(4),
            ),
        );
        add_family(
            &mut list,
            number_family(
                "infer_session_affinity_hit_total",
                "Session-tagged requests that reused a prefix.",
                "counter",
                self.session_affinity_hit_total,
            ),
        );
        add_family(
            &mut list,
            number_family(
                "infer_session_affinity_miss_total",
                "Session-tagged requests without prefix reuse.",
                "counter",
                self.session_affinity_miss_total,
            ),
        );
        add_family(
            &mut list,
            number_family(
                "infer_session_slot_pressure_evictions_hard_total",
                "Inactive session slots evicted under hard pressure.",
                "counter",
                self.session_slot_pressure_evictions_hard_total,
            ),
        );
        add_family(
            &mut list,
            number_family(
                "infer_prefix_aware_admit_deferrals_total",
                "Cold admission candidates deferred by PrefixAware soft-cap.",
                "counter",
                self.prefix_aware_admit_deferrals_total,
            ),
        );
        add_family(
            &mut list,
            number_family(
                "infer_matched_prefix_tokens",
                "Matched prefix tokens for the most recent lookup.",
                "gauge",
                self.matched_prefix_tokens,
            ),
        );
        add_family(
            &mut list,
            number_family(
                "infer_resume_prefill_tokens",
                "Effective prefill tokens for the most recent lookup.",
                "gauge",
                self.resume_prefill_tokens,
            ),
        );
        add_family(
            &mut list,
            number_family(
                "infer_prefix_lookup_latency_microseconds",
                "Latency of the most recent scheduler prefix lookup.",
                "gauge",
                self.prefix_lookup_latency_us,
            ),
        );
        add_family(
            &mut list,
            number_family(
                "infer_prefix_lookup_reusable_tokens",
                "Reusable tokens selected by the most recent scheduler prefix lookup.",
                "gauge",
                self.prefix_lookup_reusable_tokens,
            ),
        );
        list
    }

    fn lookup_list(&self) -> (list: Vec<Family>)
        ensures
            family_views(list@) == lookup_families(*self),
    {
        proof {
            reveal(lookup_families);
        }
        let mut list: Vec<Family> = no_families();
        add_family(
            &mut list,
            number_family(
                "infer_prefix_lookup_ready_on_gpu",
                "Whether the most recent scheduler prefix lookup was fully ready on GPU.",
                "gauge",
                flag_value(self.prefix_lookup_ready_on_gpu != 0),
            ),
        );
        add_family(
            &mut list,
            number_family(
                "infer_prefix_lookup_direct_gpu_attach",
                "Whether the most recent scheduler prefix lookup selected direct GPU attachment.",
                "gauge",
                flag_value(self.prefix_lookup_direct_gpu_attach != 0),
            ),
        );
        add_family(
            &mut list,
            number_family(
                "infer_prefix_lookup_staged",
                "Whether the most recent scheduler prefix lookup selected staged readmission.",
                "gauge",
                flag_value(self.prefix_lookup_staged != 0),
            ),
        );
        add_family(
            &mut list,
            number_family(
                "infer_prefix_lookup_prefetch",
                "Whether the most recent staged prefix lookup queued prefetch.",
                "gauge",
                flag_value(self.prefix_lookup_prefetch != 0),
            ),
        );
        add_family(
            &mut list,
            number_family(
                "infer_prefix_lookup_recompute",
                "Whether the most recent scheduler prefix lookup advised recompute.",
                "gauge",
                flag_value(self.prefix_lookup_recompute != 0),
            ),
        );
        list
    }

    fn tier_list(&self) -> (list: Vec<Family>)
        requires
            self.rates_exist(),
        ensures
            family_views(list@) == tier_families(*self),
    {
        proof {
            reveal(tier_families);
        }
        let mut list: Vec<Family> = no_families();
        add_family(
            &mut list,
            number_family(
                "infer_tier_fetch_staged_host_blocks_total",
                "Request-weighted staged blocks found in T1.",
                "counter",
                self.tier_fetch_staged_host_blocks_total,
            ),
        );
        add_family(
            &mut list,
            number_family(
                "infer_tier_fetch_staged_disk_blocks_total",
                "Request-weighted staged blocks found in T2.",
                "counter",
                self.tier_fetch_staged_disk_blocks_total,
            ),
        );
        add_family(
            &mut list,
            number_family(
                "infer_tier_fetch_staged_remote_blocks_total",
                "Request-weighted staged blocks found in T3.",
                "counter",
                self.tier_fetch_staged_remote_blocks_total,
            ),
        );
        add_family(
            &mut list,
            number_family(
                "infer_tier_fetch_promoted_blocks_total",
                "Staged blocks promoted back into T0.",
                "counter",
                self.tier_fetch_promoted_blocks_total,
            ),
        );
        add_family(
            &mut list,
            number_family(
                "infer_tier_fetch_fallback_total",
                "Staged-prefix fallbacks back to cold prefill.",
                "counter",
                self.tier_fetch_fallback_total,
            ),
        );
        add_family(
            &mut list,
            text_family(
                "infer_tier_fetch_recall_rate",
                "Promoted staged blocks divided by staged blocks [0,1].",
                "gauge",
                self.tier_fetch_recall_rate().to_fixed(4),
            ),
        );
        list
    }

    fn decode_list(&self) -> (list: Vec<Family>)
        ensures
            family_views(list@) == decode_families(*self),
    {
        proof {
            reveal(decode_families);
        }
        let mut list: Vec<Family> = no_families();
        add_family(
            &mut list,
            number_family(
                "infer_dflash_blocks_total",
                "Total DFlash speculative blocks executed.",
                "counter",
                self.dflash_blocks_total,
            ),
        );
        add_family(
            &mut list,
            number_family(
                "infer_dflash_accepted_tokens_total",
                "Total tokens accepted from DFlash speculative blocks.",
                "counter",
                self.dflash_accepted_tokens_total,
            ),
        );
        add_family(
            &mut list,
            text_family(
                "infer_dflash_acceptance_rate",
                "DFlash acceptance rate: fraction of generated tokens from draft [0,1].",
                "gauge",
                self.dflash_acceptance_rate().to_fixed(4),
            ),
        );
        add_family(
            &mut list,
            text_family(
                "infer_dflash_utilization",
                "DFlash speculative capacity utilization [0,1].",
                "gauge",
                self.dflash_utilization().to_fixed(4),
            ),
        );
        add_family(
            &mut list,
            number_family(
                "infer_metal_decode_batches_total",
                "Metal decode batches executed on a batched GPU path.",
                "counter",
                self.metal_decode_batches_total,
            ),
        );
        add_family(
            &mut list,
            number_family(
                "infer_metal_decode_batched_rows_total",
                "Metal decode rows executed on a batched GPU path.",
                "counter",
                self.metal_decode_batched_rows_total,
            ),
        );
        add_family(
            &mut list,
            number_family(
                "infer_metal_decode_scalar_rows_total",
                "Metal decode rows executed by the scalar per-request path.",
                "counter",
                self.metal_decode_scalar_rows_total,
            ),
        );
        add_family(
            &mut list,
            number_family(
                "infer_metal_decode_batch_fallback_rows_total",
                "Metal decode rows scheduled together but forced to scalar fallback.",
                "counter",
                self.metal_decode_batch_fallback_rows_total,
            ),
        );
        add_family(
            &mut list,
            number_family(
                "infer_metal_qwen35_packed_decode_batches_total",
                "Qwen3.5 packed decode batches executed.",
                "counter",
                self.metal_qwen35_packed_decode_batches_total,
            ),
        );
        add_family(
            &mut list,
            number_family(
                "infer_metal_qwen35_packed_decode_rows_total",
                "Qwen3.5 packed decode rows executed.",
                "counter",
                self.metal_qwen35_packed_decode_rows_total,
            ),
        );
        list
    }

    fn scheduler_list(&self) -> (list: Vec<Family>)
        ensures
            family_views(list@) == scheduler_families(*self),
    {
        proof {
            reveal(scheduler_families);
        }
        let mut list: Vec<Family> = no_families();
        add_family(
            &mut list,
            number_family(
                "infer_requests_active",
                "Currently running requests.",
                "gauge",
                self.requests_active,
            ),
        );
        add_family(
            &mut list,
            number_family(
                "infer_requests_waiting",
                "Requests waiting in queue.",
                "gauge",
                self.requests_waiting,
            ),
        );
        add_family(
            &mut list,
            number_family(
                "infer_scheduler_running_batch",
                "Requests currently held in the running decode batch.",
                "gauge",
                self.scheduler_running_batch,
            ),
        );
        add_family(
            &mut list,
            number_family(
                "infer_scheduler_prefill_queue",
                "Requests currently queued for prefill continuation.",
                "gauge",
                self.scheduler_prefill_queue,
            ),
        );
        add_family(
            &mut list,
            number_family(
                "infer_scheduler_scheduled_rows",
                "Rows scheduled in the most recent scheduler tick.",
                "gauge",
                self.scheduler_scheduled_rows,
            ),
        );
        add_family(
            &mut list,
            number_family(
                "infer_scheduler_scheduled_decode_rows",
                "Decode rows scheduled in the most recent scheduler tick.",
                "gauge",
                self.scheduler_scheduled_decode_rows,
            ),
        );
        add_family(
            &mut list,
            number_family(
                "infer_scheduler_scheduled_prefill_rows",
                "Prefill rows scheduled in the most recent scheduler tick.",
                "gauge",
                self.scheduler_scheduled_prefill_rows,
            ),
        );
        add_family(
            &mut list,
            number_family(
                "infer_scheduler_decode_tokens",
                "Decode tokens advanced in the most recent scheduler tick.",
                "gauge",
                self.scheduler_decode_tokens,
            ),
        );
        add_family(
            &mut list,
            number_family(
                "infer_scheduler_prefill_tokens",
                "Prefill tokens advanced in the most recent scheduler tick.",
                "gauge",
                self.scheduler_prefill_tokens,
            ),
        );
        add_family(
            &mut list,
            number_family(
                "infer_scheduler_batch_width",
                "Total GPU batch width in the most recent scheduler tick.",
                "gauge",
                self.scheduler_batch_width,
            ),
        );
        add_family(
            &mut list,
            text_family(
                "infer_scheduler_step_last_seconds",
                "Most recent end-to-end scheduler tick latency.",
                "gauge",
                self.scheduler_step_last_seconds().to_fixed(6),
            ),
        );
        list
    }

    fn phase_list(&self) -> (list: Vec<Family>)
        ensures
            family_views(list@) == phase_families(*self),
    {
        proof {
            reveal(phase_families);
        }
        let mut list: Vec<Family> = no_families();
        add_family(
            &mut list,
            number_family(
                "infer_scheduler_step_phase_admission_microseconds",
                "EMA scheduler tick admission phase duration.",
                "gauge",
                self.scheduler_step_admission_us,
            ),
        );
        add_family(
            &mut list,
            number_family(
                "infer_scheduler_step_phase_prefill_microseconds",
                "EMA scheduler tick prefill phase duration.",
                "gauge",
                self.scheduler_step_prefill_us,
            ),
        );
        add_family(
            &mut list,
            number_family(
                "infer_scheduler_step_phase_decode_microseconds",
                "EMA scheduler tick decode phase duration.",
                "gauge",
                self.scheduler_step_decode_us,
            ),
        );
        add_family(
            &mut list,
            number_family(
                "infer_scheduler_step_phase_emit_microseconds",
                "EMA scheduler tick emit phase duration.",
                "gauge",
                self.scheduler_step_emit_us,
            ),
        );
        add_family(
            &mut list,
            number_family(
                "infer_scheduler_step_phase_total_microseconds",
                "EMA scheduler tick total duration.",
                "gauge",
                self.scheduler_step_total_us,
            ),
        );
        add_family(
            &mut list,
            number_family(
                "infer_scheduler_step_cleanup_microseconds",
                "EMA scheduler cleanup duration after GPU step dispatch/readback.",
                "gauge",
                self.scheduler_step_cleanup_us,
            ),
        );
        add_family(
            &mut list,
            number_family(
                "infer_scheduler_loop_total_microseconds",
                "EMA full scheduler loop duration including cleanup.",
                "gauge",
                self.scheduler_loop_total_us,
            ),
        );
        list
    }

    fn pipeline_list(&self) -> (list: Vec<Family>)
        ensures
            family_views(list@) == pipeline_families(*self),
    {
        proof {
            reveal(pipeline_families);
        }
        let mut list: Vec<Family> = no_families();
        add_family(
            &mut list,
            number_family(
                "infer_preprocess_queue_depth",
                "HTTP preprocess requests currently holding a bounded preprocess permit.",
                "gauge",
                self.preprocess_queue_depth,
            ),
        );
        add_family(
            &mut list,
            number_family(
                "infer_preprocess_wait_microseconds",
                "Most recent HTTP preprocess permit wait duration.",
                "gauge",
                self.preprocess_wait_us,
            ),
        );
        add_family(
            &mut list,
            number_family(
                "infer_preprocess_tokenize_microseconds",
                "Most recent HTTP prompt tokenization duration.",
                "gauge",
                self.preprocess_tokenize_us,
            ),
        );
        add_family(
            &mut list,
            number_family(
                "infer_scheduler_pipeline_snapshot_microseconds",
                "Most recent scheduler snapshot construction duration.",
                "gauge",
                self.scheduler_pipeline_snapshot_us,
            ),
        );
        add_family(
            &mut list,
            number_family(
                "infer_scheduler_pipeline_cpu_plan_microseconds",
                "Most recent scheduler CPU candidate-plan duration.",
                "gauge",
                self.scheduler_pipeline_cpu_plan_us,
            ),
        );
        add_family(
            &mut list,
            number_family(
                "infer_scheduler_pipeline_gpu_completion_wait_microseconds",
                "Most recent scheduler wait/readback duration for prior GPU completion.",
                "gauge",
                self.scheduler_pipeline_gpu_completion_wait_us,
            ),
        );
        add_family(
            &mut list,
            number_family(
                "infer_scheduler_pipeline_gpu_command_queue_depth",
                "Scheduler-visible GPU command queue depth.",
                "gauge",
                self.scheduler_pipeline_gpu_command_queue_depth,
            ),
        );
        add_family(&mut list, self.cpu_plan_outcomes_family());
        list
    }

    fn placement_list(&self) -> (list: Vec<Family>)
        ensures
            family_views(list@) == placement_families(*self),
    {
        proof {
            reveal(placement_families);
        }
        let mut list: Vec<Family> = no_families();
        add_family(
            &mut list,
            number_family(
                "infer_runtime_topology_numa_nodes",
                "NUMA nodes discovered at runtime startup.",
                "gauge",
                self.runtime_topology.numa_nodes,
            ),
        );
        add_family(
            &mut list,
            number_family(
                "infer_runtime_topology_gpus",
                "GPU devices discovered at runtime startup.",
                "gauge",
                self.runtime_topology.gpus,
            ),
        );
        add_family(
            &mut list,
            number_family(
                "infer_runtime_topology_nics",
                "NIC devices discovered at runtime startup.",
                "gauge",
                self.runtime_topology.nics,
            ),
        );
        add_family(
            &mut list,
            number_family(
                "infer_runtime_worker_gpu_ordinal",
                "GPU ordinal selected for this runtime worker.",
                "gauge",
                self.runtime_topology.worker_gpu_ordinal,
            ),
        );
        add_family(
            &mut list,
            number_family(
                "infer_runtime_worker_cpu_count",
                "CPU count in this runtime worker affinity set.",
                "gauge",
                self.runtime_topology.worker_cpu_count,
            ),
        );
        add_family(
            &mut list,
            number_family(
                "infer_runtime_worker_nic_count",
                "NIC count selected as nearest to this runtime worker GPU.",
                "gauge",
                self.runtime_topology.worker_nic_count,
            ),
        );
        add_family(
            &mut list,
            number_family(
                "infer_runtime_worker_affinity_applied",
                "Whether CPU affinity was applied for the runtime worker.",
                "gauge",
                flag_value(self.runtime_topology.affinity_applied),
            ),
        );
        add_family(
            &mut list,
            number_family(
                "infer_runtime_worker_affinity_threads",
                "Threads successfully updated by runtime worker affinity.",
                "gauge",
                self.runtime_topology.affinity_threads,
            ),
        );
        add_family(
            &mut list,
            number_family(
                "infer_runtime_worker_affinity_failed_threads",
                "Threads that failed runtime worker affinity update.",
                "gauge",
                self.runtime_topology.affinity_failed_threads,
            ),
        );
        add_family(
            &mut list,
            number_family(
                "infer_runtime_preprocess_numa_groups",
                "NUMA groups backing the HTTP tokenization pool.",
                "gauge",
                self.runtime_topology.preprocess_groups,
            ),
        );
        add_family(
            &mut list,
            number_family(
                "infer_runtime_preprocess_workers",
                "Worker threads backing the HTTP tokenization pool.",
                "gauge",
                self.runtime_topology.preprocess_workers,
            ),
        );
        add_family(
            &mut list,
            number_family(
                "infer_runtime_detokenizer_numa_groups",
                "NUMA groups backing scheduler detokenization workers.",
                "gauge",
                self.runtime_topology.detokenizer_groups,
            ),
        );
        add_family(
            &mut list,
            number_family(
                "infer_runtime_detokenizer_workers",
                "Worker threads backing scheduler detokenization.",
                "gauge",
                self.runtime_topology.detokenizer_workers,
            ),
        );
        add_family(
            &mut list,
            number_family(
                "infer_runtime_h2d_latency_count",
                "Observed host-to-device latency samples.",
                "gauge",
                self.runtime_topology.h2d_latency_count,
            ),
        );
        add_family(
            &mut list,
            number_family(
                "infer_scheduler_numa_route_cost",
                "NUMA routing cost selected for the most recent request.",
                "gauge",
                self.runtime_topology.numa_route_cost_last,
            ),
        );
        add_family(
            &mut list,
            text_family(
                "infer_runtime_worker_numa_node",
                "NUMA node selected for this runtime worker (-1 unknown).",
                "gauge",
                signed_text(self.runtime_topology.worker_numa_node),
            ),
        );
        list
    }

    fn outcome_list(&self) -> (list: Vec<Family>)
        ensures
            family_views(list@) == outcome_families(*self),
    {
        proof {
            reveal(outcome_families);
        }
        let mut list: Vec<Family> = no_families();
        add_family(&mut list, self.pages_by_placement_family());
        add_family(&mut list, self.copy_latency_family());
        add_family(&mut list, self.routes_by_locality_family());
        add_family(
            &mut list,
            number_family(
                "infer_scheduler_numa_migration_total",
                "Requests whose sticky NUMA route migrated for rebalancing.",
                "counter",
                self.runtime_topology.numa_migration_total,
            ),
        );
        add_family(
            &mut list,
            number_family(
                "infer_scheduler_numa_rebalance_total",
                "NUMA router rebalance decisions.",
                "counter",
                self.runtime_topology.numa_rebalance_total,
            ),
        );
        add_family(&mut list, self.ticks_by_plan_family());
        add_family(&mut list, self.mixed_outcomes_family());
        add_family(&mut list, self.mixed_fallbacks_family());
        list
    }

    fn speculation_list(&self) -> (list: Vec<Family>)
        ensures
            family_views(list@) == speculation_families(*self),
    {
        proof {
            reveal(speculation_families);
        }
        let mut list: Vec<Family> = no_families();
        add_family(
            &mut list,
            number_family(
                "infer_spec_draft_tokens_total",
                "Draft tokens proposed by Phase 2 speculative decode.",
                "counter",
                self.spec_draft_tokens_total,
            ),
        );
        add_family(
            &mut list,
            number_family(
                "infer_spec_verified_tokens_total",
                "Draft tokens checked by the target verifier.",
                "counter",
                self.spec_verified_tokens_total,
            ),
        );
        add_family(
            &mut list,
            number_family(
                "infer_spec_accepted_tokens_total",
                "Draft tokens accepted by the verifier.",
                "counter",
                self.spec_accepted_tokens_total,
            ),
        );
        add_family(
            &mut list,
            number_family(
                "infer_spec_sparse_view_empty_total",
                "Sparse self-spec decode rows that could not build a sparse KV view.",
                "counter",
                self.spec_sparse_view_empty_total,
            ),
        );
        add_family(
            &mut list,
            text_family(
                "infer_spec_acceptance_rate",
                "Aggregate speculative accepted / verified token ratio [0,1].",
                "gauge",
                self.spec_acceptance_rate().to_fixed(6),
            ),
        );
        list
    }

    fn kv_list(&self) -> (list: Vec<Family>)
        requires
            self.rates_exist(),
        ensures
            family_views(list@) == kv_families(*self),
    {
        proof {
            reveal(kv_families);
        }
        let mut list: Vec<Family> = no_families();
        add_family(
            &mut list,
            number_family(
                "infer_kv_coordinator_queue_capacity",
                "Coordinator queue capacity shared by staged KV fetch/store work.",
                "gauge",
                self.kv_coordinator_queue_capacity,
            ),
        );
        add_family(
            &mut list,
            number_family(
                "infer_kv_fetch_queue_depth",
                "In-flight staged KV fetch tickets.",
                "gauge",
                self.kv_fetch_queue_depth,
            ),
        );
        add_family(
            &mut list,
            number_family(
                "infer_kv_fetch_waiters",
                "Requests currently waiting on staged KV fetch completion.",
                "gauge",
                self.kv_fetch_waiters,
            ),
        );
        add_family(
            &mut list,
            number_family(
                "infer_kv_store_queue_depth",
                "In-flight staged KV spill/store tickets.",
                "gauge",
                self.kv_store_queue_depth,
            ),
        );
        add_family(
            &mut list,
            number_family(
                "infer_kv_store_submitted_total",
                "Submitted staged KV spill/store tickets.",
                "counter",
                self.kv_store_submitted_total,
            ),
        );
        add_family(
            &mut list,
            number_family(
                "infer_kv_store_completed_total",
                "Completed staged KV spill/store tickets.",
                "counter",
                self.kv_store_completed_total,
            ),
        );
        add_family(
            &mut list,
            number_family(
                "infer_kv_store_failed_total",
                "Failed staged KV spill/store tickets.",
                "counter",
                self.kv_store_failed_total,
            ),
        );
        add_family(
            &mut list,
            number_family(
                "infer_kv_store_rejected_total",
                "Rejected staged KV spill/store tickets.",
                "counter",
                self.kv_store_rejected_total,
            ),
        );
        add_family(
            &mut list,
            number_family(
                "infer_kv_fetch_backpressure",
                "Staged KV fetch queue backpressure flag (0 or 1).",
                "gauge",
                self.kv_fetch_backpressure,
            ),
        );
        add_family(
            &mut list,
            number_family(
                "infer_kv_store_backpressure",
                "Staged KV store queue backpressure flag (0 or 1).",
                "gauge",
                self.kv_store_backpressure,
            ),
        );
        add_family(
            &mut list,
            text_family(
                "infer_tier_fetch_wait_seconds",
                "Oldest outstanding staged KV fetch wait.",
                "gauge",
                self.tier_fetch_wait_seconds().to_fixed(6),
            ),
        );
        add_family(
            &mut list,
            text_family(
                "infer_tier_store_wait_seconds",
                "Oldest outstanding staged KV store wait.",
                "gauge",
                self.tier_store_wait_seconds().to_fixed(6),
            ),
        );
        add_family(
            &mut list,
            text_family(
                "infer_kv_gpu_utilization",
                "GPU KV cache utilization [0,1].",
                "gauge",
                self.kv_gpu_utilization().to_fixed(4),
            ),
        );
        add_family(
            &mut list,
            number_family(
                "infer_kv_gpu_blocks_free",
                "Free GPU KV cache blocks.",
                "gauge",
                self.kv_gpu_blocks_free,
            ),
        );
        add_family(
            &mut list,
            number_family(
                "infer_kv_gpu_blocks_total",
                "Total GPU KV cache blocks.",
                "gauge",
                self.kv_gpu_blocks_total,
            ),
        );
        add_family(
            &mut list,
            number_family(
                "infer_memory_active_bytes",
                "Active MLX allocator memory in bytes.",
                "gauge",
                self.memory_active_bytes,
            ),
        );
        add_family(
            &mut list,
            number_family(
                "infer_memory_peak_bytes",
                "Peak MLX allocator memory in bytes.",
                "gauge",
                self.memory_peak_bytes,
            ),
        );
        add_family(
            &mut list,
            number_family(
                "infer_memory_cache_bytes",
                "Cached MLX allocator memory in bytes.",
                "gauge",
                self.memory_cache_bytes,
            ),
        );
        list
    }

    fn family_list(&self) -> (list: Vec<Family>)
        requires
            self.rates_exist(),
        ensures
            family_views(list@) == all_families(*self),
    {
        let mut list: Vec<Family> = self.request_list();
        append_families(&mut list, self.lookup_list());
        append_families(&mut list, self.tier_list());
        append_families(&mut list, self.decode_list());
        append_families(&mut list, self.scheduler_list());
        if self.scheduler_step_phase_samples == 0 {
            append_families(&mut list, no_families());
        } else {
            append_families(&mut list, self.phase_list());
        }
        append_families(&mut list, self.pipeline_list());
        append_families(&mut list, self.placement_list());
        append_families(&mut list, self.outcome_list());
        append_families(&mut list, self.speculation_list());
        append_families(&mut list, self.kv_list());
        list
    }

    fn labels(&self) -> (labels: String)
        ensures
            labels@ == model_labels(self.model_id@),
    {
        if self.model_id.as_str().is_empty() {
            String::new()
        } else {
            let mut labels: String = String::from_str("model");
            labels.append("=\"");
            labels.append(self.model_id.as_str());
            labels.append("\",");
            labels
        }
    }

    /// Renders all metrics in the Prometheus text exposition format.
    pub fn render_prometheus(&self) -> (out: String)
        requires
            self.wf(),
            self.rates_exist(),
        ensures
            out@ == prometheus_text(*self),
    {
        let labels: String = self.labels();
        let list: Vec<Family> = self.family_list();
        let mut out: String = render_families(&list, labels.as_str());
        out.append(
            histogram_family_text(
                &self.histograms.queue_wait,
                "infer_queue_wait_seconds",
                "Submit-to-admit queue latency.",
                labels.as_str(),
            ).as_str(),
        );
        out.append(
            histogram_family_text(
                &self.histograms.active_ttft,
                "infer_active_ttft_seconds",
                "Admit-to-first-token latency.",
                labels.as_str(),
            ).as_str(),
        );
        out.append(
            histogram_family_text(
                &self.histograms.ttft,
                "infer_ttft_seconds",
                "Time to first token latency.",
                labels.as_str(),
            ).as_str(),
        );
        out.append(
            histogram_family_text(
                &self.histograms.tpot,
                "infer_tpot_seconds",
                "Time per output token latency.",
                labels.as_str(),
            ).as_str(),
        );
        out.append(
            histogram_family_text(
                &self.histograms.service,
                "infer_service_seconds",
                "First-token-to-finish service latency.",
                labels.as_str(),
            ).as_str(),
        );
        out.append(
            histogram_family_text(
                &self.histograms.e2e,
                "infer_e2e_seconds",
                "End-to-end request latency.",
                labels.as_str(),
            ).as_str(),
        );
        out.append(
            histogram_family_text(
                &self.histograms.scheduler_step,
                "infer_scheduler_step_seconds",
                "End-to-end scheduler tick latency.",
                labels.as_str(),
            ).as_str(),
        );
        out.append(
            histogram_family_text(
                &self.histograms.spec_step_latency_us,
                "infer_spec_step_latency_us",
                "Phase 2 speculative decode step latency.",
                labels.as_str(),
            ).as_str(),
        );
        out
    }
}

} // verus!
