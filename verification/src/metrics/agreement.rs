//! The summary and the document say of the metrics what the exposition shows.

use vstd::prelude::*;

use crate::double::{fixed_text, ratio, times, Binary};
use crate::metrics::exposition::{draft_rate, label_text, recall_rate, utilization};
use crate::metrics::histogram::quantile;
use crate::metrics::samples::{
    holds_text, lemma_decode_readings, lemma_kv_readings, lemma_lookup_readings,
    lemma_outcome_readings, lemma_phase_readings, lemma_pipeline_readings,
    lemma_placement_readings, lemma_request_readings, lemma_scheduler_readings,
    lemma_speculation_readings, lemma_tier_readings, lemma_sums_hold_their_ends,
    lemma_sums_hold_their_parts, reads,
};
use crate::metrics::server::ServerMetrics;
use crate::metrics::summary::{
    cache_suffix, cleanup_suffix, draft_blocks, metal_suffix, micros_text, millis_text,
    phases_suffix, pipeline_suffix, plan_suffix, prefill_path_suffix, queues, skip_suffix,
    speculation_suffix, summary_text, telemetry_suffix, tiers,
};
use crate::metrics::telemetry::{clamped, p50, p99};
use crate::text::{decimal, flag, signed_decimal};

verus! {

/// The text says behind the key the number that the exposition shows.
pub open spec fn said(
    text: Seq<char>,
    m: ServerMetrics,
    name: Seq<char>,
    label: Seq<char>,
    key: Seq<char>,
) -> bool {
    exists|v: nat|
        #[trigger] reads(m, name, label, decimal(v)) && holds_text(text, key + decimal(v))
}

/// The text says behind the key the two numbers that the exposition shows, with a
/// slash between them.
pub open spec fn said_both(
    text: Seq<char>,
    m: ServerMetrics,
    first: Seq<char>,
    second: Seq<char>,
    key: Seq<char>,
) -> bool {
    exists|v: nat, w: nat|
        #[trigger] reads(m, first, Seq::empty(), decimal(v)) && #[trigger] reads(
            m,
            second,
            Seq::empty(),
            decimal(w),
        ) && holds_text(text, key + decimal(v) + "/"@ + decimal(w))
}

/// The text says behind the key the share that the exposition shows, in other
/// units and to one place.
pub open spec fn said_share(
    text: Seq<char>,
    m: ServerMetrics,
    name: Seq<char>,
    places: nat,
    key: Seq<char>,
    factor: nat,
) -> bool {
    exists|x: Binary|
        #[trigger] reads(m, name, Seq::empty(), fixed_text(x, places)) && holds_text(
            text,
            key + fixed_text(times(x, factor), 1),
        )
}

proof fn lemma_loops_text(m: ServerMetrics, text: Seq<char>)
    requires
        text == cleanup_suffix(m),
    ensures
        holds_text(text, ",cleanup:"@ + decimal(m.scheduler_step_cleanup_us as nat)),
        holds_text(text, ",loop_total:"@ + decimal(m.scheduler_loop_total_us as nat)),
{
    lemma_sums_hold_their_parts();
    lemma_sums_hold_their_ends();
}

/// The summary says of averaged cleanup and loop durations what the exposition shows.
pub proof fn law_summaries_agree_on_loops(m: ServerMetrics, text: Seq<char>)
    requires
        text == cleanup_suffix(m),
        m.scheduler_step_phase_samples != 0,
    ensures
        said(text, m, "infer_scheduler_step_cleanup_microseconds"@, Seq::empty(), ",cleanup:"@),
        said(
            text,
            m,
            "infer_scheduler_loop_total_microseconds"@,
            Seq::empty(),
            ",loop_total:"@,
        ),
{
    lemma_loops_text(m, text);
    lemma_phase_readings(m);
}

proof fn lemma_phases_text(m: ServerMetrics, text: Seq<char>)
    requires
        text == phases_suffix(m),
    ensures
        holds_text(text, " step_phase_us=adm:"@ + decimal(m.scheduler_step_admission_us as nat)),
        holds_text(text, ",prefill:"@ + decimal(m.scheduler_step_prefill_us as nat)),
        holds_text(text, ",decode:"@ + decimal(m.scheduler_step_decode_us as nat)),
        holds_text(text, ",emit:"@ + decimal(m.scheduler_step_emit_us as nat)),
        holds_text(text, ",total:"@ + decimal(m.scheduler_step_total_us as nat)),
{
    lemma_sums_hold_their_parts();
    lemma_sums_hold_their_ends();
}

/// The summary says of averaged phases what the exposition shows.
pub proof fn law_summaries_agree_on_phases(m: ServerMetrics, text: Seq<char>)
    requires
        text == phases_suffix(m),
        m.scheduler_step_phase_samples != 0,
    ensures
        said(
            text,
            m,
            "infer_scheduler_step_phase_admission_microseconds"@,
            Seq::empty(),
            " step_phase_us=adm:"@,
        ),
        said(
            text,
            m,
            "infer_scheduler_step_phase_prefill_microseconds"@,
            Seq::empty(),
            ",prefill:"@,
        ),
        said(
            text,
            m,
            "infer_scheduler_step_phase_decode_microseconds"@,
            Seq::empty(),
            ",decode:"@,
        ),
        said(text, m, "infer_scheduler_step_phase_emit_microseconds"@, Seq::empty(), ",emit:"@),
        said(
            text,
            m,
            "infer_scheduler_step_phase_total_microseconds"@,
            Seq::empty(),
            ",total:"@,
        ),
{
    lemma_phases_text(m, text);
    lemma_phase_readings(m);
}

#[verifier::rlimit(100)]
#[verifier::spinoff_prover]
proof fn lemma_pipelines_text(m: ServerMetrics, text: Seq<char>)
    requires
        text == pipeline_suffix(m),
    ensures
        holds_text(text, " preprocess=depth:"@ + decimal(m.preprocess_queue_depth as nat)),
        holds_text(text, ",wait_us:"@ + decimal(m.preprocess_wait_us as nat)),
        holds_text(text, ",tokenize_us:"@ + decimal(m.preprocess_tokenize_us as nat)),
        holds_text(
            text,
            " pipeline=snapshot_us:"@ + decimal(m.scheduler_pipeline_snapshot_us as nat),
        ),
        holds_text(text, ",cpu_plan_us:"@ + decimal(m.scheduler_pipeline_cpu_plan_us as nat)),
        holds_text(
            text,
            ",gpu_wait_us:"@ + decimal(m.scheduler_pipeline_gpu_completion_wait_us as nat),
        ),
        holds_text(
            text,
            ",gpu_q:"@ + decimal(m.scheduler_pipeline_gpu_command_queue_depth as nat),
        ),
        holds_text(
            text,
            ",plan_accept:"@ + decimal(m.scheduler_pipeline_cpu_plan_accept_total as nat),
        ),
        holds_text(
            text,
            ",plan_stale:"@ + decimal(m.scheduler_pipeline_cpu_plan_stale_total as nat),
        ),
        holds_text(
            text,
            " runtime_topology=numa:"@ + decimal(m.runtime_topology.numa_nodes as nat),
        ),
        holds_text(text, ",gpu:"@ + decimal(m.runtime_topology.gpus as nat)),
        holds_text(
            text,
            ",worker_numa:"@ + signed_decimal(m.runtime_topology.worker_numa_node as int),
        ),
        holds_text(text, ",worker_cpus:"@ + decimal(m.runtime_topology.worker_cpu_count as nat)),
        holds_text(
            text,
            ",pre_workers:"@ + decimal(m.runtime_topology.preprocess_workers as nat),
        ),
        holds_text(
            text,
            ",detok_workers:"@ + decimal(m.runtime_topology.detokenizer_workers as nat),
        ),
        holds_text(
            text,
            ",h2d_last_us:"@ + decimal(m.runtime_topology.h2d_latency_last_us as nat),
        ),
        holds_text(
            text,
            ",numa_route=local:"@ + decimal(m.runtime_topology.numa_route_local_total as nat),
        ),
        holds_text(text, ",cross:"@ + decimal(m.runtime_topology.numa_route_cross_total as nat)),
        holds_text(
            text,
            ",unknown:"@ + decimal(m.runtime_topology.numa_route_unknown_total as nat),
        ),
        holds_text(text, ",migrate:"@ + decimal(m.runtime_topology.numa_migration_total as nat)),
        holds_text(
            text,
            ",rebalance:"@ + decimal(m.runtime_topology.numa_rebalance_total as nat),
        ),
{
    lemma_sums_hold_their_parts();
    lemma_sums_hold_their_ends();
}

/// The summary says of preprocessing, the pipeline and the placement what the exposition shows.
pub proof fn law_summaries_agree_on_pipelines(m: ServerMetrics, text: Seq<char>)
    requires
        text == pipeline_suffix(m),
    ensures
        said(text, m, "infer_preprocess_queue_depth"@, Seq::empty(), " preprocess=depth:"@),
        said(text, m, "infer_preprocess_wait_microseconds"@, Seq::empty(), ",wait_us:"@),
        said(
            text,
            m,
            "infer_preprocess_tokenize_microseconds"@,
            Seq::empty(),
            ",tokenize_us:"@,
        ),
        said(
            text,
            m,
            "infer_scheduler_pipeline_snapshot_microseconds"@,
            Seq::empty(),
            " pipeline=snapshot_us:"@,
        ),
        said(
            text,
            m,
            "infer_scheduler_pipeline_cpu_plan_microseconds"@,
            Seq::empty(),
            ",cpu_plan_us:"@,
        ),
        said(
            text,
            m,
            "infer_scheduler_pipeline_gpu_completion_wait_microseconds"@,
            Seq::empty(),
            ",gpu_wait_us:"@,
        ),
        said(
            text,
            m,
            "infer_scheduler_pipeline_gpu_command_queue_depth"@,
            Seq::empty(),
            ",gpu_q:"@,
        ),
        said(
            text,
            m,
            "infer_scheduler_pipeline_cpu_plan_total"@,
            label_text("outcome"@, "accept"@),
            ",plan_accept:"@,
        ),
        said(
            text,
            m,
            "infer_scheduler_pipeline_cpu_plan_total"@,
            label_text("outcome"@, "stale"@),
            ",plan_stale:"@,
        ),
        said(
            text,
            m,
            "infer_runtime_topology_numa_nodes"@,
            Seq::empty(),
            " runtime_topology=numa:"@,
        ),
        said(text, m, "infer_runtime_topology_gpus"@, Seq::empty(), ",gpu:"@),
        reads(
            m,
            "infer_runtime_worker_numa_node"@,
            Seq::empty(),
            signed_decimal(m.runtime_topology.worker_numa_node as int),
        ),
        holds_text(
            text,
            ",worker_numa:"@ + signed_decimal(m.runtime_topology.worker_numa_node as int),
        ),
        said(text, m, "infer_runtime_worker_cpu_count"@, Seq::empty(), ",worker_cpus:"@),
        said(text, m, "infer_runtime_preprocess_workers"@, Seq::empty(), ",pre_workers:"@),
        said(text, m, "infer_runtime_detokenizer_workers"@, Seq::empty(), ",detok_workers:"@),
        said(
            text,
            m,
            "infer_runtime_h2d_latency_microseconds"@,
            label_text("stat"@, "last"@),
            ",h2d_last_us:"@,
        ),
        said(
            text,
            m,
            "infer_scheduler_numa_route_total"@,
            label_text("outcome"@, "local"@),
            ",numa_route=local:"@,
        ),
        said(
            text,
            m,
            "infer_scheduler_numa_route_total"@,
            label_text("outcome"@, "cross"@),
            ",cross:"@,
        ),
        said(
            text,
            m,
            "infer_scheduler_numa_route_total"@,
            label_text("outcome"@, "unknown"@),
            ",unknown:"@,
        ),
        said(text, m, "infer_scheduler_numa_migration_total"@, Seq::empty(), ",migrate:"@),
        said(text, m, "infer_scheduler_numa_rebalance_total"@, Seq::empty(), ",rebalance:"@),
{
    lemma_pipelines_text(m, text);
    lemma_pipeline_readings(m);
    lemma_placement_readings(m);
    lemma_outcome_readings(m);
}

proof fn lemma_drafts_text(m: ServerMetrics, text: Seq<char>)
    requires
        text == draft_blocks(m),
    ensures
        holds_text(text, " dflash_blocks="@ + decimal(m.dflash_blocks_total as nat)),
        holds_text(text, " dflash_accept="@ + fixed_text(times(draft_rate(m), 100), 1)),
        holds_text(
            text,
            "% util="@ + fixed_text(
                times(
                    ratio(
                        m.dflash_accepted_tokens_total as nat,
                        m.dflash_draft_tokens_total as nat,
                    ),
                    100,
                ),
                1,
            ),
        ),
{
    lemma_sums_hold_their_parts();
    lemma_sums_hold_their_ends();
}

/// The summary says of speculative blocks what the exposition shows.
pub proof fn law_summaries_agree_on_drafts(m: ServerMetrics, text: Seq<char>)
    requires
        text == draft_blocks(m),
    ensures
        said(text, m, "infer_dflash_blocks_total"@, Seq::empty(), " dflash_blocks="@),
        said_share(text, m, "infer_dflash_acceptance_rate"@, 4, " dflash_accept="@, 100),
        said_share(text, m, "infer_dflash_utilization"@, 4, "% util="@, 100),
{
    lemma_drafts_text(m, text);
    lemma_decode_readings(m);
}

proof fn lemma_metal_paths_text(m: ServerMetrics, text: Seq<char>)
    requires
        text == metal_suffix(m),
    ensures
        holds_text(
            text,
            " metal_decode=batch:"@ + decimal(m.metal_decode_batches_total as nat)
                + "/"@ + decimal(m.metal_decode_batched_rows_total as nat),
        ),
        holds_text(text, ",scalar:"@ + decimal(m.metal_decode_scalar_rows_total as nat)),
        holds_text(
            text,
            ",fallback:"@ + decimal(m.metal_decode_batch_fallback_rows_total as nat),
        ),
        holds_text(
            text,
            ",qwen35_packed:"@ + decimal(m.metal_qwen35_packed_decode_batches_total as nat)
                + "/"@ + decimal(m.metal_qwen35_packed_decode_rows_total as nat),
        ),
{
    lemma_sums_hold_their_parts();
    lemma_sums_hold_their_ends();
}

/// The summary says of the Metal decode paths what the exposition shows.
pub proof fn law_summaries_agree_on_metal_paths(m: ServerMetrics, text: Seq<char>)
    requires
        text == metal_suffix(m),
    ensures
        said_both(
            text,
            m,
            "infer_metal_decode_batches_total"@,
            "infer_metal_decode_batched_rows_total"@,
            " metal_decode=batch:"@,
        ),
        said(text, m, "infer_metal_decode_scalar_rows_total"@, Seq::empty(), ",scalar:"@),
        said(
            text,
            m,
            "infer_metal_decode_batch_fallback_rows_total"@,
            Seq::empty(),
            ",fallback:"@,
        ),
        said_both(
            text,
            m,
            "infer_metal_qwen35_packed_decode_batches_total"@,
            "infer_metal_qwen35_packed_decode_rows_total"@,
            ",qwen35_packed:"@,
        ),
{
    lemma_metal_paths_text(m, text);
    lemma_decode_readings(m);
}

proof fn lemma_plans_text(m: ServerMetrics, text: Seq<char>)
    requires
        text == plan_suffix(m),
    ensures
        holds_text(text, " plan_label=idle:"@ + decimal(m.scheduler_plan_idle_total as nat)),
        holds_text(text, ",decode:"@ + decimal(m.scheduler_plan_decode_total as nat)),
        holds_text(text, ",prefill:"@ + decimal(m.scheduler_plan_prefill_total as nat)),
        holds_text(text, ",split:"@ + decimal(m.scheduler_plan_split_total as nat)),
        holds_text(text, ",mixed:"@ + decimal(m.scheduler_plan_mixed_total as nat)),
{
    lemma_sums_hold_their_parts();
    lemma_sums_hold_their_ends();
}

/// The summary says of the selected plans what the exposition shows.
pub proof fn law_summaries_agree_on_plans(m: ServerMetrics, text: Seq<char>)
    requires
        text == plan_suffix(m),
    ensures
        said(
            text,
            m,
            "infer_scheduler_plan_total"@,
            label_text("plan"@, "idle"@),
            " plan_label=idle:"@,
        ),
        said(
            text,
            m,
            "infer_scheduler_plan_total"@,
            label_text("plan"@, "decode"@),
            ",decode:"@,
        ),
        said(
            text,
            m,
            "infer_scheduler_plan_total"@,
            label_text("plan"@, "prefill"@),
            ",prefill:"@,
        ),
        said(text, m, "infer_scheduler_plan_total"@, label_text("plan"@, "split"@), ",split:"@),
        said(text, m, "infer_scheduler_plan_total"@, label_text("plan"@, "mixed"@), ",mixed:"@),
{
    lemma_plans_text(m, text);
    lemma_outcome_readings(m);
}

proof fn lemma_mixed_paths_text(m: ServerMetrics, text: Seq<char>)
    requires
        text == prefill_path_suffix(m),
    ensures
        holds_text(
            text,
            " prefill_path=ok_true:"@ + decimal(m.prefill_path_mixed_ok_true_total as nat),
        ),
        holds_text(text, ",ok_false:"@ + decimal(m.prefill_path_mixed_ok_false_total as nat)),
{
    lemma_sums_hold_their_parts();
    lemma_sums_hold_their_ends();
}

/// The summary says of the mixed path what the exposition shows.
pub proof fn law_summaries_agree_on_mixed_paths(m: ServerMetrics, text: Seq<char>)
    requires
        text == prefill_path_suffix(m),
    ensures
        said(
            text,
            m,
            "infer_prefill_path_mixed_batch_total"@,
            label_text("outcome"@, "ok_true"@),
            " prefill_path=ok_true:"@,
        ),
        said(
            text,
            m,
            "infer_prefill_path_mixed_batch_total"@,
            label_text("outcome"@, "ok_false"@),
            ",ok_false:"@,
        ),
{
    lemma_mixed_paths_text(m, text);
    lemma_outcome_readings(m);
}

proof fn lemma_speculation_text(m: ServerMetrics, text: Seq<char>)
    requires
        text == speculation_suffix(m),
    ensures
        holds_text(text, " spec=draft:"@ + decimal(m.spec_draft_tokens_total as nat)),
        holds_text(text, ",verified:"@ + decimal(m.spec_verified_tokens_total as nat)),
        holds_text(text, ",accepted:"@ + decimal(m.spec_accepted_tokens_total as nat)),
        holds_text(
            text,
            ",empty_sparse_views:"@ + decimal(m.spec_sparse_view_empty_total as nat),
        ),
        holds_text(
            text,
            ",accept_rate:"@ + fixed_text(
                times(ratio(m.spec_acceptance_rate_ppm as nat, 1_000_000), 100),
                1,
            ),
        ),
        holds_text(
            text,
            "%,step_latency_count:"@ + decimal(m.histograms.spec_step_latency_us@.count),
        ),
{
    lemma_sums_hold_their_parts();
    lemma_sums_hold_their_ends();
}

/// The summary says of speculative decoding what the exposition shows.
pub proof fn law_summaries_agree_on_speculation(m: ServerMetrics, text: Seq<char>)
    requires
        text == speculation_suffix(m),
    ensures
        said(text, m, "infer_spec_draft_tokens_total"@, Seq::empty(), " spec=draft:"@),
        said(text, m, "infer_spec_verified_tokens_total"@, Seq::empty(), ",verified:"@),
        said(text, m, "infer_spec_accepted_tokens_total"@, Seq::empty(), ",accepted:"@),
        said(
            text,
            m,
            "infer_spec_sparse_view_empty_total"@,
            Seq::empty(),
            ",empty_sparse_views:"@,
        ),
        said_share(text, m, "infer_spec_acceptance_rate"@, 6, ",accept_rate:"@, 100),
        holds_text(
            text,
            "%,step_latency_count:"@ + decimal(m.histograms.spec_step_latency_us@.count),
        ),
{
    lemma_speculation_text(m, text);
    lemma_speculation_readings(m);
}

#[verifier::rlimit(100)]
#[verifier::spinoff_prover]
proof fn lemma_coordinators_text(m: ServerMetrics, text: Seq<char>)
    requires
        text == queues(m),
    ensures
        holds_text(
            text,
            " kv_fetch_q="@ + decimal(m.kv_fetch_queue_depth as nat)
                + "/"@ + decimal(m.kv_coordinator_queue_capacity as nat),
        ),
        holds_text(text, " kv_fetch_waiters="@ + decimal(m.kv_fetch_waiters as nat)),
        holds_text(
            text,
            " kv_store_q="@ + decimal(m.kv_store_queue_depth as nat)
                + "/"@ + decimal(m.kv_coordinator_queue_capacity as nat),
        ),
        holds_text(text, " kv_store=sub:"@ + decimal(m.kv_store_submitted_total as nat)),
        holds_text(text, ",done:"@ + decimal(m.kv_store_completed_total as nat)),
        holds_text(text, ",fail:"@ + decimal(m.kv_store_failed_total as nat)),
        holds_text(text, ",rej:"@ + decimal(m.kv_store_rejected_total as nat)),
        holds_text(text, " kv_bp=fetch:"@ + decimal(flag(m.kv_fetch_backpressure != 0))),
        holds_text(text, ",store:"@ + decimal(flag(m.kv_store_backpressure != 0))),
{
    lemma_sums_hold_their_parts();
    lemma_sums_hold_their_ends();
}

/// The summary says of the coordinator what the exposition shows.
pub proof fn law_summaries_agree_on_coordinators(m: ServerMetrics, text: Seq<char>)
    requires
        text == queues(m),
    ensures
        said_both(
            text,
            m,
            "infer_kv_fetch_queue_depth"@,
            "infer_kv_coordinator_queue_capacity"@,
            " kv_fetch_q="@,
        ),
        said(text, m, "infer_kv_fetch_waiters"@, Seq::empty(), " kv_fetch_waiters="@),
        said_both(
            text,
            m,
            "infer_kv_store_queue_depth"@,
            "infer_kv_coordinator_queue_capacity"@,
            " kv_store_q="@,
        ),
        said(text, m, "infer_kv_store_submitted_total"@, Seq::empty(), " kv_store=sub:"@),
        said(text, m, "infer_kv_store_completed_total"@, Seq::empty(), ",done:"@),
        said(text, m, "infer_kv_store_failed_total"@, Seq::empty(), ",fail:"@),
        said(text, m, "infer_kv_store_rejected_total"@, Seq::empty(), ",rej:"@),
        m.kv_fetch_backpressure <= 1 ==> said(
            text,
            m,
            "infer_kv_fetch_backpressure"@,
            Seq::empty(),
            " kv_bp=fetch:"@,
        ),
        m.kv_store_backpressure <= 1 ==> said(
            text,
            m,
            "infer_kv_store_backpressure"@,
            Seq::empty(),
            ",store:"@,
        ),
{
    lemma_coordinators_text(m, text);
    lemma_kv_readings(m);
}

proof fn lemma_skips_text(m: ServerMetrics, text: Seq<char>)
    requires
        text == skip_suffix(m),
    ensures
        holds_text(
            text,
            " prefix_skip_rate="@ + fixed_text(
                times(
                    ratio(
                        m.prefix_reused_tokens_total as nat,
                        m.prefix_lookup_prompt_tokens_total as nat,
                    ),
                    100,
                ),
                1,
            ),
        ),
{
    lemma_sums_hold_their_parts();
    lemma_sums_hold_their_ends();
}

/// The summary says of the skip rate what the exposition shows.
pub proof fn law_summaries_agree_on_skips(m: ServerMetrics, text: Seq<char>)
    requires
        text == skip_suffix(m),
    ensures
        said_share(text, m, "infer_prefix_skip_rate"@, 4, " prefix_skip_rate="@, 100),
{
    lemma_skips_text(m, text);
    lemma_request_readings(m);
}

proof fn lemma_tiers_text(m: ServerMetrics, text: Seq<char>)
    requires
        text == tiers(m),
    ensures
        holds_text(
            text,
            " prefix_skip_rate="@ + fixed_text(
                times(
                    ratio(
                        m.prefix_reused_tokens_total as nat,
                        m.prefix_lookup_prompt_tokens_total as nat,
                    ),
                    100,
                ),
                1,
            ),
        ),
        holds_text(text, "% tier_recall="@ + fixed_text(times(recall_rate(m), 100), 1)),
        holds_text(
            text,
            "% tier_src=h:"@ + decimal(m.tier_fetch_staged_host_blocks_total as nat),
        ),
        holds_text(text, "/d:"@ + decimal(m.tier_fetch_staged_disk_blocks_total as nat)),
        holds_text(text, "/r:"@ + decimal(m.tier_fetch_staged_remote_blocks_total as nat)),
        holds_text(text, " tier_promoted="@ + decimal(m.tier_fetch_promoted_blocks_total as nat)),
        holds_text(text, " tier_fallback="@ + decimal(m.tier_fetch_fallback_total as nat)),
{
    lemma_sums_hold_their_parts();
    lemma_sums_hold_their_ends();
}

/// The summary says of staged fetches what the exposition shows.
pub proof fn law_summaries_agree_on_tiers(m: ServerMetrics, text: Seq<char>)
    requires
        text == tiers(m),
    ensures
        said_share(text, m, "infer_prefix_skip_rate"@, 4, " prefix_skip_rate="@, 100),
        said_share(text, m, "infer_tier_fetch_recall_rate"@, 4, "% tier_recall="@, 100),
        said(
            text,
            m,
            "infer_tier_fetch_staged_host_blocks_total"@,
            Seq::empty(),
            "% tier_src=h:"@,
        ),
        said(text, m, "infer_tier_fetch_staged_disk_blocks_total"@, Seq::empty(), "/d:"@),
        said(text, m, "infer_tier_fetch_staged_remote_blocks_total"@, Seq::empty(), "/r:"@),
        said(
            text,
            m,
            "infer_tier_fetch_promoted_blocks_total"@,
            Seq::empty(),
            " tier_promoted="@,
        ),
        said(text, m, "infer_tier_fetch_fallback_total"@, Seq::empty(), " tier_fallback="@),
{
    lemma_tiers_text(m, text);
    lemma_request_readings(m);
    lemma_tier_readings(m);
}

#[verifier::rlimit(100)]
#[verifier::spinoff_prover]
proof fn lemma_reuse_text(m: ServerMetrics, text: Seq<char>)
    requires
        text == cache_suffix(m),
    ensures
        holds_text(
            text,
            " prefix_request_hit_rate="@ + fixed_text(
                times(ratio(m.prefix_request_hit_ppm as nat, 1_000_000), 100),
                1,
            ),
        ),
        holds_text(
            text,
            "% prefix_request_skip_rate="@ + fixed_text(
                times(ratio(m.prefix_request_skip_ppm as nat, 1_000_000), 100),
                1,
            ),
        ),
        holds_text(
            text,
            "% session_affinity_hit="@ + decimal(m.session_affinity_hit_total as nat),
        ),
        holds_text(
            text,
            " session_affinity_miss="@ + decimal(m.session_affinity_miss_total as nat),
        ),
        holds_text(
            text,
            " session_slot_pressure_evictions_hard="@ + decimal(m.session_slot_pressure_evictions_hard_total as nat),
        ),
        holds_text(
            text,
            " prefix_aware_admit_deferrals="@ + decimal(m.prefix_aware_admit_deferrals_total as nat),
        ),
        holds_text(text, " matched_prefix_tokens="@ + decimal(m.matched_prefix_tokens as nat)),
        holds_text(text, " resume_prefill_tokens="@ + decimal(m.resume_prefill_tokens as nat)),
        holds_text(
            text,
            " prefix_lookup_latency_us="@ + decimal(m.prefix_lookup_latency_us as nat),
        ),
        holds_text(
            text,
            " prefix_lookup_reusable_tokens="@ + decimal(m.prefix_lookup_reusable_tokens as nat),
        ),
        holds_text(
            text,
            " prefix_lookup_ready_on_gpu="@ + decimal(flag(m.prefix_lookup_ready_on_gpu != 0)),
        ),
        holds_text(
            text,
            " prefix_lookup_direct_gpu_attach="@ + decimal(flag(m.prefix_lookup_direct_gpu_attach != 0)),
        ),
        holds_text(text, " prefix_lookup_staged="@ + decimal(flag(m.prefix_lookup_staged != 0))),
        holds_text(
            text,
            " prefix_lookup_prefetch="@ + decimal(flag(m.prefix_lookup_prefetch != 0)),
        ),
        holds_text(
            text,
            " prefix_lookup_recompute="@ + decimal(flag(m.prefix_lookup_recompute != 0)),
        ),
{
    lemma_sums_hold_their_parts();
    lemma_sums_hold_their_ends();
}

/// The summary says of prefix reuse what the exposition shows.
pub proof fn law_summaries_agree_on_reuse(m: ServerMetrics, text: Seq<char>)
    requires
        text == cache_suffix(m),
    ensures
        said_share(
            text,
            m,
            "infer_prefix_request_hit_rate"@,
            4,
            " prefix_request_hit_rate="@,
            100,
        ),
        said_share(
            text,
            m,
            "infer_prefix_request_skip_rate"@,
            4,
            "% prefix_request_skip_rate="@,
            100,
        ),
        said(
            text,
            m,
            "infer_session_affinity_hit_total"@,
            Seq::empty(),
            "% session_affinity_hit="@,
        ),
        said(
            text,
            m,
            "infer_session_affinity_miss_total"@,
            Seq::empty(),
            " session_affinity_miss="@,
        ),
        said(
            text,
            m,
            "infer_session_slot_pressure_evictions_hard_total"@,
            Seq::empty(),
            " session_slot_pressure_evictions_hard="@,
        ),
        said(
            text,
            m,
            "infer_prefix_aware_admit_deferrals_total"@,
            Seq::empty(),
            " prefix_aware_admit_deferrals="@,
        ),
        said(text, m, "infer_matched_prefix_tokens"@, Seq::empty(), " matched_prefix_tokens="@),
        said(text, m, "infer_resume_prefill_tokens"@, Seq::empty(), " resume_prefill_tokens="@),
        said(
            text,
            m,
            "infer_prefix_lookup_latency_microseconds"@,
            Seq::empty(),
            " prefix_lookup_latency_us="@,
        ),
        said(
            text,
            m,
            "infer_prefix_lookup_reusable_tokens"@,
            Seq::empty(),
            " prefix_lookup_reusable_tokens="@,
        ),
        said(
            text,
            m,
            "infer_prefix_lookup_ready_on_gpu"@,
            Seq::empty(),
            " prefix_lookup_ready_on_gpu="@,
        ),
        said(
            text,
            m,
            "infer_prefix_lookup_direct_gpu_attach"@,
            Seq::empty(),
            " prefix_lookup_direct_gpu_attach="@,
        ),
        said(text, m, "infer_prefix_lookup_staged"@, Seq::empty(), " prefix_lookup_staged="@),
        said(
            text,
            m,
            "infer_prefix_lookup_prefetch"@,
            Seq::empty(),
            " prefix_lookup_prefetch="@,
        ),
        said(
            text,
            m,
            "infer_prefix_lookup_recompute"@,
            Seq::empty(),
            " prefix_lookup_recompute="@,
        ),
{
    lemma_reuse_text(m, text);
    lemma_request_readings(m);
    lemma_lookup_readings(m);
}

proof fn lemma_telemetry_text(m: ServerMetrics, text: Seq<char>, timestamp_ms: u64)
    requires
        text == telemetry_suffix(m, timestamp_ms),
    ensures
        holds_text(text, " engine_ttft_us="@ + micros_text(quantile(m.histograms.ttft@, p50()))),
        holds_text(
            text,
            " engine_itl_p50_us="@ + micros_text(quantile(m.histograms.tpot@, p50())),
        ),
        holds_text(
            text,
            " engine_itl_p99_us="@ + micros_text(quantile(m.histograms.tpot@, p99())),
        ),
        holds_text(text, " engine_queue_depth="@ + decimal(clamped(m.requests_waiting) as nat)),
        holds_text(
            text,
            " engine_active_requests="@ + decimal(clamped(m.requests_active) as nat),
        ),
        holds_text(text, " engine_batch_occupancy="@ + fixed_text(utilization(m), 4)),
        holds_text(text, " engine_timestamp_ms="@ + decimal(timestamp_ms as nat)),
{
    lemma_sums_hold_their_parts();
    lemma_sums_hold_their_ends();
}

/// The summary says of telemetry what the exposition shows.
pub proof fn law_summaries_agree_on_telemetry(m: ServerMetrics, text: Seq<char>, timestamp_ms: u64)
    requires
        text == telemetry_suffix(m, timestamp_ms),
    ensures
        holds_text(
            text,
            " engine_ttft_us="@ + micros_text(quantile(m.histograms.ttft@, p50())),
        ),
        holds_text(
            text,
            " engine_itl_p50_us="@ + micros_text(quantile(m.histograms.tpot@, p50())),
        ),
        holds_text(
            text,
            " engine_itl_p99_us="@ + micros_text(quantile(m.histograms.tpot@, p99())),
        ),
        holds_text(text, " engine_queue_depth="@ + decimal(clamped(m.requests_waiting) as nat)),
        holds_text(
            text,
            " engine_active_requests="@ + decimal(clamped(m.requests_active) as nat),
        ),
        reads(m, "infer_kv_gpu_utilization"@, Seq::empty(), fixed_text(utilization(m), 4)),
        holds_text(text, " engine_batch_occupancy="@ + fixed_text(utilization(m), 4)),
        holds_text(text, " engine_timestamp_ms="@ + decimal(timestamp_ms as nat)),
{
    lemma_telemetry_text(m, text, timestamp_ms);
    lemma_kv_readings(m);
}

#[verifier::rlimit(100)]
#[verifier::spinoff_prover]
proof fn lemma_requests_text(m: ServerMetrics, text: Seq<char>, timestamp_ms: u64)
    requires
        text == summary_text(m, timestamp_ms),
    ensures
        holds_text(text, "requests="@ + decimal(m.requests_total as nat)),
        holds_text(text, " active="@ + decimal(m.requests_active as nat)),
        holds_text(text, " waiting="@ + decimal(m.requests_waiting as nat)),
        holds_text(text, " scheduled="@ + decimal(m.scheduler_scheduled_rows as nat)),
        holds_text(text, " decode_rows="@ + decimal(m.scheduler_scheduled_decode_rows as nat)),
        holds_text(text, " prefill_rows="@ + decimal(m.scheduler_scheduled_prefill_rows as nat)),
        holds_text(text, " running_batch="@ + decimal(m.scheduler_running_batch as nat)),
        holds_text(text, " prefill_queue="@ + decimal(m.scheduler_prefill_queue as nat)),
        holds_text(text, " batch_width="@ + decimal(m.scheduler_batch_width as nat)),
        holds_text(text, " decode_tokens="@ + decimal(m.scheduler_decode_tokens as nat)),
        holds_text(text, " prefill_tokens="@ + decimal(m.scheduler_prefill_tokens as nat)),
        holds_text(text, " tokens_out="@ + decimal(m.tokens_generated_total as nat)),
        holds_text(
            text,
            " step_last="@ + fixed_text(
                times(ratio(m.scheduler_step_last_us as nat, 1_000_000), 1_000),
                1,
            ),
        ),
        holds_text(
            text,
            "ms step_p50="@ + millis_text(quantile(m.histograms.scheduler_step@, p50())),
        ),
        holds_text(
            text,
            " tier_fetch_wait="@ + fixed_text(
                times(ratio(m.tier_fetch_wait_us as nat, 1_000_000), 1_000),
                1,
            ),
        ),
        holds_text(
            text,
            "ms tier_store_wait="@ + fixed_text(
                times(ratio(m.tier_store_wait_us as nat, 1_000_000), 1_000),
                1,
            ),
        ),
        holds_text(text, "ms kv_util="@ + fixed_text(times(utilization(m), 100), 1)),
        holds_text(
            text,
            "% prefix_hit_rate="@ + fixed_text(
                times(ratio(m.prefix_hits_total as nat, m.prefix_lookups_total as nat), 100),
                1,
            ),
        ),
        holds_text(
            text,
            "% active_mem="@ + fixed_text(ratio(m.memory_active_bytes as nat, 1_048_576), 1),
        ),
        holds_text(
            text,
            "MB peak_mem="@ + fixed_text(ratio(m.memory_peak_bytes as nat, 1_048_576), 1),
        ),
        holds_text(
            text,
            "MB cache_mem="@ + fixed_text(ratio(m.memory_cache_bytes as nat, 1_048_576), 1),
        ),
        holds_text(
            text,
            "MB queue_p50="@ + millis_text(quantile(m.histograms.queue_wait@, p50())),
        ),
        holds_text(
            text,
            " active_ttft_p50="@ + millis_text(quantile(m.histograms.active_ttft@, p50())),
        ),
        holds_text(text, " ttft_p50="@ + millis_text(quantile(m.histograms.ttft@, p50()))),
        holds_text(text, " ttft_p99="@ + millis_text(quantile(m.histograms.ttft@, p99()))),
        holds_text(text, " service_p50="@ + millis_text(quantile(m.histograms.service@, p50()))),
        holds_text(text, " tpot_p50="@ + millis_text(quantile(m.histograms.tpot@, p50()))),
{
    lemma_sums_hold_their_parts();
    lemma_sums_hold_their_ends();
}

/// The summary says of requests, tokens, waits and memory what the exposition shows.
pub proof fn law_summaries_agree_on_requests(m: ServerMetrics, text: Seq<char>, timestamp_ms: u64)
    requires
        text == summary_text(m, timestamp_ms),
    ensures
        said(text, m, "infer_requests_total"@, Seq::empty(), "requests="@),
        said(text, m, "infer_requests_active"@, Seq::empty(), " active="@),
        said(text, m, "infer_requests_waiting"@, Seq::empty(), " waiting="@),
        said(text, m, "infer_scheduler_scheduled_rows"@, Seq::empty(), " scheduled="@),
        said(text, m, "infer_scheduler_scheduled_decode_rows"@, Seq::empty(), " decode_rows="@),
        said(
            text,
            m,
            "infer_scheduler_scheduled_prefill_rows"@,
            Seq::empty(),
            " prefill_rows="@,
        ),
        said(text, m, "infer_scheduler_running_batch"@, Seq::empty(), " running_batch="@),
        said(text, m, "infer_scheduler_prefill_queue"@, Seq::empty(), " prefill_queue="@),
        said(text, m, "infer_scheduler_batch_width"@, Seq::empty(), " batch_width="@),
        said(text, m, "infer_scheduler_decode_tokens"@, Seq::empty(), " decode_tokens="@),
        said(text, m, "infer_scheduler_prefill_tokens"@, Seq::empty(), " prefill_tokens="@),
        said(text, m, "infer_tokens_generated_total"@, Seq::empty(), " tokens_out="@),
        said_share(text, m, "infer_scheduler_step_last_seconds"@, 6, " step_last="@, 1_000),
        holds_text(
            text,
            "ms step_p50="@ + millis_text(quantile(m.histograms.scheduler_step@, p50())),
        ),
        said_share(text, m, "infer_tier_fetch_wait_seconds"@, 6, " tier_fetch_wait="@, 1_000),
        said_share(text, m, "infer_tier_store_wait_seconds"@, 6, "ms tier_store_wait="@, 1_000),
        said_share(text, m, "infer_kv_gpu_utilization"@, 4, "ms kv_util="@, 100),
        said_share(text, m, "infer_prefix_hit_rate"@, 4, "% prefix_hit_rate="@, 100),
        holds_text(
            text,
            "% active_mem="@ + fixed_text(ratio(m.memory_active_bytes as nat, 1_048_576), 1),
        ),
        holds_text(
            text,
            "MB peak_mem="@ + fixed_text(ratio(m.memory_peak_bytes as nat, 1_048_576), 1),
        ),
        holds_text(
            text,
            "MB cache_mem="@ + fixed_text(ratio(m.memory_cache_bytes as nat, 1_048_576), 1),
        ),
        holds_text(
            text,
            "MB queue_p50="@ + millis_text(quantile(m.histograms.queue_wait@, p50())),
        ),
        holds_text(
            text,
            " active_ttft_p50="@ + millis_text(quantile(m.histograms.active_ttft@, p50())),
        ),
        holds_text(text, " ttft_p50="@ + millis_text(quantile(m.histograms.ttft@, p50()))),
        holds_text(text, " ttft_p99="@ + millis_text(quantile(m.histograms.ttft@, p99()))),
        holds_text(
            text,
            " service_p50="@ + millis_text(quantile(m.histograms.service@, p50())),
        ),
        holds_text(text, " tpot_p50="@ + millis_text(quantile(m.histograms.tpot@, p50()))),
{
    lemma_requests_text(m, text, timestamp_ms);
    lemma_request_readings(m);
    lemma_scheduler_readings(m);
    lemma_kv_readings(m);
}

/// The summary has all its parts: the phases once there are any, speculative blocks
/// and the coordinator where there are any, and the staged fetches or else the skip
/// rate alone.
#[verifier::rlimit(100)]
#[verifier::spinoff_prover]
pub proof fn law_summaries_have_all_parts(m: ServerMetrics, timestamp_ms: u64)
    ensures
        ({
            let text = summary_text(m, timestamp_ms);
            let staged = m.tier_fetch_staged_host_blocks_total
                + m.tier_fetch_staged_disk_blocks_total + m.tier_fetch_staged_remote_blocks_total;
            &&& m.scheduler_step_phase_samples > 0 ==> holds_text(text, phases_suffix(m))
            &&& m.scheduler_step_phase_samples == 0 ==> holds_text(
                text,
                " step_phase_us=unavailable"@,
            )
            &&& holds_text(text, plan_suffix(m))
            &&& holds_text(text, prefill_path_suffix(m))
            &&& holds_text(text, speculation_suffix(m))
            &&& holds_text(text, pipeline_suffix(m))
            &&& holds_text(text, metal_suffix(m))
            &&& m.dflash_blocks_total > 0 ==> holds_text(text, draft_blocks(m))
            &&& staged > 0 || m.tier_fetch_fallback_total > 0 ==> holds_text(text, tiers(m))
            &&& staged == 0 && m.tier_fetch_fallback_total == 0 ==> holds_text(
                text,
                skip_suffix(m),
            )
            &&& holds_text(text, cache_suffix(m))
            &&& m.kv_coordinator_queue_capacity > 0 ==> holds_text(text, queues(m))
            &&& holds_text(text, telemetry_suffix(m, timestamp_ms))
        }),
{
    lemma_sums_hold_their_parts();
}

} // verus!
