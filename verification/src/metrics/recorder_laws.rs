//! What the recorders make of the exposition: every count and every gauge follows
//! its own recorder, and nothing else does.

use vstd::prelude::*;

use crate::double::{fixed_text, ratio, rounded, times};
use crate::metrics::exposition::label_text;
use crate::metrics::histogram::{HistogramSet, HistogramView};
use crate::metrics::laws::law_parts_do_not_exceed_a_million;
use crate::metrics::recording::{
    after_active, after_detokenizer_topology, after_dflash_block, after_h2d_latency_us,
    after_kv_coordinator, after_kv_gpu_blocks, after_memory_bytes, after_metal_decode_batch,
    after_metal_decode_batch_fallback, after_metal_decode_scalar_row,
    after_metal_qwen35_packed_decode_batch, after_numa_migration, after_numa_rebalance,
    after_numa_route, after_prefill_path_mixed_ok_true, after_prefix_aware_admit_deferral,
    after_prefix_lookup_detail, after_prefix_lookup_prefetch_queued, after_preprocess_stage,
    after_preprocess_topology, after_request_failed, after_runtime_topology,
    after_scheduler_cpu_plan_accept, after_scheduler_cpu_plan_stale,
    after_scheduler_loop_phase_us, after_scheduler_occupancy, after_scheduler_pipeline_us,
    after_scheduler_plan, after_scheduler_step, after_scheduler_step_phase_us,
    after_session_slot_pressure_evictions_hard, after_spec_sparse_view_empty,
    after_tier_fetch_fallback, after_tier_fetch_plan, after_tier_fetch_promoted,
    after_tier_wait_seconds, after_waiting, is_observed_step, is_spec_step,
};
use crate::metrics::samples::{
    grows, lemma_decode_readings, lemma_kv_readings, lemma_lookup_readings,
    lemma_outcome_readings, lemma_phase_readings, lemma_pipeline_readings,
    lemma_placement_readings, lemma_request_readings, lemma_scheduler_readings,
    lemma_speculation_readings, lemma_tier_readings, reads,
};
use crate::metrics::server::{after_fallback, fallback_count, SchedulerPlanLabel, ServerMetrics};
use crate::metrics::topology::{
    local_pages, AffinityApplyResult, NumaMemoryStats, RuntimeTopology, RuntimeTopologyMetrics,
    WorkerPlacement,
};
use crate::model::requests::{law_labels_name_reasons, reason_label, MixedBatchFallbackReason};
use crate::text::{decimal, signed_decimal};

verus! {

/// One for what holds, zero for what does not.
pub open spec fn one_if(b: bool) -> nat {
    if b {
        1
    } else {
        0
    }
}

/// A number, or the limit where the number exceeds it.
pub open spec fn capped(n: nat, limit: nat) -> nat {
    if n <= limit {
        n
    } else {
        limit
    }
}

/// The number that a node is shown with: -1 for none.
pub open spec fn node_number(node: Option<i32>) -> int {
    match node {
        Some(n) => n as int,
        None => -1,
    }
}

/// A failed request raises the count of failed requests by one, and nothing else.
pub proof fn law_failed_requests_are_counted(m: ServerMetrics, after: ServerMetrics)
    requires
        after == after_request_failed(m),
    ensures
        after == (ServerMetrics {
            requests_failed_total: after.requests_failed_total,
            ..m
        }),
        m.requests_failed_total < u64::MAX ==> grows(
            m,
            after,
            "infer_requests_failed_total"@,
            Seq::empty(),
            1,
        ),
{
    lemma_request_readings(m);
    lemma_request_readings(after);
}

/// The exposition shows the most recent lookup: its matched and reusable tokens,
/// never more than the prompt, its latency and its outcome.
pub proof fn law_lookups_are_shown(
    m: ServerMetrics,
    after: ServerMetrics,
    prompt_tokens: usize,
    matched_prefix_tokens: usize,
    reusable_tokens: usize,
    lookup_latency_us: u64,
    ready_on_gpu: bool,
    direct_gpu_attach: bool,
    staged: bool,
    prefetch: bool,
    recompute: bool,
)
    requires
        after == after_prefix_lookup_detail(
            m,
            prompt_tokens,
            matched_prefix_tokens,
            reusable_tokens,
            lookup_latency_us,
            ready_on_gpu,
            direct_gpu_attach,
            staged,
            prefetch,
            recompute,
        ),
    ensures
        after == (ServerMetrics {
            matched_prefix_tokens: after.matched_prefix_tokens,
            prefix_lookup_reusable_tokens: after.prefix_lookup_reusable_tokens,
            prefix_lookup_latency_us: after.prefix_lookup_latency_us,
            prefix_request_hit_ppm: after.prefix_request_hit_ppm,
            prefix_request_skip_ppm: after.prefix_request_skip_ppm,
            prefix_lookup_ready_on_gpu: after.prefix_lookup_ready_on_gpu,
            prefix_lookup_direct_gpu_attach: after.prefix_lookup_direct_gpu_attach,
            prefix_lookup_staged: after.prefix_lookup_staged,
            prefix_lookup_prefetch: after.prefix_lookup_prefetch,
            prefix_lookup_recompute: after.prefix_lookup_recompute,
            ..m
        }),
        reads(
            after,
            "infer_matched_prefix_tokens"@,
            Seq::empty(),
            decimal(capped(matched_prefix_tokens as nat, prompt_tokens as nat)),
        ),
        reads(
            after,
            "infer_prefix_lookup_reusable_tokens"@,
            Seq::empty(),
            decimal(capped(reusable_tokens as nat, prompt_tokens as nat)),
        ),
        reads(
            after,
            "infer_prefix_lookup_latency_microseconds"@,
            Seq::empty(),
            decimal(lookup_latency_us as nat),
        ),
        reads(
            after,
            "infer_prefix_lookup_ready_on_gpu"@,
            Seq::empty(),
            decimal(one_if(ready_on_gpu)),
        ),
        reads(
            after,
            "infer_prefix_lookup_direct_gpu_attach"@,
            Seq::empty(),
            decimal(one_if(direct_gpu_attach)),
        ),
        reads(after, "infer_prefix_lookup_staged"@, Seq::empty(), decimal(one_if(staged))),
        reads(after, "infer_prefix_lookup_prefetch"@, Seq::empty(), decimal(one_if(prefetch))),
        reads(
            after,
            "infer_prefix_lookup_recompute"@,
            Seq::empty(),
            decimal(one_if(recompute)),
        ),
{
    lemma_request_readings(m);
    lemma_request_readings(after);
    lemma_lookup_readings(m);
    lemma_lookup_readings(after);
}

/// A queued prefetch shows in the flag of the most recent lookup, and nowhere
/// else.
pub proof fn law_queued_prefetches_are_shown(m: ServerMetrics, after: ServerMetrics)
    requires
        after == after_prefix_lookup_prefetch_queued(m),
    ensures
        after == (ServerMetrics {
            prefix_lookup_prefetch: after.prefix_lookup_prefetch,
            ..m
        }),
        reads(after, "infer_prefix_lookup_prefetch"@, Seq::empty(), decimal(1)),
{
    lemma_lookup_readings(m);
    lemma_lookup_readings(after);
}

/// Staged blocks raise the counts of the tiers that hold them.
pub proof fn law_staged_blocks_are_counted_by_tier(
    m: ServerMetrics,
    after: ServerMetrics,
    host_blocks: usize,
    disk_blocks: usize,
    remote_blocks: usize,
)
    requires
        after == after_tier_fetch_plan(m, host_blocks, disk_blocks, remote_blocks),
    ensures
        after == (ServerMetrics {
            tier_fetch_staged_host_blocks_total: after.tier_fetch_staged_host_blocks_total,
            tier_fetch_staged_disk_blocks_total: after.tier_fetch_staged_disk_blocks_total,
            tier_fetch_staged_remote_blocks_total: after.tier_fetch_staged_remote_blocks_total,
            ..m
        }),
        m.tier_fetch_staged_host_blocks_total + host_blocks <= u64::MAX ==> grows(
            m,
            after,
            "infer_tier_fetch_staged_host_blocks_total"@,
            Seq::empty(),
            host_blocks as nat,
        ),
        m.tier_fetch_staged_disk_blocks_total + disk_blocks <= u64::MAX ==> grows(
            m,
            after,
            "infer_tier_fetch_staged_disk_blocks_total"@,
            Seq::empty(),
            disk_blocks as nat,
        ),
        m.tier_fetch_staged_remote_blocks_total + remote_blocks <= u64::MAX ==> grows(
            m,
            after,
            "infer_tier_fetch_staged_remote_blocks_total"@,
            Seq::empty(),
            remote_blocks as nat,
        ),
{
    lemma_tier_readings(m);
    lemma_tier_readings(after);
}

/// Promoted blocks raise the count of promoted blocks.
pub proof fn law_promoted_blocks_are_counted(
    m: ServerMetrics,
    after: ServerMetrics,
    promoted_blocks: usize,
)
    requires
        after == after_tier_fetch_promoted(m, promoted_blocks),
    ensures
        after == (ServerMetrics {
            tier_fetch_promoted_blocks_total: after.tier_fetch_promoted_blocks_total,
            ..m
        }),
        m.tier_fetch_promoted_blocks_total + promoted_blocks <= u64::MAX ==> grows(
            m,
            after,
            "infer_tier_fetch_promoted_blocks_total"@,
            Seq::empty(),
            promoted_blocks as nat,
        ),
{
    lemma_tier_readings(m);
    lemma_tier_readings(after);
}

/// A fallback to cold prefill raises the count of fallbacks.
pub proof fn law_staged_fallbacks_are_counted(m: ServerMetrics, after: ServerMetrics)
    requires
        after == after_tier_fetch_fallback(m),
    ensures
        after == (ServerMetrics {
            tier_fetch_fallback_total: after.tier_fetch_fallback_total,
            ..m
        }),
        m.tier_fetch_fallback_total < u64::MAX ==> grows(
            m,
            after,
            "infer_tier_fetch_fallback_total"@,
            Seq::empty(),
            1,
        ),
{
    lemma_tier_readings(m);
    lemma_tier_readings(after);
}

/// Evicted slots raise the count of evictions under hard pressure.
pub proof fn law_evictions_are_counted(m: ServerMetrics, after: ServerMetrics, slots: usize)
    requires
        after == after_session_slot_pressure_evictions_hard(m, slots),
    ensures
        after == (ServerMetrics {
            session_slot_pressure_evictions_hard_total: after.session_slot_pressure_evictions_hard_total,
            ..m
        }),
        m.session_slot_pressure_evictions_hard_total + slots <= u64::MAX ==> grows(
            m,
            after,
            "infer_session_slot_pressure_evictions_hard_total"@,
            Seq::empty(),
            slots as nat,
        ),
{
    lemma_request_readings(m);
    lemma_request_readings(after);
}

/// A deferred request raises the count of deferrals.
pub proof fn law_deferrals_are_counted(m: ServerMetrics, after: ServerMetrics)
    requires
        after == after_prefix_aware_admit_deferral(m),
    ensures
        after == (ServerMetrics {
            prefix_aware_admit_deferrals_total: after.prefix_aware_admit_deferrals_total,
            ..m
        }),
        m.prefix_aware_admit_deferrals_total < u64::MAX ==> grows(
            m,
            after,
            "infer_prefix_aware_admit_deferrals_total"@,
            Seq::empty(),
            1,
        ),
{
    lemma_request_readings(m);
    lemma_request_readings(after);
}

/// The exposition shows the number of running requests.
pub proof fn law_active_requests_are_shown(m: ServerMetrics, after: ServerMetrics, n: u64)
    requires
        after == after_active(m, n),
    ensures
        after == (ServerMetrics {
            requests_active: after.requests_active,
            ..m
        }),
        reads(after, "infer_requests_active"@, Seq::empty(), decimal(n as nat)),
{
    lemma_scheduler_readings(m);
    lemma_scheduler_readings(after);
}

/// The exposition shows the number of queued requests.
pub proof fn law_waiting_requests_are_shown(m: ServerMetrics, after: ServerMetrics, n: u64)
    requires
        after == after_waiting(m, n),
    ensures
        after == (ServerMetrics {
            requests_waiting: after.requests_waiting,
            ..m
        }),
        reads(after, "infer_requests_waiting"@, Seq::empty(), decimal(n as nat)),
{
    lemma_scheduler_readings(m);
    lemma_scheduler_readings(after);
}

/// The exposition shows the queue occupancy of the scheduler.
pub proof fn law_occupancy_is_shown(
    m: ServerMetrics,
    after: ServerMetrics,
    running_batch: u64,
    prefill_queue: u64,
)
    requires
        after == after_scheduler_occupancy(m, running_batch, prefill_queue),
    ensures
        after == (ServerMetrics {
            scheduler_running_batch: after.scheduler_running_batch,
            scheduler_prefill_queue: after.scheduler_prefill_queue,
            ..m
        }),
        reads(
            after,
            "infer_scheduler_running_batch"@,
            Seq::empty(),
            decimal(running_batch as nat),
        ),
        reads(
            after,
            "infer_scheduler_prefill_queue"@,
            Seq::empty(),
            decimal(prefill_queue as nat),
        ),
{
    lemma_scheduler_readings(m);
    lemma_scheduler_readings(after);
}

/// The exposition shows the rows, tokens and width of the most recent tick.
pub proof fn law_ticks_are_shown(
    m: ServerMetrics,
    after: ServerMetrics,
    scheduled_rows: u64,
    scheduled_decode_rows: u64,
    scheduled_prefill_rows: u64,
    decode_tokens: u64,
    prefill_tokens: u64,
    batch_width: u64,
)
    requires
        after == after_scheduler_step(
            m,
            scheduled_rows,
            scheduled_decode_rows,
            scheduled_prefill_rows,
            decode_tokens,
            prefill_tokens,
            batch_width,
        ),
    ensures
        after == (ServerMetrics {
            scheduler_scheduled_rows: after.scheduler_scheduled_rows,
            scheduler_scheduled_decode_rows: after.scheduler_scheduled_decode_rows,
            scheduler_scheduled_prefill_rows: after.scheduler_scheduled_prefill_rows,
            scheduler_decode_tokens: after.scheduler_decode_tokens,
            scheduler_prefill_tokens: after.scheduler_prefill_tokens,
            scheduler_batch_width: after.scheduler_batch_width,
            ..m
        }),
        reads(
            after,
            "infer_scheduler_scheduled_rows"@,
            Seq::empty(),
            decimal(scheduled_rows as nat),
        ),
        reads(
            after,
            "infer_scheduler_scheduled_decode_rows"@,
            Seq::empty(),
            decimal(scheduled_decode_rows as nat),
        ),
        reads(
            after,
            "infer_scheduler_scheduled_prefill_rows"@,
            Seq::empty(),
            decimal(scheduled_prefill_rows as nat),
        ),
        reads(
            after,
            "infer_scheduler_decode_tokens"@,
            Seq::empty(),
            decimal(decode_tokens as nat),
        ),
        reads(
            after,
            "infer_scheduler_prefill_tokens"@,
            Seq::empty(),
            decimal(prefill_tokens as nat),
        ),
        reads(after, "infer_scheduler_batch_width"@, Seq::empty(), decimal(batch_width as nat)),
{
    lemma_scheduler_readings(m);
    lemma_scheduler_readings(after);
}

/// The exposition shows the averaged phases of a tick, each under its own name.
pub proof fn law_phases_are_shown(
    m: ServerMetrics,
    after: ServerMetrics,
    admission_us: u64,
    prefill_us: u64,
    decode_us: u64,
    emit_us: u64,
    total_us: u64,
)
    requires
        after == after_scheduler_step_phase_us(
            m,
            admission_us,
            prefill_us,
            decode_us,
            emit_us,
            total_us,
        ),
        m.scheduler_step_phase_samples < u64::MAX,
    ensures
        after == (ServerMetrics {
            scheduler_step_admission_us: after.scheduler_step_admission_us,
            scheduler_step_prefill_us: after.scheduler_step_prefill_us,
            scheduler_step_decode_us: after.scheduler_step_decode_us,
            scheduler_step_emit_us: after.scheduler_step_emit_us,
            scheduler_step_total_us: after.scheduler_step_total_us,
            scheduler_step_phase_samples: after.scheduler_step_phase_samples,
            ..m
        }),
        reads(
            after,
            "infer_scheduler_step_phase_admission_microseconds"@,
            Seq::empty(),
            decimal(admission_us as nat),
        ),
        reads(
            after,
            "infer_scheduler_step_phase_prefill_microseconds"@,
            Seq::empty(),
            decimal(prefill_us as nat),
        ),
        reads(
            after,
            "infer_scheduler_step_phase_decode_microseconds"@,
            Seq::empty(),
            decimal(decode_us as nat),
        ),
        reads(
            after,
            "infer_scheduler_step_phase_emit_microseconds"@,
            Seq::empty(),
            decimal(emit_us as nat),
        ),
        reads(
            after,
            "infer_scheduler_step_phase_total_microseconds"@,
            Seq::empty(),
            decimal(total_us as nat),
        ),
{
    lemma_phase_readings(after);
}

/// The exposition shows the averaged cleanup and loop durations once phases have
/// been sampled.
pub proof fn law_loops_are_shown(
    m: ServerMetrics,
    after: ServerMetrics,
    cleanup_us: u64,
    loop_total_us: u64,
)
    requires
        after == after_scheduler_loop_phase_us(m, cleanup_us, loop_total_us),
        m.scheduler_step_phase_samples != 0,
    ensures
        after == (ServerMetrics {
            scheduler_step_cleanup_us: after.scheduler_step_cleanup_us,
            scheduler_loop_total_us: after.scheduler_loop_total_us,
            ..m
        }),
        reads(
            after,
            "infer_scheduler_step_cleanup_microseconds"@,
            Seq::empty(),
            decimal(cleanup_us as nat),
        ),
        reads(
            after,
            "infer_scheduler_loop_total_microseconds"@,
            Seq::empty(),
            decimal(loop_total_us as nat),
        ),
{
    lemma_phase_readings(after);
}

/// The exposition shows the queue and the durations of preprocessing.
pub proof fn law_preprocessing_is_shown(
    m: ServerMetrics,
    after: ServerMetrics,
    queue_depth: u64,
    wait_us: u64,
    tokenize_us: u64,
)
    requires
        after == after_preprocess_stage(m, queue_depth, wait_us, tokenize_us),
    ensures
        after == (ServerMetrics {
            preprocess_queue_depth: after.preprocess_queue_depth,
            preprocess_wait_us: after.preprocess_wait_us,
            preprocess_tokenize_us: after.preprocess_tokenize_us,
            ..m
        }),
        reads(
            after,
            "infer_preprocess_queue_depth"@,
            Seq::empty(),
            decimal(queue_depth as nat),
        ),
        reads(
            after,
            "infer_preprocess_wait_microseconds"@,
            Seq::empty(),
            decimal(wait_us as nat),
        ),
        reads(
            after,
            "infer_preprocess_tokenize_microseconds"@,
            Seq::empty(),
            decimal(tokenize_us as nat),
        ),
{
    lemma_pipeline_readings(m);
    lemma_pipeline_readings(after);
}

/// The exposition shows the pipeline durations and the depth of the command queue.
pub proof fn law_pipelines_are_shown(
    m: ServerMetrics,
    after: ServerMetrics,
    snapshot_us: u64,
    cpu_plan_us: u64,
    gpu_completion_wait_us: u64,
    gpu_command_queue_depth: u64,
)
    requires
        after == after_scheduler_pipeline_us(
            m,
            snapshot_us,
            cpu_plan_us,
            gpu_completion_wait_us,
            gpu_command_queue_depth,
        ),
    ensures
        after == (ServerMetrics {
            scheduler_pipeline_snapshot_us: after.scheduler_pipeline_snapshot_us,
            scheduler_pipeline_cpu_plan_us: after.scheduler_pipeline_cpu_plan_us,
            scheduler_pipeline_gpu_completion_wait_us: after.scheduler_pipeline_gpu_completion_wait_us,
            scheduler_pipeline_gpu_command_queue_depth: after.scheduler_pipeline_gpu_command_queue_depth,
            ..m
        }),
        reads(
            after,
            "infer_scheduler_pipeline_snapshot_microseconds"@,
            Seq::empty(),
            decimal(snapshot_us as nat),
        ),
        reads(
            after,
            "infer_scheduler_pipeline_cpu_plan_microseconds"@,
            Seq::empty(),
            decimal(cpu_plan_us as nat),
        ),
        reads(
            after,
            "infer_scheduler_pipeline_gpu_completion_wait_microseconds"@,
            Seq::empty(),
            decimal(gpu_completion_wait_us as nat),
        ),
        reads(
            after,
            "infer_scheduler_pipeline_gpu_command_queue_depth"@,
            Seq::empty(),
            decimal(gpu_command_queue_depth as nat),
        ),
{
    lemma_pipeline_readings(m);
    lemma_pipeline_readings(after);
}

/// The exposition shows the devices of the topology, the place of the worker and
/// what became of its affinity.
pub proof fn law_topologies_are_shown(
    m: ServerMetrics,
    after: ServerMetrics,
    topology: RuntimeTopology,
    placement: WorkerPlacement,
    affinity: AffinityApplyResult,
)
    requires
        after == after_runtime_topology(m, topology, placement, affinity),
    ensures
        after == (ServerMetrics { runtime_topology: after.runtime_topology, ..m }),
        after.runtime_topology == (RuntimeTopologyMetrics {
            numa_nodes: after.runtime_topology.numa_nodes,
            gpus: after.runtime_topology.gpus,
            nics: after.runtime_topology.nics,
            worker_id: after.runtime_topology.worker_id,
            worker_gpu_ordinal: after.runtime_topology.worker_gpu_ordinal,
            worker_numa_node: after.runtime_topology.worker_numa_node,
            worker_cpu_count: after.runtime_topology.worker_cpu_count,
            worker_nic_count: after.runtime_topology.worker_nic_count,
            affinity_applied: after.runtime_topology.affinity_applied,
            affinity_threads: after.runtime_topology.affinity_threads,
            affinity_failed_threads: after.runtime_topology.affinity_failed_threads,
            affinity_reason: after.runtime_topology.affinity_reason,
            ..m.runtime_topology
        }),
        reads(
            after,
            "infer_runtime_topology_numa_nodes"@,
            Seq::empty(),
            decimal(topology.numa_nodes@.len()),
        ),
        reads(
            after,
            "infer_runtime_topology_gpus"@,
            Seq::empty(),
            decimal(topology.gpus@.len()),
        ),
        reads(
            after,
            "infer_runtime_topology_nics"@,
            Seq::empty(),
            decimal(topology.nics@.len()),
        ),
        reads(
            after,
            "infer_runtime_worker_gpu_ordinal"@,
            Seq::empty(),
            decimal(placement.gpu_ordinal as nat),
        ),
        reads(
            after,
            "infer_runtime_worker_numa_node"@,
            Seq::empty(),
            signed_decimal(node_number(placement.numa_node)),
        ),
        reads(
            after,
            "infer_runtime_worker_cpu_count"@,
            Seq::empty(),
            decimal(placement.cpus@.len()),
        ),
        reads(
            after,
            "infer_runtime_worker_nic_count"@,
            Seq::empty(),
            decimal(placement.nics@.len()),
        ),
        reads(
            after,
            "infer_runtime_worker_affinity_applied"@,
            Seq::empty(),
            decimal(one_if(affinity.applied)),
        ),
        reads(
            after,
            "infer_runtime_worker_affinity_threads"@,
            Seq::empty(),
            decimal(affinity.applied_threads as nat),
        ),
        reads(
            after,
            "infer_runtime_worker_affinity_failed_threads"@,
            Seq::empty(),
            decimal(affinity.failed_threads as nat),
        ),
        after.runtime_topology.worker_id == placement.worker_id,
        after.runtime_topology.affinity_reason == affinity.reason,
{
    lemma_placement_readings(m);
    lemma_placement_readings(after);
    assert(topology.numa_nodes.len() == topology.numa_nodes@.len());
    assert(topology.gpus.len() == topology.gpus@.len());
    assert(topology.nics.len() == topology.nics@.len());
    assert(placement.cpus.len() == placement.cpus@.len());
    assert(placement.nics.len() == placement.nics@.len());
}

/// The exposition shows the groups and workers of the tokenization pool.
pub proof fn law_preprocess_pools_are_shown(
    m: ServerMetrics,
    after: ServerMetrics,
    groups: usize,
    workers: usize,
)
    requires
        after == after_preprocess_topology(m, groups, workers),
    ensures
        after == (ServerMetrics { runtime_topology: after.runtime_topology, ..m }),
        after.runtime_topology == (RuntimeTopologyMetrics {
            preprocess_groups: after.runtime_topology.preprocess_groups,
            preprocess_workers: after.runtime_topology.preprocess_workers,
            ..m.runtime_topology
        }),
        reads(
            after,
            "infer_runtime_preprocess_numa_groups"@,
            Seq::empty(),
            decimal(groups as nat),
        ),
        reads(
            after,
            "infer_runtime_preprocess_workers"@,
            Seq::empty(),
            decimal(workers as nat),
        ),
{
    lemma_placement_readings(m);
    lemma_placement_readings(after);
}

/// The exposition shows the groups and workers of the detokenization pool.
pub proof fn law_detokenizer_pools_are_shown(
    m: ServerMetrics,
    after: ServerMetrics,
    groups: usize,
    workers: usize,
)
    requires
        after == after_detokenizer_topology(m, groups, workers),
    ensures
        after == (ServerMetrics { runtime_topology: after.runtime_topology, ..m }),
        after.runtime_topology == (RuntimeTopologyMetrics {
            detokenizer_groups: after.runtime_topology.detokenizer_groups,
            detokenizer_workers: after.runtime_topology.detokenizer_workers,
            ..m.runtime_topology
        }),
        reads(
            after,
            "infer_runtime_detokenizer_numa_groups"@,
            Seq::empty(),
            decimal(groups as nat),
        ),
        reads(
            after,
            "infer_runtime_detokenizer_workers"@,
            Seq::empty(),
            decimal(workers as nat),
        ),
{
    lemma_placement_readings(m);
    lemma_placement_readings(after);
}

/// A migrated route raises the count of migrations.
pub proof fn law_migrations_are_counted(m: ServerMetrics, after: ServerMetrics)
    requires
        after == after_numa_migration(m),
    ensures
        after == (ServerMetrics { runtime_topology: after.runtime_topology, ..m }),
        after.runtime_topology == (RuntimeTopologyMetrics {
            numa_migration_total: after.runtime_topology.numa_migration_total,
            ..m.runtime_topology
        }),
        m.runtime_topology.numa_migration_total < u64::MAX ==> grows(
            m,
            after,
            "infer_scheduler_numa_migration_total"@,
            Seq::empty(),
            1,
        ),
{
    lemma_outcome_readings(m);
    lemma_outcome_readings(after);
}

/// A rebalance decision raises the count of rebalances.
pub proof fn law_rebalances_are_counted(m: ServerMetrics, after: ServerMetrics)
    requires
        after == after_numa_rebalance(m),
    ensures
        after == (ServerMetrics { runtime_topology: after.runtime_topology, ..m }),
        after.runtime_topology == (RuntimeTopologyMetrics {
            numa_rebalance_total: after.runtime_topology.numa_rebalance_total,
            ..m.runtime_topology
        }),
        m.runtime_topology.numa_rebalance_total < u64::MAX ==> grows(
            m,
            after,
            "infer_scheduler_numa_rebalance_total"@,
            Seq::empty(),
            1,
        ),
{
    lemma_outcome_readings(m);
    lemma_outcome_readings(after);
}

/// A valid plan raises the count of accepted plans.
pub proof fn law_accepted_plans_are_counted(m: ServerMetrics, after: ServerMetrics)
    requires
        after == after_scheduler_cpu_plan_accept(m),
    ensures
        after == (ServerMetrics {
            scheduler_pipeline_cpu_plan_accept_total: after.scheduler_pipeline_cpu_plan_accept_total,
            ..m
        }),
        m.scheduler_pipeline_cpu_plan_accept_total < u64::MAX ==> grows(
            m,
            after,
            "infer_scheduler_pipeline_cpu_plan_total"@,
            label_text("outcome"@, "accept"@),
            1,
        ),
{
    lemma_pipeline_readings(m);
    lemma_pipeline_readings(after);
}

/// A stale plan raises the count of stale plans.
pub proof fn law_stale_plans_are_counted(m: ServerMetrics, after: ServerMetrics)
    requires
        after == after_scheduler_cpu_plan_stale(m),
    ensures
        after == (ServerMetrics {
            scheduler_pipeline_cpu_plan_stale_total: after.scheduler_pipeline_cpu_plan_stale_total,
            ..m
        }),
        m.scheduler_pipeline_cpu_plan_stale_total < u64::MAX ==> grows(
            m,
            after,
            "infer_scheduler_pipeline_cpu_plan_total"@,
            label_text("outcome"@, "stale"@),
            1,
        ),
{
    lemma_pipeline_readings(m);
    lemma_pipeline_readings(after);
}

/// A mixed batch raises the count of mixed batches that ran.
pub proof fn law_mixed_batches_are_counted(m: ServerMetrics, after: ServerMetrics)
    requires
        after == after_prefill_path_mixed_ok_true(m),
    ensures
        after == (ServerMetrics {
            prefill_path_mixed_ok_true_total: after.prefill_path_mixed_ok_true_total,
            ..m
        }),
        m.prefill_path_mixed_ok_true_total < u64::MAX ==> grows(
            m,
            after,
            "infer_prefill_path_mixed_batch_total"@,
            label_text("outcome"@, "ok_true"@),
            1,
        ),
{
    lemma_outcome_readings(m);
    lemma_outcome_readings(after);
}

/// The exposition shows the queues and the store counts of the coordinator.
pub proof fn law_coordinators_are_shown(
    m: ServerMetrics,
    after: ServerMetrics,
    queue_capacity: u64,
    fetch_queue_depth: u64,
    fetch_waiters: u64,
    store_queue_depth: u64,
    fetch_backpressure: bool,
    store_backpressure: bool,
    store_submitted_total: u64,
    store_completed_total: u64,
    store_failed_total: u64,
    store_rejected_total: u64,
)
    requires
        after == after_kv_coordinator(
            m,
            queue_capacity,
            fetch_queue_depth,
            fetch_waiters,
            store_queue_depth,
            fetch_backpressure,
            store_backpressure,
            store_submitted_total,
            store_completed_total,
            store_failed_total,
            store_rejected_total,
        ),
    ensures
        after == (ServerMetrics {
            kv_coordinator_queue_capacity: after.kv_coordinator_queue_capacity,
            kv_fetch_queue_depth: after.kv_fetch_queue_depth,
            kv_fetch_waiters: after.kv_fetch_waiters,
            kv_store_queue_depth: after.kv_store_queue_depth,
            kv_fetch_backpressure: after.kv_fetch_backpressure,
            kv_store_backpressure: after.kv_store_backpressure,
            kv_store_submitted_total: after.kv_store_submitted_total,
            kv_store_completed_total: after.kv_store_completed_total,
            kv_store_failed_total: after.kv_store_failed_total,
            kv_store_rejected_total: after.kv_store_rejected_total,
            ..m
        }),
        reads(
            after,
            "infer_kv_coordinator_queue_capacity"@,
            Seq::empty(),
            decimal(queue_capacity as nat),
        ),
        reads(
            after,
            "infer_kv_fetch_queue_depth"@,
            Seq::empty(),
            decimal(fetch_queue_depth as nat),
        ),
        reads(after, "infer_kv_fetch_waiters"@, Seq::empty(), decimal(fetch_waiters as nat)),
        reads(
            after,
            "infer_kv_store_queue_depth"@,
            Seq::empty(),
            decimal(store_queue_depth as nat),
        ),
        reads(
            after,
            "infer_kv_fetch_backpressure"@,
            Seq::empty(),
            decimal(one_if(fetch_backpressure)),
        ),
        reads(
            after,
            "infer_kv_store_backpressure"@,
            Seq::empty(),
            decimal(one_if(store_backpressure)),
        ),
        reads(
            after,
            "infer_kv_store_submitted_total"@,
            Seq::empty(),
            decimal(store_submitted_total as nat),
        ),
        reads(
            after,
            "infer_kv_store_completed_total"@,
            Seq::empty(),
            decimal(store_completed_total as nat),
        ),
        reads(
            after,
            "infer_kv_store_failed_total"@,
            Seq::empty(),
            decimal(store_failed_total as nat),
        ),
        reads(
            after,
            "infer_kv_store_rejected_total"@,
            Seq::empty(),
            decimal(store_rejected_total as nat),
        ),
{
    lemma_kv_readings(m);
    lemma_kv_readings(after);
}

/// The exposition shows the oldest waits in seconds.
pub proof fn law_waits_are_shown(
    m: ServerMetrics,
    after: ServerMetrics,
    fetch_wait_us: u64,
    store_wait_us: u64,
)
    requires
        after == after_tier_wait_seconds(m, fetch_wait_us, store_wait_us),
    ensures
        after == (ServerMetrics {
            tier_fetch_wait_us: after.tier_fetch_wait_us,
            tier_store_wait_us: after.tier_store_wait_us,
            ..m
        }),
        reads(
            after,
            "infer_tier_fetch_wait_seconds"@,
            Seq::empty(),
            fixed_text(ratio(fetch_wait_us as nat, 1_000_000), 6),
        ),
        reads(
            after,
            "infer_tier_store_wait_seconds"@,
            Seq::empty(),
            fixed_text(ratio(store_wait_us as nat, 1_000_000), 6),
        ),
{
    lemma_kv_readings(m);
    lemma_kv_readings(after);
}

/// The exposition shows the free and the total blocks, and the fraction in use.
pub proof fn law_blocks_are_shown(m: ServerMetrics, after: ServerMetrics, free: u64, total: u64)
    requires
        after == after_kv_gpu_blocks(m, free, total),
    ensures
        after == (ServerMetrics {
            kv_gpu_blocks_free: after.kv_gpu_blocks_free,
            kv_gpu_blocks_total: after.kv_gpu_blocks_total,
            ..m
        }),
        reads(after, "infer_kv_gpu_blocks_free"@, Seq::empty(), decimal(free as nat)),
        reads(after, "infer_kv_gpu_blocks_total"@, Seq::empty(), decimal(total as nat)),
{
    lemma_kv_readings(m);
    lemma_kv_readings(after);
}

/// The exposition shows the active, peak and cached bytes of the allocator.
pub proof fn law_memory_is_shown(
    m: ServerMetrics,
    after: ServerMetrics,
    active: u64,
    peak: u64,
    cache: u64,
)
    requires
        after == after_memory_bytes(m, active, peak, cache),
    ensures
        after == (ServerMetrics {
            memory_active_bytes: after.memory_active_bytes,
            memory_peak_bytes: after.memory_peak_bytes,
            memory_cache_bytes: after.memory_cache_bytes,
            ..m
        }),
        reads(after, "infer_memory_active_bytes"@, Seq::empty(), decimal(active as nat)),
        reads(after, "infer_memory_peak_bytes"@, Seq::empty(), decimal(peak as nat)),
        reads(after, "infer_memory_cache_bytes"@, Seq::empty(), decimal(cache as nat)),
{
    lemma_kv_readings(m);
    lemma_kv_readings(after);
}

/// Rows without a sparse view raise their count.
pub proof fn law_empty_views_are_counted(m: ServerMetrics, after: ServerMetrics, rows: usize)
    requires
        after == after_spec_sparse_view_empty(m, rows),
    ensures
        after == (ServerMetrics {
            spec_sparse_view_empty_total: after.spec_sparse_view_empty_total,
            ..m
        }),
        m.spec_sparse_view_empty_total + rows <= u64::MAX ==> grows(
            m,
            after,
            "infer_spec_sparse_view_empty_total"@,
            Seq::empty(),
            rows as nat,
        ),
{
    lemma_speculation_readings(m);
    lemma_speculation_readings(after);
}

/// A speculative block raises the count of blocks by one and that of accepted
/// tokens by its accepted inputs.
pub proof fn law_speculative_blocks_are_counted(
    m: ServerMetrics,
    after: ServerMetrics,
    accepted_inputs: usize,
    block_size: usize,
)
    requires
        after == after_dflash_block(m, accepted_inputs, block_size),
    ensures
        after == (ServerMetrics {
            dflash_blocks_total: after.dflash_blocks_total,
            dflash_accepted_tokens_total: after.dflash_accepted_tokens_total,
            dflash_draft_tokens_total: after.dflash_draft_tokens_total,
            ..m
        }),
        m.dflash_blocks_total < u64::MAX ==> grows(
            m,
            after,
            "infer_dflash_blocks_total"@,
            Seq::empty(),
            1,
        ),
        m.dflash_accepted_tokens_total + accepted_inputs <= u64::MAX ==> grows(
            m,
            after,
            "infer_dflash_accepted_tokens_total"@,
            Seq::empty(),
            accepted_inputs as nat,
        ),
        m.dflash_draft_tokens_total + block_size <= u64::MAX ==> after.dflash_draft_tokens_total
            == m.dflash_draft_tokens_total + block_size,
{
    lemma_decode_readings(m);
    lemma_decode_readings(after);
}

/// A batch raises the count of batches by one and that of batched rows by its
/// rows.
pub proof fn law_batched_rows_are_counted(m: ServerMetrics, after: ServerMetrics, rows: usize)
    requires
        after == after_metal_decode_batch(m, rows),
    ensures
        after == (ServerMetrics {
            metal_decode_batches_total: after.metal_decode_batches_total,
            metal_decode_batched_rows_total: after.metal_decode_batched_rows_total,
            ..m
        }),
        m.metal_decode_batches_total < u64::MAX ==> grows(
            m,
            after,
            "infer_metal_decode_batches_total"@,
            Seq::empty(),
            1,
        ),
        m.metal_decode_batched_rows_total + rows <= u64::MAX ==> grows(
            m,
            after,
            "infer_metal_decode_batched_rows_total"@,
            Seq::empty(),
            rows as nat,
        ),
{
    lemma_decode_readings(m);
    lemma_decode_readings(after);
}

/// A scalar row raises the count of scalar rows.
pub proof fn law_scalar_rows_are_counted(m: ServerMetrics, after: ServerMetrics)
    requires
        after == after_metal_decode_scalar_row(m),
    ensures
        after == (ServerMetrics {
            metal_decode_scalar_rows_total: after.metal_decode_scalar_rows_total,
            ..m
        }),
        m.metal_decode_scalar_rows_total < u64::MAX ==> grows(
            m,
            after,
            "infer_metal_decode_scalar_rows_total"@,
            Seq::empty(),
            1,
        ),
{
    lemma_decode_readings(m);
    lemma_decode_readings(after);
}

/// Rows that could not be batched raise the count of fallback rows.
pub proof fn law_fallback_rows_are_counted(m: ServerMetrics, after: ServerMetrics, rows: usize)
    requires
        after == after_metal_decode_batch_fallback(m, rows),
    ensures
        after == (ServerMetrics {
            metal_decode_batch_fallback_rows_total: after.metal_decode_batch_fallback_rows_total,
            ..m
        }),
        m.metal_decode_batch_fallback_rows_total + rows <= u64::MAX ==> grows(
            m,
            after,
            "infer_metal_decode_batch_fallback_rows_total"@,
            Seq::empty(),
            rows as nat,
        ),
{
    lemma_decode_readings(m);
    lemma_decode_readings(after);
}

/// A packed batch raises the count of packed batches by one and that of packed
/// rows by its rows.
pub proof fn law_packed_rows_are_counted(m: ServerMetrics, after: ServerMetrics, rows: usize)
    requires
        after == after_metal_qwen35_packed_decode_batch(m, rows),
    ensures
        after == (ServerMetrics {
            metal_qwen35_packed_decode_batches_total: after.metal_qwen35_packed_decode_batches_total,
            metal_qwen35_packed_decode_rows_total: after.metal_qwen35_packed_decode_rows_total,
            ..m
        }),
        m.metal_qwen35_packed_decode_batches_total < u64::MAX ==> grows(
            m,
            after,
            "infer_metal_qwen35_packed_decode_batches_total"@,
            Seq::empty(),
            1,
        ),
        m.metal_qwen35_packed_decode_rows_total + rows <= u64::MAX ==> grows(
            m,
            after,
            "infer_metal_qwen35_packed_decode_rows_total"@,
            Seq::empty(),
            rows as nat,
        ),
{
    lemma_decode_readings(m);
    lemma_decode_readings(after);
}

/// A completed request raises the count of requests by one, that of prompt tokens
/// by its prompt and that of generated tokens by what it generated.
pub proof fn law_completed_requests_are_counted(
    m: ServerMetrics,
    after: ServerMetrics,
    prompt_tokens: u64,
    generated_tokens: u64,
    queue_wait_us: u64,
    active_ttft_us: u64,
    ttft_us: u64,
    tpot_us: u64,
    e2e_us: u64,
)
    requires
        after.completed(
            m,
            prompt_tokens,
            generated_tokens,
            queue_wait_us,
            active_ttft_us,
            ttft_us,
            tpot_us,
            e2e_us,
        ),
    ensures
        after == (ServerMetrics {
            requests_total: after.requests_total,
            tokens_prompt_total: after.tokens_prompt_total,
            tokens_generated_total: after.tokens_generated_total,
            histograms: after.histograms,
            ..m
        }),
        m.requests_total < u64::MAX ==> grows(
            m,
            after,
            "infer_requests_total"@,
            Seq::empty(),
            1,
        ),
        m.tokens_prompt_total + prompt_tokens <= u64::MAX ==> grows(
            m,
            after,
            "infer_tokens_prompt_total"@,
            Seq::empty(),
            prompt_tokens as nat,
        ),
        m.tokens_generated_total + generated_tokens <= u64::MAX ==> grows(
            m,
            after,
            "infer_tokens_generated_total"@,
            Seq::empty(),
            generated_tokens as nat,
        ),
{
    lemma_request_readings(m);
    lemma_request_readings(after);
}

/// The counts of prompt and generated tokens are told apart: where only one of
/// them differs, the other reads the same.
pub proof fn law_token_counts_are_separate(m: ServerMetrics, tokens: u64)
    ensures
        ({
            let more = ServerMetrics { tokens_prompt_total: tokens, ..m };
            &&& grows(m, more, "infer_tokens_generated_total"@, Seq::empty(), 0)
            &&& reads(more, "infer_tokens_prompt_total"@, Seq::empty(), decimal(tokens as nat))
        }),
        ({
            let more = ServerMetrics { tokens_generated_total: tokens, ..m };
            &&& grows(m, more, "infer_tokens_prompt_total"@, Seq::empty(), 0)
            &&& reads(more, "infer_tokens_generated_total"@, Seq::empty(), decimal(tokens as nat))
        }),
{
    lemma_request_readings(m);
    lemma_request_readings(ServerMetrics { tokens_prompt_total: tokens, ..m });
    lemma_request_readings(ServerMetrics { tokens_generated_total: tokens, ..m });
}

/// A histogram took in one value: it counts one more, and its sum is larger by
/// the value.
pub open spec fn took_in(before: HistogramView, after: HistogramView, value: nat) -> bool {
    &&& after.count == before.count + 1
    &&& after.sum == before.sum + value
    &&& after.bounds == before.bounds
    &&& after.scale == before.scale
}

/// Every latency of a completed request is taken in by its own histogram. The time
/// per token is taken in only where more than one token was generated, and the
/// service takes the time from the first token to the end.
pub proof fn law_completed_requests_are_timed(
    m: ServerMetrics,
    after: ServerMetrics,
    prompt_tokens: u64,
    generated_tokens: u64,
    queue_wait_us: u64,
    active_ttft_us: u64,
    ttft_us: u64,
    tpot_us: u64,
    e2e_us: u64,
)
    requires
        after.completed(
            m,
            prompt_tokens,
            generated_tokens,
            queue_wait_us,
            active_ttft_us,
            ttft_us,
            tpot_us,
            e2e_us,
        ),
    ensures
        took_in(m.histograms.queue_wait@, after.histograms.queue_wait@, queue_wait_us as nat),
        took_in(m.histograms.active_ttft@, after.histograms.active_ttft@, active_ttft_us as nat),
        took_in(m.histograms.ttft@, after.histograms.ttft@, ttft_us as nat),
        took_in(m.histograms.e2e@, after.histograms.e2e@, e2e_us as nat),
        generated_tokens > 1 ==> took_in(
            m.histograms.tpot@,
            after.histograms.tpot@,
            tpot_us as nat,
        ),
        generated_tokens <= 1 ==> after.histograms.tpot@ == m.histograms.tpot@,
        ttft_us <= e2e_us ==> took_in(
            m.histograms.service@,
            after.histograms.service@,
            (e2e_us - ttft_us) as nat,
        ),
        e2e_us < ttft_us ==> took_in(m.histograms.service@, after.histograms.service@, 0),
        after.histograms.scheduler_step == m.histograms.scheduler_step,
        after.histograms.spec_step_latency_us == m.histograms.spec_step_latency_us,
{
}

/// A tick is shown in seconds and taken in by the histogram of the ticks.
pub proof fn law_ticks_are_timed(m: ServerMetrics, after: ServerMetrics, step_us: u64)
    requires
        is_observed_step(m, after, step_us),
    ensures
        after == (ServerMetrics {
            scheduler_step_last_us: after.scheduler_step_last_us,
            histograms: after.histograms,
            ..m
        }),
        after.histograms == (HistogramSet {
            scheduler_step: after.histograms.scheduler_step,
            ..m.histograms
        }),
        took_in(m.histograms.scheduler_step@, after.histograms.scheduler_step@, step_us as nat),
        reads(
            after,
            "infer_scheduler_step_last_seconds"@,
            Seq::empty(),
            fixed_text(ratio(step_us as nat, 1_000_000), 6),
        ),
{
    lemma_scheduler_readings(after);
}

/// A speculative step raises the counts of draft, verified and accepted tokens,
/// and its latency is taken in by the histogram of the steps. The acceptance rate
/// is that of the raised counts.
pub proof fn law_speculative_steps_are_counted(
    m: ServerMetrics,
    after: ServerMetrics,
    draft_tokens: usize,
    verified_tokens: usize,
    accepted_tokens: usize,
    latency_us: u64,
)
    requires
        is_spec_step(m, after, draft_tokens, verified_tokens, accepted_tokens, latency_us),
        m.spec_draft_tokens_total + draft_tokens <= u64::MAX,
        m.spec_verified_tokens_total + verified_tokens <= u64::MAX,
        m.spec_accepted_tokens_total + accepted_tokens <= u64::MAX,
    ensures
        after == (ServerMetrics {
            spec_draft_tokens_total: after.spec_draft_tokens_total,
            spec_verified_tokens_total: after.spec_verified_tokens_total,
            spec_accepted_tokens_total: after.spec_accepted_tokens_total,
            spec_acceptance_rate_ppm: after.spec_acceptance_rate_ppm,
            histograms: after.histograms,
            ..m
        }),
        after.histograms == (HistogramSet {
            spec_step_latency_us: after.histograms.spec_step_latency_us,
            ..m.histograms
        }),
        took_in(
            m.histograms.spec_step_latency_us@,
            after.histograms.spec_step_latency_us@,
            latency_us as nat,
        ),
        grows(
            m,
            after,
            "infer_spec_draft_tokens_total"@,
            Seq::empty(),
            draft_tokens as nat,
        ),
        grows(
            m,
            after,
            "infer_spec_verified_tokens_total"@,
            Seq::empty(),
            verified_tokens as nat,
        ),
        grows(
            m,
            after,
            "infer_spec_accepted_tokens_total"@,
            Seq::empty(),
            accepted_tokens as nat,
        ),
        after.spec_verified_tokens_total == 0 ==> after.spec_acceptance_rate_ppm == 0,
        after.spec_verified_tokens_total > 0 ==> after.spec_acceptance_rate_ppm == rounded(
            times(
                ratio(
                    after.spec_accepted_tokens_total as nat,
                    after.spec_verified_tokens_total as nat,
                ),
                1_000_000,
            ),
        ) as u64,
        reads(
            after,
            "infer_spec_acceptance_rate"@,
            Seq::empty(),
            fixed_text(ratio(after.spec_acceptance_rate_ppm as nat, 1_000_000), 6),
        ),
{
    lemma_speculation_readings(m);
    lemma_speculation_readings(after);
}

/// A request counts as one lookup, as a hit where it matched, and with its matched
/// and prompt tokens; a request of a session is a hit or a miss of its session.
/// The matched and resumed tokens are shown, never more than the prompt.
pub proof fn law_prefix_reuse_is_counted(
    m: ServerMetrics,
    after: ServerMetrics,
    session: Option<Seq<char>>,
    matched_prefix_tokens: usize,
    prompt_tokens: usize,
    resume_prefill_tokens: usize,
)
    requires
        after.cached(
            m,
            session,
            matched_prefix_tokens,
            prompt_tokens,
            resume_prefill_tokens,
        ),
        m.prefix_lookups_total < u64::MAX,
        m.prefix_hits_total < u64::MAX,
        m.prefix_reused_tokens_total + prompt_tokens <= u64::MAX,
        m.prefix_lookup_prompt_tokens_total + prompt_tokens <= u64::MAX,
        m.session_affinity_hit_total < u64::MAX,
        m.session_affinity_miss_total < u64::MAX,
    ensures
        ({
            let matched = capped(matched_prefix_tokens as nat, prompt_tokens as nat);
            let hit = matched > 0;
            &&& grows(m, after, "infer_prefix_lookups_total"@, Seq::empty(), 1)
            &&& grows(m, after, "infer_prefix_hits_total"@, Seq::empty(), one_if(hit))
            &&& grows(m, after, "infer_prefix_reused_tokens_total"@, Seq::empty(), matched)
            &&& grows(
                m,
                after,
                "infer_prefix_lookup_prompt_tokens_total"@,
                Seq::empty(),
                prompt_tokens as nat,
            )
            &&& grows(
                m,
                after,
                "infer_session_affinity_hit_total"@,
                Seq::empty(),
                one_if(session is Some && hit),
            )
            &&& grows(
                m,
                after,
                "infer_session_affinity_miss_total"@,
                Seq::empty(),
                one_if(session is Some && !hit),
            )
            &&& reads(after, "infer_matched_prefix_tokens"@, Seq::empty(), decimal(matched))
            &&& reads(
                after,
                "infer_resume_prefill_tokens"@,
                Seq::empty(),
                decimal(capped(resume_prefill_tokens as nat, prompt_tokens as nat)),
            )
            &&& reads(
                after,
                "infer_prefix_request_hit_rate"@,
                Seq::empty(),
                fixed_text(ratio(1_000_000 * one_if(hit), 1_000_000), 4),
            )
            &&& prompt_tokens > 0 && matched * 1_000_000 <= u64::MAX ==> reads(
                after,
                "infer_prefix_request_skip_rate"@,
                Seq::empty(),
                fixed_text(
                    ratio(matched * 1_000_000 / prompt_tokens as nat, 1_000_000),
                    4,
                ),
            )
        }),
{
    lemma_request_readings(m);
    lemma_request_readings(after);
    let matched = capped(matched_prefix_tokens as nat, prompt_tokens as nat);
    if prompt_tokens > 0 {
        law_parts_do_not_exceed_a_million(matched, prompt_tokens as nat);
    }
}

/// The most recent lookup is shown as a hit where it matched, and with the share
/// of its prompt that it matched.
pub proof fn law_lookup_rates_are_shown(
    m: ServerMetrics,
    after: ServerMetrics,
    prompt_tokens: usize,
    matched_prefix_tokens: usize,
    reusable_tokens: usize,
    lookup_latency_us: u64,
    ready_on_gpu: bool,
    direct_gpu_attach: bool,
    staged: bool,
    prefetch: bool,
    recompute: bool,
)
    requires
        after == after_prefix_lookup_detail(
            m,
            prompt_tokens,
            matched_prefix_tokens,
            reusable_tokens,
            lookup_latency_us,
            ready_on_gpu,
            direct_gpu_attach,
            staged,
            prefetch,
            recompute,
        ),
    ensures
        ({
            let matched = capped(matched_prefix_tokens as nat, prompt_tokens as nat);
            &&& reads(
                after,
                "infer_prefix_request_hit_rate"@,
                Seq::empty(),
                fixed_text(ratio(1_000_000 * one_if(matched > 0), 1_000_000), 4),
            )
            &&& prompt_tokens > 0 && matched * 1_000_000 <= u64::MAX ==> reads(
                after,
                "infer_prefix_request_skip_rate"@,
                Seq::empty(),
                fixed_text(
                    ratio(matched * 1_000_000 / prompt_tokens as nat, 1_000_000),
                    4,
                ),
            )
        }),
{
    lemma_request_readings(after);
    let matched = capped(matched_prefix_tokens as nat, prompt_tokens as nat);
    if prompt_tokens > 0 {
        law_parts_do_not_exceed_a_million(matched, prompt_tokens as nat);
    }
}

/// The rates are those of the counts that stand beside them: hits over lookups,
/// reused over prompt tokens, promoted over staged blocks, drafted over accepted
/// tokens and accepted over draft tokens, and used over all blocks.
pub proof fn law_rates_are_shown(m: ServerMetrics)
    ensures
        reads(
            m,
            "infer_prefix_hit_rate"@,
            Seq::empty(),
            fixed_text(ratio(m.prefix_hits_total as nat, m.prefix_lookups_total as nat), 4),
        ),
        reads(
            m,
            "infer_prefix_skip_rate"@,
            Seq::empty(),
            fixed_text(
                ratio(
                    m.prefix_reused_tokens_total as nat,
                    m.prefix_lookup_prompt_tokens_total as nat,
                ),
                4,
            ),
        ),
        reads(
            m,
            "infer_tier_fetch_recall_rate"@,
            Seq::empty(),
            fixed_text(
                ratio(
                    m.tier_fetch_promoted_blocks_total as nat,
                    m.tier_fetch_staged_host_blocks_total as nat
                        + m.tier_fetch_staged_disk_blocks_total as nat
                        + m.tier_fetch_staged_remote_blocks_total as nat,
                ),
                4,
            ),
        ),
        m.dflash_blocks_total <= m.dflash_accepted_tokens_total ==> reads(
            m,
            "infer_dflash_acceptance_rate"@,
            Seq::empty(),
            fixed_text(
                ratio(
                    (m.dflash_accepted_tokens_total - m.dflash_blocks_total) as nat,
                    m.dflash_accepted_tokens_total as nat,
                ),
                4,
            ),
        ),
        reads(
            m,
            "infer_dflash_utilization"@,
            Seq::empty(),
            fixed_text(
                ratio(m.dflash_accepted_tokens_total as nat, m.dflash_draft_tokens_total as nat),
                4,
            ),
        ),
        m.kv_gpu_blocks_free <= m.kv_gpu_blocks_total ==> reads(
            m,
            "infer_kv_gpu_utilization"@,
            Seq::empty(),
            fixed_text(
                ratio(
                    (m.kv_gpu_blocks_total - m.kv_gpu_blocks_free) as nat,
                    m.kv_gpu_blocks_total as nat,
                ),
                4,
            ),
        ),
{
    lemma_request_readings(m);
    lemma_tier_readings(m);
    lemma_decode_readings(m);
    lemma_kv_readings(m);
}

/// A tick raises the count of the plan that was selected for it, and of no other.
pub proof fn law_plans_are_counted(m: ServerMetrics, after: ServerMetrics, label: SchedulerPlanLabel)
    requires
        after == after_scheduler_plan(m, label),
        m.scheduler_plan_idle_total < u64::MAX,
        m.scheduler_plan_decode_total < u64::MAX,
        m.scheduler_plan_prefill_total < u64::MAX,
        m.scheduler_plan_split_total < u64::MAX,
        m.scheduler_plan_mixed_total < u64::MAX,
    ensures
        after == (ServerMetrics {
            scheduler_plan_idle_total: after.scheduler_plan_idle_total,
            scheduler_plan_decode_total: after.scheduler_plan_decode_total,
            scheduler_plan_prefill_total: after.scheduler_plan_prefill_total,
            scheduler_plan_split_total: after.scheduler_plan_split_total,
            scheduler_plan_mixed_total: after.scheduler_plan_mixed_total,
            ..m
        }),
        grows(
            m,
            after,
            "infer_scheduler_plan_total"@,
            label_text("plan"@, "idle"@),
            one_if(label is Idle),
        ),
        grows(
            m,
            after,
            "infer_scheduler_plan_total"@,
            label_text("plan"@, "decode"@),
            one_if(label is Decode),
        ),
        grows(
            m,
            after,
            "infer_scheduler_plan_total"@,
            label_text("plan"@, "prefill"@),
            one_if(label is Prefill),
        ),
        grows(
            m,
            after,
            "infer_scheduler_plan_total"@,
            label_text("plan"@, "split"@),
            one_if(label is Split),
        ),
        grows(
            m,
            after,
            "infer_scheduler_plan_total"@,
            label_text("plan"@, "mixed"@),
            one_if(label is Mixed),
        ),
{
    lemma_outcome_readings(m);
    lemma_outcome_readings(after);
}

/// A routing decision raises the count of its locality, and of no other, and its
/// cost is shown.
pub proof fn law_routes_are_counted(
    m: ServerMetrics,
    after: ServerMetrics,
    route_cost: u32,
    local: Option<bool>,
)
    requires
        after == after_numa_route(m, route_cost, local),
        m.runtime_topology.numa_route_local_total < u64::MAX,
        m.runtime_topology.numa_route_cross_total < u64::MAX,
        m.runtime_topology.numa_route_unknown_total < u64::MAX,
    ensures
        after == (ServerMetrics { runtime_topology: after.runtime_topology, ..m }),
        grows(
            m,
            after,
            "infer_scheduler_numa_route_total"@,
            label_text("outcome"@, "local"@),
            one_if(local == Some(true)),
        ),
        grows(
            m,
            after,
            "infer_scheduler_numa_route_total"@,
            label_text("outcome"@, "cross"@),
            one_if(local == Some(false)),
        ),
        grows(
            m,
            after,
            "infer_scheduler_numa_route_total"@,
            label_text("outcome"@, "unknown"@),
            one_if(local is None),
        ),
        reads(
            after,
            "infer_scheduler_numa_route_cost"@,
            Seq::empty(),
            decimal(route_cost as nat),
        ),
{
    lemma_placement_readings(after);
    lemma_outcome_readings(m);
    lemma_outcome_readings(after);
}

/// A copy is counted; its latency is shown as the last, and as the longest where
/// none was longer.
pub proof fn law_copies_are_timed(m: ServerMetrics, after: ServerMetrics, latency_us: u64)
    requires
        after == after_h2d_latency_us(m, latency_us),
    ensures
        after == (ServerMetrics { runtime_topology: after.runtime_topology, ..m }),
        m.runtime_topology.h2d_latency_count < u64::MAX ==> grows(
            m,
            after,
            "infer_runtime_h2d_latency_count"@,
            Seq::empty(),
            1,
        ),
        reads(
            after,
            "infer_runtime_h2d_latency_microseconds"@,
            label_text("stat"@, "last"@),
            decimal(latency_us as nat),
        ),
        m.runtime_topology.h2d_latency_max_us <= latency_us ==> reads(
            after,
            "infer_runtime_h2d_latency_microseconds"@,
            label_text("stat"@, "max"@),
            decimal(latency_us as nat),
        ),
        latency_us < m.runtime_topology.h2d_latency_max_us ==> grows(
            m,
            after,
            "infer_runtime_h2d_latency_microseconds"@,
            label_text("stat"@, "max"@),
            0,
        ),
{
    lemma_placement_readings(m);
    lemma_placement_readings(after);
    lemma_outcome_readings(m);
    lemma_outcome_readings(after);
}

/// The pages on the given nodes are shown as local, the others as remote, and all
/// of them as the total.
pub proof fn law_pages_are_shown(
    m: ServerMetrics,
    after: ServerMetrics,
    stats: NumaMemoryStats,
    nodes: Seq<Option<i32>>,
)
    requires
        after.placed_pages(m, stats, nodes),
        local_pages(stats.per_node_pages@, nodes, stats.per_node_pages@.len())
            <= stats.total_pages,
    ensures
        after == (ServerMetrics { runtime_topology: after.runtime_topology, ..m }),
        reads(
            after,
            "infer_runtime_numastat_pages"@,
            label_text("placement"@, "local"@),
            decimal(local_pages(stats.per_node_pages@, nodes, stats.per_node_pages@.len())),
        ),
        reads(
            after,
            "infer_runtime_numastat_pages"@,
            label_text("placement"@, "remote"@),
            decimal(
                (stats.total_pages - local_pages(
                    stats.per_node_pages@,
                    nodes,
                    stats.per_node_pages@.len(),
                )) as nat,
            ),
        ),
        reads(
            after,
            "infer_runtime_numastat_pages"@,
            label_text("placement"@, "total"@),
            decimal(stats.total_pages as nat),
        ),
{
    lemma_outcome_readings(after);
}

/// A fallback raises the count of failed mixed batches and that of its reason.
pub proof fn law_fallbacks_are_shown(
    m: ServerMetrics,
    after: ServerMetrics,
    reason: MixedBatchFallbackReason,
)
    requires
        after == after_fallback(m, reason_label(reason)),
        m.prefill_path_mixed_ok_false_total < u64::MAX,
        fallback_count(m, reason) < u64::MAX,
    ensures
        grows(
            m,
            after,
            "infer_prefill_path_mixed_batch_total"@,
            label_text("outcome"@, "ok_false"@),
            1,
        ),
        grows(
            m,
            after,
            "infer_prefill_path_mixed_batch_total"@,
            label_text("outcome"@, "ok_true"@),
            0,
        ),
        grows(
            m,
            after,
            "infer_prefill_path_mixed_batch_fallback_total"@,
            label_text("reason"@, reason_label(reason)),
            1,
        ),
{
    lemma_outcome_readings(m);
    lemma_outcome_readings(after);
    law_labels_name_reasons(reason);
    reveal(after_fallback);
}

} // verus!
