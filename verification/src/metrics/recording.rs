//! What the recorders make of the metrics.

use vstd::prelude::*;

use crate::double::{ratio, rounded, times};
use crate::metrics::histogram::{observed, HistogramSet};
use crate::metrics::server::{
    at_most, gauge, parts_per_million, ModelArchSummary, SchedulerPlanLabel, ServerMetrics,
};
use crate::metrics::topology::{
    AffinityApplyResult, RuntimeTopology, RuntimeTopologyMetrics, WorkerPlacement,
};

verus! {

/// The metrics after `set_model_arch`.
pub open spec fn after_model_arch(m: ServerMetrics, summary: ModelArchSummary) -> ServerMetrics {
    ServerMetrics { model_arch: Some(summary), ..m }
}

/// The metrics after `record_request_failed`.
pub open spec fn after_request_failed(m: ServerMetrics) -> ServerMetrics {
    ServerMetrics {
        requests_failed_total: m.requests_failed_total.wrapping_add(1),
        ..m
    }
}

/// The metrics after `record_prefix_lookup_detail`.
pub open spec fn after_prefix_lookup_detail(
    m: ServerMetrics,
    prompt_tokens: usize,
    matched_prefix_tokens: usize,
    reusable_tokens: usize,
    lookup_latency_us: u64,
    ready_on_gpu: bool,
    direct_gpu_attach: bool,
    staged: bool,
    prefetch: bool,
    recompute: bool,
) -> ServerMetrics {
    ServerMetrics {
        matched_prefix_tokens: at_most(matched_prefix_tokens, prompt_tokens),
        prefix_lookup_reusable_tokens: at_most(reusable_tokens, prompt_tokens),
        prefix_lookup_latency_us: lookup_latency_us,
        prefix_request_hit_ppm: if at_most(matched_prefix_tokens, prompt_tokens) > 0 {
            1_000_000
        } else {
            0
        },
        prefix_request_skip_ppm: parts_per_million(
            at_most(matched_prefix_tokens, prompt_tokens) as nat,
            prompt_tokens as nat,
        ) as u64,
        prefix_lookup_ready_on_gpu: gauge(ready_on_gpu),
        prefix_lookup_direct_gpu_attach: gauge(direct_gpu_attach),
        prefix_lookup_staged: gauge(staged),
        prefix_lookup_prefetch: gauge(prefetch),
        prefix_lookup_recompute: gauge(recompute),
        ..m
    }
}

/// The metrics after `record_prefix_lookup_prefetch_queued`.
pub open spec fn after_prefix_lookup_prefetch_queued(m: ServerMetrics) -> ServerMetrics {
    ServerMetrics {
        prefix_lookup_prefetch: 1,
        ..m
    }
}

/// The metrics after `record_tier_fetch_plan`.
pub open spec fn after_tier_fetch_plan(
    m: ServerMetrics,
    host_blocks: usize,
    disk_blocks: usize,
    remote_blocks: usize,
) -> ServerMetrics {
    ServerMetrics {
        tier_fetch_staged_host_blocks_total:
            m.tier_fetch_staged_host_blocks_total.wrapping_add(host_blocks as u64),
        tier_fetch_staged_disk_blocks_total:
            m.tier_fetch_staged_disk_blocks_total.wrapping_add(disk_blocks as u64),
        tier_fetch_staged_remote_blocks_total:
            m.tier_fetch_staged_remote_blocks_total
            .wrapping_add(remote_blocks as u64),
        ..m
    }
}

/// The metrics after `record_tier_fetch_promoted`.
pub open spec fn after_tier_fetch_promoted(
    m: ServerMetrics,
    promoted_blocks: usize,
) -> ServerMetrics {
    ServerMetrics {
        tier_fetch_promoted_blocks_total:
            m.tier_fetch_promoted_blocks_total.wrapping_add(promoted_blocks as u64),
        ..m
    }
}

/// The metrics after `record_tier_fetch_fallback`.
pub open spec fn after_tier_fetch_fallback(m: ServerMetrics) -> ServerMetrics {
    ServerMetrics {
        tier_fetch_fallback_total: m.tier_fetch_fallback_total.wrapping_add(1),
        ..m
    }
}

/// The metrics after `record_session_slot_pressure_evictions_hard`.
pub open spec fn after_session_slot_pressure_evictions_hard(
    m: ServerMetrics,
    slots: usize,
) -> ServerMetrics {
    ServerMetrics {
        session_slot_pressure_evictions_hard_total:
            m.session_slot_pressure_evictions_hard_total.wrapping_add(slots as u64),
        ..m
    }
}

/// The metrics after `record_prefix_aware_admit_deferral`.
pub open spec fn after_prefix_aware_admit_deferral(m: ServerMetrics) -> ServerMetrics {
    ServerMetrics {
        prefix_aware_admit_deferrals_total:
            m.prefix_aware_admit_deferrals_total.wrapping_add(1),
        ..m
    }
}

/// The metrics after `set_active`.
pub open spec fn after_active(m: ServerMetrics, n: u64) -> ServerMetrics {
    ServerMetrics {
        requests_active: n,
        ..m
    }
}

/// The metrics after `set_waiting`.
pub open spec fn after_waiting(m: ServerMetrics, n: u64) -> ServerMetrics {
    ServerMetrics {
        requests_waiting: n,
        ..m
    }
}

/// The metrics after `set_scheduler_occupancy`.
pub open spec fn after_scheduler_occupancy(
    m: ServerMetrics,
    running_batch: u64,
    prefill_queue: u64,
) -> ServerMetrics {
    ServerMetrics {
        scheduler_running_batch: running_batch,
        scheduler_prefill_queue: prefill_queue,
        ..m
    }
}

/// The metrics after `set_scheduler_step`.
pub open spec fn after_scheduler_step(
    m: ServerMetrics,
    scheduled_rows: u64,
    scheduled_decode_rows: u64,
    scheduled_prefill_rows: u64,
    decode_tokens: u64,
    prefill_tokens: u64,
    batch_width: u64,
) -> ServerMetrics {
    ServerMetrics {
        scheduler_scheduled_rows: scheduled_rows,
        scheduler_scheduled_decode_rows: scheduled_decode_rows,
        scheduler_scheduled_prefill_rows: scheduled_prefill_rows,
        scheduler_decode_tokens: decode_tokens,
        scheduler_prefill_tokens: prefill_tokens,
        scheduler_batch_width: batch_width,
        ..m
    }
}

/// The metrics after `set_scheduler_step_phase_us`.
pub open spec fn after_scheduler_step_phase_us(
    m: ServerMetrics,
    admission_us: u64,
    prefill_us: u64,
    decode_us: u64,
    emit_us: u64,
    total_us: u64,
) -> ServerMetrics {
    ServerMetrics {
        scheduler_step_admission_us: admission_us,
        scheduler_step_prefill_us: prefill_us,
        scheduler_step_decode_us: decode_us,
        scheduler_step_emit_us: emit_us,
        scheduler_step_total_us: total_us,
        scheduler_step_phase_samples:
            m.scheduler_step_phase_samples.wrapping_add(1),
        ..m
    }
}

/// The metrics after `set_scheduler_loop_phase_us`.
pub open spec fn after_scheduler_loop_phase_us(
    m: ServerMetrics,
    cleanup_us: u64,
    loop_total_us: u64,
) -> ServerMetrics {
    ServerMetrics {
        scheduler_step_cleanup_us: cleanup_us,
        scheduler_loop_total_us: loop_total_us,
        ..m
    }
}

/// The metrics after `set_preprocess_stage`.
pub open spec fn after_preprocess_stage(
    m: ServerMetrics,
    queue_depth: u64,
    wait_us: u64,
    tokenize_us: u64,
) -> ServerMetrics {
    ServerMetrics {
        preprocess_queue_depth: queue_depth,
        preprocess_wait_us: wait_us,
        preprocess_tokenize_us: tokenize_us,
        ..m
    }
}

/// The metrics after `set_scheduler_pipeline_us`.
pub open spec fn after_scheduler_pipeline_us(
    m: ServerMetrics,
    snapshot_us: u64,
    cpu_plan_us: u64,
    gpu_completion_wait_us: u64,
    gpu_command_queue_depth: u64,
) -> ServerMetrics {
    ServerMetrics {
        scheduler_pipeline_snapshot_us: snapshot_us,
        scheduler_pipeline_cpu_plan_us: cpu_plan_us,
        scheduler_pipeline_gpu_completion_wait_us: gpu_completion_wait_us,
        scheduler_pipeline_gpu_command_queue_depth: gpu_command_queue_depth,
        ..m
    }
}

/// The metrics after `set_runtime_topology`.
pub open spec fn after_runtime_topology(
    m: ServerMetrics,
    topology: RuntimeTopology,
    placement: WorkerPlacement,
    affinity: AffinityApplyResult,
) -> ServerMetrics {
    ServerMetrics {
        runtime_topology: RuntimeTopologyMetrics {
            numa_nodes: topology.numa_nodes@.len() as u64,
            gpus: topology.gpus@.len() as u64,
            nics: topology.nics@.len() as u64,
            worker_id: placement.worker_id as u64,
            worker_gpu_ordinal: placement.gpu_ordinal as u64,
            worker_numa_node: match placement.numa_node {
                Some(node) => node as i64,
                None => (-1) as i64,
            },
            worker_cpu_count: placement.cpus@.len() as u64,
            worker_nic_count: placement.nics@.len() as u64,
            affinity_applied: affinity.applied,
            affinity_threads: affinity.applied_threads as u64,
            affinity_failed_threads: affinity.failed_threads as u64,
            affinity_reason: affinity.reason,
            ..m.runtime_topology
        },
        ..m
    }
}

/// The metrics after `set_preprocess_topology`.
pub open spec fn after_preprocess_topology(
    m: ServerMetrics,
    groups: usize,
    workers: usize,
) -> ServerMetrics {
    ServerMetrics {
        runtime_topology: RuntimeTopologyMetrics {
            preprocess_groups: groups as u64,
            preprocess_workers: workers as u64,
            ..m.runtime_topology
        },
        ..m
    }
}

/// The metrics after `set_detokenizer_topology`.
pub open spec fn after_detokenizer_topology(
    m: ServerMetrics,
    groups: usize,
    workers: usize,
) -> ServerMetrics {
    ServerMetrics {
        runtime_topology: RuntimeTopologyMetrics {
            detokenizer_groups: groups as u64,
            detokenizer_workers: workers as u64,
            ..m.runtime_topology
        },
        ..m
    }
}

/// The metrics after `observe_h2d_latency_us`.
pub open spec fn after_h2d_latency_us(m: ServerMetrics, latency_us: u64) -> ServerMetrics {
    ServerMetrics {
        runtime_topology: RuntimeTopologyMetrics {
            h2d_latency_last_us: latency_us,
            h2d_latency_max_us: if m.runtime_topology.h2d_latency_max_us >= latency_us {
                m.runtime_topology.h2d_latency_max_us
            } else {
                latency_us
            },
            h2d_latency_count: m.runtime_topology.h2d_latency_count.saturating_add(1),
            ..m.runtime_topology
        },
        ..m
    }
}

/// The metrics after `record_numa_route`.
pub open spec fn after_numa_route(
    m: ServerMetrics,
    route_cost: u32,
    local: Option<bool>,
) -> ServerMetrics {
    ServerMetrics {
        runtime_topology: RuntimeTopologyMetrics {
            numa_route_local_total: if local == Some(true) {
                m.runtime_topology.numa_route_local_total.saturating_add(1)
            } else {
                m.runtime_topology.numa_route_local_total
            },
            numa_route_cross_total: if local == Some(false) {
                m.runtime_topology.numa_route_cross_total.saturating_add(1)
            } else {
                m.runtime_topology.numa_route_cross_total
            },
            numa_route_unknown_total: if local is None {
                m.runtime_topology.numa_route_unknown_total.saturating_add(1)
            } else {
                m.runtime_topology.numa_route_unknown_total
            },
            numa_route_cost_last: route_cost as u64,
            ..m.runtime_topology
        },
        ..m
    }
}

/// The metrics after `record_numa_migration`.
pub open spec fn after_numa_migration(m: ServerMetrics) -> ServerMetrics {
    ServerMetrics {
        runtime_topology: RuntimeTopologyMetrics {
            numa_migration_total:
                m.runtime_topology.numa_migration_total.saturating_add(1),
            ..m.runtime_topology
        },
        ..m
    }
}

/// The metrics after `record_numa_rebalance`.
pub open spec fn after_numa_rebalance(m: ServerMetrics) -> ServerMetrics {
    ServerMetrics {
        runtime_topology: RuntimeTopologyMetrics {
            numa_rebalance_total:
                m.runtime_topology.numa_rebalance_total.saturating_add(1),
            ..m.runtime_topology
        },
        ..m
    }
}

/// The metrics after `record_scheduler_cpu_plan_accept`.
pub open spec fn after_scheduler_cpu_plan_accept(m: ServerMetrics) -> ServerMetrics {
    ServerMetrics {
        scheduler_pipeline_cpu_plan_accept_total:
            m.scheduler_pipeline_cpu_plan_accept_total.wrapping_add(1),
        ..m
    }
}

/// The metrics after `record_scheduler_cpu_plan_stale`.
pub open spec fn after_scheduler_cpu_plan_stale(m: ServerMetrics) -> ServerMetrics {
    ServerMetrics {
        scheduler_pipeline_cpu_plan_stale_total:
            m.scheduler_pipeline_cpu_plan_stale_total.wrapping_add(1),
        ..m
    }
}

/// The metrics after `record_scheduler_plan`.
pub open spec fn after_scheduler_plan(
    m: ServerMetrics,
    label: SchedulerPlanLabel,
) -> ServerMetrics {
    match label {
        SchedulerPlanLabel::Idle => ServerMetrics {
            scheduler_plan_idle_total: m.scheduler_plan_idle_total.wrapping_add(1),
            ..m
        },
        SchedulerPlanLabel::Decode => ServerMetrics {
            scheduler_plan_decode_total:
                m.scheduler_plan_decode_total.wrapping_add(1),
            ..m
        },
        SchedulerPlanLabel::Prefill => ServerMetrics {
            scheduler_plan_prefill_total:
                m.scheduler_plan_prefill_total.wrapping_add(1),
            ..m
        },
        SchedulerPlanLabel::Split => ServerMetrics {
            scheduler_plan_split_total:
                m.scheduler_plan_split_total.wrapping_add(1),
            ..m
        },
        SchedulerPlanLabel::Mixed => ServerMetrics {
            scheduler_plan_mixed_total:
                m.scheduler_plan_mixed_total.wrapping_add(1),
            ..m
        },
    }
}

/// The metrics after `record_prefill_path_mixed_ok_true`.
pub open spec fn after_prefill_path_mixed_ok_true(m: ServerMetrics) -> ServerMetrics {
    ServerMetrics {
        prefill_path_mixed_ok_true_total:
            m.prefill_path_mixed_ok_true_total.wrapping_add(1),
        ..m
    }
}

/// The metrics after `set_kv_coordinator`.
pub open spec fn after_kv_coordinator(
    m: ServerMetrics,
    queue_capacity: u64,
    fetch_queue_depth: u64,
    fetch_waiters: u64,
    store_queue_depth: u64,
    fetch_backpressure: bool,
    store_backpressure: bool,
    store_submitted_total: u64,
    store_completed_total: u64,
    store_failed_total: u64,
    store_rejected_total: u64,
) -> ServerMetrics {
    ServerMetrics {
        kv_coordinator_queue_capacity: queue_capacity,
        kv_fetch_queue_depth: fetch_queue_depth,
        kv_fetch_waiters: fetch_waiters,
        kv_store_queue_depth: store_queue_depth,
        kv_fetch_backpressure: gauge(fetch_backpressure),
        kv_store_backpressure: gauge(store_backpressure),
        kv_store_submitted_total: store_submitted_total,
        kv_store_completed_total: store_completed_total,
        kv_store_failed_total: store_failed_total,
        kv_store_rejected_total: store_rejected_total,
        ..m
    }
}

/// The metrics after `set_tier_wait_seconds`.
pub open spec fn after_tier_wait_seconds(
    m: ServerMetrics,
    fetch_wait_us: u64,
    store_wait_us: u64,
) -> ServerMetrics {
    ServerMetrics {
        tier_fetch_wait_us: fetch_wait_us,
        tier_store_wait_us: store_wait_us,
        ..m
    }
}

/// The metrics after `set_kv_gpu_blocks`.
pub open spec fn after_kv_gpu_blocks(m: ServerMetrics, free: u64, total: u64) -> ServerMetrics {
    ServerMetrics {
        kv_gpu_blocks_free: free,
        kv_gpu_blocks_total: total,
        ..m
    }
}

/// The metrics after `set_memory_bytes`.
pub open spec fn after_memory_bytes(
    m: ServerMetrics,
    active: u64,
    peak: u64,
    cache: u64,
) -> ServerMetrics {
    ServerMetrics {
        memory_active_bytes: active,
        memory_peak_bytes: peak,
        memory_cache_bytes: cache,
        ..m
    }
}

/// The metrics after `record_spec_sparse_view_empty`.
pub open spec fn after_spec_sparse_view_empty(m: ServerMetrics, rows: usize) -> ServerMetrics {
    ServerMetrics {
        spec_sparse_view_empty_total:
            m.spec_sparse_view_empty_total.wrapping_add(rows as u64),
        ..m
    }
}

/// The metrics after `record_dflash_block`.
pub open spec fn after_dflash_block(
    m: ServerMetrics,
    accepted_inputs: usize,
    block_size: usize,
) -> ServerMetrics {
    ServerMetrics {
        dflash_blocks_total: m.dflash_blocks_total.wrapping_add(1),
        dflash_accepted_tokens_total:
            m.dflash_accepted_tokens_total.wrapping_add(accepted_inputs as u64),
        dflash_draft_tokens_total:
            m.dflash_draft_tokens_total.wrapping_add(block_size as u64),
        ..m
    }
}

/// The metrics after `record_metal_decode_batch`.
pub open spec fn after_metal_decode_batch(m: ServerMetrics, rows: usize) -> ServerMetrics {
    ServerMetrics {
        metal_decode_batches_total: m.metal_decode_batches_total.wrapping_add(1),
        metal_decode_batched_rows_total:
            m.metal_decode_batched_rows_total.wrapping_add(rows as u64),
        ..m
    }
}

/// The metrics after `record_metal_decode_scalar_row`.
pub open spec fn after_metal_decode_scalar_row(m: ServerMetrics) -> ServerMetrics {
    ServerMetrics {
        metal_decode_scalar_rows_total:
            m.metal_decode_scalar_rows_total.wrapping_add(1),
        ..m
    }
}

/// The metrics after `record_metal_decode_batch_fallback`.
pub open spec fn after_metal_decode_batch_fallback(
    m: ServerMetrics,
    rows: usize,
) -> ServerMetrics {
    ServerMetrics {
        metal_decode_batch_fallback_rows_total:
            m.metal_decode_batch_fallback_rows_total.wrapping_add(rows as u64),
        ..m
    }
}

/// The metrics after `record_metal_qwen35_packed_decode_batch`.
pub open spec fn after_metal_qwen35_packed_decode_batch(
    m: ServerMetrics,
    rows: usize,
) -> ServerMetrics {
    ServerMetrics {
        metal_qwen35_packed_decode_batches_total:
            m.metal_qwen35_packed_decode_batches_total.wrapping_add(1),
        metal_qwen35_packed_decode_rows_total:
            m.metal_qwen35_packed_decode_rows_total.wrapping_add(rows as u64),
        ..m
    }
}

/// `after` is `before` after one scheduler tick was observed.
pub open spec fn is_observed_step(
    before: ServerMetrics,
    after: ServerMetrics,
    step_us: u64,
) -> bool {
    &&& after == (ServerMetrics {
        scheduler_step_last_us: step_us,
        histograms: after.histograms,
        ..before
    })
    &&& after.histograms == (HistogramSet {
        scheduler_step: after.histograms.scheduler_step,
        ..before.histograms
    })
    &&& after.histograms.scheduler_step@ == observed(before.histograms.scheduler_step@, step_us)
}

/// `after` is `before` after one speculative step was recorded.
pub open spec fn is_spec_step(
    before: ServerMetrics,
    after: ServerMetrics,
    draft_tokens: usize,
    verified_tokens: usize,
    accepted_tokens: usize,
    latency_us: u64,
) -> bool {
    let verified = before.spec_verified_tokens_total.saturating_add(verified_tokens as u64);
    let accepted = before.spec_accepted_tokens_total.saturating_add(accepted_tokens as u64);
    &&& after == (ServerMetrics {
        spec_draft_tokens_total:
            before.spec_draft_tokens_total.wrapping_add(draft_tokens as u64),
        spec_verified_tokens_total:
            before.spec_verified_tokens_total.wrapping_add(verified_tokens as u64),
        spec_accepted_tokens_total:
            before.spec_accepted_tokens_total.wrapping_add(accepted_tokens as u64),
        spec_acceptance_rate_ppm: if verified == 0 {
            0
        } else {
            rounded(times(ratio(accepted as nat, verified as nat), 1_000_000)) as u64
        },
        histograms: after.histograms,
        ..before
    })
    &&& after.histograms == (HistogramSet {
        spec_step_latency_us: after.histograms.spec_step_latency_us,
        ..before.histograms
    })
    &&& after.histograms.spec_step_latency_us@ == observed(
        before.histograms.spec_step_latency_us@,
        latency_us,
    )
}

} // verus!
