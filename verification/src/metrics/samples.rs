//! What the exposition shows of the metrics: the value under each name and
//! label.

use vstd::prelude::*;

use crate::double::{fixed_text, ratio};
use crate::metrics::exposition::{
    all_families, decode_families, draft_rate, families_text, family_header, family_text,
    histogram_family, kv_families, label_text, lookup_families, model_labels, outcome_families,
    phase_families, pipeline_families, placement_families, prometheus_text, recall_rate,
    request_families, samples_text, scheduler_families, speculation_families, tier_families,
    utilization, FamilyView, SampleView,
};
use crate::metrics::histogram::{histogram_text, sample_line, HistogramView};
use crate::metrics::server::ServerMetrics;
use crate::text::{decimal, flag, signed_decimal};

verus! {

/// Some family of the list has the name and shows the value under the label; a
/// value without a label stands alone.
pub open spec fn shown(
    fs: Seq<FamilyView>,
    name: Seq<char>,
    label: Seq<char>,
    value: Seq<char>,
) -> bool {
    exists|i: int, k: int|
        0 <= i < fs.len() && 0 <= k < fs[i].samples.len() && fs[i].name == name && (label.len()
            == 0 ==> fs[i].samples.len() == 1) && (#[trigger] fs[i].samples[k]) == (SampleView {
            label,
            value,
        })
}

/// The exposition shows the value under the name and the label.
pub open spec fn reads(
    m: ServerMetrics,
    name: Seq<char>,
    label: Seq<char>,
    value: Seq<char>,
) -> bool {
    shown(all_families(m), name, label, value)
}

/// The number under the name and the label grows by `n` from one exposition
/// to the other.
pub open spec fn grows(
    before: ServerMetrics,
    after: ServerMetrics,
    name: Seq<char>,
    label: Seq<char>,
    n: nat,
) -> bool {
    exists|v: nat|
        #[trigger] reads(before, name, label, decimal(v)) && reads(
            after,
            name,
            label,
            decimal(v + n),
        )
}

/// What a part of a list shows, the list shows.
proof fn lemma_joined_shown(a: Seq<FamilyView>, b: Seq<FamilyView>)
    ensures
        forall|name: Seq<char>, label: Seq<char>, value: Seq<char>|
            #[trigger] shown(a, name, label, value) ==> shown(a + b, name, label, value),
        forall|name: Seq<char>, label: Seq<char>, value: Seq<char>|
            #[trigger] shown(b, name, label, value) ==> shown(a + b, name, label, value),
{
    assert forall|name: Seq<char>, label: Seq<char>, value: Seq<char>| #[trigger]
        shown(a, name, label, value) implies shown(a + b, name, label, value) by {
        let (i, k) = choose|i: int, k: int|
            0 <= i < a.len() && 0 <= k < a[i].samples.len() && a[i].name == name && (label.len()
                == 0 ==> a[i].samples.len() == 1) && (#[trigger] a[i].samples[k]) == (SampleView {
                label,
                value,
            });
        assert((a + b)[i] == a[i]);
        assert((a + b)[i].samples[k] == (SampleView { label, value }));
    }
    assert forall|name: Seq<char>, label: Seq<char>, value: Seq<char>| #[trigger]
        shown(b, name, label, value) implies shown(a + b, name, label, value) by {
        let (i, k) = choose|i: int, k: int|
            0 <= i < b.len() && 0 <= k < b[i].samples.len() && b[i].name == name && (label.len()
                == 0 ==> b[i].samples.len() == 1) && (#[trigger] b[i].samples[k]) == (SampleView {
                label,
                value,
            });
        assert((a + b)[a.len() + i] == b[i]);
        assert((a + b)[a.len() + i].samples[k] == (SampleView { label, value }));
    }
}

/// What a group of families shows, the exposition shows.
proof fn lemma_groups_are_read(m: ServerMetrics)
    ensures
        forall|name: Seq<char>, label: Seq<char>, value: Seq<char>|
            #[trigger] shown(request_families(m), name, label, value) ==> reads(
                m,
                name,
                label,
                value,
            ),
        forall|name: Seq<char>, label: Seq<char>, value: Seq<char>|
            #[trigger] shown(lookup_families(m), name, label, value) ==> reads(
                m,
                name,
                label,
                value,
            ),
        forall|name: Seq<char>, label: Seq<char>, value: Seq<char>|
            #[trigger] shown(tier_families(m), name, label, value) ==> reads(
                m,
                name,
                label,
                value,
            ),
        forall|name: Seq<char>, label: Seq<char>, value: Seq<char>|
            #[trigger] shown(decode_families(m), name, label, value) ==> reads(
                m,
                name,
                label,
                value,
            ),
        forall|name: Seq<char>, label: Seq<char>, value: Seq<char>|
            #[trigger] shown(scheduler_families(m), name, label, value) ==> reads(
                m,
                name,
                label,
                value,
            ),
        forall|name: Seq<char>, label: Seq<char>, value: Seq<char>|
            m.scheduler_step_phase_samples != 0 && #[trigger] shown(
                phase_families(m),
                name,
                label,
                value,
            ) ==> reads(m, name, label, value),
        forall|name: Seq<char>, label: Seq<char>, value: Seq<char>|
            #[trigger] shown(pipeline_families(m), name, label, value) ==> reads(
                m,
                name,
                label,
                value,
            ),
        forall|name: Seq<char>, label: Seq<char>, value: Seq<char>|
            #[trigger] shown(placement_families(m), name, label, value) ==> reads(
                m,
                name,
                label,
                value,
            ),
        forall|name: Seq<char>, label: Seq<char>, value: Seq<char>|
            #[trigger] shown(outcome_families(m), name, label, value) ==> reads(
                m,
                name,
                label,
                value,
            ),
        forall|name: Seq<char>, label: Seq<char>, value: Seq<char>|
            #[trigger] shown(speculation_families(m), name, label, value) ==> reads(
                m,
                name,
                label,
                value,
            ),
        forall|name: Seq<char>, label: Seq<char>, value: Seq<char>|
            #[trigger] shown(kv_families(m), name, label, value) ==> reads(
                m,
                name,
                label,
                value,
            ),
{
    let phases = if m.scheduler_step_phase_samples == 0 {
        Seq::<FamilyView>::empty()
    } else {
        phase_families(m)
    };
    let s1 = request_families(m) + lookup_families(m);
    lemma_joined_shown(request_families(m), lookup_families(m));
    let s2 = s1 + tier_families(m);
    lemma_joined_shown(s1, tier_families(m));
    let s3 = s2 + decode_families(m);
    lemma_joined_shown(s2, decode_families(m));
    let s4 = s3 + scheduler_families(m);
    lemma_joined_shown(s3, scheduler_families(m));
    let s5 = s4 + phases;
    lemma_joined_shown(s4, phases);
    let s6 = s5 + pipeline_families(m);
    lemma_joined_shown(s5, pipeline_families(m));
    let s7 = s6 + placement_families(m);
    lemma_joined_shown(s6, placement_families(m));
    let s8 = s7 + outcome_families(m);
    lemma_joined_shown(s7, outcome_families(m));
    let s9 = s8 + speculation_families(m);
    lemma_joined_shown(s8, speculation_families(m));
    let s10 = s9 + kv_families(m);
    lemma_joined_shown(s9, kv_families(m));
}

/// A label is never empty.
proof fn lemma_labels_have_text()
    ensures
        forall|key: Seq<char>, value: Seq<char>| (#[trigger] label_text(key, value)).len() > 0,
{
    reveal_strlit("\",");
}

/// A list shows the samples of its families.
proof fn lemma_shown_at(fs: Seq<FamilyView>, i: int, k: int)
    requires
        0 <= i < fs.len(),
        0 <= k < fs[i].samples.len(),
        fs[i].samples[k].label.len() == 0 ==> fs[i].samples.len() == 1,
    ensures
        shown(fs, fs[i].name, fs[i].samples[k].label, fs[i].samples[k].value),
{
    assert(fs[i].samples[k] == (SampleView {
        label: fs[i].samples[k].label,
        value: fs[i].samples[k].value,
    }));
}

/// The readings of requests, tokens and prefix reuse.
#[verifier::rlimit(40)]
pub proof fn lemma_request_readings(m: ServerMetrics)
    ensures
        reads(m, "infer_requests_total"@, Seq::empty(), decimal(m.requests_total as nat)),
        reads(
            m,
            "infer_tokens_generated_total"@,
            Seq::empty(),
            decimal(m.tokens_generated_total as nat),
        ),
        reads(
            m,
            "infer_tokens_prompt_total"@,
            Seq::empty(),
            decimal(m.tokens_prompt_total as nat),
        ),
        reads(
            m,
            "infer_requests_failed_total"@,
            Seq::empty(),
            decimal(m.requests_failed_total as nat),
        ),
        reads(
            m,
            "infer_prefix_lookups_total"@,
            Seq::empty(),
            decimal(m.prefix_lookups_total as nat),
        ),
        reads(m, "infer_prefix_hits_total"@, Seq::empty(), decimal(m.prefix_hits_total as nat)),
        reads(
            m,
            "infer_prefix_hit_rate"@,
            Seq::empty(),
            fixed_text(ratio(m.prefix_hits_total as nat, m.prefix_lookups_total as nat), 4),
        ),
        reads(
            m,
            "infer_prefix_reused_tokens_total"@,
            Seq::empty(),
            decimal(m.prefix_reused_tokens_total as nat),
        ),
        reads(
            m,
            "infer_prefix_lookup_prompt_tokens_total"@,
            Seq::empty(),
            decimal(m.prefix_lookup_prompt_tokens_total as nat),
        ),
        reads(
            m,
            "infer_prefix_skip_rate"@,
            Seq::empty(),
            fixed_text(
                ratio(
                    m.prefix_reused_tokens_total as nat,
                    m.prefix_lookup_prompt_tokens_total as nat,
                ),
                4,
            ),
        ),
        reads(
            m,
            "infer_prefix_request_hit_rate"@,
            Seq::empty(),
            fixed_text(ratio(m.prefix_request_hit_ppm as nat, 1_000_000), 4),
        ),
        reads(
            m,
            "infer_prefix_request_skip_rate"@,
            Seq::empty(),
            fixed_text(ratio(m.prefix_request_skip_ppm as nat, 1_000_000), 4),
        ),
        reads(
            m,
            "infer_session_affinity_hit_total"@,
            Seq::empty(),
            decimal(m.session_affinity_hit_total as nat),
        ),
        reads(
            m,
            "infer_session_affinity_miss_total"@,
            Seq::empty(),
            decimal(m.session_affinity_miss_total as nat),
        ),
        reads(
            m,
            "infer_session_slot_pressure_evictions_hard_total"@,
            Seq::empty(),
            decimal(m.session_slot_pressure_evictions_hard_total as nat),
        ),
        reads(
            m,
            "infer_prefix_aware_admit_deferrals_total"@,
            Seq::empty(),
            decimal(m.prefix_aware_admit_deferrals_total as nat),
        ),
        reads(
            m,
            "infer_matched_prefix_tokens"@,
            Seq::empty(),
            decimal(m.matched_prefix_tokens as nat),
        ),
        reads(
            m,
            "infer_resume_prefill_tokens"@,
            Seq::empty(),
            decimal(m.resume_prefill_tokens as nat),
        ),
        reads(
            m,
            "infer_prefix_lookup_latency_microseconds"@,
            Seq::empty(),
            decimal(m.prefix_lookup_latency_us as nat),
        ),
        reads(
            m,
            "infer_prefix_lookup_reusable_tokens"@,
            Seq::empty(),
            decimal(m.prefix_lookup_reusable_tokens as nat),
        ),
{
    lemma_groups_are_read(m);
    reveal(request_families);
    let fs = request_families(m);
    lemma_shown_at(fs, 0, 0);
    lemma_shown_at(fs, 1, 0);
    lemma_shown_at(fs, 2, 0);
    lemma_shown_at(fs, 3, 0);
    lemma_shown_at(fs, 4, 0);
    lemma_shown_at(fs, 5, 0);
    lemma_shown_at(fs, 6, 0);
    lemma_shown_at(fs, 7, 0);
    lemma_shown_at(fs, 8, 0);
    lemma_shown_at(fs, 9, 0);
    lemma_shown_at(fs, 10, 0);
    lemma_shown_at(fs, 11, 0);
    lemma_shown_at(fs, 12, 0);
    lemma_shown_at(fs, 13, 0);
    lemma_shown_at(fs, 14, 0);
    lemma_shown_at(fs, 15, 0);
    lemma_shown_at(fs, 16, 0);
    lemma_shown_at(fs, 17, 0);
    lemma_shown_at(fs, 18, 0);
    lemma_shown_at(fs, 19, 0);
}

/// The readings of the most recent prefix lookup.
pub proof fn lemma_lookup_readings(m: ServerMetrics)
    ensures
        reads(
            m,
            "infer_prefix_lookup_ready_on_gpu"@,
            Seq::empty(),
            decimal(flag(m.prefix_lookup_ready_on_gpu != 0)),
        ),
        reads(
            m,
            "infer_prefix_lookup_direct_gpu_attach"@,
            Seq::empty(),
            decimal(flag(m.prefix_lookup_direct_gpu_attach != 0)),
        ),
        reads(
            m,
            "infer_prefix_lookup_staged"@,
            Seq::empty(),
            decimal(flag(m.prefix_lookup_staged != 0)),
        ),
        reads(
            m,
            "infer_prefix_lookup_prefetch"@,
            Seq::empty(),
            decimal(flag(m.prefix_lookup_prefetch != 0)),
        ),
        reads(
            m,
            "infer_prefix_lookup_recompute"@,
            Seq::empty(),
            decimal(flag(m.prefix_lookup_recompute != 0)),
        ),
{
    lemma_groups_are_read(m);
    reveal(lookup_families);
    let fs = lookup_families(m);
    lemma_shown_at(fs, 0, 0);
    lemma_shown_at(fs, 1, 0);
    lemma_shown_at(fs, 2, 0);
    lemma_shown_at(fs, 3, 0);
    lemma_shown_at(fs, 4, 0);
}

/// The readings of staged fetches.
pub proof fn lemma_tier_readings(m: ServerMetrics)
    ensures
        reads(
            m,
            "infer_tier_fetch_staged_host_blocks_total"@,
            Seq::empty(),
            decimal(m.tier_fetch_staged_host_blocks_total as nat),
        ),
        reads(
            m,
            "infer_tier_fetch_staged_disk_blocks_total"@,
            Seq::empty(),
            decimal(m.tier_fetch_staged_disk_blocks_total as nat),
        ),
        reads(
            m,
            "infer_tier_fetch_staged_remote_blocks_total"@,
            Seq::empty(),
            decimal(m.tier_fetch_staged_remote_blocks_total as nat),
        ),
        reads(
            m,
            "infer_tier_fetch_promoted_blocks_total"@,
            Seq::empty(),
            decimal(m.tier_fetch_promoted_blocks_total as nat),
        ),
        reads(
            m,
            "infer_tier_fetch_fallback_total"@,
            Seq::empty(),
            decimal(m.tier_fetch_fallback_total as nat),
        ),
        reads(m, "infer_tier_fetch_recall_rate"@, Seq::empty(), fixed_text(recall_rate(m), 4)),
{
    lemma_groups_are_read(m);
    reveal(tier_families);
    let fs = tier_families(m);
    lemma_shown_at(fs, 0, 0);
    lemma_shown_at(fs, 1, 0);
    lemma_shown_at(fs, 2, 0);
    lemma_shown_at(fs, 3, 0);
    lemma_shown_at(fs, 4, 0);
    lemma_shown_at(fs, 5, 0);
}

/// The readings of speculative blocks and Metal decode paths.
pub proof fn lemma_decode_readings(m: ServerMetrics)
    ensures
        reads(
            m,
            "infer_dflash_blocks_total"@,
            Seq::empty(),
            decimal(m.dflash_blocks_total as nat),
        ),
        reads(
            m,
            "infer_dflash_accepted_tokens_total"@,
            Seq::empty(),
            decimal(m.dflash_accepted_tokens_total as nat),
        ),
        reads(m, "infer_dflash_acceptance_rate"@, Seq::empty(), fixed_text(draft_rate(m), 4)),
        reads(
            m,
            "infer_dflash_utilization"@,
            Seq::empty(),
            fixed_text(
                ratio(
                    m.dflash_accepted_tokens_total as nat,
                    m.dflash_draft_tokens_total as nat,
                ),
                4,
            ),
        ),
        reads(
            m,
            "infer_metal_decode_batches_total"@,
            Seq::empty(),
            decimal(m.metal_decode_batches_total as nat),
        ),
        reads(
            m,
            "infer_metal_decode_batched_rows_total"@,
            Seq::empty(),
            decimal(m.metal_decode_batched_rows_total as nat),
        ),
        reads(
            m,
            "infer_metal_decode_scalar_rows_total"@,
            Seq::empty(),
            decimal(m.metal_decode_scalar_rows_total as nat),
        ),
        reads(
            m,
            "infer_metal_decode_batch_fallback_rows_total"@,
            Seq::empty(),
            decimal(m.metal_decode_batch_fallback_rows_total as nat),
        ),
        reads(
            m,
            "infer_metal_qwen35_packed_decode_batches_total"@,
            Seq::empty(),
            decimal(m.metal_qwen35_packed_decode_batches_total as nat),
        ),
        reads(
            m,
            "infer_metal_qwen35_packed_decode_rows_total"@,
            Seq::empty(),
            decimal(m.metal_qwen35_packed_decode_rows_total as nat),
        ),
{
    lemma_groups_are_read(m);
    reveal(decode_families);
    let fs = decode_families(m);
    lemma_shown_at(fs, 0, 0);
    lemma_shown_at(fs, 1, 0);
    lemma_shown_at(fs, 2, 0);
    lemma_shown_at(fs, 3, 0);
    lemma_shown_at(fs, 4, 0);
    lemma_shown_at(fs, 5, 0);
    lemma_shown_at(fs, 6, 0);
    lemma_shown_at(fs, 7, 0);
    lemma_shown_at(fs, 8, 0);
    lemma_shown_at(fs, 9, 0);
}

/// The readings of queue occupancy and the most recent tick.
pub proof fn lemma_scheduler_readings(m: ServerMetrics)
    ensures
        reads(m, "infer_requests_active"@, Seq::empty(), decimal(m.requests_active as nat)),
        reads(m, "infer_requests_waiting"@, Seq::empty(), decimal(m.requests_waiting as nat)),
        reads(
            m,
            "infer_scheduler_running_batch"@,
            Seq::empty(),
            decimal(m.scheduler_running_batch as nat),
        ),
        reads(
            m,
            "infer_scheduler_prefill_queue"@,
            Seq::empty(),
            decimal(m.scheduler_prefill_queue as nat),
        ),
        reads(
            m,
            "infer_scheduler_scheduled_rows"@,
            Seq::empty(),
            decimal(m.scheduler_scheduled_rows as nat),
        ),
        reads(
            m,
            "infer_scheduler_scheduled_decode_rows"@,
            Seq::empty(),
            decimal(m.scheduler_scheduled_decode_rows as nat),
        ),
        reads(
            m,
            "infer_scheduler_scheduled_prefill_rows"@,
            Seq::empty(),
            decimal(m.scheduler_scheduled_prefill_rows as nat),
        ),
        reads(
            m,
            "infer_scheduler_decode_tokens"@,
            Seq::empty(),
            decimal(m.scheduler_decode_tokens as nat),
        ),
        reads(
            m,
            "infer_scheduler_prefill_tokens"@,
            Seq::empty(),
            decimal(m.scheduler_prefill_tokens as nat),
        ),
        reads(
            m,
            "infer_scheduler_batch_width"@,
            Seq::empty(),
            decimal(m.scheduler_batch_width as nat),
        ),
        reads(
            m,
            "infer_scheduler_step_last_seconds"@,
            Seq::empty(),
            fixed_text(ratio(m.scheduler_step_last_us as nat, 1_000_000), 6),
        ),
{
    lemma_groups_are_read(m);
    reveal(scheduler_families);
    let fs = scheduler_families(m);
    lemma_shown_at(fs, 0, 0);
    lemma_shown_at(fs, 1, 0);
    lemma_shown_at(fs, 2, 0);
    lemma_shown_at(fs, 3, 0);
    lemma_shown_at(fs, 4, 0);
    lemma_shown_at(fs, 5, 0);
    lemma_shown_at(fs, 6, 0);
    lemma_shown_at(fs, 7, 0);
    lemma_shown_at(fs, 8, 0);
    lemma_shown_at(fs, 9, 0);
    lemma_shown_at(fs, 10, 0);
}

/// The readings of averaged phase durations.
pub proof fn lemma_phase_readings(m: ServerMetrics)
    requires
        m.scheduler_step_phase_samples != 0,
    ensures
        reads(
            m,
            "infer_scheduler_step_phase_admission_microseconds"@,
            Seq::empty(),
            decimal(m.scheduler_step_admission_us as nat),
        ),
        reads(
            m,
            "infer_scheduler_step_phase_prefill_microseconds"@,
            Seq::empty(),
            decimal(m.scheduler_step_prefill_us as nat),
        ),
        reads(
            m,
            "infer_scheduler_step_phase_decode_microseconds"@,
            Seq::empty(),
            decimal(m.scheduler_step_decode_us as nat),
        ),
        reads(
            m,
            "infer_scheduler_step_phase_emit_microseconds"@,
            Seq::empty(),
            decimal(m.scheduler_step_emit_us as nat),
        ),
        reads(
            m,
            "infer_scheduler_step_phase_total_microseconds"@,
            Seq::empty(),
            decimal(m.scheduler_step_total_us as nat),
        ),
        reads(
            m,
            "infer_scheduler_step_cleanup_microseconds"@,
            Seq::empty(),
            decimal(m.scheduler_step_cleanup_us as nat),
        ),
        reads(
            m,
            "infer_scheduler_loop_total_microseconds"@,
            Seq::empty(),
            decimal(m.scheduler_loop_total_us as nat),
        ),
{
    lemma_groups_are_read(m);
    reveal(phase_families);
    let fs = phase_families(m);
    lemma_shown_at(fs, 0, 0);
    lemma_shown_at(fs, 1, 0);
    lemma_shown_at(fs, 2, 0);
    lemma_shown_at(fs, 3, 0);
    lemma_shown_at(fs, 4, 0);
    lemma_shown_at(fs, 5, 0);
    lemma_shown_at(fs, 6, 0);
}

/// The readings of preprocessing and the scheduler pipeline.
pub proof fn lemma_pipeline_readings(m: ServerMetrics)
    ensures
        reads(
            m,
            "infer_preprocess_queue_depth"@,
            Seq::empty(),
            decimal(m.preprocess_queue_depth as nat),
        ),
        reads(
            m,
            "infer_preprocess_wait_microseconds"@,
            Seq::empty(),
            decimal(m.preprocess_wait_us as nat),
        ),
        reads(
            m,
            "infer_preprocess_tokenize_microseconds"@,
            Seq::empty(),
            decimal(m.preprocess_tokenize_us as nat),
        ),
        reads(
            m,
            "infer_scheduler_pipeline_snapshot_microseconds"@,
            Seq::empty(),
            decimal(m.scheduler_pipeline_snapshot_us as nat),
        ),
        reads(
            m,
            "infer_scheduler_pipeline_cpu_plan_microseconds"@,
            Seq::empty(),
            decimal(m.scheduler_pipeline_cpu_plan_us as nat),
        ),
        reads(
            m,
            "infer_scheduler_pipeline_gpu_completion_wait_microseconds"@,
            Seq::empty(),
            decimal(m.scheduler_pipeline_gpu_completion_wait_us as nat),
        ),
        reads(
            m,
            "infer_scheduler_pipeline_gpu_command_queue_depth"@,
            Seq::empty(),
            decimal(m.scheduler_pipeline_gpu_command_queue_depth as nat),
        ),
        reads(
            m,
            "infer_scheduler_pipeline_cpu_plan_total"@,
            label_text("outcome"@, "accept"@),
            decimal(m.scheduler_pipeline_cpu_plan_accept_total as nat),
        ),
        reads(
            m,
            "infer_scheduler_pipeline_cpu_plan_total"@,
            label_text("outcome"@, "stale"@),
            decimal(m.scheduler_pipeline_cpu_plan_stale_total as nat),
        ),
{
    lemma_groups_are_read(m);
    lemma_labels_have_text();
    reveal(pipeline_families);
    let fs = pipeline_families(m);
    lemma_shown_at(fs, 0, 0);
    lemma_shown_at(fs, 1, 0);
    lemma_shown_at(fs, 2, 0);
    lemma_shown_at(fs, 3, 0);
    lemma_shown_at(fs, 4, 0);
    lemma_shown_at(fs, 5, 0);
    lemma_shown_at(fs, 6, 0);
    lemma_shown_at(fs, 7, 0);
    lemma_shown_at(fs, 7, 1);
}

/// The readings of topology and placement.
pub proof fn lemma_placement_readings(m: ServerMetrics)
    ensures
        reads(
            m,
            "infer_runtime_topology_numa_nodes"@,
            Seq::empty(),
            decimal(m.runtime_topology.numa_nodes as nat),
        ),
        reads(
            m,
            "infer_runtime_topology_gpus"@,
            Seq::empty(),
            decimal(m.runtime_topology.gpus as nat),
        ),
        reads(
            m,
            "infer_runtime_topology_nics"@,
            Seq::empty(),
            decimal(m.runtime_topology.nics as nat),
        ),
        reads(
            m,
            "infer_runtime_worker_gpu_ordinal"@,
            Seq::empty(),
            decimal(m.runtime_topology.worker_gpu_ordinal as nat),
        ),
        reads(
            m,
            "infer_runtime_worker_cpu_count"@,
            Seq::empty(),
            decimal(m.runtime_topology.worker_cpu_count as nat),
        ),
        reads(
            m,
            "infer_runtime_worker_nic_count"@,
            Seq::empty(),
            decimal(m.runtime_topology.worker_nic_count as nat),
        ),
        reads(
            m,
            "infer_runtime_worker_affinity_applied"@,
            Seq::empty(),
            decimal(flag(m.runtime_topology.affinity_applied)),
        ),
        reads(
            m,
            "infer_runtime_worker_affinity_threads"@,
            Seq::empty(),
            decimal(m.runtime_topology.affinity_threads as nat),
        ),
        reads(
            m,
            "infer_runtime_worker_affinity_failed_threads"@,
            Seq::empty(),
            decimal(m.runtime_topology.affinity_failed_threads as nat),
        ),
        reads(
            m,
            "infer_runtime_preprocess_numa_groups"@,
            Seq::empty(),
            decimal(m.runtime_topology.preprocess_groups as nat),
        ),
        reads(
            m,
            "infer_runtime_preprocess_workers"@,
            Seq::empty(),
            decimal(m.runtime_topology.preprocess_workers as nat),
        ),
        reads(
            m,
            "infer_runtime_detokenizer_numa_groups"@,
            Seq::empty(),
            decimal(m.runtime_topology.detokenizer_groups as nat),
        ),
        reads(
            m,
            "infer_runtime_detokenizer_workers"@,
            Seq::empty(),
            decimal(m.runtime_topology.detokenizer_workers as nat),
        ),
        reads(
            m,
            "infer_runtime_h2d_latency_count"@,
            Seq::empty(),
            decimal(m.runtime_topology.h2d_latency_count as nat),
        ),
        reads(
            m,
            "infer_scheduler_numa_route_cost"@,
            Seq::empty(),
            decimal(m.runtime_topology.numa_route_cost_last as nat),
        ),
        reads(
            m,
            "infer_runtime_worker_numa_node"@,
            Seq::empty(),
            signed_decimal(m.runtime_topology.worker_numa_node as int),
        ),
{
    lemma_groups_are_read(m);
    reveal(placement_families);
    let fs = placement_families(m);
    lemma_shown_at(fs, 0, 0);
    lemma_shown_at(fs, 1, 0);
    lemma_shown_at(fs, 2, 0);
    lemma_shown_at(fs, 3, 0);
    lemma_shown_at(fs, 4, 0);
    lemma_shown_at(fs, 5, 0);
    lemma_shown_at(fs, 6, 0);
    lemma_shown_at(fs, 7, 0);
    lemma_shown_at(fs, 8, 0);
    lemma_shown_at(fs, 9, 0);
    lemma_shown_at(fs, 10, 0);
    lemma_shown_at(fs, 11, 0);
    lemma_shown_at(fs, 12, 0);
    lemma_shown_at(fs, 13, 0);
    lemma_shown_at(fs, 14, 0);
    lemma_shown_at(fs, 15, 0);
}

/// The readings of locality, plans and the mixed path.
#[verifier::rlimit(40)]
pub proof fn lemma_outcome_readings(m: ServerMetrics)
    ensures
        reads(
            m,
            "infer_runtime_numastat_pages"@,
            label_text("placement"@, "local"@),
            decimal(m.runtime_topology.numastat_local_pages as nat),
        ),
        reads(
            m,
            "infer_runtime_numastat_pages"@,
            label_text("placement"@, "remote"@),
            decimal(m.runtime_topology.numastat_remote_pages as nat),
        ),
        reads(
            m,
            "infer_runtime_numastat_pages"@,
            label_text("placement"@, "total"@),
            decimal(m.runtime_topology.numastat_total_pages as nat),
        ),
        reads(
            m,
            "infer_runtime_h2d_latency_microseconds"@,
            label_text("stat"@, "last"@),
            decimal(m.runtime_topology.h2d_latency_last_us as nat),
        ),
        reads(
            m,
            "infer_runtime_h2d_latency_microseconds"@,
            label_text("stat"@, "max"@),
            decimal(m.runtime_topology.h2d_latency_max_us as nat),
        ),
        reads(
            m,
            "infer_scheduler_numa_route_total"@,
            label_text("outcome"@, "local"@),
            decimal(m.runtime_topology.numa_route_local_total as nat),
        ),
        reads(
            m,
            "infer_scheduler_numa_route_total"@,
            label_text("outcome"@, "cross"@),
            decimal(m.runtime_topology.numa_route_cross_total as nat),
        ),
        reads(
            m,
            "infer_scheduler_numa_route_total"@,
            label_text("outcome"@, "unknown"@),
            decimal(m.runtime_topology.numa_route_unknown_total as nat),
        ),
        reads(
            m,
            "infer_scheduler_numa_migration_total"@,
            Seq::empty(),
            decimal(m.runtime_topology.numa_migration_total as nat),
        ),
        reads(
            m,
            "infer_scheduler_numa_rebalance_total"@,
            Seq::empty(),
            decimal(m.runtime_topology.numa_rebalance_total as nat),
        ),
        reads(
            m,
            "infer_scheduler_plan_total"@,
            label_text("plan"@, "idle"@),
            decimal(m.scheduler_plan_idle_total as nat),
        ),
        reads(
            m,
            "infer_scheduler_plan_total"@,
            label_text("plan"@, "decode"@),
            decimal(m.scheduler_plan_decode_total as nat),
        ),
        reads(
            m,
            "infer_scheduler_plan_total"@,
            label_text("plan"@, "prefill"@),
            decimal(m.scheduler_plan_prefill_total as nat),
        ),
        reads(
            m,
            "infer_scheduler_plan_total"@,
            label_text("plan"@, "split"@),
            decimal(m.scheduler_plan_split_total as nat),
        ),
        reads(
            m,
            "infer_scheduler_plan_total"@,
            label_text("plan"@, "mixed"@),
            decimal(m.scheduler_plan_mixed_total as nat),
        ),
        reads(
            m,
            "infer_prefill_path_mixed_batch_total"@,
            label_text("outcome"@, "ok_true"@),
            decimal(m.prefill_path_mixed_ok_true_total as nat),
        ),
        reads(
            m,
            "infer_prefill_path_mixed_batch_total"@,
            label_text("outcome"@, "ok_false"@),
            decimal(m.prefill_path_mixed_ok_false_total as nat),
        ),
        reads(
            m,
            "infer_prefill_path_mixed_batch_fallback_total"@,
            label_text("reason"@, "decode_slot_count_mismatch"@),
            decimal(m.prefill_path_mixed_decode_slot_count_mismatch_total as nat),
        ),
        reads(
            m,
            "infer_prefill_path_mixed_batch_fallback_total"@,
            label_text("reason"@, "duplicate_prefill_slot"@),
            decimal(m.prefill_path_mixed_duplicate_prefill_slot_total as nat),
        ),
        reads(
            m,
            "infer_prefill_path_mixed_batch_fallback_total"@,
            label_text("reason"@, "empty_decode_batch"@),
            decimal(m.prefill_path_mixed_empty_decode_batch_total as nat),
        ),
        reads(
            m,
            "infer_prefill_path_mixed_batch_fallback_total"@,
            label_text("reason"@, "empty_prefill_batch"@),
            decimal(m.prefill_path_mixed_empty_prefill_batch_total as nat),
        ),
        reads(
            m,
            "infer_prefill_path_mixed_batch_fallback_total"@,
            label_text("reason"@, "empty_prefill_tokens"@),
            decimal(m.prefill_path_mixed_empty_prefill_tokens_total as nat),
        ),
        reads(
            m,
            "infer_prefill_path_mixed_batch_fallback_total"@,
            label_text("reason"@, "inactive_paged_pool"@),
            decimal(m.prefill_path_mixed_inactive_paged_pool_total as nat),
        ),
        reads(
            m,
            "infer_prefill_path_mixed_batch_fallback_total"@,
            label_text("reason"@, "lora_enabled"@),
            decimal(m.prefill_path_mixed_lora_enabled_total as nat),
        ),
        reads(
            m,
            "infer_prefill_path_mixed_batch_fallback_total"@,
            label_text("reason"@, "prefill_seq_len_mismatch"@),
            decimal(m.prefill_path_mixed_prefill_seq_len_mismatch_total as nat),
        ),
        reads(
            m,
            "infer_prefill_path_mixed_batch_fallback_total"@,
            label_text("reason"@, "prefill_slot_in_decode_batch"@),
            decimal(m.prefill_path_mixed_prefill_slot_in_decode_batch_total as nat),
        ),
        reads(
            m,
            "infer_prefill_path_mixed_batch_fallback_total"@,
            label_text("reason"@, "prefill_start_position_count_mismatch"@),
            decimal(m.prefill_path_mixed_prefill_start_position_count_mismatch_total as nat),
        ),
        reads(
            m,
            "infer_prefill_path_mixed_batch_fallback_total"@,
            label_text("reason"@, "scheduler_pre_dispatch_fallback"@),
            decimal(m.prefill_path_mixed_scheduler_pre_dispatch_fallback_total as nat),
        ),
        reads(
            m,
            "infer_prefill_path_mixed_batch_fallback_total"@,
            label_text("reason"@, "unsupported_kv_format"@),
            decimal(m.prefill_path_mixed_unsupported_kv_format_total as nat),
        ),
        reads(
            m,
            "infer_prefill_path_mixed_batch_fallback_total"@,
            label_text("reason"@, "unsupported_model"@),
            decimal(m.prefill_path_mixed_unsupported_model_total as nat),
        ),
{
    lemma_groups_are_read(m);
    lemma_labels_have_text();
    reveal(outcome_families);
    let fs = outcome_families(m);
    lemma_shown_at(fs, 0, 0);
    lemma_shown_at(fs, 0, 1);
    lemma_shown_at(fs, 0, 2);
    lemma_shown_at(fs, 1, 0);
    lemma_shown_at(fs, 1, 1);
    lemma_shown_at(fs, 2, 0);
    lemma_shown_at(fs, 2, 1);
    lemma_shown_at(fs, 2, 2);
    lemma_shown_at(fs, 3, 0);
    lemma_shown_at(fs, 4, 0);
    lemma_shown_at(fs, 5, 0);
    lemma_shown_at(fs, 5, 1);
    lemma_shown_at(fs, 5, 2);
    lemma_shown_at(fs, 5, 3);
    lemma_shown_at(fs, 5, 4);
    lemma_shown_at(fs, 6, 0);
    lemma_shown_at(fs, 6, 1);
    lemma_shown_at(fs, 7, 0);
    lemma_shown_at(fs, 7, 1);
    lemma_shown_at(fs, 7, 2);
    lemma_shown_at(fs, 7, 3);
    lemma_shown_at(fs, 7, 4);
    lemma_shown_at(fs, 7, 5);
    lemma_shown_at(fs, 7, 6);
    lemma_shown_at(fs, 7, 7);
    lemma_shown_at(fs, 7, 8);
    lemma_shown_at(fs, 7, 9);
    lemma_shown_at(fs, 7, 10);
    lemma_shown_at(fs, 7, 11);
    lemma_shown_at(fs, 7, 12);
}

/// The readings of speculative decoding.
pub proof fn lemma_speculation_readings(m: ServerMetrics)
    ensures
        reads(
            m,
            "infer_spec_draft_tokens_total"@,
            Seq::empty(),
            decimal(m.spec_draft_tokens_total as nat),
        ),
        reads(
            m,
            "infer_spec_verified_tokens_total"@,
            Seq::empty(),
            decimal(m.spec_verified_tokens_total as nat),
        ),
        reads(
            m,
            "infer_spec_accepted_tokens_total"@,
            Seq::empty(),
            decimal(m.spec_accepted_tokens_total as nat),
        ),
        reads(
            m,
            "infer_spec_sparse_view_empty_total"@,
            Seq::empty(),
            decimal(m.spec_sparse_view_empty_total as nat),
        ),
        reads(
            m,
            "infer_spec_acceptance_rate"@,
            Seq::empty(),
            fixed_text(ratio(m.spec_acceptance_rate_ppm as nat, 1_000_000), 6),
        ),
{
    lemma_groups_are_read(m);
    reveal(speculation_families);
    let fs = speculation_families(m);
    lemma_shown_at(fs, 0, 0);
    lemma_shown_at(fs, 1, 0);
    lemma_shown_at(fs, 2, 0);
    lemma_shown_at(fs, 3, 0);
    lemma_shown_at(fs, 4, 0);
}

/// The readings of the KV coordinator, blocks and memory.
pub proof fn lemma_kv_readings(m: ServerMetrics)
    ensures
        reads(
            m,
            "infer_kv_coordinator_queue_capacity"@,
            Seq::empty(),
            decimal(m.kv_coordinator_queue_capacity as nat),
        ),
        reads(
            m,
            "infer_kv_fetch_queue_depth"@,
            Seq::empty(),
            decimal(m.kv_fetch_queue_depth as nat),
        ),
        reads(m, "infer_kv_fetch_waiters"@, Seq::empty(), decimal(m.kv_fetch_waiters as nat)),
        reads(
            m,
            "infer_kv_store_queue_depth"@,
            Seq::empty(),
            decimal(m.kv_store_queue_depth as nat),
        ),
        reads(
            m,
            "infer_kv_store_submitted_total"@,
            Seq::empty(),
            decimal(m.kv_store_submitted_total as nat),
        ),
        reads(
            m,
            "infer_kv_store_completed_total"@,
            Seq::empty(),
            decimal(m.kv_store_completed_total as nat),
        ),
        reads(
            m,
            "infer_kv_store_failed_total"@,
            Seq::empty(),
            decimal(m.kv_store_failed_total as nat),
        ),
        reads(
            m,
            "infer_kv_store_rejected_total"@,
            Seq::empty(),
            decimal(m.kv_store_rejected_total as nat),
        ),
        reads(
            m,
            "infer_kv_fetch_backpressure"@,
            Seq::empty(),
            decimal(m.kv_fetch_backpressure as nat),
        ),
        reads(
            m,
            "infer_kv_store_backpressure"@,
            Seq::empty(),
            decimal(m.kv_store_backpressure as nat),
        ),
        reads(
            m,
            "infer_tier_fetch_wait_seconds"@,
            Seq::empty(),
            fixed_text(ratio(m.tier_fetch_wait_us as nat, 1_000_000), 6),
        ),
        reads(
            m,
            "infer_tier_store_wait_seconds"@,
            Seq::empty(),
            fixed_text(ratio(m.tier_store_wait_us as nat, 1_000_000), 6),
        ),
        reads(m, "infer_kv_gpu_utilization"@, Seq::empty(), fixed_text(utilization(m), 4)),
        reads(
            m,
            "infer_kv_gpu_blocks_free"@,
            Seq::empty(),
            decimal(m.kv_gpu_blocks_free as nat),
        ),
        reads(
            m,
            "infer_kv_gpu_blocks_total"@,
            Seq::empty(),
            decimal(m.kv_gpu_blocks_total as nat),
        ),
        reads(
            m,
            "infer_memory_active_bytes"@,
            Seq::empty(),
            decimal(m.memory_active_bytes as nat),
        ),
        reads(m, "infer_memory_peak_bytes"@, Seq::empty(), decimal(m.memory_peak_bytes as nat)),
        reads(
            m,
            "infer_memory_cache_bytes"@,
            Seq::empty(),
            decimal(m.memory_cache_bytes as nat),
        ),
{
    lemma_groups_are_read(m);
    reveal(kv_families);
    let fs = kv_families(m);
    lemma_shown_at(fs, 0, 0);
    lemma_shown_at(fs, 1, 0);
    lemma_shown_at(fs, 2, 0);
    lemma_shown_at(fs, 3, 0);
    lemma_shown_at(fs, 4, 0);
    lemma_shown_at(fs, 5, 0);
    lemma_shown_at(fs, 6, 0);
    lemma_shown_at(fs, 7, 0);
    lemma_shown_at(fs, 8, 0);
    lemma_shown_at(fs, 9, 0);
    lemma_shown_at(fs, 10, 0);
    lemma_shown_at(fs, 11, 0);
    lemma_shown_at(fs, 12, 0);
    lemma_shown_at(fs, 13, 0);
    lemma_shown_at(fs, 14, 0);
    lemma_shown_at(fs, 15, 0);
    lemma_shown_at(fs, 16, 0);
    lemma_shown_at(fs, 17, 0);
}

/// The text holds the part.
#[verifier::opaque]
pub open spec fn holds_text(text: Seq<char>, part: Seq<char>) -> bool {
    exists|a: Seq<char>, b: Seq<char>| text == #[trigger] (a + part + b)
}

/// What a part of a text holds, the text holds.
pub proof fn lemma_held_in_order(text: Seq<char>, middle: Seq<char>, part: Seq<char>)
    requires
        holds_text(text, middle),
        holds_text(middle, part),
    ensures
        holds_text(text, part),
{
    reveal(holds_text);
    let (a, b) = choose|a: Seq<char>, b: Seq<char>| text == #[trigger] (a + middle + b);
    let (c, d) = choose|c: Seq<char>, d: Seq<char>| middle == #[trigger] (c + part + d);
    assert(text =~= (a + c) + part + (d + b));
}

proof fn lemma_text_is_held(before: Seq<char>, part: Seq<char>, after: Seq<char>)
    ensures
        holds_text(before + part, part),
        holds_text(part + after, part),
        holds_text(before + part + after, part),
{
    reveal(holds_text);
    assert(before + part =~= before + part + Seq::<char>::empty());
    assert(part + after =~= Seq::<char>::empty() + part + after);
}

proof fn lemma_sample_is_held(f: FamilyView, labels: Seq<char>, n: nat, k: nat)
    requires
        k < n <= f.samples.len(),
    ensures
        holds_text(
            samples_text(f, labels, n),
            sample_line(f.name, labels + f.samples[k as int].label, f.samples[k as int].value),
        ),
    decreases n,
{
    let before = samples_text(f, labels, (n - 1) as nat);
    let line = sample_line(
        f.name,
        labels + f.samples[n - 1].label,
        f.samples[n - 1].value,
    );
    lemma_text_is_held(before, line, Seq::empty());
    if k < n - 1 {
        lemma_sample_is_held(f, labels, (n - 1) as nat, k);
        lemma_text_is_held(Seq::empty(), before, line);
        lemma_held_in_order(
            before + line,
            before,
            sample_line(f.name, labels + f.samples[k as int].label, f.samples[k as int].value),
        );
    }
}

proof fn lemma_family_is_held(fs: Seq<FamilyView>, labels: Seq<char>, n: nat, i: nat)
    requires
        i < n <= fs.len(),
    ensures
        holds_text(families_text(fs, labels, n), family_text(fs[i as int], labels)),
    decreases n,
{
    let before = families_text(fs, labels, (n - 1) as nat);
    let last = family_text(fs[n - 1], labels);
    lemma_text_is_held(before, last, Seq::empty());
    if i < n - 1 {
        lemma_family_is_held(fs, labels, (n - 1) as nat, i);
        lemma_text_is_held(Seq::empty(), before, last);
        lemma_held_in_order(before + last, before, family_text(fs[i as int], labels));
    }
}

/// A sum of texts holds its last part, and what the others hold.
pub proof fn lemma_sums_hold_their_parts()
    ensures
        forall|x: Seq<char>, y: Seq<char>| #[trigger] holds_text(x + y, y),
        forall|x: Seq<char>, y: Seq<char>, p: Seq<char>|
            holds_text(x, p) ==> #[trigger] holds_text(x + y, p),
{
    assert forall|x: Seq<char>, y: Seq<char>| #[trigger] holds_text(x + y, y) by {
        lemma_text_is_held(x, y, Seq::empty());
    }
    assert forall|x: Seq<char>, y: Seq<char>, p: Seq<char>| holds_text(x, p) implies #[trigger]
        holds_text(x + y, p) by {
        lemma_text_is_held(Seq::empty(), x, y);
        lemma_held_in_order(x + y, x, p);
    }
}

/// The text of the exposition holds the text of its families.
proof fn lemma_families_are_held(m: ServerMetrics)
    ensures
        holds_text(
            prometheus_text(m),
            families_text(all_families(m), model_labels(m.model_id@), all_families(m).len()),
        ),
{
    let fs = all_families(m);
    let part = families_text(fs, model_labels(m.model_id@), fs.len());
    lemma_sums_hold_their_parts();
    assert(holds_text(part, part)) by {
        lemma_text_is_held(Seq::empty(), part, Seq::empty());
        assert(Seq::<char>::empty() + part =~= part);
    }
}

/// A sum of nine texts holds the last eight.
proof fn lemma_eight_parts_are_held(
    first: Seq<char>,
    a: Seq<char>,
    b: Seq<char>,
    c: Seq<char>,
    d: Seq<char>,
    e: Seq<char>,
    f: Seq<char>,
    g: Seq<char>,
    h: Seq<char>,
)
    ensures
        ({
            let sum = first + a + b + c + d + e + f + g + h;
            &&& holds_text(sum, a)
            &&& holds_text(sum, b)
            &&& holds_text(sum, c)
            &&& holds_text(sum, d)
            &&& holds_text(sum, e)
            &&& holds_text(sum, f)
            &&& holds_text(sum, g)
            &&& holds_text(sum, h)
        }),
{
    lemma_sums_hold_their_parts();
}

/// What holds a histogram family holds its samples.
proof fn lemma_histogram_is_held(
    text: Seq<char>,
    h: HistogramView,
    name: Seq<char>,
    help: Seq<char>,
    labels: Seq<char>,
)
    requires
        holds_text(text, histogram_family(h, name, help, labels)),
    ensures
        holds_text(text, histogram_text(h, name, labels)),
{
    let header = family_header(name, help, "histogram"@);
    lemma_text_is_held(header, histogram_text(h, name, labels), Seq::empty());
    lemma_held_in_order(
        text,
        histogram_family(h, name, help, labels),
        histogram_text(h, name, labels),
    );
}

/// Every histogram of the metrics stands in the exposition under its own name.
pub proof fn law_histograms_are_shown(m: ServerMetrics)
    ensures
        ({
            let text = prometheus_text(m);
            let labels = model_labels(m.model_id@);
            let h = m.histograms;
            &&& holds_text(text, histogram_text(h.queue_wait@, "infer_queue_wait_seconds"@, labels))
            &&& holds_text(
                text,
                histogram_text(h.active_ttft@, "infer_active_ttft_seconds"@, labels),
            )
            &&& holds_text(text, histogram_text(h.ttft@, "infer_ttft_seconds"@, labels))
            &&& holds_text(text, histogram_text(h.tpot@, "infer_tpot_seconds"@, labels))
            &&& holds_text(text, histogram_text(h.service@, "infer_service_seconds"@, labels))
            &&& holds_text(text, histogram_text(h.e2e@, "infer_e2e_seconds"@, labels))
            &&& holds_text(
                text,
                histogram_text(h.scheduler_step@, "infer_scheduler_step_seconds"@, labels),
            )
            &&& holds_text(
                text,
                histogram_text(
                    h.spec_step_latency_us@,
                    "infer_spec_step_latency_us"@,
                    labels,
                ),
            )
        }),
{
    let fs = all_families(m);
    let labels = model_labels(m.model_id@);
    let h = m.histograms;
    let text = prometheus_text(m);
    lemma_eight_parts_are_held(
        families_text(fs, labels, fs.len()),
        histogram_family(
            h.queue_wait@,
            "infer_queue_wait_seconds"@,
            "Submit-to-admit queue latency."@,
            labels,
        ),
        histogram_family(
            h.active_ttft@,
            "infer_active_ttft_seconds"@,
            "Admit-to-first-token latency."@,
            labels,
        ),
        histogram_family(
            h.ttft@,
            "infer_ttft_seconds"@,
            "Time to first token latency."@,
            labels,
        ),
        histogram_family(
            h.tpot@,
            "infer_tpot_seconds"@,
            "Time per output token latency."@,
            labels,
        ),
        histogram_family(
            h.service@,
            "infer_service_seconds"@,
            "First-token-to-finish service latency."@,
            labels,
        ),
        histogram_family(
            h.e2e@,
            "infer_e2e_seconds"@,
            "End-to-end request latency."@,
            labels,
        ),
        histogram_family(
            h.scheduler_step@,
            "infer_scheduler_step_seconds"@,
            "End-to-end scheduler tick latency."@,
            labels,
        ),
        histogram_family(
            h.spec_step_latency_us@,
            "infer_spec_step_latency_us"@,
            "Phase 2 speculative decode step latency."@,
            labels,
        ),
    );
    lemma_histogram_is_held(
        text,
        h.queue_wait@,
        "infer_queue_wait_seconds"@,
        "Submit-to-admit queue latency."@,
        labels,
    );
    lemma_histogram_is_held(
        text,
        h.active_ttft@,
        "infer_active_ttft_seconds"@,
        "Admit-to-first-token latency."@,
        labels,
    );
    lemma_histogram_is_held(
        text,
        h.ttft@,
        "infer_ttft_seconds"@,
        "Time to first token latency."@,
        labels,
    );
    lemma_histogram_is_held(
        text,
        h.tpot@,
        "infer_tpot_seconds"@,
        "Time per output token latency."@,
        labels,
    );
    lemma_histogram_is_held(
        text,
        h.service@,
        "infer_service_seconds"@,
        "First-token-to-finish service latency."@,
        labels,
    );
    lemma_histogram_is_held(
        text,
        h.e2e@,
        "infer_e2e_seconds"@,
        "End-to-end request latency."@,
        labels,
    );
    lemma_histogram_is_held(
        text,
        h.scheduler_step@,
        "infer_scheduler_step_seconds"@,
        "End-to-end scheduler tick latency."@,
        labels,
    );
    lemma_histogram_is_held(
        text,
        h.spec_step_latency_us@,
        "infer_spec_step_latency_us"@,
        "Phase 2 speculative decode step latency."@,
        labels,
    );
}

proof fn lemma_reading_is_held(
    m: ServerMetrics,
    name: Seq<char>,
    label: Seq<char>,
    value: Seq<char>,
)
    requires
        reads(m, name, label, value),
    ensures
        holds_text(
            prometheus_text(m),
            sample_line(name, model_labels(m.model_id@) + label, value),
        ),
{
    let fs = all_families(m);
    let labels = model_labels(m.model_id@);
    let (i, k) = choose|i: int, k: int|
        0 <= i < fs.len() && 0 <= k < fs[i].samples.len() && fs[i].name == name && (label.len()
            == 0 ==> fs[i].samples.len() == 1) && (#[trigger] fs[i].samples[k]) == (SampleView {
            label,
            value,
        });
    let f = fs[i];
    let line = sample_line(name, labels + label, value);
    lemma_families_are_held(m);
    lemma_family_is_held(fs, labels, fs.len(), i as nat);
    lemma_held_in_order(
        prometheus_text(m),
        families_text(fs, labels, fs.len()),
        family_text(f, labels),
    );
    lemma_text_is_held(
        family_header(f.name, f.help, f.kind),
        samples_text(f, labels, f.samples.len()),
        Seq::empty(),
    );
    lemma_held_in_order(
        prometheus_text(m),
        family_text(f, labels),
        samples_text(f, labels, f.samples.len()),
    );
    lemma_sample_is_held(f, labels, f.samples.len(), k as nat);
    lemma_held_in_order(
        prometheus_text(m),
        samples_text(f, labels, f.samples.len()),
        line,
    );
}

proof fn lemma_line_forms(
    model_id: Seq<char>,
    name: Seq<char>,
    label: Seq<char>,
    value: Seq<char>,
)
    ensures
        model_id.len() == 0 ==> sample_line(name, model_labels(model_id) + label, value) == name
            + "{"@ + label + "} "@ + value + "\n"@,
        model_id.len() > 0 ==> sample_line(name, model_labels(model_id) + label, value) == name
            + "{"@ + ("model=\""@ + model_id + "\","@) + label + "} "@ + value + "\n"@,
{
    if model_id.len() == 0 {
        assert(model_labels(model_id) + label =~= label);
    } else {
        let labels = "model=\""@ + model_id + "\","@;
        assert("model"@ + "=\""@ =~= "model=\""@) by {
            reveal_strlit("model");
            reveal_strlit("=\"");
            reveal_strlit("model=\"");
        }
        assert(model_labels(model_id) =~= labels);
        assert(name + "{"@ + (labels + label) =~= name + "{"@ + labels + label);
    }
}

/// What the exposition shows stands in it as a line: the name, the model and the
/// label in braces, and the value.
pub proof fn law_readings_are_lines(
    m: ServerMetrics,
    name: Seq<char>,
    label: Seq<char>,
    value: Seq<char>,
)
    requires
        reads(m, name, label, value),
    ensures
        m.model_id@.len() == 0 ==> holds_text(
            prometheus_text(m),
            name + "{"@ + label + "} "@ + value + "\n"@,
        ),
        m.model_id@.len() > 0 ==> holds_text(
            prometheus_text(m),
            name + "{"@ + ("model=\""@ + m.model_id@ + "\","@) + label + "} "@ + value + "\n"@,
        ),
{
    lemma_reading_is_held(m, name, label, value);
    lemma_line_forms(m.model_id@, name, label, value);
}

/// A sum of texts holds its last two parts together, and its last four.
pub proof fn lemma_sums_hold_their_ends()
    ensures
        forall|x: Seq<char>, a: Seq<char>, b: Seq<char>| #[trigger] holds_text(x + a + b, a + b),
        forall|x: Seq<char>, a: Seq<char>, b: Seq<char>, c: Seq<char>, d: Seq<char>|
            #[trigger] holds_text(x + a + b + c + d, a + b + c + d),
        forall|x: Seq<char>| #[trigger] holds_text(x, x),
{
    assert forall|x: Seq<char>, a: Seq<char>, b: Seq<char>| #[trigger]
        holds_text(x + a + b, a + b) by {
        lemma_text_is_held(x, a + b, Seq::empty());
        assert(x + (a + b) =~= x + a + b);
    }
    assert forall|x: Seq<char>, a: Seq<char>, b: Seq<char>, c: Seq<char>, d: Seq<char>| #[trigger]
        holds_text(x + a + b + c + d, a + b + c + d) by {
        lemma_text_is_held(x, a + b + c + d, Seq::empty());
        assert(x + (a + b + c + d) =~= x + a + b + c + d);
    }
    assert forall|x: Seq<char>| #[trigger] holds_text(x, x) by {
        lemma_text_is_held(x, x, Seq::empty());
        lemma_text_is_held(Seq::empty(), x, Seq::empty());
        assert(Seq::<char>::empty() + x =~= x);
    }
}

} // verus!
