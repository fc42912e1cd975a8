//! The metrics of one server, as the scheduler updates them.
//!
//! Counters wrap around at `u64::MAX`; gauges hold the value of the last
//! update. Durations are whole microseconds.

use vstd::prelude::*;

use crate::arith::saturating_mul_u64;
use crate::arith::saturating_product;
use crate::double::Double;
use crate::double::{ratio, rounded, times};
use crate::metrics::histogram::HistogramSet;
use crate::metrics::histogram::observed;
use crate::metrics::recording::{
    after_active, after_detokenizer_topology, after_dflash_block, after_h2d_latency_us,
    after_kv_coordinator, after_kv_gpu_blocks, after_memory_bytes, after_metal_decode_batch,
    after_metal_decode_batch_fallback, after_metal_decode_scalar_row,
    after_metal_qwen35_packed_decode_batch, after_model_arch, after_numa_migration,
    after_numa_rebalance, after_numa_route, after_prefill_path_mixed_ok_true,
    after_prefix_aware_admit_deferral, after_prefix_lookup_detail,
    after_prefix_lookup_prefetch_queued, after_preprocess_stage, after_preprocess_topology,
    after_request_failed, after_runtime_topology, after_scheduler_cpu_plan_accept,
    after_scheduler_cpu_plan_stale, after_scheduler_loop_phase_us, after_scheduler_occupancy,
    after_scheduler_pipeline_us, after_scheduler_plan, after_scheduler_step,
    after_scheduler_step_phase_us, after_session_slot_pressure_evictions_hard,
    after_spec_sparse_view_empty, after_tier_fetch_fallback, after_tier_fetch_plan,
    after_tier_fetch_promoted, after_tier_wait_seconds, after_waiting, is_observed_step,
    is_spec_step,
};
use crate::metrics::topology::local_pages;
use crate::metrics::topology::{
    copy_pages, AffinityApplyResult, NumaMemoryStats, RuntimeTopology, RuntimeTopologyMetrics,
    WorkerPlacement,
};
use crate::model::requests::reason_label;
use crate::model::requests::labelled_reason;
use crate::model::requests::MixedBatchFallbackReason;
use crate::order::{in_unit, law_part_of_whole_in_unit, zero};

verus! {

/// Scheduler plan selected for one runtime tick.
#[derive(Clone, Copy, Debug, Eq, PartialEq, Structural)]
pub enum SchedulerPlanLabel {
    Idle,
    Decode,
    Prefill,
    Split,
    Mixed,
}

/// Identifier of a client session.
#[derive(Debug)]
pub struct SessionId {
    pub id: String,
}

impl SessionId {
    /// The session with the given name.
    pub fn named(id: &str) -> (session: SessionId)
        ensures
            session.id@ == id@,
    {
        SessionId { id: String::from_str(id) }
    }

    /// The name of the session.
    pub fn as_str(&self) -> (id: &str)
        ensures
            id@ == self.id@,
    {
        self.id.as_str()
    }
}

/// `numerator / denominator` in parts per million; the scaled numerator stops
/// at `u64::MAX`. Zero when the denominator is zero.
pub open spec fn parts_per_million(numerator: nat, denominator: nat) -> nat {
    if denominator == 0 {
        0
    } else {
        saturating_product(numerator, 1_000_000, u64::MAX as nat) / denominator
    }
}

/// `numerator / denominator` in parts per million.
pub fn ratio_ppm(numerator: u64, denominator: u64) -> (ppm: u64)
    ensures
        ppm == parts_per_million(numerator as nat, denominator as nat),
{
    if denominator == 0 {
        return 0;
    }
    saturating_mul_u64(numerator, 1_000_000) / denominator
}

/// Architecture of the served model.
#[derive(Debug)]
pub struct ModelArchSummary {
    pub arch: String,
    pub hidden_size: u64,
    pub vocab_size: u64,
    pub num_hidden_layers: u64,
    pub num_kv_layers: u64,
    pub num_kv_heads: u64,
    pub num_q_heads: u64,
    pub head_dim: u64,
    pub kv_cache_bytes_per_token: u64,
}

impl ModelArchSummary {
    /// The name of the architecture.
    pub fn arch_label(&self) -> (label: &str)
        ensures
            label@ == self.arch@,
    {
        self.arch.as_str()
    }
}

impl Clone for ModelArchSummary {
    fn clone(&self) -> (summary: ModelArchSummary)
        ensures
            summary == *self,
    {
        ModelArchSummary {
            arch: self.arch.clone(),
            hidden_size: self.hidden_size,
            vocab_size: self.vocab_size,
            num_hidden_layers: self.num_hidden_layers,
            num_kv_layers: self.num_kv_layers,
            num_kv_heads: self.num_kv_heads,
            num_q_heads: self.num_q_heads,
            head_dim: self.head_dim,
            kv_cache_bytes_per_token: self.kv_cache_bytes_per_token,
        }
    }
}

/// Prefix reuse of the most recent request.
#[derive(Debug)]
pub struct RequestCacheStats {
    pub session_id: Option<String>,
    pub prefix_hit: bool,
    pub prompt_tokens: u64,
    pub matched_prefix_tokens: u64,
    pub resume_prefill_tokens: u64,
}

impl RequestCacheStats {
    /// One when the request reused a prefix, zero otherwise.
    pub fn prefix_hit_rate(&self) -> (rate: Double)
        ensures
            rate@ == crate::double::integer(if self.prefix_hit { 1 } else { 0 }),
            rate.within(128),
    {
        if self.prefix_hit {
            Double::of_integer(1)
        } else {
            Double::of_integer(0)
        }
    }

    /// Fraction of the prompt that the prefix covered.
    pub fn prefix_skip_rate(&self) -> (rate: Double)
        ensures
            rate@ == ratio(self.matched_prefix_tokens as nat, self.prompt_tokens as nat),
            rate.within(512),
    {
        Double::ratio(self.matched_prefix_tokens as u128, self.prompt_tokens as u128)
    }
}

/// Prefix reuse of one session.
#[derive(Clone, Copy, Debug)]
pub struct SessionCacheStats {
    pub prefix_lookups_total: u64,
    pub prefix_hits_total: u64,
    pub prefix_lookup_prompt_tokens_total: u64,
    pub prefix_reused_tokens_total: u64,
    pub session_affinity_hit: u64,
    pub session_affinity_miss: u64,
    pub matched_prefix_tokens_total: u64,
    pub resume_prefill_tokens_total: u64,
    pub last_matched_prefix_tokens: u64,
    pub last_resume_prefill_tokens: u64,
}

/// The statistics of a session without requests.
pub open spec fn empty_session() -> SessionCacheStats {
    SessionCacheStats {
        prefix_lookups_total: 0,
        prefix_hits_total: 0,
        prefix_lookup_prompt_tokens_total: 0,
        prefix_reused_tokens_total: 0,
        session_affinity_hit: 0,
        session_affinity_miss: 0,
        matched_prefix_tokens_total: 0,
        resume_prefill_tokens_total: 0,
        last_matched_prefix_tokens: 0,
        last_resume_prefill_tokens: 0,
    }
}

/// The statistics of a session after one more request. Totals stop at
/// `u64::MAX`.
pub open spec fn observed_session(
    s: SessionCacheStats,
    matched: u64,
    prompt: u64,
    resume: u64,
) -> SessionCacheStats {
    SessionCacheStats {
        prefix_lookups_total: s.prefix_lookups_total.saturating_add(1),
        prefix_hits_total: if matched > 0 {
            s.prefix_hits_total.saturating_add(1)
        } else {
            s.prefix_hits_total
        },
        prefix_lookup_prompt_tokens_total: s.prefix_lookup_prompt_tokens_total.saturating_add(
            prompt,
        ),
        prefix_reused_tokens_total: s.prefix_reused_tokens_total.saturating_add(matched),
        session_affinity_hit: if matched > 0 {
            s.session_affinity_hit.saturating_add(1)
        } else {
            s.session_affinity_hit
        },
        session_affinity_miss: if matched > 0 {
            s.session_affinity_miss
        } else {
            s.session_affinity_miss.saturating_add(1)
        },
        matched_prefix_tokens_total: s.matched_prefix_tokens_total.saturating_add(matched),
        resume_prefill_tokens_total: s.resume_prefill_tokens_total.saturating_add(resume),
        last_matched_prefix_tokens: matched,
        last_resume_prefill_tokens: resume,
    }
}

impl Default for SessionCacheStats {
    fn default() -> (s: SessionCacheStats)
        ensures
            s == empty_session(),
    {
        SessionCacheStats {
            prefix_lookups_total: 0,
            prefix_hits_total: 0,
            prefix_lookup_prompt_tokens_total: 0,
            prefix_reused_tokens_total: 0,
            session_affinity_hit: 0,
            session_affinity_miss: 0,
            matched_prefix_tokens_total: 0,
            resume_prefill_tokens_total: 0,
            last_matched_prefix_tokens: 0,
            last_resume_prefill_tokens: 0,
        }
    }
}

impl SessionCacheStats {
    /// Accounts for one request of the session.
    pub fn observe(
        &mut self,
        matched_prefix_tokens: u64,
        prompt_tokens: u64,
        resume_prefill_tokens: u64,
    )
        ensures
            *final(self) == observed_session(
                *old(self),
                matched_prefix_tokens,
                prompt_tokens,
                resume_prefill_tokens,
            ),
    {
        self.prefix_lookups_total = self.prefix_lookups_total.saturating_add(1);
        self.prefix_lookup_prompt_tokens_total =
            self.prefix_lookup_prompt_tokens_total.saturating_add(prompt_tokens);
        self.prefix_reused_tokens_total =
            self.prefix_reused_tokens_total.saturating_add(matched_prefix_tokens);
        self.matched_prefix_tokens_total =
            self.matched_prefix_tokens_total.saturating_add(matched_prefix_tokens);
        self.resume_prefill_tokens_total =
            self.resume_prefill_tokens_total.saturating_add(resume_prefill_tokens);
        self.last_matched_prefix_tokens = matched_prefix_tokens;
        self.last_resume_prefill_tokens = resume_prefill_tokens;
        if matched_prefix_tokens > 0 {
            self.prefix_hits_total = self.prefix_hits_total.saturating_add(1);
            self.session_affinity_hit = self.session_affinity_hit.saturating_add(1);
        } else {
            self.session_affinity_miss = self.session_affinity_miss.saturating_add(1);
        }
    }

    /// Fraction of the session's lookups that reused a prefix.
    pub fn prefix_hit_rate(&self) -> (rate: Double)
        ensures
            rate@ == ratio(self.prefix_hits_total as nat, self.prefix_lookups_total as nat),
            rate.within(512),
            self.prefix_hits_total <= self.prefix_lookups_total ==> in_unit(rate@),
    {
        proof {
            if self.prefix_hits_total <= self.prefix_lookups_total {
                law_part_of_whole_in_unit(
                    self.prefix_hits_total as nat,
                    self.prefix_lookups_total as nat,
                );
            }
        }
        Double::ratio(self.prefix_hits_total as u128, self.prefix_lookups_total as u128)
    }

    /// Fraction of the session's prompt tokens that prefixes covered.
    pub fn prefix_skip_rate(&self) -> (rate: Double)
        ensures
            rate@ == ratio(
                self.prefix_reused_tokens_total as nat,
                self.prefix_lookup_prompt_tokens_total as nat,
            ),
            rate.within(512),
    {
        Double::ratio(
            self.prefix_reused_tokens_total as u128,
            self.prefix_lookup_prompt_tokens_total as u128,
        )
    }
}

/// Every request of a session is an affinity hit or a miss, and a hit is a
/// prefix hit, as long as no total has reached its limit.
pub proof fn law_session_requests_are_hits_or_misses(
    s: SessionCacheStats,
    matched: u64,
    prompt: u64,
    resume: u64,
)
    requires
        s.session_affinity_hit + s.session_affinity_miss == s.prefix_lookups_total,
        s.session_affinity_hit == s.prefix_hits_total,
        s.prefix_lookups_total < u64::MAX,
    ensures
        ({
            let t = observed_session(s, matched, prompt, resume);
            &&& t.session_affinity_hit + t.session_affinity_miss == t.prefix_lookups_total
            &&& t.session_affinity_hit == t.prefix_hits_total
        }),
{
}

/// Entry `i` belongs to the session `id`.
pub open spec fn is_entry_of(
    entries: Seq<(String, SessionCacheStats)>,
    i: int,
    id: Seq<char>,
) -> bool {
    0 <= i < entries.len() && entries[i].0@ == id
}

/// The statistics kept for a session.
pub open spec fn session_stats(
    entries: Seq<(String, SessionCacheStats)>,
    id: Seq<char>,
) -> Option<SessionCacheStats> {
    if exists|i: int| is_entry_of(entries, i, id) {
        Some(entries[choose|i: int| is_entry_of(entries, i, id)].1)
    } else {
        None
    }
}

/// No two entries belong to one session.
pub open spec fn distinct_sessions(entries: Seq<(String, SessionCacheStats)>) -> bool {
    forall|i: int, j: int|
        0 <= i < j < entries.len() ==> #[trigger] entries[i].0@ != #[trigger] entries[j].0@
}

proof fn lemma_session_entry(entries: Seq<(String, SessionCacheStats)>, i: int)
    requires
        distinct_sessions(entries),
        0 <= i < entries.len(),
    ensures
        session_stats(entries, entries[i].0@) == Some(entries[i].1),
{
    let id = entries[i].0@;
    assert(is_entry_of(entries, i, id));
    let j = choose|j: int| is_entry_of(entries, j, id);
    assert(is_entry_of(entries, j, id));
    if i < j {
        assert(entries[i].0@ != entries[j].0@);
    } else if j < i {
        assert(entries[j].0@ != entries[i].0@);
    }
}

proof fn lemma_other_sessions_stay(
    before: Seq<(String, SessionCacheStats)>,
    after: Seq<(String, SessionCacheStats)>,
    at: int,
    id: Seq<char>,
)
    requires
        distinct_sessions(before),
        distinct_sessions(after),
        0 <= at < after.len(),
        after[at].0@ == id,
        forall|i: int| 0 <= i < before.len() && i != at ==> #[trigger] after[i] == before[i],
        after.len() == before.len() || (after.len() == before.len() + 1 && at == before.len()),
        at < before.len() ==> before[at].0@ == id,
    ensures
        forall|other: Seq<char>|
            other != id ==> #[trigger] session_stats(after, other) == session_stats(before, other),
{
    assert forall|other: Seq<char>| other != id implies #[trigger] session_stats(after, other)
        == session_stats(before, other) by {
        if exists|i: int| is_entry_of(before, i, other) {
            let i = choose|i: int| is_entry_of(before, i, other);
            assert(after[i] == before[i]);
            lemma_session_entry(before, i);
            lemma_session_entry(after, i);
        } else {
            assert forall|i: int| !is_entry_of(after, i, other) by {
                if is_entry_of(after, i, other) {
                    assert(is_entry_of(before, i, other));
                }
            }
        }
    }
}

/// The smaller of two token counts.
pub open spec fn at_most(count: usize, limit: usize) -> u64 {
    if count <= limit {
        count as u64
    } else {
        limit as u64
    }
}

/// A flag as a gauge value.
pub open spec fn gauge(b: bool) -> u64 {
    if b {
        1
    } else {
        0
    }
}

/// The value that a fallback reason is counted in.
pub open spec fn fallback_count(m: ServerMetrics, reason: MixedBatchFallbackReason) -> u64 {
    match reason {
        MixedBatchFallbackReason::UnsupportedModel =>
            m.prefill_path_mixed_unsupported_model_total,
        MixedBatchFallbackReason::InactivePagedPool =>
            m.prefill_path_mixed_inactive_paged_pool_total,
        MixedBatchFallbackReason::LoraEnabled =>
            m.prefill_path_mixed_lora_enabled_total,
        MixedBatchFallbackReason::UnsupportedKvFormat =>
            m.prefill_path_mixed_unsupported_kv_format_total,
        MixedBatchFallbackReason::EmptyDecodeBatch =>
            m.prefill_path_mixed_empty_decode_batch_total,
        MixedBatchFallbackReason::DecodeSlotCountMismatch =>
            m.prefill_path_mixed_decode_slot_count_mismatch_total,
        MixedBatchFallbackReason::EmptyPrefillBatch =>
            m.prefill_path_mixed_empty_prefill_batch_total,
        MixedBatchFallbackReason::PrefillStartPositionCountMismatch =>
            m.prefill_path_mixed_prefill_start_position_count_mismatch_total,
        MixedBatchFallbackReason::EmptyPrefillTokens =>
            m.prefill_path_mixed_empty_prefill_tokens_total,
        MixedBatchFallbackReason::PrefillSlotInDecodeBatch =>
            m.prefill_path_mixed_prefill_slot_in_decode_batch_total,
        MixedBatchFallbackReason::DuplicatePrefillSlot =>
            m.prefill_path_mixed_duplicate_prefill_slot_total,
        MixedBatchFallbackReason::PrefillSeqLenMismatch =>
            m.prefill_path_mixed_prefill_seq_len_mismatch_total,
        MixedBatchFallbackReason::SchedulerPreDispatchFallback =>
            m.prefill_path_mixed_scheduler_pre_dispatch_fallback_total,
    }
}

/// The metrics with one more fallback counted under a reason.
pub open spec fn counted_fallback(
    m: ServerMetrics,
    reason: MixedBatchFallbackReason,
) -> ServerMetrics {
    match reason {
        MixedBatchFallbackReason::UnsupportedModel => ServerMetrics {
            prefill_path_mixed_unsupported_model_total:
                m.prefill_path_mixed_unsupported_model_total.wrapping_add(1),
            ..m
        },
        MixedBatchFallbackReason::InactivePagedPool => ServerMetrics {
            prefill_path_mixed_inactive_paged_pool_total:
                m.prefill_path_mixed_inactive_paged_pool_total.wrapping_add(1),
            ..m
        },
        MixedBatchFallbackReason::LoraEnabled => ServerMetrics {
            prefill_path_mixed_lora_enabled_total:
                m.prefill_path_mixed_lora_enabled_total.wrapping_add(1),
            ..m
        },
        MixedBatchFallbackReason::UnsupportedKvFormat => ServerMetrics {
            prefill_path_mixed_unsupported_kv_format_total:
                m.prefill_path_mixed_unsupported_kv_format_total.wrapping_add(1),
            ..m
        },
        MixedBatchFallbackReason::EmptyDecodeBatch => ServerMetrics {
            prefill_path_mixed_empty_decode_batch_total:
                m.prefill_path_mixed_empty_decode_batch_total.wrapping_add(1),
            ..m
        },
        MixedBatchFallbackReason::DecodeSlotCountMismatch => ServerMetrics {
            prefill_path_mixed_decode_slot_count_mismatch_total:
                m.prefill_path_mixed_decode_slot_count_mismatch_total.wrapping_add(1),
            ..m
        },
        MixedBatchFallbackReason::EmptyPrefillBatch => ServerMetrics {
            prefill_path_mixed_empty_prefill_batch_total:
                m.prefill_path_mixed_empty_prefill_batch_total.wrapping_add(1),
            ..m
        },
        MixedBatchFallbackReason::PrefillStartPositionCountMismatch => ServerMetrics {
            prefill_path_mixed_prefill_start_position_count_mismatch_total:
                m.prefill_path_mixed_prefill_start_position_count_mismatch_total.wrapping_add(1),
            ..m
        },
        MixedBatchFallbackReason::EmptyPrefillTokens => ServerMetrics {
            prefill_path_mixed_empty_prefill_tokens_total:
                m.prefill_path_mixed_empty_prefill_tokens_total.wrapping_add(1),
            ..m
        },
        MixedBatchFallbackReason::PrefillSlotInDecodeBatch => ServerMetrics {
            prefill_path_mixed_prefill_slot_in_decode_batch_total:
                m.prefill_path_mixed_prefill_slot_in_decode_batch_total.wrapping_add(1),
            ..m
        },
        MixedBatchFallbackReason::DuplicatePrefillSlot => ServerMetrics {
            prefill_path_mixed_duplicate_prefill_slot_total:
                m.prefill_path_mixed_duplicate_prefill_slot_total.wrapping_add(1),
            ..m
        },
        MixedBatchFallbackReason::PrefillSeqLenMismatch => ServerMetrics {
            prefill_path_mixed_prefill_seq_len_mismatch_total:
                m.prefill_path_mixed_prefill_seq_len_mismatch_total.wrapping_add(1),
            ..m
        },
        MixedBatchFallbackReason::SchedulerPreDispatchFallback => ServerMetrics {
            prefill_path_mixed_scheduler_pre_dispatch_fallback_total:
                m.prefill_path_mixed_scheduler_pre_dispatch_fallback_total.wrapping_add(1),
            ..m
        },
    }
}

/// The reasons in the alphabetical order of their labels.
pub open spec fn reasons_by_label() -> Seq<MixedBatchFallbackReason> {
    seq![
        MixedBatchFallbackReason::DecodeSlotCountMismatch,
        MixedBatchFallbackReason::DuplicatePrefillSlot,
        MixedBatchFallbackReason::EmptyDecodeBatch,
        MixedBatchFallbackReason::EmptyPrefillBatch,
        MixedBatchFallbackReason::EmptyPrefillTokens,
        MixedBatchFallbackReason::InactivePagedPool,
        MixedBatchFallbackReason::LoraEnabled,
        MixedBatchFallbackReason::PrefillSeqLenMismatch,
        MixedBatchFallbackReason::PrefillSlotInDecodeBatch,
        MixedBatchFallbackReason::PrefillStartPositionCountMismatch,
        MixedBatchFallbackReason::SchedulerPreDispatchFallback,
        MixedBatchFallbackReason::UnsupportedKvFormat,
        MixedBatchFallbackReason::UnsupportedModel,
    ]
}

/// Outcomes of the mixed decode and prefill path.
#[derive(Debug)]
pub struct PrefillPathStats {
    pub ok_true_count: u64,
    pub ok_false_count: u64,
    /// Label and count of each fallback reason, in the order of the labels.
    pub ok_false_reasons: Vec<(&'static str, u64)>,
}

impl PrefillPathStats {
    /// The statistics are those of `m`.
    pub open spec fn describes(self, m: ServerMetrics) -> bool {
        &&& self.ok_true_count == m.prefill_path_mixed_ok_true_total
        &&& self.ok_false_count == m.prefill_path_mixed_ok_false_total
        &&& self.ok_false_reasons@.len() == reasons_by_label().len()
        &&& forall|i: int|
            0 <= i < reasons_by_label().len() ==> (#[trigger] self.ok_false_reasons@[i]).0@
                == reason_label(reasons_by_label()[i]) && self.ok_false_reasons@[i].1
                == fallback_count(m, reasons_by_label()[i])
    }
}

/// The metrics of one server.
pub struct ServerMetrics {
    pub requests_total: u64,
    pub tokens_generated_total: u64,
    pub tokens_prompt_total: u64,
    pub requests_failed_total: u64,
    pub prefix_hits_total: u64,
    pub prefix_lookups_total: u64,
    pub prefix_reused_tokens_total: u64,
    pub prefix_lookup_prompt_tokens_total: u64,
    pub session_affinity_hit_total: u64,
    pub session_affinity_miss_total: u64,
    pub session_slot_pressure_evictions_hard_total: u64,
    pub prefix_aware_admit_deferrals_total: u64,
    pub tier_fetch_staged_host_blocks_total: u64,
    pub tier_fetch_staged_disk_blocks_total: u64,
    pub tier_fetch_staged_remote_blocks_total: u64,
    pub tier_fetch_promoted_blocks_total: u64,
    pub tier_fetch_fallback_total: u64,
    pub spec_draft_tokens_total: u64,
    pub spec_verified_tokens_total: u64,
    pub spec_accepted_tokens_total: u64,
    pub spec_sparse_view_empty_total: u64,
    pub dflash_blocks_total: u64,
    pub dflash_accepted_tokens_total: u64,
    pub dflash_draft_tokens_total: u64,
    pub metal_decode_batches_total: u64,
    pub metal_decode_batched_rows_total: u64,
    pub metal_decode_scalar_rows_total: u64,
    pub metal_decode_batch_fallback_rows_total: u64,
    pub metal_qwen35_packed_decode_batches_total: u64,
    pub metal_qwen35_packed_decode_rows_total: u64,
    pub requests_active: u64,
    pub requests_waiting: u64,
    pub scheduler_running_batch: u64,
    pub scheduler_prefill_queue: u64,
    pub scheduler_scheduled_rows: u64,
    pub scheduler_scheduled_decode_rows: u64,
    pub scheduler_scheduled_prefill_rows: u64,
    pub scheduler_decode_tokens: u64,
    pub scheduler_prefill_tokens: u64,
    pub scheduler_batch_width: u64,
    pub scheduler_step_last_us: u64,
    pub scheduler_step_admission_us: u64,
    pub scheduler_step_prefill_us: u64,
    pub scheduler_step_decode_us: u64,
    pub scheduler_step_emit_us: u64,
    pub scheduler_step_total_us: u64,
    pub scheduler_step_cleanup_us: u64,
    pub scheduler_loop_total_us: u64,
    pub scheduler_step_phase_samples: u64,
    pub preprocess_queue_depth: u64,
    pub preprocess_wait_us: u64,
    pub preprocess_tokenize_us: u64,
    pub scheduler_pipeline_snapshot_us: u64,
    pub scheduler_pipeline_cpu_plan_us: u64,
    pub scheduler_pipeline_gpu_completion_wait_us: u64,
    pub scheduler_pipeline_gpu_command_queue_depth: u64,
    pub scheduler_pipeline_cpu_plan_accept_total: u64,
    pub scheduler_pipeline_cpu_plan_stale_total: u64,
    pub scheduler_plan_idle_total: u64,
    pub scheduler_plan_decode_total: u64,
    pub scheduler_plan_prefill_total: u64,
    pub scheduler_plan_split_total: u64,
    pub scheduler_plan_mixed_total: u64,
    pub prefill_path_mixed_ok_true_total: u64,
    pub prefill_path_mixed_ok_false_total: u64,
    pub prefill_path_mixed_unsupported_model_total: u64,
    pub prefill_path_mixed_inactive_paged_pool_total: u64,
    pub prefill_path_mixed_lora_enabled_total: u64,
    pub prefill_path_mixed_unsupported_kv_format_total: u64,
    pub prefill_path_mixed_empty_decode_batch_total: u64,
    pub prefill_path_mixed_decode_slot_count_mismatch_total: u64,
    pub prefill_path_mixed_empty_prefill_batch_total: u64,
    pub prefill_path_mixed_prefill_start_position_count_mismatch_total: u64,
    pub prefill_path_mixed_empty_prefill_tokens_total: u64,
    pub prefill_path_mixed_prefill_slot_in_decode_batch_total: u64,
    pub prefill_path_mixed_duplicate_prefill_slot_total: u64,
    pub prefill_path_mixed_prefill_seq_len_mismatch_total: u64,
    pub prefill_path_mixed_scheduler_pre_dispatch_fallback_total: u64,
    pub spec_acceptance_rate_ppm: u64,
    pub kv_coordinator_queue_capacity: u64,
    pub kv_fetch_queue_depth: u64,
    pub kv_fetch_waiters: u64,
    pub kv_store_queue_depth: u64,
    pub kv_fetch_backpressure: u64,
    pub kv_store_backpressure: u64,
    pub kv_store_submitted_total: u64,
    pub kv_store_completed_total: u64,
    pub kv_store_failed_total: u64,
    pub kv_store_rejected_total: u64,
    pub tier_fetch_wait_us: u64,
    pub tier_store_wait_us: u64,
    pub kv_gpu_blocks_free: u64,
    pub kv_gpu_blocks_total: u64,
    pub matched_prefix_tokens: u64,
    pub resume_prefill_tokens: u64,
    pub prefix_request_hit_ppm: u64,
    pub prefix_request_skip_ppm: u64,
    pub prefix_lookup_latency_us: u64,
    pub prefix_lookup_reusable_tokens: u64,
    pub prefix_lookup_ready_on_gpu: u64,
    pub prefix_lookup_direct_gpu_attach: u64,
    pub prefix_lookup_staged: u64,
    pub prefix_lookup_prefetch: u64,
    pub prefix_lookup_recompute: u64,
    pub memory_active_bytes: u64,
    pub memory_peak_bytes: u64,
    pub memory_cache_bytes: u64,
    pub histograms: HistogramSet,
    pub latest_request_cache: RequestCacheStats,
    pub session_cache: Vec<(String, SessionCacheStats)>,
    pub runtime_topology: RuntimeTopologyMetrics,
    pub model_id: String,
    pub model_arch: Option<ModelArchSummary>,
}

impl ServerMetrics {
    /// The histograms are valid and each session has one entry.
    pub open spec fn wf(self) -> bool {
        &&& self.histograms.wf()
        &&& distinct_sessions(self.session_cache@)
    }

    /// The block and tier gauges are such that the rates derived from them
    /// exist: no more blocks are free than there are, and the staged blocks of
    /// all tiers can be added up.
    pub open spec fn rates_exist(self) -> bool {
        &&& self.kv_gpu_blocks_total == 0 || self.kv_gpu_blocks_free <= self.kv_gpu_blocks_total
        &&& self.tier_fetch_staged_host_blocks_total + self.tier_fetch_staged_disk_blocks_total
            + self.tier_fetch_staged_remote_blocks_total <= u64::MAX
    }

    /// Nothing was recorded yet.
    pub open spec fn is_fresh(self, model_id: Seq<char>) -> bool {
        &&& self == (ServerMetrics {
            requests_total: 0,
            tokens_generated_total: 0,
            tokens_prompt_total: 0,
            requests_failed_total: 0,
            prefix_hits_total: 0,
            prefix_lookups_total: 0,
            prefix_reused_tokens_total: 0,
            prefix_lookup_prompt_tokens_total: 0,
            session_affinity_hit_total: 0,
            session_affinity_miss_total: 0,
            session_slot_pressure_evictions_hard_total: 0,
            prefix_aware_admit_deferrals_total: 0,
            tier_fetch_staged_host_blocks_total: 0,
            tier_fetch_staged_disk_blocks_total: 0,
            tier_fetch_staged_remote_blocks_total: 0,
            tier_fetch_promoted_blocks_total: 0,
            tier_fetch_fallback_total: 0,
            spec_draft_tokens_total: 0,
            spec_verified_tokens_total: 0,
            spec_accepted_tokens_total: 0,
            spec_sparse_view_empty_total: 0,
            dflash_blocks_total: 0,
            dflash_accepted_tokens_total: 0,
            dflash_draft_tokens_total: 0,
            metal_decode_batches_total: 0,
            metal_decode_batched_rows_total: 0,
            metal_decode_scalar_rows_total: 0,
            metal_decode_batch_fallback_rows_total: 0,
            metal_qwen35_packed_decode_batches_total: 0,
            metal_qwen35_packed_decode_rows_total: 0,
            requests_active: 0,
            requests_waiting: 0,
            scheduler_running_batch: 0,
            scheduler_prefill_queue: 0,
            scheduler_scheduled_rows: 0,
            scheduler_scheduled_decode_rows: 0,
            scheduler_scheduled_prefill_rows: 0,
            scheduler_decode_tokens: 0,
            scheduler_prefill_tokens: 0,
            scheduler_batch_width: 0,
            scheduler_step_last_us: 0,
            scheduler_step_admission_us: 0,
            scheduler_step_prefill_us: 0,
            scheduler_step_decode_us: 0,
            scheduler_step_emit_us: 0,
            scheduler_step_total_us: 0,
            scheduler_step_cleanup_us: 0,
            scheduler_loop_total_us: 0,
            scheduler_step_phase_samples: 0,
            preprocess_queue_depth: 0,
            preprocess_wait_us: 0,
            preprocess_tokenize_us: 0,
            scheduler_pipeline_snapshot_us: 0,
            scheduler_pipeline_cpu_plan_us: 0,
            scheduler_pipeline_gpu_completion_wait_us: 0,
            scheduler_pipeline_gpu_command_queue_depth: 0,
            scheduler_pipeline_cpu_plan_accept_total: 0,
            scheduler_pipeline_cpu_plan_stale_total: 0,
            scheduler_plan_idle_total: 0,
            scheduler_plan_decode_total: 0,
            scheduler_plan_prefill_total: 0,
            scheduler_plan_split_total: 0,
            scheduler_plan_mixed_total: 0,
            prefill_path_mixed_ok_true_total: 0,
            prefill_path_mixed_ok_false_total: 0,
            prefill_path_mixed_unsupported_model_total: 0,
            prefill_path_mixed_inactive_paged_pool_total: 0,
            prefill_path_mixed_lora_enabled_total: 0,
            prefill_path_mixed_unsupported_kv_format_total: 0,
            prefill_path_mixed_empty_decode_batch_total: 0,
            prefill_path_mixed_decode_slot_count_mismatch_total: 0,
            prefill_path_mixed_empty_prefill_batch_total: 0,
            prefill_path_mixed_prefill_start_position_count_mismatch_total: 0,
            prefill_path_mixed_empty_prefill_tokens_total: 0,
            prefill_path_mixed_prefill_slot_in_decode_batch_total: 0,
            prefill_path_mixed_duplicate_prefill_slot_total: 0,
            prefill_path_mixed_prefill_seq_len_mismatch_total: 0,
            prefill_path_mixed_scheduler_pre_dispatch_fallback_total: 0,
            spec_acceptance_rate_ppm: 0,
            kv_coordinator_queue_capacity: 0,
            kv_fetch_queue_depth: 0,
            kv_fetch_waiters: 0,
            kv_store_queue_depth: 0,
            kv_fetch_backpressure: 0,
            kv_store_backpressure: 0,
            kv_store_submitted_total: 0,
            kv_store_completed_total: 0,
            kv_store_failed_total: 0,
            kv_store_rejected_total: 0,
            tier_fetch_wait_us: 0,
            tier_store_wait_us: 0,
            kv_gpu_blocks_free: 0,
            kv_gpu_blocks_total: 0,
            matched_prefix_tokens: 0,
            resume_prefill_tokens: 0,
            prefix_request_hit_ppm: 0,
            prefix_request_skip_ppm: 0,
            prefix_lookup_latency_us: 0,
            prefix_lookup_reusable_tokens: 0,
            prefix_lookup_ready_on_gpu: 0,
            prefix_lookup_direct_gpu_attach: 0,
            prefix_lookup_staged: 0,
            prefix_lookup_prefetch: 0,
            prefix_lookup_recompute: 0,
            memory_active_bytes: 0,
            memory_peak_bytes: 0,
            memory_cache_bytes: 0,
            ..self
        })
        &&& self.histograms.is_empty()
        &&& self.latest_request_cache == (RequestCacheStats {
            session_id: None,
            prefix_hit: false,
            prompt_tokens: 0,
            matched_prefix_tokens: 0,
            resume_prefill_tokens: 0,
        })
        &&& self.session_cache@ == Seq::<(String, SessionCacheStats)>::empty()
        &&& self.runtime_topology.is_zero()
        &&& self.model_id@ == model_id
        &&& self.model_arch is None
    }

    /// Metrics of a server that has not served anything.
    pub fn new(model_id: &str) -> (m: ServerMetrics)
        ensures
            m.is_fresh(model_id@),
            m.wf(),
            m.rates_exist(),
    {
        ServerMetrics {
            requests_total: 0,
            tokens_generated_total: 0,
            tokens_prompt_total: 0,
            requests_failed_total: 0,
            prefix_hits_total: 0,
            prefix_lookups_total: 0,
            prefix_reused_tokens_total: 0,
            prefix_lookup_prompt_tokens_total: 0,
            session_affinity_hit_total: 0,
            session_affinity_miss_total: 0,
            session_slot_pressure_evictions_hard_total: 0,
            prefix_aware_admit_deferrals_total: 0,
            tier_fetch_staged_host_blocks_total: 0,
            tier_fetch_staged_disk_blocks_total: 0,
            tier_fetch_staged_remote_blocks_total: 0,
            tier_fetch_promoted_blocks_total: 0,
            tier_fetch_fallback_total: 0,
            spec_draft_tokens_total: 0,
            spec_verified_tokens_total: 0,
            spec_accepted_tokens_total: 0,
            spec_sparse_view_empty_total: 0,
            dflash_blocks_total: 0,
            dflash_accepted_tokens_total: 0,
            dflash_draft_tokens_total: 0,
            metal_decode_batches_total: 0,
            metal_decode_batched_rows_total: 0,
            metal_decode_scalar_rows_total: 0,
            metal_decode_batch_fallback_rows_total: 0,
            metal_qwen35_packed_decode_batches_total: 0,
            metal_qwen35_packed_decode_rows_total: 0,
            requests_active: 0,
            requests_waiting: 0,
            scheduler_running_batch: 0,
            scheduler_prefill_queue: 0,
            scheduler_scheduled_rows: 0,
            scheduler_scheduled_decode_rows: 0,
            scheduler_scheduled_prefill_rows: 0,
            scheduler_decode_tokens: 0,
            scheduler_prefill_tokens: 0,
            scheduler_batch_width: 0,
            scheduler_step_last_us: 0,
            scheduler_step_admission_us: 0,
            scheduler_step_prefill_us: 0,
            scheduler_step_decode_us: 0,
            scheduler_step_emit_us: 0,
            scheduler_step_total_us: 0,
            scheduler_step_cleanup_us: 0,
            scheduler_loop_total_us: 0,
            scheduler_step_phase_samples: 0,
            preprocess_queue_depth: 0,
            preprocess_wait_us: 0,
            preprocess_tokenize_us: 0,
            scheduler_pipeline_snapshot_us: 0,
            scheduler_pipeline_cpu_plan_us: 0,
            scheduler_pipeline_gpu_completion_wait_us: 0,
            scheduler_pipeline_gpu_command_queue_depth: 0,
            scheduler_pipeline_cpu_plan_accept_total: 0,
            scheduler_pipeline_cpu_plan_stale_total: 0,
            scheduler_plan_idle_total: 0,
            scheduler_plan_decode_total: 0,
            scheduler_plan_prefill_total: 0,
            scheduler_plan_split_total: 0,
            scheduler_plan_mixed_total: 0,
            prefill_path_mixed_ok_true_total: 0,
            prefill_path_mixed_ok_false_total: 0,
            prefill_path_mixed_unsupported_model_total: 0,
            prefill_path_mixed_inactive_paged_pool_total: 0,
            prefill_path_mixed_lora_enabled_total: 0,
            prefill_path_mixed_unsupported_kv_format_total: 0,
            prefill_path_mixed_empty_decode_batch_total: 0,
            prefill_path_mixed_decode_slot_count_mismatch_total: 0,
            prefill_path_mixed_empty_prefill_batch_total: 0,
            prefill_path_mixed_prefill_start_position_count_mismatch_total: 0,
            prefill_path_mixed_empty_prefill_tokens_total: 0,
            prefill_path_mixed_prefill_slot_in_decode_batch_total: 0,
            prefill_path_mixed_duplicate_prefill_slot_total: 0,
            prefill_path_mixed_prefill_seq_len_mismatch_total: 0,
            prefill_path_mixed_scheduler_pre_dispatch_fallback_total: 0,
            spec_acceptance_rate_ppm: 0,
            kv_coordinator_queue_capacity: 0,
            kv_fetch_queue_depth: 0,
            kv_fetch_waiters: 0,
            kv_store_queue_depth: 0,
            kv_fetch_backpressure: 0,
            kv_store_backpressure: 0,
            kv_store_submitted_total: 0,
            kv_store_completed_total: 0,
            kv_store_failed_total: 0,
            kv_store_rejected_total: 0,
            tier_fetch_wait_us: 0,
            tier_store_wait_us: 0,
            kv_gpu_blocks_free: 0,
            kv_gpu_blocks_total: 0,
            matched_prefix_tokens: 0,
            resume_prefill_tokens: 0,
            prefix_request_hit_ppm: 0,
            prefix_request_skip_ppm: 0,
            prefix_lookup_latency_us: 0,
            prefix_lookup_reusable_tokens: 0,
            prefix_lookup_ready_on_gpu: 0,
            prefix_lookup_direct_gpu_attach: 0,
            prefix_lookup_staged: 0,
            prefix_lookup_prefetch: 0,
            prefix_lookup_recompute: 0,
            memory_active_bytes: 0,
            memory_peak_bytes: 0,
            memory_cache_bytes: 0,
            histograms: HistogramSet::new(),
            latest_request_cache: RequestCacheStats {
                session_id: None,
                prefix_hit: false,
                prompt_tokens: 0,
                matched_prefix_tokens: 0,
                resume_prefill_tokens: 0,
            },
            session_cache: Vec::new(),
            runtime_topology: RuntimeTopologyMetrics::default(),
            model_id: String::from_str(model_id),
            model_arch: None,
        }
    }

    /// Publishes the architecture of the model after it was loaded.
    pub fn set_model_arch(&mut self, summary: ModelArchSummary)
        ensures
            *final(self) == after_model_arch(*old(self), summary),
    {
        self.model_arch = Some(summary);
    }

    /// Records a completed request: counters and latency histograms. The queue
    /// wait counts as zero and the time to the first token as active.
    pub fn record_request_completed(
        &mut self,
        prompt_tokens: u64,
        generated_tokens: u64,
        ttft_us: u64,
        tpot_us: u64,
        e2e_us: u64,
    )
        requires
            old(self).wf(),
            old(self).can_observe_request(),
        ensures
            final(self).wf(),
            final(self).completed(
                *old(self),
                prompt_tokens,
                generated_tokens,
                0,
                ttft_us,
                ttft_us,
                tpot_us,
                e2e_us,
            ),
    {
        self.record_request_completed_detailed(
            prompt_tokens,
            generated_tokens,
            0,
            ttft_us,
            ttft_us,
            tpot_us,
            e2e_us,
        );
    }

    /// No request histogram has reached the limit of its count.
    pub open spec fn can_observe_request(self) -> bool {
        &&& self.histograms.queue_wait@.count < u64::MAX
        &&& self.histograms.active_ttft@.count < u64::MAX
        &&& self.histograms.ttft@.count < u64::MAX
        &&& self.histograms.tpot@.count < u64::MAX
        &&& self.histograms.service@.count < u64::MAX
        &&& self.histograms.e2e@.count < u64::MAX
    }

    /// `self` is `before` after one completed request.
    pub open spec fn completed(
        self,
        before: ServerMetrics,
        prompt_tokens: u64,
        generated_tokens: u64,
        queue_wait_us: u64,
        active_ttft_us: u64,
        ttft_us: u64,
        tpot_us: u64,
        e2e_us: u64,
    ) -> bool {
        let h = self.histograms;
        let g = before.histograms;
        &&& self == (ServerMetrics {
            requests_total: before.requests_total.wrapping_add(1),
            tokens_prompt_total: before.tokens_prompt_total.wrapping_add(prompt_tokens),
            tokens_generated_total: before.tokens_generated_total.wrapping_add(generated_tokens),
            histograms: h,
            ..before
        })
        &&& h == (HistogramSet {
            queue_wait: h.queue_wait,
            active_ttft: h.active_ttft,
            ttft: h.ttft,
            tpot: h.tpot,
            service: h.service,
            e2e: h.e2e,
            ..g
        })
        &&& h.queue_wait@ == observed(g.queue_wait@, queue_wait_us)
        &&& h.active_ttft@ == observed(g.active_ttft@, active_ttft_us)
        &&& h.ttft@ == observed(g.ttft@, ttft_us)
        &&& h.tpot@ == (if generated_tokens > 1 {
            observed(g.tpot@, tpot_us)
        } else {
            g.tpot@
        })
        &&& h.service@ == observed(g.service@, e2e_us.saturating_sub(ttft_us))
        &&& h.e2e@ == observed(g.e2e@, e2e_us)
    }

    /// Records a completed request with queueing and service phases broken
    /// out. The time per token counts only where more than one token was
    /// generated; service time is what remains after the first token.
    pub fn record_request_completed_detailed(
        &mut self,
        prompt_tokens: u64,
        generated_tokens: u64,
        queue_wait_us: u64,
        active_ttft_us: u64,
        ttft_us: u64,
        tpot_us: u64,
        e2e_us: u64,
    )
        requires
            old(self).wf(),
            old(self).can_observe_request(),
        ensures
            final(self).wf(),
            final(self).completed(
                *old(self),
                prompt_tokens,
                generated_tokens,
                queue_wait_us,
                active_ttft_us,
                ttft_us,
                tpot_us,
                e2e_us,
            ),
    {
        self.requests_total = self.requests_total.wrapping_add(1);
        self.tokens_prompt_total = self.tokens_prompt_total.wrapping_add(prompt_tokens);
        self.tokens_generated_total = self.tokens_generated_total.wrapping_add(generated_tokens);
        self.histograms.queue_wait.observe(queue_wait_us);
        self.histograms.active_ttft.observe(active_ttft_us);
        self.histograms.ttft.observe(ttft_us);
        if generated_tokens > 1 {
            self.histograms.tpot.observe(tpot_us);
        }
        self.histograms.service.observe(e2e_us.saturating_sub(ttft_us));
        self.histograms.e2e.observe(e2e_us);
    }

    /// Counts one failed request.
    pub fn record_request_failed(&mut self)
        ensures
            *final(self) == after_request_failed(*old(self)),
    {
        self.requests_failed_total = self.requests_failed_total.wrapping_add(1);
    }

    /// Records one prefix-cache lookup and how many prompt tokens it skipped.
    pub fn record_prefix_lookup(&mut self, reused_tokens: usize, prompt_tokens: usize)
        requires
            old(self).wf(),
        ensures
            final(self).wf(),
            final(self).cached(
                *old(self),
                None,
                reused_tokens,
                prompt_tokens,
                prompt_tokens.saturating_sub(reused_tokens),
            ),
    {
        self.record_request_cache(
            None,
            reused_tokens,
            prompt_tokens,
            prompt_tokens.saturating_sub(reused_tokens),
        );
    }

    /// `self` is `before` after the prefix reuse of one request was recorded.
    pub open spec fn cached(
        self,
        before: ServerMetrics,
        session: Option<Seq<char>>,
        matched_prefix_tokens: usize,
        prompt_tokens: usize,
        resume_prefill_tokens: usize,
    ) -> bool {
        let matched = at_most(matched_prefix_tokens, prompt_tokens);
        let resume = at_most(resume_prefill_tokens, prompt_tokens);
        let prompt = prompt_tokens as u64;
        let latest = self.latest_request_cache;
        &&& self == (ServerMetrics {
            prefix_lookups_total: before.prefix_lookups_total.wrapping_add(1),
            prefix_reused_tokens_total: before.prefix_reused_tokens_total.wrapping_add(matched),
            prefix_lookup_prompt_tokens_total:
                before.prefix_lookup_prompt_tokens_total.wrapping_add(prompt),
            prefix_hits_total: if matched > 0 {
                before.prefix_hits_total.wrapping_add(1)
            } else {
                before.prefix_hits_total
            },
            matched_prefix_tokens: matched,
            resume_prefill_tokens: resume,
            prefix_request_hit_ppm: if matched > 0 {
                1_000_000
            } else {
                0
            },
            prefix_request_skip_ppm: parts_per_million(matched as nat, prompt as nat) as u64,
            session_affinity_hit_total: if session is Some && matched > 0 {
                before.session_affinity_hit_total.wrapping_add(1)
            } else {
                before.session_affinity_hit_total
            },
            session_affinity_miss_total: if session is Some && matched == 0 {
                before.session_affinity_miss_total.wrapping_add(1)
            } else {
                before.session_affinity_miss_total
            },
            latest_request_cache: latest,
            session_cache: self.session_cache,
            ..before
        })
        &&& latest == (RequestCacheStats {
            session_id: latest.session_id,
            prefix_hit: matched > 0,
            prompt_tokens: prompt,
            matched_prefix_tokens: matched,
            resume_prefill_tokens: resume,
        })
        &&& match session {
            None => latest.session_id is None && self.session_cache@ == before.session_cache@,
            Some(id) => {
                &&& latest.session_id is Some
                &&& latest.session_id->0@ == id
                &&& session_stats(self.session_cache@, id) == Some(
                    observed_session(
                        match session_stats(before.session_cache@, id) {
                            Some(stats) => stats,
                            None => empty_session(),
                        },
                        matched,
                        prompt,
                        resume,
                    ),
                )
                &&& forall|other: Seq<char>|
                    other != id ==> #[trigger] session_stats(self.session_cache@, other)
                        == session_stats(before.session_cache@, other)
            },
        }
    }

    /// Records prefix reuse and effective prefill of one request. Matched and
    /// resumed tokens never exceed the prompt.
    ///
    /// Session affinity is observational: a request of a session is a hit when
    /// it reused a prefix. It does not change admission.
    pub fn record_request_cache(
        &mut self,
        session_id: Option<&SessionId>,
        matched_prefix_tokens: usize,
        prompt_tokens: usize,
        resume_prefill_tokens: usize,
    )
        requires
            old(self).wf(),
        ensures
            final(self).wf(),
            final(self).cached(
                *old(self),
                match session_id {
                    Some(id) => Some(id.id@),
                    None => None,
                },
                matched_prefix_tokens,
                prompt_tokens,
                resume_prefill_tokens,
            ),
    {
        let matched: u64 = if matched_prefix_tokens <= prompt_tokens {
            matched_prefix_tokens as u64
        } else {
            prompt_tokens as u64
        };
        let resume: u64 = if resume_prefill_tokens <= prompt_tokens {
            resume_prefill_tokens as u64
        } else {
            prompt_tokens as u64
        };
        let prompt: u64 = prompt_tokens as u64;
        self.prefix_lookups_total = self.prefix_lookups_total.wrapping_add(1);
        self.prefix_reused_tokens_total = self.prefix_reused_tokens_total.wrapping_add(matched);
        self.prefix_lookup_prompt_tokens_total =
            self.prefix_lookup_prompt_tokens_total.wrapping_add(prompt);
        if matched > 0 {
            self.prefix_hits_total = self.prefix_hits_total.wrapping_add(1);
        }
        self.matched_prefix_tokens = matched;
        self.resume_prefill_tokens = resume;
        self.prefix_request_hit_ppm = if matched > 0 {
            1_000_000
        } else {
            0
        };
        self.prefix_request_skip_ppm = ratio_ppm(matched, prompt);
        self.latest_request_cache = RequestCacheStats {
            session_id: match session_id {
                Some(id) => Some(id.id.clone()),
                None => None,
            },
            prefix_hit: matched > 0,
            prompt_tokens: prompt,
            matched_prefix_tokens: matched,
            resume_prefill_tokens: resume,
        };
        if let Some(id) = session_id {
            if matched > 0 {
                self.session_affinity_hit_total = self.session_affinity_hit_total.wrapping_add(1);
            } else {
                self.session_affinity_miss_total = self.session_affinity_miss_total.wrapping_add(1);
            }
            observe_session_request(&mut self.session_cache, id, matched, prompt, resume);
        }
    }

    /// Records the admission-side prefix lookup decision; the lookup counters are
    /// updated when the request is prefilled.
    pub fn record_prefix_lookup_detail(
        &mut self,
        prompt_tokens: usize,
        matched_prefix_tokens: usize,
        reusable_tokens: usize,
        lookup_latency_us: u64,
        ready_on_gpu: bool,
        direct_gpu_attach: bool,
        staged: bool,
        prefetch: bool,
        recompute: bool,
    )
        ensures
            *final(self) == after_prefix_lookup_detail(
                *old(self),
                prompt_tokens,
                matched_prefix_tokens,
                reusable_tokens,
                lookup_latency_us,
                ready_on_gpu,
                direct_gpu_attach,
                staged,
                prefetch,
                recompute,
            ),
    {
        self.matched_prefix_tokens = min_tokens(matched_prefix_tokens, prompt_tokens);
        self.prefix_lookup_reusable_tokens = min_tokens(reusable_tokens, prompt_tokens);
        self.prefix_lookup_latency_us = lookup_latency_us;
        self.prefix_request_hit_ppm = if min_tokens(matched_prefix_tokens, prompt_tokens) > 0 {
            1_000_000
        } else {
            0
        };
        self.prefix_request_skip_ppm = ratio_ppm(
            min_tokens(matched_prefix_tokens, prompt_tokens),
            prompt_tokens as u64,
        );
        self.prefix_lookup_ready_on_gpu = gauge_of(ready_on_gpu);
        self.prefix_lookup_direct_gpu_attach = gauge_of(direct_gpu_attach);
        self.prefix_lookup_staged = gauge_of(staged);
        self.prefix_lookup_prefetch = gauge_of(prefetch);
        self.prefix_lookup_recompute = gauge_of(recompute);
    }

    /// Marks that the most recent staged lookup was queued for prefetch.
    pub fn record_prefix_lookup_prefetch_queued(&mut self)
        ensures
            *final(self) == after_prefix_lookup_prefetch_queued(*old(self)),
    {
        self.prefix_lookup_prefetch = 1;
    }

    /// Records staged fetch blocks by the tier that holds them.
    pub fn record_tier_fetch_plan(
        &mut self,
        host_blocks: usize,
        disk_blocks: usize,
        remote_blocks: usize,
    )
        ensures
            *final(self) == after_tier_fetch_plan(
                *old(self),
                host_blocks,
                disk_blocks,
                remote_blocks,
            ),
    {
        self.tier_fetch_staged_host_blocks_total =
            self.tier_fetch_staged_host_blocks_total.wrapping_add(host_blocks as u64);
        self.tier_fetch_staged_disk_blocks_total =
            self.tier_fetch_staged_disk_blocks_total.wrapping_add(disk_blocks as u64);
        self.tier_fetch_staged_remote_blocks_total =
            self.tier_fetch_staged_remote_blocks_total.wrapping_add(remote_blocks as u64);
    }

    /// Records staged blocks that were promoted back to the GPU.
    pub fn record_tier_fetch_promoted(&mut self, promoted_blocks: usize)
        ensures
            *final(self) == after_tier_fetch_promoted(*old(self), promoted_blocks),
    {
        self.tier_fetch_promoted_blocks_total =
            self.tier_fetch_promoted_blocks_total.wrapping_add(promoted_blocks as u64);
    }

    /// Records one staged prefix that fell back to cold prefill.
    pub fn record_tier_fetch_fallback(&mut self)
        ensures
            *final(self) == after_tier_fetch_fallback(*old(self)),
    {
        self.tier_fetch_fallback_total = self.tier_fetch_fallback_total.wrapping_add(1);
    }

    /// Records inactive session slots that were evicted under hard pressure.
    pub fn record_session_slot_pressure_evictions_hard(&mut self, slots: usize)
        ensures
            *final(self) == after_session_slot_pressure_evictions_hard(*old(self), slots),
    {
        self.session_slot_pressure_evictions_hard_total =
            self.session_slot_pressure_evictions_hard_total.wrapping_add(slots as u64);
    }

    /// Records a cold request that admission deferred.
    pub fn record_prefix_aware_admit_deferral(&mut self)
        ensures
            *final(self) == after_prefix_aware_admit_deferral(*old(self)),
    {
        self.prefix_aware_admit_deferrals_total =
            self.prefix_aware_admit_deferrals_total.wrapping_add(1);
    }

    /// Sets the number of running requests.
    pub fn set_active(&mut self, n: u64)
        ensures
            *final(self) == after_active(*old(self), n),
    {
        self.requests_active = n;
    }

    /// Sets the number of queued requests.
    pub fn set_waiting(&mut self, n: u64)
        ensures
            *final(self) == after_waiting(*old(self), n),
    {
        self.requests_waiting = n;
    }

    /// Sets the queue occupancy of the scheduler.
    pub fn set_scheduler_occupancy(&mut self, running_batch: u64, prefill_queue: u64)
        ensures
            *final(self) == after_scheduler_occupancy(*old(self), running_batch, prefill_queue),
    {
        self.scheduler_running_batch = running_batch;
        self.scheduler_prefill_queue = prefill_queue;
    }

    /// Updates the gauges of one scheduler tick.
    pub fn set_scheduler_step(
        &mut self,
        scheduled_rows: u64,
        scheduled_decode_rows: u64,
        scheduled_prefill_rows: u64,
        decode_tokens: u64,
        prefill_tokens: u64,
        batch_width: u64,
    )
        ensures
            *final(self) == after_scheduler_step(
                *old(self),
                scheduled_rows,
                scheduled_decode_rows,
                scheduled_prefill_rows,
                decode_tokens,
                prefill_tokens,
                batch_width,
            ),
    {
        self.scheduler_scheduled_rows = scheduled_rows;
        self.scheduler_scheduled_decode_rows = scheduled_decode_rows;
        self.scheduler_scheduled_prefill_rows = scheduled_prefill_rows;
        self.scheduler_decode_tokens = decode_tokens;
        self.scheduler_prefill_tokens = prefill_tokens;
        self.scheduler_batch_width = batch_width;
    }

    /// Records the latency of one scheduler tick.
    pub fn observe_scheduler_step(&mut self, step_us: u64)
        requires
            old(self).wf(),
            old(self).histograms.scheduler_step@.count < u64::MAX,
        ensures
            final(self).wf(),
            is_observed_step(*old(self), *final(self), step_us),
    {
        self.scheduler_step_last_us = step_us;
        self.histograms.scheduler_step.observe(step_us);
    }

    /// Updates the averaged phase durations of a scheduler tick.
    pub fn set_scheduler_step_phase_us(
        &mut self,
        admission_us: u64,
        prefill_us: u64,
        decode_us: u64,
        emit_us: u64,
        total_us: u64,
    )
        ensures
            *final(self) == after_scheduler_step_phase_us(
                *old(self),
                admission_us,
                prefill_us,
                decode_us,
                emit_us,
                total_us,
            ),
    {
        self.scheduler_step_admission_us = admission_us;
        self.scheduler_step_prefill_us = prefill_us;
        self.scheduler_step_decode_us = decode_us;
        self.scheduler_step_emit_us = emit_us;
        self.scheduler_step_total_us = total_us;
        self.scheduler_step_phase_samples = self.scheduler_step_phase_samples.wrapping_add(1);
    }

    /// Updates the averaged cleanup and full-loop durations.
    pub fn set_scheduler_loop_phase_us(&mut self, cleanup_us: u64, loop_total_us: u64)
        ensures
            *final(self) == after_scheduler_loop_phase_us(*old(self), cleanup_us, loop_total_us),
    {
        self.scheduler_step_cleanup_us = cleanup_us;
        self.scheduler_loop_total_us = loop_total_us;
    }

    /// Updates the preprocess queue and tokenization gauges.
    pub fn set_preprocess_stage(&mut self, queue_depth: u64, wait_us: u64, tokenize_us: u64)
        ensures
            *final(self) == after_preprocess_stage(*old(self), queue_depth, wait_us, tokenize_us),
    {
        self.preprocess_queue_depth = queue_depth;
        self.preprocess_wait_us = wait_us;
        self.preprocess_tokenize_us = tokenize_us;
    }

    /// Updates the pipeline gauges of the most recent tick.
    pub fn set_scheduler_pipeline_us(
        &mut self,
        snapshot_us: u64,
        cpu_plan_us: u64,
        gpu_completion_wait_us: u64,
        gpu_command_queue_depth: u64,
    )
        ensures
            *final(self) == after_scheduler_pipeline_us(
                *old(self),
                snapshot_us,
                cpu_plan_us,
                gpu_completion_wait_us,
                gpu_command_queue_depth,
            ),
    {
        self.scheduler_pipeline_snapshot_us = snapshot_us;
        self.scheduler_pipeline_cpu_plan_us = cpu_plan_us;
        self.scheduler_pipeline_gpu_completion_wait_us = gpu_completion_wait_us;
        self.scheduler_pipeline_gpu_command_queue_depth = gpu_command_queue_depth;
    }

    /// Publishes the topology found at startup and the worker's place in it. A
    /// worker without a NUMA node shows as node -1.
    pub fn set_runtime_topology(
        &mut self,
        topology: &RuntimeTopology,
        placement: &WorkerPlacement,
        affinity: &AffinityApplyResult,
    )
        ensures
            *final(self) == after_runtime_topology(*old(self), *topology, *placement, *affinity),
    {
        self.runtime_topology.numa_nodes = topology.numa_nodes.len() as u64;
        self.runtime_topology.gpus = topology.gpus.len() as u64;
        self.runtime_topology.nics = topology.nics.len() as u64;
        self.runtime_topology.worker_id = placement.worker_id as u64;
        self.runtime_topology.worker_gpu_ordinal = placement.gpu_ordinal as u64;
        self.runtime_topology.worker_numa_node = match placement.numa_node {
            Some(node) => node as i64,
            None => -1,
        };
        self.runtime_topology.worker_cpu_count = placement.cpus.len() as u64;
        self.runtime_topology.worker_nic_count = placement.nics.len() as u64;
        self.runtime_topology.affinity_applied = affinity.applied;
        self.runtime_topology.affinity_threads = affinity.applied_threads as u64;
        self.runtime_topology.affinity_failed_threads = affinity.failed_threads as u64;
        self.runtime_topology.affinity_reason = affinity.reason.clone();
    }

    /// Publishes the size of the tokenization pool.
    pub fn set_preprocess_topology(&mut self, groups: usize, workers: usize)
        ensures
            *final(self) == after_preprocess_topology(*old(self), groups, workers),
    {
        self.runtime_topology.preprocess_groups = groups as u64;
        self.runtime_topology.preprocess_workers = workers as u64;
    }

    /// Publishes the size of the detokenization pool.
    pub fn set_detokenizer_topology(&mut self, groups: usize, workers: usize)
        ensures
            *final(self) == after_detokenizer_topology(*old(self), groups, workers),
    {
        self.runtime_topology.detokenizer_groups = groups as u64;
        self.runtime_topology.detokenizer_workers = workers as u64;
    }

    /// Publishes the process pages with one local node.
    pub fn set_runtime_numastat(&mut self, stats: &NumaMemoryStats, local_node: Option<i32>)
        requires
            local_pages(
                stats.per_node_pages@,
                seq![local_node],
                stats.per_node_pages@.len(),
            ) <= u64::MAX,
        ensures
            final(self).placed_pages(*old(self), *stats, seq![local_node]),
    {
        let nodes: [Option<i32>; 1] = [local_node];
        assert(nodes@ =~= seq![local_node]);
        self.set_runtime_numastat_for_nodes(stats, &nodes);
    }

    /// `self` is `before` with the process pages split by locality.
    pub open spec fn placed_pages(
        self,
        before: ServerMetrics,
        stats: NumaMemoryStats,
        nodes: Seq<Option<i32>>,
    ) -> bool {
        let local = local_pages(stats.per_node_pages@, nodes, stats.per_node_pages@.len()) as u64;
        &&& self == (ServerMetrics { runtime_topology: self.runtime_topology, ..before })
        &&& self.runtime_topology == (RuntimeTopologyMetrics {
            numastat_local_pages: local,
            numastat_total_pages: stats.total_pages,
            numastat_remote_pages: stats.total_pages.saturating_sub(local),
            numastat_nodes: self.runtime_topology.numastat_nodes,
            ..before.runtime_topology
        })
        &&& self.runtime_topology.numastat_nodes@ == stats.per_node_pages@
    }

    /// Publishes the process pages by locality: pages on one of the given
    /// nodes are local, the others remote.
    pub fn set_runtime_numastat_for_nodes(
        &mut self,
        stats: &NumaMemoryStats,
        local_nodes: &[Option<i32>],
    )
        requires
            local_pages(
                stats.per_node_pages@,
                local_nodes@,
                stats.per_node_pages@.len(),
            ) <= u64::MAX,
        ensures
            final(self).placed_pages(*old(self), *stats, local_nodes@),
    {
        let local: u64 = stats.pages_on(local_nodes);
        self.runtime_topology.numastat_local_pages = local;
        self.runtime_topology.numastat_total_pages = stats.total_pages;
        self.runtime_topology.numastat_remote_pages = stats.total_pages.saturating_sub(local);
        self.runtime_topology.numastat_nodes = copy_pages(&stats.per_node_pages);
    }

    /// Records one host-to-device copy.
    pub fn observe_h2d_latency_us(&mut self, latency_us: u64)
        ensures
            *final(self) == after_h2d_latency_us(*old(self), latency_us),
    {
        self.runtime_topology.h2d_latency_last_us = latency_us;
        self.runtime_topology.h2d_latency_max_us =
            if self.runtime_topology.h2d_latency_max_us >= latency_us {
            self.runtime_topology.h2d_latency_max_us
        } else {
            latency_us
        };
        self.runtime_topology.h2d_latency_count =
            self.runtime_topology.h2d_latency_count.saturating_add(1);
    }

    /// Records one NUMA routing decision.
    pub fn record_numa_route(&mut self, route_cost: u32, local: Option<bool>)
        ensures
            *final(self) == after_numa_route(*old(self), route_cost, local),
    {
        match local {
            Some(true) => {
                self.runtime_topology.numa_route_local_total =
                    self.runtime_topology.numa_route_local_total.saturating_add(1);
            },
            Some(false) => {
                self.runtime_topology.numa_route_cross_total =
                    self.runtime_topology.numa_route_cross_total.saturating_add(1);
            },
            None => {
                self.runtime_topology.numa_route_unknown_total =
                    self.runtime_topology.numa_route_unknown_total.saturating_add(1);
            },
        }
        self.runtime_topology.numa_route_cost_last = route_cost as u64;
    }

    /// Records a request whose sticky route migrated.
    pub fn record_numa_migration(&mut self)
        ensures
            *final(self) == after_numa_migration(*old(self)),
    {
        self.runtime_topology.numa_migration_total =
            self.runtime_topology.numa_migration_total.saturating_add(1);
    }

    /// Records a rebalance decision of the router.
    pub fn record_numa_rebalance(&mut self)
        ensures
            *final(self) == after_numa_rebalance(*old(self)),
    {
        self.runtime_topology.numa_rebalance_total =
            self.runtime_topology.numa_rebalance_total.saturating_add(1);
    }

    /// Counts a CPU plan that was still valid when it was used.
    pub fn record_scheduler_cpu_plan_accept(&mut self)
        ensures
            *final(self) == after_scheduler_cpu_plan_accept(*old(self)),
    {
        self.scheduler_pipeline_cpu_plan_accept_total =
            self.scheduler_pipeline_cpu_plan_accept_total.wrapping_add(1);
    }

    /// Counts a CPU plan that had become stale.
    pub fn record_scheduler_cpu_plan_stale(&mut self)
        ensures
            *final(self) == after_scheduler_cpu_plan_stale(*old(self)),
    {
        self.scheduler_pipeline_cpu_plan_stale_total =
            self.scheduler_pipeline_cpu_plan_stale_total.wrapping_add(1);
    }

    /// Counts the plan that was selected for one tick.
    pub fn record_scheduler_plan(&mut self, label: SchedulerPlanLabel)
        ensures
            *final(self) == after_scheduler_plan(*old(self), label),
    {
        match label {
            SchedulerPlanLabel::Idle => {
                self.scheduler_plan_idle_total = self.scheduler_plan_idle_total.wrapping_add(1);
            },
            SchedulerPlanLabel::Decode => {
                self.scheduler_plan_decode_total = self.scheduler_plan_decode_total.wrapping_add(1);
            },
            SchedulerPlanLabel::Prefill => {
                self.scheduler_plan_prefill_total =
                    self.scheduler_plan_prefill_total.wrapping_add(1);
            },
            SchedulerPlanLabel::Split => {
                self.scheduler_plan_split_total = self.scheduler_plan_split_total.wrapping_add(1);
            },
            SchedulerPlanLabel::Mixed => {
                self.scheduler_plan_mixed_total = self.scheduler_plan_mixed_total.wrapping_add(1);
            },
        }
    }

    /// The count of one fallback reason.
    pub fn mixed_batch_fallback_count(&self, reason: MixedBatchFallbackReason) -> (count: u64)
        ensures
            count == fallback_count(*self, reason),
    {
        match reason {
            MixedBatchFallbackReason::UnsupportedModel =>
                self.prefill_path_mixed_unsupported_model_total,
            MixedBatchFallbackReason::InactivePagedPool =>
                self.prefill_path_mixed_inactive_paged_pool_total,
            MixedBatchFallbackReason::LoraEnabled =>
                self.prefill_path_mixed_lora_enabled_total,
            MixedBatchFallbackReason::UnsupportedKvFormat =>
                self.prefill_path_mixed_unsupported_kv_format_total,
            MixedBatchFallbackReason::EmptyDecodeBatch =>
                self.prefill_path_mixed_empty_decode_batch_total,
            MixedBatchFallbackReason::DecodeSlotCountMismatch =>
                self.prefill_path_mixed_decode_slot_count_mismatch_total,
            MixedBatchFallbackReason::EmptyPrefillBatch =>
                self.prefill_path_mixed_empty_prefill_batch_total,
            MixedBatchFallbackReason::PrefillStartPositionCountMismatch =>
                self.prefill_path_mixed_prefill_start_position_count_mismatch_total,
            MixedBatchFallbackReason::EmptyPrefillTokens =>
                self.prefill_path_mixed_empty_prefill_tokens_total,
            MixedBatchFallbackReason::PrefillSlotInDecodeBatch =>
                self.prefill_path_mixed_prefill_slot_in_decode_batch_total,
            MixedBatchFallbackReason::DuplicatePrefillSlot =>
                self.prefill_path_mixed_duplicate_prefill_slot_total,
            MixedBatchFallbackReason::PrefillSeqLenMismatch =>
                self.prefill_path_mixed_prefill_seq_len_mismatch_total,
            MixedBatchFallbackReason::SchedulerPreDispatchFallback =>
                self.prefill_path_mixed_scheduler_pre_dispatch_fallback_total,
        }
    }

    /// Counts one execution of the mixed decode and prefill path.
    pub fn record_prefill_path_mixed_ok_true(&mut self)
        ensures
            *final(self) == after_prefill_path_mixed_ok_true(*old(self)),
    {
        self.prefill_path_mixed_ok_true_total =
            self.prefill_path_mixed_ok_true_total.wrapping_add(1);
    }

    /// Counts one fallback of the mixed path under the label of its reason. An
    /// unknown label counts as an unsupported model.
    pub fn record_prefill_path_mixed_ok_false(&mut self, reason: &str)
        ensures
            *final(self) == after_fallback(*old(self), reason@),
    {
        proof {
            reveal(after_fallback);
        }
        self.prefill_path_mixed_ok_false_total =
            self.prefill_path_mixed_ok_false_total.wrapping_add(1);
        match MixedBatchFallbackReason::from_label(reason) {
            MixedBatchFallbackReason::UnsupportedModel => {
                self.prefill_path_mixed_unsupported_model_total =
                    self.prefill_path_mixed_unsupported_model_total.wrapping_add(1);
            },
            MixedBatchFallbackReason::InactivePagedPool => {
                self.prefill_path_mixed_inactive_paged_pool_total =
                    self.prefill_path_mixed_inactive_paged_pool_total.wrapping_add(1);
            },
            MixedBatchFallbackReason::LoraEnabled => {
                self.prefill_path_mixed_lora_enabled_total =
                    self.prefill_path_mixed_lora_enabled_total.wrapping_add(1);
            },
            MixedBatchFallbackReason::UnsupportedKvFormat => {
                self.prefill_path_mixed_unsupported_kv_format_total =
                    self.prefill_path_mixed_unsupported_kv_format_total.wrapping_add(1);
            },
            MixedBatchFallbackReason::EmptyDecodeBatch => {
                self.prefill_path_mixed_empty_decode_batch_total =
                    self.prefill_path_mixed_empty_decode_batch_total.wrapping_add(1);
            },
            MixedBatchFallbackReason::DecodeSlotCountMismatch => {
                self.prefill_path_mixed_decode_slot_count_mismatch_total =
                    self.prefill_path_mixed_decode_slot_count_mismatch_total.wrapping_add(1);
            },
            MixedBatchFallbackReason::EmptyPrefillBatch => {
                self.prefill_path_mixed_empty_prefill_batch_total =
                    self.prefill_path_mixed_empty_prefill_batch_total.wrapping_add(1);
            },
            MixedBatchFallbackReason::PrefillStartPositionCountMismatch => {
                self.prefill_path_mixed_prefill_start_position_count_mismatch_total =
                    self.prefill_path_mixed_prefill_start_position_count_mismatch_total
                    .wrapping_add(1);
            },
            MixedBatchFallbackReason::EmptyPrefillTokens => {
                self.prefill_path_mixed_empty_prefill_tokens_total =
                    self.prefill_path_mixed_empty_prefill_tokens_total.wrapping_add(1);
            },
            MixedBatchFallbackReason::PrefillSlotInDecodeBatch => {
                self.prefill_path_mixed_prefill_slot_in_decode_batch_total =
                    self.prefill_path_mixed_prefill_slot_in_decode_batch_total.wrapping_add(1);
            },
            MixedBatchFallbackReason::DuplicatePrefillSlot => {
                self.prefill_path_mixed_duplicate_prefill_slot_total =
                    self.prefill_path_mixed_duplicate_prefill_slot_total.wrapping_add(1);
            },
            MixedBatchFallbackReason::PrefillSeqLenMismatch => {
                self.prefill_path_mixed_prefill_seq_len_mismatch_total =
                    self.prefill_path_mixed_prefill_seq_len_mismatch_total.wrapping_add(1);
            },
            MixedBatchFallbackReason::SchedulerPreDispatchFallback => {
                self.prefill_path_mixed_scheduler_pre_dispatch_fallback_total =
                    self.prefill_path_mixed_scheduler_pre_dispatch_fallback_total.wrapping_add(1);
            },
        }
    }

    /// Updates the queue gauges and the store counters of the KV coordinator.
    pub fn set_kv_coordinator(
        &mut self,
        queue_capacity: u64,
        fetch_queue_depth: u64,
        fetch_waiters: u64,
        store_queue_depth: u64,
        fetch_backpressure: bool,
        store_backpressure: bool,
        store_submitted_total: u64,
        store_completed_total: u64,
        store_failed_total: u64,
        store_rejected_total: u64,
    )
        ensures
            *final(self) == after_kv_coordinator(
                *old(self),
                queue_capacity,
                fetch_queue_depth,
                fetch_waiters,
                store_queue_depth,
                fetch_backpressure,
                store_backpressure,
                store_submitted_total,
                store_completed_total,
                store_failed_total,
                store_rejected_total,
            ),
    {
        self.kv_coordinator_queue_capacity = queue_capacity;
        self.kv_fetch_queue_depth = fetch_queue_depth;
        self.kv_fetch_waiters = fetch_waiters;
        self.kv_store_queue_depth = store_queue_depth;
        self.kv_fetch_backpressure = gauge_of(fetch_backpressure);
        self.kv_store_backpressure = gauge_of(store_backpressure);
        self.kv_store_submitted_total = store_submitted_total;
        self.kv_store_completed_total = store_completed_total;
        self.kv_store_failed_total = store_failed_total;
        self.kv_store_rejected_total = store_rejected_total;
    }

    /// Updates the waits of the oldest outstanding fetch and store, in
    /// microseconds.
    pub fn set_tier_wait_seconds(&mut self, fetch_wait_us: u64, store_wait_us: u64)
        ensures
            *final(self) == after_tier_wait_seconds(*old(self), fetch_wait_us, store_wait_us),
    {
        self.tier_fetch_wait_us = fetch_wait_us;
        self.tier_store_wait_us = store_wait_us;
    }

    /// Updates the GPU block gauges.
    pub fn set_kv_gpu_blocks(&mut self, free: u64, total: u64)
        ensures
            *final(self) == after_kv_gpu_blocks(*old(self), free, total),
    {
        self.kv_gpu_blocks_free = free;
        self.kv_gpu_blocks_total = total;
    }

    /// Updates the allocator gauges, in bytes.
    pub fn set_memory_bytes(&mut self, active: u64, peak: u64, cache: u64)
        ensures
            *final(self) == after_memory_bytes(*old(self), active, peak, cache),
    {
        self.memory_active_bytes = active;
        self.memory_peak_bytes = peak;
        self.memory_cache_bytes = cache;
    }

    pub fn requests_total(&self) -> (value: u64)
        ensures
            value == self.requests_total,
    {
        self.requests_total
    }

    pub fn tokens_generated_total(&self) -> (value: u64)
        ensures
            value == self.tokens_generated_total,
    {
        self.tokens_generated_total
    }

    pub fn tokens_prompt_total(&self) -> (value: u64)
        ensures
            value == self.tokens_prompt_total,
    {
        self.tokens_prompt_total
    }

    pub fn requests_active(&self) -> (value: u64)
        ensures
            value == self.requests_active,
    {
        self.requests_active
    }

    pub fn requests_waiting(&self) -> (value: u64)
        ensures
            value == self.requests_waiting,
    {
        self.requests_waiting
    }

    pub fn scheduler_running_batch(&self) -> (value: u64)
        ensures
            value == self.scheduler_running_batch,
    {
        self.scheduler_running_batch
    }

    pub fn scheduler_prefill_queue(&self) -> (value: u64)
        ensures
            value == self.scheduler_prefill_queue,
    {
        self.scheduler_prefill_queue
    }

    pub fn scheduler_scheduled_rows(&self) -> (value: u64)
        ensures
            value == self.scheduler_scheduled_rows,
    {
        self.scheduler_scheduled_rows
    }

    pub fn scheduler_scheduled_decode_rows(&self) -> (value: u64)
        ensures
            value == self.scheduler_scheduled_decode_rows,
    {
        self.scheduler_scheduled_decode_rows
    }

    pub fn scheduler_scheduled_prefill_rows(&self) -> (value: u64)
        ensures
            value == self.scheduler_scheduled_prefill_rows,
    {
        self.scheduler_scheduled_prefill_rows
    }

    pub fn scheduler_decode_tokens(&self) -> (value: u64)
        ensures
            value == self.scheduler_decode_tokens,
    {
        self.scheduler_decode_tokens
    }

    pub fn scheduler_prefill_tokens(&self) -> (value: u64)
        ensures
            value == self.scheduler_prefill_tokens,
    {
        self.scheduler_prefill_tokens
    }

    pub fn scheduler_batch_width(&self) -> (value: u64)
        ensures
            value == self.scheduler_batch_width,
    {
        self.scheduler_batch_width
    }

    pub fn kv_coordinator_queue_capacity(&self) -> (value: u64)
        ensures
            value == self.kv_coordinator_queue_capacity,
    {
        self.kv_coordinator_queue_capacity
    }

    pub fn kv_fetch_queue_depth(&self) -> (value: u64)
        ensures
            value == self.kv_fetch_queue_depth,
    {
        self.kv_fetch_queue_depth
    }

    pub fn kv_fetch_waiters(&self) -> (value: u64)
        ensures
            value == self.kv_fetch_waiters,
    {
        self.kv_fetch_waiters
    }

    pub fn kv_store_queue_depth(&self) -> (value: u64)
        ensures
            value == self.kv_store_queue_depth,
    {
        self.kv_store_queue_depth
    }

    pub fn kv_store_submitted_total(&self) -> (value: u64)
        ensures
            value == self.kv_store_submitted_total,
    {
        self.kv_store_submitted_total
    }

    pub fn kv_store_completed_total(&self) -> (value: u64)
        ensures
            value == self.kv_store_completed_total,
    {
        self.kv_store_completed_total
    }

    pub fn kv_store_failed_total(&self) -> (value: u64)
        ensures
            value == self.kv_store_failed_total,
    {
        self.kv_store_failed_total
    }

    pub fn kv_store_rejected_total(&self) -> (value: u64)
        ensures
            value == self.kv_store_rejected_total,
    {
        self.kv_store_rejected_total
    }

    pub fn session_affinity_hit_total(&self) -> (value: u64)
        ensures
            value == self.session_affinity_hit_total,
    {
        self.session_affinity_hit_total
    }

    pub fn session_affinity_miss_total(&self) -> (value: u64)
        ensures
            value == self.session_affinity_miss_total,
    {
        self.session_affinity_miss_total
    }

    pub fn matched_prefix_tokens(&self) -> (value: u64)
        ensures
            value == self.matched_prefix_tokens,
    {
        self.matched_prefix_tokens
    }

    pub fn resume_prefill_tokens(&self) -> (value: u64)
        ensures
            value == self.resume_prefill_tokens,
    {
        self.resume_prefill_tokens
    }

    pub fn prefix_lookup_latency_us(&self) -> (value: u64)
        ensures
            value == self.prefix_lookup_latency_us,
    {
        self.prefix_lookup_latency_us
    }

    pub fn prefix_lookup_reusable_tokens(&self) -> (value: u64)
        ensures
            value == self.prefix_lookup_reusable_tokens,
    {
        self.prefix_lookup_reusable_tokens
    }

    pub fn prefix_aware_admit_deferrals_total(&self) -> (value: u64)
        ensures
            value == self.prefix_aware_admit_deferrals_total,
    {
        self.prefix_aware_admit_deferrals_total
    }

    pub fn tier_fetch_staged_host_blocks_total(&self) -> (value: u64)
        ensures
            value == self.tier_fetch_staged_host_blocks_total,
    {
        self.tier_fetch_staged_host_blocks_total
    }

    pub fn tier_fetch_staged_disk_blocks_total(&self) -> (value: u64)
        ensures
            value == self.tier_fetch_staged_disk_blocks_total,
    {
        self.tier_fetch_staged_disk_blocks_total
    }

    pub fn tier_fetch_staged_remote_blocks_total(&self) -> (value: u64)
        ensures
            value == self.tier_fetch_staged_remote_blocks_total,
    {
        self.tier_fetch_staged_remote_blocks_total
    }

    pub fn tier_fetch_promoted_blocks_total(&self) -> (value: u64)
        ensures
            value == self.tier_fetch_promoted_blocks_total,
    {
        self.tier_fetch_promoted_blocks_total
    }

    pub fn tier_fetch_fallback_total(&self) -> (value: u64)
        ensures
            value == self.tier_fetch_fallback_total,
    {
        self.tier_fetch_fallback_total
    }

    pub fn spec_draft_tokens_total(&self) -> (value: u64)
        ensures
            value == self.spec_draft_tokens_total,
    {
        self.spec_draft_tokens_total
    }

    pub fn spec_verified_tokens_total(&self) -> (value: u64)
        ensures
            value == self.spec_verified_tokens_total,
    {
        self.spec_verified_tokens_total
    }

    pub fn spec_accepted_tokens_total(&self) -> (value: u64)
        ensures
            value == self.spec_accepted_tokens_total,
    {
        self.spec_accepted_tokens_total
    }

    pub fn spec_sparse_view_empty_total(&self) -> (value: u64)
        ensures
            value == self.spec_sparse_view_empty_total,
    {
        self.spec_sparse_view_empty_total
    }

    pub fn session_slot_pressure_evictions_hard(&self) -> (value: u64)
        ensures
            value == self.session_slot_pressure_evictions_hard_total,
    {
        self.session_slot_pressure_evictions_hard_total
    }

    pub fn kv_fetch_backpressure(&self) -> (value: bool)
        ensures
            value == (self.kv_fetch_backpressure != 0),
    {
        self.kv_fetch_backpressure != 0
    }

    pub fn kv_store_backpressure(&self) -> (value: bool)
        ensures
            value == (self.kv_store_backpressure != 0),
    {
        self.kv_store_backpressure != 0
    }

    pub fn prefix_lookup_ready_on_gpu(&self) -> (value: bool)
        ensures
            value == (self.prefix_lookup_ready_on_gpu != 0),
    {
        self.prefix_lookup_ready_on_gpu != 0
    }

    pub fn prefix_lookup_direct_gpu_attach(&self) -> (value: bool)
        ensures
            value == (self.prefix_lookup_direct_gpu_attach != 0),
    {
        self.prefix_lookup_direct_gpu_attach != 0
    }

    pub fn prefix_lookup_staged(&self) -> (value: bool)
        ensures
            value == (self.prefix_lookup_staged != 0),
    {
        self.prefix_lookup_staged != 0
    }

    pub fn prefix_lookup_prefetch(&self) -> (value: bool)
        ensures
            value == (self.prefix_lookup_prefetch != 0),
    {
        self.prefix_lookup_prefetch != 0
    }

    pub fn prefix_lookup_recompute(&self) -> (value: bool)
        ensures
            value == (self.prefix_lookup_recompute != 0),
    {
        self.prefix_lookup_recompute != 0
    }

    /// Latency of the most recent tick, in seconds.
    pub fn scheduler_step_last_seconds(&self) -> (rate: Double)
        ensures
            rate@ == ratio(self.scheduler_step_last_us as nat, 1_000_000),
            rate.within(512),
    {
        Double::ratio(self.scheduler_step_last_us as u128, 1_000_000)
    }

    /// Wait of the oldest fetch, in seconds.
    pub fn tier_fetch_wait_seconds(&self) -> (rate: Double)
        ensures
            rate@ == ratio(self.tier_fetch_wait_us as nat, 1_000_000),
            rate.within(512),
    {
        Double::ratio(self.tier_fetch_wait_us as u128, 1_000_000)
    }

    /// Wait of the oldest store, in seconds.
    pub fn tier_store_wait_seconds(&self) -> (rate: Double)
        ensures
            rate@ == ratio(self.tier_store_wait_us as nat, 1_000_000),
            rate.within(512),
    {
        Double::ratio(self.tier_store_wait_us as u128, 1_000_000)
    }

    /// Fraction of lookups that reused a prefix; zero before any lookup.
    pub fn prefix_hit_rate(&self) -> (rate: Double)
        ensures
            rate@ == ratio(self.prefix_hits_total as nat, self.prefix_lookups_total as nat),
            rate.within(512),
            self.prefix_hits_total <= self.prefix_lookups_total ==> in_unit(rate@),
    {
        proof {
            if self.prefix_hits_total <= self.prefix_lookups_total {
                law_part_of_whole_in_unit(
                    self.prefix_hits_total as nat,
                    self.prefix_lookups_total as nat,
                );
            }
        }
        Double::ratio(self.prefix_hits_total as u128, self.prefix_lookups_total as u128)
    }

    /// Fraction of looked-up prompt tokens that prefixes covered.
    pub fn prefix_skip_rate(&self) -> (rate: Double)
        ensures
            rate@
                == ratio(
                    self.prefix_reused_tokens_total as nat,
                    self.prefix_lookup_prompt_tokens_total as nat,
                ),
            rate.within(512),
    {
        Double::ratio(
            self.prefix_reused_tokens_total as u128,
            self.prefix_lookup_prompt_tokens_total as u128,
        )
    }

    /// Hit rate of the most recent lookup.
    pub fn prefix_request_hit_rate(&self) -> (rate: Double)
        ensures
            rate@ == ratio(self.prefix_request_hit_ppm as nat, 1_000_000),
            rate.within(512),
    {
        Double::ratio(self.prefix_request_hit_ppm as u128, 1_000_000)
    }

    /// Skip rate of the most recent lookup.
    pub fn prefix_request_skip_rate(&self) -> (rate: Double)
        ensures
            rate@ == ratio(self.prefix_request_skip_ppm as nat, 1_000_000),
            rate.within(512),
    {
        Double::ratio(self.prefix_request_skip_ppm as u128, 1_000_000)
    }

    /// Accepted over verified draft tokens.
    pub fn spec_acceptance_rate(&self) -> (rate: Double)
        ensures
            rate@ == ratio(self.spec_acceptance_rate_ppm as nat, 1_000_000),
            rate.within(512),
    {
        Double::ratio(self.spec_acceptance_rate_ppm as u128, 1_000_000)
    }

    /// Fraction of generated tokens that came from drafts: each block accepts one
    /// token that was not drafted.
    pub fn dflash_acceptance_rate(&self) -> (rate: Double)
        ensures
            rate@
                == ratio(
                    self.dflash_accepted_tokens_total.saturating_sub(
                        self.dflash_blocks_total,
                    ) as nat,
                    self.dflash_accepted_tokens_total as nat,
                ),
            rate.within(512),
            in_unit(rate@),
    {
        proof {
            law_part_of_whole_in_unit(
                self.dflash_accepted_tokens_total.saturating_sub(self.dflash_blocks_total) as nat,
                self.dflash_accepted_tokens_total as nat,
            );
        }
        Double::ratio(
            self.dflash_accepted_tokens_total.saturating_sub(self.dflash_blocks_total) as u128,
            self.dflash_accepted_tokens_total as u128,
        )
    }

    /// Fraction of the speculative capacity that was used.
    pub fn dflash_utilization(&self) -> (rate: Double)
        ensures
            rate@
                == ratio(
                    self.dflash_accepted_tokens_total as nat,
                    self.dflash_draft_tokens_total as nat,
                ),
            rate.within(512),
    {
        Double::ratio(
            self.dflash_accepted_tokens_total as u128,
            self.dflash_draft_tokens_total as u128,
        )
    }

    /// Fraction of the GPU blocks in use; zero without blocks.
    pub fn kv_gpu_utilization(&self) -> (rate: Double)
        requires
            self.kv_gpu_blocks_total == 0 || self.kv_gpu_blocks_free <= self.kv_gpu_blocks_total,
        ensures
            rate@ == ratio(
                (self.kv_gpu_blocks_total - self.kv_gpu_blocks_free) as nat,
                self.kv_gpu_blocks_total as nat,
            ),
            rate.within(512),
            in_unit(rate@),
            self.kv_gpu_blocks_total == 0 ==> rate@ == zero(),
    {
        proof {
            let used = if self.kv_gpu_blocks_total == 0 {
                0
            } else {
                (self.kv_gpu_blocks_total - self.kv_gpu_blocks_free) as nat
            };
            law_part_of_whole_in_unit(used, self.kv_gpu_blocks_total as nat);
        }
        if self.kv_gpu_blocks_total == 0 {
            return Double::ratio(0, 0);
        }
        Double::ratio(
            (self.kv_gpu_blocks_total - self.kv_gpu_blocks_free) as u128,
            self.kv_gpu_blocks_total as u128,
        )
    }

    /// Staged blocks of all tiers.
    pub fn tier_fetch_staged_blocks_total(&self) -> (blocks: u64)
        requires
            self.rates_exist(),
        ensures
            blocks == self.tier_fetch_staged_host_blocks_total
                + self.tier_fetch_staged_disk_blocks_total
                + self.tier_fetch_staged_remote_blocks_total,
    {
        self.tier_fetch_staged_host_blocks_total + self.tier_fetch_staged_disk_blocks_total
            + self.tier_fetch_staged_remote_blocks_total
    }

    /// Promoted over staged blocks; zero without staged blocks.
    pub fn tier_fetch_recall_rate(&self) -> (rate: Double)
        requires
            self.rates_exist(),
        ensures
            rate@ == ratio(
                self.tier_fetch_promoted_blocks_total as nat,
                (self.tier_fetch_staged_host_blocks_total
                    + self.tier_fetch_staged_disk_blocks_total
                    + self.tier_fetch_staged_remote_blocks_total) as nat,
            ),
            rate.within(512),
    {
        Double::ratio(
            self.tier_fetch_promoted_blocks_total as u128,
            self.tier_fetch_staged_blocks_total() as u128,
        )
    }

    /// Like the acceptance rate, but `None` before any block ran, so that
    /// callers can tell "unknown" from zero.
    pub fn dflash_acceptance_rate_opt(&self) -> (rate: Option<Double>)
        ensures
            rate is None <==> self.dflash_blocks_total == 0,
            rate matches Some(r) ==> r.within(512) && r@ == ratio(
                self.dflash_accepted_tokens_total.saturating_sub(self.dflash_blocks_total) as nat,
                self.dflash_accepted_tokens_total as nat,
            ),
    {
        if self.dflash_blocks_total == 0 {
            return None;
        }
        Some(self.dflash_acceptance_rate())
    }

    /// Averaged phase durations: admission, prefill, decode, emit, total.
    /// `None` before the first sample.
    pub fn scheduler_step_phase_us(&self) -> (phases: Option<(u64, u64, u64, u64, u64)>)
        ensures
            phases == (if self.scheduler_step_phase_samples == 0 {
                None
            } else {
                Some(
                    (
                        self.scheduler_step_admission_us,
                        self.scheduler_step_prefill_us,
                        self.scheduler_step_decode_us,
                        self.scheduler_step_emit_us,
                        self.scheduler_step_total_us,
                    ),
                )
            }),
    {
        if self.scheduler_step_phase_samples == 0 {
            return None;
        }
        Some(
            (
                self.scheduler_step_admission_us,
                self.scheduler_step_prefill_us,
                self.scheduler_step_decode_us,
                self.scheduler_step_emit_us,
                self.scheduler_step_total_us,
            ),
        )
    }

    /// Averaged cleanup and full-loop durations; `None` before the first
    /// sample.
    pub fn scheduler_loop_phase_us(&self) -> (phases: Option<(u64, u64)>)
        ensures
            phases == (if self.scheduler_step_phase_samples == 0 {
                None
            } else {
                Some((self.scheduler_step_cleanup_us, self.scheduler_loop_total_us))
            }),
    {
        if self.scheduler_step_phase_samples == 0 {
            return None;
        }
        Some((self.scheduler_step_cleanup_us, self.scheduler_loop_total_us))
    }

    /// Preprocess queue depth, wait and tokenization time.
    pub fn preprocess_stage_us(&self) -> (values: (u64, u64, u64))
        ensures
            values == (
                self.preprocess_queue_depth,
                self.preprocess_wait_us,
                self.preprocess_tokenize_us,
            ),
    {
        (
            self.preprocess_queue_depth,
            self.preprocess_wait_us,
            self.preprocess_tokenize_us,
        )
    }

    /// Snapshot, plan and completion-wait durations and the GPU queue depth.
    pub fn scheduler_pipeline_us(&self) -> (values: (u64, u64, u64, u64))
        ensures
            values == (
                self.scheduler_pipeline_snapshot_us,
                self.scheduler_pipeline_cpu_plan_us,
                self.scheduler_pipeline_gpu_completion_wait_us,
                self.scheduler_pipeline_gpu_command_queue_depth,
            ),
    {
        (
            self.scheduler_pipeline_snapshot_us,
            self.scheduler_pipeline_cpu_plan_us,
            self.scheduler_pipeline_gpu_completion_wait_us,
            self.scheduler_pipeline_gpu_command_queue_depth,
        )
    }

    /// Accepted and stale CPU plans.
    pub fn scheduler_pipeline_plan_totals(&self) -> (values: (u64, u64))
        ensures
            values == (
                self.scheduler_pipeline_cpu_plan_accept_total,
                self.scheduler_pipeline_cpu_plan_stale_total,
            ),
    {
        (
            self.scheduler_pipeline_cpu_plan_accept_total,
            self.scheduler_pipeline_cpu_plan_stale_total,
        )
    }

    /// Ticks by selected plan: idle, decode, prefill, split, mixed.
    pub fn scheduler_plan_totals(&self) -> (values: (u64, u64, u64, u64, u64))
        ensures
            values == (
                self.scheduler_plan_idle_total,
                self.scheduler_plan_decode_total,
                self.scheduler_plan_prefill_total,
                self.scheduler_plan_split_total,
                self.scheduler_plan_mixed_total,
            ),
    {
        (
            self.scheduler_plan_idle_total,
            self.scheduler_plan_decode_total,
            self.scheduler_plan_prefill_total,
            self.scheduler_plan_split_total,
            self.scheduler_plan_mixed_total,
        )
    }

    /// A copy of the runtime placement gauges.
    pub fn runtime_topology_snapshot(&self) -> (snapshot: RuntimeTopologyMetrics)
        ensures
            snapshot.agrees(self.runtime_topology),
    {
        self.runtime_topology.clone()
    }

    /// Outcomes of the mixed path with the count of each fallback reason, in
    /// the order of the labels.
    pub fn prefill_path_stats(&self) -> (stats: PrefillPathStats)
        ensures
            stats.describes(*self),
    {
        let mut reasons: Vec<(&'static str, u64)> = Vec::new();
        reasons.push(self.labelled_count(MixedBatchFallbackReason::DecodeSlotCountMismatch));
        reasons.push(self.labelled_count(MixedBatchFallbackReason::DuplicatePrefillSlot));
        reasons.push(self.labelled_count(MixedBatchFallbackReason::EmptyDecodeBatch));
        reasons.push(self.labelled_count(MixedBatchFallbackReason::EmptyPrefillBatch));
        reasons.push(self.labelled_count(MixedBatchFallbackReason::EmptyPrefillTokens));
        reasons.push(self.labelled_count(MixedBatchFallbackReason::InactivePagedPool));
        reasons.push(self.labelled_count(MixedBatchFallbackReason::LoraEnabled));
        reasons.push(self.labelled_count(MixedBatchFallbackReason::PrefillSeqLenMismatch));
        reasons.push(self.labelled_count(MixedBatchFallbackReason::PrefillSlotInDecodeBatch));
        reasons.push(
            self.labelled_count(MixedBatchFallbackReason::PrefillStartPositionCountMismatch),
        );
        reasons.push(self.labelled_count(MixedBatchFallbackReason::SchedulerPreDispatchFallback));
        reasons.push(self.labelled_count(MixedBatchFallbackReason::UnsupportedKvFormat));
        reasons.push(self.labelled_count(MixedBatchFallbackReason::UnsupportedModel));
        PrefillPathStats {
            ok_true_count: self.prefill_path_mixed_ok_true_total,
            ok_false_count: self.prefill_path_mixed_ok_false_total,
            ok_false_reasons: reasons,
        }
    }

    fn labelled_count(&self, reason: MixedBatchFallbackReason) -> (entry: (&'static str, u64))
        ensures
            entry.0@ == reason_label(reason),
            entry.1 == fallback_count(*self, reason),
    {
        (reason.as_str(), self.mixed_batch_fallback_count(reason))
    }

    /// Number of recorded speculative steps.
    pub fn spec_step_latency_count(&self) -> (count: u64)
        ensures
            count == self.histograms.spec_step_latency_us@.count,
    {
        self.histograms.spec_step_latency_us.count()
    }

    /// Records one speculative step. The acceptance rate is the rounded ratio
    /// of the totals.
    pub fn record_spec_step(
        &mut self,
        draft_tokens: usize,
        verified_tokens: usize,
        accepted_tokens: usize,
        latency_us: u64,
    )
        requires
            old(self).wf(),
            old(self).histograms.spec_step_latency_us@.count < u64::MAX,
        ensures
            final(self).wf(),
            is_spec_step(
                *old(self),
                *final(self),
                draft_tokens,
                verified_tokens,
                accepted_tokens,
                latency_us,
            ),
    {
        self.spec_draft_tokens_total =
            self.spec_draft_tokens_total.wrapping_add(draft_tokens as u64);
        let verified: u64 = self.spec_verified_tokens_total.saturating_add(verified_tokens as u64);
        self.spec_verified_tokens_total =
            self.spec_verified_tokens_total.wrapping_add(verified_tokens as u64);
        let accepted: u64 = self.spec_accepted_tokens_total.saturating_add(accepted_tokens as u64);
        self.spec_accepted_tokens_total =
            self.spec_accepted_tokens_total.wrapping_add(accepted_tokens as u64);
        self.spec_acceptance_rate_ppm = if verified == 0 {
            0
        } else {
            Double::ratio(accepted as u128, verified as u128).times(1_000_000).round()
        };
        self.histograms.spec_step_latency_us.observe(latency_us);
    }

    /// Counts speculative rows for which no sparse view could be built.
    pub fn record_spec_sparse_view_empty(&mut self, rows: usize)
        ensures
            *final(self) == after_spec_sparse_view_empty(*old(self), rows),
    {
        self.spec_sparse_view_empty_total =
            self.spec_sparse_view_empty_total.wrapping_add(rows as u64);
    }

    /// Records one DFlash speculative block.
    pub fn record_dflash_block(&mut self, accepted_inputs: usize, block_size: usize)
        ensures
            *final(self) == after_dflash_block(*old(self), accepted_inputs, block_size),
    {
        self.dflash_blocks_total = self.dflash_blocks_total.wrapping_add(1);
        self.dflash_accepted_tokens_total =
            self.dflash_accepted_tokens_total.wrapping_add(accepted_inputs as u64);
        self.dflash_draft_tokens_total =
            self.dflash_draft_tokens_total.wrapping_add(block_size as u64);
    }

    /// Records one Metal decode batch on a batched GPU path.
    pub fn record_metal_decode_batch(&mut self, rows: usize)
        ensures
            *final(self) == after_metal_decode_batch(*old(self), rows),
    {
        self.metal_decode_batches_total = self.metal_decode_batches_total.wrapping_add(1);
        self.metal_decode_batched_rows_total =
            self.metal_decode_batched_rows_total.wrapping_add(rows as u64);
    }

    /// Records one Metal decode row on the scalar path.
    pub fn record_metal_decode_scalar_row(&mut self)
        ensures
            *final(self) == after_metal_decode_scalar_row(*old(self)),
    {
        self.metal_decode_scalar_rows_total = self.metal_decode_scalar_rows_total.wrapping_add(1);
    }

    /// Records rows that were grouped but could not be batched.
    pub fn record_metal_decode_batch_fallback(&mut self, rows: usize)
        ensures
            *final(self) == after_metal_decode_batch_fallback(*old(self), rows),
    {
        self.metal_decode_batch_fallback_rows_total =
            self.metal_decode_batch_fallback_rows_total.wrapping_add(rows as u64);
    }

    /// Records one packed decode batch.
    pub fn record_metal_qwen35_packed_decode_batch(&mut self, rows: usize)
        ensures
            *final(self) == after_metal_qwen35_packed_decode_batch(*old(self), rows),
    {
        self.metal_qwen35_packed_decode_batches_total =
            self.metal_qwen35_packed_decode_batches_total.wrapping_add(1);
        self.metal_qwen35_packed_decode_rows_total =
            self.metal_qwen35_packed_decode_rows_total.wrapping_add(rows as u64);
    }
}

fn min_tokens(count: usize, limit: usize) -> (m: u64)
    ensures
        m == at_most(count, limit),
{
    if count <= limit {
        count as u64
    } else {
        limit as u64
    }
}

fn gauge_of(b: bool) -> (n: u64)
    ensures
        n == gauge(b),
{
    if b {
        1
    } else {
        0
    }
}

/// Accounts for one request of a session, which gets an entry if it has none.
fn observe_session_request(
    sessions: &mut Vec<(String, SessionCacheStats)>,
    session: &SessionId,
    matched: u64,
    prompt: u64,
    resume: u64,
)
    requires
        distinct_sessions(old(sessions)@),
    ensures
        distinct_sessions(final(sessions)@),
        session_stats(final(sessions)@, session.id@) == Some(
            observed_session(
                match session_stats(old(sessions)@, session.id@) {
                    Some(stats) => stats,
                    None => empty_session(),
                },
                matched,
                prompt,
                resume,
            ),
        ),
        forall|other: Seq<char>|
            other != session.id@ ==> #[trigger] session_stats(final(sessions)@, other)
                == session_stats(old(sessions)@, other),
{
    let ghost before = sessions@;
    let mut i: usize = 0;
    while i < sessions.len()
        invariant
            i <= sessions@.len(),
            sessions@ == before,
            before == old(sessions)@,
            distinct_sessions(before),
            forall|j: int| 0 <= j < i ==> before[j].0@ != session.id@,
        decreases sessions@.len() - i,
    {
        if sessions[i].0 == session.id {
            let mut stats: SessionCacheStats = sessions[i].1;
            stats.observe(matched, prompt, resume);
            let id: String = sessions[i].0.clone();
            sessions.set(i, (id, stats));
            proof {
                lemma_session_entry(before, i as int);
                assert(distinct_sessions(sessions@)) by {
                    assert forall|a: int, b: int| 0 <= a < b < sessions@.len() implies
                        #[trigger] sessions@[a].0@ != #[trigger] sessions@[b].0@ by {
                        assert(before[a].0@ != before[b].0@);
                    }
                }
                lemma_session_entry(sessions@, i as int);
                lemma_other_sessions_stay(before, sessions@, i as int, session.id@);
            }
            return ;
        }
        i = i + 1;
    }
    proof {
        assert forall|j: int| !is_entry_of(before, j, session.id@) by {
            if is_entry_of(before, j, session.id@) {
                assert(before[j].0@ != session.id@);
            }
        }
    }
    let mut stats: SessionCacheStats = SessionCacheStats::default();
    stats.observe(matched, prompt, resume);
    sessions.push((session.id.clone(), stats));
    proof {
        let at = before.len() as int;
        assert forall|a: int, b: int| 0 <= a < b < sessions@.len() implies
            #[trigger] sessions@[a].0@ != #[trigger] sessions@[b].0@ by {
            assert(sessions@[a] == before[a]);
            if b < at {
                assert(before[a].0@ != before[b].0@);
            } else {
                assert(before[a].0@ != session.id@);
            }
        }
        lemma_session_entry(sessions@, at);
        lemma_other_sessions_stay(before, sessions@, at, session.id@);
    }
}

/// The metrics after one fallback of the mixed path, under the label of its
/// reason.
#[verifier::opaque]
pub open spec fn after_fallback(m: ServerMetrics, label: Seq<char>) -> ServerMetrics {
    counted_fallback(
        ServerMetrics {
            prefill_path_mixed_ok_false_total: m.prefill_path_mixed_ok_false_total.wrapping_add(1),
            ..m
        },
        labelled_reason(label),
    )
}

/// Fallbacks counted under all reasons together.
pub open spec fn fallback_total(m: ServerMetrics) -> nat {
    m.prefill_path_mixed_unsupported_model_total as nat
        + m.prefill_path_mixed_inactive_paged_pool_total as nat
        + m.prefill_path_mixed_lora_enabled_total as nat
        + m.prefill_path_mixed_unsupported_kv_format_total as nat
        + m.prefill_path_mixed_empty_decode_batch_total as nat
        + m.prefill_path_mixed_decode_slot_count_mismatch_total as nat
        + m.prefill_path_mixed_empty_prefill_batch_total as nat
        + m.prefill_path_mixed_prefill_start_position_count_mismatch_total as nat
        + m.prefill_path_mixed_empty_prefill_tokens_total as nat
        + m.prefill_path_mixed_prefill_slot_in_decode_batch_total as nat
        + m.prefill_path_mixed_duplicate_prefill_slot_total as nat
        + m.prefill_path_mixed_prefill_seq_len_mismatch_total as nat
        + m.prefill_path_mixed_scheduler_pre_dispatch_fallback_total as nat
}

/// Every fallback of the mixed path is counted under exactly one reason: the
/// count of fallbacks stays the sum of the counts of the reasons, as long as no
/// count has reached its limit.
pub proof fn law_fallbacks_add_up(m: ServerMetrics, label: Seq<char>)
    requires
        fallback_total(m) == m.prefill_path_mixed_ok_false_total,
        m.prefill_path_mixed_ok_false_total < u64::MAX,
    ensures
        ({
            let counted = after_fallback(m, label);
            fallback_total(counted) == counted.prefill_path_mixed_ok_false_total
        }),
{
    reveal(after_fallback);
}

/// A fallback raises the count of its own reason by one and leaves the counts
/// of all other reasons as they were.
pub proof fn law_fallback_counts_its_reason(
    m: ServerMetrics,
    reason: MixedBatchFallbackReason,
    other: MixedBatchFallbackReason,
)
    ensures
        fallback_count(counted_fallback(m, reason), other) == (if other == reason {
            fallback_count(m, other).wrapping_add(1)
        } else {
            fallback_count(m, other)
        }),
{
}

/// Process pages are local or remote and nothing else, unless more pages are
/// local than there are.
pub proof fn law_pages_are_local_or_remote(
    before: ServerMetrics,
    after: ServerMetrics,
    stats: NumaMemoryStats,
    nodes: Seq<Option<i32>>,
)
    requires
        after.placed_pages(before, stats, nodes),
        local_pages(stats.per_node_pages@, nodes, stats.per_node_pages@.len())
            <= stats.total_pages,
    ensures
        after.runtime_topology.numastat_local_pages + after.runtime_topology.numastat_remote_pages
            == after.runtime_topology.numastat_total_pages,
{
}

} // verus!
