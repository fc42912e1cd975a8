//! What holds of the metrics over whole runs: rates are fractions, and totals
//! add up whatever was recorded, in whatever order.

use vstd::prelude::*;

use crate::arith::saturating_product;
use crate::double::{ratio, rounded, times};
use crate::metrics::exposition::{draft_rate, utilization};
use crate::metrics::server::{
    after_fallback, at_most, empty_session, fallback_count, fallback_total,
    law_fallback_counts_its_reason, law_fallbacks_add_up, observed_session, parts_per_million,
};
use crate::metrics::server::{ServerMetrics, SessionCacheStats};
use crate::metrics::telemetry::EngineTelemetry;
use crate::metrics::telemetry::{optional, rate_views, staged_blocks, tier_hit_rates};
use crate::model::requests::labelled_reason;
use crate::model::requests::MixedBatchFallbackReason;
use crate::order::{
    in_unit, law_part_of_whole_in_unit, law_rounding_stays_below_integers,
    law_shares_do_not_exceed_the_whole, zero,
};

verus! {

/// Lookups: no more hits than lookups, no more reused than looked-up tokens, and
/// the rates of the latest lookup are at most one million parts per million.
pub open spec fn lookups_nest(m: ServerMetrics) -> bool {
    &&& m.prefix_hits_total <= m.prefix_lookups_total
    &&& m.prefix_reused_tokens_total <= m.prefix_lookup_prompt_tokens_total
    &&& m.prefix_request_hit_ppm <= 1_000_000
    &&& m.prefix_request_skip_ppm <= 1_000_000
}

/// A part is at most a million parts per million of its whole.
pub proof fn law_parts_do_not_exceed_a_million(part: nat, whole: nat)
    requires
        part <= whole,
    ensures
        parts_per_million(part, whole) <= 1_000_000,
{
    if whole > 0 {
        let scaled = saturating_product(part, 1_000_000, u64::MAX as nat);
        assert(scaled <= part * 1_000_000);
        assert(scaled / whole <= 1_000_000) by (nonlinear_arith)
            requires
                scaled <= part * 1_000_000,
                part <= whole,
                whole > 0,
        ;
    }
}

/// New metrics have recorded no lookup, so that their rates are fractions.
pub proof fn law_fresh_lookups_nest(m: ServerMetrics, model_id: Seq<char>)
    requires
        m.is_fresh(model_id),
    ensures
        lookups_nest(m),
{
}

/// Every recorded request keeps hits below lookups and reused tokens below
/// prompt tokens, as long as the totals have not reached their limit.
pub proof fn law_lookups_stay_nested(
    before: ServerMetrics,
    after: ServerMetrics,
    session: Option<Seq<char>>,
    matched: usize,
    prompt: usize,
    resume: usize,
)
    requires
        lookups_nest(before),
        after.cached(before, session, matched, prompt, resume),
        before.prefix_lookups_total < u64::MAX,
        before.prefix_lookup_prompt_tokens_total + prompt <= u64::MAX,
    ensures
        lookups_nest(after),
{
    law_parts_do_not_exceed_a_million(at_most(matched, prompt) as nat, prompt as nat);
}

/// A recorded request: its session, and its matched, prompt and resumed tokens.
pub type RecordedRequest = (Option<Seq<char>>, usize, usize, usize);

/// The prompt tokens of the first `n` requests.
pub open spec fn prompts_before(log: Seq<RecordedRequest>, n: nat) -> nat
    decreases n,
{
    if n == 0 {
        0
    } else {
        prompts_before(log, (n - 1) as nat) + log[n - 1].2 as nat
    }
}

/// Each state follows from the one before by the request at its place.
pub open spec fn are_recorded(states: Seq<ServerMetrics>, log: Seq<RecordedRequest>) -> bool {
    &&& states.len() == log.len() + 1
    &&& forall|k: int|
        0 <= k < log.len() ==> {
            let r = #[trigger] log[k];
            states[k + 1].cached(states[k], r.0, r.1, r.2, r.3)
        }
}

proof fn lemma_prompts_grow(log: Seq<RecordedRequest>, n: nat, k: nat)
    requires
        n <= k,
    ensures
        prompts_before(log, n) <= prompts_before(log, k),
    decreases k,
{
    if n < k {
        lemma_prompts_grow(log, n, (k - 1) as nat);
    }
}

/// Over any run of requests since the metrics were new, every lookup is counted,
/// and the published rates are fractions at every moment; as long as requests and
/// prompt tokens can be counted.
pub proof fn law_lookup_runs_stay_nested(
    states: Seq<ServerMetrics>,
    log: Seq<RecordedRequest>,
    model_id: Seq<char>,
    n: nat,
)
    requires
        are_recorded(states, log),
        states[0].is_fresh(model_id),
        log.len() <= u64::MAX,
        prompts_before(log, log.len()) <= u64::MAX,
        n <= log.len(),
    ensures
        lookups_nest(states[n as int]),
        states[n as int].prefix_lookups_total == n,
        states[n as int].prefix_lookup_prompt_tokens_total == prompts_before(log, n),
    decreases n,
{
    if n > 0 {
        let before = (n - 1) as nat;
        law_lookup_runs_stay_nested(states, log, model_id, before);
        lemma_prompts_grow(log, n, log.len());
        let r = log[n - 1];
        law_lookups_stay_nested(states[n - 1], states[n as int], r.0, r.1, r.2, r.3);
    }
}

/// The published hit and skip rates are between zero and one; without a lookup
/// they are zero.
pub proof fn law_prefix_rates_are_fractions(m: ServerMetrics)
    requires
        lookups_nest(m),
    ensures
        in_unit(ratio(m.prefix_hits_total as nat, m.prefix_lookups_total as nat)),
        in_unit(
            ratio(
                m.prefix_reused_tokens_total as nat,
                m.prefix_lookup_prompt_tokens_total as nat,
            ),
        ),
        in_unit(ratio(m.prefix_request_hit_ppm as nat, 1_000_000)),
        in_unit(ratio(m.prefix_request_skip_ppm as nat, 1_000_000)),
        m.prefix_lookups_total == 0 ==> ratio(
            m.prefix_hits_total as nat,
            m.prefix_lookups_total as nat,
        ) == zero(),
{
    law_part_of_whole_in_unit(m.prefix_hits_total as nat, m.prefix_lookups_total as nat);
    law_part_of_whole_in_unit(
        m.prefix_reused_tokens_total as nat,
        m.prefix_lookup_prompt_tokens_total as nat,
    );
    law_part_of_whole_in_unit(m.prefix_request_hit_ppm as nat, 1_000_000);
    law_part_of_whole_in_unit(m.prefix_request_skip_ppm as nat, 1_000_000);
}

/// The fraction of GPU blocks in use is between zero and one, and zero without
/// blocks.
pub proof fn law_utilization_is_a_fraction(m: ServerMetrics)
    requires
        m.rates_exist(),
    ensures
        in_unit(utilization(m)),
        m.kv_gpu_blocks_total == 0 ==> utilization(m) == zero(),
{
    if m.kv_gpu_blocks_total == 0 {
        law_part_of_whole_in_unit(0, 0);
    } else {
        law_part_of_whole_in_unit(
            (m.kv_gpu_blocks_total - m.kv_gpu_blocks_free) as nat,
            m.kv_gpu_blocks_total as nat,
        );
    }
}

/// The fraction of generated tokens that came from drafts is between zero and
/// one.
pub proof fn law_draft_rate_is_a_fraction(m: ServerMetrics)
    ensures
        in_unit(draft_rate(m)),
{
    law_part_of_whole_in_unit(
        m.dflash_accepted_tokens_total.saturating_sub(m.dflash_blocks_total) as nat,
        m.dflash_accepted_tokens_total as nat,
    );
}

/// The acceptance rate of speculative steps is between zero and one where no
/// more tokens were accepted than verified.
pub proof fn law_acceptance_is_a_fraction(accepted: nat, verified: nat)
    requires
        accepted <= verified,
    ensures
        rounded(times(ratio(accepted, verified), 1_000_000)) <= 1_000_000,
        in_unit(ratio(rounded(times(ratio(accepted, verified), 1_000_000)), 1_000_000)),
{
    law_part_of_whole_in_unit(accepted, verified);
    law_shares_do_not_exceed_the_whole(ratio(accepted, verified), 1_000_000);
    let scaled = times(ratio(accepted, verified), 1_000_000);
    law_rounding_stays_below_integers(scaled, 1_000_000);
    law_part_of_whole_in_unit(rounded(scaled), 1_000_000);
}

/// Telemetry: the counts are those of the metrics, at most `u32::MAX`; the
/// occupancy is between zero and one; the acceptance rate is known exactly when
/// a token was verified; the first tier has the prefix hit rate, and every slower
/// tier that is listed has a rate between zero and one.
pub proof fn law_telemetry_holds_fractions(t: EngineTelemetry, m: ServerMetrics)
    requires
        t.describes(m),
        m.rates_exist(),
    ensures
        t.queue_depth <= m.requests_waiting,
        t.active_requests <= m.requests_active,
        m.requests_waiting <= u32::MAX ==> t.queue_depth == m.requests_waiting,
        m.requests_active <= u32::MAX ==> t.active_requests == m.requests_active,
        in_unit(t.batch_occupancy@),
        t.spec_acceptance_rate is Some <==> m.spec_verified_tokens_total > 0,
        ({
            let rates = rate_views(t.kv_tier_hit_rates@);
            &&& rates.len() > 0
            &&& rates[0].0 == "T0"@
            &&& rates[0].1 == ratio(m.prefix_hits_total as nat, m.prefix_lookups_total as nat)
            &&& forall|i: int| 0 < i < rates.len() ==> in_unit((#[trigger] rates[i]).1)
        }),
{
    reveal(tier_hit_rates);
    law_utilization_is_a_fraction(m);
    let all = staged_blocks(m);
    let (host, disk, remote) = (
        m.tier_fetch_staged_host_blocks_total,
        m.tier_fetch_staged_disk_blocks_total,
        m.tier_fetch_staged_remote_blocks_total,
    );
    law_part_of_whole_in_unit(host as nat, all);
    law_part_of_whole_in_unit(disk as nat, all);
    law_part_of_whole_in_unit(remote as nat, all);
    assert(optional(t.spec_acceptance_rate) is Some <==> t.spec_acceptance_rate is Some);
}

/// A request of a session: matched, prompt and resumed tokens.
pub type SessionRequest = (u64, u64, u64);

/// The statistics of a session after some requests.
pub open spec fn session_after(s: SessionCacheStats, log: Seq<SessionRequest>) -> SessionCacheStats
    decreases log.len(),
{
    if log.len() == 0 {
        s
    } else {
        let r = log.last();
        observed_session(session_after(s, log.drop_last()), r.0, r.1, r.2)
    }
}

/// Every request of a session is a hit or a miss, a hit is a prefix hit, and
/// what was reused is what matched, whatever was observed since the session
/// began. The hits and misses add up as long as the lookups can be counted.
pub proof fn law_session_totals_add_up(log: Seq<SessionRequest>)
    ensures
        ({
            let t = session_after(empty_session(), log);
            &&& t.prefix_reused_tokens_total == t.matched_prefix_tokens_total
            &&& t.prefix_hits_total == t.session_affinity_hit
            &&& log.len() <= u64::MAX ==> {
                &&& t.prefix_lookups_total == log.len()
                &&& t.session_affinity_hit + t.session_affinity_miss == t.prefix_lookups_total
            }
        }),
    decreases log.len(),
{
    if log.len() > 0 {
        law_session_totals_add_up(log.drop_last());
    }
}

/// The sum of a quantity of all requests.
pub open spec fn total_of(log: Seq<SessionRequest>, f: spec_fn(SessionRequest) -> nat) -> nat
    decreases log.len(),
{
    if log.len() == 0 {
        0
    } else {
        total_of(log.drop_last(), f) + f(log.last())
    }
}

/// A total that stops at `u64::MAX`.
pub open spec fn limited(n: nat) -> u64 {
    if n <= u64::MAX {
        n as u64
    } else {
        u64::MAX
    }
}

/// The totals of a session are the sums over its requests, up to their limit.
pub proof fn law_session_totals_are_sums(log: Seq<SessionRequest>)
    ensures
        ({
            let t = session_after(empty_session(), log);
            &&& t.prefix_lookups_total == limited(log.len())
            &&& t.prefix_hits_total == limited(
                total_of(log, |r: SessionRequest| if r.0 > 0 { 1nat } else { 0nat }),
            )
            &&& t.session_affinity_hit == t.prefix_hits_total
            &&& t.session_affinity_miss == limited(
                total_of(log, |r: SessionRequest| if r.0 > 0 { 0nat } else { 1nat }),
            )
            &&& t.matched_prefix_tokens_total == limited(
                total_of(log, |r: SessionRequest| r.0 as nat),
            )
            &&& t.prefix_reused_tokens_total == t.matched_prefix_tokens_total
            &&& t.prefix_lookup_prompt_tokens_total == limited(
                total_of(log, |r: SessionRequest| r.1 as nat),
            )
            &&& t.resume_prefill_tokens_total == limited(
                total_of(log, |r: SessionRequest| r.2 as nat),
            )
        }),
    decreases log.len(),
{
    if log.len() > 0 {
        law_session_totals_are_sums(log.drop_last());
    }
}

proof fn lemma_total_without(
    log: Seq<SessionRequest>,
    i: int,
    f: spec_fn(SessionRequest) -> nat,
)
    requires
        0 <= i < log.len(),
    ensures
        total_of(log, f) == total_of(log.remove(i), f) + f(log[i]),
    decreases log.len(),
{
    if i == log.len() - 1 {
        assert(log.remove(i) =~= log.drop_last());
    } else {
        lemma_total_without(log.drop_last(), i, f);
        assert(log.remove(i).drop_last() =~= log.drop_last().remove(i));
        assert(log.remove(i).last() == log.last());
    }
}

proof fn lemma_total_unordered(
    a: Seq<SessionRequest>,
    b: Seq<SessionRequest>,
    f: spec_fn(SessionRequest) -> nat,
)
    requires
        a.to_multiset() == b.to_multiset(),
    ensures
        a.len() == b.len(),
        total_of(a, f) == total_of(b, f),
    decreases a.len(),
{
    a.to_multiset_ensures();
    b.to_multiset_ensures();
    if a.len() > 0 {
        let last = a.last();
        assert(a.contains(last));
        assert(b.to_multiset().count(last) > 0);
        assert(b.contains(last));
        let i = choose|i: int| 0 <= i < b.len() && b[i] == last;
        assert(a.remove(a.len() - 1) =~= a.drop_last());
        assert(a.drop_last().to_multiset() =~= b.remove(i).to_multiset());
        lemma_total_unordered(a.drop_last(), b.remove(i), f);
        lemma_total_without(b, i, f);
    }
}

/// The order of a session's requests has no influence on its totals: only the
/// tokens of the latest request depend on it.
pub proof fn law_session_totals_ignore_order(a: Seq<SessionRequest>, b: Seq<SessionRequest>)
    requires
        a.to_multiset() == b.to_multiset(),
    ensures
        ({
            let (s, t) = (session_after(empty_session(), a), session_after(empty_session(), b));
            t == (SessionCacheStats {
                last_matched_prefix_tokens: t.last_matched_prefix_tokens,
                last_resume_prefill_tokens: t.last_resume_prefill_tokens,
                ..s
            })
        }),
{
    law_session_totals_are_sums(a);
    law_session_totals_are_sums(b);
    lemma_total_unordered(a, b, |r: SessionRequest| if r.0 > 0 { 1nat } else { 0nat });
    lemma_total_unordered(a, b, |r: SessionRequest| if r.0 > 0 { 0nat } else { 1nat });
    lemma_total_unordered(a, b, |r: SessionRequest| r.0 as nat);
    lemma_total_unordered(a, b, |r: SessionRequest| r.1 as nat);
    lemma_total_unordered(a, b, |r: SessionRequest| r.2 as nat);
}

/// The metrics after some fallbacks of the mixed path.
pub open spec fn after_fallbacks(m: ServerMetrics, labels: Seq<Seq<char>>) -> ServerMetrics
    decreases labels.len(),
{
    if labels.len() == 0 {
        m
    } else {
        after_fallback(after_fallbacks(m, labels.drop_last()), labels.last())
    }
}

/// How many labels stand for a reason.
pub open spec fn labelled_count(labels: Seq<Seq<char>>, reason: MixedBatchFallbackReason) -> nat
    decreases labels.len(),
{
    if labels.len() == 0 {
        0
    } else {
        labelled_count(labels.drop_last(), reason) + if labelled_reason(labels.last()) == reason {
            1nat
        } else {
            0nat
        }
    }
}

proof fn lemma_count_within_total(m: ServerMetrics, reason: MixedBatchFallbackReason)
    ensures
        fallback_count(m, reason) <= fallback_total(m),
{
}

proof fn lemma_one_fallback(m: ServerMetrics, label: Seq<char>, reason: MixedBatchFallbackReason)
    requires
        fallback_total(m) == m.prefill_path_mixed_ok_false_total,
        m.prefill_path_mixed_ok_false_total < u64::MAX,
    ensures
        ({
            let n = after_fallback(m, label);
            &&& n.prefill_path_mixed_ok_false_total == m.prefill_path_mixed_ok_false_total + 1
            &&& fallback_total(n) == n.prefill_path_mixed_ok_false_total
            &&& fallback_count(n, reason) == fallback_count(m, reason) + if labelled_reason(label)
                == reason {
                1int
            } else {
                0int
            }
            &&& n.prefill_path_mixed_ok_true_total == m.prefill_path_mixed_ok_true_total
        }),
{
    reveal(after_fallback);
    law_fallbacks_add_up(m, label);
    lemma_count_within_total(m, reason);
    let raised = ServerMetrics {
        prefill_path_mixed_ok_false_total: m.prefill_path_mixed_ok_false_total.wrapping_add(1),
        ..m
    };
    law_fallback_counts_its_reason(raised, labelled_reason(label), reason);
}

proof fn lemma_fallback_run(
    m: ServerMetrics,
    labels: Seq<Seq<char>>,
    reason: MixedBatchFallbackReason,
)
    requires
        m.prefill_path_mixed_ok_false_total == 0,
        fallback_total(m) == 0,
        labels.len() <= u64::MAX,
    ensures
        ({
            let n = after_fallbacks(m, labels);
            &&& n.prefill_path_mixed_ok_false_total == labels.len()
            &&& fallback_total(n) == labels.len()
            &&& fallback_count(n, reason) == labelled_count(labels, reason)
            &&& n.prefill_path_mixed_ok_true_total == m.prefill_path_mixed_ok_true_total
        }),
    decreases labels.len(),
{
    if labels.len() == 0 {
        lemma_count_within_total(m, reason);
    } else {
        let before = after_fallbacks(m, labels.drop_last());
        lemma_fallback_run(m, labels.drop_last(), reason);
        lemma_one_fallback(before, labels.last(), reason);
    }
}

/// Over any run of fallbacks since the metrics were new, the count of fallbacks
/// is their number and the sum of the counts of the reasons, each reason counts
/// the fallbacks whose label stands for it, and the count of successes stays as
/// it was; as long as the fallbacks can be counted.
pub proof fn law_fallback_runs_add_up(
    m: ServerMetrics,
    model_id: Seq<char>,
    labels: Seq<Seq<char>>,
    reason: MixedBatchFallbackReason,
)
    requires
        m.is_fresh(model_id),
        labels.len() <= u64::MAX,
    ensures
        ({
            let n = after_fallbacks(m, labels);
            &&& n.prefill_path_mixed_ok_false_total == labels.len()
            &&& fallback_total(n) == labels.len()
            &&& fallback_count(n, reason) == labelled_count(labels, reason)
            &&& n.prefill_path_mixed_ok_true_total == m.prefill_path_mixed_ok_true_total
        }),
{
    lemma_fallback_run(m, labels, reason);
}

/// Metrics of a server that has served nothing are zero one by one: nothing is
/// counted, observed or remembered.
pub proof fn law_new_metrics_are_zero(m: ServerMetrics, model_id: Seq<char>)
    requires
        m.is_fresh(model_id),
    ensures
        m.requests_total == 0,
        m.tokens_generated_total == 0,
        m.tokens_prompt_total == 0,
        m.requests_failed_total == 0,
        m.prefix_hits_total == 0,
        m.prefix_lookups_total == 0,
        m.prefix_reused_tokens_total == 0,
        m.prefix_lookup_prompt_tokens_total == 0,
        m.session_affinity_hit_total == 0,
        m.session_affinity_miss_total == 0,
        m.session_slot_pressure_evictions_hard_total == 0,
        m.prefix_aware_admit_deferrals_total == 0,
        m.tier_fetch_staged_host_blocks_total == 0,
        m.tier_fetch_staged_disk_blocks_total == 0,
        m.tier_fetch_staged_remote_blocks_total == 0,
        m.tier_fetch_promoted_blocks_total == 0,
        m.tier_fetch_fallback_total == 0,
        m.spec_draft_tokens_total == 0,
        m.spec_verified_tokens_total == 0,
        m.spec_accepted_tokens_total == 0,
        m.spec_sparse_view_empty_total == 0,
        m.dflash_blocks_total == 0,
        m.dflash_accepted_tokens_total == 0,
        m.dflash_draft_tokens_total == 0,
        m.metal_decode_batches_total == 0,
        m.metal_decode_batched_rows_total == 0,
        m.metal_decode_scalar_rows_total == 0,
        m.metal_decode_batch_fallback_rows_total == 0,
        m.metal_qwen35_packed_decode_batches_total == 0,
        m.metal_qwen35_packed_decode_rows_total == 0,
        m.requests_active == 0,
        m.requests_waiting == 0,
        m.scheduler_running_batch == 0,
        m.scheduler_prefill_queue == 0,
        m.scheduler_scheduled_rows == 0,
        m.scheduler_scheduled_decode_rows == 0,
        m.scheduler_scheduled_prefill_rows == 0,
        m.scheduler_decode_tokens == 0,
        m.scheduler_prefill_tokens == 0,
        m.scheduler_batch_width == 0,
        m.scheduler_step_last_us == 0,
        m.scheduler_step_admission_us == 0,
        m.scheduler_step_prefill_us == 0,
        m.scheduler_step_decode_us == 0,
        m.scheduler_step_emit_us == 0,
        m.scheduler_step_total_us == 0,
        m.scheduler_step_cleanup_us == 0,
        m.scheduler_loop_total_us == 0,
        m.scheduler_step_phase_samples == 0,
        m.preprocess_queue_depth == 0,
        m.preprocess_wait_us == 0,
        m.preprocess_tokenize_us == 0,
        m.scheduler_pipeline_snapshot_us == 0,
        m.scheduler_pipeline_cpu_plan_us == 0,
        m.scheduler_pipeline_gpu_completion_wait_us == 0,
        m.scheduler_pipeline_gpu_command_queue_depth == 0,
        m.scheduler_pipeline_cpu_plan_accept_total == 0,
        m.scheduler_pipeline_cpu_plan_stale_total == 0,
        m.scheduler_plan_idle_total == 0,
        m.scheduler_plan_decode_total == 0,
        m.scheduler_plan_prefill_total == 0,
        m.scheduler_plan_split_total == 0,
        m.scheduler_plan_mixed_total == 0,
        m.prefill_path_mixed_ok_true_total == 0,
        m.prefill_path_mixed_ok_false_total == 0,
        m.prefill_path_mixed_unsupported_model_total == 0,
        m.prefill_path_mixed_inactive_paged_pool_total == 0,
        m.prefill_path_mixed_lora_enabled_total == 0,
        m.prefill_path_mixed_unsupported_kv_format_total == 0,
        m.prefill_path_mixed_empty_decode_batch_total == 0,
        m.prefill_path_mixed_decode_slot_count_mismatch_total == 0,
        m.prefill_path_mixed_empty_prefill_batch_total == 0,
        m.prefill_path_mixed_prefill_start_position_count_mismatch_total == 0,
        m.prefill_path_mixed_empty_prefill_tokens_total == 0,
        m.prefill_path_mixed_prefill_slot_in_decode_batch_total == 0,
        m.prefill_path_mixed_duplicate_prefill_slot_total == 0,
        m.prefill_path_mixed_prefill_seq_len_mismatch_total == 0,
        m.prefill_path_mixed_scheduler_pre_dispatch_fallback_total == 0,
        m.spec_acceptance_rate_ppm == 0,
        m.kv_coordinator_queue_capacity == 0,
        m.kv_fetch_queue_depth == 0,
        m.kv_fetch_waiters == 0,
        m.kv_store_queue_depth == 0,
        m.kv_fetch_backpressure == 0,
        m.kv_store_backpressure == 0,
        m.kv_store_submitted_total == 0,
        m.kv_store_completed_total == 0,
        m.kv_store_failed_total == 0,
        m.kv_store_rejected_total == 0,
        m.tier_fetch_wait_us == 0,
        m.tier_store_wait_us == 0,
        m.kv_gpu_blocks_free == 0,
        m.kv_gpu_blocks_total == 0,
        m.matched_prefix_tokens == 0,
        m.resume_prefill_tokens == 0,
        m.prefix_request_hit_ppm == 0,
        m.prefix_request_skip_ppm == 0,
        m.prefix_lookup_latency_us == 0,
        m.prefix_lookup_reusable_tokens == 0,
        m.prefix_lookup_ready_on_gpu == 0,
        m.prefix_lookup_direct_gpu_attach == 0,
        m.prefix_lookup_staged == 0,
        m.prefix_lookup_prefetch == 0,
        m.prefix_lookup_recompute == 0,
        m.memory_active_bytes == 0,
        m.memory_peak_bytes == 0,
        m.memory_cache_bytes == 0,
        m.session_cache@.len() == 0,
        m.model_id@ == model_id,
        m.model_arch is None,
        !m.latest_request_cache.prefix_hit && m.latest_request_cache.session_id is None,
        m.latest_request_cache.prompt_tokens == 0,
        m.latest_request_cache.matched_prefix_tokens == 0,
        m.latest_request_cache.resume_prefill_tokens == 0,
        m.runtime_topology.is_zero(),
        m.histograms.is_empty(),
{
}

} // verus!
