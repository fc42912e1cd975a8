//! The document says of the metrics what the exposition shows, and what was
//! recorded of sessions and requests.

use vstd::prelude::*;

use crate::double::{fixed_text, integer, ratio, Binary};
use crate::metrics::exposition::{label_text, utilization};
use crate::metrics::histogram::quantile;
use crate::metrics::recorder_laws::one_if;
use crate::metrics::samples::{
    lemma_kv_readings, lemma_lookup_readings, lemma_outcome_readings, lemma_pipeline_readings,
    lemma_placement_readings, lemma_request_readings, lemma_scheduler_readings, reads,
};
use crate::metrics::server::{
    fallback_count, reasons_by_label, ModelArchSummary, RequestCacheStats, ServerMetrics,
    SessionCacheStats,
};
use crate::metrics::stats::{
    arch_node, arch_object, engine_nodes, number_or_null, pipeline_object, prefill_path_object,
    preprocess_object, reasons_object, request_nodes, request_object, runtime_nodes,
    session_object, sessions_object, stats_document, text_or_null, tier_object, topology_object, MemberView,
    NodeView, ScalarView,
};
use crate::metrics::telemetry::{clamped, in_micros, p50, p99, tier_hit_rates};
use crate::model::requests::{reason_label, MixedBatchFallbackReason};
use crate::text::decimal;

verus! {

/// The fields tell the value under the key.
pub open spec fn tells(
    fields: Seq<(Seq<char>, ScalarView)>,
    key: Seq<char>,
    value: ScalarView,
) -> bool {
    exists|i: int| 0 <= i < fields.len() && #[trigger] fields[i] == (key, value)
}

/// The fields tell under the key the number that the exposition shows.
pub open spec fn tells_count(
    fields: Seq<(Seq<char>, ScalarView)>,
    m: ServerMetrics,
    name: Seq<char>,
    label: Seq<char>,
    key: Seq<char>,
) -> bool {
    exists|v: nat|
        #[trigger] reads(m, name, label, decimal(v)) && tells(fields, key, ScalarView::Count(v))
}

/// The fields tell under the key the flag that the exposition shows.
pub open spec fn tells_flag(
    fields: Seq<(Seq<char>, ScalarView)>,
    m: ServerMetrics,
    name: Seq<char>,
    key: Seq<char>,
) -> bool {
    exists|b: bool|
        reads(m, name, Seq::empty(), decimal(#[trigger] one_if(b))) && tells(
            fields,
            key,
            ScalarView::Flag(b),
        )
}

/// The document has the node under the key.
pub open spec fn has_node(
    document: Seq<(Seq<char>, NodeView)>,
    key: Seq<char>,
    node: NodeView,
) -> bool {
    exists|i: int| 0 <= i < document.len() && #[trigger] document[i] == (key, node)
}

/// The document has under the key the number that the exposition shows.
pub open spec fn node_count(
    document: Seq<(Seq<char>, NodeView)>,
    m: ServerMetrics,
    name: Seq<char>,
    label: Seq<char>,
    key: Seq<char>,
) -> bool {
    exists|v: nat|
        #[trigger] reads(m, name, label, decimal(v)) && has_node(
            document,
            key,
            NodeView::Member(MemberView::Scalar(ScalarView::Count(v))),
        )
}

/// The document has under the key the flag that the exposition shows.
pub open spec fn node_flag(
    document: Seq<(Seq<char>, NodeView)>,
    m: ServerMetrics,
    name: Seq<char>,
    key: Seq<char>,
) -> bool {
    exists|b: bool|
        reads(m, name, Seq::empty(), decimal(#[trigger] one_if(b))) && has_node(
            document,
            key,
            NodeView::Member(MemberView::Scalar(ScalarView::Flag(b))),
        )
}

/// The document has under the key the share that the exposition shows to so many
/// places.
pub open spec fn node_share(
    document: Seq<(Seq<char>, NodeView)>,
    m: ServerMetrics,
    name: Seq<char>,
    places: nat,
    key: Seq<char>,
) -> bool {
    exists|x: Binary|
        #[trigger] reads(m, name, Seq::empty(), fixed_text(x, places)) && has_node(
            document,
            key,
            NodeView::Member(MemberView::Scalar(ScalarView::Number(x))),
        )
}

proof fn lemma_told_at(fields: Seq<(Seq<char>, ScalarView)>, i: int)
    requires
        0 <= i < fields.len(),
    ensures
        tells(fields, fields[i].0, fields[i].1),
{
    assert(fields[i] == (fields[i].0, fields[i].1));
}

proof fn lemma_node_at(document: Seq<(Seq<char>, NodeView)>, i: int)
    requires
        0 <= i < document.len(),
    ensures
        has_node(document, document[i].0, document[i].1),
{
    assert(document[i] == (document[i].0, document[i].1));
}

/// The document says of the placement what the exposition shows.
#[verifier::rlimit(60)]
pub proof fn law_documents_agree_on_placement(
    m: ServerMetrics,
    fields: Seq<(Seq<char>, ScalarView)>,
)
    requires
        fields == topology_object(m.runtime_topology),
    ensures
        tells_count(
            fields,
            m,
            "infer_runtime_topology_numa_nodes"@,
            Seq::empty(),
            "numa_nodes"@,
        ),
        tells_count(fields, m, "infer_runtime_topology_gpus"@, Seq::empty(), "gpus"@),
        tells_count(fields, m, "infer_runtime_topology_nics"@, Seq::empty(), "nics"@),
        tells_count(
            fields,
            m,
            "infer_runtime_worker_gpu_ordinal"@,
            Seq::empty(),
            "worker_gpu_ordinal"@,
        ),
        tells_count(
            fields,
            m,
            "infer_runtime_worker_cpu_count"@,
            Seq::empty(),
            "worker_cpu_count"@,
        ),
        tells_count(
            fields,
            m,
            "infer_runtime_worker_nic_count"@,
            Seq::empty(),
            "worker_nic_count"@,
        ),
        tells_flag(fields, m, "infer_runtime_worker_affinity_applied"@, "affinity_applied"@),
        tells_count(
            fields,
            m,
            "infer_runtime_worker_affinity_threads"@,
            Seq::empty(),
            "affinity_threads"@,
        ),
        tells_count(
            fields,
            m,
            "infer_runtime_worker_affinity_failed_threads"@,
            Seq::empty(),
            "affinity_failed_threads"@,
        ),
        tells_count(
            fields,
            m,
            "infer_runtime_preprocess_numa_groups"@,
            Seq::empty(),
            "preprocess_groups"@,
        ),
        tells_count(
            fields,
            m,
            "infer_runtime_preprocess_workers"@,
            Seq::empty(),
            "preprocess_workers"@,
        ),
        tells_count(
            fields,
            m,
            "infer_runtime_detokenizer_numa_groups"@,
            Seq::empty(),
            "detokenizer_groups"@,
        ),
        tells_count(
            fields,
            m,
            "infer_runtime_detokenizer_workers"@,
            Seq::empty(),
            "detokenizer_workers"@,
        ),
        tells_count(
            fields,
            m,
            "infer_runtime_numastat_pages"@,
            label_text("placement"@, "local"@),
            "numastat_local_pages"@,
        ),
        tells_count(
            fields,
            m,
            "infer_runtime_numastat_pages"@,
            label_text("placement"@, "remote"@),
            "numastat_remote_pages"@,
        ),
        tells_count(
            fields,
            m,
            "infer_runtime_numastat_pages"@,
            label_text("placement"@, "total"@),
            "numastat_total_pages"@,
        ),
        tells_count(
            fields,
            m,
            "infer_runtime_h2d_latency_microseconds"@,
            label_text("stat"@, "last"@),
            "h2d_latency_last_us"@,
        ),
        tells_count(
            fields,
            m,
            "infer_runtime_h2d_latency_microseconds"@,
            label_text("stat"@, "max"@),
            "h2d_latency_max_us"@,
        ),
        tells_count(
            fields,
            m,
            "infer_runtime_h2d_latency_count"@,
            Seq::empty(),
            "h2d_latency_count"@,
        ),
        tells_count(
            fields,
            m,
            "infer_scheduler_numa_route_total"@,
            label_text("outcome"@, "local"@),
            "numa_route_local_total"@,
        ),
        tells_count(
            fields,
            m,
            "infer_scheduler_numa_route_total"@,
            label_text("outcome"@, "cross"@),
            "numa_route_cross_total"@,
        ),
        tells_count(
            fields,
            m,
            "infer_scheduler_numa_route_total"@,
            label_text("outcome"@, "unknown"@),
            "numa_route_unknown_total"@,
        ),
        tells_count(
            fields,
            m,
            "infer_scheduler_numa_route_cost"@,
            Seq::empty(),
            "numa_route_cost_last"@,
        ),
        tells_count(
            fields,
            m,
            "infer_scheduler_numa_migration_total"@,
            Seq::empty(),
            "numa_migration_total"@,
        ),
        tells_count(
            fields,
            m,
            "infer_scheduler_numa_rebalance_total"@,
            Seq::empty(),
            "numa_rebalance_total"@,
        ),
        tells(fields, "worker_id"@, ScalarView::Count(m.runtime_topology.worker_id as nat)),
        tells(
            fields,
            "worker_numa_node"@,
            ScalarView::Signed(m.runtime_topology.worker_numa_node as int),
        ),
        tells(fields, "affinity_reason"@, ScalarView::Text(m.runtime_topology.affinity_reason@)),
        tells(fields, "numastat_nodes"@, ScalarView::Pages(m.runtime_topology.numastat_nodes@)),
{
    reveal(topology_object);
    assert(one_if(true) == 1 && one_if(false) == 0);
    lemma_placement_readings(m);
    lemma_outcome_readings(m);
    lemma_told_at(fields, 0);
    lemma_told_at(fields, 1);
    lemma_told_at(fields, 2);
    lemma_told_at(fields, 3);
    lemma_told_at(fields, 4);
    lemma_told_at(fields, 5);
    lemma_told_at(fields, 6);
    lemma_told_at(fields, 7);
    lemma_told_at(fields, 8);
    lemma_told_at(fields, 9);
    lemma_told_at(fields, 10);
    lemma_told_at(fields, 11);
    lemma_told_at(fields, 12);
    lemma_told_at(fields, 13);
    lemma_told_at(fields, 14);
    lemma_told_at(fields, 15);
    lemma_told_at(fields, 16);
    lemma_told_at(fields, 17);
    lemma_told_at(fields, 18);
    lemma_told_at(fields, 19);
    lemma_told_at(fields, 20);
    lemma_told_at(fields, 21);
    lemma_told_at(fields, 22);
    lemma_told_at(fields, 23);
    lemma_told_at(fields, 24);
    lemma_told_at(fields, 25);
    lemma_told_at(fields, 26);
    lemma_told_at(fields, 27);
    lemma_told_at(fields, 28);
}

/// The document says of preprocessing what the exposition shows.
pub proof fn law_documents_agree_on_preprocessing(
    m: ServerMetrics,
    fields: Seq<(Seq<char>, ScalarView)>,
)
    requires
        fields == preprocess_object(m),
    ensures
        tells_count(fields, m, "infer_preprocess_queue_depth"@, Seq::empty(), "queue_depth"@),
        tells_count(fields, m, "infer_preprocess_wait_microseconds"@, Seq::empty(), "wait_us"@),
        tells_count(
            fields,
            m,
            "infer_preprocess_tokenize_microseconds"@,
            Seq::empty(),
            "tokenize_us"@,
        ),
{
    reveal(preprocess_object);
    lemma_pipeline_readings(m);
    lemma_told_at(fields, 0);
    lemma_told_at(fields, 1);
    lemma_told_at(fields, 2);
}

/// The document says of the pipeline what the exposition shows.
pub proof fn law_documents_agree_on_the_pipeline(
    m: ServerMetrics,
    fields: Seq<(Seq<char>, ScalarView)>,
)
    requires
        fields == pipeline_object(m),
    ensures
        tells_count(
            fields,
            m,
            "infer_scheduler_pipeline_snapshot_microseconds"@,
            Seq::empty(),
            "snapshot_us"@,
        ),
        tells_count(
            fields,
            m,
            "infer_scheduler_pipeline_cpu_plan_microseconds"@,
            Seq::empty(),
            "cpu_plan_us"@,
        ),
        tells_count(
            fields,
            m,
            "infer_scheduler_pipeline_gpu_completion_wait_microseconds"@,
            Seq::empty(),
            "gpu_completion_wait_us"@,
        ),
        tells_count(
            fields,
            m,
            "infer_scheduler_pipeline_gpu_command_queue_depth"@,
            Seq::empty(),
            "gpu_command_queue_depth"@,
        ),
        tells_count(
            fields,
            m,
            "infer_scheduler_pipeline_cpu_plan_total"@,
            label_text("outcome"@, "accept"@),
            "cpu_plan_accept_total"@,
        ),
        tells_count(
            fields,
            m,
            "infer_scheduler_pipeline_cpu_plan_total"@,
            label_text("outcome"@, "stale"@),
            "cpu_plan_stale_total"@,
        ),
{
    reveal(pipeline_object);
    lemma_pipeline_readings(m);
    lemma_told_at(fields, 0);
    lemma_told_at(fields, 1);
    lemma_told_at(fields, 2);
    lemma_told_at(fields, 3);
    lemma_told_at(fields, 4);
    lemma_told_at(fields, 5);
}

/// The document says of a session what was counted for it.
pub proof fn law_documents_describe_sessions(
    s: SessionCacheStats,
    fields: Seq<(Seq<char>, ScalarView)>,
)
    requires
        fields == session_object(s),
    ensures
        tells(
            fields,
            "prefix_lookups_total"@,
            ScalarView::Count(s.prefix_lookups_total as nat),
        ),
        tells(fields, "prefix_hits_total"@, ScalarView::Count(s.prefix_hits_total as nat)),
        tells(
            fields,
            "prefix_hit_rate"@,
            ScalarView::Number(
                ratio(s.prefix_hits_total as nat, s.prefix_lookups_total as nat),
            ),
        ),
        tells(
            fields,
            "prefix_skip_rate"@,
            ScalarView::Number(
                ratio(
                    s.prefix_reused_tokens_total as nat,
                    s.prefix_lookup_prompt_tokens_total as nat,
                ),
            ),
        ),
        tells(
            fields,
            "prefix_reused_tokens_total"@,
            ScalarView::Count(s.prefix_reused_tokens_total as nat),
        ),
        tells(
            fields,
            "prefix_lookup_prompt_tokens_total"@,
            ScalarView::Count(s.prefix_lookup_prompt_tokens_total as nat),
        ),
        tells(
            fields,
            "session_affinity_hit"@,
            ScalarView::Count(s.session_affinity_hit as nat),
        ),
        tells(
            fields,
            "session_affinity_miss"@,
            ScalarView::Count(s.session_affinity_miss as nat),
        ),
        tells(
            fields,
            "matched_prefix_tokens_total"@,
            ScalarView::Count(s.matched_prefix_tokens_total as nat),
        ),
        tells(
            fields,
            "resume_prefill_tokens_total"@,
            ScalarView::Count(s.resume_prefill_tokens_total as nat),
        ),
        tells(
            fields,
            "matched_prefix_tokens"@,
            ScalarView::Count(s.last_matched_prefix_tokens as nat),
        ),
        tells(
            fields,
            "resume_prefill_tokens"@,
            ScalarView::Count(s.last_resume_prefill_tokens as nat),
        ),
{
    reveal(session_object);
    lemma_told_at(fields, 0);
    lemma_told_at(fields, 1);
    lemma_told_at(fields, 2);
    lemma_told_at(fields, 3);
    lemma_told_at(fields, 4);
    lemma_told_at(fields, 5);
    lemma_told_at(fields, 6);
    lemma_told_at(fields, 7);
    lemma_told_at(fields, 8);
    lemma_told_at(fields, 9);
    lemma_told_at(fields, 10);
    lemma_told_at(fields, 11);
}

/// The document says of the last request what was recorded of it.
pub proof fn law_documents_describe_the_last_request(
    r: RequestCacheStats,
    fields: Seq<(Seq<char>, ScalarView)>,
)
    requires
        fields == request_object(r),
    ensures
        tells(fields, "session_id"@, text_or_null(r.session_id)),
        tells(
            fields,
            "prefix_hit_rate"@,
            ScalarView::Number(integer(if r.prefix_hit { 1 } else { 0 })),
        ),
        tells(
            fields,
            "prefix_skip_rate"@,
            ScalarView::Number(ratio(r.matched_prefix_tokens as nat, r.prompt_tokens as nat)),
        ),
        tells(fields, "prompt_tokens"@, ScalarView::Count(r.prompt_tokens as nat)),
        tells(
            fields,
            "matched_prefix_tokens"@,
            ScalarView::Count(r.matched_prefix_tokens as nat),
        ),
        tells(
            fields,
            "resume_prefill_tokens"@,
            ScalarView::Count(r.resume_prefill_tokens as nat),
        ),
{
    reveal(request_object);
    lemma_told_at(fields, 0);
    lemma_told_at(fields, 1);
    lemma_told_at(fields, 2);
    lemma_told_at(fields, 3);
    lemma_told_at(fields, 4);
    lemma_told_at(fields, 5);
}

/// The document says of the architecture what was published.
pub proof fn law_documents_describe_the_architecture(
    a: ModelArchSummary,
    fields: Seq<(Seq<char>, ScalarView)>,
)
    requires
        fields == arch_object(a),
    ensures
        tells(fields, "arch"@, ScalarView::Text(a.arch@)),
        tells(fields, "hidden_size"@, ScalarView::Count(a.hidden_size as nat)),
        tells(fields, "vocab_size"@, ScalarView::Count(a.vocab_size as nat)),
        tells(fields, "num_hidden_layers"@, ScalarView::Count(a.num_hidden_layers as nat)),
        tells(fields, "num_kv_layers"@, ScalarView::Count(a.num_kv_layers as nat)),
        tells(fields, "num_kv_heads"@, ScalarView::Count(a.num_kv_heads as nat)),
        tells(fields, "num_q_heads"@, ScalarView::Count(a.num_q_heads as nat)),
        tells(fields, "head_dim"@, ScalarView::Count(a.head_dim as nat)),
        tells(
            fields,
            "kv_cache_bytes_per_token"@,
            ScalarView::Count(a.kv_cache_bytes_per_token as nat),
        ),
{
    reveal(arch_object);
    lemma_told_at(fields, 0);
    lemma_told_at(fields, 1);
    lemma_told_at(fields, 2);
    lemma_told_at(fields, 3);
    lemma_told_at(fields, 4);
    lemma_told_at(fields, 5);
    lemma_told_at(fields, 6);
    lemma_told_at(fields, 7);
    lemma_told_at(fields, 8);
}

/// The document says of requests and prefix reuse what the exposition shows.
#[verifier::rlimit(100)]
#[verifier::spinoff_prover]
pub proof fn law_documents_agree_on_requests(
    m: ServerMetrics,
    document: Seq<(Seq<char>, NodeView)>,
)
    requires
        document == request_nodes(m),
    ensures
        node_count(document, m, "infer_requests_total"@, Seq::empty(), "requests"@),
        node_count(document, m, "infer_requests_active"@, Seq::empty(), "active"@),
        node_count(document, m, "infer_requests_waiting"@, Seq::empty(), "waiting"@),
        node_count(document, m, "infer_tokens_generated_total"@, Seq::empty(), "tokens_out"@),
        node_share(document, m, "infer_kv_gpu_utilization"@, 4, "kv_util"@),
        node_share(document, m, "infer_prefix_hit_rate"@, 4, "prefix_hit_rate"@),
        node_share(document, m, "infer_prefix_skip_rate"@, 4, "prefix_skip_rate"@),
        node_count(
            document,
            m,
            "infer_session_affinity_hit_total"@,
            Seq::empty(),
            "session_affinity_hit"@,
        ),
        node_count(
            document,
            m,
            "infer_session_affinity_miss_total"@,
            Seq::empty(),
            "session_affinity_miss"@,
        ),
        node_count(
            document,
            m,
            "infer_session_slot_pressure_evictions_hard_total"@,
            Seq::empty(),
            "session_slot_pressure_evictions_hard"@,
        ),
        node_count(
            document,
            m,
            "infer_prefix_aware_admit_deferrals_total"@,
            Seq::empty(),
            "prefix_aware_admit_deferrals"@,
        ),
        node_count(
            document,
            m,
            "infer_matched_prefix_tokens"@,
            Seq::empty(),
            "matched_prefix_tokens"@,
        ),
        node_count(
            document,
            m,
            "infer_resume_prefill_tokens"@,
            Seq::empty(),
            "resume_prefill_tokens"@,
        ),
        node_count(
            document,
            m,
            "infer_prefix_lookup_latency_microseconds"@,
            Seq::empty(),
            "prefix_lookup_latency_us"@,
        ),
        node_count(
            document,
            m,
            "infer_prefix_lookup_reusable_tokens"@,
            Seq::empty(),
            "prefix_lookup_reusable_tokens"@,
        ),
        node_flag(
            document,
            m,
            "infer_prefix_lookup_ready_on_gpu"@,
            "prefix_lookup_ready_on_gpu"@,
        ),
        node_flag(
            document,
            m,
            "infer_prefix_lookup_direct_gpu_attach"@,
            "prefix_lookup_direct_gpu_attach"@,
        ),
        node_flag(document, m, "infer_prefix_lookup_staged"@, "prefix_lookup_staged"@),
        node_flag(document, m, "infer_prefix_lookup_prefetch"@, "prefix_lookup_prefetch"@),
        node_flag(document, m, "infer_prefix_lookup_recompute"@, "prefix_lookup_recompute"@),
{
    reveal(request_nodes);
    assert(one_if(true) == 1 && one_if(false) == 0);
    lemma_request_readings(m);
    lemma_scheduler_readings(m);
    lemma_kv_readings(m);
    lemma_lookup_readings(m);
    lemma_node_at(document, 0);
    lemma_node_at(document, 1);
    lemma_node_at(document, 2);
    lemma_node_at(document, 3);
    lemma_node_at(document, 4);
    lemma_node_at(document, 5);
    lemma_node_at(document, 6);
    lemma_node_at(document, 7);
    lemma_node_at(document, 8);
    lemma_node_at(document, 9);
    lemma_node_at(document, 10);
    lemma_node_at(document, 11);
    lemma_node_at(document, 12);
    lemma_node_at(document, 13);
    lemma_node_at(document, 14);
    lemma_node_at(document, 15);
    lemma_node_at(document, 16);
    lemma_node_at(document, 17);
    lemma_node_at(document, 18);
    lemma_node_at(document, 19);
}

/// The document describes the last request, every session and the engine.
pub proof fn law_documents_describe_the_engine(
    m: ServerMetrics,
    document: Seq<(Seq<char>, NodeView)>,
)
    requires
        document == engine_nodes(m),
    ensures
        has_node(
            document,
            "last_request"@,
            NodeView::Member(MemberView::Object(request_object(m.latest_request_cache))),
        ),
        has_node(document, "sessions"@, NodeView::Object(sessions_object(m.session_cache@))),
        has_node(
            document,
            "engine_ttft_us"@,
            NodeView::Member(
                MemberView::Scalar(
                    number_or_null(in_micros(quantile(m.histograms.ttft@, p50()))),
                ),
            ),
        ),
        has_node(
            document,
            "engine_itl_p50_us"@,
            NodeView::Member(
                MemberView::Scalar(
                    number_or_null(in_micros(quantile(m.histograms.tpot@, p50()))),
                ),
            ),
        ),
        has_node(
            document,
            "engine_itl_p99_us"@,
            NodeView::Member(
                MemberView::Scalar(
                    number_or_null(in_micros(quantile(m.histograms.tpot@, p99()))),
                ),
            ),
        ),
        has_node(
            document,
            "engine_queue_depth"@,
            NodeView::Member(
                MemberView::Scalar(ScalarView::Count(clamped(m.requests_waiting) as nat)),
            ),
        ),
        has_node(
            document,
            "engine_active_requests"@,
            NodeView::Member(
                MemberView::Scalar(ScalarView::Count(clamped(m.requests_active) as nat)),
            ),
        ),
        has_node(
            document,
            "engine_batch_occupancy"@,
            NodeView::Member(MemberView::Scalar(ScalarView::Number(utilization(m)))),
        ),
        has_node(document, "engine_model_arch"@, arch_node(m)),
        has_node(
            document,
            "engine_kv_tier_hit_rates"@,
            NodeView::Member(MemberView::Object(tier_object(m))),
        ),
        m.spec_verified_tokens_total > 0 ==> has_node(
            document,
            "engine_spec_acceptance_rate"@,
            NodeView::Member(
                MemberView::Scalar(
                    ScalarView::Number(ratio(m.spec_acceptance_rate_ppm as nat, 1_000_000)),
                ),
            ),
        ),
        m.spec_verified_tokens_total == 0 ==> has_node(
            document,
            "engine_spec_acceptance_rate"@,
            NodeView::Member(MemberView::Scalar(ScalarView::Null)),
        ),
        has_node(
            document,
            "engine_prefill_path_stats"@,
            NodeView::Object(prefill_path_object(m)),
        ),
{
    reveal(engine_nodes);
    lemma_node_at(document, 0);
    lemma_node_at(document, 1);
    lemma_node_at(document, 2);
    lemma_node_at(document, 3);
    lemma_node_at(document, 4);
    lemma_node_at(document, 5);
    lemma_node_at(document, 6);
    lemma_node_at(document, 7);
    lemma_node_at(document, 8);
    lemma_node_at(document, 9);
    lemma_node_at(document, 10);
    lemma_node_at(document, 11);
}

/// The document describes preprocessing, the pipeline, the placement and the time.
pub proof fn law_documents_describe_the_runtime(
    m: ServerMetrics,
    document: Seq<(Seq<char>, NodeView)>,
    timestamp_ms: u64,
)
    requires
        document == runtime_nodes(m, timestamp_ms),
    ensures
        has_node(
            document,
            "preprocess"@,
            NodeView::Member(MemberView::Object(preprocess_object(m))),
        ),
        has_node(
            document,
            "scheduler_pipeline"@,
            NodeView::Member(MemberView::Object(pipeline_object(m))),
        ),
        has_node(
            document,
            "runtime_topology"@,
            NodeView::Member(MemberView::Object(topology_object(m.runtime_topology))),
        ),
        has_node(
            document,
            "engine_timestamp_ms"@,
            NodeView::Member(MemberView::Scalar(ScalarView::Count(timestamp_ms as nat))),
        ),
{
    reveal(runtime_nodes);
    lemma_node_at(document, 0);
    lemma_node_at(document, 1);
    lemma_node_at(document, 2);
    lemma_node_at(document, 3);
}

/// The document has all its parts.
pub proof fn law_documents_have_all_parts(
    m: ServerMetrics,
    timestamp_ms: u64,
    key: Seq<char>,
    node: NodeView,
)
    ensures
        has_node(request_nodes(m), key, node) ==> has_node(
            stats_document(m, timestamp_ms),
            key,
            node,
        ),
        has_node(engine_nodes(m), key, node) ==> has_node(
            stats_document(m, timestamp_ms),
            key,
            node,
        ),
        has_node(runtime_nodes(m, timestamp_ms), key, node) ==> has_node(
            stats_document(m, timestamp_ms),
            key,
            node,
        ),
        has_node(stats_document(m, timestamp_ms), key, node) ==> has_node(
            request_nodes(m),
            key,
            node,
        ) || has_node(engine_nodes(m), key, node) || has_node(
            runtime_nodes(m, timestamp_ms),
            key,
            node,
        ),
{
    let a = request_nodes(m);
    let b = engine_nodes(m);
    let c = runtime_nodes(m, timestamp_ms);
    let all = stats_document(m, timestamp_ms);
    if has_node(a, key, node) {
        let i = choose|i: int| 0 <= i < a.len() && #[trigger] a[i] == (key, node);
        assert(all[i] == (key, node));
    }
    if has_node(b, key, node) {
        let i = choose|i: int| 0 <= i < b.len() && #[trigger] b[i] == (key, node);
        assert(all[a.len() + i] == (key, node));
    }
    if has_node(c, key, node) {
        let i = choose|i: int| 0 <= i < c.len() && #[trigger] c[i] == (key, node);
        assert(all[a.len() + b.len() + i] == (key, node));
    }
    if has_node(all, key, node) {
        let i = choose|i: int| 0 <= i < all.len() && #[trigger] all[i] == (key, node);
        if i < a.len() {
            assert(a[i] == (key, node));
        } else if i < a.len() + b.len() {
            assert(b[i - a.len()] == (key, node));
        } else {
            assert(c[i - a.len() - b.len()] == (key, node));
        }
    }
}

/// The document tells the outcomes of the mixed path apart, and counts every reason
/// for a fallback under its own label.
pub proof fn law_documents_tell_the_prefill_paths(
    m: ServerMetrics,
    members: Seq<(Seq<char>, MemberView)>,
    reason: MixedBatchFallbackReason,
)
    requires
        members == prefill_path_object(m),
    ensures
        members.contains(
            (
                "ok_true_count"@,
                MemberView::Scalar(ScalarView::Count(m.prefill_path_mixed_ok_true_total as nat)),
            ),
        ),
        members.contains(
            (
                "ok_false_count"@,
                MemberView::Scalar(ScalarView::Count(m.prefill_path_mixed_ok_false_total as nat)),
            ),
        ),
        members.contains(("ok_false_reasons"@, MemberView::Object(reasons_object(m)))),
        tells(
            reasons_object(m),
            reason_label(reason),
            ScalarView::Count(fallback_count(m, reason) as nat),
        ),
{
    assert(members[0].0 == "ok_true_count"@);
    assert(members[1].0 == "ok_false_count"@);
    assert(members[2].0 == "ok_false_reasons"@);
    assert(members.contains(members[0]) && members.contains(members[1]) && members.contains(
        members[2],
    ));
    let reasons = reasons_by_label();
    assert(reasons.contains(reason)) by {
        lemma_reason_is_listed(reason);
    }
    let i = choose|i: int| 0 <= i < reasons.len() && reasons[i] == reason;
    lemma_told_at(reasons_object(m), i);
}

proof fn lemma_reason_is_listed(reason: MixedBatchFallbackReason)
    ensures
        reasons_by_label().contains(reason),
{
    let reasons = reasons_by_label();
    assert(exists|i: int| 0 <= i < 13 && #[trigger] reasons[i] == reason) by {
        assert(reasons[0] == reason || reasons[1] == reason || reasons[2] == reason || reasons[3]
            == reason || reasons[4] == reason || reasons[5] == reason || reasons[6] == reason
            || reasons[7] == reason || reasons[8] == reason || reasons[9] == reason || reasons[10]
            == reason || reasons[11] == reason || reasons[12] == reason);
    }
}

/// The document tells the rate of every tier that telemetry lists, under its label.
pub proof fn law_documents_tell_the_tiers(m: ServerMetrics, i: int)
    requires
        0 <= i < tier_hit_rates(m).len(),
    ensures
        tier_object(m).len() == tier_hit_rates(m).len(),
        tier_object(m)[i] == (tier_hit_rates(m)[i].0, ScalarView::Number(tier_hit_rates(m)[i].1)),
{
}

} // verus!
