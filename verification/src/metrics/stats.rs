//! The metrics as a structured document.

use vstd::prelude::*;

use crate::double::Double;
use crate::double::{integer, ratio, Binary};
use crate::metrics::exposition::utilization;
use crate::metrics::histogram::quantile;
use crate::metrics::server::{
    ModelArchSummary, PrefillPathStats, RequestCacheStats, ServerMetrics, SessionCacheStats,
};
use crate::metrics::server::{fallback_count, reasons_by_label};
use crate::metrics::telemetry::EngineTelemetry;
use crate::metrics::telemetry::{clamped, in_micros, optional, p50, p99, tier_hit_rates};
use crate::metrics::telemetry::rate_views;
use crate::metrics::topology::{copy_pages, RuntimeTopologyMetrics};
use crate::model::requests::{reason_label, MixedBatchFallbackReason};

verus! {

/// A value without members.
pub enum ScalarView {
    Null,
    Flag(bool),
    Count(nat),
    Signed(int),
    Number(Binary),
    Text(Seq<char>),
    /// Pairs of a NUMA node and its pages.
    Pages(Seq<(i32, u64)>),
}

/// A value, or an object of values.
pub enum MemberView {
    Scalar(ScalarView),
    Object(Seq<(Seq<char>, ScalarView)>),
}

/// A value, or an object of values and objects.
pub enum NodeView {
    Member(MemberView),
    Object(Seq<(Seq<char>, MemberView)>),
}

/// A value without members.
#[derive(Debug)]
pub enum Scalar {
    Null,
    Flag(bool),
    Count(u64),
    Signed(i64),
    Number(Double),
    Text(String),
    /// Pairs of a NUMA node and its pages.
    Pages(Vec<(i32, u64)>),
}

/// A value, or an object of values.
#[derive(Debug)]
pub enum Member {
    Scalar(Scalar),
    Object(Vec<(String, Scalar)>),
}

/// A value, or an object of values and objects.
#[derive(Debug)]
pub enum Node {
    Member(Member),
    Object(Vec<(String, Member)>),
}

impl View for Scalar {
    type V = ScalarView;

    open spec fn view(&self) -> ScalarView {
        match *self {
            Scalar::Null => ScalarView::Null,
            Scalar::Flag(b) => ScalarView::Flag(b),
            Scalar::Count(n) => ScalarView::Count(n as nat),
            Scalar::Signed(n) => ScalarView::Signed(n as int),
            Scalar::Number(x) => ScalarView::Number(x@),
            Scalar::Text(s) => ScalarView::Text(s@),
            Scalar::Pages(p) => ScalarView::Pages(p@),
        }
    }
}

/// What a list of named values holds.
pub open spec fn field_views(fields: Seq<(String, Scalar)>) -> Seq<(Seq<char>, ScalarView)> {
    fields.map_values(|f: (String, Scalar)| (f.0@, f.1@))
}

impl View for Member {
    type V = MemberView;

    open spec fn view(&self) -> MemberView {
        match *self {
            Member::Scalar(s) => MemberView::Scalar(s@),
            Member::Object(fields) => MemberView::Object(field_views(fields@)),
        }
    }
}

/// What a list of named members holds.
pub open spec fn member_views(members: Seq<(String, Member)>) -> Seq<(Seq<char>, MemberView)> {
    members.map_values(|m: (String, Member)| (m.0@, m.1@))
}

impl View for Node {
    type V = NodeView;

    open spec fn view(&self) -> NodeView {
        match *self {
            Node::Member(m) => NodeView::Member(m@),
            Node::Object(members) => NodeView::Object(member_views(members@)),
        }
    }
}

/// What a document holds.
pub open spec fn node_views(nodes: Seq<(String, Node)>) -> Seq<(Seq<char>, NodeView)> {
    nodes.map_values(|n: (String, Node)| (n.0@, n.1@))
}

/// A double, or nothing.
pub open spec fn number_or_null(x: Option<Binary>) -> ScalarView {
    match x {
        Some(b) => ScalarView::Number(b),
        None => ScalarView::Null,
    }
}

/// A text, or nothing.
pub open spec fn text_or_null(x: Option<String>) -> ScalarView {
    match x {
        Some(s) => ScalarView::Text(s@),
        None => ScalarView::Null,
    }
}

/// A single value of the document.
pub open spec fn value(key: Seq<char>, s: ScalarView) -> (Seq<char>, NodeView) {
    (key, NodeView::Member(MemberView::Scalar(s)))
}

/// An object of the document.
pub open spec fn object(
    key: Seq<char>,
    fields: Seq<(Seq<char>, ScalarView)>,
) -> (Seq<char>, NodeView) {
    (key, NodeView::Member(MemberView::Object(fields)))
}

/// Prefix reuse of one session.
#[verifier::opaque]
pub open spec fn session_object(s: SessionCacheStats) -> Seq<(Seq<char>, ScalarView)> {
    seq![
        ("prefix_lookups_total"@, ScalarView::Count(s.prefix_lookups_total as nat)),
        ("prefix_hits_total"@, ScalarView::Count(s.prefix_hits_total as nat)),
        ("prefix_hit_rate"@, ScalarView::Number(
            ratio(s.prefix_hits_total as nat, s.prefix_lookups_total as nat),
        )),
        ("prefix_skip_rate"@, ScalarView::Number(
            ratio(
                s.prefix_reused_tokens_total as nat,
                s.prefix_lookup_prompt_tokens_total as nat,
            ),
        )),
        ("prefix_reused_tokens_total"@, ScalarView::Count(s.prefix_reused_tokens_total as nat)),
        (
            "prefix_lookup_prompt_tokens_total"@,
            ScalarView::Count(s.prefix_lookup_prompt_tokens_total as nat),
        ),
        ("session_affinity_hit"@, ScalarView::Count(s.session_affinity_hit as nat)),
        ("session_affinity_miss"@, ScalarView::Count(s.session_affinity_miss as nat)),
        ("matched_prefix_tokens_total"@, ScalarView::Count(s.matched_prefix_tokens_total as nat)),
        ("resume_prefill_tokens_total"@, ScalarView::Count(s.resume_prefill_tokens_total as nat)),
        ("matched_prefix_tokens"@, ScalarView::Count(s.last_matched_prefix_tokens as nat)),
        ("resume_prefill_tokens"@, ScalarView::Count(s.last_resume_prefill_tokens as nat)),
    ]
}

/// Prefix reuse of the most recent request.
#[verifier::opaque]
pub open spec fn request_object(r: RequestCacheStats) -> Seq<(Seq<char>, ScalarView)> {
    seq![
        ("session_id"@, text_or_null(r.session_id)),
        ("prefix_hit_rate"@, ScalarView::Number(integer(if r.prefix_hit { 1 } else { 0 }))),
        ("prefix_skip_rate"@, ScalarView::Number(
            ratio(r.matched_prefix_tokens as nat, r.prompt_tokens as nat),
        )),
        ("prompt_tokens"@, ScalarView::Count(r.prompt_tokens as nat)),
        ("matched_prefix_tokens"@, ScalarView::Count(r.matched_prefix_tokens as nat)),
        ("resume_prefill_tokens"@, ScalarView::Count(r.resume_prefill_tokens as nat)),
    ]
}

/// Architecture of the model.
#[verifier::opaque]
pub open spec fn arch_object(a: ModelArchSummary) -> Seq<(Seq<char>, ScalarView)> {
    seq![
        ("arch"@, ScalarView::Text(a.arch@)),
        ("hidden_size"@, ScalarView::Count(a.hidden_size as nat)),
        ("vocab_size"@, ScalarView::Count(a.vocab_size as nat)),
        ("num_hidden_layers"@, ScalarView::Count(a.num_hidden_layers as nat)),
        ("num_kv_layers"@, ScalarView::Count(a.num_kv_layers as nat)),
        ("num_kv_heads"@, ScalarView::Count(a.num_kv_heads as nat)),
        ("num_q_heads"@, ScalarView::Count(a.num_q_heads as nat)),
        ("head_dim"@, ScalarView::Count(a.head_dim as nat)),
        ("kv_cache_bytes_per_token"@, ScalarView::Count(a.kv_cache_bytes_per_token as nat)),
    ]
}

/// Runtime placement.
#[verifier::opaque]
pub open spec fn topology_object(t: RuntimeTopologyMetrics) -> Seq<(Seq<char>, ScalarView)> {
    seq![
        ("numa_nodes"@, ScalarView::Count(t.numa_nodes as nat)),
        ("gpus"@, ScalarView::Count(t.gpus as nat)),
        ("nics"@, ScalarView::Count(t.nics as nat)),
        ("worker_id"@, ScalarView::Count(t.worker_id as nat)),
        ("worker_gpu_ordinal"@, ScalarView::Count(t.worker_gpu_ordinal as nat)),
        ("worker_numa_node"@, ScalarView::Signed(t.worker_numa_node as int)),
        ("worker_cpu_count"@, ScalarView::Count(t.worker_cpu_count as nat)),
        ("worker_nic_count"@, ScalarView::Count(t.worker_nic_count as nat)),
        ("affinity_applied"@, ScalarView::Flag(t.affinity_applied)),
        ("affinity_threads"@, ScalarView::Count(t.affinity_threads as nat)),
        ("affinity_failed_threads"@, ScalarView::Count(t.affinity_failed_threads as nat)),
        ("affinity_reason"@, ScalarView::Text(t.affinity_reason@)),
        ("preprocess_groups"@, ScalarView::Count(t.preprocess_groups as nat)),
        ("preprocess_workers"@, ScalarView::Count(t.preprocess_workers as nat)),
        ("detokenizer_groups"@, ScalarView::Count(t.detokenizer_groups as nat)),
        ("detokenizer_workers"@, ScalarView::Count(t.detokenizer_workers as nat)),
        ("numastat_local_pages"@, ScalarView::Count(t.numastat_local_pages as nat)),
        ("numastat_remote_pages"@, ScalarView::Count(t.numastat_remote_pages as nat)),
        ("numastat_total_pages"@, ScalarView::Count(t.numastat_total_pages as nat)),
        ("numastat_nodes"@, ScalarView::Pages(t.numastat_nodes@)),
        ("h2d_latency_last_us"@, ScalarView::Count(t.h2d_latency_last_us as nat)),
        ("h2d_latency_max_us"@, ScalarView::Count(t.h2d_latency_max_us as nat)),
        ("h2d_latency_count"@, ScalarView::Count(t.h2d_latency_count as nat)),
        ("numa_route_local_total"@, ScalarView::Count(t.numa_route_local_total as nat)),
        ("numa_route_cross_total"@, ScalarView::Count(t.numa_route_cross_total as nat)),
        ("numa_route_unknown_total"@, ScalarView::Count(t.numa_route_unknown_total as nat)),
        ("numa_route_cost_last"@, ScalarView::Count(t.numa_route_cost_last as nat)),
        ("numa_migration_total"@, ScalarView::Count(t.numa_migration_total as nat)),
        ("numa_rebalance_total"@, ScalarView::Count(t.numa_rebalance_total as nat)),
    ]
}

/// Preprocessing.
#[verifier::opaque]
pub open spec fn preprocess_object(m: ServerMetrics) -> Seq<(Seq<char>, ScalarView)> {
    seq![
        ("queue_depth"@, ScalarView::Count(m.preprocess_queue_depth as nat)),
        ("wait_us"@, ScalarView::Count(m.preprocess_wait_us as nat)),
        ("tokenize_us"@, ScalarView::Count(m.preprocess_tokenize_us as nat)),
    ]
}

/// Scheduler pipeline.
#[verifier::opaque]
pub open spec fn pipeline_object(m: ServerMetrics) -> Seq<(Seq<char>, ScalarView)> {
    seq![
        ("snapshot_us"@, ScalarView::Count(m.scheduler_pipeline_snapshot_us as nat)),
        ("cpu_plan_us"@, ScalarView::Count(m.scheduler_pipeline_cpu_plan_us as nat)),
        (
            "gpu_completion_wait_us"@,
            ScalarView::Count(m.scheduler_pipeline_gpu_completion_wait_us as nat),
        ),
        (
            "gpu_command_queue_depth"@,
            ScalarView::Count(m.scheduler_pipeline_gpu_command_queue_depth as nat),
        ),
        (
            "cpu_plan_accept_total"@,
            ScalarView::Count(m.scheduler_pipeline_cpu_plan_accept_total as nat),
        ),
        (
            "cpu_plan_stale_total"@,
            ScalarView::Count(m.scheduler_pipeline_cpu_plan_stale_total as nat),
        ),
    ]
}

/// Sessions by their name.
pub open spec fn sessions_object(
    entries: Seq<(String, SessionCacheStats)>,
) -> Seq<(Seq<char>, MemberView)> {
    Seq::new(
        entries.len(),
        |i: int| (entries[i].0@, MemberView::Object(session_object(entries[i].1))),
    )
}

/// Tier hit rates by label.
pub open spec fn tier_object(m: ServerMetrics) -> Seq<(Seq<char>, ScalarView)> {
    tier_hit_rates(m).map_values(|r: (Seq<char>, Binary)| (r.0, ScalarView::Number(r.1)))
}

/// Fallback counts by label.
pub open spec fn reasons_object(m: ServerMetrics) -> Seq<(Seq<char>, ScalarView)> {
    reasons_by_label().map_values(
        |r: MixedBatchFallbackReason|
            (reason_label(r), ScalarView::Count(fallback_count(m, r) as nat)),
    )
}

/// Outcomes of the mixed path.
pub open spec fn prefill_path_object(m: ServerMetrics) -> Seq<(Seq<char>, MemberView)> {
    seq![
        (
            "ok_true_count"@,
            MemberView::Scalar(ScalarView::Count(m.prefill_path_mixed_ok_true_total as nat)),
        ),
        (
            "ok_false_count"@,
            MemberView::Scalar(ScalarView::Count(m.prefill_path_mixed_ok_false_total as nat)),
        ),
        ("ok_false_reasons"@, MemberView::Object(reasons_object(m))),
    ]
}

/// The architecture, or nothing before the model was loaded.
pub open spec fn arch_node(m: ServerMetrics) -> NodeView {
    match m.model_arch {
        Some(a) => NodeView::Member(MemberView::Object(arch_object(a))),
        None => NodeView::Member(MemberView::Scalar(ScalarView::Null)),
    }
}

/// Requests and prefix reuse.
#[verifier::opaque]
pub open spec fn request_nodes(m: ServerMetrics) -> Seq<(Seq<char>, NodeView)> {
    seq![
        value("requests"@, ScalarView::Count(m.requests_total as nat)),
        value("active"@, ScalarView::Count(m.requests_active as nat)),
        value("waiting"@, ScalarView::Count(m.requests_waiting as nat)),
        value("tokens_out"@, ScalarView::Count(m.tokens_generated_total as nat)),
        value("kv_util"@, ScalarView::Number(utilization(m))),
        value("prefix_hit_rate"@, ScalarView::Number(
                ratio(m.prefix_hits_total as nat, m.prefix_lookups_total as nat),
            )),
        value("prefix_skip_rate"@, ScalarView::Number(
                ratio(
                    m.prefix_reused_tokens_total as nat,
                    m.prefix_lookup_prompt_tokens_total as nat,
                ),
            )),
        value("session_affinity_hit"@, ScalarView::Count(m.session_affinity_hit_total as nat)),
        value("session_affinity_miss"@, ScalarView::Count(m.session_affinity_miss_total as nat)),
        value(
            "session_slot_pressure_evictions_hard"@,
            ScalarView::Count(m.session_slot_pressure_evictions_hard_total as nat),
        ),
        value(
            "prefix_aware_admit_deferrals"@,
            ScalarView::Count(m.prefix_aware_admit_deferrals_total as nat),
        ),
        value("matched_prefix_tokens"@, ScalarView::Count(m.matched_prefix_tokens as nat)),
        value("resume_prefill_tokens"@, ScalarView::Count(m.resume_prefill_tokens as nat)),
        value("prefix_lookup_latency_us"@, ScalarView::Count(m.prefix_lookup_latency_us as nat)),
        value(
            "prefix_lookup_reusable_tokens"@,
            ScalarView::Count(m.prefix_lookup_reusable_tokens as nat),
        ),
        value("prefix_lookup_ready_on_gpu"@, ScalarView::Flag(m.prefix_lookup_ready_on_gpu != 0)),
        value(
            "prefix_lookup_direct_gpu_attach"@,
            ScalarView::Flag(m.prefix_lookup_direct_gpu_attach != 0),
        ),
        value("prefix_lookup_staged"@, ScalarView::Flag(m.prefix_lookup_staged != 0)),
        value("prefix_lookup_prefetch"@, ScalarView::Flag(m.prefix_lookup_prefetch != 0)),
        value("prefix_lookup_recompute"@, ScalarView::Flag(m.prefix_lookup_recompute != 0)),
    ]
}

/// Sessions and engine telemetry.
#[verifier::opaque]
pub open spec fn engine_nodes(m: ServerMetrics) -> Seq<(Seq<char>, NodeView)> {
    seq![
        object("last_request"@, request_object(m.latest_request_cache)),
        ("sessions"@, NodeView::Object(sessions_object(m.session_cache@))),
        value("engine_ttft_us"@, number_or_null(
                in_micros(quantile(m.histograms.ttft@, p50())),
            )),
        value("engine_itl_p50_us"@, number_or_null(
                in_micros(quantile(m.histograms.tpot@, p50())),
            )),
        value("engine_itl_p99_us"@, number_or_null(
                in_micros(quantile(m.histograms.tpot@, p99())),
            )),
        value("engine_queue_depth"@, ScalarView::Count(clamped(m.requests_waiting) as nat)),
        value("engine_active_requests"@, ScalarView::Count(clamped(m.requests_active) as nat)),
        value("engine_batch_occupancy"@, ScalarView::Number(utilization(m))),
        ("engine_model_arch"@, arch_node(m)),
        object("engine_kv_tier_hit_rates"@, tier_object(m)),
        value("engine_spec_acceptance_rate"@, number_or_null(
                if m.spec_verified_tokens_total > 0 {
                    Some(ratio(m.spec_acceptance_rate_ppm as nat, 1_000_000))
                } else {
                    None
                },
            )),
        (
            "engine_prefill_path_stats"@,
            NodeView::Object(prefill_path_object(m)),
        ),
    ]
}

/// Pipeline, placement and time.
#[verifier::opaque]
pub open spec fn runtime_nodes(m: ServerMetrics, timestamp_ms: u64) -> Seq<(Seq<char>, NodeView)> {
    seq![
        object("preprocess"@, preprocess_object(m)),
        object("scheduler_pipeline"@, pipeline_object(m)),
        object("runtime_topology"@, topology_object(m.runtime_topology)),
        value("engine_timestamp_ms"@, ScalarView::Count(timestamp_ms as nat)),
    ]
}

/// The document of all statistics.
pub open spec fn stats_document(m: ServerMetrics, timestamp_ms: u64) -> Seq<(Seq<char>, NodeView)> {
    request_nodes(m) + engine_nodes(m) + runtime_nodes(m, timestamp_ms)
}

fn no_nodes() -> (out: Vec<(String, Node)>)
    ensures
        node_views(out@) == Seq::<(Seq<char>, NodeView)>::empty(),
{
    let out: Vec<(String, Node)> = Vec::new();
    assert(node_views(out@) =~= Seq::<(Seq<char>, NodeView)>::empty());
    out
}

fn append_nodes(out: &mut Vec<(String, Node)>, more: Vec<(String, Node)>)
    ensures
        node_views(final(out)@) == node_views(old(out)@) + node_views(more@),
{
    let mut more: Vec<(String, Node)> = more;
    let ghost added = more@;
    out.append(&mut more);
    assert(node_views(out@) =~= node_views(old(out)@) + node_views(added));
}

fn no_fields() -> (out: Vec<(String, Scalar)>)
    ensures
        field_views(out@) == Seq::<(Seq<char>, ScalarView)>::empty(),
{
    let out: Vec<(String, Scalar)> = Vec::new();
    assert(field_views(out@) =~= Seq::<(Seq<char>, ScalarView)>::empty());
    out
}

fn add_field(out: &mut Vec<(String, Scalar)>, key: &str, s: Scalar)
    ensures
        field_views(final(out)@) == field_views(old(out)@).push((key@, s@)),
{
    out.push((String::from_str(key), s));
    assert(field_views(out@) =~= field_views(old(out)@).push((key@, s@)));
}

fn add_member(out: &mut Vec<(String, Member)>, key: &str, member: Member)
    ensures
        member_views(final(out)@) == member_views(old(out)@).push((key@, member@)),
{
    out.push((String::from_str(key), member));
    assert(member_views(out@) =~= member_views(old(out)@).push((key@, member@)));
}

fn no_members() -> (out: Vec<(String, Member)>)
    ensures
        member_views(out@) == Seq::<(Seq<char>, MemberView)>::empty(),
{
    let out: Vec<(String, Member)> = Vec::new();
    assert(member_views(out@) =~= Seq::<(Seq<char>, MemberView)>::empty());
    out
}

fn add_node(out: &mut Vec<(String, Node)>, key: &str, node: Node)
    ensures
        node_views(final(out)@) == node_views(old(out)@).push((key@, node@)),
{
    out.push((String::from_str(key), node));
    assert(node_views(out@) =~= node_views(old(out)@).push((key@, node@)));
}

fn add_value(out: &mut Vec<(String, Node)>, key: &str, s: Scalar)
    ensures
        node_views(final(out)@) == node_views(old(out)@).push(value(key@, s@)),
{
    add_node(out, key, Node::Member(Member::Scalar(s)));
}

fn add_object(out: &mut Vec<(String, Node)>, key: &str, fields: Vec<(String, Scalar)>)
    ensures
        node_views(final(out)@) == node_views(old(out)@).push(object(key@, field_views(fields@))),
{
    add_node(out, key, Node::Member(Member::Object(fields)));
}

fn optional_number(x: &Option<Double>) -> (s: Scalar)
    ensures
        s@ == number_or_null(optional(*x)),
{
    match x {
        Some(d) => Scalar::Number(*d),
        None => Scalar::Null,
    }
}

fn optional_text(x: &Option<String>) -> (s: Scalar)
    ensures
        s@ == text_or_null(*x),
{
    match x {
        Some(text) => Scalar::Text(text.clone()),
        None => Scalar::Null,
    }
}

fn session_object_fields(s: &SessionCacheStats) -> (out: Vec<(String, Scalar)>)
    ensures
        field_views(out@) == session_object(*s),
{
    proof {
        reveal(session_object);
    }
    let mut out: Vec<(String, Scalar)> = no_fields();
    add_field(&mut out, "prefix_lookups_total", Scalar::Count(s.prefix_lookups_total));
    add_field(&mut out, "prefix_hits_total", Scalar::Count(s.prefix_hits_total));
    add_field(&mut out, "prefix_hit_rate", Scalar::Number(s.prefix_hit_rate()));
    add_field(&mut out, "prefix_skip_rate", Scalar::Number(s.prefix_skip_rate()));
    add_field(&mut out, "prefix_reused_tokens_total", Scalar::Count(s.prefix_reused_tokens_total));
    add_field(
        &mut out,
        "prefix_lookup_prompt_tokens_total",
        Scalar::Count(s.prefix_lookup_prompt_tokens_total),
    );
    add_field(&mut out, "session_affinity_hit", Scalar::Count(s.session_affinity_hit));
    add_field(&mut out, "session_affinity_miss", Scalar::Count(s.session_affinity_miss));
    add_field(
        &mut out,
        "matched_prefix_tokens_total",
        Scalar::Count(s.matched_prefix_tokens_total),
    );
    add_field(
        &mut out,
        "resume_prefill_tokens_total",
        Scalar::Count(s.resume_prefill_tokens_total),
    );
    add_field(&mut out, "matched_prefix_tokens", Scalar::Count(s.last_matched_prefix_tokens));
    add_field(&mut out, "resume_prefill_tokens", Scalar::Count(s.last_resume_prefill_tokens));
    out
}

fn request_object_fields(r: &RequestCacheStats) -> (out: Vec<(String, Scalar)>)
    ensures
        field_views(out@) == request_object(*r),
{
    proof {
        reveal(request_object);
    }
    let mut out: Vec<(String, Scalar)> = no_fields();
    add_field(&mut out, "session_id", optional_text(&r.session_id));
    add_field(&mut out, "prefix_hit_rate", Scalar::Number(r.prefix_hit_rate()));
    add_field(&mut out, "prefix_skip_rate", Scalar::Number(r.prefix_skip_rate()));
    add_field(&mut out, "prompt_tokens", Scalar::Count(r.prompt_tokens));
    add_field(&mut out, "matched_prefix_tokens", Scalar::Count(r.matched_prefix_tokens));
    add_field(&mut out, "resume_prefill_tokens", Scalar::Count(r.resume_prefill_tokens));
    out
}

fn arch_object_fields(a: &ModelArchSummary) -> (out: Vec<(String, Scalar)>)
    ensures
        field_views(out@) == arch_object(*a),
{
    proof {
        reveal(arch_object);
    }
    let mut out: Vec<(String, Scalar)> = no_fields();
    add_field(&mut out, "arch", Scalar::Text(a.arch.clone()));
    add_field(&mut out, "hidden_size", Scalar::Count(a.hidden_size));
    add_field(&mut out, "vocab_size", Scalar::Count(a.vocab_size));
    add_field(&mut out, "num_hidden_layers", Scalar::Count(a.num_hidden_layers));
    add_field(&mut out, "num_kv_layers", Scalar::Count(a.num_kv_layers));
    add_field(&mut out, "num_kv_heads", Scalar::Count(a.num_kv_heads));
    add_field(&mut out, "num_q_heads", Scalar::Count(a.num_q_heads));
    add_field(&mut out, "head_dim", Scalar::Count(a.head_dim));
    add_field(&mut out, "kv_cache_bytes_per_token", Scalar::Count(a.kv_cache_bytes_per_token));
    out
}

fn topology_object_fields(t: &RuntimeTopologyMetrics) -> (out: Vec<(String, Scalar)>)
    ensures
        field_views(out@) == topology_object(*t),
{
    proof {
        reveal(topology_object);
    }
    let mut out: Vec<(String, Scalar)> = no_fields();
    add_field(&mut out, "numa_nodes", Scalar::Count(t.numa_nodes));
    add_field(&mut out, "gpus", Scalar::Count(t.gpus));
    add_field(&mut out, "nics", Scalar::Count(t.nics));
    add_field(&mut out, "worker_id", Scalar::Count(t.worker_id));
    add_field(&mut out, "worker_gpu_ordinal", Scalar::Count(t.worker_gpu_ordinal));
    add_field(&mut out, "worker_numa_node", Scalar::Signed(t.worker_numa_node));
    add_field(&mut out, "worker_cpu_count", Scalar::Count(t.worker_cpu_count));
    add_field(&mut out, "worker_nic_count", Scalar::Count(t.worker_nic_count));
    add_field(&mut out, "affinity_applied", Scalar::Flag(t.affinity_applied));
    add_field(&mut out, "affinity_threads", Scalar::Count(t.affinity_threads));
    add_field(&mut out, "affinity_failed_threads", Scalar::Count(t.affinity_failed_threads));
    add_field(&mut out, "affinity_reason", Scalar::Text(t.affinity_reason.clone()));
    add_field(&mut out, "preprocess_groups", Scalar::Count(t.preprocess_groups));
    add_field(&mut out, "preprocess_workers", Scalar::Count(t.preprocess_workers));
    add_field(&mut out, "detokenizer_groups", Scalar::Count(t.detokenizer_groups));
    add_field(&mut out, "detokenizer_workers", Scalar::Count(t.detokenizer_workers));
    add_field(&mut out, "numastat_local_pages", Scalar::Count(t.numastat_local_pages));
    add_field(&mut out, "numastat_remote_pages", Scalar::Count(t.numastat_remote_pages));
    add_field(&mut out, "numastat_total_pages", Scalar::Count(t.numastat_total_pages));
    add_field(&mut out, "numastat_nodes", Scalar::Pages(copy_pages(&t.numastat_nodes)));
    add_field(&mut out, "h2d_latency_last_us", Scalar::Count(t.h2d_latency_last_us));
    add_field(&mut out, "h2d_latency_max_us", Scalar::Count(t.h2d_latency_max_us));
    add_field(&mut out, "h2d_latency_count", Scalar::Count(t.h2d_latency_count));
    add_field(&mut out, "numa_route_local_total", Scalar::Count(t.numa_route_local_total));
    add_field(&mut out, "numa_route_cross_total", Scalar::Count(t.numa_route_cross_total));
    add_field(&mut out, "numa_route_unknown_total", Scalar::Count(t.numa_route_unknown_total));
    add_field(&mut out, "numa_route_cost_last", Scalar::Count(t.numa_route_cost_last));
    add_field(&mut out, "numa_migration_total", Scalar::Count(t.numa_migration_total));
    add_field(&mut out, "numa_rebalance_total", Scalar::Count(t.numa_rebalance_total));
    out
}

fn preprocess_object_fields(m: &ServerMetrics) -> (out: Vec<(String, Scalar)>)
    ensures
        field_views(out@) == preprocess_object(*m),
{
    proof {
        reveal(preprocess_object);
    }
    let mut out: Vec<(String, Scalar)> = no_fields();
    add_field(&mut out, "queue_depth", Scalar::Count(m.preprocess_queue_depth));
    add_field(&mut out, "wait_us", Scalar::Count(m.preprocess_wait_us));
    add_field(&mut out, "tokenize_us", Scalar::Count(m.preprocess_tokenize_us));
    out
}

fn pipeline_object_fields(m: &ServerMetrics) -> (out: Vec<(String, Scalar)>)
    ensures
        field_views(out@) == pipeline_object(*m),
{
    proof {
        reveal(pipeline_object);
    }
    let mut out: Vec<(String, Scalar)> = no_fields();
    add_field(&mut out, "snapshot_us", Scalar::Count(m.scheduler_pipeline_snapshot_us));
    add_field(&mut out, "cpu_plan_us", Scalar::Count(m.scheduler_pipeline_cpu_plan_us));
    add_field(
        &mut out,
        "gpu_completion_wait_us",
        Scalar::Count(m.scheduler_pipeline_gpu_completion_wait_us),
    );
    add_field(
        &mut out,
        "gpu_command_queue_depth",
        Scalar::Count(m.scheduler_pipeline_gpu_command_queue_depth),
    );
    add_field(
        &mut out,
        "cpu_plan_accept_total",
        Scalar::Count(m.scheduler_pipeline_cpu_plan_accept_total),
    );
    add_field(
        &mut out,
        "cpu_plan_stale_total",
        Scalar::Count(m.scheduler_pipeline_cpu_plan_stale_total),
    );
    out
}

fn session_members(entries: &Vec<(String, SessionCacheStats)>) -> (out: Vec<(String, Member)>)
    ensures
        member_views(out@) == sessions_object(entries@),
{
    let mut out: Vec<(String, Member)> = no_members();
    let mut i: usize = 0;
    while i < entries.len()
        invariant
            i <= entries@.len(),
            member_views(out@) == sessions_object(entries@.take(i as int)),
        decreases entries@.len() - i,
    {
        let stats: SessionCacheStats = entries[i].1;
        add_member(
            &mut out,
            entries[i].0.as_str(),
            Member::Object(session_object_fields(&stats)),
        );
        i = i + 1;
        assert(member_views(out@) =~= sessions_object(entries@.take(i as int)));
    }
    assert(entries@.take(i as int) =~= entries@);
    out
}

fn tier_fields(rates: &Vec<(&'static str, Double)>) -> (out: Vec<(String, Scalar)>)
    ensures
        field_views(out@) == rate_views(rates@).map_values(
            |r: (Seq<char>, Binary)| (r.0, ScalarView::Number(r.1)),
        ),
{
    let mut out: Vec<(String, Scalar)> = no_fields();
    let ghost views = rate_views(rates@).map_values(
        |r: (Seq<char>, Binary)| (r.0, ScalarView::Number(r.1)),
    );
    let mut i: usize = 0;
    while i < rates.len()
        invariant
            i <= rates@.len(),
            views == rate_views(rates@).map_values(
                |r: (Seq<char>, Binary)| (r.0, ScalarView::Number(r.1)),
            ),
            field_views(out@) == views.take(i as int),
        decreases rates@.len() - i,
    {
        let entry: (&'static str, Double) = rates[i];
        add_field(&mut out, entry.0, Scalar::Number(entry.1));
        i = i + 1;
        assert(field_views(out@) =~= views.take(i as int));
    }
    assert(views.take(i as int) =~= views);
    out
}

impl ServerMetrics {
    fn arch(&self) -> (node: Node)
        ensures
            node@ == arch_node(*self),
    {
        match &self.model_arch {
            Some(a) => Node::Member(Member::Object(arch_object_fields(a))),
            None => Node::Member(Member::Scalar(Scalar::Null)),
        }
    }

    fn reasons(&self, stats: &PrefillPathStats) -> (out: Vec<(String, Scalar)>)
        requires
            stats.describes(*self),
        ensures
            field_views(out@) == reasons_object(*self),
    {
        let mut out: Vec<(String, Scalar)> = no_fields();
        let ghost views = reasons_object(*self);
        let mut i: usize = 0;
        while i < stats.ok_false_reasons.len()
            invariant
                i <= stats.ok_false_reasons@.len(),
                stats.describes(*self),
                views == reasons_object(*self),
                field_views(out@) == views.take(i as int),
            decreases stats.ok_false_reasons@.len() - i,
        {
            let entry: (&'static str, u64) = stats.ok_false_reasons[i];
            proof {
                assert(stats.ok_false_reasons@[i as int].0@ == reason_label(
                    reasons_by_label()[i as int],
                ));
            }
            add_field(&mut out, entry.0, Scalar::Count(entry.1));
            i = i + 1;
            assert(field_views(out@) =~= views.take(i as int));
        }
        assert(views.take(i as int) =~= views);
        out
    }

    fn prefill_path(&self) -> (node: Node)
        ensures
            node@ == NodeView::Object(prefill_path_object(*self)),
    {
        let stats: PrefillPathStats = self.prefill_path_stats();
        let mut out: Vec<(String, Member)> = no_members();
        add_member(&mut out, "ok_true_count", Member::Scalar(Scalar::Count(stats.ok_true_count)));
        add_member(&mut out, "ok_false_count", Member::Scalar(Scalar::Count(stats.ok_false_count)));
        add_member(&mut out, "ok_false_reasons", Member::Object(self.reasons(&stats)));
        assert(member_views(out@) == prefill_path_object(*self));
        Node::Object(out)
    }

    fn request_nodes_list(&self) -> (out: Vec<(String, Node)>)
        requires
            self.rates_exist(),
        ensures
            node_views(out@) == request_nodes(*self),
    {
        proof {
            reveal(request_nodes);
        }
        let mut out: Vec<(String, Node)> = no_nodes();
        add_value(&mut out, "requests", Scalar::Count(self.requests_total));
        add_value(&mut out, "active", Scalar::Count(self.requests_active));
        add_value(&mut out, "waiting", Scalar::Count(self.requests_waiting));
        add_value(&mut out, "tokens_out", Scalar::Count(self.tokens_generated_total));
        add_value(&mut out, "kv_util", Scalar::Number(self.kv_gpu_utilization()));
        add_value(&mut out, "prefix_hit_rate", Scalar::Number(self.prefix_hit_rate()));
        add_value(&mut out, "prefix_skip_rate", Scalar::Number(self.prefix_skip_rate()));
        add_value(&mut out, "session_affinity_hit", Scalar::Count(self.session_affinity_hit_total));
        add_value(
            &mut out,
            "session_affinity_miss",
            Scalar::Count(self.session_affinity_miss_total),
        );
        add_value(
            &mut out,
            "session_slot_pressure_evictions_hard",
            Scalar::Count(self.session_slot_pressure_evictions_hard_total),
        );
        add_value(
            &mut out,
            "prefix_aware_admit_deferrals",
            Scalar::Count(self.prefix_aware_admit_deferrals_total),
        );
        add_value(&mut out, "matched_prefix_tokens", Scalar::Count(self.matched_prefix_tokens));
        add_value(&mut out, "resume_prefill_tokens", Scalar::Count(self.resume_prefill_tokens));
        add_value(
            &mut out,
            "prefix_lookup_latency_us",
            Scalar::Count(self.prefix_lookup_latency_us),
        );
        add_value(
            &mut out,
            "prefix_lookup_reusable_tokens",
            Scalar::Count(self.prefix_lookup_reusable_tokens),
        );
        add_value(
            &mut out,
            "prefix_lookup_ready_on_gpu",
            Scalar::Flag(self.prefix_lookup_ready_on_gpu()),
        );
        add_value(
            &mut out,
            "prefix_lookup_direct_gpu_attach",
            Scalar::Flag(self.prefix_lookup_direct_gpu_attach()),
        );
        add_value(&mut out, "prefix_lookup_staged", Scalar::Flag(self.prefix_lookup_staged()));
        add_value(&mut out, "prefix_lookup_prefetch", Scalar::Flag(self.prefix_lookup_prefetch()));
        add_value(
            &mut out,
            "prefix_lookup_recompute",
            Scalar::Flag(self.prefix_lookup_recompute()),
        );
        out
    }

    fn engine_nodes_list(&self, t: &EngineTelemetry) -> (out: Vec<(String, Node)>)
        requires
            self.rates_exist(),
            t.describes(*self),
            t.has_percentiles_of(*self),
        ensures
            node_views(out@) == engine_nodes(*self),
    {
        proof {
            reveal(engine_nodes);
        }
        let mut out: Vec<(String, Node)> = no_nodes();
        add_object(&mut out, "last_request", request_object_fields(&self.latest_request_cache));
        add_node(&mut out, "sessions", Node::Object(session_members(&self.session_cache)));
        add_value(&mut out, "engine_ttft_us", optional_number(&t.ttft_us));
        add_value(&mut out, "engine_itl_p50_us", optional_number(&t.itl_p50_us));
        add_value(&mut out, "engine_itl_p99_us", optional_number(&t.itl_p99_us));
        add_value(&mut out, "engine_queue_depth", Scalar::Count(t.queue_depth as u64));
        add_value(&mut out, "engine_active_requests", Scalar::Count(t.active_requests as u64));
        add_value(&mut out, "engine_batch_occupancy", Scalar::Number(t.batch_occupancy));
        add_node(&mut out, "engine_model_arch", self.arch());
        add_object(&mut out, "engine_kv_tier_hit_rates", tier_fields(&t.kv_tier_hit_rates));
        add_value(
            &mut out,
            "engine_spec_acceptance_rate",
            optional_number(&t.spec_acceptance_rate),
        );
        add_node(&mut out, "engine_prefill_path_stats", self.prefill_path());
        out
    }

    fn runtime_nodes_list(&self, timestamp_ms: u64) -> (out: Vec<(String, Node)>)
        requires
            self.rates_exist(),
        ensures
            node_views(out@) == runtime_nodes(*self, timestamp_ms),
    {
        proof {
            reveal(runtime_nodes);
        }
        let mut out: Vec<(String, Node)> = no_nodes();
        add_object(&mut out, "preprocess", preprocess_object_fields(self));
        add_object(&mut out, "scheduler_pipeline", pipeline_object_fields(self));
        add_object(&mut out, "runtime_topology", topology_object_fields(&self.runtime_topology));
        add_value(&mut out, "engine_timestamp_ms", Scalar::Count(timestamp_ms));
        out
    }

    /// Builds the document of all statistics at the given time.
    pub fn render_stats_json(&self, timestamp_ms: u64) -> (out: Vec<(String, Node)>)
        requires
            self.wf(),
            self.rates_exist(),
        ensures
            node_views(out@) == stats_document(*self, timestamp_ms),
    {
        let t: EngineTelemetry = self.snapshot_engine_telemetry(timestamp_ms);
        let mut out: Vec<(String, Node)> = self.request_nodes_list();
        append_nodes(&mut out, self.engine_nodes_list(&t));
        append_nodes(&mut out, self.runtime_nodes_list(timestamp_ms));
        out
    }
}

} // verus!
