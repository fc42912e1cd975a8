//! Metrics: histograms, recording, and the three published formats.

use infer::double::Double;
use infer::metrics::histogram::{latency_buckets, Histogram};
use infer::metrics::server::{
    ModelArchSummary, SchedulerPlanLabel, ServerMetrics, SessionCacheStats, SessionId,
};
use infer::metrics::stats::{Member, Node, Scalar};
use infer::metrics::topology::{
    AffinityApplyResult, GpuTopology, NicTopology, NumaMemoryStats, NumaNodeTopology,
    RuntimeTopology, WorkerPlacement,
};
use infer::model::requests::MixedBatchFallbackReason;

fn value(x: Double) -> f64 {
    x.mantissa as f64 * 2f64.powi(x.exponent as i32)
}

fn at<'a>(payload: &'a Vec<(String, Node)>, path: &[&str]) -> &'a Scalar {
    let node = &payload.iter().find(|(name, _)| name == path[0]).unwrap().1;
    let member = match node {
        Node::Member(member) => member,
        Node::Object(members) => {
            let (name, member) = members.iter().find(|(name, _)| name == path[1]).unwrap();
            assert_eq!(name, path[1]);
            if path.len() == 2 {
                match member {
                    Member::Scalar(scalar) => return scalar,
                    Member::Object(_) => panic!("{path:?} is an object"),
                }
            }
            match member {
                Member::Object(fields) => {
                    return &fields.iter().find(|(name, _)| name == path[2]).unwrap().1;
                }
                Member::Scalar(_) => panic!("{path:?} has no members"),
            }
        }
    };
    match member {
        Member::Scalar(scalar) => scalar,
        Member::Object(fields) => {
            &fields.iter().find(|(name, _)| name == path[1]).unwrap().1
        }
    }
}

fn number(payload: &Vec<(String, Node)>, path: &[&str]) -> f64 {
    match at(payload, path) {
        Scalar::Number(x) => value(*x),
        other => panic!("{path:?} is {other:?}"),
    }
}

fn count(payload: &Vec<(String, Node)>, path: &[&str]) -> i64 {
    match at(payload, path) {
        Scalar::Count(n) => *n as i64,
        Scalar::Signed(n) => *n,
        other => panic!("{path:?} is {other:?}"),
    }
}

fn text<'a>(payload: &'a Vec<(String, Node)>, path: &[&str]) -> &'a str {
    match at(payload, path) {
        Scalar::Text(s) => s,
        other => panic!("{path:?} is {other:?}"),
    }
}

#[test]
fn histogram_observe_and_percentile() {
    let mut h = Histogram::new(&latency_buckets(), 1_000_000);
    // Observe 100 values all = 0.05s (should fall into the 0.05 bucket).
    for _ in 0..100 {
        h.observe(50_000);
    }
    assert_eq!(h.count(), 100);
    assert!((value(h.sum()) - 5.0).abs() < 1e-6);
    // p50 should be in the 0.05 bucket.
    assert_eq!(h.percentile(Double::ratio(1, 2)).map(value), Some(0.05));
}

#[test]
fn histogram_render_has_inf_bucket() {
    let mut h = Histogram::new(&latency_buckets(), 1_000_000);
    h.observe(100_000);
    let rendered = h.render("test_latency", "");
    assert!(rendered.contains("le=\"+Inf\""));
    assert!(rendered.contains("test_latency_count"));
}

#[test]
fn histogram_empty_percentile() {
    let h = Histogram::new(&latency_buckets(), 1_000_000);
    assert!(h.percentile(Double::ratio(99, 100)).is_none());
}

#[test]
fn server_metrics_prometheus_render() {
    let mut m = ServerMetrics::new("Qwen3-4B");
    m.record_request_completed(128, 256, 50_000, 20_000, 1_500_000);
    m.set_active(2);
    m.set_waiting(5);
    m.set_scheduler_occupancy(3, 4);
    m.set_scheduler_step(4, 3, 1, 3, 128, 4);
    m.observe_scheduler_step(12_000);
    m.set_scheduler_step_phase_us(100, 200, 300, 400, 1000);
    m.set_scheduler_loop_phase_us(50, 1050);
    m.set_preprocess_stage(2, 11, 22);
    m.set_scheduler_pipeline_us(33, 44, 55, 1);
    m.set_runtime_topology(
        &RuntimeTopology {
            numa_nodes: vec![NumaNodeTopology {
                node: 0,
                cpus: vec![0, 1],
            }],
            gpus: vec![GpuTopology {
                ordinal: 0,
                pci_bus_id: Some("17:00.0".to_string()),
                uuid: None,
                numa_node: Some(0),
                local_cpus: vec![0, 1],
                nearest_nics: vec!["mlx5_0".to_string()],
            }],
            nics: vec![NicTopology {
                name: "mlx5_0".to_string(),
                pci_bus_id: Some("18:00.0".to_string()),
                numa_node: Some(0),
                local_cpus: vec![0, 1],
            }],
            fallback_cpus: vec![0, 1],
        },
        &WorkerPlacement {
            worker_id: 0,
            gpu_ordinal: 0,
            numa_node: Some(0),
            cpus: vec![0, 1],
            nics: vec!["mlx5_0".to_string()],
            route_cost: 0,
        },
        &AffinityApplyResult {
            label: "test".to_string(),
            applied: true,
            requested_cpus: vec![0, 1],
            applied_threads: 2,
            failed_threads: 0,
            reason: "applied".to_string(),
        },
    );
    m.set_preprocess_topology(1, 2);
    m.set_detokenizer_topology(1, 1);
    m.set_runtime_numastat(
        &NumaMemoryStats {
            total_pages: 9,
            per_node_pages: vec![(0, 7), (1, 2)],
        },
        Some(0),
    );
    m.observe_h2d_latency_us(77);
    m.observe_h2d_latency_us(99);
    m.record_numa_route(0, Some(true));
    m.record_numa_route(100, Some(false));
    m.record_numa_migration();
    m.record_numa_rebalance();
    m.record_scheduler_cpu_plan_accept();
    m.record_scheduler_cpu_plan_stale();
    m.record_scheduler_plan(SchedulerPlanLabel::Decode);
    m.record_scheduler_plan(SchedulerPlanLabel::Mixed);
    m.record_scheduler_plan(SchedulerPlanLabel::Mixed);
    m.record_prefill_path_mixed_ok_true();
    m.record_prefill_path_mixed_ok_false("prefill_seq_len_mismatch");
    m.record_prefill_path_mixed_ok_false("scheduler_pre_dispatch_fallback");
    m.set_kv_coordinator(16, 3, 5, 2, true, false, 7, 5, 1, 2);
    m.set_tier_wait_seconds(250_000, 500_000);
    m.set_kv_gpu_blocks(100, 200);
    m.record_request_cache(
        Some(&SessionId::named("w3-warm-000")),
        64,
        128,
        64,
    );
    m.record_prefix_aware_admit_deferral();
    m.record_tier_fetch_plan(2, 3, 4);
    m.record_tier_fetch_promoted(6);
    m.record_tier_fetch_fallback();
    m.record_metal_decode_batch(3);
    m.record_metal_decode_scalar_row();
    m.record_metal_decode_batch_fallback(2);
    m.record_metal_qwen35_packed_decode_batch(3);
    m.set_memory_bytes(1234, 5678, 42);

    let rendered = m.render_prometheus();
    assert!(rendered.contains("infer_requests_total"));
    assert!(rendered.contains("infer_requests_total{model=\"Qwen3-4B\",} 1"));
    assert!(rendered.contains("infer_requests_active{model=\"Qwen3-4B\",} 2"));
    assert!(rendered.contains("infer_requests_waiting{model=\"Qwen3-4B\",} 5"));
    assert!(rendered.contains("infer_scheduler_running_batch{model=\"Qwen3-4B\",} 3"));
    assert!(rendered.contains("infer_scheduler_prefill_queue{model=\"Qwen3-4B\",} 4"));
    assert!(rendered.contains("infer_scheduler_scheduled_rows{model=\"Qwen3-4B\",} 4"));
    assert!(rendered.contains("infer_scheduler_scheduled_decode_rows{model=\"Qwen3-4B\",} 3"));
    assert!(rendered.contains("infer_scheduler_scheduled_prefill_rows{model=\"Qwen3-4B\",} 1"));
    assert!(rendered.contains("infer_scheduler_decode_tokens{model=\"Qwen3-4B\",} 3"));
    assert!(rendered.contains("infer_scheduler_prefill_tokens{model=\"Qwen3-4B\",} 128"));
    assert!(rendered.contains("infer_scheduler_batch_width{model=\"Qwen3-4B\",} 4"));
    assert!(rendered.contains(
        "infer_scheduler_step_phase_admission_microseconds{model=\"Qwen3-4B\",} 100"
    ));
    assert!(
        rendered.contains(
            "infer_scheduler_step_phase_prefill_microseconds{model=\"Qwen3-4B\",} 200"
        )
    );
    assert!(
        rendered.contains(
            "infer_scheduler_step_phase_decode_microseconds{model=\"Qwen3-4B\",} 300"
        )
    );
    assert!(
        rendered
            .contains("infer_scheduler_step_phase_emit_microseconds{model=\"Qwen3-4B\",} 400")
    );
    assert!(
        rendered.contains(
            "infer_scheduler_step_phase_total_microseconds{model=\"Qwen3-4B\",} 1000"
        )
    );
    assert!(
        rendered.contains("infer_scheduler_step_cleanup_microseconds{model=\"Qwen3-4B\",} 50")
    );
    assert!(
        rendered.contains("infer_scheduler_loop_total_microseconds{model=\"Qwen3-4B\",} 1050")
    );
    assert!(rendered.contains("infer_preprocess_queue_depth{model=\"Qwen3-4B\",} 2"));
    assert!(rendered.contains("infer_preprocess_wait_microseconds{model=\"Qwen3-4B\",} 11"));
    assert!(
        rendered.contains("infer_preprocess_tokenize_microseconds{model=\"Qwen3-4B\",} 22")
    );
    assert!(
        rendered
            .contains("infer_scheduler_pipeline_snapshot_microseconds{model=\"Qwen3-4B\",} 33")
    );
    assert!(
        rendered
            .contains("infer_scheduler_pipeline_cpu_plan_microseconds{model=\"Qwen3-4B\",} 44")
    );
    assert!(rendered.contains(
        "infer_scheduler_pipeline_gpu_completion_wait_microseconds{model=\"Qwen3-4B\",} 55"
    ));
    assert!(
        rendered.contains(
            "infer_scheduler_pipeline_gpu_command_queue_depth{model=\"Qwen3-4B\",} 1"
        )
    );
    assert!(rendered.contains(
        "infer_scheduler_pipeline_cpu_plan_total{model=\"Qwen3-4B\",outcome=\"accept\",} 1"
    ));
    assert!(rendered.contains(
        "infer_scheduler_pipeline_cpu_plan_total{model=\"Qwen3-4B\",outcome=\"stale\",} 1"
    ));
    assert!(rendered.contains("infer_runtime_topology_numa_nodes{model=\"Qwen3-4B\",} 1"));
    assert!(rendered.contains("infer_runtime_worker_affinity_applied{model=\"Qwen3-4B\",} 1"));
    assert!(
        rendered.contains(
            "infer_runtime_numastat_pages{model=\"Qwen3-4B\",placement=\"local\",} 7"
        )
    );
    assert!(rendered.contains(
        "infer_runtime_h2d_latency_microseconds{model=\"Qwen3-4B\",stat=\"max\",} 99"
    ));
    assert!(
        rendered.contains(
            "infer_scheduler_numa_route_total{model=\"Qwen3-4B\",outcome=\"cross\",} 1"
        )
    );
    assert!(rendered.contains("infer_scheduler_numa_migration_total{model=\"Qwen3-4B\",} 1"));
    assert!(
        rendered.contains("infer_scheduler_plan_total{model=\"Qwen3-4B\",plan=\"decode\",} 1")
    );
    assert!(
        rendered.contains("infer_scheduler_plan_total{model=\"Qwen3-4B\",plan=\"mixed\",} 2")
    );
    assert!(rendered.contains(
        "infer_prefill_path_mixed_batch_total{model=\"Qwen3-4B\",outcome=\"ok_true\",} 1"
    ));
    assert!(rendered.contains(
        "infer_prefill_path_mixed_batch_total{model=\"Qwen3-4B\",outcome=\"ok_false\",} 2"
    ));
    assert!(
        rendered.contains(
            "infer_prefill_path_mixed_batch_fallback_total{model=\"Qwen3-4B\",reason=\"prefill_seq_len_mismatch\",} 1"
        )
    );
    assert!(
        rendered.contains(
            "infer_prefill_path_mixed_batch_fallback_total{model=\"Qwen3-4B\",reason=\"scheduler_pre_dispatch_fallback\",} 1"
        )
    );
    assert!(rendered.contains("infer_spec_draft_tokens_total{model=\"Qwen3-4B\",} 0"));
    assert!(rendered.contains("infer_spec_verified_tokens_total{model=\"Qwen3-4B\",} 0"));
    assert!(rendered.contains("infer_spec_accepted_tokens_total{model=\"Qwen3-4B\",} 0"));
    assert!(rendered.contains("infer_spec_sparse_view_empty_total{model=\"Qwen3-4B\",} 0"));
    assert!(rendered.contains("infer_spec_acceptance_rate{model=\"Qwen3-4B\",} 0.000000"));
    assert!(rendered.contains("infer_kv_coordinator_queue_capacity{model=\"Qwen3-4B\",} 16"));
    assert!(rendered.contains("infer_kv_fetch_queue_depth{model=\"Qwen3-4B\",} 3"));
    assert!(rendered.contains("infer_kv_fetch_waiters{model=\"Qwen3-4B\",} 5"));
    assert!(rendered.contains("infer_kv_store_queue_depth{model=\"Qwen3-4B\",} 2"));
    assert!(rendered.contains("infer_kv_store_submitted_total{model=\"Qwen3-4B\",} 7"));
    assert!(rendered.contains("infer_kv_store_completed_total{model=\"Qwen3-4B\",} 5"));
    assert!(rendered.contains("infer_kv_store_failed_total{model=\"Qwen3-4B\",} 1"));
    assert!(rendered.contains("infer_kv_store_rejected_total{model=\"Qwen3-4B\",} 2"));
    assert!(rendered.contains("infer_kv_fetch_backpressure{model=\"Qwen3-4B\",} 1"));
    assert!(rendered.contains("infer_kv_store_backpressure{model=\"Qwen3-4B\",} 0"));
    assert!(rendered.contains("infer_tier_fetch_wait_seconds{model=\"Qwen3-4B\",} 0.250000"));
    assert!(rendered.contains("infer_tier_store_wait_seconds{model=\"Qwen3-4B\",} 0.500000"));
    assert!(rendered.contains("infer_prefix_hit_rate{model=\"Qwen3-4B\",} 1.0000"));
    assert!(rendered.contains("infer_prefix_reused_tokens_total{model=\"Qwen3-4B\",} 64"));
    assert!(
        rendered.contains("infer_prefix_lookup_prompt_tokens_total{model=\"Qwen3-4B\",} 128")
    );
    assert!(rendered.contains("infer_prefix_skip_rate{model=\"Qwen3-4B\",} 0.5000"));
    assert!(rendered.contains("infer_prefix_request_hit_rate{model=\"Qwen3-4B\",} 1.0000"));
    assert!(rendered.contains("infer_prefix_request_skip_rate{model=\"Qwen3-4B\",} 0.5000"));
    assert!(rendered.contains("infer_session_affinity_hit_total{model=\"Qwen3-4B\",} 1"));
    assert!(rendered.contains("infer_session_affinity_miss_total{model=\"Qwen3-4B\",} 0"));
    assert!(
        rendered.contains(
            "infer_session_slot_pressure_evictions_hard_total{model=\"Qwen3-4B\",} 0"
        )
    );
    assert!(
        rendered.contains("infer_prefix_aware_admit_deferrals_total{model=\"Qwen3-4B\",} 1")
    );
    assert!(rendered.contains("infer_matched_prefix_tokens{model=\"Qwen3-4B\",} 64"));
    assert!(rendered.contains("infer_resume_prefill_tokens{model=\"Qwen3-4B\",} 64"));
    assert!(
        rendered.contains("infer_tier_fetch_staged_host_blocks_total{model=\"Qwen3-4B\",} 2")
    );
    assert!(
        rendered.contains("infer_tier_fetch_staged_disk_blocks_total{model=\"Qwen3-4B\",} 3")
    );
    assert!(
        rendered.contains("infer_tier_fetch_staged_remote_blocks_total{model=\"Qwen3-4B\",} 4")
    );
    assert!(rendered.contains("infer_tier_fetch_promoted_blocks_total{model=\"Qwen3-4B\",} 6"));
    assert!(rendered.contains("infer_tier_fetch_fallback_total{model=\"Qwen3-4B\",} 1"));
    assert!(rendered.contains("infer_tier_fetch_recall_rate{model=\"Qwen3-4B\",} 0.6667"));
    assert!(rendered.contains("infer_metal_decode_batches_total{model=\"Qwen3-4B\",} 1"));
    assert!(rendered.contains("infer_metal_decode_batched_rows_total{model=\"Qwen3-4B\",} 3"));
    assert!(rendered.contains("infer_metal_decode_scalar_rows_total{model=\"Qwen3-4B\",} 1"));
    assert!(
        rendered
            .contains("infer_metal_decode_batch_fallback_rows_total{model=\"Qwen3-4B\",} 2")
    );
    assert!(
        rendered
            .contains("infer_metal_qwen35_packed_decode_batches_total{model=\"Qwen3-4B\",} 1")
    );
    assert!(
        rendered.contains("infer_metal_qwen35_packed_decode_rows_total{model=\"Qwen3-4B\",} 3")
    );
    assert!(rendered.contains("infer_memory_active_bytes{model=\"Qwen3-4B\",} 1234"));
    assert!(rendered.contains("infer_queue_wait_seconds_count"));
    assert!(rendered.contains("infer_active_ttft_seconds_count"));
    assert!(rendered.contains("infer_ttft_seconds_count"));
    assert!(rendered.contains("infer_tpot_seconds_count"));
    assert!(rendered.contains("infer_service_seconds_count"));
    assert!(rendered.contains("infer_e2e_seconds_count"));
    assert!(rendered.contains("infer_scheduler_step_seconds_count"));
    assert!(rendered.contains("infer_spec_step_latency_us_count{model=\"Qwen3-4B\",} 0"));
    assert!(rendered.contains("infer_kv_gpu_blocks_free{model=\"Qwen3-4B\",} 100"));
    assert!(rendered.contains("infer_kv_gpu_blocks_total{model=\"Qwen3-4B\",} 200"));
}

#[test]
fn server_metrics_render_summary() {
    let mut m = ServerMetrics::new("Qwen3-8B");
    m.set_kv_coordinator(16, 0, 0, 0, false, false, 3, 2, 1, 4);
    m.record_request_cache(
        Some(&SessionId::named("w3-warm-000")),
        32,
        128,
        96,
    );
    m.record_tier_fetch_plan(1, 2, 0);
    m.record_tier_fetch_promoted(2);
    m.record_tier_fetch_fallback();
    m.record_session_slot_pressure_evictions_hard(3);
    m.record_prefix_aware_admit_deferral();
    m.record_metal_decode_batch(4);
    m.record_metal_decode_scalar_row();
    m.record_metal_decode_batch_fallback(3);
    m.record_metal_qwen35_packed_decode_batch(4);
    m.set_scheduler_step_phase_us(11, 22, 33, 44, 110);
    m.set_scheduler_loop_phase_us(55, 165);
    m.set_preprocess_stage(1, 7, 8);
    m.set_scheduler_pipeline_us(9, 10, 11, 1);
    m.record_scheduler_cpu_plan_accept();
    m.record_scheduler_plan(SchedulerPlanLabel::Prefill);
    m.record_scheduler_plan(SchedulerPlanLabel::Split);
    m.record_scheduler_plan(SchedulerPlanLabel::Mixed);
    m.record_scheduler_plan(SchedulerPlanLabel::Mixed);
    m.record_prefill_path_mixed_ok_true();
    m.record_prefill_path_mixed_ok_false("prefill_seq_len_mismatch");
    m.record_prefill_path_mixed_ok_false("scheduler_pre_dispatch_fallback");
    let s = m.render_summary(0);
    assert!(s.contains("requests=0"));
    assert!(s.contains("active=0"));
    assert!(s.contains("scheduled=0"));
    assert!(s.contains(
        "step_phase_us=adm:11,prefill:22,decode:33,emit:44,total:110,cleanup:55,loop_total:165"
    ));
    assert!(
        s.contains("preprocess=depth:1,wait_us:7,tokenize_us:8 pipeline=snapshot_us:9,cpu_plan_us:10,gpu_wait_us:11,gpu_q:1,plan_accept:1,plan_stale:0")
    );
    assert!(s.contains("plan_label=idle:0,decode:0,prefill:1,split:1,mixed:2"));
    assert!(s.contains(
        "prefill_path=ok_true:1,ok_false:2,prefill_seq_len_mismatch:1,scheduler_pre_dispatch_fallback:1"
    ));
    assert!(
        s.contains(
            "spec=draft:0,verified:0,accepted:0,empty_sparse_views:0,accept_rate:0.0%,step_latency_count:0"
        )
    );
    assert!(s.contains("queue_p50="));
    assert!(s.contains("prefix_hit_rate=100.0%"));
    assert!(s.contains("prefix_skip_rate=25.0%"));
    assert!(s.contains("prefix_request_hit_rate=100.0%"));
    assert!(s.contains("prefix_request_skip_rate=25.0%"));
    assert!(s.contains("session_affinity_hit=1"));
    assert!(s.contains("session_affinity_miss=0"));
    assert!(s.contains("session_slot_pressure_evictions_hard=3"));
    assert!(s.contains("prefix_aware_admit_deferrals=1"));
    assert!(s.contains("matched_prefix_tokens=32"));
    assert!(s.contains("resume_prefill_tokens=96"));
    assert!(s.contains("tier_recall=66.7%"));
    assert!(s.contains("tier_src=h:1/d:2/r:0"));
    assert!(s.contains("tier_promoted=2"));
    assert!(s.contains("tier_fallback=1"));
    assert!(s.contains("metal_decode=batch:1/4,scalar:1,fallback:3,qwen35_packed:1/4"));
    assert!(s.contains("kv_store=sub:3,done:2,fail:1,rej:4"));
}

#[test]
fn server_metrics_render_stats_json_agent_cache_fields() {
    let mut m = ServerMetrics::new("Qwen3-4B");
    m.set_model_arch(ModelArchSummary {
        arch: "Qwen3".to_string(),
        hidden_size: 2560,
        vocab_size: 151_936,
        num_hidden_layers: 36,
        num_kv_layers: 36,
        num_kv_heads: 8,
        num_q_heads: 32,
        head_dim: 128,
        kv_cache_bytes_per_token: 147_456,
    });
    m.record_request_cache(
        Some(&SessionId::named("w3-warm-000")),
        64,
        128,
        64,
    );
    m.record_prefill_path_mixed_ok_true();
    m.record_prefill_path_mixed_ok_false("prefill_seq_len_mismatch");
    m.record_prefill_path_mixed_ok_false("scheduler_pre_dispatch_fallback");
    m.record_prefix_aware_admit_deferral();
    m.set_preprocess_stage(3, 21, 34);
    m.set_scheduler_pipeline_us(55, 89, 144, 1);
    m.set_runtime_topology(
        &RuntimeTopology {
            numa_nodes: vec![NumaNodeTopology {
                node: 1,
                cpus: vec![2, 3],
            }],
            gpus: Vec::new(),
            nics: Vec::new(),
            fallback_cpus: vec![2, 3],
        },
        &WorkerPlacement {
            worker_id: 0,
            gpu_ordinal: 0,
            numa_node: Some(1),
            cpus: vec![2, 3],
            nics: Vec::new(),
            route_cost: 0,
        },
        &AffinityApplyResult {
            label: "test".to_string(),
            applied: true,
            requested_cpus: vec![2, 3],
            applied_threads: 1,
            failed_threads: 0,
            reason: "applied".to_string(),
        },
    );
    m.set_preprocess_topology(1, 2);
    m.set_detokenizer_topology(1, 1);
    m.observe_h2d_latency_us(123);
    m.record_scheduler_cpu_plan_accept();
    m.record_scheduler_cpu_plan_stale();

    let payload = m.render_stats_json(0);
    assert_eq!(number(&payload, &["prefix_hit_rate"]), 1.0);
    assert_eq!(number(&payload, &["prefix_skip_rate"]), 0.5);
    assert_eq!(text(&payload, &["engine_model_arch", "arch"]), "Qwen3");
    assert_eq!(count(&payload, &["engine_model_arch", "num_kv_layers"]), 36);
    assert_eq!(
        m.snapshot_engine_telemetry(0)
            .model_arch
            .as_ref()
            .map(ModelArchSummary::arch_label),
        Some("Qwen3")
    );
    assert_eq!(count(&payload, &["engine_prefill_path_stats", "ok_true_count"]), 1);
    assert_eq!(count(&payload, &["engine_prefill_path_stats", "ok_false_count"]), 2);
    assert_eq!(count(&payload, &["engine_prefill_path_stats", "ok_false_reasons", "prefill_seq_len_mismatch"]), 1);
    assert_eq!(count(&payload, &["engine_prefill_path_stats", "ok_false_reasons", "scheduler_pre_dispatch_fallback"]), 1);
    assert_eq!(count(&payload, &["preprocess", "queue_depth"]), 3);
    assert_eq!(count(&payload, &["preprocess", "wait_us"]), 21);
    assert_eq!(count(&payload, &["preprocess", "tokenize_us"]), 34);
    assert_eq!(count(&payload, &["scheduler_pipeline", "snapshot_us"]), 55);
    assert_eq!(count(&payload, &["scheduler_pipeline", "cpu_plan_us"]), 89);
    assert_eq!(count(&payload, &["scheduler_pipeline", "gpu_completion_wait_us"]), 144);
    assert_eq!(count(&payload, &["scheduler_pipeline", "gpu_command_queue_depth"]), 1);
    assert_eq!(count(&payload, &["scheduler_pipeline", "cpu_plan_accept_total"]), 1);
    assert_eq!(count(&payload, &["scheduler_pipeline", "cpu_plan_stale_total"]), 1);
    assert_eq!(count(&payload, &["runtime_topology", "worker_numa_node"]), 1);
    assert_eq!(count(&payload, &["runtime_topology", "preprocess_workers"]), 2);
    assert_eq!(count(&payload, &["runtime_topology", "h2d_latency_last_us"]), 123);
    assert_eq!(count(&payload, &["session_affinity_hit"]), 1);
    assert_eq!(count(&payload, &["session_affinity_miss"]), 0);
    assert_eq!(count(&payload, &["session_slot_pressure_evictions_hard"]), 0);
    assert_eq!(count(&payload, &["prefix_aware_admit_deferrals"]), 1);
    assert_eq!(count(&payload, &["matched_prefix_tokens"]), 64);
    assert_eq!(count(&payload, &["resume_prefill_tokens"]), 64);
    assert_eq!(text(&payload, &["last_request", "session_id"]), "w3-warm-000");
    assert_eq!(number(&payload, &["last_request", "prefix_skip_rate"]), 0.5);
    assert_eq!(number(&payload, &["sessions", "w3-warm-000", "prefix_hit_rate"]), 1.0);
    assert_eq!(number(&payload, &["sessions", "w3-warm-000", "prefix_skip_rate"]), 0.5);
}

#[test]
fn buckets_count_everything_below_their_bound() {
    let mut h = Histogram::new(&vec![10, 20, 30], 1);
    for v in [5, 10, 11, 30, 31] {
        h.observe(v);
    }
    let rendered = h.render("x", "");
    assert!(rendered.contains("x_bucket{le=\"10.000\"} 2"), "{rendered}");
    assert!(rendered.contains("x_bucket{le=\"20.000\"} 3"));
    assert!(rendered.contains("x_bucket{le=\"30.000\"} 4"));
    assert!(rendered.contains("x_bucket{le=\"+Inf\"} 5"));
    assert!(rendered.contains("x_count{} 5"));
    assert_eq!(value(h.sum()), 87.0);
    let p = |n, d| h.percentile(Double::ratio(n, d)).map(value);
    assert_eq!((p(1, 5), p(2, 5), p(3, 5), p(4, 5)), (Some(10.0), Some(10.0), Some(20.0), Some(30.0)));
}

#[test]
fn completed_requests_fill_the_histograms() {
    let mut m = ServerMetrics::new("m");
    m.record_request_completed_detailed(10, 5, 100, 200, 300, 40, 500);
    m.record_request_completed_detailed(10, 1, 100, 200, 600, 40, 500);
    m.record_request_failed();
    assert_eq!(m.requests_total(), 2);
    assert_eq!((m.tokens_prompt_total(), m.tokens_generated_total()), (20, 6));
    let h = &m.histograms;
    assert_eq!((h.ttft.count(), h.tpot.count(), h.service.count()), (2, 1, 2));
    assert_eq!(value(h.service.sum()), 0.0002);
    let t = m.snapshot_engine_telemetry(7);
    assert_eq!(t.timestamp_ms, 7);
    assert_eq!(t.ttft_us.map(value), Some(1000.0));
    assert!(t.spec_acceptance_rate.is_none());
}

#[test]
fn session_requests_are_hits_or_misses() {
    let mut m = ServerMetrics::new("m");
    let session = SessionId::named("s");
    m.record_request_cache(Some(&session), 4, 10, 6);
    m.record_request_cache(Some(&session), 0, 10, 10);
    m.record_request_cache(None, 50, 10, 60);
    assert_eq!((m.session_affinity_hit_total(), m.session_affinity_miss_total()), (1, 1));
    assert_eq!((m.matched_prefix_tokens(), m.resume_prefill_tokens()), (10, 10));
    assert_eq!(value(m.prefix_hit_rate()), 2.0 / 3.0);
    let payload = m.render_stats_json(0);
    assert_eq!(number(&payload, &["sessions", "s", "prefix_hit_rate"]), 0.5);
    assert_eq!(number(&payload, &["sessions", "s", "prefix_skip_rate"]), 0.2);
}

#[test]
fn fallbacks_add_up() {
    let mut m = ServerMetrics::new("m");
    for reason in ["lora_enabled", "lora_enabled", "empty_decode_batch", "unheard of"] {
        m.record_prefill_path_mixed_ok_false(reason);
    }
    let stats = m.prefill_path_stats();
    assert_eq!(stats.ok_false_count, 4);
    assert_eq!(
        m.mixed_batch_fallback_count(
            MixedBatchFallbackReason::LoraEnabled
        ),
        2
    );
    assert_eq!(
        m.mixed_batch_fallback_count(
            MixedBatchFallbackReason::UnsupportedModel
        ),
        1
    );
}

#[test]
fn pages_are_local_or_remote() {
    let mut m = ServerMetrics::new("m");
    let stats = NumaMemoryStats { total_pages: 10, per_node_pages: vec![(0, 3), (1, 5), (2, 2)] };
    m.set_runtime_numastat_for_nodes(&stats, &[Some(0), None, Some(2)]);
    let t = m.runtime_topology_snapshot();
    assert_eq!((t.numastat_local_pages, t.numastat_remote_pages), (5, 5));
    m.set_runtime_numastat(&stats, None);
    let t = m.runtime_topology_snapshot();
    assert_eq!((t.numastat_local_pages, t.numastat_remote_pages), (0, 10));
}

#[test]
fn rates_are_unknown_before_their_first_sample() {
    let mut m = ServerMetrics::new("m");
    assert!(m.dflash_acceptance_rate_opt().is_none());
    assert_eq!(m.scheduler_step_phase_us(), None);
    assert_eq!(m.scheduler_loop_phase_us(), None);
    m.record_dflash_block(3, 8);
    assert!(m.dflash_acceptance_rate_opt().is_some());
    m.set_scheduler_step_phase_us(1, 2, 3, 4, 10);
    assert_eq!(m.scheduler_step_phase_us(), Some((1, 2, 3, 4, 10)));
    m.record_spec_step(4, 4, 3, 120);
    assert_eq!((m.spec_draft_tokens_total(), m.spec_accepted_tokens_total()), (4, 3));
    assert_eq!(value(m.spec_acceptance_rate()), 0.75);
    assert_eq!(m.spec_step_latency_count(), 1);
    m.set_kv_gpu_blocks(1, 4);
    assert_eq!(value(m.kv_gpu_utilization()), 0.75);
}

#[test]
fn prefix_lookups_keep_their_last_detail() {
    let mut m = ServerMetrics::new("m");
    m.record_prefix_lookup(5, 20);
    assert_eq!(value(m.prefix_skip_rate()), 0.25);
    m.record_prefix_lookup_detail(20, 10, 8, 33, true, false, true, false, true);
    assert_eq!((m.prefix_lookup_latency_us(), m.prefix_lookup_reusable_tokens()), (33, 8));
    assert!(m.prefix_lookup_ready_on_gpu() && m.prefix_lookup_staged());
    assert!(m.prefix_lookup_recompute() && !m.prefix_lookup_direct_gpu_attach());
    m.record_prefix_lookup_prefetch_queued();
    assert!(m.prefix_lookup_prefetch());
}

#[test]
fn stages_and_plans_are_read_back() {
    let mut m = ServerMetrics::new("m");
    m.set_preprocess_stage(1, 2, 3);
    assert_eq!(m.preprocess_stage_us(), (1, 2, 3));
    m.set_scheduler_pipeline_us(4, 5, 6, 7);
    assert_eq!(m.scheduler_pipeline_us(), (4, 5, 6, 7));
    assert_eq!(m.scheduler_pipeline_plan_totals(), (0, 0));
    assert_eq!(m.scheduler_plan_totals(), (0, 0, 0, 0, 0));
    m.record_spec_sparse_view_empty(2);
    m.record_spec_sparse_view_empty(3);
    assert!(m.render_summary(0).contains("empty_sparse_views:5"));
}

#[test]
fn slower_tiers_are_listed_once_something_was_staged() {
    let mut m = ServerMetrics::new("m");
    let rates = |m: &ServerMetrics| {
        let t = m.snapshot_engine_telemetry_with(None, None, None, 0);
        t.kv_tier_hit_rates.into_iter().map(|(tier, rate)| (tier, value(rate))).collect::<Vec<_>>()
    };
    assert_eq!(rates(&m), vec![("T0", 0.0)]);
    m.record_tier_fetch_plan(1, 2, 0);
    assert_eq!(rates(&m), vec![("T0", 0.0), ("T1", 1.0 / 3.0), ("T2", 2.0 / 3.0)]);
    m.record_tier_fetch_plan(0, 0, 1);
    m.record_prefix_lookup(4, 8);
    assert_eq!(rates(&m), vec![("T0", 1.0), ("T1", 0.25), ("T2", 0.5), ("T3", 0.25)]);
    let mut remote = ServerMetrics::new("m");
    remote.record_tier_fetch_plan(0, 0, 5);
    assert_eq!(rates(&remote), vec![("T0", 0.0), ("T3", 1.0)]);
}

#[test]
fn repeated_bounds_are_kept_once() {
    let h = Histogram::new(&vec![500_000, 100_000, 500_000], 1_000_000);
    assert_eq!(
        h.render("h", ""),
        "h_bucket{le=\"0.100\"} 0\nh_bucket{le=\"0.500\"} 0\nh_bucket{le=\"+Inf\"} 0\n\
         h_sum{} 0.000000\nh_count{} 0\n"
    );
}

#[test]
fn quantiles_are_the_smallest_reaching_bounds() {
    let mut h = Histogram::new(&vec![30, 10, 20, 10], 1);
    for v in [5, 12, 13, 25, 99, 99] {
        h.observe(v);
    }
    let p = |n| h.percentile(Double::ratio(n, 60)).map(value).unwrap();
    let all = (0..=60).map(p).collect::<Vec<_>>();
    assert!(all.windows(2).all(|pair| pair[0] <= pair[1]));
    assert_eq!([0, 10, 11, 30].map(p), [10.0, 10.0, 20.0, 20.0]);
    assert_eq!([31, 40, 41, 60].map(p), [30.0; 4]);
    assert!(Histogram::new(&vec![], 1).percentile(Double::ratio(1, 2)).is_none());
}

#[test]
fn observations_raise_every_bucket_that_reaches_them() {
    let mut h = Histogram::new(&vec![10, 20], 1);
    let counts = |h: &Histogram| {
        let lines = h.render("x", "");
        lines.lines().map(|l| l.rsplit(' ').next().unwrap().to_string()).collect::<Vec<_>>()
    };
    assert_eq!(counts(&h), ["0", "0", "0", "0.000000", "0"]);
    h.observe(10);
    assert_eq!(counts(&h), ["1", "1", "1", "10.000000", "1"]);
    h.observe(11);
    assert_eq!(counts(&h), ["1", "2", "2", "21.000000", "2"]);
    h.observe(21);
    assert_eq!(counts(&h), ["1", "2", "3", "42.000000", "3"]);
}

#[test]
fn published_rates_are_fractions() {
    let mut m = ServerMetrics::new("m");
    let rates = |m: &ServerMetrics| {
        [
            m.prefix_hit_rate(),
            m.prefix_skip_rate(),
            m.prefix_request_hit_rate(),
            m.prefix_request_skip_rate(),
            m.kv_gpu_utilization(),
            m.dflash_acceptance_rate(),
            m.spec_acceptance_rate(),
        ]
        .map(value)
    };
    assert_eq!(rates(&m), [0.0; 7]);
    m.record_prefix_lookup(50, 10);
    m.record_prefix_lookup(0, 7);
    m.record_prefix_lookup(3, 4);
    m.set_kv_gpu_blocks(0, 3);
    m.record_dflash_block(9, 9);
    m.record_spec_step(7, 7, 7, 1);
    assert!(rates(&m).iter().all(|rate| (0.0..=1.0).contains(rate)));
    assert_eq!(value(m.kv_gpu_utilization()), 1.0);
    assert_eq!(value(m.spec_acceptance_rate()), 1.0);
    m.set_kv_gpu_blocks(3, 3);
    assert_eq!(value(m.kv_gpu_utilization()), 0.0);
    m.set_kv_gpu_blocks(9, 0);
    assert_eq!(value(m.kv_gpu_utilization()), 0.0);
}

#[test]
fn telemetry_limits_its_counts() {
    let mut m = ServerMetrics::new("m");
    m.set_active(5_000_000_000);
    m.set_waiting(12);
    m.set_kv_gpu_blocks(1, 2);
    let t = m.snapshot_engine_telemetry_with(Some(Double::of_integer(3)), None, None, 9);
    assert_eq!((t.active_requests, t.queue_depth), (u32::MAX, 12));
    assert_eq!(value(t.batch_occupancy), 0.5);
    assert_eq!((t.ttft_us.map(value), t.itl_p50_us.map(value)), (Some(3.0), None));
    assert!(t.spec_acceptance_rate.is_none());
    m.record_spec_step(4, 2, 1, 1);
    let t = m.snapshot_engine_telemetry_with(None, None, None, 9);
    assert_eq!(t.spec_acceptance_rate.map(value), Some(0.5));
}

#[test]
fn session_totals_do_not_depend_on_the_order() {
    let log = [(4, 10, 6), (0, 7, 7), (9, 9, 0), (0, 1, 1)];
    let run = |order: &[usize]| {
        let mut s = SessionCacheStats::default();
        for i in order {
            let (matched, prompt, resume) = log[*i];
            s.observe(matched, prompt, resume);
        }
        s
    };
    let totals = |s: &SessionCacheStats| {
        [
            s.prefix_lookups_total,
            s.prefix_hits_total,
            s.session_affinity_hit,
            s.session_affinity_miss,
            s.prefix_reused_tokens_total,
            s.matched_prefix_tokens_total,
            s.prefix_lookup_prompt_tokens_total,
            s.resume_prefill_tokens_total,
        ]
    };
    let forth = run(&[0, 1, 2, 3]);
    assert_eq!(totals(&forth), [4, 2, 2, 2, 13, 13, 27, 14]);
    assert_eq!(totals(&run(&[3, 2, 1, 0])), totals(&forth));
    assert_eq!(totals(&run(&[2, 0, 3, 1])), totals(&forth));
    assert_eq!((forth.last_matched_prefix_tokens, forth.last_resume_prefill_tokens), (0, 1));
}

#[test]
fn fallback_runs_are_the_sum_of_their_reasons() {
    let mut m = ServerMetrics::new("m");
    m.record_prefill_path_mixed_ok_true();
    let labels = ["lora_enabled", "", "empty_prefill_tokens", "lora_enabled", "no such reason"];
    for label in labels {
        m.record_prefill_path_mixed_ok_false(label);
    }
    let stats = m.prefill_path_stats();
    assert_eq!((stats.ok_true_count, stats.ok_false_count), (1, 5));
    let count = |reason| m.mixed_batch_fallback_count(reason);
    assert_eq!(count(MixedBatchFallbackReason::LoraEnabled), 2);
    assert_eq!(count(MixedBatchFallbackReason::EmptyPrefillTokens), 1);
    assert_eq!(count(MixedBatchFallbackReason::UnsupportedModel), 2);
    assert_eq!(count(MixedBatchFallbackReason::EmptyDecodeBatch), 0);
}

#[test]
fn every_type_is_stated_on_one_line() {
    let mut m = ServerMetrics::new("Qwen3-4B");
    let types = |text: &str| {
        let lines = text.lines().filter_map(|l| l.strip_prefix("# TYPE "));
        lines.map(|l| l.split(' ').next().unwrap().to_string()).collect::<Vec<_>>()
    };
    let text = m.render_prometheus();
    let mut names = types(&text);
    assert_eq!(names.len(), 115);
    names.sort();
    names.dedup();
    assert_eq!(names.len(), 115);
    assert!(text.contains("# TYPE infer_requests_total counter\n"));
    assert!(text.contains("# TYPE infer_ttft_seconds histogram\n"));
    assert_eq!(m.render_prometheus(), text);
    m.set_scheduler_step_phase_us(1, 2, 3, 4, 10);
    let mut names = types(&m.render_prometheus());
    names.sort();
    names.dedup();
    assert_eq!(names.len(), 122);
}
