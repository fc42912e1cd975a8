//! Layers, attention, incremental state, prefill, decoding and pools.

use infer::model::deepseek::attention::{
    compressor_forward_gpu_temp, finish_attention_gpu, forward_swa_attention_gpu,
    update_compressor_gpu_cache, AttentionConfig, AttentionError, AttentionStep, CompressorRequest,
    DeepseekV4Attention, DeepseekV4Compressor, DeepseekV4Indexer, RopeBase, StatesUse,
};
use infer::model::deepseek::batch_decode::{
    DecodeBufferError, DeepseekBatchDecodeBuffers, PoolView,
};
use infer::model::deepseek::config::{
    AttentionMode, AttentionSummary, DeepseekRuntimeConfig, DeepseekSpec, ExpertGroup, TpConfig,
};
use infer::model::deepseek::device::{HiddenShape, LinearDispatchPhase, MatrixShape, WeightFormat};
use infer::model::deepseek::forward::{
    bind_pool_views, DecodeBatch, DecodeBatchError, DecodeStep,
};
use infer::model::deepseek::hyper::{
    gen_mhc_params, gen_mhc_params_cached, hc_post_to_stream_into, hc_pre_from_stream_into,
    head_hidden_from_stream, initial_hc_stream_from_embeddings_into, DeepseekV4HyperConnection,
    HcError,
};
use infer::model::deepseek::layer::{
    forward_ffn_layer_stream, forward_ffn_layer_stream_with_scratch,
    forward_transformer_layer_stream, forward_transformer_layer_stream_incremental_into,
    plan_ffn_output, DeepseekLayer, FfnBuffers, LayerError, MhcUse, MoeContext, MoeStart,
};
use infer::model::deepseek::mla::{
    csa_selected_blocks_gpu, forward_sliding_window_attention,
    forward_sliding_window_attention_incremental, AttentionPlan, Compression,
};
use infer::model::deepseek::mlp::{
    DeepseekV4Expert, DeepseekV4MoeBlock, MoeRoutingKind, RouterConfig,
};
use infer::model::deepseek::pass::{PassAction, PassRequest, PassState};
use infer::model::deepseek::prefill::{LogitsSwitches, PrefillStep};
use infer::model::deepseek::scratch::{
    ensure_dispatch_payload_scratch, ensure_hidden_scratch, ensure_local_route_scratch,
    ensure_mhc_scratch, ensure_recv_route_scratch, ensure_route_logits_scratch,
    ensure_send_route_scratch, put_hidden_scratch, take_hidden_scratch, DeepGemmError,
    DeepseekMoeRuntimeCache,
};
use infer::model::deepseek::state::{
    CompressorCacheError, DeepseekAttentionRuntimeCache, DeepseekGpuCompressorRuntimeCache,
    DeepseekIncrementalState, DeepseekLayerRuntimeCache, DeepseekState,
};
use infer::model::deepseek::switches::{PortError, SwitchError};
use infer::model::deepseek::weights::{
    choose_logits_route, layer_communicator_from_config, DeepseekModel, ExpertExchange,
    IncrementalStart, LogitsRoute, LogitsStart, ModelError, RankGroup,
};
use infer::model::generation_state::{KvAction, LogitsSource};
use infer::model::requests::{
    KVFormat, MixedBatchFallbackReason, MixedBatchOutcome, SchedulerRuntimeWorkspaceBudget,
};

fn hidden(hidden_dim: usize, seq_len: usize) -> HiddenShape {
    HiddenShape { hidden_dim, seq_len }
}

fn matrix(rows: usize, cols: usize) -> MatrixShape {
    MatrixShape {
        format: WeightFormat::Dense,
        rows,
        cols,
        scale_rows: 0,
        scale_cols: 0,
        has_values: true,
        has_scales: false,
    }
}

fn connection() -> DeepseekV4HyperConnection {
    DeepseekV4HyperConnection { base: 8, mix_fn: matrix(8, 16), scale: 3 }
}

fn compressor(width: usize) -> DeepseekV4Compressor {
    DeepseekV4Compressor {
        wkv: matrix(width, 8),
        wgate: matrix(width, 8),
        ape: matrix(4, width),
        norm: 4,
    }
}

fn attention() -> DeepseekV4Attention {
    DeepseekV4Attention {
        wq_a: matrix(6, 8),
        q_norm: 6,
        wq_b: matrix(8, 6),
        wkv: matrix(4, 8),
        kv_norm: 4,
        wo_a: matrix(5, 8),
        wo_b: matrix(8, 5),
        attn_sink: 2,
        compressor: Some(compressor(8)),
        indexer: Some(DeepseekV4Indexer {
            wq_b: matrix(6, 6),
            weights_proj: matrix(2, 8),
            compressor: compressor(6),
        }),
    }
}

fn attention_config() -> AttentionConfig {
    AttentionConfig {
        hidden_size: 8,
        head_dim: 4,
        sliding_window: 3,
        rope_dim: 2,
        tp_rank: 0,
        max_positions: 64,
        original_positions: 32,
        index_head_dim: 3,
        index_topk: 2,
    }
}

fn step(token_count: usize) -> AttentionStep {
    AttentionStep {
        token_count,
        start_pos: 0,
        local_heads: 2,
        local_width: 8,
        head_dim: 4,
        ratio: 0,
        mode: AttentionMode::SlidingWindow,
    }
}

fn expert() -> DeepseekV4Expert {
    DeepseekV4Expert { w1: matrix(6, 8), w2: matrix(8, 6), w3: matrix(6, 8) }
}

fn layer() -> DeepseekLayer {
    DeepseekLayer {
        attn_norm: 8,
        hc_attn: connection(),
        attention: attention(),
        ffn_norm: 8,
        hc_ffn: connection(),
        ffn: DeepseekV4MoeBlock {
            gate_weight: matrix(2, 8),
            gate_bias: Some(2),
            gate_tid2eid: None,
            experts: vec![expert(), expert()],
            shared_experts: Some(expert()),
        },
    }
}

fn spec() -> DeepseekSpec {
    DeepseekSpec {
        vocab_size: 32,
        hidden_size: 8,
        num_hidden_layers: 2,
        num_attention_heads: 2,
        num_key_value_heads: 1,
        head_dim: 4,
        o_groups: 1,
        qk_rope_head_dim: 2,
        n_routed_experts: 2,
        num_experts_per_tok: 1,
        index_n_heads: 2,
        index_head_dim: 3,
        index_topk: 2,
        sliding_window: 3,
        compress_ratios: vec![0, 4, 128],
        attention_modes: vec![
            AttentionMode::SlidingWindow,
            AttentionMode::CompressedSparse,
            AttentionMode::HybridCompressed,
        ],
        attention_summary: AttentionSummary {
            sliding_window_layers: 1,
            csa_layers: 1,
            hca_layers: 1,
        },
        hc_mult: 2,
        hc_sinkhorn_iters: 3,
        max_position_embeddings: 64,
        original_max_position_embeddings: 32,
        eos_token_id: Some(9),
    }
}

fn config() -> DeepseekRuntimeConfig {
    DeepseekRuntimeConfig::from_spec(spec())
}

fn model() -> DeepseekModel {
    let mut model = DeepseekModel::from_config(config()).ok().unwrap();
    model.attach_top_level(matrix(32, 8), matrix(32, 8), 8).unwrap();
    model.attach_layers(connection(), vec![layer(), layer()]);
    model
}

fn state() -> DeepseekState {
    DeepseekState::new(2, 1)
}

fn context<'a>(backend: Option<&'a str>, world_size: usize) -> MoeContext<'a> {
    MoeContext {
        router: RouterConfig {
            n_routed_experts: 2,
            num_experts_per_tok: 1,
            scoring_func: "softmax",
            routing_kind: MoeRoutingKind::LearnedBias,
        },
        ep: ExpertGroup {
            rank: 0,
            world_size,
            num_experts: 2,
            experts_per_rank: 2,
            local_expert_start: 0,
        },
        backend,
        can_dispatch: false,
    }
}

const NO_SWITCHES: LogitsSwitches<'static> =
    LogitsSwitches { incremental: None, contextual: None, full_layers: None };

#[test]
fn windows_are_kept_in_a_cache() {
    let (c, a) = (attention_config(), attention());
    let mut none = None;
    let plan = forward_swa_attention_gpu(&c, &step(5), &a, hidden(8, 5), hidden(4, 5), &mut none)
        .unwrap();
    assert_eq!((plan.window.len, plan.window.kept, plan.window.allocate), (12, false, true));
    assert_eq!((plan.kernel.sliding_window, plan.kernel.mode, plan.kernel.ratio), (3, 0, 0));
    assert_eq!(plan.prepare.rope_base, RopeBase::Plain);
    assert_eq!((plan.out, plan.all_reduce), (hidden(8, 5), hidden(8, 5)));
    assert!(none.is_none());

    let mut cache = Some(DeepseekAttentionRuntimeCache::default());
    let mut run = |t| {
        forward_swa_attention_gpu(&c, &step(t), &a, hidden(8, t), hidden(4, t), &mut cache).unwrap()
    };
    assert!(run(2).window.allocate);
    assert!(!run(2).window.allocate);
    assert_eq!(cache.unwrap().window_gpu_len, 12);
}

#[test]
fn faulty_attention_steps_are_refused() {
    let (c, a) = (attention_config(), attention());
    let run = |c: &AttentionConfig, a: &DeepseekV4Attention, q, kv| {
        forward_swa_attention_gpu(c, &step(5), a, q, kv, &mut None).err()
    };
    assert_eq!(run(&c, &a, hidden(8, 4), hidden(4, 5)), Some(AttentionError::QueryShape));
    assert_eq!(run(&c, &a, hidden(8, 5), hidden(5, 5)), Some(AttentionError::KeyShape));
    let blind = AttentionConfig { sliding_window: 0, ..c };
    assert_eq!(run(&blind, &a, hidden(8, 5), hidden(4, 5)), Some(AttentionError::ZeroWindow));
    let rotated = AttentionConfig { rope_dim: 5, ..c };
    assert_eq!(run(&rotated, &a, hidden(8, 5), hidden(4, 5)), Some(AttentionError::RopeDim));
    let second = AttentionConfig { tp_rank: 1, ..c };
    assert_eq!(run(&second, &a, hidden(8, 5), hidden(4, 5)), Some(AttentionError::SinkLength));
}

#[test]
fn single_tokens_reuse_their_buffers() {
    let (c, a) = (attention_config(), attention());
    let mut cache = Some(DeepseekAttentionRuntimeCache::default());
    let one = AttentionStep { ratio: 128, mode: AttentionMode::HybridCompressed, ..step(1) };
    let mut run = || {
        finish_attention_gpu(&c, &one, &a, hidden(8, 1), hidden(4, 1), 7, &mut cache).unwrap()
    };
    let first = run();
    assert_eq!(first.phase, Some(LinearDispatchPhase::Decode));
    assert_eq!(first.all_reduce, hidden(8, 1));
    assert_eq!(
        (first.kernel.mode, first.kernel.ratio, first.kernel.compressed_rows, first.kernel.index_topk),
        (2, 128, 7, 2)
    );
    assert_eq!(first.prepare.rope_base, RopeBase::Compressed);
    assert_eq!(first.prepare.original_positions, 32);
    assert!(matches!(first.queries, StatesUse::Kept { allocate: true, .. }));
    assert!(matches!(run().queries, StatesUse::Kept { allocate: false, .. }));
}

#[test]
fn compressors_keep_incomplete_blocks() {
    let c = attention_config();
    let request = CompressorRequest {
        head_dim: 4,
        ratio: 4,
        overlap: true,
        start_pos: 0,
        apply_rope: true,
        capacity_rows: 3,
    };
    let mut cache = DeepseekGpuCompressorRuntimeCache::default();
    let first =
        update_compressor_gpu_cache(&c, &compressor(8), &request, 6, &mut cache).unwrap();
    assert_eq!((first.completed, cache.compressed_rows, cache.pending_len), (1, 1, 2));
    assert_eq!((first.args.width, first.args.overlap, first.args.has_previous), (8, 1, 0));
    assert!(first.allocation.pending && first.allocation.compressed);
    let second =
        update_compressor_gpu_cache(&c, &compressor(8), &request, 2, &mut cache).unwrap();
    assert_eq!((second.completed, cache.compressed_rows, cache.pending_len), (1, 2, 0));
    assert_eq!((second.args.pending_len, second.args.has_previous), (2, 1));
    assert!(!second.allocation.pending && !second.allocation.compressed);
    assert_eq!(
        update_compressor_gpu_cache(&c, &compressor(8), &request, 9, &mut cache),
        Err(AttentionError::CompressorCapacity)
    );
    let refused = |request: CompressorRequest, width| {
        let mut cache = DeepseekGpuCompressorRuntimeCache::default();
        update_compressor_gpu_cache(&c, &compressor(width), &request, 1, &mut cache).err()
    };
    let zero = CompressorRequest { ratio: 0, ..request };
    assert_eq!(refused(zero, 8), Some(AttentionError::ZeroRatio));
    assert_eq!(refused(request, 4), Some(AttentionError::CompressorRows));
    let roomy = CompressorRequest { capacity_rows: usize::MAX, ..request };
    assert_eq!(
        refused(roomy, 8),
        Some(AttentionError::CompressorCache(CompressorCacheError::Compressed))
    );
}

#[test]
fn only_complete_blocks_are_compressed() {
    let c = attention_config();
    let request = CompressorRequest {
        head_dim: 4,
        ratio: 4,
        overlap: true,
        start_pos: 0,
        apply_rope: true,
        capacity_rows: 0,
    };
    let rows = |seq_len| {
        compressor_forward_gpu_temp(&c, &compressor(8), &request, seq_len).unwrap().rows.seq_len
    };
    assert_eq!((rows(3), rows(4), rows(7), rows(8)), (0, 1, 1, 2));
}

fn one_head(compressor: Option<DeepseekV4Compressor>) -> DeepseekV4Attention {
    DeepseekV4Attention {
        wq_a: matrix(1, 2),
        q_norm: 1,
        wq_b: matrix(1, 1),
        wkv: matrix(1, 2),
        kv_norm: 1,
        wo_a: matrix(1, 1),
        wo_b: matrix(2, 1),
        attn_sink: 1,
        compressor,
        indexer: None,
    }
}

fn one_head_config() -> AttentionConfig {
    AttentionConfig {
        hidden_size: 2,
        head_dim: 1,
        sliding_window: 4,
        rope_dim: 1,
        tp_rank: 0,
        max_positions: 16,
        original_positions: 16,
        index_head_dim: 1,
        index_topk: 1,
    }
}

#[test]
fn compressed_attention_short_sequence_uses_local_window_only() {
    let c = one_head_config();
    let run = |tokens, mode| {
        forward_sliding_window_attention(&c, &one_head(None), hidden(2, tokens), Some(4), mode)
    };
    for mode in [AttentionMode::CompressedSparse, AttentionMode::HybridCompressed] {
        for tokens in 1..4 {
            match run(tokens, mode).unwrap().plan {
                AttentionPlan::Window(core) => {
                    assert_eq!((core.kernel.mode, core.kernel.ratio), (0, 0));
                    assert_eq!(core.kernel.compressed_rows, 0);
                    assert_eq!(core.kernel.sliding_window, 4);
                    assert_eq!(core.prepare.rope_base, RopeBase::Plain);
                    assert_eq!((core.out, core.all_reduce), (hidden(2, tokens), hidden(2, tokens)));
                }
                _ => panic!("more than the window"),
            }
        }
        assert_eq!(run(4, mode), Err(AttentionError::MissingCompressor));
    }
}

#[test]
fn plain_compression_needs_no_index_heads() {
    let c = AttentionConfig { index_head_dim: 0, ..attention_config() };
    let run = forward_sliding_window_attention(
        &c,
        &attention(),
        hidden(8, 9),
        Some(4),
        AttentionMode::HybridCompressed,
    )
    .unwrap();
    assert!(matches!(run.plan, AttentionPlan::Compressed { selection: None, .. }));
}

#[test]
fn attention_runs_with_its_compression() {
    let (c, a) = (attention_config(), attention());
    let run = forward_sliding_window_attention(
        &c,
        &a,
        hidden(8, 9),
        Some(4),
        AttentionMode::CompressedSparse,
    )
    .unwrap();
    match &run.plan {
        AttentionPlan::Compressed { rows: Compression::Whole(rows), selection, core } => {
            assert_eq!(rows.rows, hidden(4, 2));
            assert_eq!(selection.as_ref().unwrap().choice.key_count, 2);
            assert_eq!(core.kernel.compressed_rows, 2);
        }
        _ => panic!("no compression"),
    }
    let plain = forward_sliding_window_attention(
        &c,
        &a,
        hidden(8, 9),
        Some(0),
        AttentionMode::SlidingWindow,
    )
    .unwrap();
    assert!(matches!(plain.plan, AttentionPlan::Window(_)));
    let refused = |c: &AttentionConfig, a: &DeepseekV4Attention, shape, ratio, mode| {
        forward_sliding_window_attention(c, a, shape, ratio, mode).err()
    };
    let sparse = AttentionMode::CompressedSparse;
    assert_eq!(refused(&c, &a, hidden(8, 9), None, sparse), Some(AttentionError::MissingRatio));
    assert_eq!(refused(&c, &a, hidden(7, 9), Some(4), sparse), Some(AttentionError::HiddenDim));
    let narrow = DeepseekV4Attention { wq_b: matrix(7, 6), ..a };
    assert_eq!(refused(&c, &narrow, hidden(8, 9), Some(4), sparse), Some(AttentionError::HeadWidth));
    let headless = DeepseekV4Attention { wq_b: matrix(0, 6), ..a };
    assert_eq!(refused(&c, &headless, hidden(8, 9), Some(4), sparse), Some(AttentionError::NoHeads));
    let wide = DeepseekV4Attention { wkv: matrix(5, 8), ..a };
    assert_eq!(refused(&c, &wide, hidden(8, 9), Some(4), sparse), Some(AttentionError::KvRows));
    let other = DeepseekV4Attention { wo_a: matrix(5, 9), ..a };
    assert_eq!(refused(&c, &other, hidden(8, 9), Some(4), sparse), Some(AttentionError::OutputWidth));
    let flat = AttentionConfig { head_dim: 0, ..c };
    assert_eq!(refused(&flat, &a, hidden(8, 9), Some(4), sparse), Some(AttentionError::ZeroHeadDim));
    let bare = DeepseekV4Attention { compressor: None, ..a };
    assert_eq!(
        refused(&c, &bare, hidden(8, 9), Some(4), sparse),
        Some(AttentionError::MissingCompressor)
    );
    let unindexed = DeepseekV4Attention { indexer: None, ..a };
    assert_eq!(
        refused(&c, &unindexed, hidden(8, 9), Some(4), sparse),
        Some(AttentionError::MissingIndexer)
    );
    let uneven = AttentionConfig { index_head_dim: 4, ..c };
    assert_eq!(
        csa_selected_blocks_gpu(&uneven, &a.indexer.unwrap(), &step(3), 1),
        Err(AttentionError::IndexWidth)
    );
    let lone = DeepseekV4Indexer { weights_proj: matrix(3, 8), ..a.indexer.unwrap() };
    assert_eq!(
        csa_selected_blocks_gpu(&c, &lone, &step(3), 1),
        Err(AttentionError::IndexHeads)
    );
}

#[test]
fn incremental_attention_carries_its_rows() {
    let (c, a) = (attention_config(), attention());
    let mut cache = DeepseekAttentionRuntimeCache::default();
    let mut run = |seq_len, start_pos| {
        forward_sliding_window_attention_incremental(
            &c,
            &a,
            hidden(8, seq_len),
            start_pos,
            Some(4),
            AttentionMode::CompressedSparse,
            &mut cache,
        )
        .unwrap()
        .plan
        .attended()
        .kernel
        .compressed_rows
    };
    assert_eq!(run(6, 0), 1);
    assert_eq!(run(1, 6), 1);
    assert_eq!(run(1, 7), 2);
    cache.trim_prefill_scratch();
    assert_eq!(cache.compressed_gpu.unwrap().compressed_rows, 2);
    assert!(cache.q_raw.is_none());
}

#[test]
fn hyper_connections_check_their_shapes() {
    let hc = connection();
    let stream = hidden(16, 5);
    let params = gen_mhc_params(&hc, stream, 2, 3).unwrap();
    assert_eq!((params.pre, params.post, params.comb), (10, 10, 20));
    assert_eq!((params.args.mix_dim, params.args.sinkhorn_iters), (8, 3));
    let fault = |hc: &DeepseekV4HyperConnection| gen_mhc_params(hc, stream, 2, 3).err();
    assert_eq!(
        fault(&DeepseekV4HyperConnection { mix_fn: matrix(7, 16), ..hc }),
        Some(HcError::MixShape)
    );
    assert_eq!(fault(&DeepseekV4HyperConnection { base: 7, ..hc }), Some(HcError::BaseScale));
    assert_eq!(fault(&DeepseekV4HyperConnection { scale: 2, ..hc }), Some(HcError::BaseScale));

    let mut slot = None;
    assert!(ensure_mhc_scratch(&mut slot, 16, 8, 2, 5));
    assert!(!ensure_mhc_scratch(&mut slot, 16, 8, 2, 4));
    let mut scratch = slot.unwrap();
    assert!(gen_mhc_params_cached(&hc, stream, 2, 3, &mut scratch).is_ok());
    assert_eq!(
        gen_mhc_params_cached(&hc, hidden(16, 6), 2, 3, &mut scratch),
        Err(HcError::Scratch)
    );

    let lanes = initial_hc_stream_from_embeddings_into(hidden(8, 5), 8, 2, stream).unwrap();
    assert_eq!((lanes.seq_len, lanes.hidden_size, lanes.hc_mult), (5, 8, 2));
    let initial = |e, mult, s| initial_hc_stream_from_embeddings_into(e, 8, mult, s).err();
    assert_eq!(initial(hidden(7, 5), 2, stream), Some(HcError::EmbeddingDim));
    assert_eq!(initial(hidden(8, 5), 0, stream), Some(HcError::ZeroMult));
    assert_eq!(initial(hidden(8, 5), 2, hidden(16, 4)), Some(HcError::InitialShape));

    assert!(hc_pre_from_stream_into(stream, 10, 8, 2, hidden(8, 5)).is_ok());
    let pre = |s, w, o| hc_pre_from_stream_into(s, w, 8, 2, o).err();
    assert_eq!(pre(hidden(15, 5), 10, hidden(8, 5)), Some(HcError::PreStream));
    assert_eq!(pre(stream, 9, hidden(8, 5)), Some(HcError::PreWeights));
    assert_eq!(pre(stream, 10, hidden(8, 4)), Some(HcError::PreShape));

    assert!(hc_post_to_stream_into(hidden(8, 5), stream, (10, 20), 8, 2, stream).is_ok());
    let post = |x, r, w, o| hc_post_to_stream_into(x, r, w, 8, 2, o).err();
    assert_eq!(post(hidden(9, 5), stream, (10, 20), stream), Some(HcError::PostDim));
    assert_eq!(post(hidden(8, 4), stream, (10, 20), stream), Some(HcError::PostRows));
    assert_eq!(post(hidden(8, 5), stream, (9, 20), stream), Some(HcError::PostWeights));
    assert_eq!(post(hidden(8, 5), stream, (10, 20), hidden(16, 4)), Some(HcError::PostShape));

    let head = head_hidden_from_stream(&hc, stream, 4, 8, 2).unwrap();
    assert_eq!((head.row_start, head.row_end, head.out), (64, 80, hidden(8, 1)));
    let fault = |hc: &DeepseekV4HyperConnection, s, t| head_hidden_from_stream(hc, s, t, 8, 2).err();
    assert_eq!(fault(&hc, stream, 5), Some(HcError::HeadToken));
    assert_eq!(fault(&hc, hidden(15, 5), 4), Some(HcError::HeadStream));
    let mixed = DeepseekV4HyperConnection { mix_fn: matrix(1, 16), ..hc };
    assert_eq!(fault(&mixed, stream, 4), Some(HcError::HeadMix));
    let scaled = DeepseekV4HyperConnection { scale: 0, ..hc };
    assert_eq!(fault(&scaled, stream, 4), Some(HcError::HeadBaseScale));
}

#[test]
fn layers_plan_both_halves() {
    let model = model();
    let (c, layer) = (model.layer_config(), layer());
    let ffn = forward_ffn_layer_stream(&c, &layer, &context(None, 1), hidden(16, 5), 5).unwrap();
    assert!(matches!(ffn.mhc, MhcUse::Fresh(_)));
    assert!(matches!(ffn.start, MoeStart::Local(_)));
    let fault = |m: &MoeContext<'_>, stream, tokens| {
        forward_ffn_layer_stream(&c, &layer, m, stream, tokens).err()
    };
    assert_eq!(fault(&context(None, 1), hidden(16, 5), 4), Some(LayerError::TokenCount));
    assert_eq!(fault(&context(None, 1), hidden(15, 5), 5), Some(LayerError::StreamDim));
    assert_eq!(
        fault(&context(Some("deepep"), 2), hidden(16, 5), 5),
        Some(LayerError::NoDispatch)
    );
    assert_eq!(
        fault(&context(Some("other"), 2), hidden(16, 5), 5),
        Some(LayerError::Switch(SwitchError::InvalidValue))
    );
    let reachable = MoeContext { can_dispatch: true, ..context(Some("deepep"), 2) };
    let dispatched =
        forward_ffn_layer_stream(&c, &layer, &reachable, hidden(16, 5), 5).unwrap();
    assert!(matches!(dispatched.start, MoeStart::Dispatch(_)));

    let mut buffers = FfnBuffers { mhc: None, input: None, normed: None };
    let mut kept = || {
        forward_ffn_layer_stream_with_scratch(
            &c,
            &layer,
            &context(None, 1),
            hidden(16, 5),
            5,
            &mut buffers,
        )
        .unwrap()
    };
    assert!(matches!(kept().mhc, MhcUse::Kept { allocate: true, .. }));
    assert!(matches!(kept().mhc, MhcUse::Kept { allocate: false, .. }));

    let output = plan_ffn_output(&c, &layer, hidden(16, 5), (10, 20), true, hidden(16, 5)).unwrap();
    assert!(output.shared.is_some());
    assert_eq!(
        plan_ffn_output(&c, &layer, hidden(16, 5), (10, 19), true, hidden(16, 5)),
        Err(LayerError::Hyper(HcError::PostWeights))
    );

    let whole = forward_transformer_layer_stream(
        &c,
        &layer,
        &context(None, 1),
        model.layer_mode(1),
        hidden(16, 5),
        5,
    )
    .ok()
    .unwrap();
    assert_eq!(whole.attention.plan.attended().kernel.compressed_rows, 1);
    assert_eq!(
        forward_transformer_layer_stream(
            &c,
            &layer,
            &context(None, 1),
            model.layer_mode(7),
            hidden(16, 5),
            5,
        )
        .err(),
        Some(LayerError::Attention(AttentionError::MissingRatio))
    );

    let mut cache = DeepseekLayerRuntimeCache::default();
    for (seq_len, start_pos, rows) in [(5, 0, 1), (3, 5, 2), (1, 8, 2)] {
        let (input, _) = forward_transformer_layer_stream_incremental_into(
            &c,
            &layer,
            &context(None, 1),
            model.layer_mode(1),
            hidden(16, seq_len),
            seq_len,
            start_pos,
            &mut cache,
            hidden(16, seq_len),
        )
        .ok()
        .unwrap();
        assert_eq!(input.attention.plan.attended().kernel.compressed_rows, rows);
    }
    assert_eq!(
        forward_transformer_layer_stream_incremental_into(
            &c,
            &layer,
            &context(None, 1),
            model.layer_mode(1),
            hidden(16, 1),
            1,
            9,
            &mut cache,
            hidden(16, 2),
        )
        .err(),
        Some(LayerError::OutputShape)
    );
}

#[test]
fn models_check_what_is_attached() {
    let fault = |change: fn(&mut DeepseekRuntimeConfig)| {
        let mut config = config();
        change(&mut config);
        DeepseekModel::from_config(config).err()
    };
    assert_eq!(
        fault(|c| c.spec.attention_summary.sliding_window_layers = 0),
        Some(ModelError::NoWindowLayer)
    );
    assert_eq!(fault(|c| c.spec.vocab_size = 0), Some(ModelError::EmptyVocab));
    assert_eq!(fault(|c| c.ep.num_experts = 3), Some(ModelError::ExpertLayout));
    assert_eq!(fault(|_| ()), None);

    let mut model = DeepseekModel::from_config(config()).ok().unwrap();
    assert!(model.needs_layer_weights());
    let mut attach = |embed, head, norm| model.attach_top_level(embed, head, norm).err();
    assert_eq!(attach(matrix(31, 8), matrix(32, 8), 8), Some(ModelError::EmbeddingShape));
    assert_eq!(attach(matrix(32, 8), matrix(32, 9), 8), Some(ModelError::HeadShape));
    assert_eq!(attach(matrix(32, 8), matrix(32, 8), 7), Some(ModelError::NormLength));
    assert_eq!(attach(matrix(32, 8), matrix(32, 8), 8), None);
    model.attach_layers(connection(), vec![layer()]);
    assert_eq!(model.loaded_layer_count(), 1);
    assert!(!model.needs_layer_weights() && !model.is_dense_layer(0));
    assert_eq!(model.check_reference_logits(32), Ok(()));
    assert_eq!(model.check_reference_logits(31), Err(ModelError::ReferenceLength));
    assert_eq!((model.spec().hidden_size, model.config().tp.world_size), (8, 1));
}

#[test]
fn logits_begin_with_embeddings_or_a_stream() {
    let model = model();
    let start = |model: &DeepseekModel, tokens, ffn, full| {
        model.compute_top_level_logits_with_layer_limits(tokens, ffn, full)
    };
    match start(&model, 3, 1, 0) {
        Ok(LogitsStart::Stream { embeddings, stream, full_layers, ffn_layers, .. }) => {
            assert_eq!((embeddings, stream), (hidden(8, 3), hidden(16, 3)));
            assert_eq!((full_layers, ffn_layers), (0, 1));
        }
        other => panic!("{other:?}"),
    }
    assert_eq!(start(&model, 0, 0, 0), Err(ModelError::NoTokens));
    assert_eq!(start(&model, 3, 1, 1), Err(ModelError::ExclusiveLayers));
    assert_eq!(start(&model, 3, 0, 3), Err(ModelError::LayerLimit));
    let bare = DeepseekModel::from_config(config()).ok().unwrap();
    assert_eq!(start(&bare, 3, 0, 0), Ok(LogitsStart::Unloaded));
    let mut top = DeepseekModel::from_config(config()).ok().unwrap();
    top.attach_top_level(matrix(32, 8), matrix(32, 8), 8).unwrap();
    assert_eq!(start(&top, 3, 0, 0), Ok(LogitsStart::Embeddings(hidden(8, 3))));
    assert_eq!(start(&top, 3, 1, 0), Err(ModelError::LayersNotLoaded));
    let mut grouped = self::model();
    grouped.config.spec.o_groups = 2;
    assert_eq!(start(&grouped, 3, 0, 1), Err(ModelError::OutputGroups));
    grouped.config.tp = TpConfig { rank: 2, world_size: 2 };
    assert_eq!(start(&grouped, 3, 0, 1), Err(ModelError::OutputGroupRank));
    assert_eq!(
        model.compute_top_level_logits(3, Some("x"), None),
        Err(ModelError::Switch(SwitchError::InvalidValue))
    );
    let head = model.plan_head(&connection(), hidden(16, 3)).unwrap();
    assert_eq!((head.row_start, head.row_end), (32, 48));
}

#[test]
fn incremental_steps_continue_where_they_ended() {
    let model = model();
    let mut state = DeepseekIncrementalState::default();
    for (tokens, kv_len) in [(5, 0), (1, 5)] {
        let mut pass = match model.begin_incremental(tokens, kv_len, &mut state) {
            Ok(IncrementalStart::Stream { start_pos, embeddings, stream, .. }) => {
                assert_eq!((start_pos, embeddings), (kv_len, hidden(8, tokens)));
                PassState::Starting { stream }
            }
            other => panic!("{other:?}"),
        };
        assert_eq!(state.layers.len(), 2);
        let request = PassRequest { tokens, start_pos: kv_len, emit_logits: tokens == 1 };
        let mut actions = Vec::new();
        while pass != PassState::Over {
            let (next, action) = model
                .compute_top_level_logits_incremental(&request, pass, &mut state)
                .unwrap();
            if let PassAction::RunLayer { idx, start_pos, read, write, .. } = action {
                assert_eq!((idx, start_pos), (actions.len(), kv_len));
                assert_eq!((read, write.hidden), (hidden(16, tokens), hidden(16, tokens)));
            }
            actions.push(action);
            pass = next;
        }
        assert_eq!(actions.len(), if tokens == 1 { 4 } else { 3 });
        if let PassAction::RunHead(head) = actions[2] {
            assert_eq!((tokens, head.row_start, head.row_end), (1, 0, 16));
        }
        assert_eq!(actions.last(), Some(&PassAction::Finish));
        assert!(state.stream_recycle.is_some());
        assert!(state.layers.iter().all(|layer| layer.stream_recycle.is_some()));
    }
    assert_eq!(state.processed_tokens, 6);
    assert_eq!(model.begin_incremental(1, 5, &mut state), Err(ModelError::CachedLength));
    assert_eq!(model.begin_incremental(0, 6, &mut state), Err(ModelError::NoTokens));
    state.trim_prefill_scratch();
    assert_eq!(state.processed_tokens, 6);
    state.clear();
    assert_eq!((state.processed_tokens, state.layers.len()), (0, 0));
}

#[test]
fn later_passes_allocate_no_streams() {
    let model = model();
    let mut state = DeepseekIncrementalState::default();
    let mut allocations = Vec::new();
    for kv_len in [0, 1] {
        let mut pass = match model.begin_incremental(1, kv_len, &mut state) {
            Ok(IncrementalStart::Stream { stream, allocate, .. }) => {
                allocations.push(allocate);
                PassState::Starting { stream }
            }
            other => panic!("{other:?}"),
        };
        let request = PassRequest { tokens: 1, start_pos: kv_len, emit_logits: false };
        while pass != PassState::Over {
            let (next, action) = model
                .compute_top_level_logits_incremental(&request, pass, &mut state)
                .unwrap();
            if let PassAction::RunLayer { allocate, .. } = action {
                allocations.push(allocate);
            }
            pass = next;
        }
    }
    assert_eq!(allocations, vec![true, true, true, false, false, false]);
}

#[test]
fn chunks_are_recorded_when_their_pass_begins() {
    let model = model();
    let mut state = state();
    let start = model.compute_gpu_incremental_prefill_chunk(&[1, 2, 3], 0, &mut state);
    assert!(matches!(start, Ok(IncrementalStart::Stream { start_pos: 0, .. })));
    assert_eq!(state.reference_tokens, vec![1, 2, 3]);
    let start = model.compute_gpu_incremental_prefill_chunk(&[4], 3, &mut state);
    assert_eq!(start, Err(ModelError::CachedLength));
    assert_eq!(state.reference_tokens, vec![1, 2, 3, 4]);
}

#[test]
fn prefill_records_the_prompt() {
    let model = model();
    let mut state = state();
    let one = |model: &DeepseekModel, tokens: &[u32], kv_len, state: &mut DeepseekState| {
        model.prefill_one(tokens, kv_len, state, &NO_SWITCHES)
    };
    assert_eq!(
        one(&model, &[1, 2], 0, &mut state),
        Ok(PrefillStep::Device(LogitsRoute::LastToken))
    );
    assert_eq!(state.reference_tokens, vec![1, 2]);
    assert_eq!(model.finish_prefill(2, &mut state), 2);
    assert_eq!(state.logits(), LogitsSource::Prefill);
    assert_eq!(one(&model, &[], 2, &mut state), Err(ModelError::NoTokens));
    assert_eq!(one(&model, &[32], 2, &mut state), Err(ModelError::TokenId));
    assert_eq!(one(&model, &[1], 64, &mut state), Err(ModelError::ContextLength));
    let switches = LogitsSwitches { incremental: Some("1"), contextual: None, full_layers: None };
    let chunk = |emit, state: &mut DeepseekState| {
        model.prefill_one_chunk(&[3], 2, emit, state, &switches)
    };
    assert_eq!(chunk(true, &mut state), Ok(PrefillStep::Device(LogitsRoute::Incremental)));
    assert_eq!(state.reference_tokens, vec![1, 2, 3]);
    assert_eq!(model.check_slot(2, 3), Ok(()));
    assert_eq!(model.check_slot(3, 3), Err(ModelError::Slot));
}

#[test]
fn decoding_advances_by_one_token() {
    let mut model = model();
    let mut state = state();
    state.base.prefill_logits = true;
    assert_eq!(
        model.forward_decode(5, &mut state, &NO_SWITCHES),
        Ok(DecodeStep::Device(LogitsRoute::LastToken))
    );
    assert_eq!(state.reference_tokens, vec![5]);
    assert_eq!(model.finish_decode(&mut state), 1);
    assert_eq!(state.logits(), LogitsSource::Decode);
    assert_eq!(model.forward_decode(32, &mut state, &NO_SWITCHES), Err(ModelError::TokenId));
    let faulty = LogitsSwitches { incremental: Some("?"), contextual: None, full_layers: None };
    assert_eq!(
        model.forward_decode(5, &mut state, &faulty),
        Err(ModelError::Switch(SwitchError::InvalidValue))
    );
    model.has_reference = true;
    assert_eq!(model.forward_decode(5, &mut state, &NO_SWITCHES), Ok(DecodeStep::Reference));
    assert!(model.is_stop_token(9) && !model.is_stop_token(8));
    assert_eq!(model.check_sampling(false, false), Ok(()));
    assert_eq!(model.check_sampling(true, false), Err(ModelError::Sampling));
    assert_eq!(model.check_sampling(false, true), Err(ModelError::Sampling));
    assert_eq!(
        model.forward_mixed_batch(),
        MixedBatchOutcome::Fallback(MixedBatchFallbackReason::UnsupportedModel)
    );
    assert!(model.prefill_uses_paged_pool() && model.supports_decode_warmup());
    assert!(!model.supports_cross_slot_prefix_attach());
    assert!(!model.supports_cuda_graph_decode() && !model.supports_prefill_warmup());
    model.config.ep.world_size = 2;
    assert!(!model.supports_decode_warmup());
}

#[test]
fn logits_follow_their_switches() {
    assert_eq!(choose_logits_route(Some("on"), None, None), Ok(LogitsRoute::Incremental));
    assert_eq!(choose_logits_route(None, Some("1"), None), Ok(LogitsRoute::AllTokens));
    assert_eq!(choose_logits_route(None, None, Some("2")), Ok(LogitsRoute::AllTokens));
    assert_eq!(choose_logits_route(None, None, None), Ok(LogitsRoute::LastToken));
    assert_eq!(
        choose_logits_route(Some("?"), None, None),
        Err(ModelError::Switch(SwitchError::InvalidValue))
    );
}

#[test]
fn ranks_share_a_group_where_they_can() {
    let plan = |change: fn(&mut DeepseekRuntimeConfig), can, overlap, port| {
        let mut config = config();
        change(&mut config);
        layer_communicator_from_config(&config, can, overlap, port)
    };
    let alone = plan(|_| (), false, Some("1"), None).unwrap();
    assert_eq!((alone.tensor, alone.experts, alone.overlap_port), (None, ExpertExchange::Alone, None));
    assert_eq!(plan(|c| c.tp.world_size = 2, false, None, None), Err(ModelError::NoExchange));
    let both = |c: &mut DeepseekRuntimeConfig| {
        c.tp = TpConfig { rank: 1, world_size: 2 };
        c.ep.rank = 1;
        c.ep.world_size = 2;
    };
    let shared = plan(both, true, None, None).unwrap();
    assert_eq!(shared.experts, ExpertExchange::Shared);
    assert_eq!(shared.tensor, Some(RankGroup { rank: 1, world_size: 2 }));
    let own = plan(|c| c.ep.world_size = 4, true, Some("1"), Some("100")).unwrap();
    assert_eq!(own.experts, ExpertExchange::Own(RankGroup { rank: 0, world_size: 4 }));
    assert_eq!(own.overlap_port, Some(101));
    assert_eq!(
        plan(|c| c.ep.world_size = 4, true, Some("1"), None),
        Err(ModelError::Port(PortError::Missing))
    );
}

#[test]
fn pools_give_every_slot_its_ranges() {
    let model = model();
    let (context, allocate) = model.create_decode_context(3, Some(48), true, true, 2).unwrap();
    assert!(allocate);
    assert_eq!(context.fp8_kv_pool, Some(3 * 2 * 2 * 37376));
    assert_eq!(context.fp8_kv_max_seq_len(), Some(48));
    assert_eq!(
        context.fp8_kv_slot_layer_view(2, 1, 1),
        Ok(PoolView { offset: 5 * 2 * 37376, bytes: 37376 })
    );
    let view = |slot, layer, blocks| context.fp8_kv_slot_layer_view(slot, layer, blocks).err();
    assert_eq!(view(3, 0, 1), Some(DecodeBufferError::PoolSlot));
    assert_eq!(view(0, 2, 1), Some(DecodeBufferError::PoolLayer));
    assert_eq!(view(0, 0, 3), Some(DecodeBufferError::PoolBlocks));

    let bound = bind_pool_views(&context, &[2, 0], 3, 2, 2).unwrap();
    let places = bound.iter().map(|b| (b.slot_idx, b.layer_idx)).collect::<Vec<_>>();
    assert_eq!(places, vec![(2, 0), (2, 1), (0, 0), (0, 1)]);
    assert_eq!(bound[3].view.offset, 2 * 37376);
    assert_eq!(
        bind_pool_views(&context, &[0, 3], 3, 2, 2),
        Err(DecodeBatchError::Model(ModelError::Slot))
    );
    assert_eq!(
        bind_pool_views(&context, &[3], 4, 2, 2),
        Err(DecodeBatchError::Buffers(DecodeBufferError::PoolSlot))
    );

    let batch = |context, tokens: &[u32], slots: &[usize]| {
        model.forward_decode_batch(tokens, slots, 3, context, 2)
    };
    match batch(&context, &[1, 2], &[1, 0]) {
        Ok(DecodeBatch::Run(bound)) => assert_eq!(bound.len(), 4),
        _ => panic!("no batch"),
    }
    assert!(matches!(batch(&context, &[], &[]), Ok(DecodeBatch::Nothing)));
    assert_eq!(
        batch(&context, &[1], &[]).err(),
        Some(DecodeBatchError::Model(ModelError::TokenSlots))
    );
    let (plain, allocate) = model.create_decode_context(3, Some(48), false, true, 2).unwrap();
    assert!(!allocate && plain.fp8_kv_max_seq_len().is_none());
    assert!(matches!(batch(&plain, &[1], &[9]), Ok(DecodeBatch::Run(bound)) if bound.is_empty()));
    assert_eq!(
        plain.fp8_kv_slot_layer_view(0, 0, 0),
        Err(DecodeBufferError::PoolSlot)
    );
    assert_eq!(
        model.create_decode_context(0, None, true, true, 2).err(),
        Some(DecodeBufferError::NoCapacity)
    );
    assert_eq!(
        model.create_decode_context(3, None, true, true, 0).err(),
        Some(DecodeBufferError::PoolShape)
    );
}

#[test]
fn pools_grow_and_never_shrink() {
    let mut buffers = DeepseekBatchDecodeBuffers::new(4).unwrap();
    assert_eq!(buffers.ensure_fp8_kv_pool(4, 2, 3), Ok(true));
    let bytes = buffers.fp8_kv_pool;
    assert_eq!(buffers.ensure_fp8_kv_pool(4, 2, 3), Ok(false));
    assert_eq!(buffers.ensure_fp8_kv_pool(2, 1, 1), Ok(false));
    assert_eq!(buffers.fp8_kv_pool, bytes);
    assert_eq!(buffers.ensure_fp8_kv_pool(4, 3, 3), Ok(true));
    assert_eq!(buffers.ensure_fp8_kv_pool(0, 3, 3), Err(DecodeBufferError::PoolShape));
    assert_eq!(buffers.upload_token_ids(&[1, 2, 3, 4]), Ok(()));
    assert_eq!(buffers.upload_token_ids(&[1; 5]), Err(DecodeBufferError::BatchSize));
    assert_eq!(buffers.plan_attention(5), Err(DecodeBufferError::BatchSize));
    assert_eq!(buffers.update_metadata(&[1; 5]), Err(DecodeBufferError::BatchSize));
    buffers.fp8_kv_pool = None;
    assert_eq!(buffers.fp8_kv_slot_layer_view(0, 0, 1), Err(DecodeBufferError::PoolMissing));
    buffers.fp8_kv_pool = Some(37375);
    assert_eq!(buffers.fp8_kv_slot_layer_view(0, 0, 1), Err(DecodeBufferError::PoolRange));
}

#[test]
fn the_scheduler_is_charged_for_hybrid_layers() {
    let mut model = model();
    assert_eq!(model.scheduler_c128_cache_layers(), 1);
    assert_eq!(model.scheduler_c128_cache_head_dim(), 1);
    assert_eq!(model.kv_cache_bytes_per_token(), 4);
    model.config.spec.head_dim = 512;
    model.config.spec.compress_ratios = vec![128, 64, 4];
    model.config.spec.attention_modes = vec![
        AttentionMode::HybridCompressed,
        AttentionMode::HybridCompressed,
        AttentionMode::CompressedSparse,
    ];
    assert_eq!(model.scheduler_c128_cache_layers(), 2);
    assert_eq!(model.scheduler_c128_cache_head_dim(), 8);
    assert_eq!(model.kv_cache_bytes_per_token(), 64);
    let budget = SchedulerRuntimeWorkspaceBudget {
        max_batch_size: 4,
        prefill_tokens: 0,
        mixed_prefill_tokens: 0,
        max_seq_len: None,
        kv_pool_format: KVFormat::BF16,
    };
    assert_eq!(model.scheduler_runtime_workspace_bytes(&budget, true, true, 3), 4 * 2 * 3 * 37376);
    assert_eq!(model.scheduler_runtime_workspace_bytes(&budget, true, false, 3), 0);
    assert_eq!(model.shared_pool_seq_len(true, true, None), Some(64));
}

#[test]
fn states_are_reset_and_truncated() {
    let mut state = state();
    state.reference_tokens = vec![1, 2, 3];
    state.incremental.processed_tokens = 3;
    assert_eq!(state.truncate_to(2), KvAction::Truncate(2));
    assert_eq!(state.reference_tokens, vec![1, 2]);
    assert_eq!(state.reset(), KvAction::Reset);
    assert!(state.reference_tokens.is_empty());
    assert_eq!(state.incremental.processed_tokens, 0);
    assert!(!state.supports_partial_prefix());
}

#[test]
fn buffers_that_fit_are_reused() {
    let mut slot = None;
    assert!(ensure_route_logits_scratch(&mut slot, 8, 4));
    assert!(!ensure_route_logits_scratch(&mut slot, 8, 2));
    assert!(ensure_route_logits_scratch(&mut slot, 9, 2));
    let mut slot = None;
    assert!(ensure_send_route_scratch(&mut slot, 4));
    assert!(!ensure_send_route_scratch(&mut slot, 3));
    let mut slot = None;
    assert!(ensure_dispatch_payload_scratch(&mut slot, 4, 16));
    assert!(!ensure_dispatch_payload_scratch(&mut slot, 4, 16));
    assert!(ensure_dispatch_payload_scratch(&mut slot, 4, 17));
    let mut slot = None;
    assert!(ensure_recv_route_scratch(&mut slot, 8, 4));
    assert!(!ensure_recv_route_scratch(&mut slot, 8, 4));
    let mut slot = None;
    assert!(ensure_local_route_scratch(&mut slot, 8, 4));
    assert!(ensure_local_route_scratch(&mut slot, 8, 5));

    let mut cache = DeepseekMoeRuntimeCache::default();
    assert!(cache.ensure_dispatch_scratch(8, 4, 2, 2, 3));
    assert!(!cache.ensure_dispatch_scratch(8, 3, 2, 2, 3));
    assert!(cache.ensure_dispatch_scratch(8, 4, 2, 4, 3));
    assert!(cache.ensure_shared_expert_scratch(8, 6, 8, 4));
    assert!(!cache.ensure_shared_expert_scratch(8, 6, 8, 4));
    assert!(cache.ensure_route_combine_scratch(8, 4));
    assert!(!cache.ensure_route_combine_scratch(8, 4));
    assert!(cache.ensure_native_deepep_scratch(8, 4, 2, 2, 6, 10, 3));
    assert!(!cache.ensure_native_deepep_scratch(8, 4, 2, 2, 6, 10, 3));
    assert!(cache.ensure_grouped_expert_scratch(128, 128, 4));
    let mut grouped = cache.grouped.unwrap();
    assert!(grouped.ensure_active_scratch(3));
    assert!(!grouped.ensure_active_scratch(2));
    assert_eq!(grouped.ensure_deepgemm_scratch(2, 64, 128, 128), Ok(true));
    assert_eq!(grouped.ensure_deepgemm_scratch(2, 64, 128, 128), Ok(false));
    assert_eq!(
        grouped.ensure_deepgemm_scratch(usize::MAX, 64, 128, 128),
        Err(DeepGemmError::Rows)
    );

    let mut slot = None;
    assert!(ensure_hidden_scratch(&mut slot, 8, 4));
    let (scratch, allocate) = take_hidden_scratch(&mut slot, 8, 3);
    assert!(!allocate && slot.is_none());
    assert_eq!(scratch.hidden, hidden(8, 3));
    put_hidden_scratch(&mut slot, scratch);
    assert!(!ensure_hidden_scratch(&mut slot, 8, 4));
    let (_, allocate) = take_hidden_scratch(&mut slot, 9, 3);
    assert!(allocate);
}

#[test]
fn wide_ratios_leave_no_room_for_rows() {
    let c = attention_config();
    let request = CompressorRequest {
        head_dim: 4,
        ratio: usize::MAX,
        overlap: true,
        start_pos: 0,
        apply_rope: true,
        capacity_rows: 3,
    };
    let mut cache = DeepseekGpuCompressorRuntimeCache::default();
    assert_eq!(
        update_compressor_gpu_cache(&c, &compressor(8), &request, 6, &mut cache),
        Err(AttentionError::CompressorCache(CompressorCacheError::Pending))
    );
    let short = compressor_forward_gpu_temp(&c, &compressor(8), &request, 6).unwrap();
    assert_eq!((short.step, short.rows), (None, hidden(4, 0)));
    let run = forward_sliding_window_attention(
        &c,
        &attention(),
        hidden(8, 9),
        Some(usize::MAX),
        AttentionMode::HybridCompressed,
    );
    match run.unwrap().plan {
        AttentionPlan::Compressed { rows: Compression::Whole(rows), selection: None, core } => {
            assert_eq!((rows.step, rows.rows), (None, hidden(4, 0)));
            assert_eq!(core.kernel.compressed_rows, 0);
        }
        _ => panic!("no compression"),
    }
}

#[test]
fn index_heads_without_a_width_are_refused() {
    let c = AttentionConfig { index_head_dim: 0, ..attention_config() };
    let indexer = attention().indexer.unwrap();
    assert_eq!(csa_selected_blocks_gpu(&c, &indexer, &step(3), 1), Err(AttentionError::IndexWidth));
}

#[test]
fn initial_hc_stream_repeats_embedding_rows() {
    let lanes =
        initial_hc_stream_from_embeddings_into(hidden(2, 2), 2, 3, hidden(6, 2)).unwrap();
    assert_eq!((lanes.seq_len, lanes.hidden_size, lanes.hc_mult), (2, 2, 3));
}

#[test]
fn head_hidden_from_stream_combines_hc_lanes() {
    let head_hc = DeepseekV4HyperConnection { base: 2, mix_fn: matrix(2, 4), scale: 1 };
    let head = head_hidden_from_stream(&head_hc, hidden(4, 1), 0, 2, 2).unwrap();
    assert_eq!((head.row_start, head.row_end), (0, 4));
    assert_eq!((head.mixes, head.out), (hidden(2, 1), hidden(2, 1)));
    assert_eq!((head.stream_dim, head.hidden_size, head.hc_mult), (4, 2, 2));
}

#[test]
fn gen_mhc_params_uses_rms_scaled_mixes() {
    let hc = DeepseekV4HyperConnection { base: 8, mix_fn: matrix(8, 4), scale: 3 };
    let mhc = gen_mhc_params(&hc, hidden(4, 1), 2, 2).unwrap();
    assert_eq!(mhc.mixes, hidden(8, 1));
    assert_eq!((mhc.pre, mhc.post, mhc.comb), (2, 2, 4));
    assert_eq!((mhc.args.seq_len, mhc.args.stream_dim, mhc.args.mix_dim), (1, 4, 8));
    assert_eq!((mhc.args.hc_mult, mhc.args.sinkhorn_iters), (2, 2));
}

#[test]
fn hc_pre_and_post_move_rows_through_segments() {
    let stream = hidden(4, 1);
    let pre = hc_pre_from_stream_into(stream, 2, 2, 2, hidden(2, 1)).unwrap();
    assert_eq!((pre.seq_len, pre.hidden_size, pre.hc_mult), (1, 2, 2));
    let post = hc_post_to_stream_into(hidden(2, 1), stream, (2, 4), 2, 2, stream).unwrap();
    assert_eq!((post.seq_len, post.hidden_size, post.hc_mult), (1, 2, 2));
}

fn tiny_model() -> DeepseekModel {
    let spec = DeepseekSpec {
        vocab_size: 4,
        hidden_size: 2,
        num_hidden_layers: 1,
        num_attention_heads: 1,
        num_key_value_heads: 1,
        head_dim: 1,
        o_groups: 1,
        qk_rope_head_dim: 1,
        n_routed_experts: 1,
        num_experts_per_tok: 1,
        index_n_heads: 1,
        index_head_dim: 1,
        index_topk: 1,
        sliding_window: 4,
        compress_ratios: vec![0],
        attention_modes: vec![AttentionMode::SlidingWindow],
        attention_summary: AttentionSummary {
            sliding_window_layers: 1,
            csa_layers: 0,
            hca_layers: 0,
        },
        hc_mult: 1,
        hc_sinkhorn_iters: 1,
        max_position_embeddings: 16,
        original_max_position_embeddings: 16,
        eos_token_id: Some(1),
    };
    DeepseekModel::from_config(DeepseekRuntimeConfig::from_spec(spec)).ok().unwrap()
}

#[test]
fn top_level_logits_can_run_one_gpu_ffn_layer() {
    let mut model = tiny_model();
    model.attach_top_level(matrix(4, 2), matrix(4, 2), 2).unwrap();
    let lanes = || DeepseekV4HyperConnection { base: 3, mix_fn: matrix(3, 2), scale: 3 };
    let layer = DeepseekLayer {
        attn_norm: 2,
        hc_attn: lanes(),
        attention: one_head(None),
        ffn_norm: 2,
        hc_ffn: lanes(),
        ffn: DeepseekV4MoeBlock {
            gate_weight: matrix(1, 2),
            gate_bias: Some(1),
            gate_tid2eid: None,
            experts: vec![DeepseekV4Expert {
                w1: matrix(1, 2),
                w2: matrix(2, 1),
                w3: matrix(1, 2),
            }],
            shared_experts: None,
        },
    };
    let head_hc = DeepseekV4HyperConnection { base: 1, mix_fn: matrix(1, 2), scale: 1 };
    model.attach_layers(head_hc, vec![layer]);
    let stream = match model.compute_top_level_logits_with_layer_limits(1, 1, 0).unwrap() {
        LogitsStart::Stream { embeddings, stream, full_layers: 0, ffn_layers: 1, .. } => {
            assert_eq!(embeddings, hidden(2, 1));
            stream
        }
        other => panic!("{other:?}"),
    };
    assert_eq!(stream, hidden(2, 1));
    let context = MoeContext {
        router: RouterConfig {
            n_routed_experts: 1,
            num_experts_per_tok: 1,
            scoring_func: "softmax",
            routing_kind: MoeRoutingKind::LearnedBias,
        },
        ep: model.config.ep,
        backend: None,
        can_dispatch: false,
    };
    let c = model.layer_config();
    let plan = forward_ffn_layer_stream(&c, &model.layers[0], &context, stream, 1).unwrap();
    assert!(matches!(plan.start, MoeStart::Local(routes) if routes.expert_slots == 1));
    let weights = match plan.mhc {
        MhcUse::Fresh(params) => (params.post, params.comb),
        MhcUse::Kept { .. } => panic!("nothing is kept"),
    };
    assert_eq!(weights, (1, 1));
    assert!(plan_ffn_output(&c, &model.layers[0], stream, weights, false, stream).is_ok());
    let head = model.plan_head(&head_hc, stream).unwrap();
    assert_eq!((head.row_start, head.row_end, head.out), (0, 2, hidden(2, 1)));
}

#[test]
fn sliding_window_attention_runs_gpu_projection_path() {
    let model = tiny_model();
    let (c, mode) = (model.layer_config().attention, model.layer_mode(0));
    assert_eq!(c, one_head_config());
    let run =
        forward_sliding_window_attention(&c, &one_head(None), hidden(2, 1), mode.ratio, mode.mode)
            .unwrap();
    match run.plan {
        AttentionPlan::Window(core) => {
            assert_eq!((core.kernel.mode, core.kernel.ratio), (0, 0));
            assert_eq!((core.kernel.sliding_window, core.kernel.compressed_rows), (4, 0));
            assert_eq!((core.prepare.local_heads, core.prepare.head_dim), (1, 1));
            assert_eq!((core.out, core.all_reduce), (hidden(2, 1), hidden(2, 1)));
        }
        _ => panic!("more than the window"),
    }
}

#[test]
fn compressor_forward_uses_only_complete_blocks() {
    let compressor = DeepseekV4Compressor {
        wkv: matrix(1, 2),
        wgate: matrix(1, 2),
        ape: matrix(2, 1),
        norm: 1,
    };
    let request = CompressorRequest {
        head_dim: 1,
        ratio: 2,
        overlap: false,
        start_pos: 0,
        apply_rope: false,
        capacity_rows: 1,
    };
    let out = compressor_forward_gpu_temp(&one_head_config(), &compressor, &request, 3).unwrap();
    assert_eq!(out.rows, hidden(1, 1));
    assert_eq!(out.step.unwrap().completed, 1);
}
