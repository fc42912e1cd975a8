//! Attention: projections, the window of recent keys, compressed rows and
//! their selection.

use vstd::prelude::*;

use crate::model::deepseek::config::AttentionMode;
use crate::model::deepseek::device::phase_of;
use crate::model::deepseek::device::{
    dispatch_phase, HiddenShape, LinearDispatchPhase, MatrixShape,
};
use crate::model::deepseek::scratch::{
    ensure_hidden_scratch, put_hidden_scratch, take_hidden_scratch, DeepseekHiddenRuntimeScratch,
};
use crate::model::deepseek::scratch::{ensured_hidden, hidden_fits, taken_hidden};
use crate::model::deepseek::state::{
    ensured_compressor, lacks_compressed, lacks_pending, no_compressor_cache, with_pending,
};
use crate::model::deepseek::state::{
    CompressorAllocation, CompressorCacheError, DeepseekAttentionRuntimeCache,
    DeepseekGpuCompressorRuntimeCache,
};

verus! {

/// Why attention cannot run.
#[derive(Clone, Copy, Debug, PartialEq, Eq, Structural)]
pub enum AttentionError {
    /// The layer has no compression ratio.
    MissingRatio,
    /// The hidden states have the wrong width.
    HiddenDim,
    /// Heads have no values.
    ZeroHeadDim,
    /// The queries are not a whole number of heads.
    HeadWidth,
    /// There is no local head.
    NoHeads,
    /// Keys have not the width of a head.
    KvRows,
    /// The output projection does not take the local heads.
    OutputWidth,
    /// Queries have the wrong shape.
    QueryShape,
    /// Keys have the wrong shape.
    KeyShape,
    /// The window is empty.
    ZeroWindow,
    /// More values are rotated than a head has.
    RopeDim,
    /// The sinks do not cover the local heads.
    SinkLength,
    /// The layer has a ratio but no compressor.
    MissingCompressor,
    /// The layer selects blocks but has no indexer.
    MissingIndexer,
    /// A compressor without a ratio.
    ZeroRatio,
    /// The compressor's matrices have the wrong height.
    CompressorRows,
    /// The compressor's cache cannot be counted.
    CompressorCache(CompressorCacheError),
    /// The compressed rows do not fit the cache.
    CompressorCapacity,
    /// The cache holds no compressed rows.
    MissingRows,
    /// The indexer's queries are not a whole number of heads.
    IndexWidth,
    /// The indexer's weights are not one per head.
    IndexHeads,
}

/// Weights of a compressor; vectors are given by their length.
#[derive(Clone, Copy, Debug, PartialEq, Eq, Structural)]
pub struct DeepseekV4Compressor {
    pub wkv: MatrixShape,
    pub wgate: MatrixShape,
    pub ape: MatrixShape,
    pub norm: usize,
}

/// Weights of the indexer that selects compressed blocks.
#[derive(Clone, Copy, Debug, PartialEq, Eq, Structural)]
pub struct DeepseekV4Indexer {
    pub wq_b: MatrixShape,
    pub weights_proj: MatrixShape,
    pub compressor: DeepseekV4Compressor,
}

/// Weights of an attention block; vectors are given by their length.
#[derive(Clone, Copy, Debug, PartialEq, Eq, Structural)]
pub struct DeepseekV4Attention {
    pub wq_a: MatrixShape,
    pub q_norm: usize,
    pub wq_b: MatrixShape,
    pub wkv: MatrixShape,
    pub kv_norm: usize,
    pub wo_a: MatrixShape,
    pub wo_b: MatrixShape,
    pub attn_sink: usize,
    pub compressor: Option<DeepseekV4Compressor>,
    pub indexer: Option<DeepseekV4Indexer>,
}

/// What attention reads of the configuration.
#[derive(Clone, Copy, Debug, PartialEq, Eq, Structural)]
pub struct AttentionConfig {
    pub hidden_size: usize,
    pub head_dim: usize,
    pub sliding_window: usize,
    pub rope_dim: usize,
    pub tp_rank: usize,
    pub max_positions: usize,
    pub original_positions: usize,
    pub index_head_dim: usize,
    pub index_topk: usize,
}

/// One step of a layer: its tokens, its local heads and how it attends.
#[derive(Clone, Copy, Debug, PartialEq, Eq, Structural)]
pub struct AttentionStep {
    pub token_count: usize,
    pub start_pos: usize,
    pub local_heads: usize,
    pub local_width: usize,
    pub head_dim: usize,
    pub ratio: usize,
    pub mode: AttentionMode,
}

/// Which base the rotation of queries and keys uses.
#[derive(Clone, Copy, Debug, PartialEq, Eq, Structural)]
pub enum RopeBase {
    /// That of plain layers.
    Plain,
    /// That of compressed layers.
    Compressed,
}

/// Arguments of the kernel that norms and rotates queries and keys.
#[derive(Clone, Copy, Debug, PartialEq, Eq, Structural)]
pub struct PrepareArgs {
    pub token_count: i32,
    pub local_heads: i32,
    pub head_dim: i32,
    pub rope_dim: i32,
    pub start_pos: i32,
    pub rope_base: RopeBase,
    pub original_positions: i32,
}

/// The window of recent keys.
#[derive(Clone, Copy, Debug, PartialEq, Eq, Structural)]
pub struct WindowUse {
    /// Elements of the window.
    pub len: usize,
    /// The window is kept, and takes the new keys.
    pub kept: bool,
    /// The window has to be allocated first.
    pub allocate: bool,
}

/// Arguments of the attention kernels.
#[derive(Clone, Copy, Debug, PartialEq, Eq, Structural)]
pub struct KernelArgs {
    pub sliding_window: i32,
    /// Index of the first local head.
    pub head_offset: i32,
    /// `0` window, `1` selected blocks, `2` all blocks.
    pub mode: i32,
    pub ratio: i32,
    pub compressed_rows: i32,
    pub index_topk: i32,
}

/// Where states are kept.
#[derive(Clone, Copy, Debug, PartialEq, Eq, Structural)]
pub enum StatesUse {
    /// In a new buffer.
    Fresh(HiddenShape),
    /// In a kept buffer, which may have to be allocated first.
    Kept { scratch: DeepseekHiddenRuntimeScratch, allocate: bool },
}

/// The attention of one step and its output projection.
#[derive(Clone, Copy, Debug, PartialEq, Eq, Structural)]
pub struct CorePlan {
    pub prepare: PrepareArgs,
    pub queries: StatesUse,
    pub keys: StatesUse,
    pub attended: StatesUse,
    pub window: WindowUse,
    pub kernel: KernelArgs,
    pub latent: StatesUse,
    /// Phase of the output products, where they are told one.
    pub phase: Option<LinearDispatchPhase>,
    pub out: HiddenShape,
    /// The output states, which the tensor ranks sum among themselves last.
    pub all_reduce: HiddenShape,
}

/// The kernel's number of a mode.
pub open spec fn mode_code(mode: AttentionMode) -> i32 {
    match mode {
        AttentionMode::SlidingWindow => 0i32,
        AttentionMode::CompressedSparse => 1i32,
        AttentionMode::HybridCompressed => 2i32,
    }
}

fn mode_number(mode: AttentionMode) -> (code: i32)
    ensures
        code == mode_code(mode),
{
    match mode {
        AttentionMode::SlidingWindow => 0,
        AttentionMode::CompressedSparse => 1,
        AttentionMode::HybridCompressed => 2,
    }
}

/// The arguments that prepare queries and keys: compressed layers rotate with
/// their own base and the original context.
pub open spec fn prepare_args(c: AttentionConfig, s: AttentionStep) -> PrepareArgs {
    PrepareArgs {
        token_count: s.token_count as i32,
        local_heads: s.local_heads as i32,
        head_dim: s.head_dim as i32,
        rope_dim: c.rope_dim as i32,
        start_pos: s.start_pos as i32,
        rope_base: if s.ratio > 0 {
            RopeBase::Compressed
        } else {
            RopeBase::Plain
        },
        original_positions: if s.ratio > 0 {
            c.original_positions as i32
        } else {
            0i32
        },
    }
}

fn make_prepare_args(c: &AttentionConfig, s: &AttentionStep) -> (args: PrepareArgs)
    ensures
        args == prepare_args(*c, *s),
{
    let compressed: bool = s.ratio > 0;
    let original: usize = if compressed {
        c.original_positions
    } else {
        0
    };
    PrepareArgs {
        token_count: s.token_count as i32,
        local_heads: s.local_heads as i32,
        head_dim: s.head_dim as i32,
        rope_dim: c.rope_dim as i32,
        start_pos: s.start_pos as i32,
        rope_base: if compressed {
            RopeBase::Compressed
        } else {
            RopeBase::Plain
        },
        original_positions: original as i32,
    }
}

/// The window of a step: the kept one, or a new one for this step alone.
pub open spec fn window_use(
    c: AttentionConfig,
    s: AttentionStep,
    cache: Option<DeepseekAttentionRuntimeCache>,
) -> WindowUse {
    let len = (c.sliding_window * s.head_dim) as usize;
    match cache {
        Some(cache) => WindowUse {
            len,
            kept: true,
            allocate: cache.window_gpu_len != len || cache.window_gpu is None,
        },
        None => WindowUse { len, kept: false, allocate: true },
    }
}

/// The cache with a window of the step's size.
pub open spec fn with_window(
    c: AttentionConfig,
    s: AttentionStep,
    cache: DeepseekAttentionRuntimeCache,
) -> DeepseekAttentionRuntimeCache {
    let len = (c.sliding_window * s.head_dim) as usize;
    if cache.window_gpu_len != len || cache.window_gpu is None {
        DeepseekAttentionRuntimeCache { window_gpu: Some(len), window_gpu_len: len, ..cache }
    } else {
        cache
    }
}

/// Why queries and keys do not fit a step, if they do not.
pub open spec fn qk_fault(s: AttentionStep, q: HiddenShape, kv: HiddenShape) -> Option<
    AttentionError,
> {
    if q.hidden_dim != s.local_width || q.seq_len != s.token_count {
        Some(AttentionError::QueryShape)
    } else if kv.hidden_dim != s.head_dim || kv.seq_len != s.token_count {
        Some(AttentionError::KeyShape)
    } else {
        None
    }
}

/// Why the window alone cannot be attended to, if it cannot.
pub open spec fn swa_fault(
    c: AttentionConfig,
    s: AttentionStep,
    a: DeepseekV4Attention,
    q: HiddenShape,
    kv: HiddenShape,
) -> Option<AttentionError> {
    match qk_fault(s, q, kv) {
        Some(e) => Some(e),
        None => if c.sliding_window == 0 {
            Some(AttentionError::ZeroWindow)
        } else if c.rope_dim > s.head_dim {
            Some(AttentionError::RopeDim)
        } else if a.attn_sink < c.tp_rank * s.local_heads + s.local_heads {
            Some(AttentionError::SinkLength)
        } else {
            None
        },
    }
}

/// New states of `hidden_dim` values for the tokens of a step.
pub open spec fn fresh_states(hidden_dim: usize, s: AttentionStep) -> StatesUse {
    StatesUse::Fresh(HiddenShape { hidden_dim, seq_len: s.token_count })
}

/// Attention to the window alone.
pub open spec fn swa_plan(
    c: AttentionConfig,
    s: AttentionStep,
    a: DeepseekV4Attention,
    cache: Option<DeepseekAttentionRuntimeCache>,
) -> CorePlan {
    CorePlan {
        prepare: prepare_args(c, AttentionStep { ratio: 0, ..s }),
        queries: fresh_states(s.local_width, s),
        keys: fresh_states(s.head_dim, s),
        attended: fresh_states(s.local_width, s),
        window: window_use(c, s, cache),
        kernel: KernelArgs {
            sliding_window: c.sliding_window as i32,
            head_offset: (c.tp_rank * s.local_heads) as usize as i32,
            mode: 0,
            ratio: 0,
            compressed_rows: 0,
            index_topk: 0,
        },
        latent: fresh_states(a.wo_a.rows, s),
        phase: None,
        out: HiddenShape { hidden_dim: a.wo_b.rows, seq_len: s.token_count },
        all_reduce: HiddenShape { hidden_dim: a.wo_b.rows, seq_len: s.token_count },
    }
}

/// The cache, where there is one, with the step's window.
pub open spec fn after_window(
    c: AttentionConfig,
    s: AttentionStep,
    cache: Option<DeepseekAttentionRuntimeCache>,
) -> Option<DeepseekAttentionRuntimeCache> {
    match cache {
        Some(cache) => Some(with_window(c, s, cache)),
        None => None,
    }
}

fn plan_window(
    c: &AttentionConfig,
    s: &AttentionStep,
    cache: &mut Option<DeepseekAttentionRuntimeCache>,
) -> (window: WindowUse)
    requires
        c.sliding_window * s.head_dim <= usize::MAX,
    ensures
        window == window_use(*c, *s, *old(cache)),
        *final(cache) == after_window(*c, *s, *old(cache)),
{
    let len: usize = c.sliding_window * s.head_dim;
    match *cache {
        Some(present) => {
            let mut kept: DeepseekAttentionRuntimeCache = present;
            let allocate: bool = kept.ensure_swa_window_cache(len);
            *cache = Some(kept);
            WindowUse { len, kept: true, allocate }
        },
        None => WindowUse { len, kept: false, allocate: true },
    }
}

/// The products that a step needs can be counted.
pub open spec fn step_countable(c: AttentionConfig, s: AttentionStep) -> bool {
    &&& c.tp_rank * s.local_heads + s.local_heads <= usize::MAX
    &&& c.sliding_window * s.head_dim <= usize::MAX
}

/// Plans attention to the window alone.
pub fn forward_swa_attention_gpu(
    c: &AttentionConfig,
    s: &AttentionStep,
    a: &DeepseekV4Attention,
    q: HiddenShape,
    kv: HiddenShape,
    cache: &mut Option<DeepseekAttentionRuntimeCache>,
) -> (r: Result<CorePlan, AttentionError>)
    requires
        step_countable(*c, *s),
    ensures
        match swa_fault(*c, *s, *a, q, kv) {
            Some(e) => r == Err::<CorePlan, AttentionError>(e) && *final(cache) == *old(cache),
            None => {
                &&& r == Ok::<CorePlan, AttentionError>(swa_plan(*c, *s, *a, *old(cache)))
                &&& *final(cache) == after_window(*c, *s, *old(cache))
            },
        },
{
    if q.hidden_dim != s.local_width || q.seq_len != s.token_count {
        return Err(AttentionError::QueryShape);
    }
    if kv.hidden_dim != s.head_dim || kv.seq_len != s.token_count {
        return Err(AttentionError::KeyShape);
    }
    if c.sliding_window == 0 {
        return Err(AttentionError::ZeroWindow);
    }
    if c.rope_dim > s.head_dim {
        return Err(AttentionError::RopeDim);
    }
    proof {
        assert(0 <= c.tp_rank * s.local_heads) by (nonlinear_arith);
    }
    let head_offset: usize = c.tp_rank * s.local_heads;
    if a.attn_sink < head_offset + s.local_heads {
        return Err(AttentionError::SinkLength);
    }
    let plain: AttentionStep = AttentionStep { ratio: 0, ..*s };
    let prepare: PrepareArgs = make_prepare_args(c, &plain);
    let window: WindowUse = plan_window(c, s, cache);
    let wide: HiddenShape = HiddenShape { hidden_dim: s.local_width, seq_len: s.token_count };
    Ok(
        CorePlan {
            prepare,
            queries: StatesUse::Fresh(wide),
            keys: StatesUse::Fresh(
                HiddenShape { hidden_dim: s.head_dim, seq_len: s.token_count },
            ),
            attended: StatesUse::Fresh(wide),
            window,
            kernel: KernelArgs {
                sliding_window: c.sliding_window as i32,
                head_offset: head_offset as i32,
                mode: 0,
                ratio: 0,
                compressed_rows: 0,
                index_topk: 0,
            },
            latent: StatesUse::Fresh(
                HiddenShape { hidden_dim: a.wo_a.rows, seq_len: s.token_count },
            ),
            phase: None,
            out: HiddenShape { hidden_dim: a.wo_b.rows, seq_len: s.token_count },
            all_reduce: HiddenShape { hidden_dim: a.wo_b.rows, seq_len: s.token_count },
        },
    )
}

/// A buffer that a single decoded token keeps; longer steps use a new one.
pub open spec fn states_use(
    slot: Option<DeepseekHiddenRuntimeScratch>,
    reuse: bool,
    hidden_dim: usize,
    s: AttentionStep,
) -> StatesUse {
    if reuse {
        StatesUse::Kept {
            scratch: taken_hidden(slot, hidden_dim, s.token_count),
            allocate: !(slot matches Some(old) && hidden_fits(old, hidden_dim, s.token_count)),
        }
    } else {
        fresh_states(hidden_dim, s)
    }
}

/// The buffer's slot afterwards.
pub open spec fn slot_after(
    slot: Option<DeepseekHiddenRuntimeScratch>,
    reuse: bool,
    hidden_dim: usize,
    s: AttentionStep,
) -> Option<DeepseekHiddenRuntimeScratch> {
    if reuse {
        Some(taken_hidden(slot, hidden_dim, s.token_count))
    } else {
        slot
    }
}

fn use_states(
    slot: &mut Option<DeepseekHiddenRuntimeScratch>,
    reuse: bool,
    hidden_dim: usize,
    s: &AttentionStep,
) -> (states: StatesUse)
    ensures
        states == states_use(*old(slot), reuse, hidden_dim, *s),
        *final(slot) == slot_after(*old(slot), reuse, hidden_dim, *s),
{
    if reuse {
        let (scratch, allocate) = take_hidden_scratch(slot, hidden_dim, s.token_count);
        put_hidden_scratch(slot, scratch);
        StatesUse::Kept { scratch, allocate }
    } else {
        StatesUse::Fresh(HiddenShape { hidden_dim, seq_len: s.token_count })
    }
}

/// Buffers are reused: a single token, and a cache that keeps them.
pub open spec fn reuses(
    s: AttentionStep,
    cache: Option<DeepseekAttentionRuntimeCache>,
) -> bool {
    s.token_count == 1 && cache is Some
}

/// The slots of a cache, or empty ones without a cache.
pub open spec fn slots_of(
    cache: Option<DeepseekAttentionRuntimeCache>,
) -> DeepseekAttentionRuntimeCache {
    match cache {
        Some(cache) => cache,
        None => crate::model::deepseek::state::no_attention_cache(),
    }
}

/// Attention to the window and to `rows` compressed rows.
pub open spec fn finish_plan(
    c: AttentionConfig,
    s: AttentionStep,
    a: DeepseekV4Attention,
    rows: usize,
    cache: Option<DeepseekAttentionRuntimeCache>,
) -> CorePlan {
    let reuse = reuses(s, cache);
    let slots = slots_of(cache);
    CorePlan {
        prepare: prepare_args(c, s),
        queries: states_use(slots.q_prepared, reuse, s.local_width, s),
        keys: states_use(slots.k_prepared, reuse, s.head_dim, s),
        attended: states_use(slots.local_attn, reuse, s.local_width, s),
        window: window_use(c, s, cache),
        kernel: KernelArgs {
            sliding_window: c.sliding_window as i32,
            head_offset: (c.tp_rank * s.local_heads) as usize as i32,
            mode: mode_code(s.mode),
            ratio: s.ratio as i32,
            compressed_rows: rows as i32,
            index_topk: c.index_topk as i32,
        },
        latent: states_use(slots.output_latent, reuse, a.wo_a.rows, s),
        phase: Some(phase_of(s.token_count)),
        out: HiddenShape { hidden_dim: a.wo_b.rows, seq_len: s.token_count },
        all_reduce: HiddenShape { hidden_dim: a.wo_b.rows, seq_len: s.token_count },
    }
}

/// The cache after a step, where there is one.
pub open spec fn after_finish(
    c: AttentionConfig,
    s: AttentionStep,
    a: DeepseekV4Attention,
    cache: Option<DeepseekAttentionRuntimeCache>,
) -> Option<DeepseekAttentionRuntimeCache> {
    let reuse = reuses(s, cache);
    match cache {
        None => None,
        Some(cache) => Some(
            DeepseekAttentionRuntimeCache {
                q_prepared: slot_after(cache.q_prepared, reuse, s.local_width, s),
                k_prepared: slot_after(cache.k_prepared, reuse, s.head_dim, s),
                local_attn: slot_after(cache.local_attn, reuse, s.local_width, s),
                output_latent: slot_after(cache.output_latent, reuse, a.wo_a.rows, s),
                ..with_window(c, s, cache)
            },
        ),
    }
}

/// Plans attention to the window and to `rows` compressed rows, with its
/// output projection.
pub fn finish_attention_gpu(
    c: &AttentionConfig,
    s: &AttentionStep,
    a: &DeepseekV4Attention,
    q: HiddenShape,
    kv: HiddenShape,
    rows: usize,
    cache: &mut Option<DeepseekAttentionRuntimeCache>,
) -> (r: Result<CorePlan, AttentionError>)
    requires
        step_countable(*c, *s),
    ensures
        match qk_fault(*s, q, kv) {
            Some(e) => r == Err::<CorePlan, AttentionError>(e) && *final(cache) == *old(cache),
            None => {
                &&& r == Ok::<CorePlan, AttentionError>(finish_plan(*c, *s, *a, rows, *old(cache)))
                &&& *final(cache) == after_finish(*c, *s, *a, *old(cache))
            },
        },
{
    if q.hidden_dim != s.local_width || q.seq_len != s.token_count {
        return Err(AttentionError::QueryShape);
    }
    if kv.hidden_dim != s.head_dim || kv.seq_len != s.token_count {
        return Err(AttentionError::KeyShape);
    }
    let prepare: PrepareArgs = make_prepare_args(c, s);
    let reuse: bool = s.token_count == 1 && cache.is_some();
    let ghost before = *cache;
    let window: WindowUse = plan_window(c, s, cache);
    let mut slots: DeepseekAttentionRuntimeCache = match *cache {
        Some(present) => present,
        None => DeepseekAttentionRuntimeCache::default(),
    };
    let queries: StatesUse = use_states(&mut slots.q_prepared, reuse, s.local_width, s);
    let keys: StatesUse = use_states(&mut slots.k_prepared, reuse, s.head_dim, s);
    let attended: StatesUse = use_states(&mut slots.local_attn, reuse, s.local_width, s);
    let latent: StatesUse = use_states(&mut slots.output_latent, reuse, a.wo_a.rows, s);
    if cache.is_some() {
        *cache = Some(slots);
    }
    proof {
        assert(0 <= c.tp_rank * s.local_heads) by (nonlinear_arith);
    }
    let head_offset: usize = c.tp_rank * s.local_heads;
    Ok(
        CorePlan {
            prepare,
            queries,
            keys,
            attended,
            window,
            kernel: KernelArgs {
                sliding_window: c.sliding_window as i32,
                head_offset: head_offset as i32,
                mode: mode_number(s.mode),
                ratio: s.ratio as i32,
                compressed_rows: rows as i32,
                index_topk: c.index_topk as i32,
            },
            latent,
            phase: Some(dispatch_phase(s.token_count)),
            out: HiddenShape { hidden_dim: a.wo_b.rows, seq_len: s.token_count },
            all_reduce: HiddenShape { hidden_dim: a.wo_b.rows, seq_len: s.token_count },
        },
    )
}

/// Values of a pending row: overlapping compressors keep two halves.
pub open spec fn compressor_width(head_dim: usize, overlap: bool) -> nat {
    if overlap {
        2 * head_dim as nat
    } else {
        head_dim as nat
    }
}

/// What a compressor is asked to do.
#[derive(Clone, Copy, Debug, PartialEq, Eq, Structural)]
pub struct CompressorRequest {
    pub head_dim: usize,
    pub ratio: usize,
    pub overlap: bool,
    pub start_pos: usize,
    /// The compressed rows are rotated.
    pub apply_rope: bool,
    pub capacity_rows: usize,
}

/// Arguments of the compressor kernel.
#[derive(Clone, Copy, Debug, PartialEq, Eq, Structural)]
pub struct CompressorArgs {
    pub seq_len: i32,
    pub start_pos: i32,
    pub pending_len: i32,
    pub compressed_rows: i32,
    pub head_dim: i32,
    pub ratio: i32,
    pub width: i32,
    pub overlap: i32,
    /// A row was compressed before.
    pub has_previous: i32,
    pub rope_dim: i32,
    pub original_positions: i32,
}

/// One update of a compressor.
#[derive(Clone, Copy, Debug, PartialEq, Eq, Structural)]
pub struct CompressorStep {
    pub allocation: CompressorAllocation,
    /// The buffers of projected rows have to be allocated.
    pub allocate_kv: bool,
    pub allocate_score: bool,
    pub args: CompressorArgs,
    /// Blocks that the step completes.
    pub completed: usize,
}

/// `1` for true, `0` for false.
pub open spec fn as_flag(b: bool) -> i32 {
    if b {
        1i32
    } else {
        0i32
    }
}

fn flag_of(b: bool) -> (n: i32)
    ensures
        n == as_flag(b),
{
    if b {
        1
    } else {
        0
    }
}

/// The cache with room for the request and for the projected rows.
pub open spec fn prepared_compressor(
    cache: DeepseekGpuCompressorRuntimeCache,
    q: CompressorRequest,
    seq_len: usize,
) -> DeepseekGpuCompressorRuntimeCache {
    let width = compressor_width(q.head_dim, q.overlap) as usize;
    let roomy = ensured_compressor(cache, q.capacity_rows, q.ratio, width, q.head_dim);
    DeepseekGpuCompressorRuntimeCache {
        kv_raw: Some(ensured_hidden(roomy.kv_raw, width, seq_len)),
        score_raw: Some(ensured_hidden(roomy.score_raw, width, seq_len)),
        ..roomy
    }
}

/// Blocks that `seq_len` more rows complete.
pub open spec fn completed_blocks(
    cache: DeepseekGpuCompressorRuntimeCache,
    ratio: usize,
    seq_len: usize,
) -> nat {
    (cache.pending_len + seq_len) as nat / ratio as nat
}

/// The cache after `seq_len` more rows.
pub open spec fn advanced_compressor(
    cache: DeepseekGpuCompressorRuntimeCache,
    ratio: usize,
    seq_len: usize,
) -> DeepseekGpuCompressorRuntimeCache {
    DeepseekGpuCompressorRuntimeCache {
        compressed_rows: (cache.compressed_rows + completed_blocks(cache, ratio, seq_len)) as usize,
        pending_len: ((cache.pending_len + seq_len) as nat % ratio as nat) as usize,
        ..cache
    }
}

/// Why the cache of a compressor has no room for a request, if it has none.
pub open spec fn room_fault(q: CompressorRequest) -> Option<CompressorCacheError> {
    let width = compressor_width(q.head_dim, q.overlap);
    if q.ratio * width > usize::MAX {
        Some(CompressorCacheError::Pending)
    } else if q.capacity_rows * q.head_dim > usize::MAX {
        Some(CompressorCacheError::Compressed)
    } else {
        None
    }
}

/// The arguments of an update.
pub open spec fn compressor_args(
    c: AttentionConfig,
    q: CompressorRequest,
    cache: DeepseekGpuCompressorRuntimeCache,
    seq_len: usize,
) -> CompressorArgs {
    CompressorArgs {
        seq_len: seq_len as i32,
        start_pos: q.start_pos as i32,
        pending_len: cache.pending_len as i32,
        compressed_rows: cache.compressed_rows as i32,
        head_dim: q.head_dim as i32,
        ratio: q.ratio as i32,
        width: compressor_width(q.head_dim, q.overlap) as usize as i32,
        overlap: as_flag(q.overlap),
        has_previous: as_flag(cache.compressed_rows > 0),
        rope_dim: if q.apply_rope {
            c.rope_dim as i32
        } else {
            0i32
        },
        original_positions: if q.apply_rope {
            c.original_positions as i32
        } else {
            0i32
        },
    }
}

/// What an update of a compressor gives, and its cache afterwards.
pub open spec fn compressor_update(
    c: AttentionConfig,
    w: DeepseekV4Compressor,
    q: CompressorRequest,
    seq_len: usize,
    cache: DeepseekGpuCompressorRuntimeCache,
) -> (Result<CompressorStep, AttentionError>, DeepseekGpuCompressorRuntimeCache) {
    let width = compressor_width(q.head_dim, q.overlap) as usize;
    if q.ratio == 0 {
        (Err(AttentionError::ZeroRatio), cache)
    } else if w.wkv.rows != width || w.wgate.rows != width {
        (Err(AttentionError::CompressorRows), cache)
    } else {
        match room_fault(q) {
            Some(e) => (Err(AttentionError::CompressorCache(e)), cache),
            None => {
                let roomy = ensured_compressor(cache, q.capacity_rows, q.ratio, width, q.head_dim);
                let ready = prepared_compressor(cache, q, seq_len);
                let completed = completed_blocks(ready, q.ratio, seq_len);
                if ready.compressed_rows + completed > ready.compressed_capacity {
                    (Err(AttentionError::CompressorCapacity), ready)
                } else {
                    (
                        Ok(
                            CompressorStep {
                                allocation: CompressorAllocation {
                                    pending: lacks_pending(cache, q.ratio, width, q.head_dim),
                                    compressed: lacks_compressed(
                                        with_pending(cache, q.ratio, width, q.head_dim),
                                        q.capacity_rows,
                                        q.head_dim,
                                    ),
                                },
                                allocate_kv: !(roomy.kv_raw matches Some(old) && hidden_fits(
                                    old,
                                    width,
                                    seq_len,
                                )),
                                allocate_score: !(roomy.score_raw matches Some(old) && hidden_fits(
                                    old,
                                    width,
                                    seq_len,
                                )),
                                args: compressor_args(c, q, ready, seq_len),
                                completed: completed as usize,
                            },
                        ),
                        advanced_compressor(ready, q.ratio, seq_len),
                    )
                }
            },
        }
    }
}

/// The width and the sums of an update can be counted.
pub open spec fn update_countable(
    q: CompressorRequest,
    seq_len: usize,
    cache: DeepseekGpuCompressorRuntimeCache,
) -> bool {
    &&& compressor_width(q.head_dim, q.overlap) <= usize::MAX
    &&& cache.compressed_rows + cache.pending_len + seq_len <= usize::MAX
}

/// Plans an update of a compressor and of its cache.
pub fn update_compressor_gpu_cache(
    c: &AttentionConfig,
    w: &DeepseekV4Compressor,
    q: &CompressorRequest,
    seq_len: usize,
    cache: &mut DeepseekGpuCompressorRuntimeCache,
) -> (r: Result<CompressorStep, AttentionError>)
    requires
        q.ratio > 0 ==> update_countable(*q, seq_len, *old(cache)),
    ensures
        (r, *final(cache)) == compressor_update(*c, *w, *q, seq_len, *old(cache)),
{
    if q.ratio == 0 {
        return Err(AttentionError::ZeroRatio);
    }
    let width: usize = if q.overlap {
        2 * q.head_dim
    } else {
        q.head_dim
    };
    if w.wkv.rows != width || w.wgate.rows != width {
        return Err(AttentionError::CompressorRows);
    }
    proof {
        assert(q.ratio * q.head_dim <= q.ratio * width) by (nonlinear_arith)
            requires
                q.head_dim <= width,
                q.ratio >= 0,
        ;
    }
    let allocation: CompressorAllocation = match cache.ensure_gpu_compressor_cache(
        q.capacity_rows,
        q.ratio,
        width,
        q.head_dim,
    ) {
        Ok(a) => a,
        Err(e) => {
            return Err(AttentionError::CompressorCache(e));
        },
    };
    let allocate_kv: bool = ensure_hidden_scratch(&mut cache.kv_raw, width, seq_len);
    let allocate_score: bool = ensure_hidden_scratch(&mut cache.score_raw, width, seq_len);
    let waiting: usize = cache.pending_len + seq_len;
    proof {
        assert(waiting as nat / q.ratio as nat <= waiting) by (nonlinear_arith)
            requires
                q.ratio > 0,
        ;
    }
    let completed: usize = waiting / q.ratio;
    if cache.compressed_rows + completed > cache.compressed_capacity {
        return Err(AttentionError::CompressorCapacity);
    }
    let rope_dim: usize = if q.apply_rope {
        c.rope_dim
    } else {
        0
    };
    let original: usize = if q.apply_rope {
        c.original_positions
    } else {
        0
    };
    let args: CompressorArgs = CompressorArgs {
        seq_len: seq_len as i32,
        start_pos: q.start_pos as i32,
        pending_len: cache.pending_len as i32,
        compressed_rows: cache.compressed_rows as i32,
        head_dim: q.head_dim as i32,
        ratio: q.ratio as i32,
        width: width as i32,
        overlap: flag_of(q.overlap),
        has_previous: flag_of(cache.compressed_rows > 0),
        rope_dim: rope_dim as i32,
        original_positions: original as i32,
    };
    cache.compressed_rows = cache.compressed_rows + completed;
    cache.pending_len = waiting % q.ratio;
    Ok(CompressorStep { allocation, allocate_kv, allocate_score, args, completed })
}

/// No row is lost: the rows compressed and the rows that wait grow by exactly
/// the rows of the step, and fewer rows wait than a block takes.
pub proof fn law_rows_are_compressed_or_wait(
    cache: DeepseekGpuCompressorRuntimeCache,
    ratio: usize,
    seq_len: usize,
)
    requires
        ratio > 0,
        cache.compressed_rows + cache.pending_len + seq_len <= usize::MAX,
    ensures
        ({
            let after = advanced_compressor(cache, ratio, seq_len);
            &&& after.compressed_rows * ratio + after.pending_len == cache.compressed_rows * ratio
                + cache.pending_len + seq_len
            &&& after.pending_len < ratio
        }),
{
    let waiting = (cache.pending_len + seq_len) as int;
    let r = ratio as int;
    let rows = cache.compressed_rows as int;
    vstd::arithmetic::div_mod::lemma_fundamental_div_mod(waiting, r);
    assert(0 <= waiting % r < r) by (nonlinear_arith)
        requires
            r > 0,
    ;
    assert(0 <= waiting / r <= waiting) by (nonlinear_arith)
        requires
            r > 0,
            waiting >= 0,
    ;
    let blocks = waiting / r;
    assert((rows + blocks) * r == rows * r + r * blocks) by (nonlinear_arith);
}

/// What is compressed in one piece: the whole blocks of a sequence.
#[derive(Clone, Copy, Debug, PartialEq, Eq, Structural)]
pub struct TempCompression {
    /// The update; none where no block is complete.
    pub step: Option<CompressorStep>,
    pub rows: HiddenShape,
}

/// The empty cache of a compression in one piece.
pub open spec fn temp_cache(q: CompressorRequest) -> DeepseekGpuCompressorRuntimeCache {
    DeepseekGpuCompressorRuntimeCache {
        compressed_capacity: q.capacity_rows,
        pending_width: compressor_width(q.head_dim, q.overlap) as usize,
        head_dim: q.head_dim,
        ..no_compressor_cache()
    }
}

/// The request of a compression in one piece.
pub open spec fn temp_request(q: CompressorRequest, seq_len: usize) -> CompressorRequest {
    CompressorRequest { capacity_rows: (seq_len / q.ratio) as usize, ..q }
}

/// What compressing a sequence in one piece gives.
pub open spec fn temp_compression(
    c: AttentionConfig,
    w: DeepseekV4Compressor,
    q: CompressorRequest,
    seq_len: usize,
) -> Result<TempCompression, AttentionError> {
    if seq_len / q.ratio == 0 {
        Ok(
            TempCompression {
                step: None,
                rows: HiddenShape { hidden_dim: q.head_dim, seq_len: 0 },
            },
        )
    } else {
        let request = temp_request(q, seq_len);
        let (r, after) = compressor_update(c, w, request, seq_len, temp_cache(request));
        match r {
            Err(e) => Err(e),
            Ok(step) => Ok(
                TempCompression {
                    step: Some(step),
                    rows: HiddenShape { hidden_dim: q.head_dim, seq_len: after.compressed_rows },
                },
            ),
        }
    }
}

/// Plans the compression of a sequence in one piece.
pub fn compressor_forward_gpu_temp(
    c: &AttentionConfig,
    w: &DeepseekV4Compressor,
    q: &CompressorRequest,
    seq_len: usize,
) -> (r: Result<TempCompression, AttentionError>)
    requires
        q.ratio > 0,
        compressor_width(q.head_dim, q.overlap) <= usize::MAX,
    ensures
        r == temp_compression(*c, *w, *q, seq_len),
{
    let rows: usize = seq_len / q.ratio;
    if rows == 0 {
        return Ok(
            TempCompression {
                step: None,
                rows: HiddenShape { hidden_dim: q.head_dim, seq_len: 0 },
            },
        );
    }
    let request: CompressorRequest = CompressorRequest { capacity_rows: rows, ..*q };
    let width: usize = if q.overlap {
        2 * q.head_dim
    } else {
        q.head_dim
    };
    let mut cache: DeepseekGpuCompressorRuntimeCache = DeepseekGpuCompressorRuntimeCache::default();
    cache.compressed_capacity = rows;
    cache.pending_width = width;
    cache.head_dim = q.head_dim;
    match update_compressor_gpu_cache(c, w, &request, seq_len, &mut cache) {
        Err(e) => Err(e),
        Ok(step) => Ok(
            TempCompression {
                step: Some(step),
                rows: HiddenShape { hidden_dim: q.head_dim, seq_len: cache.compressed_rows },
            },
        ),
    }
}

/// Only complete blocks are compressed, and the room asked for is always
/// enough.
pub proof fn law_only_complete_blocks(
    c: AttentionConfig,
    w: DeepseekV4Compressor,
    q: CompressorRequest,
    seq_len: usize,
)
    requires
        q.ratio > 0,
    ensures
        temp_compression(c, w, q, seq_len) != Err::<TempCompression, AttentionError>(
            AttentionError::CompressorCapacity,
        ),
        temp_compression(c, w, q, seq_len) matches Ok(t) ==> t.rows.seq_len == seq_len / q.ratio,
{
    let rows = seq_len / q.ratio;
    assert(rows <= seq_len) by (nonlinear_arith)
        requires
            rows == seq_len / q.ratio,
            q.ratio > 0,
    ;
    let request = temp_request(q, seq_len);
    let width = compressor_width(request.head_dim, request.overlap) as usize;
    let start = temp_cache(request);
    let ready = prepared_compressor(start, request, seq_len);
    assert(ready.compressed_rows == 0 && ready.pending_len == 0);
    assert(ready.compressed_capacity == rows);
    assert(completed_blocks(ready, request.ratio, seq_len) == rows);
}

/// Compressing a sequence in two steps leaves the same cache as compressing it
/// in one.
pub proof fn law_chunks_add_up(
    cache: DeepseekGpuCompressorRuntimeCache,
    ratio: usize,
    first: usize,
    second: usize,
)
    requires
        ratio > 0,
        cache.compressed_rows + cache.pending_len + first + second <= usize::MAX,
    ensures
        advanced_compressor(advanced_compressor(cache, ratio, first), ratio, second)
            == advanced_compressor(cache, ratio, (first + second) as usize),
{
    let r = ratio as int;
    let a = (cache.pending_len + first) as int;
    let b = second as int;
    let q = a / r;
    let m = a % r;
    let q2 = (m + b) / r;
    let m2 = (m + b) % r;
    vstd::arithmetic::div_mod::lemma_fundamental_div_mod(a, r);
    vstd::arithmetic::div_mod::lemma_fundamental_div_mod(m + b, r);
    assert(0 <= m < r && 0 <= m2 < r && 0 <= q <= a && 0 <= q2 <= m + b) by (nonlinear_arith)
        requires
            r > 0,
            a >= 0,
            b >= 0,
            q == a / r,
            m == a % r,
            m >= 0,
            q2 == (m + b) / r,
            m2 == (m + b) % r,
    ;
    assert(a + b == (q + q2) * r + m2) by (nonlinear_arith)
        requires
            a == r * q + m,
            m + b == r * q2 + m2,
    ;
    vstd::arithmetic::div_mod::lemma_fundamental_div_mod_converse(a + b, r, q + q2, m2);
    assert(q + m <= a) by (nonlinear_arith)
        requires
            a == r * q + m,
            r >= 1,
            q >= 0,
    ;
}

} // verus!
