//! The attention block of a layer.
//!
//! Queries come from a low-rank projection, keys and values are one and the
//! same head. Depending on its compression ratio a layer attends to the window
//! alone, to all compressed rows, or to those that an indexer selects.

use vstd::prelude::*;

use crate::arith::ceil_div;
use crate::arith::div_ceil;
use crate::model::deepseek::attention::{
    after_finish, after_window, compressor_update, compressor_width, finish_plan, fresh_states,
    qk_fault, step_countable, swa_fault, swa_plan, temp_compression,
};
use crate::model::deepseek::attention::{
    compressor_forward_gpu_temp, finish_attention_gpu, forward_swa_attention_gpu,
    update_compressor_gpu_cache, AttentionConfig, AttentionError, AttentionStep, CompressorRequest,
    CompressorStep, CorePlan, DeepseekV4Attention, DeepseekV4Indexer, StatesUse, TempCompression,
};
use crate::model::deepseek::config::AttentionMode;
use crate::model::deepseek::device::{HiddenShape, LinearDispatchPhase};
use crate::model::deepseek::scratch::{hidden_fits, taken_hidden};
use crate::model::deepseek::scratch::{take_hidden_scratch, DeepseekHiddenRuntimeScratch};
use crate::model::deepseek::state::no_compressor_cache;
use crate::model::deepseek::state::{
    DeepseekAttentionRuntimeCache, DeepseekGpuCompressorRuntimeCache,
};

verus! {

/// The selection of compressed blocks.
#[derive(Clone, Copy, Debug, PartialEq, Eq, Structural)]
pub struct CsaPlan {
    pub queries: HiddenShape,
    pub weights: HiddenShape,
    /// Entries of the list of selected blocks.
    pub selected: usize,
    pub seq_len: i32,
    pub query_dim: i32,
    pub local_heads: i32,
    pub head_dim: i32,
    pub key_count: i32,
    pub ratio: i32,
    pub topk: i32,
    pub start_pos: i32,
}

/// `a` is a multiple of `b`; zero alone is a multiple of zero.
pub open spec fn is_multiple(a: usize, b: usize) -> bool {
    if b == 0 {
        a == 0
    } else {
        a % b == 0
    }
}

fn multiple_of(a: usize, b: usize) -> (yes: bool)
    ensures
        yes == is_multiple(a, b),
{
    if b == 0 {
        a == 0
    } else {
        a % b == 0
    }
}

/// The selection among `key_count` blocks, or why there is none.
pub open spec fn csa_plan(
    c: AttentionConfig,
    ix: DeepseekV4Indexer,
    s: AttentionStep,
    key_count: usize,
) -> Result<CsaPlan, AttentionError> {
    if !is_multiple(ix.wq_b.rows, c.index_head_dim) {
        Err(AttentionError::IndexWidth)
    } else {
        let heads = ix.wq_b.rows / c.index_head_dim;
        if ix.weights_proj.rows != heads {
            Err(AttentionError::IndexHeads)
        } else {
            Ok(
                CsaPlan {
                    queries: HiddenShape { hidden_dim: ix.wq_b.rows, seq_len: s.token_count },
                    weights: HiddenShape {
                        hidden_dim: ix.weights_proj.rows,
                        seq_len: s.token_count,
                    },
                    selected: (s.token_count * c.index_topk) as usize,
                    seq_len: s.token_count as i32,
                    query_dim: ix.wq_b.rows as i32,
                    local_heads: heads as i32,
                    head_dim: c.index_head_dim as i32,
                    key_count: key_count as i32,
                    ratio: s.ratio as i32,
                    topk: c.index_topk as i32,
                    start_pos: s.start_pos as i32,
                },
            )
        }
    }
}

/// Plans the selection among `key_count` blocks.
pub fn csa_selected_blocks_gpu(
    c: &AttentionConfig,
    ix: &DeepseekV4Indexer,
    s: &AttentionStep,
    key_count: usize,
) -> (r: Result<CsaPlan, AttentionError>)
    requires
        c.index_head_dim > 0 || ix.wq_b.rows > 0,
        s.token_count * c.index_topk <= usize::MAX,
    ensures
        r == csa_plan(*c, *ix, *s, key_count),
{
    if !multiple_of(ix.wq_b.rows, c.index_head_dim) {
        return Err(AttentionError::IndexWidth);
    }
    let heads: usize = ix.wq_b.rows / c.index_head_dim;
    if ix.weights_proj.rows != heads {
        return Err(AttentionError::IndexHeads);
    }
    Ok(
        CsaPlan {
            queries: HiddenShape { hidden_dim: ix.wq_b.rows, seq_len: s.token_count },
            weights: HiddenShape { hidden_dim: ix.weights_proj.rows, seq_len: s.token_count },
            selected: s.token_count * c.index_topk,
            seq_len: s.token_count as i32,
            query_dim: ix.wq_b.rows as i32,
            local_heads: heads as i32,
            head_dim: c.index_head_dim as i32,
            key_count: key_count as i32,
            ratio: s.ratio as i32,
            topk: c.index_topk as i32,
            start_pos: s.start_pos as i32,
        },
    )
}

/// How rows are compressed.
#[derive(Clone, Copy, Debug, PartialEq, Eq, Structural)]
pub enum Compression {
    /// The step's own rows, in one piece.
    Whole(TempCompression),
    /// On top of the rows of earlier steps.
    Update(CompressorStep),
}

/// How blocks are selected: the indexer's own compression, then the choice.
#[derive(Clone, Copy, Debug, PartialEq, Eq, Structural)]
pub struct Selection {
    pub keys: Compression,
    pub choice: CsaPlan,
}

/// The attention of a layer.
#[derive(Clone, Copy, Debug, PartialEq, Eq, Structural)]
pub enum AttentionPlan {
    Window(CorePlan),
    Compressed { rows: Compression, selection: Option<Selection>, core: CorePlan },
}

impl AttentionPlan {
    /// The attention itself.
    pub open spec fn core_plan(self) -> CorePlan {
        match self {
            AttentionPlan::Window(core) => core,
            AttentionPlan::Compressed { core, .. } => core,
        }
    }

    /// The attention itself.
    pub fn attended(&self) -> (plan: CorePlan)
        ensures
            plan == self.core_plan(),
    {
        match self {
            AttentionPlan::Window(core) => *core,
            AttentionPlan::Compressed { core, .. } => *core,
        }
    }
}

/// The request for the rows that a layer attends to: small ratios overlap.
pub open spec fn row_request(s: AttentionStep, capacity_rows: usize) -> CompressorRequest {
    CompressorRequest {
        head_dim: s.head_dim,
        ratio: s.ratio,
        overlap: s.ratio < 16,
        start_pos: s.start_pos,
        apply_rope: true,
        capacity_rows,
    }
}

/// The request for the indexer's rows, which overlap and are not rotated.
pub open spec fn index_request(
    c: AttentionConfig,
    s: AttentionStep,
    capacity_rows: usize,
) -> CompressorRequest {
    CompressorRequest {
        head_dim: c.index_head_dim,
        ratio: s.ratio,
        overlap: true,
        start_pos: s.start_pos,
        apply_rope: false,
        capacity_rows,
    }
}

/// The sizes that compressed attention needs can be counted: those of the rows
/// where a layer has a compressor, those of the selection where blocks are selected
/// by an indexer.
pub open spec fn compression_countable(
    c: AttentionConfig,
    s: AttentionStep,
    a: DeepseekV4Attention,
) -> bool {
    &&& step_countable(c, s)
    &&& a.compressor is Some ==> compressor_width(s.head_dim, s.ratio < 16) <= usize::MAX
    &&& s.mode == AttentionMode::CompressedSparse ==> (a.indexer matches Some(ix)
        ==> selection_countable(c, ix, s))
}

/// The sizes that the selection of blocks needs can be counted.
pub open spec fn selection_countable(
    c: AttentionConfig,
    ix: DeepseekV4Indexer,
    s: AttentionStep,
) -> bool {
    &&& c.index_head_dim > 0 || ix.wq_b.rows > 0
    &&& 2 * c.index_head_dim <= usize::MAX
    &&& s.token_count * c.index_topk <= usize::MAX
}

/// Compressed attention without a cache. Tokens that fill no block leave nothing
/// to compress: a layer without a compressor then sees the window alone.
pub open spec fn uncached_attention(
    c: AttentionConfig,
    s: AttentionStep,
    a: DeepseekV4Attention,
    q: HiddenShape,
    kv: HiddenShape,
) -> Result<AttentionPlan, AttentionError> {
    match a.compressor {
        None => if s.token_count < s.ratio {
            match swa_fault(c, s, a, q, kv) {
                Some(e) => Err(e),
                None => Ok(AttentionPlan::Window(swa_plan(c, s, a, None))),
            }
        } else {
            Err(AttentionError::MissingCompressor)
        },
        Some(w) => match temp_compression(c, w, row_request(s, 0), s.token_count) {
            Err(e) => Err(e),
            Ok(rows) => {
                let selection = if s.mode == AttentionMode::CompressedSparse {
                    whole_selection(c, s, a)
                } else {
                    Ok(None)
                };
                match selection {
                    Err(e) => Err(e),
                    Ok(selection) => match qk_fault(s, q, kv) {
                        Some(e) => Err(e),
                        None => Ok(
                            AttentionPlan::Compressed {
                                rows: Compression::Whole(rows),
                                selection,
                                core: finish_plan(c, s, a, rows.rows.seq_len, None),
                            },
                        ),
                    },
                }
            },
        },
    }
}

/// The selection of blocks without a cache.
pub open spec fn whole_selection(
    c: AttentionConfig,
    s: AttentionStep,
    a: DeepseekV4Attention,
) -> Result<Option<Selection>, AttentionError> {
    match a.indexer {
        None => Err(AttentionError::MissingIndexer),
        Some(ix) => match temp_compression(
            c,
            ix.compressor,
            index_request(c, s, 0),
            s.token_count,
        ) {
            Err(e) => Err(e),
            Ok(keys) => match csa_plan(c, ix, s, keys.rows.seq_len) {
                Err(e) => Err(e),
                Ok(choice) => Ok(Some(Selection { keys: Compression::Whole(keys), choice })),
            },
        },
    }
}

/// Plans compressed attention without a cache.
pub fn forward_attention_gpu_uncached(
    c: &AttentionConfig,
    s: &AttentionStep,
    a: &DeepseekV4Attention,
    q: HiddenShape,
    kv: HiddenShape,
) -> (r: Result<AttentionPlan, AttentionError>)
    requires
        s.ratio > 0,
        compression_countable(*c, *s, *a),
    ensures
        r == uncached_attention(*c, *s, *a, q, kv),
{
    let mut none: Option<DeepseekAttentionRuntimeCache> = None;
    let w = match &a.compressor {
        Some(w) => w,
        None => {
            if s.token_count < s.ratio {
                return match forward_swa_attention_gpu(c, s, a, q, kv, &mut none) {
                    Ok(core) => Ok(AttentionPlan::Window(core)),
                    Err(e) => Err(e),
                };
            }
            return Err(AttentionError::MissingCompressor);
        },
    };
    let request: CompressorRequest = CompressorRequest {
        head_dim: s.head_dim,
        ratio: s.ratio,
        overlap: s.ratio < 16,
        start_pos: s.start_pos,
        apply_rope: true,
        capacity_rows: 0,
    };
    let rows: TempCompression = match compressor_forward_gpu_temp(c, w, &request, s.token_count) {
        Ok(t) => t,
        Err(e) => {
            return Err(e);
        },
    };
    let mut selection: Option<Selection> = None;
    if s.mode == AttentionMode::CompressedSparse {
        let ix = match &a.indexer {
            Some(ix) => ix,
            None => {
                return Err(AttentionError::MissingIndexer);
            },
        };
        let index: CompressorRequest = CompressorRequest {
            head_dim: c.index_head_dim,
            ratio: s.ratio,
            overlap: true,
            start_pos: s.start_pos,
            apply_rope: false,
            capacity_rows: 0,
        };
        let keys: TempCompression = match compressor_forward_gpu_temp(
            c,
            &ix.compressor,
            &index,
            s.token_count,
        ) {
            Ok(t) => t,
            Err(e) => {
                return Err(e);
            },
        };
        match csa_selected_blocks_gpu(c, ix, s, keys.rows.seq_len) {
            Ok(choice) => {
                selection = Some(Selection { keys: Compression::Whole(keys), choice });
            },
            Err(e) => {
                return Err(e);
            },
        }
    }
    match finish_attention_gpu(c, s, a, q, kv, rows.rows.seq_len, &mut none) {
        Ok(core) => Ok(
            AttentionPlan::Compressed { rows: Compression::Whole(rows), selection, core },
        ),
        Err(e) => Err(e),
    }
}

/// The cache of a compressor, empty where there is none yet.
pub open spec fn compressor_or_empty(
    cache: Option<DeepseekGpuCompressorRuntimeCache>,
) -> DeepseekGpuCompressorRuntimeCache {
    match cache {
        Some(cache) => cache,
        None => no_compressor_cache(),
    }
}

/// Compressed rows of the longest context.
pub open spec fn row_capacity(c: AttentionConfig, s: AttentionStep) -> usize {
    ceil_div(c.max_positions as nat, s.ratio as nat) as usize
}

/// The selection of blocks from the indexer's cache, and the cache afterwards.
pub open spec fn cached_selection(
    c: AttentionConfig,
    s: AttentionStep,
    a: DeepseekV4Attention,
    cache: DeepseekAttentionRuntimeCache,
) -> (Result<Option<Selection>, AttentionError>, DeepseekAttentionRuntimeCache) {
    if s.mode != AttentionMode::CompressedSparse {
        (Ok(None), cache)
    } else {
        match a.indexer {
            None => (Err(AttentionError::MissingIndexer), cache),
            Some(ix) => {
                let (r, index) = compressor_update(
                    c,
                    ix.compressor,
                    index_request(c, s, row_capacity(c, s)),
                    s.token_count,
                    compressor_or_empty(cache.indexer_gpu),
                );
                let after = DeepseekAttentionRuntimeCache { indexer_gpu: Some(index), ..cache };
                match r {
                    Err(e) => (Err(e), after),
                    Ok(step) => if index.compressed is None {
                        (Err(AttentionError::MissingRows), after)
                    } else {
                        match csa_plan(c, ix, s, index.compressed_rows) {
                            Err(e) => (Err(e), after),
                            Ok(choice) => (
                                Ok(Some(Selection { keys: Compression::Update(step), choice })),
                                after,
                            ),
                        }
                    },
                }
            },
        }
    }
}

/// Compressed attention on top of the rows of earlier steps, and the cache
/// afterwards.
pub open spec fn cached_attention(
    c: AttentionConfig,
    s: AttentionStep,
    a: DeepseekV4Attention,
    q: HiddenShape,
    kv: HiddenShape,
    cache: DeepseekAttentionRuntimeCache,
) -> (Result<AttentionPlan, AttentionError>, DeepseekAttentionRuntimeCache) {
    match a.compressor {
        None => (Err(AttentionError::MissingCompressor), cache),
        Some(w) => {
            let (r, rows) = compressor_update(
                c,
                w,
                row_request(s, row_capacity(c, s)),
                s.token_count,
                compressor_or_empty(cache.compressed_gpu),
            );
            let updated = DeepseekAttentionRuntimeCache { compressed_gpu: Some(rows), ..cache };
            match r {
                Err(e) => (Err(e), updated),
                Ok(step) => {
                    let (selection, selected) = cached_selection(c, s, a, updated);
                    match selection {
                        Err(e) => (Err(e), selected),
                        Ok(selection) => if rows.compressed is None {
                            (Err(AttentionError::MissingRows), selected)
                        } else {
                            match qk_fault(s, q, kv) {
                                Some(e) => (Err(e), selected),
                                None => (
                                    Ok(
                                        AttentionPlan::Compressed {
                                            rows: Compression::Update(step),
                                            selection,
                                            core: finish_plan(
                                                c,
                                                s,
                                                a,
                                                rows.compressed_rows,
                                                Some(selected),
                                            ),
                                        },
                                    ),
                                    after_finish(c, s, a, Some(selected))->Some_0,
                                ),
                            }
                        },
                    }
                },
            }
        },
    }
}

/// The sums of the caches' rows can be counted.
pub open spec fn caches_countable(s: AttentionStep, cache: DeepseekAttentionRuntimeCache) -> bool {
    let rows = compressor_or_empty(cache.compressed_gpu);
    let index = compressor_or_empty(cache.indexer_gpu);
    &&& rows.compressed_rows + rows.pending_len + s.token_count <= usize::MAX
    &&& s.mode == AttentionMode::CompressedSparse ==> index.compressed_rows + index.pending_len
        + s.token_count <= usize::MAX
}

fn plan_cached_selection(
    c: &AttentionConfig,
    s: &AttentionStep,
    a: &DeepseekV4Attention,
    cache: &mut DeepseekAttentionRuntimeCache,
) -> (r: Result<Option<Selection>, AttentionError>)
    requires
        s.ratio > 0,
        compression_countable(*c, *s, *a),
        s.mode == AttentionMode::CompressedSparse ==> compressor_or_empty(
            old(cache).indexer_gpu,
        ).compressed_rows + compressor_or_empty(old(cache).indexer_gpu).pending_len + s.token_count
            <= usize::MAX,
    ensures
        (r, *final(cache)) == cached_selection(*c, *s, *a, *old(cache)),
{
    if s.mode != AttentionMode::CompressedSparse {
        return Ok(None);
    }
    let ix = match &a.indexer {
        Some(ix) => ix,
        None => {
            return Err(AttentionError::MissingIndexer);
        },
    };
    let request: CompressorRequest = CompressorRequest {
        head_dim: c.index_head_dim,
        ratio: s.ratio,
        overlap: true,
        start_pos: s.start_pos,
        apply_rope: false,
        capacity_rows: div_ceil(c.max_positions, s.ratio),
    };
    let mut index: DeepseekGpuCompressorRuntimeCache = match cache.indexer_gpu {
        Some(present) => present,
        None => DeepseekGpuCompressorRuntimeCache::default(),
    };
    let updated = update_compressor_gpu_cache(
        c,
        &ix.compressor,
        &request,
        s.token_count,
        &mut index,
    );
    cache.indexer_gpu = Some(index);
    let step: CompressorStep = match updated {
        Ok(step) => step,
        Err(e) => {
            return Err(e);
        },
    };
    if index.compressed.is_none() {
        return Err(AttentionError::MissingRows);
    }
    match csa_selected_blocks_gpu(c, ix, s, index.compressed_rows) {
        Ok(choice) => Ok(Some(Selection { keys: Compression::Update(step), choice })),
        Err(e) => Err(e),
    }
}

/// Plans compressed attention on top of the rows of earlier steps.
pub fn forward_attention_gpu_cached(
    c: &AttentionConfig,
    s: &AttentionStep,
    a: &DeepseekV4Attention,
    q: HiddenShape,
    kv: HiddenShape,
    cache: &mut DeepseekAttentionRuntimeCache,
) -> (r: Result<AttentionPlan, AttentionError>)
    requires
        s.ratio > 0,
        compression_countable(*c, *s, *a),
        caches_countable(*s, *old(cache)),
    ensures
        (r, *final(cache)) == cached_attention(*c, *s, *a, q, kv, *old(cache)),
{
    let w = match &a.compressor {
        Some(w) => w,
        None => {
            return Err(AttentionError::MissingCompressor);
        },
    };
    let request: CompressorRequest = CompressorRequest {
        head_dim: s.head_dim,
        ratio: s.ratio,
        overlap: s.ratio < 16,
        start_pos: s.start_pos,
        apply_rope: true,
        capacity_rows: div_ceil(c.max_positions, s.ratio),
    };
    let mut rows: DeepseekGpuCompressorRuntimeCache = match cache.compressed_gpu {
        Some(present) => present,
        None => DeepseekGpuCompressorRuntimeCache::default(),
    };
    let updated = update_compressor_gpu_cache(c, w, &request, s.token_count, &mut rows);
    cache.compressed_gpu = Some(rows);
    let step: CompressorStep = match updated {
        Ok(step) => step,
        Err(e) => {
            return Err(e);
        },
    };
    let selection: Option<Selection> = match plan_cached_selection(c, s, a, cache) {
        Ok(selection) => selection,
        Err(e) => {
            return Err(e);
        },
    };
    if rows.compressed.is_none() {
        return Err(AttentionError::MissingRows);
    }
    let mut slot: Option<DeepseekAttentionRuntimeCache> = Some(*cache);
    let core = finish_attention_gpu(c, s, a, q, kv, rows.compressed_rows, &mut slot);
    if let Some(after) = slot {
        *cache = after;
    }
    match core {
        Ok(core) => Ok(
            AttentionPlan::Compressed { rows: Compression::Update(step), selection, core },
        ),
        Err(e) => Err(e),
    }
}

/// The attention of a layer, with or without a cache.
pub open spec fn attention_plan(
    c: AttentionConfig,
    s: AttentionStep,
    a: DeepseekV4Attention,
    q: HiddenShape,
    kv: HiddenShape,
    cache: Option<DeepseekAttentionRuntimeCache>,
) -> (Result<AttentionPlan, AttentionError>, Option<DeepseekAttentionRuntimeCache>) {
    if s.ratio == 0 {
        match swa_fault(c, s, a, q, kv) {
            Some(e) => (Err(e), cache),
            None => (
                Ok(AttentionPlan::Window(swa_plan(c, s, a, cache))),
                after_window(c, s, cache),
            ),
        }
    } else {
        match cache {
            None => (uncached_attention(c, s, a, q, kv), None),
            Some(present) => {
                let (r, after) = cached_attention(c, s, a, q, kv, present);
                (r, Some(after))
            },
        }
    }
}

/// Plans the attention of a layer: a layer without a ratio sees the window
/// alone.
pub fn forward_attention_gpu(
    c: &AttentionConfig,
    s: &AttentionStep,
    a: &DeepseekV4Attention,
    q: HiddenShape,
    kv: HiddenShape,
    cache: &mut Option<DeepseekAttentionRuntimeCache>,
) -> (r: Result<AttentionPlan, AttentionError>)
    requires
        step_countable(*c, *s),
        s.ratio > 0 ==> compression_countable(*c, *s, *a),
        s.ratio > 0 ==> (*old(cache) matches Some(present) ==> caches_countable(*s, present)),
    ensures
        (r, *final(cache)) == attention_plan(*c, *s, *a, q, kv, *old(cache)),
{
    if s.ratio == 0 {
        return match forward_swa_attention_gpu(c, s, a, q, kv, cache) {
            Ok(core) => Ok(AttentionPlan::Window(core)),
            Err(e) => Err(e),
        };
    }
    match *cache {
        Some(present) => {
            let mut kept: DeepseekAttentionRuntimeCache = present;
            let r = forward_attention_gpu_cached(c, s, a, q, kv, &mut kept);
            *cache = Some(kept);
            r
        },
        None => forward_attention_gpu_uncached(c, s, a, q, kv),
    }
}

/// The projections of a step.
#[derive(Clone, Copy, Debug, PartialEq, Eq, Structural)]
pub struct Projections {
    pub c_q: StatesUse,
    pub c_q_normed: StatesUse,
    pub q_raw: StatesUse,
    pub kv_raw: StatesUse,
    pub kv_normed: StatesUse,
    /// Phase of the products, where they are told one.
    pub phase: Option<LinearDispatchPhase>,
}

/// A step of an attention block.
#[derive(Clone, Copy, Debug, PartialEq, Eq, Structural)]
pub struct AttentionRun {
    pub projections: Projections,
    pub plan: AttentionPlan,
}

/// The step of a block over hidden states.
pub open spec fn block_step(
    c: AttentionConfig,
    a: DeepseekV4Attention,
    hidden: HiddenShape,
    start_pos: usize,
    ratio: usize,
    mode: AttentionMode,
) -> AttentionStep {
    AttentionStep {
        token_count: hidden.seq_len,
        start_pos,
        local_heads: (a.wq_b.rows / c.head_dim) as usize,
        local_width: a.wq_b.rows,
        head_dim: c.head_dim,
        ratio,
        mode,
    }
}

/// Why a block cannot take hidden states without a cache, if it cannot.
pub open spec fn block_fault(
    c: AttentionConfig,
    a: DeepseekV4Attention,
    hidden: HiddenShape,
) -> Option<
    AttentionError,
> {
    if hidden.hidden_dim != c.hidden_size {
        Some(AttentionError::HiddenDim)
    } else if c.head_dim == 0 {
        Some(AttentionError::ZeroHeadDim)
    } else if !is_multiple(a.wq_b.rows, c.head_dim) {
        Some(AttentionError::HeadWidth)
    } else if a.wq_b.rows / c.head_dim == 0 {
        Some(AttentionError::NoHeads)
    } else if a.wkv.rows != c.head_dim {
        Some(AttentionError::KvRows)
    } else if a.wo_a.cols != a.wq_b.rows {
        Some(AttentionError::OutputWidth)
    } else {
        None
    }
}

/// The projections in new buffers.
pub open spec fn fresh_projections(a: DeepseekV4Attention, s: AttentionStep) -> Projections {
    Projections {
        c_q: fresh_states(a.wq_a.rows, s),
        c_q_normed: fresh_states(a.wq_a.rows, s),
        q_raw: fresh_states(a.wq_b.rows, s),
        kv_raw: fresh_states(a.wkv.rows, s),
        kv_normed: fresh_states(a.wkv.rows, s),
        phase: None,
    }
}

/// A block without a cache: it sees the tokens of the step alone.
pub open spec fn block_forward(
    c: AttentionConfig,
    a: DeepseekV4Attention,
    hidden: HiddenShape,
    ratio: Option<usize>,
    mode: AttentionMode,
) -> Result<AttentionRun, AttentionError> {
    match ratio {
        None => Err(AttentionError::MissingRatio),
        Some(ratio) => match block_fault(c, a, hidden) {
            Some(e) => Err(e),
            None => {
                let s = block_step(c, a, hidden, 0, ratio, mode);
                let q = HiddenShape { hidden_dim: a.wq_b.rows, seq_len: hidden.seq_len };
                let kv = HiddenShape { hidden_dim: a.wkv.rows, seq_len: hidden.seq_len };
                match attention_plan(c, s, a, q, kv, None).0 {
                    Err(e) => Err(e),
                    Ok(plan) => Ok(AttentionRun { projections: fresh_projections(a, s), plan }),
                }
            },
        },
    }
}

/// The sizes of a step of a block can be counted.
pub open spec fn block_countable(
    c: AttentionConfig,
    a: DeepseekV4Attention,
    hidden: HiddenShape,
    start_pos: usize,
    ratio: usize,
    mode: AttentionMode,
) -> bool {
    let s = block_step(c, a, hidden, start_pos, ratio, mode);
    &&& step_countable(c, s)
    &&& ratio > 0 ==> compression_countable(c, s, a)
}

fn fresh_use(hidden_dim: usize, s: &AttentionStep) -> (states: StatesUse)
    ensures
        states == fresh_states(hidden_dim, *s),
{
    StatesUse::Fresh(HiddenShape { hidden_dim, seq_len: s.token_count })
}

/// Plans a block without a cache.
pub fn forward_sliding_window_attention(
    c: &AttentionConfig,
    a: &DeepseekV4Attention,
    hidden: HiddenShape,
    ratio: Option<usize>,
    mode: AttentionMode,
) -> (r: Result<AttentionRun, AttentionError>)
    requires
        ratio matches Some(n) ==> (block_fault(*c, *a, hidden) is None ==> block_countable(
            *c,
            *a,
            hidden,
            0,
            n,
            mode,
        )),
    ensures
        r == block_forward(*c, *a, hidden, ratio, mode),
{
    let ratio: usize = match ratio {
        Some(ratio) => ratio,
        None => {
            return Err(AttentionError::MissingRatio);
        },
    };
    if hidden.hidden_dim != c.hidden_size {
        return Err(AttentionError::HiddenDim);
    }
    if c.head_dim == 0 {
        return Err(AttentionError::ZeroHeadDim);
    }
    if !multiple_of(a.wq_b.rows, c.head_dim) {
        return Err(AttentionError::HeadWidth);
    }
    let local_heads: usize = a.wq_b.rows / c.head_dim;
    if local_heads == 0 {
        return Err(AttentionError::NoHeads);
    }
    if a.wkv.rows != c.head_dim {
        return Err(AttentionError::KvRows);
    }
    if a.wo_a.cols != a.wq_b.rows {
        return Err(AttentionError::OutputWidth);
    }
    let s: AttentionStep = AttentionStep {
        token_count: hidden.seq_len,
        start_pos: 0,
        local_heads,
        local_width: a.wq_b.rows,
        head_dim: c.head_dim,
        ratio,
        mode,
    };
    let q: HiddenShape = HiddenShape { hidden_dim: a.wq_b.rows, seq_len: hidden.seq_len };
    let kv: HiddenShape = HiddenShape { hidden_dim: a.wkv.rows, seq_len: hidden.seq_len };
    let mut none: Option<DeepseekAttentionRuntimeCache> = None;
    match forward_attention_gpu(c, &s, a, q, kv, &mut none) {
        Err(e) => Err(e),
        Ok(plan) => Ok(
            AttentionRun {
                projections: Projections {
                    c_q: fresh_use(a.wq_a.rows, &s),
                    c_q_normed: fresh_use(a.wq_a.rows, &s),
                    q_raw: fresh_use(a.wq_b.rows, &s),
                    kv_raw: fresh_use(a.wkv.rows, &s),
                    kv_normed: fresh_use(a.wkv.rows, &s),
                    phase: None,
                },
                plan,
            },
        ),
    }
}

/// Why a block with a cache cannot take hidden states, if it cannot.
pub open spec fn cached_block_fault(
    c: AttentionConfig,
    a: DeepseekV4Attention,
    hidden: HiddenShape,
) -> Option<AttentionError> {
    if hidden.hidden_dim != c.hidden_size {
        Some(AttentionError::HiddenDim)
    } else if !is_multiple(a.wq_b.rows, c.head_dim) {
        Some(AttentionError::HeadWidth)
    } else if a.wq_b.rows / c.head_dim == 0 {
        Some(AttentionError::NoHeads)
    } else {
        None
    }
}

/// A kept buffer for the rows of a step.
pub open spec fn kept_states(
    slot: Option<DeepseekHiddenRuntimeScratch>,
    hidden_dim: usize,
    seq_len: usize,
) -> StatesUse {
    StatesUse::Kept {
        scratch: taken_hidden(slot, hidden_dim, seq_len),
        allocate: !(slot matches Some(old) && hidden_fits(old, hidden_dim, seq_len)),
    }
}

/// The cache while the projections are in use: their slots are empty.
pub open spec fn without_projections(
    cache: DeepseekAttentionRuntimeCache,
) -> DeepseekAttentionRuntimeCache {
    DeepseekAttentionRuntimeCache {
        c_q: None,
        c_q_normed: None,
        q_raw: None,
        kv_raw: None,
        kv_normed: None,
        ..cache
    }
}

/// The cache with the projections of a step put back.
pub open spec fn with_projections(
    after: DeepseekAttentionRuntimeCache,
    before: DeepseekAttentionRuntimeCache,
    c: AttentionConfig,
    a: DeepseekV4Attention,
    seq_len: usize,
) -> DeepseekAttentionRuntimeCache {
    DeepseekAttentionRuntimeCache {
        c_q: Some(taken_hidden(before.c_q, a.wq_a.rows, seq_len)),
        c_q_normed: Some(taken_hidden(before.c_q_normed, a.wq_a.rows, seq_len)),
        q_raw: Some(taken_hidden(before.q_raw, a.wq_b.rows, seq_len)),
        kv_raw: Some(taken_hidden(before.kv_raw, c.head_dim, seq_len)),
        kv_normed: Some(taken_hidden(before.kv_normed, c.head_dim, seq_len)),
        ..after
    }
}

/// The projections in kept buffers.
pub open spec fn kept_projections(
    cache: DeepseekAttentionRuntimeCache,
    c: AttentionConfig,
    a: DeepseekV4Attention,
    seq_len: usize,
) -> Projections {
    Projections {
        c_q: kept_states(cache.c_q, a.wq_a.rows, seq_len),
        c_q_normed: kept_states(cache.c_q_normed, a.wq_a.rows, seq_len),
        q_raw: kept_states(cache.q_raw, a.wq_b.rows, seq_len),
        kv_raw: kept_states(cache.kv_raw, c.head_dim, seq_len),
        kv_normed: kept_states(cache.kv_normed, c.head_dim, seq_len),
        phase: Some(LinearDispatchPhase::Decode),
    }
}

/// A block with a cache, and the cache afterwards.
pub open spec fn cached_block_forward(
    c: AttentionConfig,
    a: DeepseekV4Attention,
    hidden: HiddenShape,
    start_pos: usize,
    ratio: Option<usize>,
    mode: AttentionMode,
    cache: DeepseekAttentionRuntimeCache,
) -> (Result<AttentionRun, AttentionError>, DeepseekAttentionRuntimeCache) {
    match ratio {
        None => (Err(AttentionError::MissingRatio), cache),
        Some(ratio) => match cached_block_fault(c, a, hidden) {
            Some(e) => (Err(e), cache),
            None => {
                let s = block_step(c, a, hidden, start_pos, ratio, mode);
                let q = taken_hidden(cache.q_raw, a.wq_b.rows, hidden.seq_len).hidden;
                let kv = taken_hidden(cache.kv_normed, c.head_dim, hidden.seq_len).hidden;
                let (r, after) = attention_plan(
                    c,
                    s,
                    a,
                    q,
                    kv,
                    Some(without_projections(cache)),
                );
                let full = with_projections(after->Some_0, cache, c, a, hidden.seq_len);
                match r {
                    Err(e) => (Err(e), full),
                    Ok(plan) => (
                        Ok(
                            AttentionRun {
                                projections: kept_projections(cache, c, a, hidden.seq_len),
                                plan,
                            },
                        ),
                        full,
                    ),
                }
            },
        },
    }
}

/// Plans a block with a cache: the tokens of the step follow those of the
/// cache.
pub fn forward_sliding_window_attention_incremental(
    c: &AttentionConfig,
    a: &DeepseekV4Attention,
    hidden: HiddenShape,
    start_pos: usize,
    ratio: Option<usize>,
    mode: AttentionMode,
    cache: &mut DeepseekAttentionRuntimeCache,
) -> (r: Result<AttentionRun, AttentionError>)
    requires
        ratio is Some && hidden.hidden_dim == c.hidden_size ==> c.head_dim > 0 || a.wq_b.rows > 0,
        ratio matches Some(n) ==> (cached_block_fault(*c, *a, hidden) is None ==> {
            &&& block_countable(*c, *a, hidden, start_pos, n, mode)
            &&& n > 0 ==> caches_countable(
                block_step(*c, *a, hidden, start_pos, n, mode),
                *old(cache),
            )
        }),
    ensures
        (r, *final(cache)) == cached_block_forward(
            *c,
            *a,
            hidden,
            start_pos,
            ratio,
            mode,
            *old(cache),
        ),
{
    let ratio: usize = match ratio {
        Some(ratio) => ratio,
        None => {
            return Err(AttentionError::MissingRatio);
        },
    };
    if hidden.hidden_dim != c.hidden_size {
        return Err(AttentionError::HiddenDim);
    }
    let local_width: usize = a.wq_b.rows;
    if !multiple_of(local_width, c.head_dim) {
        return Err(AttentionError::HeadWidth);
    }
    let local_heads: usize = local_width / c.head_dim;
    if local_heads == 0 {
        return Err(AttentionError::NoHeads);
    }
    let seq_len: usize = hidden.seq_len;
    let (c_q, c_q_new) = take_hidden_scratch(&mut cache.c_q, a.wq_a.rows, seq_len);
    let (c_q_normed, c_q_normed_new) = take_hidden_scratch(
        &mut cache.c_q_normed,
        a.wq_a.rows,
        seq_len,
    );
    let (q_raw, q_raw_new) = take_hidden_scratch(&mut cache.q_raw, local_width, seq_len);
    let (kv_raw, kv_raw_new) = take_hidden_scratch(&mut cache.kv_raw, c.head_dim, seq_len);
    let (kv_normed, kv_normed_new) = take_hidden_scratch(
        &mut cache.kv_normed,
        c.head_dim,
        seq_len,
    );
    let s: AttentionStep = AttentionStep {
        token_count: seq_len,
        start_pos,
        local_heads,
        local_width,
        head_dim: c.head_dim,
        ratio,
        mode,
    };
    let mut slot: Option<DeepseekAttentionRuntimeCache> = Some(*cache);
    let result = forward_attention_gpu(c, &s, a, q_raw.hidden, kv_normed.hidden, &mut slot);
    if let Some(after) = slot {
        *cache = after;
    }
    cache.c_q = Some(c_q);
    cache.c_q_normed = Some(c_q_normed);
    cache.q_raw = Some(q_raw);
    cache.kv_raw = Some(kv_raw);
    cache.kv_normed = Some(kv_normed);
    match result {
        Err(e) => Err(e),
        Ok(plan) => Ok(
            AttentionRun {
                projections: Projections {
                    c_q: StatesUse::Kept { scratch: c_q, allocate: c_q_new },
                    c_q_normed: StatesUse::Kept { scratch: c_q_normed, allocate: c_q_normed_new },
                    q_raw: StatesUse::Kept { scratch: q_raw, allocate: q_raw_new },
                    kv_raw: StatesUse::Kept { scratch: kv_raw, allocate: kv_raw_new },
                    kv_normed: StatesUse::Kept { scratch: kv_normed, allocate: kv_normed_new },
                    phase: Some(LinearDispatchPhase::Decode),
                },
                plan,
            },
        ),
    }
}

} // verus!
