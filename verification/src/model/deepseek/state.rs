//! State of a DeepSeek V4 request.

use vstd::prelude::*;

use crate::arith::smaller;
use crate::model::deepseek::scratch::no_moe_buffers;
use crate::model::deepseek::scratch::{
    DeepseekHiddenRuntimeScratch, DeepseekMhcRuntimeScratch, DeepseekMoeRuntimeCache,
};
use crate::model::generation_state::{
    GenerationStateBase, KvAction, LogitsSource, Migration, MigrationError,
};
use crate::model::generation_state::{range_migration, slot_migration};
use crate::model::requests::KVFormat;

verus! {

/// Cache of a compressor: rows that wait for their block to fill, and the
/// compressed rows.
///
/// Buffers are given by their number of elements.
#[derive(Clone, Copy, Debug, PartialEq, Eq, Structural)]
pub struct DeepseekGpuCompressorRuntimeCache {
    pub kv_raw: Option<DeepseekHiddenRuntimeScratch>,
    pub score_raw: Option<DeepseekHiddenRuntimeScratch>,
    pub pending_kv: Option<usize>,
    pub pending_score: Option<usize>,
    pub prev_overlap_kv: Option<usize>,
    pub prev_overlap_score: Option<usize>,
    pub compressed: Option<usize>,
    pub pending_len: usize,
    pub compressed_rows: usize,
    pub compressed_capacity: usize,
    pub pending_width: usize,
    pub head_dim: usize,
}

/// A compressor cache without buffers.
pub open spec fn no_compressor_cache() -> DeepseekGpuCompressorRuntimeCache {
    DeepseekGpuCompressorRuntimeCache {
        kv_raw: None,
        score_raw: None,
        pending_kv: None,
        pending_score: None,
        prev_overlap_kv: None,
        prev_overlap_score: None,
        compressed: None,
        pending_len: 0,
        compressed_rows: 0,
        compressed_capacity: 0,
        pending_width: 0,
        head_dim: 0,
    }
}

impl Default for DeepseekGpuCompressorRuntimeCache {
    fn default() -> (cache: Self)
        ensures
            cache == no_compressor_cache(),
    {
        DeepseekGpuCompressorRuntimeCache {
            kv_raw: None,
            score_raw: None,
            pending_kv: None,
            pending_score: None,
            prev_overlap_kv: None,
            prev_overlap_score: None,
            compressed: None,
            pending_len: 0,
            compressed_rows: 0,
            compressed_capacity: 0,
            pending_width: 0,
            head_dim: 0,
        }
    }
}

/// A compressor cache without the buffers that only prefill needs large.
pub open spec fn trimmed_compressor(
    c: DeepseekGpuCompressorRuntimeCache,
) -> DeepseekGpuCompressorRuntimeCache {
    DeepseekGpuCompressorRuntimeCache { kv_raw: None, score_raw: None, ..c }
}

/// Which buffers of a compressor cache have to be allocated.
#[derive(Clone, Copy, Debug, PartialEq, Eq, Structural)]
pub struct CompressorAllocation {
    pub pending: bool,
    pub compressed: bool,
}

/// Which size of a compressor cache cannot be counted.
#[derive(Clone, Copy, Debug, PartialEq, Eq, Structural)]
pub enum CompressorCacheError {
    Pending,
    Compressed,
}

/// The buffers of pending rows are missing or too small.
pub open spec fn lacks_pending(
    c: DeepseekGpuCompressorRuntimeCache,
    ratio: usize,
    width: usize,
    head_dim: usize,
) -> bool {
    ||| c.pending_width != width
    ||| c.head_dim != head_dim
    ||| c.pending_kv is None
    ||| c.pending_kv->Some_0 < ratio * width
}

/// The buffer of compressed rows is missing or too small.
pub open spec fn lacks_compressed(
    c: DeepseekGpuCompressorRuntimeCache,
    capacity_rows: usize,
    head_dim: usize,
) -> bool {
    ||| c.compressed_capacity < capacity_rows
    ||| c.compressed is None
    ||| c.compressed->Some_0 < capacity_rows * head_dim
}

/// A cache with room for pending rows; new buffers start empty.
pub open spec fn with_pending(
    c: DeepseekGpuCompressorRuntimeCache,
    ratio: usize,
    width: usize,
    head_dim: usize,
) -> DeepseekGpuCompressorRuntimeCache {
    if lacks_pending(c, ratio, width, head_dim) {
        DeepseekGpuCompressorRuntimeCache {
            pending_kv: Some((ratio * width) as usize),
            pending_score: Some((ratio * width) as usize),
            prev_overlap_kv: Some((ratio * head_dim) as usize),
            prev_overlap_score: Some((ratio * head_dim) as usize),
            pending_len: 0,
            compressed_rows: 0,
            pending_width: width,
            head_dim,
            ..c
        }
    } else {
        c
    }
}

/// A cache with room for compressed rows; a new buffer starts empty.
pub open spec fn with_compressed(
    c: DeepseekGpuCompressorRuntimeCache,
    capacity_rows: usize,
    head_dim: usize,
) -> DeepseekGpuCompressorRuntimeCache {
    if lacks_compressed(c, capacity_rows, head_dim) {
        DeepseekGpuCompressorRuntimeCache {
            compressed: Some((capacity_rows * head_dim) as usize),
            compressed_capacity: capacity_rows,
            compressed_rows: 0,
            pending_len: 0,
            ..c
        }
    } else {
        c
    }
}

/// The cache after a request for room.
pub open spec fn ensured_compressor(
    c: DeepseekGpuCompressorRuntimeCache,
    capacity_rows: usize,
    ratio: usize,
    width: usize,
    head_dim: usize,
) -> DeepseekGpuCompressorRuntimeCache {
    with_compressed(with_pending(c, ratio, width, head_dim), capacity_rows, head_dim)
}

/// A cache has the room that it was asked for, and asking again changes
/// nothing.
pub proof fn law_compressor_cache_serves(
    c: DeepseekGpuCompressorRuntimeCache,
    capacity_rows: usize,
    ratio: usize,
    width: usize,
    head_dim: usize,
)
    requires
        ratio * width <= usize::MAX,
        capacity_rows * head_dim <= usize::MAX,
    ensures
        ({
            let s = ensured_compressor(c, capacity_rows, ratio, width, head_dim);
            &&& !lacks_pending(s, ratio, width, head_dim)
            &&& !lacks_compressed(s, capacity_rows, head_dim)
            &&& ensured_compressor(s, capacity_rows, ratio, width, head_dim) == s
        }),
{
    let s = ensured_compressor(c, capacity_rows, ratio, width, head_dim);
    assert(0 <= ratio * width && 0 <= capacity_rows * head_dim) by (nonlinear_arith);
    assert(!lacks_pending(s, ratio, width, head_dim));
    assert(!lacks_compressed(s, capacity_rows, head_dim));
}

impl DeepseekGpuCompressorRuntimeCache {
    /// Drops the buffers that only prefill needs large.
    pub fn trim_prefill_scratch(&mut self)
        ensures
            *final(self) == trimmed_compressor(*old(self)),
    {
        self.kv_raw = None;
        self.score_raw = None;
    }

    /// Makes room for `capacity_rows` compressed rows of `head_dim` values and
    /// for `ratio` pending rows of `width` values; says which buffers have to
    /// be allocated. On an error nothing changes.
    pub fn ensure_gpu_compressor_cache(
        &mut self,
        capacity_rows: usize,
        ratio: usize,
        width: usize,
        head_dim: usize,
    ) -> (r: Result<CompressorAllocation, CompressorCacheError>)
        requires
            ratio * width <= usize::MAX && capacity_rows * head_dim <= usize::MAX && lacks_pending(
                *old(self),
                ratio,
                width,
                head_dim,
            ) ==> ratio * head_dim <= usize::MAX,
        ensures
            ratio * width > usize::MAX ==> r == Err::<CompressorAllocation, CompressorCacheError>(
                CompressorCacheError::Pending,
            ),
            ratio * width <= usize::MAX && capacity_rows * head_dim > usize::MAX ==> r == Err::<
                CompressorAllocation,
                CompressorCacheError,
            >(CompressorCacheError::Compressed),
            r is Err ==> *final(self) == *old(self),
            ratio * width <= usize::MAX && capacity_rows * head_dim <= usize::MAX ==> {
                &&& r == Ok::<CompressorAllocation, CompressorCacheError>(
                    CompressorAllocation {
                        pending: lacks_pending(*old(self), ratio, width, head_dim),
                        compressed: lacks_compressed(
                            with_pending(*old(self), ratio, width, head_dim),
                            capacity_rows,
                            head_dim,
                        ),
                    },
                )
                &&& *final(self) == ensured_compressor(
                    *old(self),
                    capacity_rows,
                    ratio,
                    width,
                    head_dim,
                )
            },
    {
        let pending_elems: usize = match ratio.checked_mul(width) {
            Some(n) => n,
            None => {
                return Err(CompressorCacheError::Pending);
            },
        };
        let compressed_elems: usize = match capacity_rows.checked_mul(head_dim) {
            Some(n) => n,
            None => {
                return Err(CompressorCacheError::Compressed);
            },
        };
        let short: bool = match self.pending_kv {
            Some(n) => n < pending_elems,
            None => true,
        };
        let pending: bool = self.pending_width != width || self.head_dim != head_dim || short;
        if pending {
            let overlap: usize = ratio * head_dim;
            self.pending_kv = Some(pending_elems);
            self.pending_score = Some(pending_elems);
            self.prev_overlap_kv = Some(overlap);
            self.prev_overlap_score = Some(overlap);
            self.pending_len = 0;
            self.compressed_rows = 0;
            self.pending_width = width;
            self.head_dim = head_dim;
        }
        let small: bool = match self.compressed {
            Some(n) => n < compressed_elems,
            None => true,
        };
        let compressed: bool = self.compressed_capacity < capacity_rows || small;
        if compressed {
            self.compressed = Some(compressed_elems);
            self.compressed_capacity = capacity_rows;
            self.compressed_rows = 0;
            self.pending_len = 0;
        }
        Ok(CompressorAllocation { pending, compressed })
    }
}

/// Cache of the attention of a layer.
#[derive(Clone, Copy, Debug, PartialEq, Eq, Structural)]
pub struct DeepseekAttentionRuntimeCache {
    /// Number of elements of the window buffer.
    pub window_gpu: Option<usize>,
    pub window_gpu_len: usize,
    pub c_q: Option<DeepseekHiddenRuntimeScratch>,
    pub c_q_normed: Option<DeepseekHiddenRuntimeScratch>,
    pub q_raw: Option<DeepseekHiddenRuntimeScratch>,
    pub kv_raw: Option<DeepseekHiddenRuntimeScratch>,
    pub kv_normed: Option<DeepseekHiddenRuntimeScratch>,
    pub q_prepared: Option<DeepseekHiddenRuntimeScratch>,
    pub k_prepared: Option<DeepseekHiddenRuntimeScratch>,
    pub local_attn: Option<DeepseekHiddenRuntimeScratch>,
    pub output_latent: Option<DeepseekHiddenRuntimeScratch>,
    pub compressed_gpu: Option<DeepseekGpuCompressorRuntimeCache>,
    pub indexer_gpu: Option<DeepseekGpuCompressorRuntimeCache>,
}

/// An attention cache without buffers.
pub open spec fn no_attention_cache() -> DeepseekAttentionRuntimeCache {
    DeepseekAttentionRuntimeCache {
        window_gpu: None,
        window_gpu_len: 0,
        c_q: None,
        c_q_normed: None,
        q_raw: None,
        kv_raw: None,
        kv_normed: None,
        q_prepared: None,
        k_prepared: None,
        local_attn: None,
        output_latent: None,
        compressed_gpu: None,
        indexer_gpu: None,
    }
}

impl Default for DeepseekAttentionRuntimeCache {
    fn default() -> (cache: Self)
        ensures
            cache == no_attention_cache(),
    {
        DeepseekAttentionRuntimeCache {
            window_gpu: None,
            window_gpu_len: 0,
            c_q: None,
            c_q_normed: None,
            q_raw: None,
            kv_raw: None,
            kv_normed: None,
            q_prepared: None,
            k_prepared: None,
            local_attn: None,
            output_latent: None,
            compressed_gpu: None,
            indexer_gpu: None,
        }
    }
}

/// An optional compressor cache without its prefill buffers.
pub open spec fn trimmed_optional(
    c: Option<DeepseekGpuCompressorRuntimeCache>,
) -> Option<DeepseekGpuCompressorRuntimeCache> {
    match c {
        Some(c) => Some(trimmed_compressor(c)),
        None => None,
    }
}

/// What stays of an attention cache when the prefill buffers are dropped: the
/// window and the compressed rows.
pub open spec fn trimmed_attention(
    c: DeepseekAttentionRuntimeCache,
) -> DeepseekAttentionRuntimeCache {
    DeepseekAttentionRuntimeCache {
        window_gpu: c.window_gpu,
        window_gpu_len: c.window_gpu_len,
        compressed_gpu: trimmed_optional(c.compressed_gpu),
        indexer_gpu: trimmed_optional(c.indexer_gpu),
        ..no_attention_cache()
    }
}

/// The cache with a window of exactly `len` elements; a window that has them stays.
pub open spec fn ensured_window(
    c: DeepseekAttentionRuntimeCache,
    len: usize,
) -> DeepseekAttentionRuntimeCache {
    if c.window_gpu_len != len || c.window_gpu is None {
        DeepseekAttentionRuntimeCache { window_gpu: Some(len), window_gpu_len: len, ..c }
    } else {
        c
    }
}

impl DeepseekAttentionRuntimeCache {
    /// Drops the buffers that only prefill needs large.
    pub fn trim_prefill_scratch(&mut self)
        ensures
            *final(self) == trimmed_attention(*old(self)),
    {
        self.c_q = None;
        self.c_q_normed = None;
        self.q_raw = None;
        self.kv_raw = None;
        self.kv_normed = None;
        self.q_prepared = None;
        self.k_prepared = None;
        self.local_attn = None;
        self.output_latent = None;
        if let Some(mut cache) = self.compressed_gpu {
            cache.trim_prefill_scratch();
            self.compressed_gpu = Some(cache);
        }
        if let Some(mut cache) = self.indexer_gpu {
            cache.trim_prefill_scratch();
            self.indexer_gpu = Some(cache);
        }
    }

    /// Makes sure of a window of exactly `len` elements; says whether a new
    /// one has to be allocated.
    pub fn ensure_swa_window_cache(&mut self, len: usize) -> (allocated: bool)
        ensures
            allocated == (old(self).window_gpu_len != len || old(self).window_gpu is None),
            *final(self) == ensured_window(*old(self), len),
    {
        let missing: bool = self.window_gpu_len != len || self.window_gpu.is_none();
        if missing {
            self.window_gpu = Some(len);
            self.window_gpu_len = len;
        }
        missing
    }
}

/// Cache of a layer.
#[derive(Clone, Copy, Debug, PartialEq, Eq, Structural)]
pub struct DeepseekLayerRuntimeCache {
    pub attention: DeepseekAttentionRuntimeCache,
    pub moe: DeepseekMoeRuntimeCache,
    pub stream_recycle: Option<DeepseekHiddenRuntimeScratch>,
    pub attn_mhc: Option<DeepseekMhcRuntimeScratch>,
    pub ffn_mhc: Option<DeepseekMhcRuntimeScratch>,
    pub attn_pre: Option<DeepseekHiddenRuntimeScratch>,
    pub attn_normed: Option<DeepseekHiddenRuntimeScratch>,
    pub attn_post: Option<DeepseekHiddenRuntimeScratch>,
    pub ffn_pre: Option<DeepseekHiddenRuntimeScratch>,
    pub ffn_normed: Option<DeepseekHiddenRuntimeScratch>,
}

/// A layer cache without buffers.
pub open spec fn no_layer_cache() -> DeepseekLayerRuntimeCache {
    DeepseekLayerRuntimeCache {
        attention: no_attention_cache(),
        moe: no_moe_buffers(),
        stream_recycle: None,
        attn_mhc: None,
        ffn_mhc: None,
        attn_pre: None,
        attn_normed: None,
        attn_post: None,
        ffn_pre: None,
        ffn_normed: None,
    }
}

impl Default for DeepseekLayerRuntimeCache {
    fn default() -> (cache: Self)
        ensures
            cache == no_layer_cache(),
    {
        DeepseekLayerRuntimeCache {
            attention: DeepseekAttentionRuntimeCache::default(),
            moe: DeepseekMoeRuntimeCache::default(),
            stream_recycle: None,
            attn_mhc: None,
            ffn_mhc: None,
            attn_pre: None,
            attn_normed: None,
            attn_post: None,
            ffn_pre: None,
            ffn_normed: None,
        }
    }
}

/// What stays of a layer cache when the prefill buffers are dropped.
pub open spec fn trimmed_layer(c: DeepseekLayerRuntimeCache) -> DeepseekLayerRuntimeCache {
    DeepseekLayerRuntimeCache { attention: trimmed_attention(c.attention), ..no_layer_cache() }
}

impl DeepseekLayerRuntimeCache {
    /// Drops the buffers that only prefill needs large.
    pub fn trim_prefill_scratch(&mut self)
        ensures
            *final(self) == trimmed_layer(*old(self)),
    {
        self.stream_recycle = None;
        self.attn_mhc = None;
        self.ffn_mhc = None;
        self.attn_pre = None;
        self.attn_normed = None;
        self.attn_post = None;
        self.ffn_pre = None;
        self.ffn_normed = None;
        self.moe = DeepseekMoeRuntimeCache::default();
        self.attention.trim_prefill_scratch();
    }
}

/// The tokens that a request has processed, and the caches of its layers.
pub struct DeepseekIncrementalState {
    pub processed_tokens: usize,
    pub layers: Vec<DeepseekLayerRuntimeCache>,
    pub stream_recycle: Option<DeepseekHiddenRuntimeScratch>,
}

/// Layer caches, filled up with empty ones to at least `count`.
pub open spec fn filled_layers(
    layers: Seq<DeepseekLayerRuntimeCache>,
    count: nat,
) -> Seq<DeepseekLayerRuntimeCache> {
    if layers.len() >= count {
        layers
    } else {
        Seq::new(
            count,
            |i: int|
                if i < layers.len() {
                    layers[i]
                } else {
                    no_layer_cache()
                },
        )
    }
}

/// The layer caches without their prefill buffers.
pub open spec fn trimmed_layers(
    layers: Seq<DeepseekLayerRuntimeCache>,
) -> Seq<DeepseekLayerRuntimeCache> {
    Seq::new(layers.len(), |i: int| trimmed_layer(layers[i]))
}

impl Default for DeepseekIncrementalState {
    fn default() -> (state: Self)
        ensures
            state.is_clear(),
    {
        DeepseekIncrementalState { processed_tokens: 0, layers: Vec::new(), stream_recycle: None }
    }
}

impl DeepseekIncrementalState {
    /// Nothing is processed or kept.
    pub open spec fn is_clear(self) -> bool {
        &&& self.processed_tokens == 0
        &&& self.layers@ == Seq::<DeepseekLayerRuntimeCache>::empty()
        &&& self.stream_recycle is None
    }

    /// Forgets everything.
    pub fn clear(&mut self)
        ensures
            final(self).is_clear(),
    {
        self.processed_tokens = 0;
        self.layers.clear();
        self.stream_recycle = None;
    }

    /// Makes sure of a cache per layer; layers that have one keep it.
    pub fn ensure_layers(&mut self, layers: usize)
        ensures
            final(self).layers@ == filled_layers(old(self).layers@, layers as nat),
            final(self).processed_tokens == old(self).processed_tokens,
            final(self).stream_recycle == old(self).stream_recycle,
    {
        while self.layers.len() < layers
            invariant
                old(self).layers@.len() <= self.layers@.len(),
                self.layers@.len() <= old(self).layers@.len() || self.layers@.len() <= layers,
                forall|i: int|
                    0 <= i < self.layers@.len() ==> #[trigger] self.layers@[i] == (if i < old(
                        self,
                    ).layers@.len() {
                        old(self).layers@[i]
                    } else {
                        no_layer_cache()
                    }),
                self.processed_tokens == old(self).processed_tokens,
                self.stream_recycle == old(self).stream_recycle,
            decreases layers - self.layers@.len(),
        {
            self.layers.push(DeepseekLayerRuntimeCache::default());
        }
        proof {
            assert(self.layers@ =~= filled_layers(old(self).layers@, layers as nat));
        }
    }

    /// Drops the buffers that only prefill needs large. What was processed
    /// stays.
    pub fn trim_prefill_scratch(&mut self)
        ensures
            final(self).layers@ == trimmed_layers(old(self).layers@),
            final(self).processed_tokens == old(self).processed_tokens,
            final(self).stream_recycle is None,
    {
        self.stream_recycle = None;
        let mut i: usize = 0;
        while i < self.layers.len()
            invariant
                i <= self.layers@.len(),
                self.layers@.len() == old(self).layers@.len(),
                forall|k: int|
                    0 <= k < i ==> #[trigger] self.layers@[k] == trimmed_layer(
                        old(self).layers@[k],
                    ),
                forall|k: int|
                    i <= k < self.layers@.len() ==> #[trigger] self.layers@[k] == old(
                        self,
                    ).layers@[k],
                self.processed_tokens == old(self).processed_tokens,
                self.stream_recycle is None,
            decreases self.layers@.len() - i,
        {
            let mut layer: DeepseekLayerRuntimeCache = self.layers[i];
            layer.trim_prefill_scratch();
            self.layers.set(i, layer);
            i = i + 1;
        }
        proof {
            assert(self.layers@ =~= trimmed_layers(old(self).layers@));
        }
    }
}

/// Dropping the prefill buffers twice is dropping them once.
pub proof fn law_trimming_is_idempotent(layers: Seq<DeepseekLayerRuntimeCache>)
    ensures
        trimmed_layers(trimmed_layers(layers)) == trimmed_layers(layers),
{
    assert(trimmed_layers(trimmed_layers(layers)) =~= trimmed_layers(layers));
}

/// State of a request.
pub struct DeepseekState {
    pub base: GenerationStateBase,
    pub reference_tokens: Vec<u32>,
    pub incremental: DeepseekIncrementalState,
}

/// All tokens are forgotten.
pub open spec fn is_reset(before: DeepseekState, after: DeepseekState) -> bool {
    &&& after.reference_tokens@ == Seq::<u32>::empty()
    &&& after.incremental.is_clear()
    &&& after.base == (GenerationStateBase {
        prefill_logits: false,
        graph_captured: false,
        ..before.base
    })
}

/// The tokens from `len` on are forgotten; the layer caches are cleared where they
/// hold more.
pub open spec fn is_truncated(before: DeepseekState, after: DeepseekState, len: usize) -> bool {
    &&& after.reference_tokens@ == before.reference_tokens@.subrange(
        0,
        smaller(len as nat, before.reference_tokens@.len()) as int,
    )
    &&& before.incremental.processed_tokens > len ==> after.incremental.is_clear()
    &&& before.incremental.processed_tokens <= len ==> after.incremental == before.incremental
    &&& after.base == (GenerationStateBase {
        prefill_logits: false,
        graph_captured: false,
        ..before.base
    })
}

impl DeepseekState {
    /// The state of a request that has seen nothing.
    pub fn new(num_layers: usize, num_kv_heads: usize) -> (state: Self)
        ensures
            state.base == (GenerationStateBase {
                num_layers,
                num_kv_heads,
                prefill_logits: false,
                graph_captured: false,
            }),
            state.reference_tokens@ == Seq::<u32>::empty(),
            state.incremental.is_clear(),
    {
        DeepseekState {
            base: GenerationStateBase::new(num_layers, num_kv_heads),
            reference_tokens: Vec::new(),
            incremental: DeepseekIncrementalState::default(),
        }
    }

    /// The caches hold no more than `len` tokens.
    pub open spec fn holds_at_most(self, len: nat) -> bool {
        &&& self.reference_tokens@.len() <= len
        &&& self.incremental.processed_tokens <= len
    }

    /// Where the logits of the request are.
    pub fn logits(&self) -> (source: LogitsSource)
        ensures
            source == (if self.base.prefill_logits {
                LogitsSource::Prefill
            } else {
                LogitsSource::Decode
            }),
    {
        self.base.logits_source()
    }

    /// Forgets all tokens.
    pub fn reset(&mut self) -> (action: KvAction)
        ensures
            action == KvAction::Reset,
            is_reset(*old(self), *final(self)),
            final(self).holds_at_most(0),
    {
        self.reference_tokens.clear();
        self.incremental.clear();
        self.base.reset()
    }

    /// Forgets the tokens of a warm-up.
    pub fn reset_for_warmup_clear(&mut self) -> (action: KvAction)
        ensures
            action == KvAction::Reset,
            is_reset(*old(self), *final(self)),
            final(self).holds_at_most(0),
    {
        self.reference_tokens.clear();
        self.incremental.clear();
        self.base.reset()
    }

    /// Forgets the tokens from `len` on. The layer caches cannot be cut: they
    /// are cleared when they hold more than `len` tokens.
    pub fn truncate_to(&mut self, len: usize) -> (action: KvAction)
        ensures
            action == KvAction::Truncate(len),
            is_truncated(*old(self), *final(self), len),
            final(self).holds_at_most(len as nat),
    {
        let held: usize = self.reference_tokens.len();
        if len < held {
            self.reference_tokens.truncate(len);
        }
        proof {
            assert(self.reference_tokens@ =~= old(self).reference_tokens@.subrange(
                0,
                smaller(len as nat, old(self).reference_tokens@.len()) as int,
            ));
        }
        if self.incremental.processed_tokens > len {
            self.incremental.clear();
        }
        self.base.truncate_to(len)
    }

    /// A prefix of a cached sequence cannot be reused in part.
    pub fn supports_partial_prefix(&self) -> (supported: bool)
        ensures
            !supported,
    {
        false
    }

    /// How the cache of a slot moves into the pool.
    pub fn migrate_kv_to_paged(&self, format: KVFormat, slot: usize, seq_len: usize) -> (r: Result<
        Migration,
        MigrationError,
    >)
        ensures
            r == slot_migration(format, slot, seq_len),
    {
        self.base.migrate_kv_to_paged(format, slot, seq_len)
    }

    /// How a range of a slot moves into the pool.
    pub fn migrate_kv_range_to_paged(
        &self,
        format: KVFormat,
        slot: usize,
        start_pos: usize,
        token_count: usize,
    ) -> (r: Result<Migration, MigrationError>)
        ensures
            r == range_migration(format, slot, start_pos, token_count),
    {
        self.base.migrate_kv_range_to_paged(format, slot, start_pos, token_count)
    }
}

/// Dropping the prefill buffers keeps everything that was seen, the window, the
/// compressed rows and the rows that are pending, and no other buffer.
pub proof fn law_trimming_keeps_what_was_seen(layers: Seq<DeepseekLayerRuntimeCache>, i: int)
    requires
        0 <= i < layers.len(),
    ensures
        trimmed_layers(layers).len() == layers.len(),
        ({
            let before = layers[i];
            let after = trimmed_layers(layers)[i];
            let a = after.attention;
            &&& a.window_gpu == before.attention.window_gpu
            &&& a.window_gpu_len == before.attention.window_gpu_len
            &&& keeps_rows(before.attention.compressed_gpu, a.compressed_gpu)
            &&& keeps_rows(before.attention.indexer_gpu, a.indexer_gpu)
            &&& a.c_q is None && a.c_q_normed is None && a.q_raw is None && a.kv_raw is None
            &&& a.kv_normed is None && a.q_prepared is None && a.k_prepared is None
            &&& a.local_attn is None && a.output_latent is None
            &&& after.moe == no_moe_buffers()
            &&& after.stream_recycle is None && after.attn_mhc is None && after.ffn_mhc is None
            &&& after.attn_pre is None && after.attn_normed is None && after.attn_post is None
            &&& after.ffn_pre is None && after.ffn_normed is None
        }),
{
}

/// A compressor cache keeps its rows and drops its prefill buffers.
pub open spec fn keeps_rows(
    before: Option<DeepseekGpuCompressorRuntimeCache>,
    after: Option<DeepseekGpuCompressorRuntimeCache>,
) -> bool {
    &&& before is Some <==> after is Some
    &&& after matches Some(a) ==> {
        &&& a.kv_raw is None && a.score_raw is None
        &&& a == (DeepseekGpuCompressorRuntimeCache {
            kv_raw: None,
            score_raw: None,
            ..before->Some_0
        })
    }
}

/// A compressor cache has a row per token of a block for what is pending, and a row
/// per block for what is compressed. Rows that it holds stay where there is room for
/// them; new buffers begin without any.
pub proof fn law_compressor_caches_hold_their_rows(
    c: DeepseekGpuCompressorRuntimeCache,
    capacity_rows: usize,
    ratio: usize,
    width: usize,
    head_dim: usize,
)
    requires
        ratio * width <= usize::MAX,
        ratio * head_dim <= usize::MAX,
        capacity_rows * head_dim <= usize::MAX,
    ensures
        ({
            let s = ensured_compressor(c, capacity_rows, ratio, width, head_dim);
            let pends = c.pending_width == width && c.head_dim == head_dim && c.pending_kv is Some
                && c.pending_kv->Some_0 >= ratio * width;
            let holds = c.compressed_capacity >= capacity_rows && c.compressed is Some
                && c.compressed->Some_0 >= capacity_rows * head_dim;
            &&& s.pending_kv is Some && s.pending_kv->Some_0 >= ratio * width
            &&& s.pending_width == width
            &&& s.head_dim == head_dim
            &&& s.compressed is Some && s.compressed->Some_0 >= capacity_rows * head_dim
            &&& s.compressed_capacity >= capacity_rows
            &&& s.kv_raw == c.kv_raw && s.score_raw == c.score_raw
            &&& pends && holds ==> s == c
            &&& !pends || !holds ==> s.pending_len == 0 && s.compressed_rows == 0
            &&& !pends ==> {
                &&& s.pending_kv == Some((ratio * width) as usize)
                &&& s.pending_score == s.pending_kv
                &&& s.prev_overlap_kv == Some((ratio * head_dim) as usize)
                &&& s.prev_overlap_score == s.prev_overlap_kv
            }
            &&& pends ==> {
                &&& s.pending_kv == c.pending_kv && s.pending_score == c.pending_score
                &&& s.prev_overlap_kv == c.prev_overlap_kv
                &&& s.prev_overlap_score == c.prev_overlap_score
            }
            &&& !holds ==> s.compressed == Some((capacity_rows * head_dim) as usize)
                && s.compressed_capacity == capacity_rows
            &&& holds ==> s.compressed == c.compressed && s.compressed_capacity
                == c.compressed_capacity
        }),
{
    assert(0 <= ratio * width && 0 <= capacity_rows * head_dim && 0 <= ratio * head_dim)
        by (nonlinear_arith);
}

/// A window has exactly the elements that it was asked for, and nothing else of the
/// cache changes.
pub proof fn law_windows_have_their_length(c: DeepseekAttentionRuntimeCache, len: usize)
    ensures
        ({
            let w = ensured_window(c, len);
            &&& w.window_gpu_len == len
            &&& w.window_gpu is Some
            &&& c.window_gpu == Some(len) && c.window_gpu_len == len ==> w == c
            &&& c.window_gpu is None || c.window_gpu_len != len ==> w.window_gpu == Some(len)
            &&& w == (DeepseekAttentionRuntimeCache {
                window_gpu: w.window_gpu,
                window_gpu_len: w.window_gpu_len,
                ..c
            })
            &&& ensured_window(w, len) == w
        }),
{
}

/// Layers that have a cache keep it, and every other layer gets an empty one.
pub proof fn law_layers_keep_their_caches(
    layers: Seq<DeepseekLayerRuntimeCache>,
    count: nat,
    i: int,
)
    requires
        0 <= i < count,
    ensures
        filled_layers(layers, count).len() >= count,
        filled_layers(layers, count).len() >= layers.len(),
        i < layers.len() ==> filled_layers(layers, count)[i] == layers[i],
        i >= layers.len() ==> filled_layers(layers, count)[i] == no_layer_cache(),
        layers.len() >= count ==> filled_layers(layers, count) == layers,
{
}

/// A request that is cut holds the first tokens that it held, and cutting it again
/// to no more is cutting it once. What the layers cached survives only where nothing
/// of it is cut, and neither logits nor a graph survive.
pub proof fn law_truncations_continue_one_another(
    before: DeepseekState,
    between: DeepseekState,
    after: DeepseekState,
    at_once: DeepseekState,
    len: usize,
    shorter: usize,
)
    requires
        is_truncated(before, between, len),
        is_truncated(between, after, shorter),
        is_truncated(before, at_once, shorter),
        shorter <= len,
    ensures
        after.reference_tokens@ == at_once.reference_tokens@,
        after.reference_tokens@.len() <= shorter,
        after.reference_tokens@.len() == shorter || after.reference_tokens@.len()
            == before.reference_tokens@.len(),
        forall|i: int|
            0 <= i < after.reference_tokens@.len() ==> #[trigger] after.reference_tokens@[i]
                == before.reference_tokens@[i],
        after.base == at_once.base,
        !after.base.prefill_logits && !after.base.graph_captured,
        after.base.num_layers == before.base.num_layers,
        after.base.num_kv_heads == before.base.num_kv_heads,
        before.incremental.processed_tokens > shorter ==> {
            &&& after.incremental.processed_tokens == 0
            &&& after.incremental.layers@.len() == 0
            &&& after.incremental.stream_recycle is None
        },
        before.incremental.processed_tokens <= shorter ==> after.incremental
            == before.incremental,
{
    assert(after.reference_tokens@ =~= at_once.reference_tokens@);
}

/// A request that is reset is one that has seen nothing: it is cut to no token at
/// all, and its caches are empty.
pub proof fn law_resets_forget_everything(before: DeepseekState, after: DeepseekState)
    requires
        is_reset(before, after),
    ensures
        after.reference_tokens@.len() == 0,
        after.incremental.processed_tokens == 0,
        after.incremental.layers@.len() == 0,
        after.incremental.stream_recycle is None,
        !after.base.prefill_logits && !after.base.graph_captured,
        after.base.num_layers == before.base.num_layers,
        after.base.num_kv_heads == before.base.num_kv_heads,
{
}

} // verus!
