//! Buffers of batched decoding, with the shared pool of FP8 keys and values.
//!
//! The pool is cut into equal ranges, one per slot and layer: slot `s`, layer
//! `l` owns range `s * layers + l`.

use vstd::prelude::*;

use crate::arith::saturating_mul;
use crate::arith::saturating_product;

verus! {

/// Bytes of a block: 64 tokens of 584 bytes.
pub const BLOCK_BYTES: usize = 37376;

/// Why the decode buffers cannot be used.
#[derive(Clone, Copy, Debug, PartialEq, Eq, Structural)]
pub enum DecodeBufferError {
    /// The batch has no room for a row.
    NoCapacity,
    /// The batch is larger than the buffers.
    BatchSize,
    /// The pool has no slots, layers or blocks.
    PoolShape,
    /// The slot is outside the pool.
    PoolSlot,
    /// The layer is outside the pool.
    PoolLayer,
    /// The range is larger than the pool gives to a slot and layer.
    PoolBlocks,
    /// The pool is not allocated.
    PoolMissing,
    /// The range reaches past the pool.
    PoolRange,
}

/// Buffers of batched decoding.
#[derive(Clone, Copy, Debug, PartialEq, Eq, Structural)]
pub struct DeepseekBatchDecodeBuffers {
    pub max_batch_size: usize,
    /// Bytes of the shared pool, where it is allocated.
    pub fp8_kv_pool: Option<usize>,
    pub fp8_kv_slots: usize,
    pub fp8_kv_layers: usize,
    /// Blocks of one slot and layer.
    pub fp8_kv_slot_blocks: usize,
    /// Longest sequence that the pool was made for.
    pub fp8_kv_max_seq_len: usize,
}

/// A range of the pool, in bytes.
#[derive(Clone, Copy, Debug, PartialEq, Eq, Structural)]
pub struct PoolView {
    pub offset: usize,
    pub bytes: usize,
}

/// Bytes of a pool of the given shape.
pub open spec fn pool_bytes(num_slots: usize, layers: usize, slot_blocks: usize) -> nat {
    let limit = usize::MAX as nat;
    saturating_product(
        saturating_product(
            saturating_product(num_slots as nat, layers as nat, limit),
            slot_blocks as nat,
            limit,
        ),
        BLOCK_BYTES as nat,
        limit,
    )
}

/// The pool as it is is smaller than the shape.
pub open spec fn pool_lacks(
    b: DeepseekBatchDecodeBuffers,
    num_slots: usize,
    layers: usize,
    slot_blocks: usize,
) -> bool {
    ||| b.fp8_kv_pool is None
    ||| b.fp8_kv_pool->Some_0 < pool_bytes(num_slots, layers, slot_blocks)
    ||| b.fp8_kv_slots < num_slots
    ||| b.fp8_kv_layers < layers
    ||| b.fp8_kv_slot_blocks < slot_blocks
}

/// Bytes of the range of a slot and layer.
pub open spec fn range_bytes(b: DeepseekBatchDecodeBuffers) -> int {
    b.fp8_kv_slot_blocks * BLOCK_BYTES
}

/// Where the range of a slot and layer starts.
pub open spec fn range_start(b: DeepseekBatchDecodeBuffers, slot: int, layer: int) -> int {
    (slot * b.fp8_kv_layers + layer) * range_bytes(b)
}

/// A view of `blocks` blocks of a slot and layer, or why there is none.
pub open spec fn pool_view(
    b: DeepseekBatchDecodeBuffers,
    slot: usize,
    layer: usize,
    blocks: usize,
) -> Result<PoolView, DecodeBufferError> {
    if slot >= b.fp8_kv_slots {
        Err(DecodeBufferError::PoolSlot)
    } else if layer >= b.fp8_kv_layers {
        Err(DecodeBufferError::PoolLayer)
    } else if blocks > b.fp8_kv_slot_blocks {
        Err(DecodeBufferError::PoolBlocks)
    } else {
        match b.fp8_kv_pool {
            None => Err(DecodeBufferError::PoolMissing),
            Some(len) => if range_start(b, slot as int, layer as int) + blocks * BLOCK_BYTES > len {
                Err(DecodeBufferError::PoolRange)
            } else {
                Ok(
                    PoolView {
                        offset: range_start(b, slot as int, layer as int) as usize,
                        bytes: (blocks * BLOCK_BYTES) as usize,
                    },
                )
            },
        }
    }
}

/// The ranges of the pool can be counted.
pub open spec fn ranges_countable(b: DeepseekBatchDecodeBuffers) -> bool {
    &&& b.fp8_kv_slots * b.fp8_kv_layers <= usize::MAX
    &&& b.fp8_kv_slots * b.fp8_kv_layers * range_bytes(b) <= usize::MAX
}

proof fn lemma_range_inside(b: DeepseekBatchDecodeBuffers, slot: int, layer: int)
    requires
        0 <= slot < b.fp8_kv_slots,
        0 <= layer < b.fp8_kv_layers,
    ensures
        0 <= slot * b.fp8_kv_layers,
        slot * b.fp8_kv_layers + layer + 1 <= b.fp8_kv_slots * b.fp8_kv_layers,
        0 <= range_start(b, slot, layer),
        range_start(b, slot, layer) + range_bytes(b) <= b.fp8_kv_slots * b.fp8_kv_layers
            * range_bytes(b),
{
    let s = slot;
    let l = layer;
    let n = b.fp8_kv_slots as int;
    let m = b.fp8_kv_layers as int;
    let r = range_bytes(b);
    assert(0 <= s * m && s * m + l + 1 <= n * m) by (nonlinear_arith)
        requires
            0 <= s < n,
            0 <= l < m,
    ;
    let at = s * m + l;
    let all = n * m;
    assert(0 <= at * r && at * r + r <= all * r) by (nonlinear_arith)
        requires
            0 <= at,
            at + 1 <= all,
            0 <= r,
    ;
}

/// The ranges of two different slots or layers do not overlap.
pub proof fn law_ranges_do_not_overlap(
    b: DeepseekBatchDecodeBuffers,
    slot: int,
    layer: int,
    other_slot: int,
    other_layer: int,
)
    requires
        0 <= slot < b.fp8_kv_slots,
        0 <= other_slot < b.fp8_kv_slots,
        0 <= layer < b.fp8_kv_layers,
        0 <= other_layer < b.fp8_kv_layers,
        slot != other_slot || layer != other_layer,
    ensures
        range_start(b, slot, layer) + range_bytes(b) <= range_start(b, other_slot, other_layer)
            || range_start(b, other_slot, other_layer) + range_bytes(b) <= range_start(
            b,
            slot,
            layer,
        ),
{
    let m = b.fp8_kv_layers as int;
    let r = range_bytes(b);
    let at = slot * m + layer;
    let other = other_slot * m + other_layer;
    assert(at != other) by (nonlinear_arith)
        requires
            at == slot * m + layer,
            other == other_slot * m + other_layer,
            0 <= layer < m,
            0 <= other_layer < m,
            slot != other_slot || layer != other_layer,
    ;
    assert(at + 1 <= other ==> at * r + r <= other * r) by (nonlinear_arith)
        requires
            0 <= r,
    ;
    assert(other + 1 <= at ==> other * r + r <= at * r) by (nonlinear_arith)
        requires
            0 <= r,
    ;
}

/// A pool that was made for its shape has a range for every slot and layer.
pub proof fn law_ensured_pool_serves(
    b: DeepseekBatchDecodeBuffers,
    slot: usize,
    layer: usize,
    blocks: usize,
)
    requires
        ranges_countable(b),
        !pool_lacks(b, b.fp8_kv_slots, b.fp8_kv_layers, b.fp8_kv_slot_blocks),
        slot < b.fp8_kv_slots,
        layer < b.fp8_kv_layers,
        blocks <= b.fp8_kv_slot_blocks,
    ensures
        pool_view(b, slot, layer, blocks) is Ok,
{
    lemma_range_inside(b, slot as int, layer as int);
    let n = b.fp8_kv_slots as int;
    let m = b.fp8_kv_layers as int;
    let k = b.fp8_kv_slot_blocks as int;
    let w = BLOCK_BYTES as int;
    assert(n * m * (k * w) == n * m * k * w) by (nonlinear_arith);
    assert(n * m * k <= n * m * k * w) by (nonlinear_arith)
        requires
            n >= 0,
            m >= 0,
            k >= 0,
            w >= 1,
    ;
    assert(blocks * BLOCK_BYTES <= k * w) by (nonlinear_arith)
        requires
            blocks <= k,
            w == BLOCK_BYTES,
            w >= 0,
    ;
}

impl DeepseekBatchDecodeBuffers {
    /// Buffers for batches of up to `max_batch_size` rows, without a pool.
    pub fn new(max_batch_size: usize) -> (r: Result<Self, DecodeBufferError>)
        ensures
            r == (if max_batch_size == 0 {
                Err::<Self, DecodeBufferError>(DecodeBufferError::NoCapacity)
            } else {
                Ok(
                    DeepseekBatchDecodeBuffers {
                        max_batch_size,
                        fp8_kv_pool: None,
                        fp8_kv_slots: 0,
                        fp8_kv_layers: 0,
                        fp8_kv_slot_blocks: 0,
                        fp8_kv_max_seq_len: 0,
                    },
                )
            }),
    {
        if max_batch_size == 0 {
            return Err(DecodeBufferError::NoCapacity);
        }
        Ok(
            DeepseekBatchDecodeBuffers {
                max_batch_size,
                fp8_kv_pool: None,
                fp8_kv_slots: 0,
                fp8_kv_layers: 0,
                fp8_kv_slot_blocks: 0,
                fp8_kv_max_seq_len: 0,
            },
        )
    }

    /// Records the longest sequence that the pool was made for.
    pub fn set_fp8_kv_max_seq_len(&mut self, max_seq_len: usize)
        ensures
            *final(self) == (DeepseekBatchDecodeBuffers {
                fp8_kv_max_seq_len: max_seq_len,
                ..*old(self)
            }),
    {
        self.fp8_kv_max_seq_len = max_seq_len;
    }

    /// The longest sequence that the pool was made for; none without a pool.
    pub fn fp8_kv_max_seq_len(&self) -> (len: Option<usize>)
        ensures
            len == (if self.fp8_kv_pool is Some {
                Some(self.fp8_kv_max_seq_len)
            } else {
                None
            }),
    {
        if self.fp8_kv_pool.is_some() {
            Some(self.fp8_kv_max_seq_len)
        } else {
            None
        }
    }

    /// Bytes of a pool of the given shape.
    pub fn fp8_kv_pool_bytes(num_slots: usize, layers: usize, slot_blocks: usize) -> (bytes: usize)
        ensures
            bytes == pool_bytes(num_slots, layers, slot_blocks),
    {
        saturating_mul(saturating_mul(saturating_mul(num_slots, layers), slot_blocks), BLOCK_BYTES)
    }

    /// Makes sure of a pool of at least the given shape; says whether it has
    /// to be allocated. The same or a smaller shape changes nothing, and
    /// neither does an error.
    pub fn ensure_fp8_kv_pool(&mut self, num_slots: usize, layers: usize, slot_blocks: usize) -> (r:
        Result<bool, DecodeBufferError>)
        ensures
            if num_slots == 0 || layers == 0 || slot_blocks == 0 {
                r == Err::<bool, DecodeBufferError>(DecodeBufferError::PoolShape) && *final(self)
                    == *old(self)
            } else if pool_lacks(*old(self), num_slots, layers, slot_blocks) {
                r == Ok::<bool, DecodeBufferError>(true) && *final(self) == (
                DeepseekBatchDecodeBuffers {
                    fp8_kv_pool: Some(pool_bytes(num_slots, layers, slot_blocks) as usize),
                    fp8_kv_slots: num_slots,
                    fp8_kv_layers: layers,
                    fp8_kv_slot_blocks: slot_blocks,
                    ..*old(self)
                })
            } else {
                r == Ok::<bool, DecodeBufferError>(false) && *final(self) == *old(self)
            },
            r is Ok ==> !pool_lacks(*final(self), num_slots, layers, slot_blocks),
    {
        if num_slots == 0 || layers == 0 || slot_blocks == 0 {
            return Err(DecodeBufferError::PoolShape);
        }
        let wanted: usize = Self::fp8_kv_pool_bytes(num_slots, layers, slot_blocks);
        let small: bool = match self.fp8_kv_pool {
            Some(len) => len < wanted,
            None => true,
        };
        let grow: bool = small || self.fp8_kv_slots < num_slots || self.fp8_kv_layers < layers
            || self.fp8_kv_slot_blocks < slot_blocks;
        if grow {
            self.fp8_kv_pool = Some(wanted);
            self.fp8_kv_slots = num_slots;
            self.fp8_kv_layers = layers;
            self.fp8_kv_slot_blocks = slot_blocks;
        }
        Ok(grow)
    }

    /// The range of a slot and layer, cut to `slot_blocks` blocks.
    pub fn fp8_kv_slot_layer_view(
        &self,
        slot_idx: usize,
        layer_idx: usize,
        slot_blocks: usize,
    ) -> (r: Result<PoolView, DecodeBufferError>)
        requires
            ranges_countable(*self),
        ensures
            r == pool_view(*self, slot_idx, layer_idx, slot_blocks),
            r matches Ok(view) ==> view.offset + view.bytes <= self.fp8_kv_pool->Some_0,
    {
        if slot_idx >= self.fp8_kv_slots {
            return Err(DecodeBufferError::PoolSlot);
        }
        if layer_idx >= self.fp8_kv_layers {
            return Err(DecodeBufferError::PoolLayer);
        }
        if slot_blocks > self.fp8_kv_slot_blocks {
            return Err(DecodeBufferError::PoolBlocks);
        }
        proof {
            lemma_range_inside(*self, slot_idx as int, layer_idx as int);
            let all = self.fp8_kv_slots * self.fp8_kv_layers;
            let r = range_bytes(*self);
            assert(r <= all * r) by (nonlinear_arith)
                requires
                    all >= 1,
                    r >= 0,
            ;
            let k = slot_blocks as int;
            let m = self.fp8_kv_slot_blocks as int;
            assert(k * BLOCK_BYTES <= m * BLOCK_BYTES) by (nonlinear_arith)
                requires
                    k <= m,
            ;
            let i = slot_idx as int;
            let layers = self.fp8_kv_layers as int;
            let slots = self.fp8_kv_slots as int;
            assert(i * layers + layer_idx <= slots * layers) by (nonlinear_arith)
                requires
                    0 <= i < slots,
                    0 <= layer_idx < layers,
            ;
        }
        let len: usize = match self.fp8_kv_pool {
            Some(len) => len,
            None => {
                return Err(DecodeBufferError::PoolMissing);
            },
        };
        let per_range: usize = self.fp8_kv_slot_blocks * BLOCK_BYTES;
        let bytes: usize = slot_blocks * BLOCK_BYTES;
        let index: usize = slot_idx * self.fp8_kv_layers + layer_idx;
        let offset: usize = index * per_range;
        if offset + bytes > len {
            return Err(DecodeBufferError::PoolRange);
        }
        Ok(PoolView { offset, bytes })
    }

    fn check_batch(&self, rows: usize) -> (r: Result<(), DecodeBufferError>)
        ensures
            r == (if rows > self.max_batch_size {
                Err::<(), DecodeBufferError>(DecodeBufferError::BatchSize)
            } else {
                Ok(())
            }),
    {
        if rows > self.max_batch_size {
            return Err(DecodeBufferError::BatchSize);
        }
        Ok(())
    }

    /// Checks that the tokens of a batch fit the buffers.
    pub fn upload_token_ids(&self, tokens: &[u32]) -> (r: Result<(), DecodeBufferError>)
        ensures
            r == (if tokens@.len() > self.max_batch_size {
                Err::<(), DecodeBufferError>(DecodeBufferError::BatchSize)
            } else {
                Ok(())
            }),
    {
        self.check_batch(tokens.len())
    }

    /// Checks that the slots of a batch fit the buffers. No buffer moves.
    pub fn update_metadata(&self, slot_indices: &[usize]) -> (r: Result<bool, DecodeBufferError>)
        ensures
            r == (if slot_indices@.len() > self.max_batch_size {
                Err::<bool, DecodeBufferError>(DecodeBufferError::BatchSize)
            } else {
                Ok(false)
            }),
    {
        match self.check_batch(slot_indices.len()) {
            Ok(_) => Ok(false),
            Err(e) => Err(e),
        }
    }

    /// Checks that the rows of a batch fit the buffers.
    pub fn plan_attention(&self, batch_size: usize) -> (r: Result<(), DecodeBufferError>)
        ensures
            r == (if batch_size > self.max_batch_size {
                Err::<(), DecodeBufferError>(DecodeBufferError::BatchSize)
            } else {
                Ok(())
            }),
    {
        self.check_batch(batch_size)
    }
}

} // verus!
