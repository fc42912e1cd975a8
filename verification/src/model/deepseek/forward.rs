//! Decoding, sampling and what the scheduler asks of the model.

use vstd::prelude::*;

use crate::arith::{ceil_div, larger};
use crate::arith::{div_ceil, max};
use crate::model::deepseek::batch_decode::{
    DecodeBufferError, DeepseekBatchDecodeBuffers, PoolView,
};
use crate::model::deepseek::batch_decode::{
    law_ensured_pool_serves, pool_bytes, pool_lacks, pool_view, ranges_countable,
};
use crate::model::deepseek::config::AttentionMode;
use crate::model::deepseek::prefill::LogitsSwitches;
use crate::model::deepseek::state::DeepseekState;
use crate::model::deepseek::weights::scope_fault;
use crate::model::deepseek::weights::{DeepseekModel, LogitsRoute, ModelError};
use crate::model::generation_state::GenerationStateBase;
use crate::model::requests::{
    MixedBatchFallbackReason, MixedBatchOutcome, SchedulerRuntimeWorkspaceBudget,
};

verus! {

/// How a token is decoded.
#[derive(Clone, Copy, Debug, PartialEq, Eq, Structural)]
pub enum DecodeStep {
    /// By the reference model.
    Reference,
    /// On the device.
    Device(LogitsRoute),
}

/// Why a token cannot be decoded, if it cannot.
pub open spec fn decode_fault(model: DeepseekModel, token: u32) -> Option<ModelError> {
    match scope_fault(model.config) {
        Some(e) => Some(e),
        None => if token >= model.config.spec.vocab_size {
            Some(ModelError::TokenId)
        } else {
            None
        },
    }
}

/// What decoding a token is, where it can be decoded.
pub open spec fn decode_step(
    model: DeepseekModel,
    switches: LogitsSwitches<'_>,
) -> Result<DecodeStep, ModelError> {
    if model.has_reference {
        Ok(DecodeStep::Reference)
    } else {
        match switches.route() {
            Ok(route) => Ok(DecodeStep::Device(route)),
            Err(e) => Err(e),
        }
    }
}

/// What decoding a token gives, and the state afterwards: a token that can be
/// decoded is recorded.
pub open spec fn decoded(
    r: Result<DecodeStep, ModelError>,
    model: DeepseekModel,
    token: u32,
    switches: LogitsSwitches<'_>,
    before: DeepseekState,
    after: DeepseekState,
) -> bool {
    &&& match decode_fault(model, token) {
        Some(e) => {
            &&& r == Err::<DecodeStep, ModelError>(e)
            &&& after.reference_tokens@ == before.reference_tokens@
        },
        None => {
            &&& r == decode_step(model, switches)
            &&& after.reference_tokens@ == before.reference_tokens@.push(token)
        },
    }
    &&& after.base == before.base
    &&& after.incremental == before.incremental
}

/// One bound range of the shared pool.
#[derive(Clone, Copy, Debug, PartialEq, Eq, Structural)]
pub struct PoolBinding {
    pub slot_idx: usize,
    pub layer_idx: usize,
    pub view: PoolView,
}

/// Why a batch of decoded tokens cannot run.
#[derive(Clone, Copy, Debug, PartialEq, Eq, Structural)]
pub enum DecodeBatchError {
    Model(ModelError),
    Buffers(DecodeBufferError),
}

/// What a batch of decoded tokens needs before it runs.
pub enum DecodeBatch {
    /// There is no token.
    Nothing,
    /// The tokens run with these ranges bound.
    Run(Vec<PoolBinding>),
}

/// The buffers of decoding and whether their pool has to be allocated.
pub open spec fn decode_context(
    max_batch_size: usize,
    seq_len: Option<usize>,
    layers: usize,
    slot_blocks: usize,
) -> Result<(DeepseekBatchDecodeBuffers, bool), DecodeBufferError> {
    let plain = DeepseekBatchDecodeBuffers {
        max_batch_size,
        fp8_kv_pool: None,
        fp8_kv_slots: 0,
        fp8_kv_layers: 0,
        fp8_kv_slot_blocks: 0,
        fp8_kv_max_seq_len: 0,
    };
    if max_batch_size == 0 {
        Err(DecodeBufferError::NoCapacity)
    } else {
        match seq_len {
            None => Ok((plain, false)),
            Some(len) => if layers == 0 || slot_blocks == 0 {
                Err(DecodeBufferError::PoolShape)
            } else {
                Ok(
                    (
                        DeepseekBatchDecodeBuffers {
                            fp8_kv_pool: Some(
                                pool_bytes(max_batch_size, layers, slot_blocks) as usize,
                            ),
                            fp8_kv_slots: max_batch_size,
                            fp8_kv_layers: layers,
                            fp8_kv_slot_blocks: slot_blocks,
                            fp8_kv_max_seq_len: len,
                            ..plain
                        },
                        true,
                    ),
                )
            },
        }
    }
}

/// Every slot of a batch has a state and a range of a pool that was made for
/// its shape, so all of its layers can be bound.
pub proof fn law_made_pool_binds_every_slot(
    b: DeepseekBatchDecodeBuffers,
    slots: Seq<usize>,
    states: usize,
    n: int,
)
    requires
        ranges_countable(b),
        !pool_lacks(b, b.fp8_kv_slots, b.fp8_kv_layers, b.fp8_kv_slot_blocks),
        0 <= n <= slots.len(),
        forall|i: int| 0 <= i < n ==> (#[trigger] slots[i]) < states && slots[i] < b.fp8_kv_slots,
    ensures
        batch_bindings(b, slots, states, b.fp8_kv_layers, b.fp8_kv_slot_blocks, n) is Ok,
    decreases n,
{
    if n > 0 {
        law_made_pool_binds_every_slot(b, slots, states, n - 1);
        assert(slots[n - 1] < states);
        lemma_slot_binds(b, slots[n - 1], b.fp8_kv_layers as int);
    }
}

proof fn lemma_slot_binds(b: DeepseekBatchDecodeBuffers, slot: usize, n: int)
    requires
        ranges_countable(b),
        !pool_lacks(b, b.fp8_kv_slots, b.fp8_kv_layers, b.fp8_kv_slot_blocks),
        slot < b.fp8_kv_slots,
        0 <= n <= b.fp8_kv_layers,
    ensures
        slot_bindings(b, slot, b.fp8_kv_slot_blocks, n) is Ok,
    decreases n,
{
    if n > 0 {
        lemma_slot_binds(b, slot, n - 1);
        law_ensured_pool_serves(b, slot, (n - 1) as usize, b.fp8_kv_slot_blocks);
    }
}

/// The ranges of the first `n` layers of a slot.
pub open spec fn slot_bindings(
    b: DeepseekBatchDecodeBuffers,
    slot: usize,
    blocks: usize,
    n: int,
) -> Result<Seq<PoolBinding>, DecodeBatchError>
    decreases n,
{
    if n <= 0 {
        Ok(Seq::empty())
    } else {
        match slot_bindings(b, slot, blocks, n - 1) {
            Err(e) => Err(e),
            Ok(list) => match pool_view(b, slot, (n - 1) as usize, blocks) {
                Err(e) => Err(DecodeBatchError::Buffers(e)),
                Ok(view) => Ok(
                    list.push(
                        PoolBinding { slot_idx: slot, layer_idx: (n - 1) as usize, view },
                    ),
                ),
            },
        }
    }
}

/// The ranges of all layers of the first `n` slots; the first that fails is
/// the error.
pub open spec fn batch_bindings(
    b: DeepseekBatchDecodeBuffers,
    slots: Seq<usize>,
    states: usize,
    layers: usize,
    blocks: usize,
    n: int,
) -> Result<Seq<PoolBinding>, DecodeBatchError>
    decreases n,
{
    if n <= 0 {
        Ok(Seq::empty())
    } else {
        match batch_bindings(b, slots, states, layers, blocks, n - 1) {
            Err(e) => Err(e),
            Ok(list) => if slots[n - 1] >= states {
                Err(DecodeBatchError::Model(ModelError::Slot))
            } else {
                match slot_bindings(b, slots[n - 1], blocks, layers as int) {
                    Err(e) => Err(e),
                    Ok(more) => Ok(list + more),
                }
            },
        }
    }
}

proof fn lemma_slot_failure_stays(
    b: DeepseekBatchDecodeBuffers,
    slot: usize,
    blocks: usize,
    m: int,
    n: int,
)
    requires
        m <= n,
        slot_bindings(b, slot, blocks, m) is Err,
    ensures
        slot_bindings(b, slot, blocks, n) == slot_bindings(b, slot, blocks, m),
    decreases n - m,
{
    if m < n {
        lemma_slot_failure_stays(b, slot, blocks, m, n - 1);
    }
}

proof fn lemma_batch_failure_stays(
    b: DeepseekBatchDecodeBuffers,
    slots: Seq<usize>,
    states: usize,
    layers: usize,
    blocks: usize,
    m: int,
    n: int,
)
    requires
        m <= n,
        batch_bindings(b, slots, states, layers, blocks, m) is Err,
    ensures
        batch_bindings(b, slots, states, layers, blocks, n) == batch_bindings(
            b,
            slots,
            states,
            layers,
            blocks,
            m,
        ),
    decreases n - m,
{
    if m < n {
        lemma_batch_failure_stays(b, slots, states, layers, blocks, m, n - 1);
    }
}

fn bind_slot(
    b: &DeepseekBatchDecodeBuffers,
    slot: usize,
    layers: usize,
    blocks: usize,
) -> (r: Result<Vec<PoolBinding>, DecodeBatchError>)
    requires
        ranges_countable(*b),
    ensures
        match slot_bindings(*b, slot, blocks, layers as int) {
            Ok(list) => r matches Ok(bound) && bound@ == list,
            Err(e) => r == Err::<Vec<PoolBinding>, DecodeBatchError>(e),
        },
{
    let mut bound: Vec<PoolBinding> = Vec::new();
    let mut i: usize = 0;
    proof {
        assert(bound@ =~= Seq::<PoolBinding>::empty());
    }
    while i < layers
        invariant
            i <= layers,
            ranges_countable(*b),
            slot_bindings(*b, slot, blocks, i as int) == Ok::<Seq<PoolBinding>, DecodeBatchError>(
                bound@,
            ),
        decreases layers - i,
    {
        match b.fp8_kv_slot_layer_view(slot, i, blocks) {
            Ok(view) => {
                bound.push(PoolBinding { slot_idx: slot, layer_idx: i, view });
            },
            Err(e) => {
                proof {
                    lemma_slot_failure_stays(*b, slot, blocks, i + 1, layers as int);
                }
                return Err(DecodeBatchError::Buffers(e));
            },
        }
        i = i + 1;
    }
    Ok(bound)
}

/// Binds the ranges of the shared pool that a batch of slots needs: all layers
/// of each slot, slot by slot.
pub fn bind_pool_views(
    b: &DeepseekBatchDecodeBuffers,
    slots: &[usize],
    states: usize,
    layers: usize,
    blocks: usize,
) -> (r: Result<Vec<PoolBinding>, DecodeBatchError>)
    requires
        ranges_countable(*b),
    ensures
        match batch_bindings(*b, slots@, states, layers, blocks, slots@.len() as int) {
            Ok(list) => r matches Ok(bound) && bound@ == list,
            Err(e) => r == Err::<Vec<PoolBinding>, DecodeBatchError>(e),
        },
{
    let mut bound: Vec<PoolBinding> = Vec::new();
    let mut i: usize = 0;
    proof {
        assert(bound@ =~= Seq::<PoolBinding>::empty());
    }
    while i < slots.len()
        invariant
            i <= slots@.len(),
            ranges_countable(*b),
            batch_bindings(*b, slots@, states, layers, blocks, i as int) == Ok::<
                Seq<PoolBinding>,
                DecodeBatchError,
            >(bound@),
        decreases slots@.len() - i,
    {
        let slot: usize = slots[i];
        if slot >= states {
            proof {
                lemma_batch_failure_stays(
                    *b,
                    slots@,
                    states,
                    layers,
                    blocks,
                    i + 1,
                    slots@.len() as int,
                );
            }
            return Err(DecodeBatchError::Model(ModelError::Slot));
        }
        match bind_slot(b, slot, layers, blocks) {
            Ok(mut more) => {
                let ghost before = bound@;
                let ghost added = more@;
                bound.append(&mut more);
                proof {
                    assert(bound@ =~= before + added);
                }
            },
            Err(e) => {
                proof {
                    lemma_batch_failure_stays(
                        *b,
                        slots@,
                        states,
                        layers,
                        blocks,
                        i + 1,
                        slots@.len() as int,
                    );
                }
                return Err(e);
            },
        }
        i = i + 1;
    }
    Ok(bound)
}

/// What a batch of decoded tokens needs, or why it cannot run.
pub open spec fn is_decode_batch(
    r: Result<DecodeBatch, DecodeBatchError>,
    tokens: nat,
    slots: Seq<usize>,
    states: usize,
    layers: usize,
    context: DeepseekBatchDecodeBuffers,
    slot_blocks: usize,
) -> bool {
    if tokens != slots.len() {
        r matches Err(e) && e == DecodeBatchError::Model(ModelError::TokenSlots)
    } else if tokens == 0 {
        r matches Ok(batch) && batch is Nothing
    } else if context.fp8_kv_pool is None {
        r matches Ok(DecodeBatch::Run(bound)) && bound@.len() == 0
    } else {
        match batch_bindings(context, slots, states, layers, slot_blocks, slots.len() as int) {
            Ok(list) => r matches Ok(DecodeBatch::Run(bound)) && bound@ == list,
            Err(e) => r matches Err(found) && found == e,
        }
    }
}

/// Layers that the scheduler charges for compressed rows of the whole context.
pub open spec fn hybrid_layers(modes: Seq<AttentionMode>, n: int) -> nat
    decreases n,
{
    if n <= 0 {
        0
    } else {
        hybrid_layers(modes, n - 1) + (if modes[n - 1] == AttentionMode::HybridCompressed {
            1nat
        } else {
            0nat
        })
    }
}

/// The smallest ratio of such layers, where there is one.
pub open spec fn smallest_hybrid_ratio(
    ratios: Seq<usize>,
    modes: Seq<AttentionMode>,
    n: int,
) -> Option<usize>
    decreases n,
{
    if n <= 0 {
        None
    } else if modes[n - 1] != AttentionMode::HybridCompressed {
        smallest_hybrid_ratio(ratios, modes, n - 1)
    } else {
        match smallest_hybrid_ratio(ratios, modes, n - 1) {
            None => Some(ratios[n - 1]),
            Some(r) => if ratios[n - 1] < r {
                Some(ratios[n - 1])
            } else {
                Some(r)
            },
        }
    }
}

impl DeepseekModel {
    /// Every layer has a ratio and a mode.
    pub open spec fn layers_described(self) -> bool {
        self.config.spec.attention_modes@.len() == self.config.spec.compress_ratios@.len()
    }

    /// Layers that the scheduler charges for, at least one.
    pub open spec fn charged_layers(self) -> nat {
        let modes = self.config.spec.attention_modes@;
        larger(hybrid_layers(modes, modes.len() as int), 1)
    }

    /// Values per token and layer that the scheduler charges for, at least one.
    pub open spec fn charged_dim(self) -> nat {
        let spec = self.config.spec;
        let n = spec.compress_ratios@.len() as int;
        let ratio = match smallest_hybrid_ratio(
            spec.compress_ratios@,
            spec.attention_modes@,
            n,
        ) {
            None => 128nat,
            Some(r) => larger(r as nat, 1),
        };
        larger(ceil_div(spec.head_dim as nat, ratio), 1)
    }

    /// The longest sequence of the shared pool, where it is made.
    pub open spec fn pool_seq_len(
        self,
        shared_pool: bool,
        flash_decode: bool,
        max_seq_len: Option<usize>,
    ) -> Option<usize> {
        if shared_pool && flash_decode && self.layers@.len() > 0 {
            match max_seq_len {
                Some(n) => Some(n),
                None => Some(self.config.spec.max_position_embeddings),
            }
        } else {
            None
        }
    }

    /// Bytes that the shared pool takes, where it is made.
    pub open spec fn reserved_bytes(
        self,
        max_batch_size: usize,
        max_seq_len: Option<usize>,
        shared_pool: bool,
        flash_decode: bool,
        slot_blocks: usize,
    ) -> nat {
        if self.pool_seq_len(shared_pool, flash_decode, max_seq_len) is Some {
            pool_bytes(max_batch_size, self.layers@.len() as usize, slot_blocks)
        } else {
            0
        }
    }

    /// Plans the decoding of a token, which is recorded where it can be
    /// decoded.
    pub fn forward_decode(
        &self,
        token: u32,
        state: &mut DeepseekState,
        switches: &LogitsSwitches<'_>,
    ) -> (r: Result<DecodeStep, ModelError>)
        ensures
            decoded(r, *self, token, *switches, *old(state), *final(state)),
    {
        if let Err(e) = self.validate_phase0_sw_decode_scope() {
            return Err(e);
        }
        if token as usize >= self.config.spec.vocab_size {
            return Err(ModelError::TokenId);
        }
        if self.compute_reference_logits_after_decode(token, state) {
            return Ok(DecodeStep::Reference);
        }
        match self.compute_gpu_logits_after_decode(
            token,
            state,
            switches.incremental,
            switches.contextual,
            switches.full_layers,
        ) {
            Ok(route) => Ok(DecodeStep::Device(route)),
            Err(e) => Err(e),
        }
    }

    /// Ends the decoding of a token: the logits are those of the decode
    /// buffer, and the scheduler counts one more cached token.
    pub fn finish_decode(&self, state: &mut DeepseekState) -> (advance: usize)
        ensures
            advance == 1,
            final(state).base == (GenerationStateBase {
                prefill_logits: false,
                ..old(state).base
            }),
            final(state).reference_tokens@ == old(state).reference_tokens@,
            final(state).incremental == old(state).incremental,
    {
        state.base.prefill_logits = false;
        1
    }

    /// Makes the buffers of decoding, with the shared pool where it is wanted;
    /// says whether the pool has to be allocated.
    pub fn create_decode_context(
        &self,
        max_batch_size: usize,
        max_seq_len: Option<usize>,
        shared_pool: bool,
        flash_decode: bool,
        slot_blocks: usize,
    ) -> (r: Result<(DeepseekBatchDecodeBuffers, bool), DecodeBufferError>)
        ensures
            r == decode_context(
                max_batch_size,
                self.pool_seq_len(shared_pool, flash_decode, max_seq_len),
                self.layers@.len() as usize,
                slot_blocks,
            ),
    {
        let mut buffers = match DeepseekBatchDecodeBuffers::new(max_batch_size) {
            Ok(buffers) => buffers,
            Err(e) => {
                return Err(e);
            },
        };
        match self.shared_pool_seq_len(shared_pool, flash_decode, max_seq_len) {
            None => Ok((buffers, false)),
            Some(len) => {
                match buffers.ensure_fp8_kv_pool(max_batch_size, self.layers.len(), slot_blocks) {
                    Err(e) => Err(e),
                    Ok(allocate) => {
                        buffers.set_fp8_kv_max_seq_len(len);
                        Ok((buffers, allocate))
                    },
                }
            },
        }
    }

    /// Plans a batch of decoded tokens: where there is a shared pool, the
    /// ranges of all layers of every slot are bound before any token runs.
    pub fn forward_decode_batch(
        &self,
        tokens: &[u32],
        slot_indices: &[usize],
        states: usize,
        context: &DeepseekBatchDecodeBuffers,
        slot_blocks: usize,
    ) -> (r: Result<DecodeBatch, DecodeBatchError>)
        requires
            ranges_countable(*context),
        ensures
            is_decode_batch(
                r,
                tokens@.len(),
                slot_indices@,
                states,
                self.layers@.len() as usize,
                *context,
                slot_blocks,
            ),
    {
        match self.check_decode_batch(tokens, slot_indices) {
            Err(e) => {
                return Err(DecodeBatchError::Model(e));
            },
            Ok(false) => {
                return Ok(DecodeBatch::Nothing);
            },
            Ok(true) => {},
        }
        if context.fp8_kv_max_seq_len().is_none() {
            return Ok(DecodeBatch::Run(Vec::new()));
        }
        match bind_pool_views(context, slot_indices, states, self.layers.len(), slot_blocks) {
            Ok(bound) => Ok(DecodeBatch::Run(bound)),
            Err(e) => Err(e),
        }
    }

    /// Checks a batch of tokens to decode; says whether there is any.
    pub fn check_decode_batch(&self, tokens: &[u32], slot_indices: &[usize]) -> (r: Result<
        bool,
        ModelError,
    >)
        ensures
            r == (if tokens@.len() != slot_indices@.len() {
                Err::<bool, ModelError>(ModelError::TokenSlots)
            } else {
                Ok(tokens@.len() > 0)
            }),
    {
        if tokens.len() != slot_indices.len() {
            return Err(ModelError::TokenSlots);
        }
        Ok(tokens.len() > 0)
    }

    /// A mixed batch is never executed as one unit.
    pub fn forward_mixed_batch(&self) -> (outcome: MixedBatchOutcome)
        ensures
            outcome == MixedBatchOutcome::Fallback(MixedBatchFallbackReason::UnsupportedModel),
    {
        MixedBatchOutcome::Fallback(MixedBatchFallbackReason::UnsupportedModel)
    }

    /// Checks that the sampler can do what is asked: neither penalties nor a
    /// floor on probabilities.
    pub fn check_sampling(&self, has_penalties: bool, has_min_p: bool) -> (r: Result<
        (),
        ModelError,
    >)
        ensures
            r == (if has_penalties || has_min_p {
                Err::<(), ModelError>(ModelError::Sampling)
            } else {
                Ok(())
            }),
    {
        if has_penalties || has_min_p {
            return Err(ModelError::Sampling);
        }
        Ok(())
    }

    /// Generation ends with the end-of-sequence token.
    pub fn is_stop_token(&self, token_id: u32) -> (stop: bool)
        ensures
            stop == (self.config.spec.eos_token_id == Some(token_id)),
    {
        match self.config.spec.eos_token_id {
            Some(eos) => eos == token_id,
            None => false,
        }
    }

    /// Prefill writes into the paged pool.
    pub fn prefill_uses_paged_pool(&self) -> (uses: bool)
        ensures
            uses,
    {
        true
    }

    /// Cached prefixes of other slots cannot be attached.
    pub fn supports_cross_slot_prefix_attach(&self) -> (supported: bool)
        ensures
            !supported,
    {
        false
    }

    /// Decoding can be warmed up where there is one rank.
    pub fn supports_decode_warmup(&self) -> (supported: bool)
        ensures
            supported == (self.config.tp.world_size == 1 && self.config.ep.world_size == 1),
    {
        self.config.tp.world_size == 1 && self.config.ep.world_size == 1
    }

    /// Decoding cannot be replayed from a graph.
    pub fn supports_cuda_graph_decode(&self) -> (supported: bool)
        ensures
            !supported,
    {
        false
    }

    /// Prefill cannot be warmed up.
    pub fn supports_prefill_warmup(&self) -> (supported: bool)
        ensures
            !supported,
    {
        false
    }

    /// The longest sequence that the shared pool is made for, where it is
    /// made: both switches are on and layers are loaded.
    pub fn shared_pool_seq_len(
        &self,
        shared_pool: bool,
        flash_decode: bool,
        max_seq_len: Option<usize>,
    ) -> (len: Option<usize>)
        ensures
            len == self.pool_seq_len(shared_pool, flash_decode, max_seq_len),
    {
        if !shared_pool || !flash_decode || self.layers.len() == 0 {
            return None;
        }
        match max_seq_len {
            Some(n) => Some(n),
            None => Some(self.config.spec.max_position_embeddings),
        }
    }

    /// Bytes that the scheduler reserves for the shared pool, of which every
    /// slot and layer takes `slot_blocks` blocks; none where it is not made.
    pub fn scheduler_runtime_workspace_bytes(
        &self,
        budget: &SchedulerRuntimeWorkspaceBudget,
        shared_pool: bool,
        flash_decode: bool,
        slot_blocks: usize,
    ) -> (bytes: usize)
        ensures
            bytes == self.reserved_bytes(
                budget.max_batch_size,
                budget.max_seq_len,
                shared_pool,
                flash_decode,
                slot_blocks,
            ),
    {
        if self.shared_pool_seq_len(shared_pool, flash_decode, budget.max_seq_len).is_none() {
            return 0;
        }
        DeepseekBatchDecodeBuffers::fp8_kv_pool_bytes(
            budget.max_batch_size,
            self.layers.len(),
            slot_blocks,
        )
    }

    /// Layers that the scheduler charges for.
    pub fn scheduler_c128_cache_layers(&self) -> (layers: usize)
        ensures
            layers == self.charged_layers(),
    {
        let modes = &self.config.spec.attention_modes;
        let mut count: usize = 0;
        let mut i: usize = 0;
        while i < modes.len()
            invariant
                i <= modes@.len(),
                count <= i,
                count == hybrid_layers(modes@, i as int),
            decreases modes@.len() - i,
        {
            if modes[i] == AttentionMode::HybridCompressed {
                count = count + 1;
            }
            i = i + 1;
        }
        max(count, 1)
    }

    /// Values per token and layer that the scheduler charges for.
    pub fn scheduler_c128_cache_head_dim(&self) -> (dim: usize)
        requires
            self.layers_described(),
        ensures
            dim == self.charged_dim(),
    {
        let ratios = &self.config.spec.compress_ratios;
        let modes = &self.config.spec.attention_modes;
        let mut smallest: Option<usize> = None;
        let mut i: usize = 0;
        while i < ratios.len()
            invariant
                i <= ratios@.len(),
                modes@.len() == ratios@.len(),
                smallest == smallest_hybrid_ratio(ratios@, modes@, i as int),
            decreases ratios@.len() - i,
        {
            if modes[i] == AttentionMode::HybridCompressed {
                smallest = match smallest {
                    None => Some(ratios[i]),
                    Some(r) => {
                        if ratios[i] < r {
                            Some(ratios[i])
                        } else {
                            Some(r)
                        }
                    },
                };
            }
            i = i + 1;
        }
        let ratio: usize = match smallest {
            None => 128,
            Some(r) => max(r, 1),
        };
        max(div_ceil(self.config.spec.head_dim, ratio), 1)
    }

    /// Bytes per token that the scheduler charges for keys and values.
    pub fn kv_cache_bytes_per_token(&self) -> (bytes: usize)
        requires
            self.layers_described(),
            2 * self.charged_layers() * self.config.spec.num_key_value_heads * self.charged_dim()
                * 2 <= usize::MAX,
        ensures
            bytes == 2 * self.charged_layers() * self.config.spec.num_key_value_heads
                * self.charged_dim() * 2,
    {
        let layers: usize = self.scheduler_c128_cache_layers();
        let dim: usize = self.scheduler_c128_cache_head_dim();
        let heads: usize = self.config.spec.num_key_value_heads;
        proof {
            let l = layers as int;
            let h = heads as int;
            let d = dim as int;
            assert(2 * l * h <= 2 * l * h * d && 0 <= 2 * l * h && 0 <= 2 * l * h * d)
                by (nonlinear_arith)
                requires
                    l >= 0,
                    h >= 0,
                    d >= 1,
            ;
            assert(h >= 1 ==> 2 * l <= 2 * l * h) by (nonlinear_arith)
                requires
                    l >= 0,
            ;
        }
        if heads == 0 {
            proof {
                assert(2 * layers * 0 * dim * 2 == 0) by (nonlinear_arith);
            }
            return 0;
        }
        2 * layers * heads * dim * 2
    }
}

} // verus!
