//! Prefill of single requests.

use vstd::prelude::*;

use crate::arith::smaller;
use crate::model::deepseek::state::DeepseekState;
use crate::model::deepseek::weights::{DeepseekModel, LogitsRoute, ModelError};
use crate::model::deepseek::weights::{logits_route, scope_fault};

verus! {

/// Buffers of a batched prefill. There are none.
#[derive(Clone, Copy, Debug, PartialEq, Eq, Structural)]
pub struct DeepseekPrefillContext;

impl DeepseekPrefillContext {
    /// The buffers of a batched prefill.
    pub fn new() -> (context: Self)
        ensures
            context == DeepseekPrefillContext,
    {
        DeepseekPrefillContext
    }
}

/// How a chunk is prefilled.
#[derive(Clone, Copy, Debug, PartialEq, Eq, Structural)]
pub enum PrefillStep {
    /// Its logits are not asked for yet: zeros stand in for them.
    Deferred,
    /// By the reference model.
    Reference,
    /// On the device; zeros stand in where the weights are not loaded.
    Device(LogitsRoute),
}

/// The switches that choose how logits are computed.
#[derive(Clone, Copy, Debug)]
pub struct LogitsSwitches<'a> {
    pub incremental: Option<&'a str>,
    pub contextual: Option<&'a str>,
    pub full_layers: Option<&'a str>,
}

impl<'a> LogitsSwitches<'a> {
    /// The route that the switches choose.
    pub open spec fn route(self) -> Result<LogitsRoute, ModelError> {
        logits_route(self.incremental, self.contextual, self.full_layers)
    }
}

/// All tokens are in the vocabulary.
pub open spec fn in_vocab(tokens: Seq<u32>, vocab_size: usize) -> bool {
    forall|i: int| 0 <= i < tokens.len() ==> (#[trigger] tokens[i]) < vocab_size
}

/// Why a chunk cannot be prefilled, if it cannot.
pub open spec fn prefill_fault(model: DeepseekModel, tokens: Seq<u32>, kv_len: usize) -> Option<
    ModelError,
> {
    match scope_fault(model.config) {
        Some(e) => Some(e),
        None => if tokens.len() == 0 {
            Some(ModelError::NoTokens)
        } else if smaller((kv_len + tokens.len()) as nat, usize::MAX as nat)
            > model.config.spec.max_position_embeddings {
            Some(ModelError::ContextLength)
        } else if !in_vocab(tokens, model.config.spec.vocab_size) {
            Some(ModelError::TokenId)
        } else {
            None
        },
    }
}

/// What prefilling a chunk is, where it can be prefilled.
pub open spec fn prefill_step(
    model: DeepseekModel,
    emit_logits: bool,
    switches: LogitsSwitches<'_>,
) -> Result<PrefillStep, ModelError> {
    if !emit_logits {
        Ok(PrefillStep::Deferred)
    } else if model.has_reference {
        Ok(PrefillStep::Reference)
    } else {
        match switches.route() {
            Ok(route) => Ok(PrefillStep::Device(route)),
            Err(e) => Err(e),
        }
    }
}

/// What prefilling a chunk gives, and the state afterwards: the tokens of a chunk
/// that can be prefilled are recorded.
pub open spec fn prefilled(
    r: Result<PrefillStep, ModelError>,
    model: DeepseekModel,
    tokens: Seq<u32>,
    kv_len: usize,
    emit_logits: bool,
    switches: LogitsSwitches<'_>,
    before: DeepseekState,
    after: DeepseekState,
) -> bool {
    &&& match prefill_fault(model, tokens, kv_len) {
        Some(e) => {
            &&& r == Err::<PrefillStep, ModelError>(e)
            &&& after.reference_tokens@ == before.reference_tokens@
        },
        None => {
            &&& r == prefill_step(model, emit_logits, switches)
            &&& after.reference_tokens@ == before.reference_tokens@ + tokens
        },
    }
    &&& after.base == before.base
    &&& after.incremental == before.incremental
}

impl DeepseekModel {
    fn check_tokens(&self, tokens: &[u32]) -> (r: Result<(), ModelError>)
        ensures
            r == (if in_vocab(tokens@, self.config.spec.vocab_size) {
                Ok::<(), ModelError>(())
            } else {
                Err(ModelError::TokenId)
            }),
    {
        let vocab_size: usize = self.config.spec.vocab_size;
        let mut i: usize = 0;
        while i < tokens.len()
            invariant
                i <= tokens@.len(),
                vocab_size == self.config.spec.vocab_size,
                forall|k: int| 0 <= k < i ==> (#[trigger] tokens@[k]) < vocab_size,
            decreases tokens@.len() - i,
        {
            if tokens[i] as usize >= vocab_size {
                assert(tokens@[i as int] >= vocab_size);
                return Err(ModelError::TokenId);
            }
            i = i + 1;
        }
        Ok(())
    }

    /// Plans the prefill of a chunk whose logits are asked for.
    pub fn prefill_one(
        &self,
        tokens: &[u32],
        kv_len: usize,
        state: &mut DeepseekState,
        switches: &LogitsSwitches<'_>,
    ) -> (r: Result<PrefillStep, ModelError>)
        ensures
            prefilled(r, *self, tokens@, kv_len, true, *switches, *old(state), *final(state)),
    {
        self.prefill_one_chunk(tokens, kv_len, true, state, switches)
    }

    /// Plans the prefill of a chunk; `kv_len` tokens are cached already. The
    /// tokens of a chunk that can be prefilled are recorded.
    pub fn prefill_one_chunk(
        &self,
        tokens: &[u32],
        kv_len: usize,
        emit_logits: bool,
        state: &mut DeepseekState,
        switches: &LogitsSwitches<'_>,
    ) -> (r: Result<PrefillStep, ModelError>)
        ensures
            prefilled(r, *self, tokens@, kv_len, emit_logits, *switches, *old(state), *final(state)),
    {
        if let Err(e) = self.validate_phase0_sw_decode_scope() {
            return Err(e);
        }
        let count: usize = tokens.len();
        if count == 0 {
            return Err(ModelError::NoTokens);
        }
        if kv_len.saturating_add(count) > self.config.spec.max_position_embeddings {
            return Err(ModelError::ContextLength);
        }
        if let Err(e) = self.check_tokens(tokens) {
            return Err(e);
        }
        if !emit_logits {
            state.reference_tokens.extend_from_slice(tokens);
            proof {
                assert(state.reference_tokens@ =~= old(state).reference_tokens@ + tokens@);
            }
            return Ok(PrefillStep::Deferred);
        }
        if self.compute_reference_logits_after_prefill(tokens, state) {
            return Ok(PrefillStep::Reference);
        }
        match self.compute_gpu_logits_after_prefill(
            tokens,
            state,
            switches.incremental,
            switches.contextual,
            switches.full_layers,
        ) {
            Ok(route) => Ok(PrefillStep::Device(route)),
            Err(e) => Err(e),
        }
    }

    /// Ends a prefill: its logits are valid, and the scheduler counts its
    /// tokens as cached.
    pub fn finish_prefill(&self, tokens: usize, state: &mut DeepseekState) -> (advance: usize)
        ensures
            advance == tokens,
            final(state).base == (crate::model::generation_state::GenerationStateBase {
                prefill_logits: true,
                ..old(state).base
            }),
            final(state).reference_tokens@ == old(state).reference_tokens@,
            final(state).incremental == old(state).incremental,
    {
        state.base.prefill_logits = true;
        tokens
    }

    /// Checks that a request's slot has a state.
    pub fn check_slot(&self, slot_idx: usize, states: usize) -> (r: Result<(), ModelError>)
        ensures
            r == (if slot_idx < states {
                Ok::<(), ModelError>(())
            } else {
                Err(ModelError::Slot)
            }),
    {
        if slot_idx < states {
            Ok(())
        } else {
            Err(ModelError::Slot)
        }
    }
}

} // verus!
