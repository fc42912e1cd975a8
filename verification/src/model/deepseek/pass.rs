//! The course of an incremental pass: the stream goes through the layers one
//! after the other and then through the head.

use vstd::prelude::*;

use crate::model::deepseek::device::HiddenShape;
use crate::model::deepseek::hyper::HeadPlan;
use crate::model::deepseek::scratch::DeepseekHiddenRuntimeScratch;
use crate::model::deepseek::scratch::{hidden_fits, put_hidden_scratch, taken_hidden};
use crate::model::deepseek::state::{
    DeepseekIncrementalState, DeepseekLayerRuntimeCache, DeepseekState,
};
use crate::model::deepseek::weights::{begun_step, incremental_start, is_head_plan, same_step};
use crate::model::deepseek::weights::{DeepseekModel, IncrementalStart, ModelError};

verus! {

/// What an incremental pass is asked for.
#[derive(Clone, Copy, Debug, PartialEq, Eq, Structural)]
pub struct PassRequest {
    pub tokens: usize,
    /// Tokens that are cached already.
    pub start_pos: usize,
    /// The logits of the last token are wanted.
    pub emit_logits: bool,
}

/// Where an incremental pass stands.
#[derive(Clone, Copy, Debug, PartialEq, Eq, Structural)]
pub enum PassState {
    /// The embeddings are being spread over the lanes of the stream.
    Starting { stream: DeepseekHiddenRuntimeScratch },
    /// A layer is running: it reads one stream and writes another.
    Layer { idx: usize, read: DeepseekHiddenRuntimeScratch, write: DeepseekHiddenRuntimeScratch },
    /// The head is running.
    Head { stream: DeepseekHiddenRuntimeScratch },
    /// The pass is over.
    Over,
}

impl PassState {
    /// How far the pass has come.
    pub open spec fn stage(self, layers: nat) -> nat {
        match self {
            PassState::Starting { .. } => 0,
            PassState::Layer { idx, .. } => idx as nat + 1,
            PassState::Head { .. } => layers + 1,
            PassState::Over => layers + 2,
        }
    }
}

/// What an incremental pass does next.
#[derive(Clone, Copy, Debug, PartialEq, Eq, Structural)]
pub enum PassAction {
    /// Run a layer. The flag says that the stream that it writes has to be
    /// allocated.
    RunLayer {
        idx: usize,
        start_pos: usize,
        read: HiddenShape,
        write: DeepseekHiddenRuntimeScratch,
        allocate: bool,
    },
    /// Mix the lanes of the last token and project them to logits.
    RunHead(HeadPlan),
    /// Nothing: the pass is over.
    Finish,
}

/// Values of a token's lanes.
pub open spec fn lanes_width(model: DeepseekModel) -> usize {
    (model.config.spec.hidden_size * model.config.spec.hc_mult) as usize
}

/// The pass goes on with layer `idx`, which reads `read`.
pub open spec fn goes_on(
    r: Result<(PassState, PassAction), ModelError>,
    after: Seq<DeepseekLayerRuntimeCache>,
    model: DeepseekModel,
    q: PassRequest,
    idx: usize,
    read: DeepseekHiddenRuntimeScratch,
    before: Seq<DeepseekLayerRuntimeCache>,
) -> bool {
    let slot = before[idx as int].stream_recycle;
    let dim = lanes_width(model);
    let write = taken_hidden(slot, dim, q.tokens);
    &&& r == Ok::<(PassState, PassAction), ModelError>(
        (
            PassState::Layer { idx, read, write },
            PassAction::RunLayer {
                idx,
                start_pos: q.start_pos,
                read: read.hidden,
                write,
                allocate: !(slot matches Some(s) && hidden_fits(s, dim, q.tokens)),
            },
        ),
    )
    &&& after == before.update(
        idx as int,
        DeepseekLayerRuntimeCache { stream_recycle: None, ..before[idx as int] },
    )
}

/// The layers after layer `idx` was given the stream that it read.
pub open spec fn with_read(
    layers: Seq<DeepseekLayerRuntimeCache>,
    idx: usize,
    read: DeepseekHiddenRuntimeScratch,
) -> Seq<DeepseekLayerRuntimeCache> {
    layers.update(
        idx as int,
        DeepseekLayerRuntimeCache { stream_recycle: Some(read), ..layers[idx as int] },
    )
}

/// The head follows the last layer.
pub open spec fn heads(
    r: Result<(PassState, PassAction), ModelError>,
    model: DeepseekModel,
    last: DeepseekHiddenRuntimeScratch,
) -> bool {
    match r {
        Ok((PassState::Head { stream }, PassAction::RunHead(plan))) => {
            &&& stream == last
            &&& is_head_plan(Ok(plan), model, model.head_hc->Some_0, last.hidden)
        },
        Ok(_) => false,
        Err(e) => is_head_plan(Err(e), model, model.head_hc->Some_0, last.hidden),
    }
}

/// What follows a step of the pass, and the state afterwards.
pub open spec fn pass_follows(
    r: Result<(PassState, PassAction), ModelError>,
    after: DeepseekIncrementalState,
    model: DeepseekModel,
    q: PassRequest,
    state: PassState,
    before: DeepseekIncrementalState,
) -> bool {
    match state {
        PassState::Starting { stream } => {
            &&& goes_on(r, after.layers@, model, q, 0, stream, before.layers@)
            &&& after.processed_tokens == before.processed_tokens
            &&& after.stream_recycle == before.stream_recycle
        },
        PassState::Layer { idx, read, write } => if idx + 1 < model.layers@.len() {
            &&& goes_on(
                r,
                after.layers@,
                model,
                q,
                (idx + 1) as usize,
                write,
                with_read(before.layers@, idx, read),
            )
            &&& after.processed_tokens == before.processed_tokens
            &&& after.stream_recycle == before.stream_recycle
        } else {
            &&& after.layers@ == with_read(before.layers@, idx, read)
            &&& after.processed_tokens == before.processed_tokens + q.tokens
            &&& if q.emit_logits {
                &&& heads(r, model, write)
                &&& after.stream_recycle == before.stream_recycle
            } else {
                &&& r == Ok::<(PassState, PassAction), ModelError>(
                    (PassState::Over, PassAction::Finish),
                )
                &&& after.stream_recycle == Some(write)
            }
        },
        PassState::Head { stream } => {
            &&& r == Ok::<(PassState, PassAction), ModelError>(
                (PassState::Over, PassAction::Finish),
            )
            &&& after.layers@ == before.layers@
            &&& after.processed_tokens == before.processed_tokens
            &&& after.stream_recycle == Some(stream)
        },
        PassState::Over => true,
    }
}

/// A stream that was taken for a step fits every later step of as many tokens:
/// once it is back in its slot, such a step allocates none.
pub proof fn law_taken_streams_fit_again(
    slot: Option<DeepseekHiddenRuntimeScratch>,
    model: DeepseekModel,
    tokens: usize,
)
    ensures
        hidden_fits(taken_hidden(slot, lanes_width(model), tokens), lanes_width(model), tokens),
{
}

impl DeepseekModel {
    /// Records the tokens of a chunk and plans the beginning of its pass;
    /// `kv_len` is the scheduler's count of cached tokens.
    pub fn compute_gpu_incremental_prefill_chunk(
        &self,
        tokens: &[u32],
        kv_len: usize,
        state: &mut DeepseekState,
    ) -> (r: Result<IncrementalStart, ModelError>)
        requires
            self.wf(),
        ensures
            final(state).reference_tokens@ == old(state).reference_tokens@ + tokens@,
            final(state).base == old(state).base,
            r == incremental_start(*self, tokens@.len() as usize, kv_len, old(state).incremental),
            match r {
                Ok(IncrementalStart::Unloaded) => same_step(
                    old(state).incremental,
                    final(state).incremental,
                ),
                Ok(_) => begun_step(
                    old(state).incremental,
                    final(state).incremental,
                    self.layers@.len(),
                ),
                Err(ModelError::Hyper(_)) => begun_step(
                    old(state).incremental,
                    final(state).incremental,
                    self.layers@.len(),
                ),
                Err(_) => same_step(old(state).incremental, final(state).incremental),
            },
    {
        state.reference_tokens.extend_from_slice(tokens);
        proof {
            assert(state.reference_tokens@ =~= old(state).reference_tokens@ + tokens@);
        }
        self.begin_incremental(tokens.len(), kv_len, &mut state.incremental)
    }

    fn run_layer(
        &self,
        q: &PassRequest,
        idx: usize,
        read: DeepseekHiddenRuntimeScratch,
        state: &mut DeepseekIncrementalState,
    ) -> (r: Result<(PassState, PassAction), ModelError>)
        requires
            self.wf(),
            idx < old(state).layers@.len(),
        ensures
            goes_on(r, final(state).layers@, *self, *q, idx, read, old(state).layers@),
            final(state).processed_tokens == old(state).processed_tokens,
            final(state).stream_recycle == old(state).stream_recycle,
    {
        let (write, allocate) = self.begin_layer(idx, q.tokens, state);
        Ok(
            (
                PassState::Layer { idx, read, write },
                PassAction::RunLayer {
                    idx,
                    start_pos: q.start_pos,
                    read: read.hidden,
                    write,
                    allocate,
                },
            ),
        )
    }

    /// Takes an incremental pass further, once its last action is complete.
    pub fn compute_top_level_logits_incremental(
        &self,
        q: &PassRequest,
        pass: PassState,
        state: &mut DeepseekIncrementalState,
    ) -> (r: Result<(PassState, PassAction), ModelError>)
        requires
            self.wf(),
            self.head_hc is Some,
            self.layers@.len() > 0,
            old(state).layers@.len() >= self.layers@.len(),
            match pass {
                PassState::Starting { .. } => true,
                PassState::Layer { idx, read: _, write } => {
                    &&& idx < self.layers@.len()
                    &&& old(state).processed_tokens + q.tokens <= usize::MAX
                    &&& q.emit_logits ==> {
                        &&& write.hidden.seq_len > 0
                        &&& write.hidden.seq_len * write.hidden.hidden_dim <= usize::MAX
                    }
                },
                PassState::Head { .. } => true,
                PassState::Over => false,
            },
        ensures
            pass_follows(r, *final(state), *self, *q, pass, *old(state)),
            match r {
                Ok((next, _)) => next.stage(self.layers@.len()) > pass.stage(self.layers@.len()),
                Err(_) => true,
            },
            final(state).layers@.len() == old(state).layers@.len(),
    {
        let layers: usize = self.layers.len();
        match pass {
            PassState::Starting { stream } => self.run_layer(q, 0, stream, state),
            PassState::Layer { idx, read, write } => {
                self.end_layer(idx, read, state);
                if idx + 1 < layers {
                    return self.run_layer(q, idx + 1, write, state);
                }
                self.end_layers(q.tokens, state);
                if !q.emit_logits {
                    put_hidden_scratch(&mut state.stream_recycle, write);
                    return Ok((PassState::Over, PassAction::Finish));
                }
                match &self.head_hc {
                    Some(head) => match self.plan_head(head, write.hidden) {
                        Ok(plan) => Ok(
                            (PassState::Head { stream: write }, PassAction::RunHead(plan)),
                        ),
                        Err(e) => Err(e),
                    },
                    None => vstd::pervasive::unreached(),
                }
            },
            PassState::Head { stream } => {
                put_hidden_scratch(&mut state.stream_recycle, stream);
                Ok((PassState::Over, PassAction::Finish))
            },
            PassState::Over => vstd::pervasive::unreached(),
        }
    }
}

} // verus!
