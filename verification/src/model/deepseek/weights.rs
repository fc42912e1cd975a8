//! The model: its loaded weights, and what a step over them computes.

use vstd::prelude::*;

use crate::model::deepseek::attention::AttentionConfig;
use crate::model::deepseek::config::{
    AttentionMode, DeepseekRuntimeConfig, DeepseekSpec, ExpertGroup, TpConfig,
};
use crate::model::deepseek::device::{HiddenShape, MatrixShape};
use crate::model::deepseek::hyper::{
    head_hidden_from_stream, initial_hc_stream_from_embeddings_into, DeepseekV4HyperConnection,
    HcError, HeadPlan, LaneArgs,
};
use crate::model::deepseek::hyper::{head_fault, initial_fault, lane_args};
use crate::model::deepseek::layer::{DeepseekLayer, LayerConfig, LayerMode};
use crate::model::deepseek::scratch::{
    put_hidden_scratch, take_hidden_scratch, DeepseekHiddenRuntimeScratch,
};
use crate::model::deepseek::scratch::{hidden_fits, taken_hidden};
use crate::model::deepseek::state::filled_layers;
use crate::model::deepseek::state::{
    DeepseekIncrementalState, DeepseekLayerRuntimeCache, DeepseekState,
};
use crate::model::deepseek::switches::{
    bootstrap_port, dsv4_gpu_contextual_logits_enabled, enabled_unless_off, layer_limit,
    switch_enabled, PortError, SwitchError,
};
use crate::model::deepseek::switches::{
    contextual_state, layer_limit_value, offset_port, set_and_not_off, switch_state,
};

verus! {

/// Why the model cannot serve.
#[derive(Clone, Copy, Debug, PartialEq, Eq, Structural)]
pub enum ModelError {
    /// No layer attends to the window alone.
    NoWindowLayer,
    /// The vocabulary is empty.
    EmptyVocab,
    /// The ranks do not hold the experts that the model has.
    ExpertLayout,
    /// Several ranks, but ranks cannot exchange.
    NoExchange,
    /// The port of the second exchange cannot be chosen.
    Port(PortError),
    /// The embeddings have the wrong shape.
    EmbeddingShape,
    /// The output head has the wrong shape.
    HeadShape,
    /// The final norm has the wrong length.
    NormLength,
    /// There is no token.
    NoTokens,
    /// Layers are asked for both in full and without attention.
    ExclusiveLayers,
    /// More layers are asked for than are loaded.
    LayerLimit,
    /// The ranks are not one per output group.
    OutputGroups,
    /// The rank has no output group.
    OutputGroupRank,
    /// Layers are asked for, but none are loaded.
    LayersNotLoaded,
    /// The caches do not hold the tokens that the scheduler counts.
    CachedLength,
    /// The reference gave logits of the wrong length.
    ReferenceLength,
    /// The context would be longer than the model allows.
    ContextLength,
    /// A token is outside the vocabulary.
    TokenId,
    /// A slot has no state.
    Slot,
    /// Tokens and slots are not paired.
    TokenSlots,
    /// The sampler does not know what is asked of it.
    Sampling,
    Hyper(HcError),
    Switch(SwitchError),
}

/// The model: its configuration and the shapes of its loaded weights.
pub struct DeepseekModel {
    pub config: DeepseekRuntimeConfig,
    pub embed_tokens: Option<MatrixShape>,
    pub lm_head: Option<MatrixShape>,
    /// Length of the final norm.
    pub norm: Option<usize>,
    pub head_hc: Option<DeepseekV4HyperConnection>,
    pub layers: Vec<DeepseekLayer>,
    /// Logits come from the reference model.
    pub has_reference: bool,
}

/// What keeps a configuration from being served, if anything does.
pub open spec fn scope_fault(config: DeepseekRuntimeConfig) -> Option<ModelError> {
    if config.spec.attention_summary.sliding_window_layers == 0 {
        Some(ModelError::NoWindowLayer)
    } else if config.spec.vocab_size == 0 {
        Some(ModelError::EmptyVocab)
    } else if config.ep.num_experts != config.spec.n_routed_experts {
        Some(ModelError::ExpertLayout)
    } else {
        None
    }
}

/// A group of ranks that exchange.
#[derive(Clone, Copy, Debug, PartialEq, Eq, Structural)]
pub struct RankGroup {
    pub rank: usize,
    pub world_size: usize,
}

/// How the ranks of the experts exchange.
#[derive(Clone, Copy, Debug, PartialEq, Eq, Structural)]
pub enum ExpertExchange {
    /// There is one rank.
    Alone,
    /// In the group of tensor parallelism.
    Shared,
    /// In a group of their own.
    Own(RankGroup),
}

/// The groups in which a rank exchanges.
#[derive(Clone, Copy, Debug, PartialEq, Eq, Structural)]
pub struct ExchangePlan {
    pub tensor: Option<RankGroup>,
    pub experts: ExpertExchange,
    /// Port of a second group of the experts, where outputs are combined while
    /// other work goes on.
    pub overlap_port: Option<u16>,
}

/// The groups of a rank, or why there are none.
pub open spec fn exchange_plan(
    tp: TpConfig,
    ep: ExpertGroup,
    can_exchange: bool,
    overlap: Option<&str>,
    port: Option<&str>,
) -> Result<ExchangePlan, ModelError> {
    if !can_exchange && (tp.world_size > 1 || ep.world_size > 1) {
        Err(ModelError::NoExchange)
    } else {
        let tensor = if tp.world_size > 1 {
            Some(RankGroup { rank: tp.rank, world_size: tp.world_size })
        } else {
            None
        };
        let own = RankGroup { rank: ep.rank, world_size: ep.world_size };
        if ep.world_size <= 1 {
            Ok(ExchangePlan { tensor, experts: ExpertExchange::Alone, overlap_port: None })
        } else {
            let experts = if tensor == Some(own) {
                ExpertExchange::Shared
            } else {
                ExpertExchange::Own(own)
            };
            if !set_and_not_off(overlap) {
                Ok(ExchangePlan { tensor, experts, overlap_port: None })
            } else {
                match offset_port(port, 1) {
                    Err(e) => Err(ModelError::Port(e)),
                    Ok(p) => Ok(ExchangePlan { tensor, experts, overlap_port: Some(p) }),
                }
            }
        }
    }
}

/// Plans the groups of a rank. The experts use the group of tensor parallelism
/// where it has the same ranks.
pub fn layer_communicator_from_config(
    config: &DeepseekRuntimeConfig,
    can_exchange: bool,
    overlap: Option<&str>,
    port: Option<&str>,
) -> (r: Result<ExchangePlan, ModelError>)
    ensures
        r == exchange_plan(config.tp, config.ep, can_exchange, overlap, port),
{
    let tp: TpConfig = config.tp;
    let ep: ExpertGroup = config.ep;
    if !can_exchange && (tp.world_size > 1 || ep.world_size > 1) {
        return Err(ModelError::NoExchange);
    }
    let tensor: Option<RankGroup> = if tp.world_size > 1 {
        Some(RankGroup { rank: tp.rank, world_size: tp.world_size })
    } else {
        None
    };
    if ep.world_size <= 1 {
        return Ok(ExchangePlan { tensor, experts: ExpertExchange::Alone, overlap_port: None });
    }
    let own: RankGroup = RankGroup { rank: ep.rank, world_size: ep.world_size };
    let experts: ExpertExchange = if tensor.is_some() && ep.world_size == tp.world_size && ep.rank
        == tp.rank {
        ExpertExchange::Shared
    } else {
        ExpertExchange::Own(own)
    };
    if !enabled_unless_off(overlap) {
        return Ok(ExchangePlan { tensor, experts, overlap_port: None });
    }
    match bootstrap_port(port, 1) {
        Ok(p) => Ok(ExchangePlan { tensor, experts, overlap_port: Some(p) }),
        Err(e) => Err(ModelError::Port(e)),
    }
}

/// How a request's logits are computed.
#[derive(Clone, Copy, Debug, PartialEq, Eq, Structural)]
pub enum LogitsRoute {
    /// From the new tokens, on top of the caches.
    Incremental,
    /// From all tokens of the request.
    AllTokens,
    /// From the last token alone.
    LastToken,
}

/// The route that the switches choose.
pub open spec fn logits_route(
    incremental: Option<&str>,
    contextual: Option<&str>,
    full_layers: Option<&str>,
) -> Result<LogitsRoute, ModelError> {
    match switch_state(incremental) {
        Err(e) => Err(ModelError::Switch(e)),
        Ok(on) => if on {
            Ok(LogitsRoute::Incremental)
        } else {
            match contextual_state(contextual, full_layers) {
                Err(e) => Err(ModelError::Switch(e)),
                Ok(all) => if all {
                    Ok(LogitsRoute::AllTokens)
                } else {
                    Ok(LogitsRoute::LastToken)
                },
            }
        },
    }
}

/// Chooses how a request's logits are computed.
pub fn choose_logits_route(
    incremental: Option<&str>,
    contextual: Option<&str>,
    full_layers: Option<&str>,
) -> (r: Result<LogitsRoute, ModelError>)
    ensures
        r == logits_route(incremental, contextual, full_layers),
{
    match switch_enabled(incremental) {
        Err(e) => Err(ModelError::Switch(e)),
        Ok(on) => {
            if on {
                return Ok(LogitsRoute::Incremental);
            }
            match dsv4_gpu_contextual_logits_enabled(contextual, full_layers) {
                Err(e) => Err(ModelError::Switch(e)),
                Ok(all) => {
                    if all {
                        Ok(LogitsRoute::AllTokens)
                    } else {
                        Ok(LogitsRoute::LastToken)
                    }
                },
            }
        },
    }
}

/// How logits begin.
#[derive(Clone, Copy, Debug, PartialEq, Eq, Structural)]
pub enum LogitsStart {
    /// The weights are not loaded.
    Unloaded,
    /// The embeddings go to the head as they are.
    Embeddings(HiddenShape),
    /// The stream goes through `full_layers` whole layers, then through
    /// `ffn_layers` layers without attention.
    Stream {
        embeddings: HiddenShape,
        stream: HiddenShape,
        lanes: LaneArgs,
        full_layers: usize,
        ffn_layers: usize,
    },
}

/// The larger of two numbers.
pub open spec fn more(a: usize, b: usize) -> usize {
    if a >= b {
        a
    } else {
        b
    }
}

/// How logits begin, or why they cannot.
pub open spec fn logits_start(
    model: DeepseekModel,
    tokens: usize,
    ffn_layers: usize,
    full_layers: usize,
) -> Result<LogitsStart, ModelError> {
    let spec = model.config.spec;
    let tp = model.config.tp;
    let embeddings = HiddenShape { hidden_dim: spec.hidden_size, seq_len: tokens };
    let stream = HiddenShape {
        hidden_dim: (spec.hidden_size * spec.hc_mult) as usize,
        seq_len: tokens,
    };
    if tokens == 0 {
        Err(ModelError::NoTokens)
    } else if ffn_layers != 0 && full_layers != 0 {
        Err(ModelError::ExclusiveLayers)
    } else if model.embed_tokens is None || model.norm is None || model.lm_head is None {
        Ok(LogitsStart::Unloaded)
    } else if model.head_hc is None {
        if ffn_layers != 0 || full_layers != 0 {
            Err(ModelError::LayersNotLoaded)
        } else {
            Ok(LogitsStart::Embeddings(embeddings))
        }
    } else if more(ffn_layers, full_layers) > model.layers@.len() {
        Err(ModelError::LayerLimit)
    } else if full_layers != 0 && tp.world_size != spec.o_groups {
        Err(ModelError::OutputGroups)
    } else if full_layers != 0 && tp.rank >= spec.o_groups {
        Err(ModelError::OutputGroupRank)
    } else {
        match initial_fault(embeddings, spec.hidden_size, spec.hc_mult, stream) {
            Some(e) => Err(ModelError::Hyper(e)),
            None => Ok(
                LogitsStart::Stream {
                    embeddings,
                    stream,
                    lanes: lane_args(tokens, spec.hidden_size, spec.hc_mult),
                    full_layers,
                    ffn_layers,
                },
            ),
        }
    }
}

/// How an incremental step begins.
#[derive(Clone, Copy, Debug, PartialEq, Eq, Structural)]
pub enum IncrementalStart {
    /// The weights are not loaded.
    Unloaded,
    Stream {
        start_pos: usize,
        embeddings: HiddenShape,
        /// The stream's buffer, which may have to be allocated.
        stream: DeepseekHiddenRuntimeScratch,
        allocate: bool,
        lanes: LaneArgs,
    },
}

/// How an incremental step of `tokens` tokens begins, given that the scheduler
/// counts `kv_len` tokens.
pub open spec fn incremental_start(
    model: DeepseekModel,
    tokens: usize,
    kv_len: usize,
    state: DeepseekIncrementalState,
) -> Result<IncrementalStart, ModelError> {
    let spec = model.config.spec;
    let dim = (spec.hidden_size * spec.hc_mult) as usize;
    let embeddings = HiddenShape { hidden_dim: spec.hidden_size, seq_len: tokens };
    let stream = taken_hidden(state.stream_recycle, dim, tokens);
    if tokens == 0 {
        Err(ModelError::NoTokens)
    } else if !model.incremental_ready() {
        Ok(IncrementalStart::Unloaded)
    } else if model.layers@.len() == 0 {
        Err(ModelError::LayersNotLoaded)
    } else if state.processed_tokens != kv_len {
        Err(ModelError::CachedLength)
    } else {
        match initial_fault(embeddings, spec.hidden_size, spec.hc_mult, stream.hidden) {
            Some(e) => Err(ModelError::Hyper(e)),
            None => Ok(
                IncrementalStart::Stream {
                    start_pos: kv_len,
                    embeddings,
                    stream,
                    allocate: !(state.stream_recycle matches Some(old) && hidden_fits(
                        old,
                        dim,
                        tokens,
                    )),
                    lanes: lane_args(tokens, spec.hidden_size, spec.hc_mult),
                },
            ),
        }
    }
}

/// What planning the head of a stream gives: the last token's states.
pub open spec fn is_head_plan(
    r: Result<HeadPlan, ModelError>,
    model: DeepseekModel,
    head_hc: DeepseekV4HyperConnection,
    stream: HiddenShape,
) -> bool {
    let spec = model.config.spec;
    let last = (stream.seq_len - 1) as usize;
    match head_fault(head_hc, stream, last, spec.hidden_size, spec.hc_mult) {
        Some(e) => r == Err::<HeadPlan, ModelError>(ModelError::Hyper(e)),
        None => {
            &&& r matches Ok(p)
            &&& p.row_start == last * stream.hidden_dim
            &&& p.row_end == last * stream.hidden_dim + stream.hidden_dim
            &&& p.mixes == (HiddenShape { hidden_dim: head_hc.mix_fn.rows, seq_len: 1 })
            &&& p.out == (HiddenShape { hidden_dim: spec.hidden_size, seq_len: 1 })
            &&& p.stream_dim == stream.hidden_dim as i32
            &&& p.hidden_size == spec.hidden_size as i32
            &&& p.hc_mult == spec.hc_mult as i32
        },
    }
}

/// What layers read of a configuration.
pub open spec fn config_of_layers(config: DeepseekRuntimeConfig) -> LayerConfig {
    let spec = config.spec;
    LayerConfig {
        hidden_size: spec.hidden_size,
        hc_mult: spec.hc_mult,
        sinkhorn_iters: spec.hc_sinkhorn_iters,
        attention: AttentionConfig {
            hidden_size: spec.hidden_size,
            head_dim: spec.head_dim,
            sliding_window: spec.sliding_window,
            rope_dim: spec.qk_rope_head_dim,
            tp_rank: config.tp.rank,
            max_positions: spec.max_position_embeddings,
            original_positions: spec.original_max_position_embeddings,
            index_head_dim: spec.index_head_dim,
            index_topk: spec.index_topk,
        },
    }
}

/// How a layer attends.
pub open spec fn mode_of_layer(spec: DeepseekSpec, layer_idx: usize) -> LayerMode {
    LayerMode {
        ratio: if layer_idx < spec.compress_ratios@.len() {
            Some(spec.compress_ratios@[layer_idx as int])
        } else {
            None
        },
        mode: if layer_idx < spec.attention_modes@.len() {
            spec.attention_modes@[layer_idx as int]
        } else {
            AttentionMode::SlidingWindow
        },
    }
}

/// What keeps the weights around the layers from being taken, if anything does.
pub open spec fn top_level_fault(
    spec: DeepseekSpec,
    embed_tokens: MatrixShape,
    lm_head: MatrixShape,
    norm: usize,
) -> Option<ModelError> {
    if embed_tokens.rows != spec.vocab_size || embed_tokens.cols != spec.hidden_size {
        Some(ModelError::EmbeddingShape)
    } else if lm_head.rows != spec.vocab_size || lm_head.cols != spec.hidden_size {
        Some(ModelError::HeadShape)
    } else if norm != spec.hidden_size {
        Some(ModelError::NormLength)
    } else {
        None
    }
}

/// The stream was taken out of its slot, and every layer has a cache.
pub open spec fn begun_step(
    before: DeepseekIncrementalState,
    after: DeepseekIncrementalState,
    layers: nat,
) -> bool {
    &&& after.processed_tokens == before.processed_tokens
    &&& after.layers@ == filled_layers(before.layers@, layers)
    &&& after.stream_recycle is None
}

/// Nothing changed.
pub open spec fn same_step(
    before: DeepseekIncrementalState,
    after: DeepseekIncrementalState,
) -> bool {
    &&& after.processed_tokens == before.processed_tokens
    &&& after.layers@ == before.layers@
    &&& after.stream_recycle == before.stream_recycle
}

impl DeepseekModel {
    /// The widths that every step needs can be counted.
    pub open spec fn wf(self) -> bool {
        self.config.spec.hidden_size * self.config.spec.hc_mult <= usize::MAX
    }

    /// The weights of an incremental step are loaded.
    pub open spec fn incremental_ready(self) -> bool {
        &&& self.embed_tokens is Some
        &&& self.head_hc is Some
        &&& self.norm is Some
        &&& self.lm_head is Some
    }

    /// The runtime configuration.
    pub fn config(&self) -> (config: &DeepseekRuntimeConfig)
        ensures
            *config == self.config,
    {
        &self.config
    }

    /// The architecture.
    pub fn spec(&self) -> (spec: &DeepseekSpec)
        ensures
            *spec == self.config.spec,
    {
        &self.config.spec
    }

    /// Every layer has routed experts.
    pub fn is_dense_layer(&self, idx: usize) -> (dense: bool)
        ensures
            !dense,
    {
        false
    }

    /// Checks that the configuration can be served.
    pub fn validate_phase0_sw_decode_scope(&self) -> (r: Result<(), ModelError>)
        ensures
            r == match scope_fault(self.config) {
                Some(e) => Err::<(), ModelError>(e),
                None => Ok(()),
            },
    {
        let config = &self.config;
        if config.spec.attention_summary.sliding_window_layers == 0 {
            return Err(ModelError::NoWindowLayer);
        }
        if config.spec.vocab_size == 0 {
            return Err(ModelError::EmptyVocab);
        }
        if config.ep.num_experts != config.spec.n_routed_experts {
            return Err(ModelError::ExpertLayout);
        }
        Ok(())
    }

    /// A model without weights.
    pub fn from_config(config: DeepseekRuntimeConfig) -> (r: Result<DeepseekModel, ModelError>)
        ensures
            match scope_fault(config) {
                Some(e) => r == Err::<DeepseekModel, ModelError>(e),
                None => {
                    &&& r matches Ok(model)
                    &&& model.config == config
                    &&& model.embed_tokens is None
                    &&& model.lm_head is None
                    &&& model.norm is None
                    &&& model.head_hc is None
                    &&& model.layers@.len() == 0
                    &&& !model.has_reference
                },
            },
    {
        let model: DeepseekModel = DeepseekModel {
            config,
            embed_tokens: None,
            lm_head: None,
            norm: None,
            head_hc: None,
            layers: Vec::new(),
            has_reference: false,
        };
        match model.validate_phase0_sw_decode_scope() {
            Ok(_) => Ok(model),
            Err(e) => Err(e),
        }
    }

    /// Takes the embeddings, the output head and the final norm of a
    /// checkpoint. On an error nothing changes.
    pub fn attach_top_level(
        &mut self,
        embed_tokens: MatrixShape,
        lm_head: MatrixShape,
        norm: usize,
    ) -> (r: Result<(), ModelError>)
        ensures
            match top_level_fault(old(self).config.spec, embed_tokens, lm_head, norm) {
                Some(e) => r == Err::<(), ModelError>(e) && *final(self) == *old(self),
                None => r == Ok::<(), ModelError>(()) && *final(self) == (DeepseekModel {
                    embed_tokens: Some(embed_tokens),
                    lm_head: Some(lm_head),
                    norm: Some(norm),
                    ..*old(self)
                }),
            },
    {
        let vocab_size: usize = self.config.spec.vocab_size;
        let hidden_size: usize = self.config.spec.hidden_size;
        if embed_tokens.rows != vocab_size || embed_tokens.cols != hidden_size {
            return Err(ModelError::EmbeddingShape);
        }
        if lm_head.rows != vocab_size || lm_head.cols != hidden_size {
            return Err(ModelError::HeadShape);
        }
        if norm != hidden_size {
            return Err(ModelError::NormLength);
        }
        self.embed_tokens = Some(embed_tokens);
        self.lm_head = Some(lm_head);
        self.norm = Some(norm);
        Ok(())
    }

    /// The layers have yet to be loaded.
    pub fn needs_layer_weights(&self) -> (needed: bool)
        ensures
            needed == (self.layers@.len() == 0),
    {
        self.layers.len() == 0
    }

    /// Takes the layers of a checkpoint; layers that are loaded stay.
    pub fn attach_layers(&mut self, head_hc: DeepseekV4HyperConnection, layers: Vec<DeepseekLayer>)
        ensures
            *final(self) == (if old(self).layers@.len() > 0 {
                *old(self)
            } else {
                DeepseekModel { head_hc: Some(head_hc), layers, ..*old(self) }
            }),
    {
        if self.layers.len() > 0 {
            return ;
        }
        self.head_hc = Some(head_hc);
        self.layers = layers;
    }

    /// Number of loaded layers.
    pub fn loaded_layer_count(&self) -> (count: usize)
        ensures
            count == self.layers@.len(),
    {
        self.layers.len()
    }

    /// What layers read of the configuration.
    pub fn layer_config(&self) -> (c: LayerConfig)
        ensures
            c == config_of_layers(self.config),
    {
        let spec = &self.config.spec;
        LayerConfig {
            hidden_size: spec.hidden_size,
            hc_mult: spec.hc_mult,
            sinkhorn_iters: spec.hc_sinkhorn_iters,
            attention: AttentionConfig {
                hidden_size: spec.hidden_size,
                head_dim: spec.head_dim,
                sliding_window: spec.sliding_window,
                rope_dim: spec.qk_rope_head_dim,
                tp_rank: self.config.tp.rank,
                max_positions: spec.max_position_embeddings,
                original_positions: spec.original_max_position_embeddings,
                index_head_dim: spec.index_head_dim,
                index_topk: spec.index_topk,
            },
        }
    }

    /// How a layer attends.
    pub fn layer_mode(&self, layer_idx: usize) -> (mode: LayerMode)
        ensures
            mode == mode_of_layer(self.config.spec, layer_idx),
    {
        let spec = &self.config.spec;
        let ratio: Option<usize> = if layer_idx < spec.compress_ratios.len() {
            Some(spec.compress_ratios[layer_idx])
        } else {
            None
        };
        let mode: AttentionMode = if layer_idx < spec.attention_modes.len() {
            spec.attention_modes[layer_idx]
        } else {
            AttentionMode::SlidingWindow
        };
        LayerMode { ratio, mode }
    }

    /// Plans the beginning of the logits of `tokens` tokens.
    pub fn compute_top_level_logits_with_layer_limits(
        &self,
        tokens: usize,
        ffn_layers: usize,
        full_layers: usize,
    ) -> (r: Result<LogitsStart, ModelError>)
        requires
            self.wf(),
        ensures
            r == logits_start(*self, tokens, ffn_layers, full_layers),
    {
        if tokens == 0 {
            return Err(ModelError::NoTokens);
        }
        if ffn_layers != 0 && full_layers != 0 {
            return Err(ModelError::ExclusiveLayers);
        }
        if self.embed_tokens.is_none() || self.norm.is_none() || self.lm_head.is_none() {
            return Ok(LogitsStart::Unloaded);
        }
        let hidden_size: usize = self.config.spec.hidden_size;
        let hc_mult: usize = self.config.spec.hc_mult;
        let embeddings: HiddenShape = HiddenShape { hidden_dim: hidden_size, seq_len: tokens };
        if self.head_hc.is_none() {
            if ffn_layers != 0 || full_layers != 0 {
                return Err(ModelError::LayersNotLoaded);
            }
            return Ok(LogitsStart::Embeddings(embeddings));
        }
        let wanted: usize = if ffn_layers >= full_layers {
            ffn_layers
        } else {
            full_layers
        };
        if wanted > self.layers.len() {
            return Err(ModelError::LayerLimit);
        }
        if full_layers != 0 && self.config.tp.world_size != self.config.spec.o_groups {
            return Err(ModelError::OutputGroups);
        }
        if full_layers != 0 && self.config.tp.rank >= self.config.spec.o_groups {
            return Err(ModelError::OutputGroupRank);
        }
        let stream: HiddenShape = HiddenShape {
            hidden_dim: hidden_size * hc_mult,
            seq_len: tokens,
        };
        match initial_hc_stream_from_embeddings_into(embeddings, hidden_size, hc_mult, stream) {
            Ok(lanes) => Ok(
                LogitsStart::Stream { embeddings, stream, lanes, full_layers, ffn_layers },
            ),
            Err(e) => Err(ModelError::Hyper(e)),
        }
    }

    /// Plans the beginning of the logits of `tokens` tokens, with the layers
    /// that the switches ask for.
    pub fn compute_top_level_logits(
        &self,
        tokens: usize,
        ffn_layers: Option<&str>,
        full_layers: Option<&str>,
    ) -> (r: Result<LogitsStart, ModelError>)
        requires
            self.wf(),
        ensures
            r == match layer_limit_value(ffn_layers) {
                Err(e) => Err::<LogitsStart, ModelError>(ModelError::Switch(e)),
                Ok(ffn) => match layer_limit_value(full_layers) {
                    Err(e) => Err(ModelError::Switch(e)),
                    Ok(full) => logits_start(*self, tokens, ffn, full),
                },
            },
    {
        let ffn: usize = match layer_limit(ffn_layers) {
            Ok(n) => n,
            Err(e) => {
                return Err(ModelError::Switch(e));
            },
        };
        let full: usize = match layer_limit(full_layers) {
            Ok(n) => n,
            Err(e) => {
                return Err(ModelError::Switch(e));
            },
        };
        self.compute_top_level_logits_with_layer_limits(tokens, ffn, full)
    }

    /// Plans what the head reads of a stream: the last token's states.
    pub fn plan_head(&self, head_hc: &DeepseekV4HyperConnection, stream: HiddenShape) -> (r: Result<
        HeadPlan,
        ModelError,
    >)
        requires
            self.wf(),
            stream.seq_len > 0,
            stream.seq_len * stream.hidden_dim <= usize::MAX,
        ensures
            is_head_plan(r, *self, *head_hc, stream),
    {
        let last: usize = stream.seq_len - 1;
        proof {
            let t = last as int;
            let d = stream.hidden_dim as int;
            let n = stream.seq_len as int;
            assert(0 <= t * d && t * d + d <= n * d) by (nonlinear_arith)
                requires
                    0 <= t < n,
                    0 <= d,
            ;
        }
        match head_hidden_from_stream(
            head_hc,
            stream,
            last,
            self.config.spec.hidden_size,
            self.config.spec.hc_mult,
        ) {
            Ok(plan) => Ok(plan),
            Err(e) => Err(ModelError::Hyper(e)),
        }
    }

    /// Plans the beginning of an incremental step; `kv_len` is the scheduler's
    /// count of cached tokens.
    pub fn begin_incremental(
        &self,
        tokens: usize,
        kv_len: usize,
        state: &mut DeepseekIncrementalState,
    ) -> (r: Result<IncrementalStart, ModelError>)
        requires
            self.wf(),
        ensures
            r == incremental_start(*self, tokens, kv_len, *old(state)),
            match r {
                Ok(IncrementalStart::Unloaded) => same_step(*old(state), *final(state)),
                Ok(_) => begun_step(*old(state), *final(state), self.layers@.len()),
                Err(ModelError::Hyper(_)) => begun_step(
                    *old(state),
                    *final(state),
                    self.layers@.len(),
                ),
                Err(_) => same_step(*old(state), *final(state)),
            },
    {
        if tokens == 0 {
            return Err(ModelError::NoTokens);
        }
        if self.embed_tokens.is_none() || self.head_hc.is_none() || self.norm.is_none()
            || self.lm_head.is_none() {
            return Ok(IncrementalStart::Unloaded);
        }
        if self.layers.len() == 0 {
            return Err(ModelError::LayersNotLoaded);
        }
        let start_pos: usize = state.processed_tokens;
        if start_pos != kv_len {
            return Err(ModelError::CachedLength);
        }
        state.ensure_layers(self.layers.len());
        let hidden_size: usize = self.config.spec.hidden_size;
        let hc_mult: usize = self.config.spec.hc_mult;
        let embeddings: HiddenShape = HiddenShape { hidden_dim: hidden_size, seq_len: tokens };
        let (stream, allocate) = take_hidden_scratch(
            &mut state.stream_recycle,
            hidden_size * hc_mult,
            tokens,
        );
        match initial_hc_stream_from_embeddings_into(
            embeddings,
            hidden_size,
            hc_mult,
            stream.hidden,
        ) {
            Ok(lanes) => Ok(
                IncrementalStart::Stream { start_pos, embeddings, stream, allocate, lanes },
            ),
            Err(e) => Err(ModelError::Hyper(e)),
        }
    }

    /// Takes the buffer that a layer writes its stream to.
    pub(crate) fn begin_layer(
        &self,
        layer_idx: usize,
        tokens: usize,
        state: &mut DeepseekIncrementalState,
    ) -> (r: (DeepseekHiddenRuntimeScratch, bool))
        requires
            self.wf(),
            layer_idx < old(state).layers@.len(),
        ensures
            ({
                let spec = self.config.spec;
                let dim = (spec.hidden_size * spec.hc_mult) as usize;
                let before = old(state).layers@[layer_idx as int];
                &&& r.0 == taken_hidden(before.stream_recycle, dim, tokens)
                &&& r.1 == !(before.stream_recycle matches Some(s) && hidden_fits(s, dim, tokens))
                &&& final(state).layers@ == old(state).layers@.update(
                    layer_idx as int,
                    DeepseekLayerRuntimeCache { stream_recycle: None, ..before },
                )
                &&& final(state).processed_tokens == old(state).processed_tokens
                &&& final(state).stream_recycle == old(state).stream_recycle
            }),
    {
        let mut layer: DeepseekLayerRuntimeCache = state.layers[layer_idx];
        let r = take_hidden_scratch(
            &mut layer.stream_recycle,
            self.config.spec.hidden_size * self.config.spec.hc_mult,
            tokens,
        );
        state.layers.set(layer_idx, layer);
        r
    }

    /// Gives a layer the buffer of the stream that it has read, for the next
    /// step.
    pub(crate) fn end_layer(
        &self,
        layer_idx: usize,
        read: DeepseekHiddenRuntimeScratch,
        state: &mut DeepseekIncrementalState,
    )
        requires
            layer_idx < old(state).layers@.len(),
        ensures
            final(state).layers@ == old(state).layers@.update(
                layer_idx as int,
                DeepseekLayerRuntimeCache {
                    stream_recycle: Some(read),
                    ..old(state).layers@[layer_idx as int]
                },
            ),
            final(state).processed_tokens == old(state).processed_tokens,
            final(state).stream_recycle == old(state).stream_recycle,
    {
        let mut layer: DeepseekLayerRuntimeCache = state.layers[layer_idx];
        put_hidden_scratch(&mut layer.stream_recycle, read);
        state.layers.set(layer_idx, layer);
    }

    /// Ends the layers of an incremental step: its tokens are processed.
    pub(crate) fn end_layers(&self, tokens: usize, state: &mut DeepseekIncrementalState)
        requires
            old(state).processed_tokens + tokens <= usize::MAX,
        ensures
            final(state).processed_tokens == old(state).processed_tokens + tokens,
            final(state).layers@ == old(state).layers@,
            final(state).stream_recycle == old(state).stream_recycle,
    {
        state.processed_tokens = state.processed_tokens + tokens;
    }

    /// Records the prefilled tokens for the reference model; without one there
    /// is nothing to record.
    pub fn compute_reference_logits_after_prefill(
        &self,
        tokens: &[u32],
        state: &mut DeepseekState,
    ) -> (used: bool)
        ensures
            used == self.has_reference,
            final(state).reference_tokens@ == (if used {
                old(state).reference_tokens@ + tokens@
            } else {
                old(state).reference_tokens@
            }),
            final(state).base == old(state).base,
            final(state).incremental == old(state).incremental,
    {
        if !self.has_reference {
            return false;
        }
        state.reference_tokens.extend_from_slice(tokens);
        proof {
            assert(state.reference_tokens@ =~= old(state).reference_tokens@ + tokens@);
        }
        true
    }

    /// Records a decoded token for the reference model.
    pub fn compute_reference_logits_after_decode(
        &self,
        token: u32,
        state: &mut DeepseekState,
    ) -> (used: bool)
        ensures
            used == self.has_reference,
            final(state).reference_tokens@ == (if used {
                old(state).reference_tokens@.push(token)
            } else {
                old(state).reference_tokens@
            }),
            final(state).base == old(state).base,
            final(state).incremental == old(state).incremental,
    {
        if !self.has_reference {
            return false;
        }
        state.reference_tokens.push(token);
        true
    }

    /// Records prefilled tokens and chooses how their logits are computed.
    pub fn compute_gpu_logits_after_prefill(
        &self,
        tokens: &[u32],
        state: &mut DeepseekState,
        incremental: Option<&str>,
        contextual: Option<&str>,
        full_layers: Option<&str>,
    ) -> (r: Result<LogitsRoute, ModelError>)
        ensures
            r == logits_route(incremental, contextual, full_layers),
            final(state).reference_tokens@ == old(state).reference_tokens@ + tokens@,
            final(state).base == old(state).base,
            final(state).incremental == old(state).incremental,
    {
        state.reference_tokens.extend_from_slice(tokens);
        proof {
            assert(state.reference_tokens@ =~= old(state).reference_tokens@ + tokens@);
        }
        choose_logits_route(incremental, contextual, full_layers)
    }

    /// Records a decoded token and chooses how its logits are computed.
    pub fn compute_gpu_logits_after_decode(
        &self,
        token: u32,
        state: &mut DeepseekState,
        incremental: Option<&str>,
        contextual: Option<&str>,
        full_layers: Option<&str>,
    ) -> (r: Result<LogitsRoute, ModelError>)
        ensures
            r == logits_route(incremental, contextual, full_layers),
            final(state).reference_tokens@ == old(state).reference_tokens@.push(token),
            final(state).base == old(state).base,
            final(state).incremental == old(state).incremental,
    {
        state.reference_tokens.push(token);
        choose_logits_route(incremental, contextual, full_layers)
    }

    /// Checks the length of the reference model's logits.
    pub fn check_reference_logits(&self, len: usize) -> (r: Result<(), ModelError>)
        ensures
            r == (if len != self.config.spec.vocab_size {
                Err::<(), ModelError>(ModelError::ReferenceLength)
            } else {
                Ok(())
            }),
    {
        if len != self.config.spec.vocab_size {
            return Err(ModelError::ReferenceLength);
        }
        Ok(())
    }
}

} // verus!
