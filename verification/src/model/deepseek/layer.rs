//! A transformer layer: attention, then experts, each reading from and writing
//! to the stream of lanes.
//!
//! Between the first and the second part of a layer the experts run, in the
//! stages of the modules `routed` and `dispatch`.

use vstd::prelude::*;

use crate::model::deepseek::attention::{
    AttentionConfig, AttentionError, DeepseekV4Attention, StatesUse,
};
use crate::model::deepseek::config::{AttentionMode, ExpertGroup};
use crate::model::deepseek::device::HiddenShape;
use crate::model::deepseek::dispatch::rank_routes;
use crate::model::deepseek::dispatch::RankRoutes;
use crate::model::deepseek::hyper::{
    gen_mhc_params, gen_mhc_params_cached, hc_post_to_stream_into, hc_pre_from_stream_into,
    DeepseekV4HyperConnection, HcError, LaneArgs, MhcCached, MhcParams,
};
use crate::model::deepseek::hyper::{
    lane_args, mhc_cached, mhc_params, mix_dim, mixes_in_use, post_fault, pre_fault,
};
use crate::model::deepseek::mla::{
    block_countable, block_forward, block_step, cached_block_forward, caches_countable,
};
use crate::model::deepseek::mla::{
    forward_sliding_window_attention, forward_sliding_window_attention_incremental, AttentionRun,
};
use crate::model::deepseek::mlp::{expert_run, shapes_agree};
use crate::model::deepseek::mlp::{DeepseekV4MoeBlock, ExpertRun, MoeError, RouterConfig};
use crate::model::deepseek::routed::local_routes;
use crate::model::deepseek::routed::LocalRoutes;
use crate::model::deepseek::scratch::{
    at_least_one, ensured_hidden, ensured_mhc, hidden_fits, mhc_fits,
};
use crate::model::deepseek::scratch::{
    ensure_hidden_scratch, ensure_mhc_scratch, DeepseekHiddenRuntimeScratch,
    DeepseekMhcRuntimeScratch,
};
use crate::model::deepseek::state::DeepseekLayerRuntimeCache;
use crate::model::deepseek::switches::deepep_state;
use crate::model::deepseek::switches::{dsv4_moe_deepep_enabled, SwitchError};

verus! {

/// Why a layer cannot run.
#[derive(Clone, Copy, Debug, PartialEq, Eq, Structural)]
pub enum LayerError {
    /// There is not one token per row of the stream.
    TokenCount,
    /// The stream has the wrong width.
    StreamDim,
    /// The stream after the layer has the wrong shape.
    OutputShape,
    /// The layer is not loaded.
    MissingLayer,
    /// Dispatch is asked for, but ranks cannot exchange.
    NoDispatch,
    Hyper(HcError),
    Attention(AttentionError),
    Moe(MoeError),
    Switch(SwitchError),
}

/// Weights of a layer; vectors are given by their length.
pub struct DeepseekLayer {
    pub attn_norm: usize,
    pub hc_attn: DeepseekV4HyperConnection,
    pub attention: DeepseekV4Attention,
    pub ffn_norm: usize,
    pub hc_ffn: DeepseekV4HyperConnection,
    pub ffn: DeepseekV4MoeBlock,
}

/// What a layer reads of the configuration.
#[derive(Clone, Copy, Debug, PartialEq, Eq, Structural)]
pub struct LayerConfig {
    pub hidden_size: usize,
    pub hc_mult: usize,
    pub sinkhorn_iters: usize,
    pub attention: AttentionConfig,
}

impl LayerConfig {
    /// Width of the stream.
    pub open spec fn stream_dim(self) -> nat {
        (self.hidden_size * self.hc_mult) as nat
    }

    /// The widths that every step needs can be counted.
    pub open spec fn wf(self) -> bool {
        &&& self.stream_dim() <= usize::MAX
        &&& mix_dim(self.hc_mult) <= usize::MAX
        &&& self.hc_mult <= usize::MAX - 2
    }

    /// The weights of `seq_len` rows can be counted.
    pub open spec fn rows_countable(self, seq_len: usize) -> bool {
        at_least_one(seq_len) * self.hc_mult * self.hc_mult <= usize::MAX
    }
}

/// The weights of the rows that a step has can be counted.
pub proof fn lemma_rows(c: LayerConfig, seq_len: usize)
    requires
        c.rows_countable(seq_len),
    ensures
        seq_len * c.hc_mult * c.hc_mult <= usize::MAX,
        seq_len * c.hc_mult <= usize::MAX,
        at_least_one(seq_len) * c.hc_mult <= usize::MAX,
{
    let n = at_least_one(seq_len) as int;
    let s = seq_len as int;
    let h = c.hc_mult as int;
    assert(s * h * h <= n * h * h && s * h <= n * h && (h == 0 || n * h <= n * h * h))
        by (nonlinear_arith)
        requires
            0 <= s <= n,
            0 <= h,
    ;
    assert(h == 0 ==> n * h == 0) by (nonlinear_arith);
}

/// How tokens reach their experts: the layer's first stage.
#[derive(Clone, Copy, Debug, PartialEq, Eq, Structural)]
pub enum MoeStart {
    /// Over all ranks, by dispatch.
    Dispatch(RankRoutes),
    /// On this rank; the outputs of all ranks are summed up.
    Local(LocalRoutes),
}

/// Where the parameters of a hyper-connection are.
#[derive(Clone, Copy, Debug, PartialEq, Eq, Structural)]
pub enum MhcUse {
    Fresh(MhcParams),
    /// In kept buffers, which may have to be allocated first.
    Kept { params: MhcCached, allocate: bool },
}

/// The part of a layer before its experts.
#[derive(Clone, Copy, Debug, PartialEq, Eq, Structural)]
pub struct FfnInput {
    pub mhc: MhcUse,
    pub read: LaneArgs,
    pub input: StatesUse,
    pub normed: StatesUse,
    pub start: MoeStart,
}

/// The part of a layer after its experts: the shared expert is added, and the
/// sum is written to the stream.
#[derive(Clone, Copy, Debug, PartialEq, Eq, Structural)]
pub struct FfnOutput {
    pub shared: Option<ExpertRun>,
    /// The shared expert runs in kept buffers.
    pub keep_shared: bool,
    pub write: LaneArgs,
}

/// What decides how tokens reach their experts.
#[derive(Clone, Copy, Debug)]
pub struct MoeContext<'a> {
    pub router: RouterConfig<'a>,
    pub ep: ExpertGroup,
    /// The text that chooses the backend.
    pub backend: Option<&'a str>,
    /// Ranks can exchange.
    pub can_dispatch: bool,
}

/// How the tokens of a layer reach their experts, or why they do not.
pub open spec fn moe_start(
    block: DeepseekV4MoeBlock,
    m: MoeContext<'_>,
    hidden: HiddenShape,
    tokens: usize,
) -> Result<MoeStart, LayerError> {
    match deepep_state(m.backend) {
        Err(e) => Err(LayerError::Switch(e)),
        Ok(on) => if on && m.ep.world_size > 1 {
            if !m.can_dispatch {
                Err(LayerError::NoDispatch)
            } else {
                match rank_routes(block, m.router, m.ep, hidden, tokens) {
                    Err(e) => Err(LayerError::Moe(e)),
                    Ok(routes) => Ok(MoeStart::Dispatch(routes)),
                }
            }
        } else {
            match local_routes(block, m.router, m.ep, hidden, tokens) {
                Err(e) => Err(LayerError::Moe(e)),
                Ok(routes) => Ok(MoeStart::Local(routes)),
            }
        },
    }
}

fn plan_moe_start(
    block: &DeepseekV4MoeBlock,
    m: &MoeContext<'_>,
    hidden: HiddenShape,
    tokens: usize,
) -> (r: Result<MoeStart, LayerError>)
    requires
        shapes_agree(*block, m.router, m.ep, hidden, tokens) ==> hidden.seq_len
            * m.router.num_experts_per_tok <= usize::MAX,
    ensures
        r == moe_start(*block, *m, hidden, tokens),
{
    let on: bool = match dsv4_moe_deepep_enabled(m.backend) {
        Ok(on) => on,
        Err(e) => {
            return Err(LayerError::Switch(e));
        },
    };
    if on && m.ep.world_size > 1 {
        if !m.can_dispatch {
            return Err(LayerError::NoDispatch);
        }
        match block.plan_rank_routes(&m.router, &m.ep, hidden, tokens) {
            Ok(routes) => Ok(MoeStart::Dispatch(routes)),
            Err(e) => Err(LayerError::Moe(e)),
        }
    } else {
        match block.plan_local_routes(&m.router, &m.ep, hidden, tokens) {
            Ok(routes) => Ok(MoeStart::Local(routes)),
            Err(e) => Err(LayerError::Moe(e)),
        }
    }
}

/// New states of the layer's width.
pub open spec fn layer_states(c: LayerConfig, seq_len: usize) -> HiddenShape {
    HiddenShape { hidden_dim: c.hidden_size, seq_len }
}

/// A stream that does not fit a layer.
pub open spec fn stream_fault(c: LayerConfig, stream: HiddenShape, tokens: usize) -> Option<
    LayerError,
> {
    if tokens != stream.seq_len {
        Some(LayerError::TokenCount)
    } else if stream.hidden_dim != c.stream_dim() {
        Some(LayerError::StreamDim)
    } else {
        None
    }
}

/// The part before the experts, in new buffers.
pub open spec fn fresh_ffn_input(
    c: LayerConfig,
    layer: DeepseekLayer,
    m: MoeContext<'_>,
    stream: HiddenShape,
    tokens: usize,
) -> Result<FfnInput, LayerError> {
    match stream_fault(c, stream, tokens) {
        Some(e) => Err(e),
        None => match mhc_params(layer.hc_ffn, stream, c.hc_mult, c.sinkhorn_iters) {
            Err(e) => Err(LayerError::Hyper(e)),
            Ok(params) => {
                let states = layer_states(c, stream.seq_len);
                match pre_fault(stream, params.pre, c.hidden_size, c.hc_mult, states) {
                    Some(e) => Err(LayerError::Hyper(e)),
                    None => match moe_start(layer.ffn, m, states, tokens) {
                        Err(e) => Err(e),
                        Ok(start) => Ok(
                            FfnInput {
                                mhc: MhcUse::Fresh(params),
                                read: lane_args(stream.seq_len, c.hidden_size, c.hc_mult),
                                input: StatesUse::Fresh(states),
                                normed: StatesUse::Fresh(states),
                                start,
                            },
                        ),
                    },
                }
            },
        },
    }
}

/// The routes of a layer can be counted.
pub open spec fn routes_countable(m: MoeContext<'_>, seq_len: usize) -> bool {
    seq_len * m.router.num_experts_per_tok <= usize::MAX
}

/// Plans the part of a layer before its experts, in new buffers.
pub fn forward_ffn_layer_stream(
    c: &LayerConfig,
    layer: &DeepseekLayer,
    m: &MoeContext<'_>,
    stream: HiddenShape,
    tokens: usize,
) -> (r: Result<FfnInput, LayerError>)
    requires
        c.wf(),
        c.rows_countable(stream.seq_len),
        routes_countable(*m, stream.seq_len),
    ensures
        r == fresh_ffn_input(*c, *layer, *m, stream, tokens),
{
    if tokens != stream.seq_len {
        return Err(LayerError::TokenCount);
    }
    if stream.hidden_dim != c.hidden_size * c.hc_mult {
        return Err(LayerError::StreamDim);
    }
    proof {
        lemma_rows(*c, stream.seq_len);
    }
    let params: MhcParams = match gen_mhc_params(
        &layer.hc_ffn,
        stream,
        c.hc_mult,
        c.sinkhorn_iters,
    ) {
        Ok(p) => p,
        Err(e) => {
            return Err(LayerError::Hyper(e));
        },
    };
    let states: HiddenShape = HiddenShape { hidden_dim: c.hidden_size, seq_len: stream.seq_len };
    let read: LaneArgs = match hc_pre_from_stream_into(
        stream,
        params.pre,
        c.hidden_size,
        c.hc_mult,
        states,
    ) {
        Ok(args) => args,
        Err(e) => {
            return Err(LayerError::Hyper(e));
        },
    };
    match plan_moe_start(&layer.ffn, m, states, tokens) {
        Ok(start) => Ok(
            FfnInput {
                mhc: MhcUse::Fresh(params),
                read,
                input: StatesUse::Fresh(states),
                normed: StatesUse::Fresh(states),
                start,
            },
        ),
        Err(e) => Err(e),
    }
}

/// Buffers that the part before the experts keeps.
#[derive(Clone, Copy, Debug, PartialEq, Eq, Structural)]
pub struct FfnBuffers {
    pub mhc: Option<DeepseekMhcRuntimeScratch>,
    pub input: Option<DeepseekHiddenRuntimeScratch>,
    pub normed: Option<DeepseekHiddenRuntimeScratch>,
}

/// A kept buffer after a request for it.
pub open spec fn ensured_use(
    slot: Option<DeepseekHiddenRuntimeScratch>,
    hidden_dim: usize,
    seq_len: usize,
) -> StatesUse {
    StatesUse::Kept {
        scratch: ensured_hidden(slot, hidden_dim, seq_len),
        allocate: !(slot matches Some(old) && hidden_fits(old, hidden_dim, seq_len)),
    }
}

fn ensure_use(
    slot: &mut Option<DeepseekHiddenRuntimeScratch>,
    hidden_dim: usize,
    seq_len: usize,
) -> (r: (StatesUse, HiddenShape))
    ensures
        r.0 == ensured_use(*old(slot), hidden_dim, seq_len),
        r.1 == ensured_hidden(*old(slot), hidden_dim, seq_len).hidden,
        *final(slot) == Some(ensured_hidden(*old(slot), hidden_dim, seq_len)),
{
    let allocate: bool = ensure_hidden_scratch(slot, hidden_dim, seq_len);
    match *slot {
        Some(scratch) => (StatesUse::Kept { scratch, allocate }, scratch.hidden),
        None => {
            let shape: HiddenShape = HiddenShape { hidden_dim, seq_len };
            (StatesUse::Fresh(shape), shape)
        },
    }
}

/// The parameters of a stream in kept buffers, and the buffers afterwards.
pub open spec fn kept_mhc(
    c: LayerConfig,
    hc: DeepseekV4HyperConnection,
    stream: HiddenShape,
    slot: Option<DeepseekMhcRuntimeScratch>,
) -> (Result<MhcUse, HcError>, DeepseekMhcRuntimeScratch) {
    let s = ensured_mhc(slot, stream.hidden_dim, hc.mix_fn.rows, c.hc_mult, stream.seq_len);
    let allocate = !(slot matches Some(old) && mhc_fits(
        old,
        stream.hidden_dim,
        hc.mix_fn.rows,
        c.hc_mult,
        stream.seq_len,
    ));
    match mhc_cached(hc, stream, c.hc_mult, c.sinkhorn_iters, s) {
        Err(e) => (Err(e), s),
        Ok(params) => (
            Ok(MhcUse::Kept { params, allocate }),
            mixes_in_use(s, stream.seq_len),
        ),
    }
}

fn keep_mhc(
    c: &LayerConfig,
    hc: &DeepseekV4HyperConnection,
    stream: HiddenShape,
    slot: &mut Option<DeepseekMhcRuntimeScratch>,
) -> (r: (Result<MhcUse, HcError>, DeepseekMhcRuntimeScratch))
    requires
        c.wf(),
        c.rows_countable(stream.seq_len),
    ensures
        r == kept_mhc(*c, *hc, stream, *old(slot)),
        *final(slot) == Some(r.1),
{
    proof {
        lemma_rows(*c, stream.seq_len);
    }
    let allocate: bool = ensure_mhc_scratch(
        slot,
        stream.hidden_dim,
        hc.mix_fn.rows,
        c.hc_mult,
        stream.seq_len,
    );
    let mut scratch: DeepseekMhcRuntimeScratch = match *slot {
        Some(s) => s,
        None => DeepseekMhcRuntimeScratch {
            capacity_tokens: 0,
            stream_hidden_dim: 0,
            mix_dim: 0,
            hc_mult: 0,
            mixes: HiddenShape { hidden_dim: 0, seq_len: 0 },
            pre: 0,
            post: 0,
            comb: 0,
        },
    };
    let params = gen_mhc_params_cached(hc, stream, c.hc_mult, c.sinkhorn_iters, &mut scratch);
    *slot = Some(scratch);
    match params {
        Ok(params) => (Ok(MhcUse::Kept { params, allocate }), scratch),
        Err(e) => (Err(e), scratch),
    }
}

/// The part before the experts in kept buffers, and the buffers afterwards.
pub open spec fn kept_ffn_input(
    c: LayerConfig,
    layer: DeepseekLayer,
    m: MoeContext<'_>,
    stream: HiddenShape,
    tokens: usize,
    b: FfnBuffers,
) -> (Result<FfnInput, LayerError>, FfnBuffers) {
    let (mhc, s) = kept_mhc(c, layer.hc_ffn, stream, b.mhc);
    let b1 = FfnBuffers { mhc: Some(s), ..b };
    match stream_fault(c, stream, tokens) {
        Some(e) => (Err(e), b),
        None => match mhc {
            Err(e) => (Err(LayerError::Hyper(e)), b1),
            Ok(params) => {
                let input = ensured_hidden(b.input, c.hidden_size, stream.seq_len);
                let b2 = FfnBuffers { input: Some(input), ..b1 };
                match pre_fault(stream, s.pre, c.hidden_size, c.hc_mult, input.hidden) {
                    Some(e) => (Err(LayerError::Hyper(e)), b2),
                    None => {
                        let normed = ensured_hidden(b.normed, c.hidden_size, stream.seq_len);
                        let b3 = FfnBuffers { normed: Some(normed), ..b2 };
                        match moe_start(layer.ffn, m, normed.hidden, tokens) {
                            Err(e) => (Err(e), b3),
                            Ok(start) => (
                                Ok(
                                    FfnInput {
                                        mhc: params,
                                        read: lane_args(
                                            stream.seq_len,
                                            c.hidden_size,
                                            c.hc_mult,
                                        ),
                                        input: ensured_use(
                                            b.input,
                                            c.hidden_size,
                                            stream.seq_len,
                                        ),
                                        normed: ensured_use(
                                            b.normed,
                                            c.hidden_size,
                                            stream.seq_len,
                                        ),
                                        start,
                                    },
                                ),
                                b3,
                            ),
                        }
                    },
                }
            },
        },
    }
}

/// Plans the part of a layer before its experts, in kept buffers.
pub fn forward_ffn_layer_stream_with_scratch(
    c: &LayerConfig,
    layer: &DeepseekLayer,
    m: &MoeContext<'_>,
    stream: HiddenShape,
    tokens: usize,
    b: &mut FfnBuffers,
) -> (r: Result<FfnInput, LayerError>)
    requires
        c.wf(),
        c.rows_countable(stream.seq_len),
        routes_countable(*m, stream.seq_len),
    ensures
        (r, *final(b)) == kept_ffn_input(*c, *layer, *m, stream, tokens, *old(b)),
{
    if tokens != stream.seq_len {
        return Err(LayerError::TokenCount);
    }
    if stream.hidden_dim != c.hidden_size * c.hc_mult {
        return Err(LayerError::StreamDim);
    }
    proof {
        lemma_rows(*c, stream.seq_len);
    }
    let (mhc, scratch) = keep_mhc(c, &layer.hc_ffn, stream, &mut b.mhc);
    let params: MhcUse = match mhc {
        Ok(p) => p,
        Err(e) => {
            return Err(LayerError::Hyper(e));
        },
    };
    let (input, input_shape) = ensure_use(&mut b.input, c.hidden_size, stream.seq_len);
    let read: LaneArgs = match hc_pre_from_stream_into(
        stream,
        scratch.pre,
        c.hidden_size,
        c.hc_mult,
        input_shape,
    ) {
        Ok(args) => args,
        Err(e) => {
            return Err(LayerError::Hyper(e));
        },
    };
    let (normed, normed_shape) = ensure_use(&mut b.normed, c.hidden_size, stream.seq_len);
    match plan_moe_start(&layer.ffn, m, normed_shape, tokens) {
        Ok(start) => Ok(FfnInput { mhc: params, read, input, normed, start }),
        Err(e) => Err(e),
    }
}

/// The part after the experts. `weights` are the lengths of the write weights
/// and of the weights between lanes.
pub open spec fn ffn_output(
    c: LayerConfig,
    layer: DeepseekLayer,
    stream: HiddenShape,
    weights: (usize, usize),
    keeps: bool,
    out: HiddenShape,
) -> Result<FfnOutput, LayerError> {
    let states = layer_states(c, stream.seq_len);
    let shared = match layer.ffn.shared_experts {
        None => Ok(None),
        Some(shared) => match expert_run(shared, states) {
            Err(e) => Err(e),
            Ok(run) => Ok(Some(run)),
        },
    };
    match shared {
        Err(e) => Err(LayerError::Moe(e)),
        Ok(shared) => match post_fault(states, stream, weights, c.hidden_size, c.hc_mult, out) {
            Some(e) => Err(LayerError::Hyper(e)),
            None => Ok(
                FfnOutput {
                    shared,
                    keep_shared: keeps && stream.seq_len == 1,
                    write: lane_args(stream.seq_len, c.hidden_size, c.hc_mult),
                },
            ),
        },
    }
}

/// Plans the part of a layer after its experts. With `keeps`, a single token's
/// shared expert runs in kept buffers.
pub fn plan_ffn_output(
    c: &LayerConfig,
    layer: &DeepseekLayer,
    stream: HiddenShape,
    weights: (usize, usize),
    keeps: bool,
    out: HiddenShape,
) -> (r: Result<FfnOutput, LayerError>)
    requires
        c.wf(),
        c.rows_countable(stream.seq_len),
    ensures
        r == ffn_output(*c, *layer, stream, weights, keeps, out),
{
    let states: HiddenShape = HiddenShape { hidden_dim: c.hidden_size, seq_len: stream.seq_len };
    let shared: Option<ExpertRun> = match layer.ffn.add_shared_expert(states) {
        Ok(shared) => shared,
        Err(e) => {
            return Err(LayerError::Moe(e));
        },
    };
    proof {
        lemma_rows(*c, stream.seq_len);
    }
    match hc_post_to_stream_into(states, stream, weights, c.hidden_size, c.hc_mult, out) {
        Ok(write) => Ok(
            FfnOutput { shared, keep_shared: keeps && stream.seq_len == 1, write },
        ),
        Err(e) => Err(LayerError::Hyper(e)),
    }
}

/// The attention half of a layer and the part before its experts.
#[derive(Clone, Copy, Debug, PartialEq, Eq, Structural)]
pub struct LayerInput {
    pub attn_mhc: MhcUse,
    pub attn_read: LaneArgs,
    pub attn_input: StatesUse,
    pub attn_normed: StatesUse,
    pub attention: AttentionRun,
    pub attn_write: LaneArgs,
    /// The stream between attention and experts.
    pub between: StatesUse,
    pub ffn: FfnInput,
}

/// How a layer attends; without a ratio it cannot.
#[derive(Clone, Copy, Debug, PartialEq, Eq, Structural)]
pub struct LayerMode {
    pub ratio: Option<usize>,
    pub mode: AttentionMode,
}

/// A whole layer up to its experts, in new buffers: it sees the tokens of the
/// step alone.
pub open spec fn fresh_layer(
    c: LayerConfig,
    layer: DeepseekLayer,
    m: MoeContext<'_>,
    mode: LayerMode,
    stream: HiddenShape,
    tokens: usize,
) -> Result<LayerInput, LayerError> {
    let states = layer_states(c, stream.seq_len);
    match stream_fault(c, stream, tokens) {
        Some(e) => Err(e),
        None => match mhc_params(layer.hc_attn, stream, c.hc_mult, c.sinkhorn_iters) {
            Err(e) => Err(LayerError::Hyper(e)),
            Ok(params) => match pre_fault(stream, params.pre, c.hidden_size, c.hc_mult, states) {
                Some(e) => Err(LayerError::Hyper(e)),
                None => match block_forward(
                    c.attention,
                    layer.attention,
                    states,
                    mode.ratio,
                    mode.mode,
                ) {
                    Err(e) => Err(LayerError::Attention(e)),
                    Ok(run) => match post_fault(
                        run.plan.core_plan().out,
                        stream,
                        (params.post, params.comb),
                        c.hidden_size,
                        c.hc_mult,
                        stream,
                    ) {
                        Some(e) => Err(LayerError::Hyper(e)),
                        None => match fresh_ffn_input(c, layer, m, stream, tokens) {
                            Err(e) => Err(e),
                            Ok(ffn) => Ok(
                                LayerInput {
                                    attn_mhc: MhcUse::Fresh(params),
                                    attn_read: lane_args(
                                        stream.seq_len,
                                        c.hidden_size,
                                        c.hc_mult,
                                    ),
                                    attn_input: StatesUse::Fresh(states),
                                    attn_normed: StatesUse::Fresh(states),
                                    attention: run,
                                    attn_write: lane_args(
                                        stream.seq_len,
                                        c.hidden_size,
                                        c.hc_mult,
                                    ),
                                    between: StatesUse::Fresh(stream),
                                    ffn,
                                },
                            ),
                        },
                    },
                },
            },
        },
    }
}

/// The attention of a layer over `seq_len` rows can be counted.
pub open spec fn attention_countable(
    c: LayerConfig,
    layer: DeepseekLayer,
    mode: LayerMode,
    seq_len: usize,
    start_pos: usize,
) -> bool {
    mode.ratio matches Some(n) ==> block_countable(
        c.attention,
        layer.attention,
        layer_states(c, seq_len),
        start_pos,
        n,
        mode.mode,
    )
}

/// Plans a layer up to its experts, in new buffers.
pub fn forward_transformer_layer_stream(
    c: &LayerConfig,
    layer: &DeepseekLayer,
    m: &MoeContext<'_>,
    mode: LayerMode,
    stream: HiddenShape,
    tokens: usize,
) -> (r: Result<LayerInput, LayerError>)
    requires
        c.wf(),
        c.rows_countable(stream.seq_len),
        routes_countable(*m, stream.seq_len),
        attention_countable(*c, *layer, mode, stream.seq_len, 0),
    ensures
        r == fresh_layer(*c, *layer, *m, mode, stream, tokens),
{
    if tokens != stream.seq_len {
        return Err(LayerError::TokenCount);
    }
    if stream.hidden_dim != c.hidden_size * c.hc_mult {
        return Err(LayerError::StreamDim);
    }
    proof {
        lemma_rows(*c, stream.seq_len);
    }
    let states: HiddenShape = HiddenShape { hidden_dim: c.hidden_size, seq_len: stream.seq_len };
    let params: MhcParams = match gen_mhc_params(
        &layer.hc_attn,
        stream,
        c.hc_mult,
        c.sinkhorn_iters,
    ) {
        Ok(p) => p,
        Err(e) => {
            return Err(LayerError::Hyper(e));
        },
    };
    let attn_read: LaneArgs = match hc_pre_from_stream_into(
        stream,
        params.pre,
        c.hidden_size,
        c.hc_mult,
        states,
    ) {
        Ok(args) => args,
        Err(e) => {
            return Err(LayerError::Hyper(e));
        },
    };
    let attention: AttentionRun = match forward_sliding_window_attention(
        &c.attention,
        &layer.attention,
        states,
        mode.ratio,
        mode.mode,
    ) {
        Ok(run) => run,
        Err(e) => {
            return Err(LayerError::Attention(e));
        },
    };
    let attn_write: LaneArgs = match hc_post_to_stream_into(
        attention.plan.attended().out,
        stream,
        (params.post, params.comb),
        c.hidden_size,
        c.hc_mult,
        stream,
    ) {
        Ok(args) => args,
        Err(e) => {
            return Err(LayerError::Hyper(e));
        },
    };
    match forward_ffn_layer_stream(c, layer, m, stream, tokens) {
        Ok(ffn) => Ok(
            LayerInput {
                attn_mhc: MhcUse::Fresh(params),
                attn_read,
                attn_input: StatesUse::Fresh(states),
                attn_normed: StatesUse::Fresh(states),
                attention,
                attn_write,
                between: StatesUse::Fresh(stream),
                ffn,
            },
        ),
        Err(e) => Err(e),
    }
}

/// The attention half of a layer with a cache.
#[derive(Clone, Copy, Debug, PartialEq, Eq, Structural)]
pub struct AttnHalf {
    pub mhc: MhcUse,
    pub read: LaneArgs,
    pub input: StatesUse,
    pub normed: StatesUse,
    pub run: AttentionRun,
    pub write: LaneArgs,
    pub between: StatesUse,
    /// Shape of the stream between attention and experts.
    pub stream: HiddenShape,
}

/// The attention half of a layer with a cache, and the cache afterwards.
pub open spec fn attn_half(
    c: LayerConfig,
    layer: DeepseekLayer,
    mode: LayerMode,
    stream: HiddenShape,
    start_pos: usize,
    cache: DeepseekLayerRuntimeCache,
) -> (Result<AttnHalf, LayerError>, DeepseekLayerRuntimeCache) {
    let n = stream.seq_len;
    let (mhc, s) = kept_mhc(c, layer.hc_attn, stream, cache.attn_mhc);
    let c1 = DeepseekLayerRuntimeCache { attn_mhc: Some(s), ..cache };
    match mhc {
        Err(e) => (Err(LayerError::Hyper(e)), c1),
        Ok(mhc) => {
            let input = ensured_hidden(cache.attn_pre, c.hidden_size, n);
            let c2 = DeepseekLayerRuntimeCache { attn_pre: Some(input), ..c1 };
            match pre_fault(stream, s.pre, c.hidden_size, c.hc_mult, input.hidden) {
                Some(e) => (Err(LayerError::Hyper(e)), c2),
                None => {
                    let normed = ensured_hidden(cache.attn_normed, c.hidden_size, n);
                    let (r, attention) = cached_block_forward(
                        c.attention,
                        layer.attention,
                        normed.hidden,
                        start_pos,
                        mode.ratio,
                        mode.mode,
                        cache.attention,
                    );
                    let c3 = DeepseekLayerRuntimeCache {
                        attn_normed: Some(normed),
                        attention,
                        ..c2
                    };
                    match r {
                        Err(e) => (Err(LayerError::Attention(e)), c3),
                        Ok(run) => {
                            let dim = c.stream_dim() as usize;
                            let between = ensured_hidden(cache.attn_post, dim, n);
                            let c4 = DeepseekLayerRuntimeCache { attn_post: Some(between), ..c3 };
                            match post_fault(
                                run.plan.core_plan().out,
                                stream,
                                (s.post, s.comb),
                                c.hidden_size,
                                c.hc_mult,
                                between.hidden,
                            ) {
                                Some(e) => (Err(LayerError::Hyper(e)), c4),
                                None => (
                                    Ok(
                                        AttnHalf {
                                            mhc,
                                            read: lane_args(n, c.hidden_size, c.hc_mult),
                                            input: ensured_use(
                                                cache.attn_pre,
                                                c.hidden_size,
                                                n,
                                            ),
                                            normed: ensured_use(
                                                cache.attn_normed,
                                                c.hidden_size,
                                                n,
                                            ),
                                            run,
                                            write: lane_args(n, c.hidden_size, c.hc_mult),
                                            between: ensured_use(cache.attn_post, dim, n),
                                            stream: between.hidden,
                                        },
                                    ),
                                    c4,
                                ),
                            }
                        },
                    }
                },
            }
        },
    }
}

/// The attention of a layer with a cache can be counted.
pub open spec fn cached_attention_countable(
    c: LayerConfig,
    layer: DeepseekLayer,
    mode: LayerMode,
    normed: HiddenShape,
    start_pos: usize,
    cache: DeepseekLayerRuntimeCache,
) -> bool {
    &&& c.attention.head_dim > 0 || layer.attention.wq_b.rows > 0
    &&& mode.ratio matches Some(n) ==> {
        &&& block_countable(c.attention, layer.attention, normed, start_pos, n, mode.mode)
        &&& n > 0 ==> caches_countable(
            block_step(c.attention, layer.attention, normed, start_pos, n, mode.mode),
            cache.attention,
        )
    }
}

fn plan_attn_half(
    c: &LayerConfig,
    layer: &DeepseekLayer,
    mode: LayerMode,
    stream: HiddenShape,
    start_pos: usize,
    cache: &mut DeepseekLayerRuntimeCache,
) -> (r: Result<AttnHalf, LayerError>)
    requires
        c.wf(),
        c.rows_countable(stream.seq_len),
        cached_attention_countable(
            *c,
            *layer,
            mode,
            ensured_hidden(old(cache).attn_normed, c.hidden_size, stream.seq_len).hidden,
            start_pos,
            *old(cache),
        ),
    ensures
        (r, *final(cache)) == attn_half(*c, *layer, mode, stream, start_pos, *old(cache)),
{
    proof {
        lemma_rows(*c, stream.seq_len);
    }
    let n: usize = stream.seq_len;
    let (mhc, scratch) = keep_mhc(c, &layer.hc_attn, stream, &mut cache.attn_mhc);
    let mhc: MhcUse = match mhc {
        Ok(p) => p,
        Err(e) => {
            return Err(LayerError::Hyper(e));
        },
    };
    let (input, input_shape) = ensure_use(&mut cache.attn_pre, c.hidden_size, n);
    let read: LaneArgs = match hc_pre_from_stream_into(
        stream,
        scratch.pre,
        c.hidden_size,
        c.hc_mult,
        input_shape,
    ) {
        Ok(args) => args,
        Err(e) => {
            return Err(LayerError::Hyper(e));
        },
    };
    let (normed, normed_shape) = ensure_use(&mut cache.attn_normed, c.hidden_size, n);
    let run: AttentionRun = match forward_sliding_window_attention_incremental(
        &c.attention,
        &layer.attention,
        normed_shape,
        start_pos,
        mode.ratio,
        mode.mode,
        &mut cache.attention,
    ) {
        Ok(run) => run,
        Err(e) => {
            return Err(LayerError::Attention(e));
        },
    };
    let dim: usize = c.hidden_size * c.hc_mult;
    let (between, between_shape) = ensure_use(&mut cache.attn_post, dim, n);
    match hc_post_to_stream_into(
        run.plan.attended().out,
        stream,
        (scratch.post, scratch.comb),
        c.hidden_size,
        c.hc_mult,
        between_shape,
    ) {
        Ok(write) => Ok(
            AttnHalf { mhc, read, input, normed, run, write, between, stream: between_shape },
        ),
        Err(e) => Err(LayerError::Hyper(e)),
    }
}

/// The buffers of a cache that the part before the experts keeps.
pub open spec fn ffn_buffers(cache: DeepseekLayerRuntimeCache) -> FfnBuffers {
    FfnBuffers { mhc: cache.ffn_mhc, input: cache.ffn_pre, normed: cache.ffn_normed }
}

/// The cache with those buffers.
pub open spec fn with_ffn_buffers(
    cache: DeepseekLayerRuntimeCache,
    b: FfnBuffers,
) -> DeepseekLayerRuntimeCache {
    DeepseekLayerRuntimeCache { ffn_mhc: b.mhc, ffn_pre: b.input, ffn_normed: b.normed, ..cache }
}

/// The buffers when the part before the experts begins: those of its
/// hyper-connection are made sure of first.
pub open spec fn begun_ffn(
    c: LayerConfig,
    layer: DeepseekLayer,
    stream: HiddenShape,
    cache: DeepseekLayerRuntimeCache,
) -> DeepseekLayerRuntimeCache {
    DeepseekLayerRuntimeCache {
        ffn_mhc: Some(
            ensured_mhc(
                cache.ffn_mhc,
                stream.hidden_dim,
                layer.hc_ffn.mix_fn.rows,
                c.hc_mult,
                stream.seq_len,
            ),
        ),
        ..cache
    }
}

/// A whole layer up to its experts with a cache, and the cache afterwards.
pub open spec fn cached_layer(
    c: LayerConfig,
    layer: DeepseekLayer,
    m: MoeContext<'_>,
    mode: LayerMode,
    stream: HiddenShape,
    tokens: usize,
    start_pos: usize,
    cache: DeepseekLayerRuntimeCache,
    out: HiddenShape,
) -> (Result<(LayerInput, bool), LayerError>, DeepseekLayerRuntimeCache) {
    match stream_fault(c, stream, tokens) {
        Some(e) => (Err(e), cache),
        None => if out.hidden_dim != c.stream_dim() || out.seq_len != stream.seq_len {
            (Err(LayerError::OutputShape), cache)
        } else {
            let (half, after) = attn_half(c, layer, mode, stream, start_pos, cache);
            match half {
                Err(e) => (Err(e), after),
                Ok(half) => {
                    let begun = begun_ffn(c, layer, half.stream, after);
                    let allocate = !(after.ffn_mhc matches Some(old) && mhc_fits(
                        old,
                        half.stream.hidden_dim,
                        layer.hc_ffn.mix_fn.rows,
                        c.hc_mult,
                        half.stream.seq_len,
                    ));
                    let (ffn, b) = kept_ffn_input(
                        c,
                        layer,
                        m,
                        half.stream,
                        tokens,
                        ffn_buffers(begun),
                    );
                    let done = with_ffn_buffers(begun, b);
                    match ffn {
                        Err(e) => (Err(e), done),
                        Ok(ffn) => (
                            Ok(
                                (
                                    LayerInput {
                                        attn_mhc: half.mhc,
                                        attn_read: half.read,
                                        attn_input: half.input,
                                        attn_normed: half.normed,
                                        attention: half.run,
                                        attn_write: half.write,
                                        between: half.between,
                                        ffn,
                                    },
                                    allocate,
                                ),
                            ),
                            done,
                        ),
                    }
                },
            }
        },
    }
}

/// Plans a layer up to its experts, on top of what its cache holds. The flag
/// says that the buffers of the experts' hyper-connection have to be
/// allocated.
pub fn forward_transformer_layer_stream_incremental_into(
    c: &LayerConfig,
    layer: &DeepseekLayer,
    m: &MoeContext<'_>,
    mode: LayerMode,
    stream: HiddenShape,
    tokens: usize,
    start_pos: usize,
    cache: &mut DeepseekLayerRuntimeCache,
    out: HiddenShape,
) -> (r: Result<(LayerInput, bool), LayerError>)
    requires
        c.wf(),
        c.rows_countable(stream.seq_len),
        routes_countable(*m, stream.seq_len),
        cached_attention_countable(
            *c,
            *layer,
            mode,
            ensured_hidden(old(cache).attn_normed, c.hidden_size, stream.seq_len).hidden,
            start_pos,
            *old(cache),
        ),
    ensures
        (r, *final(cache)) == cached_layer(
            *c,
            *layer,
            *m,
            mode,
            stream,
            tokens,
            start_pos,
            *old(cache),
            out,
        ),
{
    if tokens != stream.seq_len {
        return Err(LayerError::TokenCount);
    }
    if stream.hidden_dim != c.hidden_size * c.hc_mult {
        return Err(LayerError::StreamDim);
    }
    if out.hidden_dim != c.hidden_size * c.hc_mult || out.seq_len != stream.seq_len {
        return Err(LayerError::OutputShape);
    }
    let half: AttnHalf = match plan_attn_half(c, layer, mode, stream, start_pos, cache) {
        Ok(half) => half,
        Err(e) => {
            return Err(e);
        },
    };
    proof {
        lemma_rows(*c, stream.seq_len);
    }
    let allocate: bool = ensure_mhc_scratch(
        &mut cache.ffn_mhc,
        half.stream.hidden_dim,
        layer.hc_ffn.mix_fn.rows,
        c.hc_mult,
        half.stream.seq_len,
    );
    let mut b: FfnBuffers = FfnBuffers {
        mhc: cache.ffn_mhc,
        input: cache.ffn_pre,
        normed: cache.ffn_normed,
    };
    let ffn = forward_ffn_layer_stream_with_scratch(c, layer, m, half.stream, tokens, &mut b);
    cache.ffn_mhc = b.mhc;
    cache.ffn_pre = b.input;
    cache.ffn_normed = b.normed;
    match ffn {
        Ok(ffn) => Ok(
            (
                LayerInput {
                    attn_mhc: half.mhc,
                    attn_read: half.read,
                    attn_input: half.input,
                    attn_normed: half.normed,
                    attention: half.run,
                    attn_write: half.write,
                    between: half.between,
                    ffn,
                },
                allocate,
            ),
        ),
        Err(e) => Err(e),
    }
}

/// Attention hands the experts a stream of the shape that it was given.
pub proof fn law_stream_shape_is_kept(
    c: LayerConfig,
    layer: DeepseekLayer,
    mode: LayerMode,
    stream: HiddenShape,
    start_pos: usize,
    cache: DeepseekLayerRuntimeCache,
)
    requires
        stream.hidden_dim == c.stream_dim(),
        attn_half(c, layer, mode, stream, start_pos, cache).0 is Ok,
    ensures
        attn_half(c, layer, mode, stream, start_pos, cache).0->Ok_0.stream == stream,
{
}

} // verus!
