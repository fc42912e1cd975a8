//! What the steps of a layer promise together: which weights each of its halves
//! uses, how they share the stream, and that a kept step runs like a new one.

use vstd::prelude::*;

use crate::model::deepseek::attention::{AttentionError, StatesUse};
use crate::model::deepseek::device::HiddenShape;
use crate::model::deepseek::dispatch::rank_routes;
use crate::model::deepseek::hyper::{mhc_cached, mhc_params, HcError, LaneArgs};
use crate::model::deepseek::layer::{
    cached_layer, ffn_output, fresh_ffn_input, fresh_layer, kept_ffn_input, kept_mhc,
    lemma_rows, moe_start, DeepseekLayer, FfnBuffers, FfnInput, LayerConfig, LayerError,
    LayerInput, LayerMode, MhcUse, MoeContext, MoeStart,
};
use crate::model::deepseek::mla::{block_forward, cached_block_forward, AttentionRun};
use crate::model::deepseek::mlp::expert_run;
use crate::model::deepseek::mlp::DeepseekV4MoeBlock;
use crate::model::deepseek::routed::local_routes;
use crate::model::deepseek::scratch::DeepseekHiddenRuntimeScratch;
use crate::model::deepseek::state::DeepseekLayerRuntimeCache;
use crate::model::deepseek::switches::deepep_state;

verus! {

/// The result is a success with the value.
pub open spec fn gives<T, E>(r: Result<T, E>, value: T) -> bool {
    r matches Ok(v) && v == value
}

/// The result is the error.
pub open spec fn refuses<T, E>(r: Result<T, E>, error: E) -> bool {
    r matches Err(e) && e == error
}

/// Kernel arguments that cover every lane of the stream.
pub open spec fn covers(l: LaneArgs, c: LayerConfig, stream: HiddenShape) -> bool {
    &&& stream.seq_len <= i32::MAX ==> l.seq_len == stream.seq_len
    &&& c.hidden_size <= i32::MAX ==> l.hidden_size == c.hidden_size
    &&& c.hc_mult <= i32::MAX ==> l.hc_mult == c.hc_mult
}

/// States of the layer's width with a row per row of the stream.
pub open spec fn has_states(s: StatesUse, width: int, rows: usize) -> bool {
    match s {
        StatesUse::Fresh(shape) => shape.hidden_dim == width && shape.seq_len == rows,
        StatesUse::Kept { scratch, .. } => {
            &&& scratch.hidden.hidden_dim == width
            &&& scratch.hidden.seq_len == rows
            &&& scratch.capacity_tokens >= rows
        },
    }
}

/// A kept buffer has rows of the width that it was made with.
pub open spec fn holds_its_width(slot: Option<DeepseekHiddenRuntimeScratch>) -> bool {
    slot matches Some(s) ==> s.hidden.hidden_dim == s.hidden_dim
}

/// A layer runs only where there is one token per row of the stream and the
/// stream holds every lane; a wrong number of tokens is reported first.
pub proof fn law_layers_need_a_token_per_row(
    c: LayerConfig,
    layer: DeepseekLayer,
    m: MoeContext<'_>,
    mode: LayerMode,
    stream: HiddenShape,
    tokens: usize,
    start_pos: usize,
    cache: DeepseekLayerRuntimeCache,
    out: HiddenShape,
    b: FfnBuffers,
)
    ensures
        tokens != stream.seq_len ==> {
            &&& fresh_layer(c, layer, m, mode, stream, tokens) == Err::<LayerInput, LayerError>(
                LayerError::TokenCount,
            )
            &&& cached_layer(c, layer, m, mode, stream, tokens, start_pos, cache, out) == (
                Err::<(LayerInput, bool), LayerError>(LayerError::TokenCount),
                cache,
            )
            &&& fresh_ffn_input(c, layer, m, stream, tokens) == Err::<FfnInput, LayerError>(
                LayerError::TokenCount,
            )
            &&& kept_ffn_input(c, layer, m, stream, tokens, b) == (
                Err::<FfnInput, LayerError>(LayerError::TokenCount),
                b,
            )
        },
        tokens == stream.seq_len && stream.hidden_dim != c.hidden_size * c.hc_mult ==> {
            &&& fresh_layer(c, layer, m, mode, stream, tokens) == Err::<LayerInput, LayerError>(
                LayerError::StreamDim,
            )
            &&& cached_layer(c, layer, m, mode, stream, tokens, start_pos, cache, out) == (
                Err::<(LayerInput, bool), LayerError>(LayerError::StreamDim),
                cache,
            )
            &&& fresh_ffn_input(c, layer, m, stream, tokens) == Err::<FfnInput, LayerError>(
                LayerError::StreamDim,
            )
            &&& kept_ffn_input(c, layer, m, stream, tokens, b) == (
                Err::<FfnInput, LayerError>(LayerError::StreamDim),
                b,
            )
        },
        tokens == stream.seq_len && stream.hidden_dim == c.hidden_size * c.hc_mult && out
            != stream ==> cached_layer(
            c,
            layer,
            m,
            mode,
            stream,
            tokens,
            start_pos,
            cache,
            out,
        ) == (Err::<(LayerInput, bool), LayerError>(LayerError::OutputShape), cache),
{
    assert(c.stream_dim() == c.hidden_size * c.hc_mult) by (nonlinear_arith)
        requires
            c.stream_dim() == (c.hidden_size * c.hc_mult) as nat,
    ;
}

/// A layer in new buffers: each half mixes by its own hyper-connection, reads and
/// writes every lane, and attends over the layer's states; the experts get the
/// states that were read from the stream after attention.
pub proof fn law_layers_use_their_own_weights(
    c: LayerConfig,
    layer: DeepseekLayer,
    m: MoeContext<'_>,
    mode: LayerMode,
    stream: HiddenShape,
    tokens: usize,
)
    requires
        fresh_layer(c, layer, m, mode, stream, tokens) is Ok,
    ensures
        ({
            let l = fresh_layer(c, layer, m, mode, stream, tokens)->Ok_0;
            let states = HiddenShape { hidden_dim: c.hidden_size, seq_len: stream.seq_len };
            &&& l.attn_mhc matches MhcUse::Fresh(p) && gives(mhc_params(
                layer.hc_attn,
                stream,
                c.hc_mult,
                c.sinkhorn_iters,
            ), p)
            &&& l.ffn.mhc matches MhcUse::Fresh(p) && gives(mhc_params(
                layer.hc_ffn,
                stream,
                c.hc_mult,
                c.sinkhorn_iters,
            ), p)
            &&& covers(l.attn_read, c, stream)
            &&& covers(l.attn_write, c, stream)
            &&& covers(l.ffn.read, c, stream)
            &&& has_states(l.attn_input, c.hidden_size as int, tokens)
            &&& has_states(l.attn_normed, c.hidden_size as int, tokens)
            &&& has_states(l.ffn.input, c.hidden_size as int, tokens)
            &&& has_states(l.ffn.normed, c.hidden_size as int, tokens)
            &&& has_states(l.between, c.hidden_size * c.hc_mult, tokens)
            &&& gives(
                block_forward(c.attention, layer.attention, states, mode.ratio, mode.mode),
                l.attention,
            )
            &&& gives(moe_start(layer.ffn, m, states, tokens), l.ffn.start)
            &&& gives(fresh_ffn_input(c, layer, m, stream, tokens), l.ffn)
        }),
{
    assert(c.stream_dim() == c.hidden_size * c.hc_mult) by (nonlinear_arith)
        requires
            c.stream_dim() == (c.hidden_size * c.hc_mult) as nat,
    ;
}

/// A layer with a cache: it goes through the same stages as one in new buffers,
/// attends from the position of its first token, and its buffers hold the step.
/// Of the cache only the buffers of the two halves and the attention change.
#[verifier::rlimit(60)]
pub proof fn law_cached_layers_use_their_own_weights(
    c: LayerConfig,
    layer: DeepseekLayer,
    m: MoeContext<'_>,
    mode: LayerMode,
    stream: HiddenShape,
    tokens: usize,
    start_pos: usize,
    cache: DeepseekLayerRuntimeCache,
    out: HiddenShape,
)
    requires
        cached_layer(c, layer, m, mode, stream, tokens, start_pos, cache, out).0 is Ok,
        holds_its_width(cache.attn_normed),
        holds_its_width(cache.ffn_normed),
    ensures
        ({
            let (r, after) = cached_layer(
                c,
                layer,
                m,
                mode,
                stream,
                tokens,
                start_pos,
                cache,
                out,
            );
            let (l, allocate) = r->Ok_0;
            let states = HiddenShape { hidden_dim: c.hidden_size, seq_len: stream.seq_len };
            &&& kept_mhc(c, layer.hc_attn, stream, cache.attn_mhc) == (
                Ok::<MhcUse, HcError>(l.attn_mhc),
                after.attn_mhc->Some_0,
            )
            &&& l.attn_mhc is Kept
            &&& l.ffn.mhc is Kept
            &&& after.attn_mhc is Some && after.ffn_mhc is Some
            &&& gives(mhc_cached(
                layer.hc_ffn,
                stream,
                c.hc_mult,
                c.sinkhorn_iters,
                after.ffn_mhc->Some_0,
            ), l.ffn.mhc->params)
            &&& covers(l.attn_read, c, stream)
            &&& covers(l.attn_write, c, stream)
            &&& covers(l.ffn.read, c, stream)
            &&& has_states(l.attn_input, c.hidden_size as int, tokens)
            &&& has_states(l.attn_normed, c.hidden_size as int, tokens)
            &&& has_states(l.ffn.input, c.hidden_size as int, tokens)
            &&& has_states(l.ffn.normed, c.hidden_size as int, tokens)
            &&& has_states(l.between, c.hidden_size * c.hc_mult, tokens)
            &&& holds_its_width(after.attn_normed)
            &&& holds_its_width(after.ffn_normed)
            &&& cached_block_forward(
                c.attention,
                layer.attention,
                states,
                start_pos,
                mode.ratio,
                mode.mode,
                cache.attention,
            ) == (Ok::<AttentionRun, AttentionError>(l.attention), after.attention)
            &&& gives(moe_start(layer.ffn, m, states, tokens), l.ffn.start)
            &&& after == (DeepseekLayerRuntimeCache {
                attention: after.attention,
                attn_mhc: after.attn_mhc,
                ffn_mhc: after.ffn_mhc,
                attn_pre: after.attn_pre,
                attn_normed: after.attn_normed,
                attn_post: after.attn_post,
                ffn_pre: after.ffn_pre,
                ffn_normed: after.ffn_normed,
                ..cache
            })
        }),
{
    assert(c.stream_dim() == c.hidden_size * c.hc_mult) by (nonlinear_arith)
        requires
            c.stream_dim() == (c.hidden_size * c.hc_mult) as nat,
    ;
}

/// Tokens reach their experts over all ranks exactly where dispatch is switched on
/// and there is more than one rank; then the ranks have to be able to exchange.
/// Otherwise they reach the experts of their own rank.
pub proof fn law_dispatch_needs_ranks(
    block: DeepseekV4MoeBlock,
    m: MoeContext<'_>,
    hidden: HiddenShape,
    tokens: usize,
)
    ensures
        deepep_state(m.backend) matches Err(e) ==> moe_start(block, m, hidden, tokens) == Err::<
            MoeStart,
            LayerError,
        >(LayerError::Switch(e)),
        gives(deepep_state(m.backend), true) && m.ep.world_size > 1 && !m.can_dispatch
            ==> moe_start(block, m, hidden, tokens) == Err::<MoeStart, LayerError>(
            LayerError::NoDispatch,
        ),
        gives(deepep_state(m.backend), true) && m.ep.world_size > 1 && m.can_dispatch ==> (
        match moe_start(block, m, hidden, tokens) {
            Ok(MoeStart::Dispatch(routes)) => gives(
                rank_routes(block, m.router, m.ep, hidden, tokens),
                routes,
            ),
            Ok(MoeStart::Local(_)) => false,
            Err(e) => e is Moe && refuses(rank_routes(block, m.router, m.ep, hidden, tokens), e->Moe_0),
        }),
        gives(deepep_state(m.backend), false) || (deepep_state(m.backend) is Ok
            && m.ep.world_size <= 1) ==> (match moe_start(block, m, hidden, tokens) {
            Ok(MoeStart::Local(routes)) => gives(
                local_routes(block, m.router, m.ep, hidden, tokens),
                routes,
            ),
            Ok(MoeStart::Dispatch(_)) => false,
            Err(e) => e is Moe && refuses(
                local_routes(block, m.router, m.ep, hidden, tokens),
                e->Moe_0,
            ),
        }),
{
}

/// After the experts, the shared expert runs over the layer's states where there
/// is one, in kept buffers exactly for a single token, and the sum is written to
/// every lane of the stream.
pub proof fn law_shared_experts_are_added(
    c: LayerConfig,
    layer: DeepseekLayer,
    stream: HiddenShape,
    weights: (usize, usize),
    keeps: bool,
    out: HiddenShape,
)
    requires
        ffn_output(c, layer, stream, weights, keeps, out) is Ok,
    ensures
        ({
            let o = ffn_output(c, layer, stream, weights, keeps, out)->Ok_0;
            let states = HiddenShape { hidden_dim: c.hidden_size, seq_len: stream.seq_len };
            &&& o.shared is Some <==> layer.ffn.shared_experts is Some
            &&& o.shared is Some ==> gives(
                expert_run(layer.ffn.shared_experts->Some_0, states),
                o.shared->Some_0,
            )
            &&& o.keep_shared <==> keeps && stream.seq_len == 1
            &&& covers(o.write, c, stream)
            &&& out == stream
            &&& stream.hidden_dim == c.hidden_size * c.hc_mult
            &&& weights.0 >= stream.seq_len * c.hc_mult
            &&& weights.1 >= stream.seq_len * c.hc_mult * c.hc_mult
        }),
{
}

/// A layer runs wherever the stream fits it and its parts do: nothing else holds
/// it back.
pub proof fn law_fitting_layers_run(
    c: LayerConfig,
    layer: DeepseekLayer,
    m: MoeContext<'_>,
    mode: LayerMode,
    stream: HiddenShape,
    tokens: usize,
)
    requires
        c.wf(),
        c.rows_countable(stream.seq_len),
        c.hc_mult > 0,
        tokens == stream.seq_len,
        stream.hidden_dim == c.hidden_size * c.hc_mult,
        mhc_params(layer.hc_attn, stream, c.hc_mult, c.sinkhorn_iters) is Ok,
        mhc_params(layer.hc_ffn, stream, c.hc_mult, c.sinkhorn_iters) is Ok,
    ensures
        ({
            let states = HiddenShape { hidden_dim: c.hidden_size, seq_len: stream.seq_len };
            let run = block_forward(c.attention, layer.attention, states, mode.ratio, mode.mode);
            let start = moe_start(layer.ffn, m, states, tokens);
            &&& fresh_ffn_input(c, layer, m, stream, tokens) is Ok <==> start is Ok
            &&& start matches Err(e) ==> refuses(
                fresh_ffn_input(c, layer, m, stream, tokens),
                e,
            )
            &&& run matches Err(e) ==> refuses(
                fresh_layer(c, layer, m, mode, stream, tokens),
                LayerError::Attention(e),
            )
            &&& run is Ok && run->Ok_0.plan.core_plan().out == states ==> {
                &&& fresh_layer(c, layer, m, mode, stream, tokens) is Ok <==> start is Ok
                &&& start matches Err(e) ==> refuses(
                    fresh_layer(c, layer, m, mode, stream, tokens),
                    e,
                )
            }
        }),
{
    lemma_rows(c, stream.seq_len);
}

} // verus!
