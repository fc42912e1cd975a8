//! What the steps of the model promise together: how chunks and tokens continue
//! one another, how a pass goes through the layers, and how the shared pool is
//! divided.

use vstd::prelude::*;

use crate::arith::ceil_div;
use crate::model::deepseek::batch_decode::{
    law_ranges_do_not_overlap, pool_bytes, pool_lacks, pool_view, range_bytes, range_start,
    DecodeBufferError, DeepseekBatchDecodeBuffers, BLOCK_BYTES,
};
use crate::model::deepseek::config::{AttentionMode, DeepseekRuntimeConfig, ExpertGroup, TpConfig};
use crate::model::deepseek::device::{HiddenShape, MatrixShape};
use crate::model::deepseek::forward::{
    batch_bindings, decode_context, decode_fault, decoded, hybrid_layers, is_decode_batch,
    slot_bindings, smallest_hybrid_ratio, DecodeBatch, DecodeBatchError, DecodeStep,
};
use crate::model::deepseek::pass::{pass_follows, PassAction, PassRequest, PassState};
use crate::model::deepseek::prefill::{prefill_fault, prefilled, LogitsSwitches, PrefillStep};
use crate::model::deepseek::state::{DeepseekIncrementalState, DeepseekState};
use crate::model::deepseek::switches::{contextual_state, offset_port, set_and_not_off, switch_state};
use crate::model::deepseek::weights::{
    config_of_layers, exchange_plan, incremental_start, logits_route, logits_start, mode_of_layer,
    scope_fault, top_level_fault, DeepseekModel, ExchangePlan, ExpertExchange, IncrementalStart, LogitsRoute,
    LogitsStart, ModelError,
};

verus! {

/// A configuration is served exactly where a layer attends to the window alone,
/// there is a vocabulary, and the ranks hold the experts that the model has.
pub proof fn law_served_configurations(config: DeepseekRuntimeConfig)
    ensures
        scope_fault(config) is None <==> config.spec.attention_summary.sliding_window_layers > 0
            && config.spec.vocab_size > 0 && config.ep.num_experts == config.spec.n_routed_experts,
{
}

/// A chunk is prefilled exactly where the configuration is served, it has a token,
/// its last token stands within the context, and every token is in the vocabulary.
pub proof fn law_chunks_that_fit_are_prefilled(
    model: DeepseekModel,
    tokens: Seq<u32>,
    kv_len: usize,
)
    requires
        model.config.spec.max_position_embeddings < usize::MAX,
    ensures
        prefill_fault(model, tokens, kv_len) is None <==> {
            &&& scope_fault(model.config) is None
            &&& tokens.len() > 0
            &&& kv_len + tokens.len() <= model.config.spec.max_position_embeddings
            &&& forall|i: int|
                0 <= i < tokens.len() ==> (#[trigger] tokens[i]) < model.config.spec.vocab_size
        },
{
}

/// A chunk that is refused leaves the state as it was; a chunk that is taken is
/// recorded whole, whatever is asked of its logits.
pub proof fn law_chunks_are_recorded_whole(
    r: Result<PrefillStep, ModelError>,
    model: DeepseekModel,
    tokens: Seq<u32>,
    kv_len: usize,
    emit_logits: bool,
    switches: LogitsSwitches<'_>,
    before: DeepseekState,
    after: DeepseekState,
)
    requires
        prefilled(r, model, tokens, kv_len, emit_logits, switches, before, after),
    ensures
        after.base == before.base,
        after.incremental == before.incremental,
        prefill_fault(model, tokens, kv_len) is Some ==> r is Err && after.reference_tokens@
            == before.reference_tokens@,
        prefill_fault(model, tokens, kv_len) is None ==> after.reference_tokens@.len()
            == before.reference_tokens@.len() + tokens.len(),
        prefill_fault(model, tokens, kv_len) is None && !emit_logits ==> r == Ok::<
            PrefillStep,
            ModelError,
        >(PrefillStep::Deferred),
        prefill_fault(model, tokens, kv_len) is None && emit_logits && model.has_reference ==> r
            == Ok::<PrefillStep, ModelError>(PrefillStep::Reference),
        r matches Ok(PrefillStep::Device(route)) ==> emit_logits && !model.has_reference
            && switches.route() == Ok::<LogitsRoute, ModelError>(route),
        forall|i: int|
            0 <= i < before.reference_tokens@.len() ==> #[trigger] after.reference_tokens@[i]
                == before.reference_tokens@[i],
        prefill_fault(model, tokens, kv_len) is None ==> forall|i: int|
            0 <= i < tokens.len() ==> after.reference_tokens@[before.reference_tokens@.len() + i]
                == #[trigger] tokens[i],
{
}

/// Two chunks one after the other record what one chunk of all their tokens does,
/// and where both are taken, the one is.
pub proof fn law_chunks_continue_one_another(
    first: Result<PrefillStep, ModelError>,
    second: Result<PrefillStep, ModelError>,
    whole: Result<PrefillStep, ModelError>,
    model: DeepseekModel,
    a: Seq<u32>,
    b: Seq<u32>,
    kv_len: usize,
    switches: LogitsSwitches<'_>,
    before: DeepseekState,
    between: DeepseekState,
    after: DeepseekState,
    at_once: DeepseekState,
)
    requires
        kv_len + a.len() <= usize::MAX,
        model.config.spec.max_position_embeddings < usize::MAX,
        prefill_fault(model, a, kv_len) is None,
        prefill_fault(model, b, (kv_len + a.len()) as usize) is None,
        prefilled(first, model, a, kv_len, false, switches, before, between),
        prefilled(
            second,
            model,
            b,
            (kv_len + a.len()) as usize,
            true,
            switches,
            between,
            after,
        ),
        prefilled(whole, model, a + b, kv_len, true, switches, before, at_once),
    ensures
        prefill_fault(model, a + b, kv_len) is None,
        after.reference_tokens@ == at_once.reference_tokens@,
        second == whole,
{
    assert forall|i: int| 0 <= i < (a + b).len() implies (#[trigger] (a + b)[i])
        < model.config.spec.vocab_size by {
        if i < a.len() {
            assert((a + b)[i] == a[i]);
        } else {
            assert((a + b)[i] == b[i - a.len()]);
        }
    }
    assert(before.reference_tokens@ + a + b =~= before.reference_tokens@ + (a + b));
}

/// A decoded token is recorded behind all others, as a chunk of that one token
/// would be, and its logits take the route that a chunk's take.
pub proof fn law_tokens_are_decoded_like_chunks_of_one(
    r: Result<DecodeStep, ModelError>,
    p: Result<PrefillStep, ModelError>,
    model: DeepseekModel,
    token: u32,
    kv_len: usize,
    switches: LogitsSwitches<'_>,
    before: DeepseekState,
    after: DeepseekState,
    other: DeepseekState,
)
    requires
        kv_len < model.config.spec.max_position_embeddings < usize::MAX,
        decoded(r, model, token, switches, before, after),
        prefilled(p, model, seq![token], kv_len, true, switches, before, other),
    ensures
        after.reference_tokens@ == other.reference_tokens@,
        decode_fault(model, token) is None <==> scope_fault(model.config) is None && token
            < model.config.spec.vocab_size,
        decode_fault(model, token) is None ==> after.reference_tokens@.len()
            == before.reference_tokens@.len() + 1 && after.reference_tokens@.last() == token,
        decode_fault(model, token) is Some ==> after.reference_tokens@
            == before.reference_tokens@,
        r matches Ok(DecodeStep::Reference) <==> (p matches Ok(PrefillStep::Reference)),
        r matches Ok(DecodeStep::Device(route)) ==> p == Ok::<PrefillStep, ModelError>(
            PrefillStep::Device(route),
        ),
        p matches Ok(PrefillStep::Device(route)) ==> r == Ok::<DecodeStep, ModelError>(
            DecodeStep::Device(route),
        ),
        r is Err <==> p is Err,
        r matches Err(e) ==> p == Err::<PrefillStep, ModelError>(e),
        after.base == before.base,
        after.incremental == before.incremental,
{
    assert(seq![token][0] == token);
    assert(before.reference_tokens@ + seq![token] =~= before.reference_tokens@.push(token));
}

/// Logits come from the caches exactly where the incremental switch is on,
/// otherwise from all tokens exactly where the context is asked for.
pub proof fn law_switches_choose_the_route(
    incremental: Option<&str>,
    contextual: Option<&str>,
    full_layers: Option<&str>,
)
    ensures
        ({
            let r = logits_route(incremental, contextual, full_layers);
            &&& r == Ok::<LogitsRoute, ModelError>(LogitsRoute::Incremental) <==> (switch_state(
                incremental,
            ) matches Ok(on) && on)
            &&& r == Ok::<LogitsRoute, ModelError>(LogitsRoute::AllTokens) <==> (switch_state(
                incremental,
            ) matches Ok(on) && !on) && (contextual_state(contextual, full_layers) matches Ok(all)
                && all)
            &&& r == Ok::<LogitsRoute, ModelError>(LogitsRoute::LastToken) <==> (switch_state(
                incremental,
            ) matches Ok(on) && !on) && (contextual_state(contextual, full_layers) matches Ok(all)
                && !all)
        }),
{
}

/// Every layer reads its own ratio and mode, and the widths of the model.
pub proof fn law_layers_read_the_configuration(config: DeepseekRuntimeConfig, layer_idx: usize)
    ensures
        ({
            let c = config_of_layers(config);
            &&& c.hidden_size == c.attention.hidden_size == config.spec.hidden_size
            &&& c.hc_mult == config.spec.hc_mult
            &&& c.sinkhorn_iters == config.spec.hc_sinkhorn_iters
            &&& c.attention.head_dim == config.spec.head_dim
            &&& c.attention.sliding_window == config.spec.sliding_window
            &&& c.attention.rope_dim == config.spec.qk_rope_head_dim
            &&& c.attention.tp_rank == config.tp.rank
            &&& c.attention.max_positions == config.spec.max_position_embeddings
            &&& c.attention.original_positions == config.spec.original_max_position_embeddings
            &&& c.attention.index_head_dim == config.spec.index_head_dim
            &&& c.attention.index_topk == config.spec.index_topk
        }),
        layer_idx < config.spec.compress_ratios@.len() ==> mode_of_layer(
            config.spec,
            layer_idx,
        ).ratio == Some(config.spec.compress_ratios@[layer_idx as int]),
        layer_idx >= config.spec.compress_ratios@.len() ==> mode_of_layer(
            config.spec,
            layer_idx,
        ).ratio is None,
        layer_idx < config.spec.attention_modes@.len() ==> mode_of_layer(
            config.spec,
            layer_idx,
        ).mode == config.spec.attention_modes@[layer_idx as int],
        layer_idx >= config.spec.attention_modes@.len() ==> mode_of_layer(
            config.spec,
            layer_idx,
        ).mode is SlidingWindow,
{
}

/// The weights around the layers are taken exactly where the embeddings and the
/// output head have a row per token of the vocabulary, and they and the final norm
/// have the width of the model.
pub proof fn law_top_level_weights_that_fit_are_taken(
    config: DeepseekRuntimeConfig,
    embed_tokens: MatrixShape,
    lm_head: MatrixShape,
    norm: usize,
)
    ensures
        top_level_fault(config.spec, embed_tokens, lm_head, norm) is None <==> {
            &&& embed_tokens.rows == lm_head.rows == config.spec.vocab_size
            &&& embed_tokens.cols == lm_head.cols == norm == config.spec.hidden_size
        },
        top_level_fault(config.spec, embed_tokens, lm_head, norm) == Some(ModelError::NormLength)
            ==> norm != config.spec.hidden_size,
        top_level_fault(config.spec, embed_tokens, lm_head, norm) == Some(ModelError::HeadShape)
            ==> lm_head.rows != config.spec.vocab_size || lm_head.cols != config.spec.hidden_size,
        top_level_fault(config.spec, embed_tokens, lm_head, norm) == Some(
            ModelError::EmbeddingShape,
        ) <==> embed_tokens.rows != config.spec.vocab_size || embed_tokens.cols
            != config.spec.hidden_size,
{
}

/// Ranks exchange only where there is more than one of them and they can. The
/// experts use the group of tensor parallelism exactly where it has the same rank
/// and size, and a second group exactly where it is switched on.
pub proof fn law_ranks_exchange_in_groups(
    tp: TpConfig,
    ep: ExpertGroup,
    can_exchange: bool,
    overlap: Option<&str>,
    port: Option<&str>,
)
    ensures
        exchange_plan(tp, ep, can_exchange, overlap, port) == Err::<
            ExchangePlan,
            ModelError,
        >(ModelError::NoExchange) <==> !can_exchange && (tp.world_size > 1 || ep.world_size > 1),
        exchange_plan(tp, ep, can_exchange, overlap, port) matches Ok(p) ==> {
            &&& p.tensor is Some <==> tp.world_size > 1
            &&& p.tensor matches Some(g) ==> g.rank == tp.rank && g.world_size == tp.world_size
            &&& p.experts is Alone <==> ep.world_size <= 1
            &&& p.experts is Shared <==> ep.world_size > 1 && tp.world_size == ep.world_size
                && tp.rank == ep.rank
            &&& p.experts matches ExpertExchange::Own(g) ==> g.rank == ep.rank && g.world_size
                == ep.world_size
            &&& p.overlap_port is Some <==> ep.world_size > 1 && set_and_not_off(overlap)
            &&& p.overlap_port matches Some(n) ==> (offset_port(port, 1) matches Ok(q) && q == n)
        },
{
}

/// Logits begin with every token, spread over the lanes of a stream that goes
/// through the layers that were asked for.
pub proof fn law_logits_begin_with_every_token(
    model: DeepseekModel,
    tokens: usize,
    ffn_layers: usize,
    full_layers: usize,
)
    requires
        model.wf(),
        tokens <= i32::MAX && model.config.spec.hidden_size <= i32::MAX
            && model.config.spec.hc_mult <= i32::MAX,
    ensures
        logits_start(model, tokens, ffn_layers, full_layers) matches Ok(LogitsStart::Stream {
            embeddings,
            stream,
            lanes,
            full_layers: full,
            ffn_layers: ffn,
        }) ==> {
            &&& tokens > 0
            &&& embeddings.seq_len == stream.seq_len == lanes.seq_len == tokens
            &&& embeddings.hidden_dim == lanes.hidden_size == model.config.spec.hidden_size
            &&& lanes.hc_mult == model.config.spec.hc_mult
            &&& stream.hidden_dim == model.config.spec.hidden_size * model.config.spec.hc_mult
            &&& full == full_layers && ffn == ffn_layers
            &&& full <= model.layers@.len() && ffn <= model.layers@.len()
            &&& full == 0 || ffn == 0
            &&& full > 0 ==> model.config.tp.world_size == model.config.spec.o_groups
                && model.config.tp.rank < model.config.spec.o_groups
            &&& model.incremental_ready()
        },
        logits_start(model, tokens, ffn_layers, full_layers) matches Ok(LogitsStart::Embeddings(e))
            ==> {
            &&& e.seq_len == tokens
            &&& e.hidden_dim == model.config.spec.hidden_size
            &&& model.head_hc is None
            &&& ffn_layers == full_layers == 0
        },
        logits_start(model, tokens, ffn_layers, full_layers) is Ok && !(logits_start(
            model,
            tokens,
            ffn_layers,
            full_layers,
        )->Ok_0 is Unloaded) ==> model.embed_tokens is Some && model.norm is Some
            && model.lm_head is Some,
        tokens > 0 && (ffn_layers == 0 || full_layers == 0) && model.incremental_ready()
            && ffn_layers <= model.layers@.len() && full_layers <= model.layers@.len() && (
        full_layers == 0 || (model.config.tp.world_size == model.config.spec.o_groups
            && model.config.tp.rank < model.config.spec.o_groups)) && model.config.spec.hc_mult > 0
            ==> logits_start(model, tokens, ffn_layers, full_layers) is Ok,
{
}

/// A step begins where the caches end: it starts at the position behind the tokens
/// that are processed, and is refused where the scheduler counts another number.
pub proof fn law_steps_begin_where_the_caches_end(
    model: DeepseekModel,
    tokens: usize,
    kv_len: usize,
    state: DeepseekIncrementalState,
)
    requires
        model.wf(),
        tokens <= i32::MAX && model.config.spec.hidden_size <= i32::MAX
            && model.config.spec.hc_mult <= i32::MAX,
    ensures
        incremental_start(model, tokens, kv_len, state) matches Ok(IncrementalStart::Stream {
            start_pos,
            embeddings,
            stream,
            allocate,
            lanes,
        }) ==> {
            &&& start_pos == kv_len == state.processed_tokens
            &&& embeddings.seq_len == stream.hidden.seq_len == lanes.seq_len == tokens
            &&& embeddings.hidden_dim == lanes.hidden_size == model.config.spec.hidden_size
            &&& lanes.hc_mult == model.config.spec.hc_mult
            &&& stream.hidden.hidden_dim == model.config.spec.hidden_size
                * model.config.spec.hc_mult
            &&& stream.capacity_tokens >= tokens
            &&& !allocate ==> (state.stream_recycle matches Some(old) && old.capacity_tokens
                == stream.capacity_tokens && old.hidden_dim == stream.hidden_dim)
        },
        tokens > 0 && model.incremental_ready() && model.layers@.len() > 0
            && state.processed_tokens != kv_len ==> incremental_start(
            model,
            tokens,
            kv_len,
            state,
        ) == Err::<IncrementalStart, ModelError>(ModelError::CachedLength),
{
}

/// A pass from its start: the states that it goes through, what it does in them,
/// and the caches.
pub open spec fn is_pass(
    model: DeepseekModel,
    q: PassRequest,
    states: Seq<PassState>,
    actions: Seq<PassAction>,
    caches: Seq<DeepseekIncrementalState>,
    n: nat,
) -> bool {
    &&& states.len() == n + 1
    &&& caches.len() == n + 1
    &&& actions.len() == n
    &&& states[0] is Starting
    &&& forall|i: int|
        0 <= i < n ==> #[trigger] pass_follows(
            Ok((states[i + 1], actions[i])),
            caches[i + 1],
            model,
            q,
            states[i],
            caches[i],
        )
}

/// The stream that a state of a pass hands on.
pub open spec fn handed_on(state: PassState) -> HiddenShape {
    match state {
        PassState::Starting { stream } => stream.hidden,
        PassState::Layer { write, .. } => write.hidden,
        PassState::Head { stream } => stream.hidden,
        PassState::Over => HiddenShape { hidden_dim: 0, seq_len: 0 },
    }
}

/// A pass runs every layer once, in order and at the position of its first token,
/// each on the stream that the one before wrote. Its tokens count as processed
/// behind the last layer, and only then; the head runs exactly where logits are
/// asked for.
pub proof fn law_passes_run_every_layer_once(
    model: DeepseekModel,
    q: PassRequest,
    states: Seq<PassState>,
    actions: Seq<PassAction>,
    caches: Seq<DeepseekIncrementalState>,
    n: nat,
)
    requires
        is_pass(model, q, states, actions, caches, n),
        0 < n <= model.layers@.len() + 1,
        model.layers@.len() > 0,
    ensures
        n <= model.layers@.len() ==> {
            &&& actions[n - 1] matches PassAction::RunLayer { idx, start_pos, read, write, .. }
                && idx == n - 1 && start_pos == q.start_pos && read == handed_on(states[n - 1])
                && write.hidden == handed_on(states[n as int])
            &&& states[n as int] matches PassState::Layer { idx, .. } && idx == n - 1
            &&& caches[n as int].processed_tokens == caches[0].processed_tokens
        },
        n == model.layers@.len() + 1 ==> {
            &&& caches[n as int].processed_tokens == caches[0].processed_tokens + q.tokens
            &&& actions[n - 1] is RunHead <==> q.emit_logits
            &&& actions[n - 1] is Finish <==> !q.emit_logits
            &&& q.emit_logits ==> handed_on(states[n as int]) == handed_on(states[n - 1])
        },
    decreases n,
{
    assert(model.layers.len() == model.layers@.len());
    let m = (n - 1) as nat;
    assert(pass_follows(
        Ok((states[m as int + 1], actions[m as int])),
        caches[m as int + 1],
        model,
        q,
        states[m as int],
        caches[m as int],
    ));
    if m > 0 {
        let a = states.subrange(0, n as int);
        let b = actions.subrange(0, m as int);
        let c = caches.subrange(0, n as int);
        assert forall|i: int| 0 <= i < m implies #[trigger] pass_follows(
            Ok((a[i + 1], b[i])),
            c[i + 1],
            model,
            q,
            a[i],
            c[i],
        ) by {
            assert(pass_follows(
                Ok((states[i + 1], actions[i])),
                caches[i + 1],
                model,
                q,
                states[i],
                caches[i],
            ));
        }
        law_passes_run_every_layer_once(model, q, a, b, c, m);
    }
}

/// The views of two different slots or layers never share a byte; every view lies
/// in the pool and has as many whole blocks as it was asked for.
pub proof fn law_views_do_not_share_bytes(
    b: DeepseekBatchDecodeBuffers,
    slot: usize,
    layer: usize,
    blocks: usize,
    other_slot: usize,
    other_layer: usize,
    other_blocks: usize,
)
    requires
        b.fp8_kv_pool is Some,
        pool_view(b, slot, layer, blocks) is Ok,
        pool_view(b, other_slot, other_layer, other_blocks) is Ok,
    ensures
        ({
            let v = pool_view(b, slot, layer, blocks)->Ok_0;
            let w = pool_view(b, other_slot, other_layer, other_blocks)->Ok_0;
            &&& v.bytes == blocks * BLOCK_BYTES
            &&& v.offset + v.bytes <= b.fp8_kv_pool->Some_0
            &&& slot != other_slot || layer != other_layer ==> v.offset + v.bytes <= w.offset
                || w.offset + w.bytes <= v.offset
            &&& slot == other_slot && layer == other_layer ==> v.offset == w.offset
            &&& slot == other_slot && other_layer == layer + 1 ==> w.offset == v.offset
                + b.fp8_kv_slot_blocks * BLOCK_BYTES
            &&& other_slot == slot + 1 && other_layer == 0 && layer + 1 == b.fp8_kv_layers
                ==> w.offset == v.offset + b.fp8_kv_slot_blocks * BLOCK_BYTES
            &&& slot == 0 && layer == 0 ==> v.offset == 0
        }),
{
    lemma_view_is_exact(b, slot, layer, blocks);
    lemma_view_is_exact(b, other_slot, other_layer, other_blocks);
    let r = range_bytes(b);
    let m = b.fp8_kv_layers as int;
    if slot != other_slot || layer != other_layer {
        law_ranges_do_not_overlap(
            b,
            slot as int,
            layer as int,
            other_slot as int,
            other_layer as int,
        );
    }
    assert((slot * m + (layer + 1)) * r == (slot * m + layer) * r + r) by (nonlinear_arith);
    assert(layer + 1 == m ==> ((slot + 1) * m + 0) * r == (slot * m + layer) * r + r)
        by (nonlinear_arith);
    assert((0 * m + 0) * r == 0) by (nonlinear_arith);
}

proof fn lemma_view_is_exact(
    b: DeepseekBatchDecodeBuffers,
    slot: usize,
    layer: usize,
    blocks: usize,
)
    requires
        pool_view(b, slot, layer, blocks) is Ok,
    ensures
        pool_view(b, slot, layer, blocks)->Ok_0.offset == range_start(
            b,
            slot as int,
            layer as int,
        ),
        pool_view(b, slot, layer, blocks)->Ok_0.bytes == blocks * BLOCK_BYTES,
        blocks * BLOCK_BYTES <= range_bytes(b),
        slot < b.fp8_kv_slots,
        layer < b.fp8_kv_layers,
        range_start(b, slot as int, layer as int) + blocks * BLOCK_BYTES <= b.fp8_kv_pool->Some_0,
{
    let s = slot as int;
    let l = layer as int;
    let m = b.fp8_kv_layers as int;
    let r = range_bytes(b);
    assert(r >= 0) by (nonlinear_arith)
        requires
            r == b.fp8_kv_slot_blocks * BLOCK_BYTES,
    ;
    assert((s * m + l) * r >= 0) by (nonlinear_arith)
        requires
            s >= 0,
            m >= 0,
            l >= 0,
            r >= 0,
    ;
    assert(0 <= blocks * BLOCK_BYTES <= b.fp8_kv_slot_blocks * BLOCK_BYTES) by (nonlinear_arith)
        requires
            blocks <= b.fp8_kv_slot_blocks,
    ;
}

/// A pool has the bytes of all its ranges, as far as they can be counted.
pub proof fn law_pools_hold_all_ranges(num_slots: usize, layers: usize, slot_blocks: usize)
    requires
        num_slots * layers * slot_blocks * BLOCK_BYTES <= usize::MAX,
        slot_blocks > 0,
    ensures
        pool_bytes(num_slots, layers, slot_blocks) == num_slots * layers * slot_blocks
            * BLOCK_BYTES,
{
    let a = num_slots * layers;
    let c = a * slot_blocks;
    assert(a <= c <= c * BLOCK_BYTES && 0 <= a) by (nonlinear_arith)
        requires
            a == num_slots * layers,
            c == a * slot_blocks,
            slot_blocks > 0,
            BLOCK_BYTES >= 1,
    ;
}

/// What is made for decoding has a slot for every row of the largest batch and a
/// range for every layer, and takes what the scheduler reserved for it.
pub proof fn law_contexts_have_a_slot_per_row(
    model: DeepseekModel,
    max_batch_size: usize,
    max_seq_len: Option<usize>,
    shared_pool: bool,
    flash_decode: bool,
    slot_blocks: usize,
)
    ensures
        ({
            let seq_len = model.pool_seq_len(shared_pool, flash_decode, max_seq_len);
            let r = decode_context(
                max_batch_size,
                seq_len,
                model.layers@.len() as usize,
                slot_blocks,
            );
            &&& r == Err::<(DeepseekBatchDecodeBuffers, bool), DecodeBufferError>(
                DecodeBufferError::NoCapacity,
            ) <==> max_batch_size == 0
            &&& seq_len is Some <==> shared_pool && flash_decode && model.layers@.len() > 0
            &&& seq_len is Some && max_seq_len is Some ==> seq_len == max_seq_len
            &&& seq_len is Some && max_seq_len is None ==> seq_len == Some(
                model.config.spec.max_position_embeddings,
            )
            &&& r matches Ok((b, allocate)) ==> {
                &&& b.max_batch_size == max_batch_size
                &&& allocate <==> seq_len is Some
                &&& b.fp8_kv_pool is Some <==> seq_len is Some
                &&& b.fp8_kv_pool matches Some(bytes) ==> {
                    &&& bytes == model.reserved_bytes(
                        max_batch_size,
                        max_seq_len,
                        shared_pool,
                        flash_decode,
                        slot_blocks,
                    )
                    &&& b.fp8_kv_slots == max_batch_size
                    &&& b.fp8_kv_layers == model.layers@.len() as usize
                    &&& b.fp8_kv_slot_blocks == slot_blocks
                    &&& Some(b.fp8_kv_max_seq_len) == seq_len
                    &&& !pool_lacks(
                        b,
                        b.fp8_kv_slots,
                        b.fp8_kv_layers,
                        b.fp8_kv_slot_blocks,
                    )
                }
                &&& b.fp8_kv_pool is None ==> model.reserved_bytes(
                    max_batch_size,
                    max_seq_len,
                    shared_pool,
                    flash_decode,
                    slot_blocks,
                ) == 0
            }
        }),
{
}

proof fn lemma_bound_slot(b: DeepseekBatchDecodeBuffers, slot: usize, blocks: usize, n: int, j: int)
    requires
        slot_bindings(b, slot, blocks, n) is Ok,
        0 <= j < n,
    ensures
        slot_bindings(b, slot, blocks, n)->Ok_0.len() == n,
        slot_bindings(b, slot, blocks, n)->Ok_0[j].slot_idx == slot,
        slot_bindings(b, slot, blocks, n)->Ok_0[j].layer_idx == j as usize,
        pool_view(b, slot, j as usize, blocks) is Ok,
        slot_bindings(b, slot, blocks, n)->Ok_0[j].view == pool_view(
            b,
            slot,
            j as usize,
            blocks,
        )->Ok_0,
    decreases n,
{
    if n > 1 {
        lemma_bound_slot(
            b,
            slot,
            blocks,
            n - 1,
            if j < n - 1 {
                j
            } else {
                0
            },
        );
    }
    assert(slot_bindings(b, slot, blocks, n - 1) is Ok);
    if n == 1 {
        assert(slot_bindings(b, slot, blocks, 0)->Ok_0.len() == 0);
    }
}

/// A batch binds all layers of each of its slots, slot by slot and layer by layer,
/// each to its own range of the pool.
pub proof fn law_batches_bind_every_layer(
    b: DeepseekBatchDecodeBuffers,
    slots: Seq<usize>,
    states: usize,
    layers: usize,
    blocks: usize,
    n: int,
    i: int,
    j: int,
)
    requires
        batch_bindings(b, slots, states, layers, blocks, n) is Ok,
        0 <= i < n <= slots.len(),
        0 <= j < layers,
    ensures
        ({
            let list = batch_bindings(b, slots, states, layers, blocks, n)->Ok_0;
            &&& list.len() == n * layers
            &&& 0 <= i * layers + j < list.len()
            &&& list[i * layers + j].slot_idx == slots[i]
            &&& list[i * layers + j].layer_idx == j
            &&& pool_view(b, slots[i], j as usize, blocks) matches Ok(v) && list[i * layers
                + j].view == v
            &&& slots[i] < states
        }),
    decreases n,
{
    lemma_bound_slot(b, slots[n - 1], blocks, layers as int, j);
    assert(batch_bindings(b, slots, states, layers, blocks, n - 1) is Ok);
    let before = batch_bindings(b, slots, states, layers, blocks, n - 1)->Ok_0;
    if n > 1 {
        law_batches_bind_every_layer(
            b,
            slots,
            states,
            layers,
            blocks,
            n - 1,
            if i < n - 1 {
                i
            } else {
                0
            },
            j,
        );
    } else {
        assert(before.len() == 0);
    }
    let l = layers as int;
    assert((n - 1) * l + l == n * l) by (nonlinear_arith);
    assert(0 <= i * l + j) by (nonlinear_arith)
        requires
            0 <= i,
            0 <= j,
            0 <= l,
    ;
    assert(i < n - 1 ==> i * l + j < (n - 1) * l) by (nonlinear_arith)
        requires
            0 <= j < l,
            0 <= i,
    ;
    assert(i == n - 1 ==> i * l == (n - 1) * l);
    assert(n == 1 ==> (n - 1) * l == 0) by (nonlinear_arith);
}

/// A batch runs with the ranges of all layers of all its slots bound, or with none
/// where there is no pool; it is refused where a token has no slot.
pub proof fn law_batches_need_a_slot_per_token(
    r: Result<DecodeBatch, DecodeBatchError>,
    tokens: nat,
    slots: Seq<usize>,
    states: usize,
    layers: usize,
    context: DeepseekBatchDecodeBuffers,
    slot_blocks: usize,
)
    requires
        is_decode_batch(r, tokens, slots, states, layers, context, slot_blocks),
    ensures
        r matches Ok(batch) ==> {
            &&& tokens == slots.len()
            &&& batch is Nothing <==> tokens == 0
        },
        r matches Ok(DecodeBatch::Run(bound)) ==> {
            &&& context.fp8_kv_pool is None ==> bound@.len() == 0
            &&& context.fp8_kv_pool is Some && layers > 0 ==> bound@.len() == tokens * layers
        },
        tokens != slots.len() ==> r is Err,
{
    if r is Ok && tokens == slots.len() && tokens > 0 && context.fp8_kv_pool is Some && layers > 0 {
        law_batches_bind_every_layer(
            context,
            slots,
            states,
            layers,
            slot_blocks,
            slots.len() as int,
            0,
            0,
        );
    }
}

/// The scheduler charges for every layer with compressed rows of the whole context,
/// by the smallest ratio among them, and for one layer and one value at least.
pub proof fn law_compressed_layers_are_charged(model: DeepseekModel)
    requires
        model.layers_described(),
    ensures
        ({
            let modes = model.config.spec.attention_modes@;
            let hybrid = modes.filter(|m: AttentionMode| m == AttentionMode::HybridCompressed);
            &&& hybrid.len() > 0 ==> model.charged_layers() == hybrid.len()
            &&& hybrid.len() == 0 ==> model.charged_layers() == 1
        }),
        ({
            let spec = model.config.spec;
            let modes = spec.attention_modes@;
            let ratios = spec.compress_ratios@;
            let smallest = smallest_hybrid_ratio(ratios, modes, ratios.len() as int);
            &&& smallest is None <==> (forall|i: int|
                0 <= i < modes.len() ==> #[trigger] modes[i] != AttentionMode::HybridCompressed)
            &&& smallest matches Some(r) ==> {
                &&& forall|i: int|
                    0 <= i < modes.len() && modes[i] == AttentionMode::HybridCompressed ==> r
                        <= #[trigger] ratios[i]
                &&& exists|i: int|
                    0 <= i < modes.len() && modes[i] == AttentionMode::HybridCompressed
                        && #[trigger] ratios[i] == r
                &&& r > 0 && spec.head_dim > 0 ==> {
                    &&& model.charged_dim() * r >= spec.head_dim
                    &&& (model.charged_dim() - 1) * r < spec.head_dim
                }
            }
            &&& smallest is None && spec.head_dim > 0 ==> {
                &&& model.charged_dim() * 128 >= spec.head_dim
                &&& (model.charged_dim() - 1) * 128 < spec.head_dim
            }
            &&& model.charged_dim() >= 1
        }),
{
    let spec = model.config.spec;
    let modes = spec.attention_modes@;
    let ratios = spec.compress_ratios@;
    lemma_hybrid_layers(modes, modes.len() as int);
    assert(modes.subrange(0, modes.len() as int) =~= modes);
    lemma_smallest_ratio(ratios, modes, ratios.len() as int);
    let smallest = smallest_hybrid_ratio(ratios, modes, ratios.len() as int);
    if spec.head_dim > 0 {
        lemma_ceiling(spec.head_dim as nat, 128);
        if smallest is Some && smallest->Some_0 > 0 {
            lemma_ceiling(spec.head_dim as nat, smallest->Some_0 as nat);
        }
    }
}

proof fn lemma_hybrid_layers(modes: Seq<AttentionMode>, n: int)
    requires
        0 <= n <= modes.len(),
    ensures
        hybrid_layers(modes, n) == modes.subrange(0, n).filter(
            |m: AttentionMode| m == AttentionMode::HybridCompressed,
        ).len(),
    decreases n,
{
    reveal(Seq::filter);
    if n > 0 {
        lemma_hybrid_layers(modes, n - 1);
        assert(modes.subrange(0, n).drop_last() =~= modes.subrange(0, n - 1));
    }
}

proof fn lemma_smallest_ratio(ratios: Seq<usize>, modes: Seq<AttentionMode>, n: int)
    requires
        0 <= n <= modes.len(),
        modes.len() == ratios.len(),
    ensures
        ({
            let smallest = smallest_hybrid_ratio(ratios, modes, n);
            &&& smallest is None <==> (forall|i: int|
                0 <= i < n ==> #[trigger] modes[i] != AttentionMode::HybridCompressed)
            &&& smallest matches Some(r) ==> {
                &&& forall|i: int|
                    0 <= i < n && modes[i] == AttentionMode::HybridCompressed ==> r
                        <= #[trigger] ratios[i]
                &&& exists|i: int|
                    0 <= i < n && modes[i] == AttentionMode::HybridCompressed
                        && #[trigger] ratios[i] == r
            }
        }),
    decreases n,
{
    if n > 0 {
        lemma_smallest_ratio(ratios, modes, n - 1);
        assert(modes[n - 1] == modes[n - 1] && ratios[n - 1] == ratios[n - 1]);
    }
}

proof fn lemma_ceiling(a: nat, b: nat)
    requires
        a > 0,
        b > 0,
    ensures
        ceil_div(a, b) * b >= a,
        (ceil_div(a, b) - 1) * b < a,
        ceil_div(a, b) >= 1,
{
    let q = a / b;
    let r = a % b;
    assert(a == q * b + r && 0 <= r < b) by {
        vstd::arithmetic::div_mod::lemma_fundamental_div_mod(a as int, b as int);
        assert(b * q == q * b) by (nonlinear_arith);
    }
    assert((q + 1) * b == q * b + b) by (nonlinear_arith);
    assert((q - 1) * b == q * b - b) by (nonlinear_arith);
    if r == 0 {
        assert(q >= 1) by (nonlinear_arith)
            requires
                a == q * b + r,
                a > 0,
                r == 0,
                q >= 0,
        ;
    }
}

} // verus!
