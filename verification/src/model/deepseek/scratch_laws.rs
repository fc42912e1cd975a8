//! What the kept buffers promise: they hold the step that they were asked for, they
//! are kept as long as they do, and new ones are no larger than asked.

use vstd::prelude::*;

use crate::arith::ceil_div;
use crate::model::deepseek::scratch::{
    deepgemm_error, dispatch_countable, ensured_active, ensured_deepgemm, ensured_dispatch,
    ensured_dispatch_payload, ensured_expert, ensured_grouped, ensured_hidden,
    ensured_local_route, ensured_mhc, ensured_native_deepep, ensured_recv_route,
    ensured_route_combine, ensured_route_logits, ensured_send_route, mhc_countable,
    recv_route_countable, route_combine_countable, taken_hidden,
    DeepseekDeepGemmExpertRuntimeScratch, DeepseekDispatchPayloadRuntimeScratch,
    DeepseekDispatchRuntimeScratch, DeepseekExpertRuntimeScratch,
    DeepseekGroupedExpertActiveScratch, DeepseekGroupedExpertRuntimeScratch,
    DeepseekHiddenRuntimeScratch, DeepseekLocalRouteRuntimeScratch, DeepseekMhcRuntimeScratch,
    DeepseekNativeDeepEpRuntimeScratch, DeepseekRecvRouteRuntimeScratch,
    DeepseekRouteCombineRuntimeScratch, DeepseekRouteLogitsRuntimeScratch,
    DeepseekSendRouteRuntimeScratch,
};

verus! {

/// Every buffer of one expert has room for what the whole claims.
pub open spec fn sound_expert(s: DeepseekExpertRuntimeScratch) -> bool {
    &&& s.input.hidden_dim == s.hidden_dim
    &&& s.gate.hidden_dim == s.up.hidden_dim == s.act.hidden_dim == s.intermediate_dim
    &&& s.out.hidden_dim == s.output_dim
    &&& s.input.seq_len >= s.capacity_tokens && s.out.seq_len >= s.capacity_tokens
    &&& s.gate.seq_len >= s.capacity_tokens && s.up.seq_len >= s.capacity_tokens
    &&& s.act.seq_len >= s.capacity_tokens
}

/// The buffers of one expert hold what they were asked for; they are kept where they
/// already do, and are otherwise made for just that.
pub proof fn law_expert_buffers_hold_the_step(
    slot: Option<DeepseekExpertRuntimeScratch>,
    hidden_dim: usize,
    intermediate_dim: usize,
    output_dim: usize,
    capacity_tokens: usize,
)
    requires
        slot matches Some(s) ==> sound_expert(s),
    ensures
        ({
            let e = ensured_expert(slot, hidden_dim, intermediate_dim, output_dim, capacity_tokens);
            let serves = slot matches Some(s) && s.capacity_tokens >= capacity_tokens
                && s.capacity_tokens >= 1 && s.hidden_dim == hidden_dim
                && s.intermediate_dim == intermediate_dim && s.output_dim == output_dim;
            &&& sound_expert(e)
            &&& e.capacity_tokens >= capacity_tokens
            &&& e.hidden_dim == hidden_dim
            &&& e.intermediate_dim == intermediate_dim
            &&& e.output_dim == output_dim
            &&& serves ==> slot == Some(e)
            &&& !serves ==> e.capacity_tokens == (if capacity_tokens == 0 {
                1
            } else {
                capacity_tokens
            })
        }),
{
}

/// Every buffer of a group of experts has room for what the whole claims.
pub open spec fn sound_grouped(s: DeepseekGroupedExpertRuntimeScratch) -> bool {
    &&& s.gate.hidden_dim == s.up.hidden_dim == s.act.hidden_dim == s.intermediate_dim
    &&& s.out.hidden_dim == s.hidden_dim
    &&& s.gate.seq_len >= s.capacity_routes && s.up.seq_len >= s.capacity_routes
    &&& s.act.seq_len >= s.capacity_routes && s.out.seq_len >= s.capacity_routes
}

/// The buffers of a group of experts hold what they were asked for; they are kept where they
/// already do, and are otherwise made for just that.
pub proof fn law_grouped_buffers_hold_the_step(
    slot: Option<DeepseekGroupedExpertRuntimeScratch>,
    hidden_dim: usize,
    intermediate_dim: usize,
    capacity_routes: usize,
)
    requires
        slot matches Some(s) ==> sound_grouped(s),
    ensures
        ({
            let e = ensured_grouped(slot, hidden_dim, intermediate_dim, capacity_routes);
            let serves = slot matches Some(s) && s.capacity_routes >= capacity_routes
                && s.capacity_routes >= 1 && s.hidden_dim == hidden_dim
                && s.intermediate_dim == intermediate_dim;
            &&& sound_grouped(e)
            &&& e.capacity_routes >= capacity_routes
            &&& e.hidden_dim == hidden_dim
            &&& e.intermediate_dim == intermediate_dim
            &&& serves ==> slot == Some(e)
            &&& !serves ==> e.capacity_routes == (if capacity_routes == 0 {
                1
            } else {
                capacity_routes
            })
        }),
{
}

/// Every buffer of the combination of routes has room for what the whole claims.
pub open spec fn sound_route_combine(s: DeepseekRouteCombineRuntimeScratch) -> bool {
    &&& s.combine_recv.hidden_dim == s.route_slot_out.hidden_dim == s.hidden_dim
    &&& s.combine_recv.seq_len >= s.capacity_routes
    &&& s.route_slot_out.seq_len >= s.capacity_routes
    &&& s.combine_fp8_send >= s.hidden_dim * s.capacity_routes
    &&& s.combine_fp8_recv >= s.hidden_dim * s.capacity_routes
    &&& s.combine_scale_send >= s.capacity_routes && s.combine_scale_recv >= s.capacity_routes
}

/// The buffers of the combination of routes hold what they were asked for; they are kept where they
/// already do, and are otherwise made for just that.
pub proof fn law_route_combine_buffers_hold_the_step(
    slot: Option<DeepseekRouteCombineRuntimeScratch>,
    hidden_dim: usize,
    capacity_routes: usize,
)
    requires
        slot matches Some(s) ==> sound_route_combine(s),
        route_combine_countable(hidden_dim, capacity_routes),
    ensures
        ({
            let e = ensured_route_combine(slot, hidden_dim, capacity_routes);
            let serves = slot matches Some(s) && s.capacity_routes >= capacity_routes
                && s.capacity_routes >= 1 && s.hidden_dim == hidden_dim;
            &&& sound_route_combine(e)
            &&& e.capacity_routes >= capacity_routes
            &&& e.hidden_dim == hidden_dim
            &&& serves ==> slot == Some(e)
            &&& !serves ==> e.capacity_routes == (if capacity_routes == 0 {
                1
            } else {
                capacity_routes
            })
        }),
{
}

/// Every buffer of the router logits has room for what the whole claims.
pub open spec fn sound_route_logits(s: DeepseekRouteLogitsRuntimeScratch) -> bool {
    &&& s.logits.hidden_dim == s.n_experts
    &&& s.logits.seq_len >= s.capacity_tokens
}

/// The buffers of the router logits hold what they were asked for; they are kept where they
/// already do, and are otherwise made for just that.
pub proof fn law_route_logits_buffers_hold_the_step(
    slot: Option<DeepseekRouteLogitsRuntimeScratch>,
    n_experts: usize,
    capacity_tokens: usize,
)
    requires
        slot matches Some(s) ==> sound_route_logits(s),
    ensures
        ({
            let e = ensured_route_logits(slot, n_experts, capacity_tokens);
            let serves = slot matches Some(s) && s.capacity_tokens >= capacity_tokens
                && s.capacity_tokens >= 1 && s.n_experts == n_experts;
            &&& sound_route_logits(e)
            &&& e.capacity_tokens >= capacity_tokens
            &&& e.n_experts == n_experts
            &&& serves ==> slot == Some(e)
            &&& !serves ==> e.capacity_tokens == (if capacity_tokens == 0 {
                1
            } else {
                capacity_tokens
            })
        }),
{
}

/// Every buffer of the routes that leave a rank has room for what the whole claims.
pub open spec fn sound_send_route(s: DeepseekSendRouteRuntimeScratch) -> bool {
    &&& s.send_token >= s.capacity_routes
    &&& s.send_route_slot >= s.capacity_routes
}

/// The buffers of the routes that leave a rank hold what they were asked for; they are kept where they
/// already do, and are otherwise made for just that.
pub proof fn law_send_route_buffers_hold_the_step(
    slot: Option<DeepseekSendRouteRuntimeScratch>,
    capacity_routes: usize,
)
    requires
        slot matches Some(s) ==> sound_send_route(s),
    ensures
        ({
            let e = ensured_send_route(slot, capacity_routes);
            let serves = slot matches Some(s) && s.capacity_routes >= capacity_routes
                && s.capacity_routes >= 1;
            &&& sound_send_route(e)
            &&& e.capacity_routes >= capacity_routes
            &&& serves ==> slot == Some(e)
            &&& !serves ==> e.capacity_routes == (if capacity_routes == 0 {
                1
            } else {
                capacity_routes
            })
        }),
{
}

/// Every buffer of the routes that a rank receives has room for what the whole claims.
pub open spec fn sound_recv_route(s: DeepseekRecvRouteRuntimeScratch) -> bool {
    &&& s.recv_hidden.hidden_dim == s.route_out.hidden_dim == s.hidden_dim
    &&& s.recv_hidden.seq_len >= s.capacity_routes && s.route_out.seq_len >= s.capacity_routes
    &&& s.recv_meta >= s.capacity_routes * 3
}

/// The buffers of the routes that a rank receives hold what they were asked for; they are kept where they
/// already do, and are otherwise made for just that.
pub proof fn law_recv_route_buffers_hold_the_step(
    slot: Option<DeepseekRecvRouteRuntimeScratch>,
    hidden_dim: usize,
    capacity_routes: usize,
)
    requires
        slot matches Some(s) ==> sound_recv_route(s),
        recv_route_countable(hidden_dim, capacity_routes),
    ensures
        ({
            let e = ensured_recv_route(slot, hidden_dim, capacity_routes);
            let serves = slot matches Some(s) && s.capacity_routes >= capacity_routes
                && s.capacity_routes >= 1 && s.hidden_dim == hidden_dim;
            &&& sound_recv_route(e)
            &&& e.capacity_routes >= capacity_routes
            &&& e.hidden_dim == hidden_dim
            &&& serves ==> slot == Some(e)
            &&& !serves ==> e.capacity_routes == (if capacity_routes == 0 {
                1
            } else {
                capacity_routes
            })
        }),
{
}

/// Every buffer of the routes of one rank has room for what the whole claims.
pub open spec fn sound_local_route(s: DeepseekLocalRouteRuntimeScratch) -> bool {
    &&& s.expert_hidden.hidden_dim == s.route_out.hidden_dim == s.hidden_dim
    &&& s.expert_hidden.seq_len >= s.capacity_routes && s.route_out.seq_len >= s.capacity_routes
    &&& s.expert_weight >= s.capacity_routes && s.expert_route_slot >= s.capacity_routes
}

/// The buffers of the routes of one rank hold what they were asked for; they are kept where they
/// already do, and are otherwise made for just that.
pub proof fn law_local_route_buffers_hold_the_step(
    slot: Option<DeepseekLocalRouteRuntimeScratch>,
    hidden_dim: usize,
    capacity_routes: usize,
)
    requires
        slot matches Some(s) ==> sound_local_route(s),
    ensures
        ({
            let e = ensured_local_route(slot, hidden_dim, capacity_routes);
            let serves = slot matches Some(s) && s.capacity_routes >= capacity_routes
                && s.capacity_routes >= 1 && s.hidden_dim == hidden_dim;
            &&& sound_local_route(e)
            &&& e.capacity_routes >= capacity_routes
            &&& e.hidden_dim == hidden_dim
            &&& serves ==> slot == Some(e)
            &&& !serves ==> e.capacity_routes == (if capacity_routes == 0 {
                1
            } else {
                capacity_routes
            })
        }),
{
}

/// Every buffer of the list of active experts has room for what the whole claims.
pub open spec fn sound_active(s: DeepseekGroupedExpertActiveScratch) -> bool {
    &&& s.indices >= s.capacity_experts
    &&& s.offsets >= s.capacity_experts
    &&& s.counts >= s.capacity_experts
}

/// The buffers of the list of active experts hold what they were asked for; they are kept where they
/// already do, and are otherwise made for just that.
pub proof fn law_active_buffers_hold_the_step(
    slot: Option<DeepseekGroupedExpertActiveScratch>,
    capacity_experts: usize,
)
    requires
        slot matches Some(s) ==> sound_active(s),
    ensures
        ({
            let e = ensured_active(slot, capacity_experts);
            let serves = slot matches Some(s) && s.capacity_experts >= capacity_experts
                && s.capacity_experts >= 1;
            &&& sound_active(e)
            &&& e.capacity_experts >= capacity_experts
            &&& serves ==> slot == Some(e)
            &&& !serves ==> e.capacity_experts == (if capacity_experts == 0 {
                1
            } else {
                capacity_experts
            })
        }),
{
}

/// Every buffer of a hyper-connection has room for what the whole claims.
pub open spec fn sound_mhc(s: DeepseekMhcRuntimeScratch) -> bool {
    &&& s.mixes.hidden_dim == s.mix_dim
    &&& s.pre >= s.capacity_tokens * s.hc_mult
    &&& s.post >= s.capacity_tokens * s.hc_mult
    &&& s.comb >= s.capacity_tokens * s.hc_mult * s.hc_mult
}

/// The buffers of a hyper-connection hold what they were asked for; they are kept where they
/// already do, and are otherwise made for just that.
pub proof fn law_mhc_buffers_hold_the_step(
    slot: Option<DeepseekMhcRuntimeScratch>,
    stream_hidden_dim: usize,
    mix_dim: usize,
    hc_mult: usize,
    capacity_tokens: usize,
)
    requires
        slot matches Some(s) ==> sound_mhc(s),
        mhc_countable(stream_hidden_dim, mix_dim, hc_mult, capacity_tokens),
    ensures
        ({
            let e = ensured_mhc(slot, stream_hidden_dim, mix_dim, hc_mult, capacity_tokens);
            let serves = slot matches Some(s) && s.capacity_tokens >= capacity_tokens
                && s.capacity_tokens >= 1 && s.stream_hidden_dim == stream_hidden_dim
                && s.mix_dim == mix_dim && s.hc_mult == hc_mult;
            &&& sound_mhc(e)
            &&& e.capacity_tokens >= capacity_tokens
            &&& e.stream_hidden_dim == stream_hidden_dim
            &&& e.mix_dim == mix_dim
            &&& e.hc_mult == hc_mult
            &&& serves ==> slot == Some(e)
            &&& !serves ==> e.capacity_tokens == (if capacity_tokens == 0 {
                1
            } else {
                capacity_tokens
            })
        }),
{
}

/// Every buffer of the dispatch has room for what the whole claims.
pub open spec fn sound_dispatch(s: DeepseekDispatchRuntimeScratch) -> bool {
    &&& s.capacity_routes >= s.capacity_tokens * s.topk
    &&& s.token_ids >= s.capacity_tokens
    &&& s.route_indices >= s.capacity_routes && s.route_weights >= s.capacity_routes
    &&& s.send_rank_counts >= s.ep_world && s.send_rank_offsets >= s.ep_world
    &&& s.rank_cursors >= s.ep_world && s.recv_rank_counts >= s.ep_world
    &&& s.all_rank_counts >= s.ep_world * s.ep_world
    &&& s.send_hidden.hidden_dim == s.hidden_dim && s.send_hidden.seq_len >= s.capacity_routes
    &&& s.send_meta >= s.capacity_routes * 3
    &&& s.local_counts >= s.experts_per_rank && s.local_offsets >= s.experts_per_rank
    &&& s.local_cursors >= s.experts_per_rank
}

/// The buffers of the dispatch hold every route of the tokens that they were asked
/// for; they are kept where they already do.
pub proof fn law_dispatch_buffers_hold_the_step(
    slot: Option<DeepseekDispatchRuntimeScratch>,
    hidden_dim: usize,
    capacity_tokens: usize,
    topk: usize,
    ep_world: usize,
    experts_per_rank: usize,
)
    requires
        slot matches Some(s) ==> sound_dispatch(s),
        dispatch_countable(hidden_dim, capacity_tokens, topk, ep_world, experts_per_rank),
        0 < capacity_tokens,
        capacity_tokens * topk <= usize::MAX,
    ensures
        ({
            let e = ensured_dispatch(
                slot,
                hidden_dim,
                capacity_tokens,
                topk,
                ep_world,
                experts_per_rank,
            );
            let serves = slot matches Some(s) && s.capacity_tokens >= capacity_tokens
                && s.capacity_routes >= capacity_tokens * topk && s.capacity_routes >= 1
                && s.hidden_dim == hidden_dim && s.topk == topk && s.ep_world == ep_world
                && s.experts_per_rank == experts_per_rank;
            &&& sound_dispatch(e)
            &&& e.capacity_tokens >= capacity_tokens
            &&& e.capacity_routes >= capacity_tokens * topk
            &&& e.hidden_dim == hidden_dim
            &&& e.topk == topk
            &&& e.ep_world == ep_world
            &&& e.experts_per_rank == experts_per_rank
            &&& serves ==> slot == Some(e)
            &&& !serves ==> e.capacity_tokens == capacity_tokens
        }),
{
    assert(capacity_tokens * topk >= 0) by (nonlinear_arith);
}

/// Every buffer of the native dispatch has room for what the whole claims.
pub open spec fn sound_native(s: DeepseekNativeDeepEpRuntimeScratch) -> bool {
    let recv = s.capacity_recv;
    let tokens = s.capacity_tokens;
    &&& s.topk_idx_i64 >= tokens * s.topk && s.combined_topk_w >= tokens * s.topk
    &&& s.recv_x.hidden_dim == s.expert_out.hidden_dim == s.hidden_dim
    &&& s.combined_x.hidden_dim == s.packed_x.hidden_dim == s.hidden_dim
    &&& s.recv_x.seq_len >= recv && s.expert_out.seq_len >= recv && s.recv_src_idx >= recv
    &&& s.combined_x.seq_len >= tokens
    &&& s.recv_topk_idx >= recv * s.topk && s.recv_topk_w >= recv * s.topk
    &&& s.recv_topk_idx_i32 >= recv * s.topk
    &&& s.packed_x.seq_len >= recv * s.topk && s.packed_token >= recv * s.topk
    &&& s.packed_weight >= recv * s.topk
    &&& s.rank_prefix >= s.ep_world * s.ep_world
    &&& s.recv_channel_prefix >= s.ep_world * s.num_channels
    &&& s.channel_prefix_matrix >= s.ep_world * s.num_channels
    &&& s.send_head >= tokens * s.ep_world && s.is_token_in_rank >= tokens * s.ep_world
    &&& s.num_tokens_per_rank >= s.ep_world && s.num_tokens_per_expert >= s.num_experts
    &&& s.local_counts >= s.experts_per_rank && s.local_offsets >= s.experts_per_rank
    &&& s.local_cursors >= s.experts_per_rank
}

/// The buffers of the native dispatch hold every token from every rank, as far as
/// the sizes can be counted; they are kept where they already do.
pub proof fn law_native_buffers_hold_the_step(
    slot: Option<DeepseekNativeDeepEpRuntimeScratch>,
    hidden_dim: usize,
    capacity_tokens: usize,
    topk: usize,
    ep_world: usize,
    num_experts: usize,
    num_channels: usize,
    experts_per_rank: usize,
)
    requires
        slot matches Some(s) ==> sound_native(s),
        0 < capacity_tokens && 0 < topk && 0 < ep_world && 0 < num_experts && 0 < num_channels
            && 0 < experts_per_rank,
        capacity_tokens * ep_world <= usize::MAX,
        capacity_tokens * topk <= usize::MAX,
        capacity_tokens * ep_world * topk <= usize::MAX,
        ep_world * ep_world <= usize::MAX,
        ep_world * num_channels <= usize::MAX,
    ensures
        ({
            let e = ensured_native_deepep(
                slot,
                hidden_dim,
                capacity_tokens,
                topk,
                ep_world,
                num_experts,
                num_channels,
                experts_per_rank,
            );
            let serves = slot matches Some(s) && s.capacity_tokens >= capacity_tokens
                && s.capacity_recv >= capacity_tokens * ep_world && s.hidden_dim == hidden_dim
                && s.topk == topk && s.ep_world == ep_world && s.num_experts == num_experts
                && s.num_channels == num_channels && s.experts_per_rank == experts_per_rank;
            &&& sound_native(e)
            &&& e.capacity_tokens >= capacity_tokens
            &&& e.capacity_recv >= capacity_tokens * ep_world
            &&& e.hidden_dim == hidden_dim
            &&& e.topk == topk
            &&& e.ep_world == ep_world
            &&& e.num_experts == num_experts
            &&& e.num_channels == num_channels
            &&& e.experts_per_rank == experts_per_rank
            &&& serves ==> slot == Some(e)
            &&& !serves ==> e.capacity_tokens == capacity_tokens && e.capacity_recv
                == capacity_tokens * ep_world
        }),
{
    assert(capacity_tokens * ep_world >= 1) by (nonlinear_arith)
        requires
            capacity_tokens >= 1,
            ep_world >= 1,
    ;
    assert(capacity_tokens * ep_world * topk >= 1) by (nonlinear_arith)
        requires
            capacity_tokens * ep_world >= 1,
            topk >= 1,
    ;
}

/// Every buffer of the payload has room for what the whole claims.
pub open spec fn sound_payload(s: DeepseekDispatchPayloadRuntimeScratch) -> bool {
    &&& s.send_payload >= s.capacity_routes * s.stride_elems
    &&& s.recv_payload >= s.capacity_routes * s.stride_elems
}

/// The payload has a stride per route, as far as its size can be counted; it is
/// kept where it already has.
pub proof fn law_payload_buffers_hold_the_step(
    slot: Option<DeepseekDispatchPayloadRuntimeScratch>,
    capacity_routes: usize,
    stride_elems: usize,
)
    requires
        slot matches Some(s) ==> sound_payload(s),
        0 < capacity_routes && 0 < stride_elems,
        capacity_routes * stride_elems <= usize::MAX,
    ensures
        ({
            let e = ensured_dispatch_payload(slot, capacity_routes, stride_elems);
            let serves = slot matches Some(s) && s.capacity_routes >= capacity_routes
                && s.stride_elems == stride_elems;
            &&& sound_payload(e)
            &&& e.capacity_routes >= capacity_routes
            &&& e.stride_elems == stride_elems
            &&& serves ==> slot == Some(e)
            &&& !serves ==> e.capacity_routes == capacity_routes
        }),
{
}

/// The buffers of the grouped products have a row per expert and place, values and
/// scales for all of them, and a stride of scales that is a multiple of four and no
/// shorter than the rows of an expert, nor longer than needed.
pub proof fn law_deepgemm_buffers_hold_the_step(
    slot: Option<DeepseekDeepGemmExpertRuntimeScratch>,
    capacity_experts: usize,
    capacity_m: usize,
    hidden_dim: usize,
    intermediate_dim: usize,
)
    requires
        0 < capacity_experts && 0 < capacity_m,
        deepgemm_error(capacity_experts, capacity_m, hidden_dim, intermediate_dim) is None,
        slot is None,
    ensures
        ({
            let e = ensured_deepgemm(
                slot,
                capacity_experts,
                capacity_m,
                hidden_dim,
                intermediate_dim,
            );
            &&& e.capacity_experts == capacity_experts
            &&& e.capacity_m == capacity_m
            &&& e.hidden_dim == hidden_dim
            &&& e.intermediate_dim == intermediate_dim
            &&& e.scale_stride_m % 4 == 0
            &&& capacity_m <= e.scale_stride_m < capacity_m + 4
            &&& e.input_fp8 == capacity_experts * capacity_m * hidden_dim
            &&& e.act_fp8 == capacity_experts * capacity_m * intermediate_dim
            &&& e.input_scales * 128 >= capacity_experts * e.scale_stride_m * hidden_dim
            &&& e.act_scales * 128 >= capacity_experts * e.scale_stride_m * intermediate_dim
            &&& e.w13_out.hidden_dim == 2 * intermediate_dim
            &&& e.out_padded.hidden_dim == e.out_compact.hidden_dim == hidden_dim
            &&& e.w13_out.seq_len == e.out_padded.seq_len == e.out_compact.seq_len
                == capacity_experts * capacity_m
            &&& e.masked_m == capacity_experts
        }),
{
    lemma_blocks(capacity_m as int, 4);
    lemma_blocks(hidden_dim as int, 128);
    lemma_blocks(intermediate_dim as int, 128);
    let experts = capacity_experts as int;
    let stride = ceil_div(capacity_m as nat, 4) * 4;
    let rows = experts * capacity_m;
    lemma_scales(experts * stride, hidden_dim as int);
    lemma_scales(experts * stride, intermediate_dim as int);
    assert(experts * stride >= 0) by (nonlinear_arith)
        requires
            experts >= 0,
            stride >= 0,
    ;
    assert(rows >= 0) by (nonlinear_arith)
        requires
            rows == experts * capacity_m,
            experts >= 0,
    ;
    assert(rows * hidden_dim >= 0 && rows * intermediate_dim >= 0) by (nonlinear_arith)
        requires
            rows >= 0,
    ;
}

proof fn lemma_blocks(n: int, size: int)
    requires
        0 <= n,
        0 < size,
    ensures
        ceil_div(n as nat, size as nat) * size >= n,
        ceil_div(n as nat, size as nat) * size < n + size,
        (ceil_div(n as nat, size as nat) * size) % size == 0,
{
    let q = n / size;
    let r = n % size;
    vstd::arithmetic::div_mod::lemma_fundamental_div_mod(n, size);
    assert(size * q == q * size) by (nonlinear_arith);
    assert((q + 1) * size == q * size + size) by (nonlinear_arith);
    let c = ceil_div(n as nat, size as nat) as int;
    vstd::arithmetic::div_mod::lemma_mod_multiples_basic(c, size);
}

proof fn lemma_scales(rows: int, dim: int)
    requires
        0 <= dim,
    ensures
        rows >= 0 ==> rows * ceil_div(dim as nat, 128) * 128 >= rows * dim,
        rows >= 0 ==> rows * ceil_div(dim as nat, 128) >= 0,
{
    lemma_blocks(dim, 128);
    let c = ceil_div(dim as nat, 128) as int;
    assert(rows >= 0 ==> rows * c * 128 >= rows * dim && rows * c >= 0) by (nonlinear_arith)
        requires
            c * 128 >= dim,
            c >= 0,
    ;
}

/// A stream's buffer has the rows of the step in use and the width that was asked
/// for; it is kept where it has room, and is otherwise made for the step.
pub proof fn law_hidden_buffers_hold_the_step(
    slot: Option<DeepseekHiddenRuntimeScratch>,
    hidden_dim: usize,
    seq_len: usize,
)
    requires
        slot matches Some(s) ==> s.hidden.hidden_dim == s.hidden_dim,
    ensures
        ({
            let e = ensured_hidden(slot, hidden_dim, seq_len);
            let t = taken_hidden(slot, hidden_dim, seq_len);
            let serves = slot matches Some(s) && s.capacity_tokens >= seq_len
                && s.capacity_tokens >= 1 && s.hidden_dim == hidden_dim;
            &&& e.hidden.seq_len == seq_len
            &&& e.hidden.hidden_dim == e.hidden_dim == hidden_dim
            &&& e.capacity_tokens >= seq_len
            &&& t.hidden.hidden_dim == t.hidden_dim == hidden_dim
            &&& t.capacity_tokens == e.capacity_tokens
            &&& seq_len > 0 ==> t == e
            &&& serves ==> e.capacity_tokens == slot->Some_0.capacity_tokens
            &&& !serves ==> e.capacity_tokens == (if seq_len == 0 { 1 } else { seq_len })
        }),
{
}

/// The buffers of the grouped products are kept where they have room, with the rows
/// of the step in use, and are otherwise made like first ones.
pub proof fn law_deepgemm_buffers_are_kept(
    s: DeepseekDeepGemmExpertRuntimeScratch,
    capacity_experts: usize,
    capacity_m: usize,
    hidden_dim: usize,
    intermediate_dim: usize,
)
    requires
        0 < capacity_experts && 0 < capacity_m,
        capacity_experts * capacity_m <= usize::MAX,
    ensures
        ({
            let e = ensured_deepgemm(
                Some(s),
                capacity_experts,
                capacity_m,
                hidden_dim,
                intermediate_dim,
            );
            let serves = s.capacity_experts >= capacity_experts && s.capacity_m >= capacity_m
                && s.hidden_dim == hidden_dim && s.intermediate_dim == intermediate_dim;
            &&& serves ==> {
                &&& e.w13_out.seq_len == e.out_padded.seq_len == e.out_compact.seq_len
                    == capacity_experts * capacity_m
                &&& e == (DeepseekDeepGemmExpertRuntimeScratch {
                    w13_out: e.w13_out,
                    out_padded: e.out_padded,
                    out_compact: e.out_compact,
                    ..s
                })
                &&& e.w13_out.hidden_dim == s.w13_out.hidden_dim
                &&& e.out_padded.hidden_dim == s.out_padded.hidden_dim
                &&& e.out_compact.hidden_dim == s.out_compact.hidden_dim
            }
            &&& !serves ==> e == ensured_deepgemm(
                None,
                capacity_experts,
                capacity_m,
                hidden_dim,
                intermediate_dim,
            )
        }),
{
    assert(capacity_experts * capacity_m >= 0) by (nonlinear_arith);
}

} // verus!
