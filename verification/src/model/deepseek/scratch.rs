//! Buffers that a request keeps between steps.
//!
//! Every buffer is described by its size. The caller allocates device memory
//! of those sizes whenever a function here says so, and keeps it as long as
//! the description stays.

use vstd::prelude::*;

use crate::arith::{ceil_div, larger, saturating_product};
use crate::arith::{div_ceil, max, saturating_mul};
use crate::model::deepseek::device::HiddenShape;

verus! {

/// A capacity is never zero.
pub open spec fn at_least_one(n: usize) -> usize {
    larger(n as nat, 1) as usize
}

/// A product that stops at the largest size.
pub open spec fn capped(a: usize, b: usize) -> usize {
    saturating_product(a as nat, b as nat, usize::MAX as nat) as usize
}

/// Buffers of the dispatch of tokens to the ranks that hold their experts.
#[derive(Clone, Copy, Debug, PartialEq, Eq, Structural)]
pub struct DeepseekDispatchRuntimeScratch {
    pub capacity_tokens: usize,
    pub capacity_routes: usize,
    pub hidden_dim: usize,
    pub topk: usize,
    pub ep_world: usize,
    pub experts_per_rank: usize,
    pub token_ids: usize,
    pub route_indices: usize,
    pub route_weights: usize,
    pub send_rank_counts: usize,
    pub send_rank_offsets: usize,
    pub rank_cursors: usize,
    pub send_hidden: HiddenShape,
    pub send_meta: usize,
    pub all_rank_counts: usize,
    pub recv_rank_counts: usize,
    pub local_counts: usize,
    pub local_offsets: usize,
    pub local_cursors: usize,
}

/// Buffers of one expert.
#[derive(Clone, Copy, Debug, PartialEq, Eq, Structural)]
pub struct DeepseekExpertRuntimeScratch {
    pub capacity_tokens: usize,
    pub hidden_dim: usize,
    pub intermediate_dim: usize,
    pub output_dim: usize,
    pub input: HiddenShape,
    pub gate: HiddenShape,
    pub up: HiddenShape,
    pub act: HiddenShape,
    pub out: HiddenShape,
}

/// Buffers of all experts that run as one group.
#[derive(Clone, Copy, Debug, PartialEq, Eq, Structural)]
pub struct DeepseekGroupedExpertRuntimeScratch {
    pub capacity_routes: usize,
    pub hidden_dim: usize,
    pub intermediate_dim: usize,
    pub gate: HiddenShape,
    pub up: HiddenShape,
    pub act: HiddenShape,
    pub out: HiddenShape,
    pub active: Option<DeepseekGroupedExpertActiveScratch>,
    pub deepgemm: Option<DeepseekDeepGemmExpertRuntimeScratch>,
}

/// Buffers in which the outputs of the routes are combined.
#[derive(Clone, Copy, Debug, PartialEq, Eq, Structural)]
pub struct DeepseekRouteCombineRuntimeScratch {
    pub capacity_routes: usize,
    pub hidden_dim: usize,
    pub combine_recv: HiddenShape,
    pub route_slot_out: HiddenShape,
    pub combine_fp8_send: usize,
    pub combine_fp8_recv: usize,
    pub combine_scale_send: usize,
    pub combine_scale_recv: usize,
}

/// Buffers of the native dispatch: every token may be received by every rank.
#[derive(Clone, Copy, Debug, PartialEq, Eq, Structural)]
pub struct DeepseekNativeDeepEpRuntimeScratch {
    pub capacity_tokens: usize,
    pub capacity_recv: usize,
    pub hidden_dim: usize,
    pub topk: usize,
    pub ep_world: usize,
    pub num_experts: usize,
    pub num_channels: usize,
    pub experts_per_rank: usize,
    pub topk_idx_i64: usize,
    pub recv_x: HiddenShape,
    pub recv_src_idx: usize,
    pub recv_topk_idx: usize,
    pub recv_topk_w: usize,
    pub rank_prefix: usize,
    pub recv_channel_prefix: usize,
    pub send_head: usize,
    pub num_tokens_per_rank: usize,
    pub num_tokens_per_expert: usize,
    pub is_token_in_rank: usize,
    pub channel_prefix_matrix: usize,
    pub combined_x: HiddenShape,
    pub combined_topk_w: usize,
    pub expert_out: HiddenShape,
    pub recv_topk_idx_i32: usize,
    pub local_counts: usize,
    pub local_offsets: usize,
    pub local_cursors: usize,
    pub packed_x: HiddenShape,
    pub packed_token: usize,
    pub packed_weight: usize,
    pub grouped: Option<DeepseekGroupedExpertRuntimeScratch>,
}

/// Buffer of the router logits.
#[derive(Clone, Copy, Debug, PartialEq, Eq, Structural)]
pub struct DeepseekRouteLogitsRuntimeScratch {
    pub capacity_tokens: usize,
    pub n_experts: usize,
    pub logits: HiddenShape,
}

/// Buffers of the routes that leave a rank.
#[derive(Clone, Copy, Debug, PartialEq, Eq, Structural)]
pub struct DeepseekSendRouteRuntimeScratch {
    pub capacity_routes: usize,
    pub send_token: usize,
    pub send_route_slot: usize,
}

/// Buffers of the payload that ranks exchange.
#[derive(Clone, Copy, Debug, PartialEq, Eq, Structural)]
pub struct DeepseekDispatchPayloadRuntimeScratch {
    pub capacity_routes: usize,
    pub stride_elems: usize,
    pub send_payload: usize,
    pub recv_payload: usize,
}

/// Buffers of the routes that a rank receives.
#[derive(Clone, Copy, Debug, PartialEq, Eq, Structural)]
pub struct DeepseekRecvRouteRuntimeScratch {
    pub capacity_routes: usize,
    pub hidden_dim: usize,
    pub recv_hidden: HiddenShape,
    pub recv_meta: usize,
    pub route_out: HiddenShape,
}

/// Buffers of the routes to the experts of this rank.
#[derive(Clone, Copy, Debug, PartialEq, Eq, Structural)]
pub struct DeepseekLocalRouteRuntimeScratch {
    pub capacity_routes: usize,
    pub hidden_dim: usize,
    pub expert_hidden: HiddenShape,
    pub expert_weight: usize,
    pub expert_route_slot: usize,
    pub route_out: HiddenShape,
}

/// Buffers of the list of experts that have routes.
#[derive(Clone, Copy, Debug, PartialEq, Eq, Structural)]
pub struct DeepseekGroupedExpertActiveScratch {
    pub capacity_experts: usize,
    pub indices: usize,
    pub offsets: usize,
    pub counts: usize,
}

/// Buffers of the hyper-connection parameters.
#[derive(Clone, Copy, Debug, PartialEq, Eq, Structural)]
pub struct DeepseekMhcRuntimeScratch {
    pub capacity_tokens: usize,
    pub stream_hidden_dim: usize,
    pub mix_dim: usize,
    pub hc_mult: usize,
    pub mixes: HiddenShape,
    pub pre: usize,
    pub post: usize,
    pub comb: usize,
}

/// The buffers hold what is asked for.
pub open spec fn dispatch_fits(
    s: DeepseekDispatchRuntimeScratch,
    hidden_dim: usize,
    capacity_tokens: usize,
    topk: usize,
    ep_world: usize,
    experts_per_rank: usize,
) -> bool {
    let tokens = at_least_one(capacity_tokens);
    let routes = at_least_one(capped(tokens, topk));
    &&& s.capacity_tokens >= tokens
    &&& s.capacity_routes >= routes
    &&& s.hidden_dim == hidden_dim
    &&& s.topk == topk
    &&& s.ep_world == ep_world
    &&& s.experts_per_rank == experts_per_rank
}

/// Buffers for what is asked for.
pub open spec fn fresh_dispatch(
    hidden_dim: usize,
    capacity_tokens: usize,
    topk: usize,
    ep_world: usize,
    experts_per_rank: usize,
) -> DeepseekDispatchRuntimeScratch {
    let tokens = at_least_one(capacity_tokens);
    let routes = at_least_one(capped(tokens, topk));
    DeepseekDispatchRuntimeScratch {
        capacity_tokens: tokens,
        capacity_routes: routes,
        hidden_dim,
        topk,
        ep_world,
        experts_per_rank,
        token_ids: tokens,
        route_indices: routes,
        route_weights: routes,
        send_rank_counts: ep_world,
        send_rank_offsets: ep_world,
        rank_cursors: ep_world,
        send_hidden: HiddenShape { hidden_dim: hidden_dim, seq_len: routes },
        send_meta: (routes * 3) as usize,
        all_rank_counts: (ep_world * ep_world) as usize,
        recv_rank_counts: ep_world,
        local_counts: experts_per_rank,
        local_offsets: experts_per_rank,
        local_cursors: experts_per_rank,
    }
}

/// The sizes of the buffers can be counted.
pub open spec fn dispatch_countable(
    hidden_dim: usize,
    capacity_tokens: usize,
    topk: usize,
    ep_world: usize,
    experts_per_rank: usize,
) -> bool {
    let tokens = at_least_one(capacity_tokens);
    let routes = at_least_one(capped(tokens, topk));
    &&& routes * 3 <= usize::MAX
    &&& ep_world * ep_world <= usize::MAX
}

/// The buffers after a request: the present ones where they hold what is asked
/// for, else new ones.
pub open spec fn ensured_dispatch(
    slot: Option<DeepseekDispatchRuntimeScratch>,
    hidden_dim: usize,
    capacity_tokens: usize,
    topk: usize,
    ep_world: usize,
    experts_per_rank: usize,
) -> DeepseekDispatchRuntimeScratch {
    match slot {
        Some(s) => if dispatch_fits(
            s,
            hidden_dim,
            capacity_tokens,
            topk,
            ep_world,
            experts_per_rank,
        ) {
            s
        } else {
            fresh_dispatch(hidden_dim, capacity_tokens, topk, ep_world, experts_per_rank)
        },
        None => fresh_dispatch(hidden_dim, capacity_tokens, topk, ep_world, experts_per_rank),
    }
}

/// Buffers hold what they were asked for, and asking again changes nothing.
pub proof fn law_dispatch_scratch_serves(
    slot: Option<DeepseekDispatchRuntimeScratch>,
    hidden_dim: usize,
    capacity_tokens: usize,
    topk: usize,
    ep_world: usize,
    experts_per_rank: usize,
)
    ensures
        dispatch_fits(
            ensured_dispatch(slot, hidden_dim, capacity_tokens, topk, ep_world, experts_per_rank),
            hidden_dim,
            capacity_tokens,
            topk,
            ep_world,
            experts_per_rank,
        ),
        ensured_dispatch(
            Some(
                ensured_dispatch(
                    slot,
                    hidden_dim,
                    capacity_tokens,
                    topk,
                    ep_world,
                    experts_per_rank,
                ),
            ),
            hidden_dim,
            capacity_tokens,
            topk,
            ep_world,
            experts_per_rank,
        )
            == ensured_dispatch(
                slot,
                hidden_dim,
                capacity_tokens,
                topk,
                ep_world,
                experts_per_rank,
            ),
{
}

fn ensure_dispatch_slot(
    slot: &mut Option<DeepseekDispatchRuntimeScratch>,
    hidden_dim: usize,
    capacity_tokens: usize,
    topk: usize,
    ep_world: usize,
    experts_per_rank: usize,
) -> (allocated: bool)
    requires
        !(
            *old(slot) matches Some(s)
                && dispatch_fits(s, hidden_dim, capacity_tokens, topk, ep_world, experts_per_rank)
        )
            ==> dispatch_countable(hidden_dim, capacity_tokens, topk, ep_world, experts_per_rank),
    ensures
        *final(slot)
            == Some(
                ensured_dispatch(
                    *old(slot),
                    hidden_dim,
                    capacity_tokens,
                    topk,
                    ep_world,
                    experts_per_rank,
                ),
            ),
        allocated
            == !(
                *old(slot) matches Some(s)
                    && dispatch_fits(
                        s,
                        hidden_dim,
                        capacity_tokens,
                        topk,
                        ep_world,
                        experts_per_rank,
                    )
            ),
{
    let tokens: usize = max(capacity_tokens, 1);
    let routes: usize = max(saturating_mul(tokens, topk), 1);
    let missing: bool = match slot {
        Some(s) => s.capacity_tokens < tokens || s.capacity_routes < routes
            || s.hidden_dim != hidden_dim || s.topk != topk || s.ep_world != ep_world
            || s.experts_per_rank != experts_per_rank,
        None => true,
    };
    if missing {
        *slot = Some(
            DeepseekDispatchRuntimeScratch {
                capacity_tokens: tokens,
                capacity_routes: routes,
                hidden_dim,
                topk,
                ep_world,
                experts_per_rank,
                token_ids: tokens,
                route_indices: routes,
                route_weights: routes,
                send_rank_counts: ep_world,
                send_rank_offsets: ep_world,
                rank_cursors: ep_world,
                send_hidden: HiddenShape { hidden_dim: hidden_dim, seq_len: routes },
                send_meta: routes * 3,
                all_rank_counts: ep_world * ep_world,
                recv_rank_counts: ep_world,
                local_counts: experts_per_rank,
                local_offsets: experts_per_rank,
                local_cursors: experts_per_rank,
            },
        );
    }
    missing
}

/// The buffers hold what is asked for.
pub open spec fn expert_fits(
    s: DeepseekExpertRuntimeScratch,
    hidden_dim: usize,
    intermediate_dim: usize,
    output_dim: usize,
    capacity_tokens: usize,
) -> bool {
    let tokens = at_least_one(capacity_tokens);
    &&& s.capacity_tokens >= tokens
    &&& s.hidden_dim == hidden_dim
    &&& s.intermediate_dim == intermediate_dim
    &&& s.output_dim == output_dim
}

/// Buffers for what is asked for.
pub open spec fn fresh_expert(
    hidden_dim: usize,
    intermediate_dim: usize,
    output_dim: usize,
    capacity_tokens: usize,
) -> DeepseekExpertRuntimeScratch {
    let tokens = at_least_one(capacity_tokens);
    DeepseekExpertRuntimeScratch {
        capacity_tokens: tokens,
        hidden_dim,
        intermediate_dim,
        output_dim,
        input: HiddenShape { hidden_dim: hidden_dim, seq_len: tokens },
        gate: HiddenShape { hidden_dim: intermediate_dim, seq_len: tokens },
        up: HiddenShape { hidden_dim: intermediate_dim, seq_len: tokens },
        act: HiddenShape { hidden_dim: intermediate_dim, seq_len: tokens },
        out: HiddenShape { hidden_dim: output_dim, seq_len: tokens },
    }
}

/// The buffers after a request: the present ones where they hold what is asked
/// for, else new ones.
pub open spec fn ensured_expert(
    slot: Option<DeepseekExpertRuntimeScratch>,
    hidden_dim: usize,
    intermediate_dim: usize,
    output_dim: usize,
    capacity_tokens: usize,
) -> DeepseekExpertRuntimeScratch {
    match slot {
        Some(s) => if expert_fits(s, hidden_dim, intermediate_dim, output_dim, capacity_tokens) {
            s
        } else {
            fresh_expert(hidden_dim, intermediate_dim, output_dim, capacity_tokens)
        },
        None => fresh_expert(hidden_dim, intermediate_dim, output_dim, capacity_tokens),
    }
}

/// Buffers hold what they were asked for, and asking again changes nothing.
pub proof fn law_expert_scratch_serves(
    slot: Option<DeepseekExpertRuntimeScratch>,
    hidden_dim: usize,
    intermediate_dim: usize,
    output_dim: usize,
    capacity_tokens: usize,
)
    ensures
        expert_fits(
            ensured_expert(slot, hidden_dim, intermediate_dim, output_dim, capacity_tokens),
            hidden_dim,
            intermediate_dim,
            output_dim,
            capacity_tokens,
        ),
        ensured_expert(
            Some(ensured_expert(slot, hidden_dim, intermediate_dim, output_dim, capacity_tokens)),
            hidden_dim,
            intermediate_dim,
            output_dim,
            capacity_tokens,
        )
            == ensured_expert(slot, hidden_dim, intermediate_dim, output_dim, capacity_tokens),
{
}

fn ensure_expert_slot(
    slot: &mut Option<DeepseekExpertRuntimeScratch>,
    hidden_dim: usize,
    intermediate_dim: usize,
    output_dim: usize,
    capacity_tokens: usize,
) -> (allocated: bool)
    ensures
        *final(slot)
            == Some(
                ensured_expert(
                    *old(slot),
                    hidden_dim,
                    intermediate_dim,
                    output_dim,
                    capacity_tokens,
                ),
            ),
        allocated
            == !(
                *old(slot) matches Some(s)
                    && expert_fits(s, hidden_dim, intermediate_dim, output_dim, capacity_tokens)
            ),
{
    let tokens: usize = max(capacity_tokens, 1);
    let missing: bool = match slot {
        Some(s) => s.capacity_tokens < tokens || s.hidden_dim != hidden_dim
            || s.intermediate_dim != intermediate_dim || s.output_dim != output_dim,
        None => true,
    };
    if missing {
        *slot = Some(
            DeepseekExpertRuntimeScratch {
                capacity_tokens: tokens,
                hidden_dim,
                intermediate_dim,
                output_dim,
                input: HiddenShape { hidden_dim: hidden_dim, seq_len: tokens },
                gate: HiddenShape { hidden_dim: intermediate_dim, seq_len: tokens },
                up: HiddenShape { hidden_dim: intermediate_dim, seq_len: tokens },
                act: HiddenShape { hidden_dim: intermediate_dim, seq_len: tokens },
                out: HiddenShape { hidden_dim: output_dim, seq_len: tokens },
            },
        );
    }
    missing
}

/// The buffers hold what is asked for.
pub open spec fn grouped_fits(
    s: DeepseekGroupedExpertRuntimeScratch,
    hidden_dim: usize,
    intermediate_dim: usize,
    capacity_routes: usize,
) -> bool {
    let routes = at_least_one(capacity_routes);
    &&& s.capacity_routes >= routes
    &&& s.hidden_dim == hidden_dim
    &&& s.intermediate_dim == intermediate_dim
}

/// Buffers for what is asked for.
pub open spec fn fresh_grouped(
    hidden_dim: usize,
    intermediate_dim: usize,
    capacity_routes: usize,
) -> DeepseekGroupedExpertRuntimeScratch {
    let routes = at_least_one(capacity_routes);
    DeepseekGroupedExpertRuntimeScratch {
        capacity_routes: routes,
        hidden_dim,
        intermediate_dim,
        gate: HiddenShape { hidden_dim: intermediate_dim, seq_len: routes },
        up: HiddenShape { hidden_dim: intermediate_dim, seq_len: routes },
        act: HiddenShape { hidden_dim: intermediate_dim, seq_len: routes },
        out: HiddenShape { hidden_dim: hidden_dim, seq_len: routes },
        active: None,
        deepgemm: None,
    }
}

/// The buffers after a request: the present ones where they hold what is asked
/// for, else new ones.
pub open spec fn ensured_grouped(
    slot: Option<DeepseekGroupedExpertRuntimeScratch>,
    hidden_dim: usize,
    intermediate_dim: usize,
    capacity_routes: usize,
) -> DeepseekGroupedExpertRuntimeScratch {
    match slot {
        Some(s) => if grouped_fits(s, hidden_dim, intermediate_dim, capacity_routes) {
            s
        } else {
            fresh_grouped(hidden_dim, intermediate_dim, capacity_routes)
        },
        None => fresh_grouped(hidden_dim, intermediate_dim, capacity_routes),
    }
}

/// Buffers hold what they were asked for, and asking again changes nothing.
pub proof fn law_grouped_scratch_serves(
    slot: Option<DeepseekGroupedExpertRuntimeScratch>,
    hidden_dim: usize,
    intermediate_dim: usize,
    capacity_routes: usize,
)
    ensures
        grouped_fits(
            ensured_grouped(slot, hidden_dim, intermediate_dim, capacity_routes),
            hidden_dim,
            intermediate_dim,
            capacity_routes,
        ),
        ensured_grouped(
            Some(ensured_grouped(slot, hidden_dim, intermediate_dim, capacity_routes)),
            hidden_dim,
            intermediate_dim,
            capacity_routes,
        )
            == ensured_grouped(slot, hidden_dim, intermediate_dim, capacity_routes),
{
}

fn ensure_grouped_slot(
    slot: &mut Option<DeepseekGroupedExpertRuntimeScratch>,
    hidden_dim: usize,
    intermediate_dim: usize,
    capacity_routes: usize,
) -> (allocated: bool)
    ensures
        *final(slot)
            == Some(ensured_grouped(*old(slot), hidden_dim, intermediate_dim, capacity_routes)),
        allocated
            == !(
                *old(slot) matches Some(s)
                    && grouped_fits(s, hidden_dim, intermediate_dim, capacity_routes)
            ),
{
    let routes: usize = max(capacity_routes, 1);
    let missing: bool = match slot {
        Some(s) => s.capacity_routes < routes || s.hidden_dim != hidden_dim
            || s.intermediate_dim != intermediate_dim,
        None => true,
    };
    if missing {
        *slot = Some(
            DeepseekGroupedExpertRuntimeScratch {
                capacity_routes: routes,
                hidden_dim,
                intermediate_dim,
                gate: HiddenShape { hidden_dim: intermediate_dim, seq_len: routes },
                up: HiddenShape { hidden_dim: intermediate_dim, seq_len: routes },
                act: HiddenShape { hidden_dim: intermediate_dim, seq_len: routes },
                out: HiddenShape { hidden_dim: hidden_dim, seq_len: routes },
                active: None,
                deepgemm: None,
            },
        );
    }
    missing
}

/// The buffers hold what is asked for.
pub open spec fn route_combine_fits(
    s: DeepseekRouteCombineRuntimeScratch,
    hidden_dim: usize,
    capacity_routes: usize,
) -> bool {
    let routes = at_least_one(capacity_routes);
    &&& s.capacity_routes >= routes
    &&& s.hidden_dim == hidden_dim
}

/// Buffers for what is asked for.
pub open spec fn fresh_route_combine(
    hidden_dim: usize,
    capacity_routes: usize,
) -> DeepseekRouteCombineRuntimeScratch {
    let routes = at_least_one(capacity_routes);
    DeepseekRouteCombineRuntimeScratch {
        capacity_routes: routes,
        hidden_dim,
        combine_recv: HiddenShape { hidden_dim: hidden_dim, seq_len: routes },
        route_slot_out: HiddenShape { hidden_dim: hidden_dim, seq_len: routes },
        combine_fp8_send: (hidden_dim * routes) as usize,
        combine_fp8_recv: (hidden_dim * routes) as usize,
        combine_scale_send: routes,
        combine_scale_recv: routes,
    }
}

/// The sizes of the buffers can be counted.
pub open spec fn route_combine_countable(hidden_dim: usize, capacity_routes: usize) -> bool {
    let routes = at_least_one(capacity_routes);
    &&& hidden_dim * routes <= usize::MAX
}

/// The buffers after a request: the present ones where they hold what is asked
/// for, else new ones.
pub open spec fn ensured_route_combine(
    slot: Option<DeepseekRouteCombineRuntimeScratch>,
    hidden_dim: usize,
    capacity_routes: usize,
) -> DeepseekRouteCombineRuntimeScratch {
    match slot {
        Some(s) => if route_combine_fits(s, hidden_dim, capacity_routes) {
            s
        } else {
            fresh_route_combine(hidden_dim, capacity_routes)
        },
        None => fresh_route_combine(hidden_dim, capacity_routes),
    }
}

/// Buffers hold what they were asked for, and asking again changes nothing.
pub proof fn law_route_combine_scratch_serves(
    slot: Option<DeepseekRouteCombineRuntimeScratch>,
    hidden_dim: usize,
    capacity_routes: usize,
)
    ensures
        route_combine_fits(
            ensured_route_combine(slot, hidden_dim, capacity_routes),
            hidden_dim,
            capacity_routes,
        ),
        ensured_route_combine(
            Some(ensured_route_combine(slot, hidden_dim, capacity_routes)),
            hidden_dim,
            capacity_routes,
        )
            == ensured_route_combine(slot, hidden_dim, capacity_routes),
{
}

fn ensure_route_combine_slot(
    slot: &mut Option<DeepseekRouteCombineRuntimeScratch>,
    hidden_dim: usize,
    capacity_routes: usize,
) -> (allocated: bool)
    requires
        !(*old(slot) matches Some(s) && route_combine_fits(s, hidden_dim, capacity_routes))
            ==> route_combine_countable(hidden_dim, capacity_routes),
    ensures
        *final(slot) == Some(ensured_route_combine(*old(slot), hidden_dim, capacity_routes)),
        allocated
            == !(*old(slot) matches Some(s) && route_combine_fits(s, hidden_dim, capacity_routes)),
{
    let routes: usize = max(capacity_routes, 1);
    let missing: bool = match slot {
        Some(s) => s.capacity_routes < routes || s.hidden_dim != hidden_dim,
        None => true,
    };
    if missing {
        *slot = Some(
            DeepseekRouteCombineRuntimeScratch {
                capacity_routes: routes,
                hidden_dim,
                combine_recv: HiddenShape { hidden_dim: hidden_dim, seq_len: routes },
                route_slot_out: HiddenShape { hidden_dim: hidden_dim, seq_len: routes },
                combine_fp8_send: hidden_dim * routes,
                combine_fp8_recv: hidden_dim * routes,
                combine_scale_send: routes,
                combine_scale_recv: routes,
            },
        );
    }
    missing
}

/// The buffers hold what is asked for.
pub open spec fn native_deepep_fits(
    s: DeepseekNativeDeepEpRuntimeScratch,
    hidden_dim: usize,
    capacity_tokens: usize,
    topk: usize,
    ep_world: usize,
    num_experts: usize,
    num_channels: usize,
    experts_per_rank: usize,
) -> bool {
    let tokens = at_least_one(capacity_tokens);
    let recv = at_least_one(capped(tokens, ep_world));
    let ways = at_least_one(topk);
    let ranks = at_least_one(ep_world);
    let experts = at_least_one(num_experts);
    let channels = at_least_one(num_channels);
    let local_experts = at_least_one(experts_per_rank);
    &&& s.capacity_tokens >= tokens
    &&& s.capacity_recv >= recv
    &&& s.hidden_dim == hidden_dim
    &&& s.topk == ways
    &&& s.ep_world == ranks
    &&& s.num_experts == experts
    &&& s.num_channels == channels
    &&& s.experts_per_rank == local_experts
}

/// Buffers for what is asked for.
pub open spec fn fresh_native_deepep(
    hidden_dim: usize,
    capacity_tokens: usize,
    topk: usize,
    ep_world: usize,
    num_experts: usize,
    num_channels: usize,
    experts_per_rank: usize,
) -> DeepseekNativeDeepEpRuntimeScratch {
    let tokens = at_least_one(capacity_tokens);
    let recv = at_least_one(capped(tokens, ep_world));
    let ways = at_least_one(topk);
    let ranks = at_least_one(ep_world);
    let experts = at_least_one(num_experts);
    let channels = at_least_one(num_channels);
    let local_experts = at_least_one(experts_per_rank);
    let routes = at_least_one(capped(recv, ways));
    DeepseekNativeDeepEpRuntimeScratch {
        capacity_tokens: tokens,
        capacity_recv: recv,
        hidden_dim,
        topk: ways,
        ep_world: ranks,
        num_experts: experts,
        num_channels: channels,
        experts_per_rank: local_experts,
        topk_idx_i64: capped(tokens, ways),
        recv_x: HiddenShape { hidden_dim: hidden_dim, seq_len: recv },
        recv_src_idx: recv,
        recv_topk_idx: capped(recv, ways),
        recv_topk_w: capped(recv, ways),
        rank_prefix: capped(ranks, ranks),
        recv_channel_prefix: capped(ranks, channels),
        send_head: capped(tokens, ranks),
        num_tokens_per_rank: ranks,
        num_tokens_per_expert: experts,
        is_token_in_rank: capped(tokens, ranks),
        channel_prefix_matrix: capped(ranks, channels),
        combined_x: HiddenShape { hidden_dim: hidden_dim, seq_len: tokens },
        combined_topk_w: capped(tokens, ways),
        expert_out: HiddenShape { hidden_dim: hidden_dim, seq_len: recv },
        recv_topk_idx_i32: capped(recv, ways),
        local_counts: local_experts,
        local_offsets: local_experts,
        local_cursors: local_experts,
        packed_x: HiddenShape { hidden_dim: hidden_dim, seq_len: routes },
        packed_token: routes,
        packed_weight: routes,
        grouped: None,
    }
}

/// The buffers after a request: the present ones where they hold what is asked
/// for, else new ones.
pub open spec fn ensured_native_deepep(
    slot: Option<DeepseekNativeDeepEpRuntimeScratch>,
    hidden_dim: usize,
    capacity_tokens: usize,
    topk: usize,
    ep_world: usize,
    num_experts: usize,
    num_channels: usize,
    experts_per_rank: usize,
) -> DeepseekNativeDeepEpRuntimeScratch {
    match slot {
        Some(s) => if native_deepep_fits(
            s,
            hidden_dim,
            capacity_tokens,
            topk,
            ep_world,
            num_experts,
            num_channels,
            experts_per_rank,
        ) {
            s
        } else {
            fresh_native_deepep(
                hidden_dim,
                capacity_tokens,
                topk,
                ep_world,
                num_experts,
                num_channels,
                experts_per_rank,
            )
        },
        None => fresh_native_deepep(
            hidden_dim,
            capacity_tokens,
            topk,
            ep_world,
            num_experts,
            num_channels,
            experts_per_rank,
        ),
    }
}

/// Buffers hold what they were asked for, and asking again changes nothing.
pub proof fn law_native_deepep_scratch_serves(
    slot: Option<DeepseekNativeDeepEpRuntimeScratch>,
    hidden_dim: usize,
    capacity_tokens: usize,
    topk: usize,
    ep_world: usize,
    num_experts: usize,
    num_channels: usize,
    experts_per_rank: usize,
)
    ensures
        native_deepep_fits(
            ensured_native_deepep(
                slot,
                hidden_dim,
                capacity_tokens,
                topk,
                ep_world,
                num_experts,
                num_channels,
                experts_per_rank,
            ),
            hidden_dim,
            capacity_tokens,
            topk,
            ep_world,
            num_experts,
            num_channels,
            experts_per_rank,
        ),
        ensured_native_deepep(
            Some(
                ensured_native_deepep(
                    slot,
                    hidden_dim,
                    capacity_tokens,
                    topk,
                    ep_world,
                    num_experts,
                    num_channels,
                    experts_per_rank,
                ),
            ),
            hidden_dim,
            capacity_tokens,
            topk,
            ep_world,
            num_experts,
            num_channels,
            experts_per_rank,
        )
            == ensured_native_deepep(
                slot,
                hidden_dim,
                capacity_tokens,
                topk,
                ep_world,
                num_experts,
                num_channels,
                experts_per_rank,
            ),
{
}

fn ensure_native_deepep_slot(
    slot: &mut Option<DeepseekNativeDeepEpRuntimeScratch>,
    hidden_dim: usize,
    capacity_tokens: usize,
    topk: usize,
    ep_world: usize,
    num_experts: usize,
    num_channels: usize,
    experts_per_rank: usize,
) -> (allocated: bool)
    ensures
        *final(slot)
            == Some(
                ensured_native_deepep(
                    *old(slot),
                    hidden_dim,
                    capacity_tokens,
                    topk,
                    ep_world,
                    num_experts,
                    num_channels,
                    experts_per_rank,
                ),
            ),
        allocated
            == !(
                *old(slot) matches Some(s)
                    && native_deepep_fits(
                        s,
                        hidden_dim,
                        capacity_tokens,
                        topk,
                        ep_world,
                        num_experts,
                        num_channels,
                        experts_per_rank,
                    )
            ),
{
    let tokens: usize = max(capacity_tokens, 1);
    let recv: usize = max(saturating_mul(tokens, ep_world), 1);
    let ways: usize = max(topk, 1);
    let ranks: usize = max(ep_world, 1);
    let experts: usize = max(num_experts, 1);
    let channels: usize = max(num_channels, 1);
    let local_experts: usize = max(experts_per_rank, 1);
    let routes: usize = max(saturating_mul(recv, ways), 1);
    let missing: bool = match slot {
        Some(s) => s.capacity_tokens < tokens || s.capacity_recv < recv
            || s.hidden_dim != hidden_dim || s.topk != ways || s.ep_world != ranks
            || s.num_experts != experts || s.num_channels != channels
            || s.experts_per_rank != local_experts,
        None => true,
    };
    if missing {
        *slot = Some(
            DeepseekNativeDeepEpRuntimeScratch {
                capacity_tokens: tokens,
                capacity_recv: recv,
                hidden_dim,
                topk: ways,
                ep_world: ranks,
                num_experts: experts,
                num_channels: channels,
                experts_per_rank: local_experts,
                topk_idx_i64: saturating_mul(tokens, ways),
                recv_x: HiddenShape { hidden_dim: hidden_dim, seq_len: recv },
                recv_src_idx: recv,
                recv_topk_idx: saturating_mul(recv, ways),
                recv_topk_w: saturating_mul(recv, ways),
                rank_prefix: saturating_mul(ranks, ranks),
                recv_channel_prefix: saturating_mul(ranks, channels),
                send_head: saturating_mul(tokens, ranks),
                num_tokens_per_rank: ranks,
                num_tokens_per_expert: experts,
                is_token_in_rank: saturating_mul(tokens, ranks),
                channel_prefix_matrix: saturating_mul(ranks, channels),
                combined_x: HiddenShape { hidden_dim: hidden_dim, seq_len: tokens },
                combined_topk_w: saturating_mul(tokens, ways),
                expert_out: HiddenShape { hidden_dim: hidden_dim, seq_len: recv },
                recv_topk_idx_i32: saturating_mul(recv, ways),
                local_counts: local_experts,
                local_offsets: local_experts,
                local_cursors: local_experts,
                packed_x: HiddenShape { hidden_dim: hidden_dim, seq_len: routes },
                packed_token: routes,
                packed_weight: routes,
                grouped: None,
            },
        );
    }
    missing
}

/// The buffers hold what is asked for.
pub open spec fn route_logits_fits(
    s: DeepseekRouteLogitsRuntimeScratch,
    n_experts: usize,
    capacity_tokens: usize,
) -> bool {
    let tokens = at_least_one(capacity_tokens);
    &&& s.capacity_tokens >= tokens
    &&& s.n_experts == n_experts
}

/// Buffers for what is asked for.
pub open spec fn fresh_route_logits(
    n_experts: usize,
    capacity_tokens: usize,
) -> DeepseekRouteLogitsRuntimeScratch {
    let tokens = at_least_one(capacity_tokens);
    DeepseekRouteLogitsRuntimeScratch {
        capacity_tokens: tokens,
        n_experts,
        logits: HiddenShape { hidden_dim: n_experts, seq_len: tokens },
    }
}

/// The buffers after a request: the present ones where they hold what is asked
/// for, else new ones.
pub open spec fn ensured_route_logits(
    slot: Option<DeepseekRouteLogitsRuntimeScratch>,
    n_experts: usize,
    capacity_tokens: usize,
) -> DeepseekRouteLogitsRuntimeScratch {
    match slot {
        Some(s) => if route_logits_fits(s, n_experts, capacity_tokens) {
            s
        } else {
            fresh_route_logits(n_experts, capacity_tokens)
        },
        None => fresh_route_logits(n_experts, capacity_tokens),
    }
}

/// Buffers hold what they were asked for, and asking again changes nothing.
pub proof fn law_route_logits_scratch_serves(
    slot: Option<DeepseekRouteLogitsRuntimeScratch>,
    n_experts: usize,
    capacity_tokens: usize,
)
    ensures
        route_logits_fits(
            ensured_route_logits(slot, n_experts, capacity_tokens),
            n_experts,
            capacity_tokens,
        ),
        ensured_route_logits(
            Some(ensured_route_logits(slot, n_experts, capacity_tokens)),
            n_experts,
            capacity_tokens,
        )
            == ensured_route_logits(slot, n_experts, capacity_tokens),
{
}

/// Makes sure of the buffers; says whether new ones have to be allocated.
pub fn ensure_route_logits_scratch(
    slot: &mut Option<DeepseekRouteLogitsRuntimeScratch>,
    n_experts: usize,
    capacity_tokens: usize,
) -> (allocated: bool)
    ensures
        *final(slot) == Some(ensured_route_logits(*old(slot), n_experts, capacity_tokens)),
        allocated
            == !(*old(slot) matches Some(s) && route_logits_fits(s, n_experts, capacity_tokens)),
{
    let tokens: usize = max(capacity_tokens, 1);
    let missing: bool = match slot {
        Some(s) => s.capacity_tokens < tokens || s.n_experts != n_experts,
        None => true,
    };
    if missing {
        *slot = Some(
            DeepseekRouteLogitsRuntimeScratch {
                capacity_tokens: tokens,
                n_experts,
                logits: HiddenShape { hidden_dim: n_experts, seq_len: tokens },
            },
        );
    }
    missing
}

/// The buffers hold what is asked for.
pub open spec fn send_route_fits(
    s: DeepseekSendRouteRuntimeScratch,
    capacity_routes: usize,
) -> bool {
    let routes = at_least_one(capacity_routes);
    &&& s.capacity_routes >= routes
}

/// Buffers for what is asked for.
pub open spec fn fresh_send_route(capacity_routes: usize) -> DeepseekSendRouteRuntimeScratch {
    let routes = at_least_one(capacity_routes);
    DeepseekSendRouteRuntimeScratch {
        capacity_routes: routes,
        send_token: routes,
        send_route_slot: routes,
    }
}

/// The buffers after a request: the present ones where they hold what is asked
/// for, else new ones.
pub open spec fn ensured_send_route(
    slot: Option<DeepseekSendRouteRuntimeScratch>,
    capacity_routes: usize,
) -> DeepseekSendRouteRuntimeScratch {
    match slot {
        Some(s) => if send_route_fits(s, capacity_routes) {
            s
        } else {
            fresh_send_route(capacity_routes)
        },
        None => fresh_send_route(capacity_routes),
    }
}

/// Buffers hold what they were asked for, and asking again changes nothing.
pub proof fn law_send_route_scratch_serves(
    slot: Option<DeepseekSendRouteRuntimeScratch>,
    capacity_routes: usize,
)
    ensures
        send_route_fits(ensured_send_route(slot, capacity_routes), capacity_routes),
        ensured_send_route(Some(ensured_send_route(slot, capacity_routes)), capacity_routes)
            == ensured_send_route(slot, capacity_routes),
{
}

/// Makes sure of the buffers; says whether new ones have to be allocated.
pub fn ensure_send_route_scratch(
    slot: &mut Option<DeepseekSendRouteRuntimeScratch>,
    capacity_routes: usize,
) -> (allocated: bool)
    ensures
        *final(slot) == Some(ensured_send_route(*old(slot), capacity_routes)),
        allocated == !(*old(slot) matches Some(s) && send_route_fits(s, capacity_routes)),
{
    let routes: usize = max(capacity_routes, 1);
    let missing: bool = match slot {
        Some(s) => s.capacity_routes < routes,
        None => true,
    };
    if missing {
        *slot = Some(
            DeepseekSendRouteRuntimeScratch {
                capacity_routes: routes,
                send_token: routes,
                send_route_slot: routes,
            },
        );
    }
    missing
}

/// The buffers hold what is asked for.
pub open spec fn dispatch_payload_fits(
    s: DeepseekDispatchPayloadRuntimeScratch,
    capacity_routes: usize,
    stride_elems: usize,
) -> bool {
    let routes = at_least_one(capacity_routes);
    let stride = at_least_one(stride_elems);
    &&& s.capacity_routes >= routes
    &&& s.stride_elems == stride
}

/// Buffers for what is asked for.
pub open spec fn fresh_dispatch_payload(
    capacity_routes: usize,
    stride_elems: usize,
) -> DeepseekDispatchPayloadRuntimeScratch {
    let routes = at_least_one(capacity_routes);
    let stride = at_least_one(stride_elems);
    DeepseekDispatchPayloadRuntimeScratch {
        capacity_routes: routes,
        stride_elems: stride,
        send_payload: capped(routes, stride),
        recv_payload: capped(routes, stride),
    }
}

/// The buffers after a request: the present ones where they hold what is asked
/// for, else new ones.
pub open spec fn ensured_dispatch_payload(
    slot: Option<DeepseekDispatchPayloadRuntimeScratch>,
    capacity_routes: usize,
    stride_elems: usize,
) -> DeepseekDispatchPayloadRuntimeScratch {
    match slot {
        Some(s) => if dispatch_payload_fits(s, capacity_routes, stride_elems) {
            s
        } else {
            fresh_dispatch_payload(capacity_routes, stride_elems)
        },
        None => fresh_dispatch_payload(capacity_routes, stride_elems),
    }
}

/// Buffers hold what they were asked for, and asking again changes nothing.
pub proof fn law_dispatch_payload_scratch_serves(
    slot: Option<DeepseekDispatchPayloadRuntimeScratch>,
    capacity_routes: usize,
    stride_elems: usize,
)
    ensures
        dispatch_payload_fits(
            ensured_dispatch_payload(slot, capacity_routes, stride_elems),
            capacity_routes,
            stride_elems,
        ),
        ensured_dispatch_payload(
            Some(ensured_dispatch_payload(slot, capacity_routes, stride_elems)),
            capacity_routes,
            stride_elems,
        )
            == ensured_dispatch_payload(slot, capacity_routes, stride_elems),
{
}

/// Makes sure of the buffers; says whether new ones have to be allocated.
pub fn ensure_dispatch_payload_scratch(
    slot: &mut Option<DeepseekDispatchPayloadRuntimeScratch>,
    capacity_routes: usize,
    stride_elems: usize,
) -> (allocated: bool)
    ensures
        *final(slot) == Some(ensured_dispatch_payload(*old(slot), capacity_routes, stride_elems)),
        allocated
            == !(
                *old(slot) matches Some(s)
                    && dispatch_payload_fits(s, capacity_routes, stride_elems)
            ),
{
    let routes: usize = max(capacity_routes, 1);
    let stride: usize = max(stride_elems, 1);
    let missing: bool = match slot {
        Some(s) => s.capacity_routes < routes || s.stride_elems != stride,
        None => true,
    };
    if missing {
        *slot = Some(
            DeepseekDispatchPayloadRuntimeScratch {
                capacity_routes: routes,
                stride_elems: stride,
                send_payload: saturating_mul(routes, stride),
                recv_payload: saturating_mul(routes, stride),
            },
        );
    }
    missing
}

/// The buffers hold what is asked for.
pub open spec fn recv_route_fits(
    s: DeepseekRecvRouteRuntimeScratch,
    hidden_dim: usize,
    capacity_routes: usize,
) -> bool {
    let routes = at_least_one(capacity_routes);
    &&& s.capacity_routes >= routes
    &&& s.hidden_dim == hidden_dim
}

/// Buffers for what is asked for.
pub open spec fn fresh_recv_route(
    hidden_dim: usize,
    capacity_routes: usize,
) -> DeepseekRecvRouteRuntimeScratch {
    let routes = at_least_one(capacity_routes);
    DeepseekRecvRouteRuntimeScratch {
        capacity_routes: routes,
        hidden_dim,
        recv_hidden: HiddenShape { hidden_dim: hidden_dim, seq_len: routes },
        recv_meta: (routes * 3) as usize,
        route_out: HiddenShape { hidden_dim: hidden_dim, seq_len: routes },
    }
}

/// The sizes of the buffers can be counted.
pub open spec fn recv_route_countable(hidden_dim: usize, capacity_routes: usize) -> bool {
    let routes = at_least_one(capacity_routes);
    &&& routes * 3 <= usize::MAX
}

/// The buffers after a request: the present ones where they hold what is asked
/// for, else new ones.
pub open spec fn ensured_recv_route(
    slot: Option<DeepseekRecvRouteRuntimeScratch>,
    hidden_dim: usize,
    capacity_routes: usize,
) -> DeepseekRecvRouteRuntimeScratch {
    match slot {
        Some(s) => if recv_route_fits(s, hidden_dim, capacity_routes) {
            s
        } else {
            fresh_recv_route(hidden_dim, capacity_routes)
        },
        None => fresh_recv_route(hidden_dim, capacity_routes),
    }
}

/// Buffers hold what they were asked for, and asking again changes nothing.
pub proof fn law_recv_route_scratch_serves(
    slot: Option<DeepseekRecvRouteRuntimeScratch>,
    hidden_dim: usize,
    capacity_routes: usize,
)
    ensures
        recv_route_fits(
            ensured_recv_route(slot, hidden_dim, capacity_routes),
            hidden_dim,
            capacity_routes,
        ),
        ensured_recv_route(
            Some(ensured_recv_route(slot, hidden_dim, capacity_routes)),
            hidden_dim,
            capacity_routes,
        )
            == ensured_recv_route(slot, hidden_dim, capacity_routes),
{
}

/// Makes sure of the buffers; says whether new ones have to be allocated.
pub fn ensure_recv_route_scratch(
    slot: &mut Option<DeepseekRecvRouteRuntimeScratch>,
    hidden_dim: usize,
    capacity_routes: usize,
) -> (allocated: bool)
    requires
        !(*old(slot) matches Some(s) && recv_route_fits(s, hidden_dim, capacity_routes))
            ==> recv_route_countable(hidden_dim, capacity_routes),
    ensures
        *final(slot) == Some(ensured_recv_route(*old(slot), hidden_dim, capacity_routes)),
        allocated
            == !(*old(slot) matches Some(s) && recv_route_fits(s, hidden_dim, capacity_routes)),
{
    let routes: usize = max(capacity_routes, 1);
    let missing: bool = match slot {
        Some(s) => s.capacity_routes < routes || s.hidden_dim != hidden_dim,
        None => true,
    };
    if missing {
        *slot = Some(
            DeepseekRecvRouteRuntimeScratch {
                capacity_routes: routes,
                hidden_dim,
                recv_hidden: HiddenShape { hidden_dim: hidden_dim, seq_len: routes },
                recv_meta: routes * 3,
                route_out: HiddenShape { hidden_dim: hidden_dim, seq_len: routes },
            },
        );
    }
    missing
}

/// The buffers hold what is asked for.
pub open spec fn local_route_fits(
    s: DeepseekLocalRouteRuntimeScratch,
    hidden_dim: usize,
    capacity_routes: usize,
) -> bool {
    let routes = at_least_one(capacity_routes);
    &&& s.capacity_routes >= routes
    &&& s.hidden_dim == hidden_dim
}

/// Buffers for what is asked for.
pub open spec fn fresh_local_route(
    hidden_dim: usize,
    capacity_routes: usize,
) -> DeepseekLocalRouteRuntimeScratch {
    let routes = at_least_one(capacity_routes);
    DeepseekLocalRouteRuntimeScratch {
        capacity_routes: routes,
        hidden_dim,
        expert_hidden: HiddenShape { hidden_dim: hidden_dim, seq_len: routes },
        expert_weight: routes,
        expert_route_slot: routes,
        route_out: HiddenShape { hidden_dim: hidden_dim, seq_len: routes },
    }
}

/// The buffers after a request: the present ones where they hold what is asked
/// for, else new ones.
pub open spec fn ensured_local_route(
    slot: Option<DeepseekLocalRouteRuntimeScratch>,
    hidden_dim: usize,
    capacity_routes: usize,
) -> DeepseekLocalRouteRuntimeScratch {
    match slot {
        Some(s) => if local_route_fits(s, hidden_dim, capacity_routes) {
            s
        } else {
            fresh_local_route(hidden_dim, capacity_routes)
        },
        None => fresh_local_route(hidden_dim, capacity_routes),
    }
}

/// Buffers hold what they were asked for, and asking again changes nothing.
pub proof fn law_local_route_scratch_serves(
    slot: Option<DeepseekLocalRouteRuntimeScratch>,
    hidden_dim: usize,
    capacity_routes: usize,
)
    ensures
        local_route_fits(
            ensured_local_route(slot, hidden_dim, capacity_routes),
            hidden_dim,
            capacity_routes,
        ),
        ensured_local_route(
            Some(ensured_local_route(slot, hidden_dim, capacity_routes)),
            hidden_dim,
            capacity_routes,
        )
            == ensured_local_route(slot, hidden_dim, capacity_routes),
{
}

/// Makes sure of the buffers; says whether new ones have to be allocated.
pub fn ensure_local_route_scratch(
    slot: &mut Option<DeepseekLocalRouteRuntimeScratch>,
    hidden_dim: usize,
    capacity_routes: usize,
) -> (allocated: bool)
    ensures
        *final(slot) == Some(ensured_local_route(*old(slot), hidden_dim, capacity_routes)),
        allocated
            == !(*old(slot) matches Some(s) && local_route_fits(s, hidden_dim, capacity_routes)),
{
    let routes: usize = max(capacity_routes, 1);
    let missing: bool = match slot {
        Some(s) => s.capacity_routes < routes || s.hidden_dim != hidden_dim,
        None => true,
    };
    if missing {
        *slot = Some(
            DeepseekLocalRouteRuntimeScratch {
                capacity_routes: routes,
                hidden_dim,
                expert_hidden: HiddenShape { hidden_dim: hidden_dim, seq_len: routes },
                expert_weight: routes,
                expert_route_slot: routes,
                route_out: HiddenShape { hidden_dim: hidden_dim, seq_len: routes },
            },
        );
    }
    missing
}

/// The buffers hold what is asked for.
pub open spec fn active_fits(
    s: DeepseekGroupedExpertActiveScratch,
    capacity_experts: usize,
) -> bool {
    let experts = at_least_one(capacity_experts);
    &&& s.capacity_experts >= experts
}

/// Buffers for what is asked for.
pub open spec fn fresh_active(capacity_experts: usize) -> DeepseekGroupedExpertActiveScratch {
    let experts = at_least_one(capacity_experts);
    DeepseekGroupedExpertActiveScratch {
        capacity_experts: experts,
        indices: experts,
        offsets: experts,
        counts: experts,
    }
}

/// The buffers after a request: the present ones where they hold what is asked
/// for, else new ones.
pub open spec fn ensured_active(
    slot: Option<DeepseekGroupedExpertActiveScratch>,
    capacity_experts: usize,
) -> DeepseekGroupedExpertActiveScratch {
    match slot {
        Some(s) => if active_fits(s, capacity_experts) {
            s
        } else {
            fresh_active(capacity_experts)
        },
        None => fresh_active(capacity_experts),
    }
}

/// Buffers hold what they were asked for, and asking again changes nothing.
pub proof fn law_active_scratch_serves(
    slot: Option<DeepseekGroupedExpertActiveScratch>,
    capacity_experts: usize,
)
    ensures
        active_fits(ensured_active(slot, capacity_experts), capacity_experts),
        ensured_active(Some(ensured_active(slot, capacity_experts)), capacity_experts)
            == ensured_active(slot, capacity_experts),
{
}

fn ensure_active_slot(
    slot: &mut Option<DeepseekGroupedExpertActiveScratch>,
    capacity_experts: usize,
) -> (allocated: bool)
    ensures
        *final(slot) == Some(ensured_active(*old(slot), capacity_experts)),
        allocated == !(*old(slot) matches Some(s) && active_fits(s, capacity_experts)),
{
    let experts: usize = max(capacity_experts, 1);
    let missing: bool = match slot {
        Some(s) => s.capacity_experts < experts,
        None => true,
    };
    if missing {
        *slot = Some(
            DeepseekGroupedExpertActiveScratch {
                capacity_experts: experts,
                indices: experts,
                offsets: experts,
                counts: experts,
            },
        );
    }
    missing
}

/// The buffers hold what is asked for.
pub open spec fn mhc_fits(
    s: DeepseekMhcRuntimeScratch,
    stream_hidden_dim: usize,
    mix_dim: usize,
    hc_mult: usize,
    capacity_tokens: usize,
) -> bool {
    let tokens = at_least_one(capacity_tokens);
    &&& s.capacity_tokens >= tokens
    &&& s.stream_hidden_dim == stream_hidden_dim
    &&& s.mix_dim == mix_dim
    &&& s.hc_mult == hc_mult
}

/// Buffers for what is asked for.
pub open spec fn fresh_mhc(
    stream_hidden_dim: usize,
    mix_dim: usize,
    hc_mult: usize,
    capacity_tokens: usize,
) -> DeepseekMhcRuntimeScratch {
    let tokens = at_least_one(capacity_tokens);
    DeepseekMhcRuntimeScratch {
        capacity_tokens: tokens,
        stream_hidden_dim,
        mix_dim,
        hc_mult,
        mixes: HiddenShape { hidden_dim: mix_dim, seq_len: tokens },
        pre: (tokens * hc_mult) as usize,
        post: (tokens * hc_mult) as usize,
        comb: (tokens * hc_mult * hc_mult) as usize,
    }
}

/// The sizes of the buffers can be counted.
pub open spec fn mhc_countable(
    stream_hidden_dim: usize,
    mix_dim: usize,
    hc_mult: usize,
    capacity_tokens: usize,
) -> bool {
    let tokens = at_least_one(capacity_tokens);
    &&& tokens * hc_mult <= usize::MAX
    &&& tokens * hc_mult * hc_mult <= usize::MAX
}

/// The buffers after a request: the present ones where they hold what is asked
/// for, else new ones.
pub open spec fn ensured_mhc(
    slot: Option<DeepseekMhcRuntimeScratch>,
    stream_hidden_dim: usize,
    mix_dim: usize,
    hc_mult: usize,
    capacity_tokens: usize,
) -> DeepseekMhcRuntimeScratch {
    match slot {
        Some(s) => if mhc_fits(s, stream_hidden_dim, mix_dim, hc_mult, capacity_tokens) {
            s
        } else {
            fresh_mhc(stream_hidden_dim, mix_dim, hc_mult, capacity_tokens)
        },
        None => fresh_mhc(stream_hidden_dim, mix_dim, hc_mult, capacity_tokens),
    }
}

/// Buffers hold what they were asked for, and asking again changes nothing.
pub proof fn law_mhc_scratch_serves(
    slot: Option<DeepseekMhcRuntimeScratch>,
    stream_hidden_dim: usize,
    mix_dim: usize,
    hc_mult: usize,
    capacity_tokens: usize,
)
    ensures
        mhc_fits(
            ensured_mhc(slot, stream_hidden_dim, mix_dim, hc_mult, capacity_tokens),
            stream_hidden_dim,
            mix_dim,
            hc_mult,
            capacity_tokens,
        ),
        ensured_mhc(
            Some(ensured_mhc(slot, stream_hidden_dim, mix_dim, hc_mult, capacity_tokens)),
            stream_hidden_dim,
            mix_dim,
            hc_mult,
            capacity_tokens,
        )
            == ensured_mhc(slot, stream_hidden_dim, mix_dim, hc_mult, capacity_tokens),
{
}

/// Makes sure of the buffers; says whether new ones have to be allocated.
pub fn ensure_mhc_scratch(
    slot: &mut Option<DeepseekMhcRuntimeScratch>,
    stream_hidden_dim: usize,
    mix_dim: usize,
    hc_mult: usize,
    capacity_tokens: usize,
) -> (allocated: bool)
    requires
        !(
            *old(slot) matches Some(s)
                && mhc_fits(s, stream_hidden_dim, mix_dim, hc_mult, capacity_tokens)
        )
            ==> mhc_countable(stream_hidden_dim, mix_dim, hc_mult, capacity_tokens),
    ensures
        *final(slot)
            == Some(ensured_mhc(*old(slot), stream_hidden_dim, mix_dim, hc_mult, capacity_tokens)),
        allocated
            == !(
                *old(slot) matches Some(s)
                    && mhc_fits(s, stream_hidden_dim, mix_dim, hc_mult, capacity_tokens)
            ),
{
    let tokens: usize = max(capacity_tokens, 1);
    let missing: bool = match slot {
        Some(s) => s.capacity_tokens < tokens || s.stream_hidden_dim != stream_hidden_dim
            || s.mix_dim != mix_dim || s.hc_mult != hc_mult,
        None => true,
    };
    if missing {
        proof {
            assert(
                tokens * hc_mult <= tokens * hc_mult * hc_mult || hc_mult == 0
            ) by (nonlinear_arith);
        }
        *slot = Some(
            DeepseekMhcRuntimeScratch {
                capacity_tokens: tokens,
                stream_hidden_dim,
                mix_dim,
                hc_mult,
                mixes: HiddenShape { hidden_dim: mix_dim, seq_len: tokens },
                pre: tokens * hc_mult,
                post: tokens * hc_mult,
                comb: tokens * hc_mult * hc_mult,
            },
        );
    }
    missing
}

/// Buffers of the experts of a layer.
#[derive(Clone, Copy, Debug, PartialEq, Eq, Structural)]
pub struct DeepseekMoeRuntimeCache {
    pub route_logits: Option<DeepseekRouteLogitsRuntimeScratch>,
    pub dispatch: Option<DeepseekDispatchRuntimeScratch>,
    pub dispatch_payload: Option<DeepseekDispatchPayloadRuntimeScratch>,
    pub send_route: Option<DeepseekSendRouteRuntimeScratch>,
    pub recv_route: Option<DeepseekRecvRouteRuntimeScratch>,
    pub local_route: Option<DeepseekLocalRouteRuntimeScratch>,
    pub expert: Option<DeepseekExpertRuntimeScratch>,
    pub shared_expert: Option<DeepseekExpertRuntimeScratch>,
    pub grouped: Option<DeepseekGroupedExpertRuntimeScratch>,
    pub route_combine: Option<DeepseekRouteCombineRuntimeScratch>,
    pub native_deepep: Option<DeepseekNativeDeepEpRuntimeScratch>,
}

/// No buffers.
pub open spec fn no_moe_buffers() -> DeepseekMoeRuntimeCache {
    DeepseekMoeRuntimeCache {
        route_logits: None,
        dispatch: None,
        dispatch_payload: None,
        send_route: None,
        recv_route: None,
        local_route: None,
        expert: None,
        shared_expert: None,
        grouped: None,
        route_combine: None,
        native_deepep: None,
    }
}

impl Default for DeepseekMoeRuntimeCache {
    fn default() -> (cache: Self)
        ensures
            cache == no_moe_buffers(),
    {
        DeepseekMoeRuntimeCache {
            route_logits: None,
            dispatch: None,
            dispatch_payload: None,
            send_route: None,
            recv_route: None,
            local_route: None,
            expert: None,
            shared_expert: None,
            grouped: None,
            route_combine: None,
            native_deepep: None,
        }
    }
}

impl DeepseekMoeRuntimeCache {
    /// Makes sure of the buffers; says whether new ones have to be allocated.
    pub fn ensure_dispatch_scratch(
        &mut self,
        hidden_dim: usize,
        capacity_tokens: usize,
        topk: usize,
        ep_world: usize,
        experts_per_rank: usize,
    ) -> (allocated: bool)
        requires
            !(
                old(self).dispatch matches Some(s)
                    && dispatch_fits(
                        s,
                        hidden_dim,
                        capacity_tokens,
                        topk,
                        ep_world,
                        experts_per_rank,
                    )
            )
                ==> dispatch_countable(
                    hidden_dim,
                    capacity_tokens,
                    topk,
                    ep_world,
                    experts_per_rank,
                ),
        ensures
            *final(self) == (DeepseekMoeRuntimeCache {
                dispatch: Some(
                    ensured_dispatch(
                        old(self).dispatch,
                        hidden_dim,
                        capacity_tokens,
                        topk,
                        ep_world,
                        experts_per_rank,
                    ),
                ),
                ..*old(self)
            }),
            allocated
                == !(
                    old(self).dispatch matches Some(s)
                        && dispatch_fits(
                            s,
                            hidden_dim,
                            capacity_tokens,
                            topk,
                            ep_world,
                            experts_per_rank,
                        )
                ),
    {
        ensure_dispatch_slot(
            &mut self.dispatch,
            hidden_dim,
            capacity_tokens,
            topk,
            ep_world,
            experts_per_rank,
        )
    }

    /// Makes sure of the buffers; says whether new ones have to be allocated.
    pub fn ensure_expert_scratch(
        &mut self,
        hidden_dim: usize,
        intermediate_dim: usize,
        output_dim: usize,
        capacity_tokens: usize,
    ) -> (allocated: bool)
        ensures
            *final(self) == (DeepseekMoeRuntimeCache {
                expert: Some(
                    ensured_expert(
                        old(self).expert,
                        hidden_dim,
                        intermediate_dim,
                        output_dim,
                        capacity_tokens,
                    ),
                ),
                ..*old(self)
            }),
            allocated
                == !(
                    old(self).expert matches Some(s)
                        && expert_fits(s, hidden_dim, intermediate_dim, output_dim, capacity_tokens)
                ),
    {
        ensure_expert_slot(
            &mut self.expert,
            hidden_dim,
            intermediate_dim,
            output_dim,
            capacity_tokens,
        )
    }

    /// Makes sure of the buffers; says whether new ones have to be allocated.
    pub fn ensure_shared_expert_scratch(
        &mut self,
        hidden_dim: usize,
        intermediate_dim: usize,
        output_dim: usize,
        capacity_tokens: usize,
    ) -> (allocated: bool)
        ensures
            *final(self) == (DeepseekMoeRuntimeCache {
                shared_expert: Some(
                    ensured_expert(
                        old(self).shared_expert,
                        hidden_dim,
                        intermediate_dim,
                        output_dim,
                        capacity_tokens,
                    ),
                ),
                ..*old(self)
            }),
            allocated
                == !(
                    old(self).shared_expert matches Some(s)
                        && expert_fits(s, hidden_dim, intermediate_dim, output_dim, capacity_tokens)
                ),
    {
        ensure_expert_slot(
            &mut self.shared_expert,
            hidden_dim,
            intermediate_dim,
            output_dim,
            capacity_tokens,
        )
    }

    /// Makes sure of the buffers; says whether new ones have to be allocated.
    pub fn ensure_grouped_expert_scratch(
        &mut self,
        hidden_dim: usize,
        intermediate_dim: usize,
        capacity_routes: usize,
    ) -> (allocated: bool)
        ensures
            *final(self) == (DeepseekMoeRuntimeCache {
                grouped: Some(
                    ensured_grouped(
                        old(self).grouped,
                        hidden_dim,
                        intermediate_dim,
                        capacity_routes,
                    ),
                ),
                ..*old(self)
            }),
            allocated
                == !(
                    old(self).grouped matches Some(s)
                        && grouped_fits(s, hidden_dim, intermediate_dim, capacity_routes)
                ),
    {
        ensure_grouped_slot(&mut self.grouped, hidden_dim, intermediate_dim, capacity_routes)
    }

    /// Makes sure of the buffers; says whether new ones have to be allocated.
    pub fn ensure_route_combine_scratch(
        &mut self,
        hidden_dim: usize,
        capacity_routes: usize,
    ) -> (allocated: bool)
        requires
            !(
                old(self).route_combine matches Some(s)
                    && route_combine_fits(s, hidden_dim, capacity_routes)
            )
                ==> route_combine_countable(hidden_dim, capacity_routes),
        ensures
            *final(self) == (DeepseekMoeRuntimeCache {
                route_combine: Some(
                    ensured_route_combine(old(self).route_combine, hidden_dim, capacity_routes),
                ),
                ..*old(self)
            }),
            allocated
                == !(
                    old(self).route_combine matches Some(s)
                        && route_combine_fits(s, hidden_dim, capacity_routes)
                ),
    {
        ensure_route_combine_slot(&mut self.route_combine, hidden_dim, capacity_routes)
    }

    /// Makes sure of the buffers; says whether new ones have to be allocated.
    pub fn ensure_native_deepep_scratch(
        &mut self,
        hidden_dim: usize,
        capacity_tokens: usize,
        topk: usize,
        ep_world: usize,
        num_experts: usize,
        num_channels: usize,
        experts_per_rank: usize,
    ) -> (allocated: bool)
        ensures
            *final(self) == (DeepseekMoeRuntimeCache {
                native_deepep: Some(
                    ensured_native_deepep(
                        old(self).native_deepep,
                        hidden_dim,
                        capacity_tokens,
                        topk,
                        ep_world,
                        num_experts,
                        num_channels,
                        experts_per_rank,
                    ),
                ),
                ..*old(self)
            }),
            allocated
                == !(
                    old(self).native_deepep matches Some(s)
                        && native_deepep_fits(
                            s,
                            hidden_dim,
                            capacity_tokens,
                            topk,
                            ep_world,
                            num_experts,
                            num_channels,
                            experts_per_rank,
                        )
                ),
    {
        ensure_native_deepep_slot(
            &mut self.native_deepep,
            hidden_dim,
            capacity_tokens,
            topk,
            ep_world,
            num_experts,
            num_channels,
            experts_per_rank,
        )
    }

}

impl DeepseekGroupedExpertRuntimeScratch {
    /// Makes sure of the buffers; says whether new ones have to be allocated.
    pub fn ensure_active_scratch(&mut self, capacity_experts: usize) -> (allocated: bool)
        ensures
            *final(self) == (DeepseekGroupedExpertRuntimeScratch {
                active: Some(ensured_active(old(self).active, capacity_experts)),
                ..*old(self)
            }),
            allocated == !(old(self).active matches Some(s) && active_fits(s, capacity_experts)),
    {
        ensure_active_slot(&mut self.active, capacity_experts)
    }

}

/// Buffers of the grouped matrix products on FP8 values.
///
/// The rows of an expert are padded to a common number, and the stride of the
/// scales to a multiple of four.
#[derive(Clone, Copy, Debug, PartialEq, Eq, Structural)]
pub struct DeepseekDeepGemmExpertRuntimeScratch {
    pub capacity_experts: usize,
    pub capacity_m: usize,
    pub hidden_dim: usize,
    pub intermediate_dim: usize,
    pub scale_stride_m: usize,
    pub input_fp8: usize,
    pub input_scales: usize,
    pub w13_out: HiddenShape,
    pub act_fp8: usize,
    pub act_scales: usize,
    pub out_padded: HiddenShape,
    pub out_compact: HiddenShape,
    pub masked_m: usize,
}

/// Which size of the grouped product's buffers cannot be counted.
#[derive(Clone, Copy, Debug, PartialEq, Eq, Structural)]
pub enum DeepGemmError {
    ScaleStride,
    Rows,
    Input,
    InputScales,
    W13Width,
    Activation,
    ActivationScales,
}

/// The stride of the scales: the rows of an expert, padded to a multiple of
/// four.
pub open spec fn scale_stride(capacity_m: usize) -> nat {
    ceil_div(at_least_one(capacity_m) as nat, 4) * 4
}

/// The rows of all experts.
pub open spec fn deepgemm_rows(capacity_experts: usize, capacity_m: usize) -> nat {
    (at_least_one(capacity_experts) * at_least_one(capacity_m)) as nat
}

/// The scales of all experts over `dim` columns, in blocks of 128.
pub open spec fn deepgemm_scales(capacity_experts: usize, capacity_m: usize, dim: usize) -> nat {
    at_least_one(capacity_experts) as nat * scale_stride(capacity_m) * ceil_div(dim as nat, 128)
}

/// The first size that cannot be counted.
pub open spec fn deepgemm_error(
    capacity_experts: usize,
    capacity_m: usize,
    hidden_dim: usize,
    intermediate_dim: usize,
) -> Option<DeepGemmError> {
    let experts = at_least_one(capacity_experts) as nat;
    let rows = deepgemm_rows(capacity_experts, capacity_m);
    let stride = scale_stride(capacity_m);
    if stride > usize::MAX {
        Some(DeepGemmError::ScaleStride)
    } else if rows > usize::MAX {
        Some(DeepGemmError::Rows)
    } else if rows * hidden_dim > usize::MAX {
        Some(DeepGemmError::Input)
    } else if experts * stride > usize::MAX || deepgemm_scales(
        capacity_experts,
        capacity_m,
        hidden_dim,
    ) > usize::MAX {
        Some(DeepGemmError::InputScales)
    } else if intermediate_dim * 2 > usize::MAX {
        Some(DeepGemmError::W13Width)
    } else if rows * intermediate_dim > usize::MAX {
        Some(DeepGemmError::Activation)
    } else if deepgemm_scales(capacity_experts, capacity_m, intermediate_dim) > usize::MAX {
        Some(DeepGemmError::ActivationScales)
    } else {
        None
    }
}

/// The buffers hold what is asked for.
pub open spec fn deepgemm_fits(
    s: DeepseekDeepGemmExpertRuntimeScratch,
    capacity_experts: usize,
    capacity_m: usize,
    hidden_dim: usize,
    intermediate_dim: usize,
) -> bool {
    &&& s.capacity_experts >= at_least_one(capacity_experts)
    &&& s.capacity_m >= at_least_one(capacity_m)
    &&& s.hidden_dim == hidden_dim
    &&& s.intermediate_dim == intermediate_dim
}

/// Buffers for what is asked for.
pub open spec fn fresh_deepgemm(
    capacity_experts: usize,
    capacity_m: usize,
    hidden_dim: usize,
    intermediate_dim: usize,
) -> DeepseekDeepGemmExpertRuntimeScratch {
    let rows = deepgemm_rows(capacity_experts, capacity_m) as usize;
    DeepseekDeepGemmExpertRuntimeScratch {
        capacity_experts: at_least_one(capacity_experts),
        capacity_m: at_least_one(capacity_m),
        hidden_dim,
        intermediate_dim,
        scale_stride_m: scale_stride(capacity_m) as usize,
        input_fp8: (rows * hidden_dim) as usize,
        input_scales: deepgemm_scales(capacity_experts, capacity_m, hidden_dim) as usize,
        w13_out: HiddenShape { hidden_dim: (intermediate_dim * 2) as usize, seq_len: rows },
        act_fp8: (rows * intermediate_dim) as usize,
        act_scales: deepgemm_scales(capacity_experts, capacity_m, intermediate_dim) as usize,
        out_padded: HiddenShape { hidden_dim, seq_len: rows },
        out_compact: HiddenShape { hidden_dim, seq_len: rows },
        masked_m: at_least_one(capacity_experts),
    }
}

/// Buffers whose rows are cut to those of the request.
pub open spec fn with_rows(
    s: DeepseekDeepGemmExpertRuntimeScratch,
    rows: usize,
) -> DeepseekDeepGemmExpertRuntimeScratch {
    DeepseekDeepGemmExpertRuntimeScratch {
        w13_out: HiddenShape { seq_len: rows, ..s.w13_out },
        out_padded: HiddenShape { seq_len: rows, ..s.out_padded },
        out_compact: HiddenShape { seq_len: rows, ..s.out_compact },
        ..s
    }
}

/// The buffers after a request.
pub open spec fn ensured_deepgemm(
    slot: Option<DeepseekDeepGemmExpertRuntimeScratch>,
    capacity_experts: usize,
    capacity_m: usize,
    hidden_dim: usize,
    intermediate_dim: usize,
) -> DeepseekDeepGemmExpertRuntimeScratch {
    let fresh = fresh_deepgemm(capacity_experts, capacity_m, hidden_dim, intermediate_dim);
    let base = match slot {
        Some(s) => if deepgemm_fits(
            s,
            capacity_experts,
            capacity_m,
            hidden_dim,
            intermediate_dim,
        ) {
            s
        } else {
            fresh
        },
        None => fresh,
    };
    with_rows(base, deepgemm_rows(capacity_experts, capacity_m) as usize)
}

/// Buffers hold what they were asked for, and asking again changes nothing.
pub proof fn law_deepgemm_scratch_serves(
    slot: Option<DeepseekDeepGemmExpertRuntimeScratch>,
    capacity_experts: usize,
    capacity_m: usize,
    hidden_dim: usize,
    intermediate_dim: usize,
)
    ensures
        ({
            let s = ensured_deepgemm(
                slot,
                capacity_experts,
                capacity_m,
                hidden_dim,
                intermediate_dim,
            );
            &&& deepgemm_fits(s, capacity_experts, capacity_m, hidden_dim, intermediate_dim)
            &&& ensured_deepgemm(
                Some(s),
                capacity_experts,
                capacity_m,
                hidden_dim,
                intermediate_dim,
            ) == s
        }),
{
}

impl DeepseekGroupedExpertRuntimeScratch {
    /// Makes sure of the buffers of the grouped product; says whether new ones
    /// have to be allocated. On an error nothing changes.
    pub fn ensure_deepgemm_scratch(
        &mut self,
        capacity_experts: usize,
        capacity_m: usize,
        hidden_dim: usize,
        intermediate_dim: usize,
    ) -> (r: Result<bool, DeepGemmError>)
        ensures
            match deepgemm_error(capacity_experts, capacity_m, hidden_dim, intermediate_dim) {
                Some(e) => r == Err::<bool, DeepGemmError>(e) && *final(self) == *old(self),
                None => {
                    &&& r == Ok::<bool, DeepGemmError>(
                        !(old(self).deepgemm matches Some(s) && deepgemm_fits(
                            s,
                            capacity_experts,
                            capacity_m,
                            hidden_dim,
                            intermediate_dim,
                        )),
                    )
                    &&& *final(self) == (DeepseekGroupedExpertRuntimeScratch {
                        deepgemm: Some(
                            ensured_deepgemm(
                                old(self).deepgemm,
                                capacity_experts,
                                capacity_m,
                                hidden_dim,
                                intermediate_dim,
                            ),
                        ),
                        ..*old(self)
                    })
                },
            },
    {
        let experts: usize = max(capacity_experts, 1);
        let per_expert: usize = max(capacity_m, 1);
        let stride: usize = match div_ceil(per_expert, 4).checked_mul(4) {
            Some(n) => n,
            None => {
                return Err(DeepGemmError::ScaleStride);
            },
        };
        let hidden_cols: usize = div_ceil(hidden_dim, 128);
        let intermediate_cols: usize = div_ceil(intermediate_dim, 128);
        let rows: usize = match experts.checked_mul(per_expert) {
            Some(n) => n,
            None => {
                return Err(DeepGemmError::Rows);
            },
        };
        let input: usize = match rows.checked_mul(hidden_dim) {
            Some(n) => n,
            None => {
                return Err(DeepGemmError::Input);
            },
        };
        let strides: usize = match experts.checked_mul(stride) {
            Some(n) => n,
            None => {
                return Err(DeepGemmError::InputScales);
            },
        };
        let input_scales: usize = match strides.checked_mul(hidden_cols) {
            Some(n) => n,
            None => {
                return Err(DeepGemmError::InputScales);
            },
        };
        let w13_dim: usize = match intermediate_dim.checked_mul(2) {
            Some(n) => n,
            None => {
                return Err(DeepGemmError::W13Width);
            },
        };
        let act: usize = match rows.checked_mul(intermediate_dim) {
            Some(n) => n,
            None => {
                return Err(DeepGemmError::Activation);
            },
        };
        let act_scales: usize = match strides.checked_mul(intermediate_cols) {
            Some(n) => n,
            None => {
                return Err(DeepGemmError::ActivationScales);
            },
        };
        let missing: bool = match &self.deepgemm {
            Some(s) => s.capacity_experts < experts || s.capacity_m < per_expert || s.hidden_dim
                != hidden_dim || s.intermediate_dim != intermediate_dim,
            None => true,
        };
        let mut scratch: DeepseekDeepGemmExpertRuntimeScratch =
            DeepseekDeepGemmExpertRuntimeScratch {
            capacity_experts: experts,
            capacity_m: per_expert,
            hidden_dim,
            intermediate_dim,
            scale_stride_m: stride,
            input_fp8: input,
            input_scales,
            w13_out: HiddenShape { hidden_dim: w13_dim, seq_len: rows },
            act_fp8: act,
            act_scales,
            out_padded: HiddenShape { hidden_dim, seq_len: rows },
            out_compact: HiddenShape { hidden_dim, seq_len: rows },
            masked_m: experts,
        };
        if !missing {
            if let Some(s) = self.deepgemm {
                scratch = s;
            }
        }
        scratch.w13_out.seq_len = rows;
        scratch.out_padded.seq_len = rows;
        scratch.out_compact.seq_len = rows;
        self.deepgemm = Some(scratch);
        Ok(missing)
    }
}

/// A buffer of hidden states, of which the first `seq_len` rows are in use.
#[derive(Clone, Copy, Debug, PartialEq, Eq, Structural)]
pub struct DeepseekHiddenRuntimeScratch {
    pub capacity_tokens: usize,
    pub hidden_dim: usize,
    pub hidden: HiddenShape,
}

/// The buffer holds what is asked for.
pub open spec fn hidden_fits(
    s: DeepseekHiddenRuntimeScratch,
    hidden_dim: usize,
    seq_len: usize,
) -> bool {
    s.capacity_tokens >= at_least_one(seq_len) && s.hidden_dim == hidden_dim
}

/// A new buffer with all its rows in use.
pub open spec fn fresh_hidden(hidden_dim: usize, seq_len: usize) -> DeepseekHiddenRuntimeScratch {
    DeepseekHiddenRuntimeScratch {
        capacity_tokens: at_least_one(seq_len),
        hidden_dim,
        hidden: HiddenShape { hidden_dim, seq_len: at_least_one(seq_len) },
    }
}

/// The buffer with `seq_len` rows in use.
pub open spec fn in_use(
    s: DeepseekHiddenRuntimeScratch,
    seq_len: usize,
) -> DeepseekHiddenRuntimeScratch {
    DeepseekHiddenRuntimeScratch { hidden: HiddenShape { seq_len, ..s.hidden }, ..s }
}

/// The buffer after a request.
pub open spec fn ensured_hidden(
    slot: Option<DeepseekHiddenRuntimeScratch>,
    hidden_dim: usize,
    seq_len: usize,
) -> DeepseekHiddenRuntimeScratch {
    match slot {
        Some(s) => if hidden_fits(s, hidden_dim, seq_len) {
            in_use(s, seq_len)
        } else {
            in_use(fresh_hidden(hidden_dim, seq_len), seq_len)
        },
        None => in_use(fresh_hidden(hidden_dim, seq_len), seq_len),
    }
}

/// A buffer holds what it was asked for, and asking again changes nothing.
pub proof fn law_hidden_scratch_serves(
    slot: Option<DeepseekHiddenRuntimeScratch>,
    hidden_dim: usize,
    seq_len: usize,
)
    ensures
        hidden_fits(ensured_hidden(slot, hidden_dim, seq_len), hidden_dim, seq_len),
        ensured_hidden(slot, hidden_dim, seq_len).hidden.seq_len == seq_len,
        ensured_hidden(Some(ensured_hidden(slot, hidden_dim, seq_len)), hidden_dim, seq_len)
            == ensured_hidden(slot, hidden_dim, seq_len),
{
}

/// Makes sure of a buffer of hidden states; says whether a new one has to be
/// allocated.
pub fn ensure_hidden_scratch(
    slot: &mut Option<DeepseekHiddenRuntimeScratch>,
    hidden_dim: usize,
    seq_len: usize,
) -> (allocated: bool)
    ensures
        *final(slot) == Some(ensured_hidden(*old(slot), hidden_dim, seq_len)),
        allocated == !(*old(slot) matches Some(s) && hidden_fits(s, hidden_dim, seq_len)),
{
    let tokens: usize = max(seq_len, 1);
    let missing: bool = match slot {
        Some(s) => s.capacity_tokens < tokens || s.hidden_dim != hidden_dim,
        None => true,
    };
    let mut scratch: DeepseekHiddenRuntimeScratch = DeepseekHiddenRuntimeScratch {
        capacity_tokens: tokens,
        hidden_dim,
        hidden: HiddenShape { hidden_dim, seq_len: tokens },
    };
    if !missing {
        if let Some(s) = *slot {
            scratch = s;
        }
    }
    scratch.hidden.seq_len = seq_len;
    *slot = Some(scratch);
    missing
}

/// The buffer that a caller takes away.
pub open spec fn taken_hidden(
    slot: Option<DeepseekHiddenRuntimeScratch>,
    hidden_dim: usize,
    seq_len: usize,
) -> DeepseekHiddenRuntimeScratch {
    match slot {
        Some(s) => if hidden_fits(s, hidden_dim, seq_len) {
            in_use(s, seq_len)
        } else {
            fresh_hidden(hidden_dim, seq_len)
        },
        None => fresh_hidden(hidden_dim, seq_len),
    }
}

/// Takes the buffer out of its slot, or a new one where it does not fit; the
/// flag says that a new one has to be allocated.
pub fn take_hidden_scratch(
    slot: &mut Option<DeepseekHiddenRuntimeScratch>,
    hidden_dim: usize,
    seq_len: usize,
) -> (r: (DeepseekHiddenRuntimeScratch, bool))
    ensures
        *final(slot) == None::<DeepseekHiddenRuntimeScratch>,
        r.0 == taken_hidden(*old(slot), hidden_dim, seq_len),
        r.1 == !(*old(slot) matches Some(s) && hidden_fits(s, hidden_dim, seq_len)),
{
    let tokens: usize = max(seq_len, 1);
    let present: Option<DeepseekHiddenRuntimeScratch> = *slot;
    *slot = None;
    if let Some(mut s) = present {
        if s.capacity_tokens >= tokens && s.hidden_dim == hidden_dim {
            s.hidden.seq_len = seq_len;
            return (s, false);
        }
    }
    (
        DeepseekHiddenRuntimeScratch {
            capacity_tokens: tokens,
            hidden_dim,
            hidden: HiddenShape { hidden_dim, seq_len: tokens },
        },
        true,
    )
}

/// Puts a buffer back into its slot.
pub fn put_hidden_scratch(
    slot: &mut Option<DeepseekHiddenRuntimeScratch>,
    scratch: DeepseekHiddenRuntimeScratch,
)
    ensures
        *final(slot) == Some(scratch),
{
    *slot = Some(scratch);
}

/// A buffer that was put back is handed out again to a request that it serves.
pub proof fn law_put_back_is_reused(
    scratch: DeepseekHiddenRuntimeScratch,
    hidden_dim: usize,
    seq_len: usize,
)
    requires
        hidden_fits(scratch, hidden_dim, seq_len),
    ensures
        taken_hidden(Some(scratch), hidden_dim, seq_len) == in_use(scratch, seq_len),
{
}

} // verus!
