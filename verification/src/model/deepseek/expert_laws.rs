//! What holds of every step of routed experts: no route is lost on its way to an
//! expert, through it, and back to its token.

use vstd::prelude::*;

use crate::model::deepseek::config::ExpertGroup;
use crate::model::deepseek::counts::{
    countable, fault_at, lemma_offsets_are_not_negative, lemma_sums_ascend,
    none_negative, offsets_of, prefix_sum, scalable, scaled, total_routes,
};
use crate::model::deepseek::device::{HiddenShape, LinearDispatchPhase};
use crate::model::deepseek::dispatch::{
    combine_args, exchangeable, is_dispatch, is_exchange, is_local_plan, is_pack_of, largest,
    rank_routes, received_routes,
};
use crate::model::deepseek::dispatch::{
    DispatchExchange, Exchange, LocalExperts, LocalWork, RankRoutes, RoutePack,
};
use crate::model::deepseek::flow::{
    follows, follows_locally, DispatchAction, DispatchState, ExpertEvent,
    ExpertStep, LocalAction, LocalState,
};
use crate::model::deepseek::grouped::{busy, grouped_forward};
use crate::model::deepseek::grouped::{GroupedOutcome, GroupedRequest};
use crate::model::deepseek::mlp::law_groups_have_one_shape;
use crate::model::deepseek::mlp::law_routes_fill_their_slots;
use crate::model::deepseek::mlp::{
    DeepseekV4Expert, DeepseekV4MoeBlock, ExpertMatrix, MoeError, RouterConfig,
};
use crate::model::deepseek::routed::{
    law_segments_read_their_rows, local_routes, planned_segments,
};
use crate::model::deepseek::scratch::{
    DeepseekExpertRuntimeScratch, DeepseekGroupedExpertRuntimeScratch, DeepseekMoeRuntimeCache,
};

verus! {

/// Offsets are running sums: the first is zero, each next one lies a count further,
/// and the total lies a count after the last.
pub proof fn law_offsets_are_running_sums(counts: Seq<i32>, i: int)
    requires
        countable(counts),
        0 <= i < counts.len(),
    ensures
        offsets_of(counts).len() == counts.len(),
        offsets_of(counts)[0] == 0,
        offsets_of(counts)[i] >= 0,
        i + 1 < counts.len() ==> offsets_of(counts)[i + 1] == offsets_of(counts)[i] + counts[i],
        i + 1 == counts.len() ==> total_routes(counts) == offsets_of(counts)[i] + counts[i],
        counts[i] >= 0,
{
    lemma_offsets_are_not_negative(counts);
    assert(fault_at(counts, i) is None && fault_at(counts, 0) is None);
    assert(i + 1 < counts.len() ==> fault_at(counts, i + 1) is None);
    assert(none_negative(counts)) by {
        assert forall|k: int| 0 <= k < counts.len() implies 0 <= #[trigger] counts[k] by {
            assert(fault_at(counts, k) is None);
        }
    }
    lemma_sums_ascend(counts, 0, i);
    lemma_sums_ascend(counts, i, i + 1);
    assert(prefix_sum(counts, i + 1) == prefix_sum(counts, i) + counts[i]);
}

/// A pack holds, for each rank or expert, where its routes start and how many they
/// are, as counted.
pub proof fn law_packs_hold_what_was_counted(pack: RoutePack, counts: Seq<i32>, i: int)
    requires
        countable(counts),
        is_pack_of(pack, counts),
        0 <= i < counts.len(),
    ensures
        pack.offsets@.len() == pack.starts@.len() == pack.counts@.len() == counts.len(),
        pack.counts@[i] == counts[i],
        pack.starts@[i] == pack.offsets@[i],
        pack.starts@[0] == 0,
        i + 1 < counts.len() ==> pack.starts@[i + 1] == pack.starts@[i] + pack.counts@[i],
        i + 1 == counts.len() ==> pack.total == pack.starts@[i] + pack.counts@[i],
{
    law_offsets_are_running_sums(counts, i);
    law_offsets_are_running_sums(counts, 0);
    if i + 1 < counts.len() {
        law_offsets_are_running_sums(counts, i + 1);
    }
}

/// An exchange moves whole routes: to and from each rank go as many elements as
/// there are routes times the elements of a route, from where these routes lie.
pub proof fn law_exchanges_move_whole_routes(
    x: Exchange,
    send: RoutePack,
    recv: RoutePack,
    width: usize,
    i: int,
)
    requires
        exchangeable(send, recv, width),
        is_exchange(x, send, recv, width),
    ensures
        x.send_counts@.len() == send.counts@.len(),
        x.send_offsets@.len() == send.starts@.len(),
        x.recv_counts@.len() == recv.counts@.len(),
        x.recv_offsets@.len() == recv.starts@.len(),
        0 <= i < send.counts@.len() ==> x.send_counts@[i] == send.counts@[i] * width,
        0 <= i < send.starts@.len() ==> x.send_offsets@[i] == send.starts@[i] * width,
        0 <= i < recv.counts@.len() ==> x.recv_counts@[i] == recv.counts@[i] * width,
        0 <= i < recv.starts@.len() ==> x.recv_offsets@[i] == recv.starts@[i] * width,
{
    lemma_scaled(send.counts@, width, i);
    lemma_scaled(send.starts@, width, i);
    lemma_scaled(recv.counts@, width, i);
    lemma_scaled(recv.starts@, width, i);
}

proof fn lemma_scaled(values: Seq<usize>, factor: usize, i: int)
    requires
        scalable(values, factor),
    ensures
        scaled(values, factor).len() == values.len(),
        0 <= i < values.len() ==> scaled(values, factor)[i] == values[i] * factor,
{
    if 0 <= i < values.len() {
        assert(values[i] * factor <= usize::MAX);
        assert(0 <= values[i] * factor) by (nonlinear_arith);
    }
}

/// A dispatch moves a whole row of states and three values of data per route.
pub proof fn law_dispatches_move_states_and_data(
    x: DispatchExchange,
    send: RoutePack,
    recv: RoutePack,
    hidden_dim: usize,
    i: int,
)
    requires
        exchangeable(send, recv, hidden_dim),
        exchangeable(send, recv, 3),
        is_dispatch(x, send, recv, hidden_dim),
        0 <= i < send.counts@.len(),
        0 <= i < recv.counts@.len(),
    ensures
        x.hidden.send_counts@[i] == send.counts@[i] * hidden_dim,
        x.hidden.recv_counts@[i] == recv.counts@[i] * hidden_dim,
        x.meta.send_counts@[i] == 3 * send.counts@[i],
        x.meta.recv_counts@[i] == 3 * recv.counts@[i],
{
    law_exchanges_move_whole_routes(x.hidden, send, recv, hidden_dim, i);
    law_exchanges_move_whole_routes(x.meta, send, recv, 3, i);
}

/// Routes to all ranks are counted with a slot per rank of a group of several ranks,
/// over the tokens and the width of the step.
pub proof fn law_rank_routes_have_a_slot_per_rank(
    block: DeepseekV4MoeBlock,
    config: RouterConfig<'_>,
    ep: ExpertGroup,
    hidden: HiddenShape,
    tokens: usize,
)
    requires
        rank_routes(block, config, ep, hidden, tokens) is Ok,
        hidden.seq_len * config.num_experts_per_tok <= usize::MAX,
        hidden.seq_len <= i32::MAX && config.num_experts_per_tok <= i32::MAX,
        config.n_routed_experts <= i32::MAX && hidden.hidden_dim <= i32::MAX,
    ensures
        ({
            let p = rank_routes(block, config, ep, hidden, tokens)->Ok_0;
            &&& p.rank_slots == p.world_size == ep.world_size > 1
            &&& p.experts_per_rank == ep.experts_per_rank == block.experts@.len()
            &&& p.hidden_dim == hidden.hidden_dim
            &&& p.route.seq_len * p.route.num_experts_per_tok == p.route.route_slots
            &&& p.route.seq_len == tokens == hidden.seq_len
            &&& p.route.num_experts_per_tok == config.num_experts_per_tok
        }),
{
    law_routes_fill_their_slots(block, config, ep, hidden, tokens);
}

/// The routes of a rank are counted with a slot per expert of the rank, from the
/// first expert of the rank on.
pub proof fn law_local_routes_have_a_slot_per_expert(
    block: DeepseekV4MoeBlock,
    config: RouterConfig<'_>,
    ep: ExpertGroup,
    hidden: HiddenShape,
    tokens: usize,
)
    requires
        local_routes(block, config, ep, hidden, tokens) is Ok,
        hidden.seq_len * config.num_experts_per_tok <= usize::MAX,
        hidden.seq_len <= i32::MAX && config.num_experts_per_tok <= i32::MAX,
        config.n_routed_experts <= i32::MAX && hidden.hidden_dim <= i32::MAX,
    ensures
        ({
            let p = local_routes(block, config, ep, hidden, tokens)->Ok_0;
            &&& p.expert_slots == p.experts_per_rank == ep.experts_per_rank
            &&& p.local_expert_start == ep.local_expert_start
            &&& p.hidden_dim == hidden.hidden_dim
            &&& p.route.seq_len * p.route.num_experts_per_tok == p.route.route_slots
            &&& p.route.seq_len == tokens == hidden.seq_len
            &&& p.route.num_experts_per_tok == config.num_experts_per_tok
        }),
{
    law_routes_fill_their_slots(block, config, ep, hidden, tokens);
}

/// Whatever was received is counted over the experts of the rank; nothing is counted
/// exactly where nothing was received.
pub proof fn law_received_routes_are_counted(total: usize, ep: ExpertGroup, hidden_dim: usize)
    requires
        total <= i32::MAX && hidden_dim <= i32::MAX && ep.experts_per_rank <= i32::MAX,
        ep.local_expert_start <= i32::MAX,
    ensures
        received_routes(total, ep, hidden_dim) is Ok,
        received_routes(total, ep, hidden_dim)->Ok_0 is None <==> total == 0,
        received_routes(total, ep, hidden_dim)->Ok_0 matches Some(p) ==> {
            &&& p.total == total
            &&& p.local_expert_start == ep.local_expert_start
            &&& p.expert_slots == p.experts_per_rank == ep.experts_per_rank
            &&& p.hidden_dim == hidden_dim
        },
{
}

/// The outputs of all routes that came home are combined into the tokens of the
/// step.
pub proof fn law_all_routes_are_combined(hidden: HiddenShape, home: usize)
    requires
        hidden.seq_len <= i32::MAX && hidden.hidden_dim <= i32::MAX && home <= i32::MAX,
    ensures
        combine_args(hidden, home).seq_len == hidden.seq_len,
        combine_args(hidden, home).hidden_dim == hidden.hidden_dim,
        combine_args(hidden, home).total_routes == home,
{
}

/// After the routes to each rank were counted, they are packed rank by rank, and one
/// count goes to every rank.
pub proof fn law_every_rank_is_told_its_count(
    r: Result<(DispatchState, DispatchAction), MoeError>,
    after: DeepseekMoeRuntimeCache,
    block: DeepseekV4MoeBlock,
    q: ExpertStep<'_>,
    routes: RankRoutes,
    counts: Vec<i32>,
    before: DeepseekMoeRuntimeCache,
    i: int,
)
    requires
        follows(
            r,
            after,
            block,
            q,
            DispatchState::Counting { routes },
            ExpertEvent::Counts(counts),
            before,
        ),
        0 <= i < counts@.len() == q.ep.world_size,
    ensures
        r is Ok <==> countable(counts@),
        r matches Ok((next, action)) ==> {
            &&& next matches DispatchState::Sending { sent } && sent.counts@[i] == counts@[i]
            &&& action matches DispatchAction::ExchangeCounts { offsets, total, exchange }
            &&& next->Sending_sent.total == total
            &&& offsets@ == next->Sending_sent.offsets@
            &&& exchange.send_counts@.len() == exchange.recv_counts@.len() == q.ep.world_size
            &&& exchange.send_offsets@[i] == exchange.recv_offsets@[i] == i
            &&& exchange.send_counts@[i] == exchange.recv_counts@[i] == 1
        },
{
    if countable(counts@) {
        law_offsets_are_running_sums(counts@, i);
        law_packs_hold_what_was_counted(r->Ok_0.0->Sending_sent, counts@, i);
    }
}

/// After the counts were exchanged, every rank is sent the routes that were packed
/// for it, and as many are received from it as it announced.
pub proof fn law_announced_routes_are_received(
    r: Result<(DispatchState, DispatchAction), MoeError>,
    after: DeepseekMoeRuntimeCache,
    block: DeepseekV4MoeBlock,
    q: ExpertStep<'_>,
    sent: RoutePack,
    counts: Vec<i32>,
    before: DeepseekMoeRuntimeCache,
    i: int,
)
    requires
        follows(
            r,
            after,
            block,
            q,
            DispatchState::Sending { sent },
            ExpertEvent::Counts(counts),
            before,
        ),
        r is Ok,
        0 <= i < counts@.len() == sent.counts@.len(),
    ensures
        r->Ok_0.0 matches DispatchState::Dispatching { sent: kept, received } && kept == sent
            && received.counts@[i] == counts@[i] && received.total == total_routes(counts@),
        r->Ok_0.1 matches DispatchAction::ExchangeRoutes { routes, received } && received
            == total_routes(counts@) && routes.hidden.send_counts@[i] == sent.counts@[i]
            * q.hidden.hidden_dim && routes.hidden.recv_counts@[i] == counts@[i]
            * q.hidden.hidden_dim && routes.meta.send_counts@[i] == 3 * sent.counts@[i]
            && routes.meta.recv_counts@[i] == 3 * counts@[i],
{
    let received = r->Ok_0.0->Dispatching_received;
    let routes = r->Ok_0.1->routes;
    law_packs_hold_what_was_counted(received, counts@, i);
    law_dispatches_move_states_and_data(routes, sent, received, q.hidden.hidden_dim, i);
}

/// What was received is run or, where nothing was, goes home at once; after the
/// experts have run, the outputs of everything received go back to the rank that
/// each came from, and everything that was sent comes home.
pub proof fn law_outputs_go_home(
    r: Result<(DispatchState, DispatchAction), MoeError>,
    after: DeepseekMoeRuntimeCache,
    block: DeepseekV4MoeBlock,
    q: ExpertStep<'_>,
    sent: RoutePack,
    received: RoutePack,
    before: DeepseekMoeRuntimeCache,
    i: int,
)
    requires
        follows(
            r,
            after,
            block,
            q,
            DispatchState::Running { sent, received },
            ExpertEvent::Completed,
            before,
        ),
        exchangeable(received, sent, q.hidden.hidden_dim),
        0 <= i < sent.counts@.len() == received.counts@.len(),
    ensures
        r is Ok,
        r->Ok_0.0 matches DispatchState::Returning { home } && home == sent.total,
        r->Ok_0.1 matches DispatchAction::ReturnRoutes { exchange, home } && home == sent.total
            && exchange.send_counts@[i] == received.counts@[i] * q.hidden.hidden_dim
            && exchange.recv_counts@[i] == sent.counts@[i] * q.hidden.hidden_dim,
{
    law_exchanges_move_whole_routes(
        r->Ok_0.1->ReturnRoutes_exchange,
        received,
        sent,
        q.hidden.hidden_dim,
        i,
    );
}

/// Received routes are counted before the experts run; without any the step returns
/// at once.
pub proof fn law_received_routes_are_run(
    r: Result<(DispatchState, DispatchAction), MoeError>,
    after: DeepseekMoeRuntimeCache,
    block: DeepseekV4MoeBlock,
    q: ExpertStep<'_>,
    sent: RoutePack,
    received: RoutePack,
    before: DeepseekMoeRuntimeCache,
)
    requires
        follows(
            r,
            after,
            block,
            q,
            DispatchState::Dispatching { sent, received },
            ExpertEvent::Completed,
            before,
        ),
        received.total <= i32::MAX && q.hidden.hidden_dim <= i32::MAX,
        q.ep.experts_per_rank <= i32::MAX && q.ep.local_expert_start <= i32::MAX,
    ensures
        r is Ok,
        received.total == 0 ==> (r->Ok_0.0 matches DispatchState::Returning { home } && home
            == sent.total),
        received.total > 0 ==> r->Ok_0.0 == (DispatchState::Receiving { sent, received }),
        received.total > 0 ==> (r->Ok_0.1 matches DispatchAction::CountReceived(p) && p.total
            == received.total && p.experts_per_rank == q.ep.experts_per_rank
            && p.local_expert_start == q.ep.local_expert_start),
{
    law_received_routes_are_counted(received.total, q.ep, q.hidden.hidden_dim);
}

/// Everything that came home is combined, and with that the step ends.
pub proof fn law_steps_end_with_a_combination(
    r: Result<(DispatchState, DispatchAction), MoeError>,
    after: DeepseekMoeRuntimeCache,
    block: DeepseekV4MoeBlock,
    q: ExpertStep<'_>,
    home: usize,
    before: DeepseekMoeRuntimeCache,
)
    requires
        follows(
            r,
            after,
            block,
            q,
            DispatchState::Returning { home },
            ExpertEvent::Completed,
            before,
        ),
        q.hidden.seq_len <= i32::MAX && q.hidden.hidden_dim <= i32::MAX && home <= i32::MAX,
    ensures
        r is Ok,
        r->Ok_0.0 is Combining,
        r->Ok_0.1 matches DispatchAction::Combine(args) && args.seq_len == q.hidden.seq_len
            && args.hidden_dim == q.hidden.hidden_dim && args.total_routes == home,
        after == before,
{
}

/// A rank that runs its own experts packs the counted routes, runs every expert that
/// has some, and sums the outputs over all ranks.
pub proof fn law_local_steps_run_and_sum(
    r: Result<(LocalState, LocalAction), MoeError>,
    block: DeepseekV4MoeBlock,
    q: ExpertStep<'_>,
    state: LocalState,
    event: ExpertEvent,
    i: int,
)
    requires
        follows_locally(r, block, q, state, event),
        r is Ok,
        state is Counting ==> event is Counts && 0 <= i < event->Counts_0@.len(),
        !(state is Summing),
    ensures
        state is Running ==> r->Ok_0 == (LocalState::Summing, LocalAction::SumRanks),
        state is Counting ==> {
            let counts = event->Counts_0@;
            &&& countable(counts)
            &&& r->Ok_0.0 == LocalState::Running
            &&& r->Ok_0.1 matches LocalAction::RunExperts(packed) && packed.total == total_routes(
                counts,
            ) && packed.offsets@.len() == counts.len() && (packed.offsets@[0] == 0) && (i + 1
                < counts.len() ==> packed.offsets@[i + 1] == packed.offsets@[i] + counts[i])
        },
{
    if state is Counting {
        assert(r->Ok_0.1 is RunExperts);
        law_offsets_are_running_sums(event->Counts_0@, i);
    }
}

/// Buffers of an expert whose states have the widths that they were made for.
pub open spec fn is_sound_expert(s: DeepseekExpertRuntimeScratch) -> bool {
    &&& s.input.hidden_dim == s.hidden_dim
    &&& s.gate.hidden_dim == s.up.hidden_dim == s.act.hidden_dim == s.intermediate_dim
    &&& s.out.hidden_dim == s.output_dim
}

proof fn lemma_slot_stays_sound(
    experts: Seq<DeepseekV4Expert>,
    counts: Seq<i32>,
    hidden_dim: usize,
    slot: Option<DeepseekExpertRuntimeScratch>,
    keep: bool,
    n: int,
)
    requires
        slot matches Some(s) ==> is_sound_expert(s),
    ensures
        planned_segments(experts, counts, hidden_dim, slot, keep, n).1 matches Some(s)
            ==> is_sound_expert(s),
    decreases n,
{
    if n > 0 {
        lemma_slot_stays_sound(experts, counts, hidden_dim, slot, keep, n - 1);
    }
}

/// Every segment runs its own expert over all rows of that expert, whether buffers
/// are kept or not: in through the first and third matrix, out through the second.
pub proof fn law_segments_run_their_expert(
    experts: Seq<DeepseekV4Expert>,
    counts: Seq<i32>,
    hidden_dim: usize,
    slot: Option<DeepseekExpertRuntimeScratch>,
    keep: bool,
    n: int,
    k: int,
)
    requires
        countable(counts),
        total_routes(counts) * hidden_dim <= usize::MAX,
        counts.len() <= usize::MAX,
        0 <= n <= counts.len() == experts.len(),
        slot matches Some(s) ==> is_sound_expert(s),
        planned_segments(experts, counts, hidden_dim, slot, keep, n).0 is Ok,
        0 <= k < planned_segments(experts, counts, hidden_dim, slot, keep, n).0->Ok_0.len(),
    ensures
        ({
            let segment = planned_segments(
                experts,
                counts,
                hidden_dim,
                slot,
                keep,
                n,
            ).0->Ok_0[k];
            let e = experts[segment.expert as int];
            let rows = counts[segment.expert as int];
            &&& 0 <= segment.expert < n
            &&& segment.count == rows > 0
            &&& segment.elem_end - segment.elem_start == rows * hidden_dim
            &&& segment.elem_start == segment.offset * hidden_dim
            &&& segment.run.gate.seq_len == segment.run.up.seq_len == segment.run.act.seq_len
                == segment.run.out.seq_len == rows
            &&& segment.run.gate.hidden_dim == e.w1.rows
            &&& segment.run.up.hidden_dim == e.w3.rows
            &&& segment.run.act.hidden_dim == e.w2.cols
            &&& segment.run.out.hidden_dim == e.w2.rows
            &&& e.w1.cols == e.w3.cols == hidden_dim
            &&& segment.run.phase == if rows > 1 {
                LinearDispatchPhase::Prefill
            } else {
                LinearDispatchPhase::Decode
            }
            &&& segment.scratch is Some <==> keep
        }),
    decreases n,
{
    law_segments_read_their_rows(experts, counts, hidden_dim, slot, keep, n, k);
    if n > 0 {
        let i = n - 1;
        let (before, s) = planned_segments(experts, counts, hidden_dim, slot, keep, i);
        lemma_slot_stays_sound(experts, counts, hidden_dim, slot, keep, i);
        if k < before->Ok_0.len() {
            law_segments_run_their_expert(experts, counts, hidden_dim, slot, keep, i, k);
        } else {
            assert(fault_at(counts, i) is None);
            let (p, c, h) = (prefix_sum(counts, i), counts[i] as int, hidden_dim as int);
            assert((p + c) * h == p * h + c * h) by (nonlinear_arith);
            assert(prefix_sum(counts, i + 1) == p + c);
        }
    }
}

/// A group runs all its experts at once: gate and up through the first and third
/// matrices, down through the second ones, each product over as many rows per expert
/// as the busiest has, and all routes are scattered.
pub proof fn law_groups_run_all_their_experts(
    experts: Seq<DeepseekV4Expert>,
    active: Seq<usize>,
    q: GroupedRequest,
    slot: Option<DeepseekGroupedExpertRuntimeScratch>,
    i: int,
)
    requires
        grouped_forward(experts, active, q, slot).0 matches Ok(GroupedOutcome::Run(run)),
        0 <= i < active.len() <= i32::MAX,
        q.max_routes <= i32::MAX && q.total_routes <= i32::MAX && q.output.hidden_dim <= i32::MAX,
        q.input.hidden_dim <= i32::MAX && experts[0].w1.rows <= i32::MAX,
    ensures
        ({
            let run = grouped_forward(experts, active, q, slot).0->Ok_0->Run_0;
            let e = experts[active[i] as int];
            &&& active[i] < experts.len()
            &&& run.gate.num_experts == run.up.num_experts == run.down.num_experts == active.len()
            &&& run.gate.max_count == run.up.max_count == run.down.max_count == q.max_routes > 0
            &&& run.gate.weights.rows == e.w1.rows
            &&& run.gate.weights.cols == e.w1.cols == q.input.hidden_dim
            &&& run.up.weights.rows == e.w3.rows
            &&& run.up.weights.cols == e.w3.cols == q.input.hidden_dim
            &&& run.down.weights.rows == e.w2.rows
            &&& run.down.weights.cols == e.w2.cols
            &&& run.gate.cols == run.up.cols == q.input.hidden_dim
            &&& run.gate.rows == run.gate.weights.rows as i32
            &&& run.up.rows == run.up.weights.rows as i32
            &&& run.down.rows == run.down.weights.rows as i32
            &&& run.down.cols == run.down.weights.cols as i32
            &&& run.gate.scale_rows == run.gate.weights.scale_rows as i32
            &&& run.gate.scale_cols == run.gate.weights.scale_cols as i32
            &&& run.up.scale_rows == run.up.weights.scale_rows as i32
            &&& run.up.scale_cols == run.up.weights.scale_cols as i32
            &&& run.down.scale_rows == run.down.weights.scale_rows as i32
            &&& run.down.scale_cols == run.down.weights.scale_cols as i32
            &&& run.total_routes == q.total_routes
            &&& run.hidden_dim == q.output.hidden_dim
            &&& q.total_routes <= q.output.seq_len
        }),
{
    law_groups_have_one_shape(experts, active, ExpertMatrix::W1, i);
    law_groups_have_one_shape(experts, active, ExpertMatrix::W2, i);
    law_groups_have_one_shape(experts, active, ExpertMatrix::W3, i);
}

/// There is nothing to run exactly where there are no routes.
pub proof fn law_groups_without_routes_rest(
    experts: Seq<DeepseekV4Expert>,
    active: Seq<usize>,
    q: GroupedRequest,
    slot: Option<DeepseekGroupedExpertRuntimeScratch>,
)
    ensures
        grouped_forward(experts, active, q, slot).0 == Ok::<GroupedOutcome, MoeError>(
            GroupedOutcome::Done,
        ) <==> q.total_routes == 0 || q.max_routes == 0 || active.len() == 0,
{
}

/// A group is asked for all routes of the work, with room for the busiest expert.
pub proof fn law_group_requests_cover_the_work(work: LocalWork<'_>, i: int)
    requires
        0 <= i < work.pack.counts@.len(),
    ensures
        work.group_request().total_routes == work.pack.total,
        work.group_request().max_routes >= work.pack.counts@[i],
        exists|k: int|
            0 <= k < work.pack.counts@.len() && #[trigger] work.pack.counts@[k]
                == work.group_request().max_routes,
        work.group_request().input == (HiddenShape {
            hidden_dim: work.hidden_dim,
            seq_len: work.pack.total,
        }),
        work.group_request().output == (HiddenShape {
            hidden_dim: work.hidden_dim,
            seq_len: work.received,
        }),
{
    lemma_largest(work.pack.counts@, work.pack.counts@.len() as int);
}

proof fn lemma_largest(counts: Seq<usize>, n: int)
    requires
        0 <= n <= counts.len(),
    ensures
        forall|i: int| 0 <= i < n ==> #[trigger] counts[i] <= largest(counts, n),
        n > 0 ==> exists|k: int| 0 <= k < n && #[trigger] counts[k] == largest(counts, n),
    decreases n,
{
    if n > 0 {
        lemma_largest(counts, n - 1);
        if counts[n - 1] > largest(counts, n - 1) {
            assert(counts[n - 1] == largest(counts, n));
        } else if n == 1 {
            assert(counts[0] == largest(counts, 1));
        }
    }
}

/// A grouped plan lists the experts with routes, each with its own offset and count.
pub proof fn law_grouped_experts_keep_their_routes(
    r: Result<LocalExperts, MoeError>,
    after: DeepseekMoeRuntimeCache,
    block: DeepseekV4MoeBlock,
    work: LocalWork<'_>,
    switch: Option<&str>,
    before: DeepseekMoeRuntimeCache,
    keep: bool,
    i: int,
)
    requires
        is_local_plan(r, after, block, work, switch, before, keep),
        r matches Ok(LocalExperts::Grouped(list, run)) && 0 <= i < list.experts@.len(),
        work.counts@.len() <= usize::MAX,
        is_pack_of(*work.pack, work.counts@),
    ensures
        keep,
        ({
            let list = r->Ok_0->Grouped_0;
            let e = list.experts@[i];
            &&& e < work.counts@.len()
            &&& list.counts@[i] == work.counts@[e as int] > 0
            &&& list.offsets@[i] == work.pack.offsets@[e as int]
        }),
{
    let list = r->Ok_0->Grouped_0;
    assert(busy(work.counts@, work.counts@.len() as int).contains(list.experts@[i]));
    crate::model::deepseek::grouped::law_active_experts_have_routes(
        work.counts@,
        list.experts@[i],
    );
}

} // verus!
