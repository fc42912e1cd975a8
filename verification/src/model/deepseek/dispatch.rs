//! Dispatch of tokens to the ranks that hold their experts.
//!
//! A step goes through these stages; between two of them a kernel or the other
//! ranks supply counts:
//!
//! 1. the router runs, and the routes to each rank are counted;
//! 2. the routes are packed rank by rank, and the counts are exchanged;
//! 3. hidden states and route data are exchanged;
//! 4. the routes received are counted and packed expert by expert;
//! 5. the experts run, as one group or one after the other;
//! 6. the outputs go back the way the inputs came and are combined.

use vstd::prelude::*;

use crate::model::deepseek::config::ExpertGroup;
use crate::model::deepseek::counts::lemma_offsets_are_not_negative;
use crate::model::deepseek::counts::{
    as_sizes, countable, fault_at, is_first_fault, none_negative, offsets_of, scalable, scaled,
    total_routes,
};
use crate::model::deepseek::counts::{
    dsv4_counts_to_offsets_i32, dsv4_counts_to_usize, dsv4_offsets_to_usize, dsv4_scale_usize,
    CountError,
};
use crate::model::deepseek::device::HiddenShape;
use crate::model::deepseek::grouped::{active_experts, ActiveExperts};
use crate::model::deepseek::grouped::{busy, grouped_forward, picked};
use crate::model::deepseek::grouped::{GroupedOutcome, GroupedRequest, GroupedRun};
use crate::model::deepseek::mlp::{fits_i32, route_plan, shapes_agree};
use crate::model::deepseek::mlp::{
    DeepseekV4MoeBlock, MoeError, RoutePlan, RouterConfig,
};
use crate::model::deepseek::routed::planned_segments;
use crate::model::deepseek::routed::{plan_segments, ExpertSegment};
use crate::model::deepseek::scratch::DeepseekMoeRuntimeCache;
use crate::model::deepseek::switches::dsv4_grouped_experts_enabled;
use crate::model::deepseek::switches::grouped_state;

verus! {

/// Arguments of counting and packing the routes to each rank.
#[derive(Clone, Copy, Debug, PartialEq, Eq, Structural)]
pub struct RankRoutes {
    pub route: RoutePlan,
    pub experts_per_rank: i32,
    pub world_size: i32,
    /// Entries of the counts, the offsets and the cursors.
    pub rank_slots: usize,
    pub hidden_dim: i32,
}

/// The routes of a step to all ranks, or why there are none.
pub open spec fn rank_routes(
    block: DeepseekV4MoeBlock,
    config: RouterConfig<'_>,
    ep: ExpertGroup,
    hidden: HiddenShape,
    tokens: usize,
) -> Result<RankRoutes, MoeError> {
    if ep.world_size <= 1 {
        Err(MoeError::SingleRank)
    } else {
        match route_plan(block, config, ep, hidden, tokens) {
            Err(e) => Err(e),
            Ok(route) => if !fits_i32(ep.experts_per_rank) {
                Err(MoeError::ExpertsPerRank)
            } else if !fits_i32(ep.world_size) {
                Err(MoeError::WorldSize)
            } else {
                Ok(
                    RankRoutes {
                        route,
                        experts_per_rank: ep.experts_per_rank as i32,
                        world_size: ep.world_size as i32,
                        rank_slots: ep.world_size,
                        hidden_dim: hidden.hidden_dim as i32,
                    },
                )
            },
        }
    }
}

/// Counted routes, packed one after the other.
pub struct RoutePack {
    pub offsets: Vec<i32>,
    pub starts: Vec<usize>,
    pub counts: Vec<usize>,
    pub total: usize,
}

/// The pack that counts give.
pub open spec fn is_pack_of(pack: RoutePack, counts: Seq<i32>) -> bool {
    &&& pack.offsets@ == offsets_of(counts)
    &&& pack.starts@ == as_sizes(offsets_of(counts))
    &&& pack.counts@ == as_sizes(counts)
    &&& pack.total == total_routes(counts)
}

/// What packing counts gives.
pub open spec fn is_route_pack(r: Result<RoutePack, MoeError>, counts: Seq<i32>) -> bool {
    if countable(counts) {
        r matches Ok(pack) && is_pack_of(pack, counts)
    } else {
        r matches Err(MoeError::Counts(e)) && is_first_fault(counts, e)
    }
}

/// Packs routes by their counts, rank by rank or expert by expert.
pub fn pack_routes(counts: &Vec<i32>) -> (r: Result<RoutePack, MoeError>)
    ensures
        is_route_pack(r, counts@),
{
    let (offsets, total) = match dsv4_counts_to_offsets_i32(counts.as_slice()) {
        Ok(r) => r,
        Err(e) => {
            proof {
                let i = choose|i: int|
                    0 <= i < counts@.len() && #[trigger] fault_at(counts@, i) == Some(e);
                assert(fault_at(counts@, i) is Some);
            }
            return Err(MoeError::Counts(e));
        },
    };
    proof {
        lemma_offsets_are_not_negative(counts@);
    }
    let starts: Vec<usize> = match dsv4_offsets_to_usize(offsets.as_slice()) {
        Ok(v) => v,
        Err(e) => {
            return Err(MoeError::Counts(e));
        },
    };
    let sizes: Vec<usize> = match dsv4_counts_to_usize(counts.as_slice()) {
        Ok(v) => v,
        Err(e) => {
            return Err(MoeError::Counts(e));
        },
    };
    Ok(RoutePack { offsets, starts, counts: sizes, total })
}

/// What a rank sends to and receives from each rank, in elements.
pub struct Exchange {
    pub send_offsets: Vec<usize>,
    pub send_counts: Vec<usize>,
    pub recv_offsets: Vec<usize>,
    pub recv_counts: Vec<usize>,
}

/// The exchange of packed routes, with `width` elements per route.
pub open spec fn is_exchange(
    x: Exchange,
    send: RoutePack,
    recv: RoutePack,
    width: usize,
) -> bool {
    &&& x.send_offsets@ == scaled(send.starts@, width)
    &&& x.send_counts@ == scaled(send.counts@, width)
    &&& x.recv_offsets@ == scaled(recv.starts@, width)
    &&& x.recv_counts@ == scaled(recv.counts@, width)
}

/// All extents of an exchange can be counted.
pub open spec fn exchangeable(send: RoutePack, recv: RoutePack, width: usize) -> bool {
    &&& scalable(send.starts@, width)
    &&& scalable(send.counts@, width)
    &&& scalable(recv.starts@, width)
    &&& scalable(recv.counts@, width)
}

/// Plans the exchange of packed routes.
pub fn plan_exchange(send: &RoutePack, recv: &RoutePack, width: usize) -> (r: Result<
    Exchange,
    MoeError,
>)
    ensures
        match r {
            Ok(x) => exchangeable(*send, *recv, width) && is_exchange(x, *send, *recv, width),
            Err(e) => !exchangeable(*send, *recv, width) && e == MoeError::Counts(
                CountError::ExtentOverflow,
            ),
        },
{
    let send_offsets: Vec<usize> = match dsv4_scale_usize(send.starts.as_slice(), width) {
        Ok(v) => v,
        Err(e) => {
            return Err(MoeError::Counts(e));
        },
    };
    let send_counts: Vec<usize> = match dsv4_scale_usize(send.counts.as_slice(), width) {
        Ok(v) => v,
        Err(e) => {
            return Err(MoeError::Counts(e));
        },
    };
    let recv_offsets: Vec<usize> = match dsv4_scale_usize(recv.starts.as_slice(), width) {
        Ok(v) => v,
        Err(e) => {
            return Err(MoeError::Counts(e));
        },
    };
    let recv_counts: Vec<usize> = match dsv4_scale_usize(recv.counts.as_slice(), width) {
        Ok(v) => v,
        Err(e) => {
            return Err(MoeError::Counts(e));
        },
    };
    Ok(Exchange { send_offsets, send_counts, recv_offsets, recv_counts })
}

/// The way back of an exchange.
pub open spec fn reverse_of(x: Exchange) -> Exchange {
    Exchange {
        send_offsets: x.recv_offsets,
        send_counts: x.recv_counts,
        recv_offsets: x.send_offsets,
        recv_counts: x.send_counts,
    }
}

impl Exchange {
    /// Turns the exchange round: what was received goes back to where it came
    /// from.
    pub fn reversed(self) -> (back: Exchange)
        ensures
            back == reverse_of(self),
    {
        Exchange {
            send_offsets: self.recv_offsets,
            send_counts: self.recv_counts,
            recv_offsets: self.send_offsets,
            recv_counts: self.send_counts,
        }
    }
}

/// Turning an exchange round twice gives it back, and the way back is the
/// exchange with the two packs changed over.
pub proof fn law_way_back_is_the_way_out(
    x: Exchange,
    send: RoutePack,
    recv: RoutePack,
    width: usize,
)
    requires
        is_exchange(x, send, recv, width),
    ensures
        reverse_of(reverse_of(x)) == x,
        is_exchange(reverse_of(x), recv, send, width),
{
}

/// What one rank is sent does not overlap what a later one is sent, and
/// nothing reaches past the packed states.
pub proof fn law_extents_do_not_overlap(
    counts: Seq<i32>,
    pack: RoutePack,
    width: usize,
    i: int,
    j: int,
)
    requires
        countable(counts),
        is_pack_of(pack, counts),
        scalable(pack.starts@, width),
        scalable(pack.counts@, width),
        0 <= i < j < counts.len(),
    ensures
        scaled(pack.starts@, width)[i] + scaled(pack.counts@, width)[i] <= scaled(
            pack.starts@,
            width,
        )[j],
        scaled(pack.starts@, width)[j] + scaled(pack.counts@, width)[j] <= pack.total * width,
{
    lemma_offsets_are_not_negative(counts);
    crate::model::deepseek::counts::law_routes_do_not_overlap(counts, i, j);
    assert(fault_at(counts, i) is None && fault_at(counts, j) is None);
    let a = pack.starts@[i] as int;
    let b = pack.counts@[i] as int;
    let c = pack.starts@[j] as int;
    let d = pack.counts@[j] as int;
    let t = pack.total as int;
    let w = width as int;
    assert(none_negative(counts) && none_negative(offsets_of(counts)));
    assert(counts[i] >= 0 && counts[j] >= 0);
    assert(offsets_of(counts)[i] >= 0 && offsets_of(counts)[j] >= 0);
    assert(a + b <= c && c + d <= t);
    assert(a * w + b * w <= c * w && c * w + d * w <= t * w) by (nonlinear_arith)
        requires
            a + b <= c,
            c + d <= t,
            0 <= w,
    ;
    assert(pack.starts@[i] * width <= usize::MAX && pack.counts@[i] * width <= usize::MAX);
    assert(pack.starts@[j] * width <= usize::MAX && pack.counts@[j] * width <= usize::MAX);
    assert(0 <= a * w && 0 <= b * w && 0 <= c * w && 0 <= d * w) by (nonlinear_arith)
        requires
            0 <= a,
            0 <= b,
            0 <= c,
            0 <= d,
            0 <= w,
    ;
}

/// The extents of an exchange of one value per rank.
pub fn one_per_rank(world_size: usize) -> (x: Exchange)
    ensures
        x.send_offsets@ == Seq::new(world_size as nat, |i: int| i as usize),
        x.send_counts@ == Seq::new(world_size as nat, |i: int| 1usize),
        x.recv_offsets@ == x.send_offsets@,
        x.recv_counts@ == x.send_counts@,
{
    let mut send_offsets: Vec<usize> = Vec::new();
    let mut send_counts: Vec<usize> = Vec::new();
    let mut recv_offsets: Vec<usize> = Vec::new();
    let mut recv_counts: Vec<usize> = Vec::new();
    let mut i: usize = 0;
    while i < world_size
        invariant
            i <= world_size,
            send_offsets@ == Seq::new(i as nat, |k: int| k as usize),
            send_counts@ == Seq::new(i as nat, |k: int| 1usize),
            recv_offsets@ == send_offsets@,
            recv_counts@ == send_counts@,
        decreases world_size - i,
    {
        send_offsets.push(i);
        send_counts.push(1);
        recv_offsets.push(i);
        recv_counts.push(1);
        i = i + 1;
        proof {
            assert(send_offsets@ =~= Seq::new(i as nat, |k: int| k as usize));
            assert(send_counts@ =~= Seq::new(i as nat, |k: int| 1usize));
        }
    }
    Exchange { send_offsets, send_counts, recv_offsets, recv_counts }
}

/// Hidden states and route data of a step, as they are exchanged.
pub struct DispatchExchange {
    pub hidden: Exchange,
    /// Three values per route.
    pub meta: Exchange,
}

/// Both exchanges of a step.
pub open spec fn is_dispatch(
    x: DispatchExchange,
    send: RoutePack,
    recv: RoutePack,
    hidden_dim: usize,
) -> bool {
    &&& is_exchange(x.hidden, send, recv, hidden_dim)
    &&& is_exchange(x.meta, send, recv, 3)
}

/// Plans both exchanges of a step.
pub fn plan_dispatch(send: &RoutePack, recv: &RoutePack, hidden_dim: usize) -> (r: Result<
    DispatchExchange,
    MoeError,
>)
    ensures
        match r {
            Ok(x) => {
                &&& exchangeable(*send, *recv, hidden_dim) && exchangeable(*send, *recv, 3)
                &&& is_dispatch(x, *send, *recv, hidden_dim)
            },
            Err(e) => {
                &&& !(exchangeable(*send, *recv, hidden_dim) && exchangeable(*send, *recv, 3))
                &&& e == MoeError::Counts(CountError::ExtentOverflow)
            },
        },
{
    let hidden: Exchange = match plan_exchange(send, recv, hidden_dim) {
        Ok(x) => x,
        Err(e) => {
            return Err(e);
        },
    };
    let meta: Exchange = match plan_exchange(send, recv, 3) {
        Ok(x) => x,
        Err(e) => {
            return Err(e);
        },
    };
    Ok(DispatchExchange { hidden, meta })
}

/// Arguments of counting and packing the routes received.
#[derive(Clone, Copy, Debug, PartialEq, Eq, Structural)]
pub struct ReceivedRoutes {
    pub total: i32,
    pub local_expert_start: i32,
    pub experts_per_rank: i32,
    /// Entries of the counts, the offsets and the cursors.
    pub expert_slots: usize,
    pub hidden_dim: i32,
}

/// The routes received, where there are any.
pub open spec fn received_routes(total: usize, ep: ExpertGroup, hidden_dim: usize) -> Result<
    Option<ReceivedRoutes>,
    MoeError,
> {
    if total == 0 {
        Ok(None)
    } else if !fits_i32(ep.local_expert_start) {
        Err(MoeError::ExpertStart)
    } else {
        Ok(
            Some(
                ReceivedRoutes {
                    total: total as i32,
                    local_expert_start: ep.local_expert_start as i32,
                    experts_per_rank: ep.experts_per_rank as i32,
                    expert_slots: ep.experts_per_rank,
                    hidden_dim: hidden_dim as i32,
                },
            ),
        )
    }
}

/// Plans counting and packing the routes received; without any there is
/// nothing to run.
pub fn plan_received(total: usize, ep: &ExpertGroup, hidden_dim: usize) -> (r: Result<
    Option<ReceivedRoutes>,
    MoeError,
>)
    ensures
        r == received_routes(total, *ep, hidden_dim),
{
    if total == 0 {
        return Ok(None);
    }
    if ep.local_expert_start > 0x7fff_ffff {
        return Err(MoeError::ExpertStart);
    }
    Ok(
        Some(
            ReceivedRoutes {
                total: total as i32,
                local_expert_start: ep.local_expert_start as i32,
                experts_per_rank: ep.experts_per_rank as i32,
                expert_slots: ep.experts_per_rank,
                hidden_dim: hidden_dim as i32,
            },
        ),
    )
}

/// The largest of the first `n` counts.
pub open spec fn largest(counts: Seq<usize>, n: int) -> usize
    decreases n,
{
    if n <= 0 {
        0
    } else if counts[n - 1] > largest(counts, n - 1) {
        counts[n - 1]
    } else {
        largest(counts, n - 1)
    }
}

fn largest_count(counts: &Vec<usize>) -> (m: usize)
    ensures
        m == largest(counts@, counts@.len() as int),
{
    let mut m: usize = 0;
    let mut i: usize = 0;
    while i < counts.len()
        invariant
            i <= counts@.len(),
            m == largest(counts@, i as int),
        decreases counts@.len() - i,
    {
        if counts[i] > m {
            m = counts[i];
        }
        i = i + 1;
    }
    m
}

/// How the experts of a rank run over the routes received.
pub enum LocalExperts {
    /// There is nothing to run.
    Nothing,
    /// As one group.
    Grouped(ActiveExperts, GroupedRun),
    /// One after the other.
    OneByOne(Vec<ExpertSegment>),
}

/// What the experts run on: the counted routes, the width of the states, and
/// how many routes were received.
pub struct LocalWork<'a> {
    pub counts: &'a Vec<i32>,
    pub pack: &'a RoutePack,
    pub hidden_dim: usize,
    pub received: usize,
}

impl<'a> LocalWork<'a> {
    /// One count per expert, and states that can be counted.
    pub open spec fn wf(self, experts: nat) -> bool {
        &&& self.counts@.len() == experts
        &&& countable(self.counts@)
        &&& is_pack_of(*self.pack, self.counts@)
        &&& total_routes(self.counts@) * self.hidden_dim <= usize::MAX
    }

    /// The group's request for this work.
    pub open spec fn group_request(self) -> GroupedRequest {
        GroupedRequest {
            input: HiddenShape { hidden_dim: self.hidden_dim, seq_len: self.pack.total },
            output: HiddenShape { hidden_dim: self.hidden_dim, seq_len: self.received },
            total_routes: self.pack.total,
            max_routes: largest(self.pack.counts@, self.pack.counts@.len() as int),
        }
    }
}

/// The experts one after the other, and the buffers afterwards.
pub open spec fn is_one_by_one(
    r: Result<LocalExperts, MoeError>,
    after: DeepseekMoeRuntimeCache,
    block: DeepseekV4MoeBlock,
    work: LocalWork<'_>,
    before: DeepseekMoeRuntimeCache,
    keep: bool,
) -> bool {
    let (planned, slot) = planned_segments(
        block.experts@,
        work.counts@,
        work.hidden_dim,
        before.expert,
        keep,
        work.counts@.len() as int,
    );
    &&& after == (DeepseekMoeRuntimeCache { expert: slot, ..before })
    &&& match planned {
        Err(e) => r == Err::<LocalExperts, MoeError>(e),
        Ok(segments) => r matches Ok(LocalExperts::OneByOne(list)) && list@ == segments,
    }
}

/// How the experts run, and the buffers afterwards: as one group where the
/// switch is on, buffers are kept and the weights allow it, else one by one.
pub open spec fn is_local_plan(
    r: Result<LocalExperts, MoeError>,
    after: DeepseekMoeRuntimeCache,
    block: DeepseekV4MoeBlock,
    work: LocalWork<'_>,
    switch: Option<&str>,
    before: DeepseekMoeRuntimeCache,
    keep: bool,
) -> bool {
    let active = busy(work.counts@, work.counts@.len() as int);
    match grouped_state(switch) {
        Err(e) => r == Err::<LocalExperts, MoeError>(MoeError::Switch(e)) && after == before,
        Ok(on) => if !on || !keep {
            is_one_by_one(r, after, block, work, before, keep)
        } else if active.len() == 0 {
            r == Ok::<LocalExperts, MoeError>(LocalExperts::Nothing) && after == before
        } else {
            let (outcome, slot) = grouped_forward(
                block.experts@,
                active,
                work.group_request(),
                before.grouped,
            );
            let prepared = DeepseekMoeRuntimeCache { grouped: slot, ..before };
            match outcome {
                Err(e) => r == Err::<LocalExperts, MoeError>(e) && after == prepared,
                Ok(GroupedOutcome::Done) => r == Ok::<LocalExperts, MoeError>(
                    LocalExperts::Nothing,
                ) && after == prepared,
                Ok(GroupedOutcome::Run(run)) => {
                    &&& r matches Ok(LocalExperts::Grouped(list, planned))
                    &&& planned == run
                    &&& list.experts@ == active
                    &&& list.offsets@ == picked(work.pack.offsets@, active)
                    &&& list.counts@ == picked(work.counts@, active)
                    &&& after == prepared
                },
                Ok(GroupedOutcome::Unsupported) => is_one_by_one(
                    r,
                    after,
                    block,
                    work,
                    prepared,
                    keep,
                ),
            }
        },
    }
}

/// Arguments of the combine kernel.
#[derive(Clone, Copy, Debug, PartialEq, Eq, Structural)]
pub struct CombineArgs {
    pub seq_len: i32,
    pub total_routes: i32,
    pub hidden_dim: i32,
}

/// The arguments that combine `sent` routes.
pub open spec fn combine_args(hidden: HiddenShape, sent: usize) -> CombineArgs {
    CombineArgs {
        seq_len: hidden.seq_len as i32,
        total_routes: sent as i32,
        hidden_dim: hidden.hidden_dim as i32,
    }
}

/// Plans the combination of the outputs of all routes.
pub fn plan_combine(hidden: HiddenShape, sent: usize) -> (args: CombineArgs)
    ensures
        args == combine_args(hidden, sent),
{
    CombineArgs {
        seq_len: hidden.seq_len as i32,
        total_routes: sent as i32,
        hidden_dim: hidden.hidden_dim as i32,
    }
}

impl DeepseekV4MoeBlock {
    /// Plans the router and the count of the routes to each rank.
    pub fn plan_rank_routes(
        &self,
        config: &RouterConfig<'_>,
        ep: &ExpertGroup,
        hidden: HiddenShape,
        tokens: usize,
    ) -> (r: Result<RankRoutes, MoeError>)
        requires
            ep.world_size > 1 && shapes_agree(*self, *config, *ep, hidden, tokens)
                ==> hidden.seq_len * config.num_experts_per_tok <= usize::MAX,
        ensures
            r == rank_routes(*self, *config, *ep, hidden, tokens),
    {
        if ep.world_size <= 1 {
            return Err(MoeError::SingleRank);
        }
        let route: RoutePlan = match self.plan_routes(config, ep, hidden, tokens) {
            Ok(route) => route,
            Err(e) => {
                return Err(e);
            },
        };
        if ep.experts_per_rank > 0x7fff_ffff {
            return Err(MoeError::ExpertsPerRank);
        }
        if ep.world_size > 0x7fff_ffff {
            return Err(MoeError::WorldSize);
        }
        Ok(
            RankRoutes {
                route,
                experts_per_rank: ep.experts_per_rank as i32,
                world_size: ep.world_size as i32,
                rank_slots: ep.world_size,
                hidden_dim: hidden.hidden_dim as i32,
            },
        )
    }

    fn one_by_one(
        &self,
        work: &LocalWork<'_>,
        cache: &mut DeepseekMoeRuntimeCache,
        keep: bool,
    ) -> (r: Result<LocalExperts, MoeError>)
        requires
            work.wf(self.experts@.len()),
        ensures
            is_one_by_one(r, *final(cache), *self, *work, *old(cache), keep),
    {
        match plan_segments(&self.experts, work.counts, work.hidden_dim, cache, keep) {
            Ok(segments) => Ok(LocalExperts::OneByOne(segments)),
            Err(e) => Err(e),
        }
    }

    /// Plans the experts over the routes received.
    ///
    /// `switch` is the text that asks for one group; with `keep`, buffers are
    /// kept between steps.
    pub fn plan_local_experts(
        &self,
        work: &LocalWork<'_>,
        switch: Option<&str>,
        cache: &mut DeepseekMoeRuntimeCache,
        keep: bool,
    ) -> (r: Result<LocalExperts, MoeError>)
        requires
            work.wf(self.experts@.len()),
        ensures
            is_local_plan(r, *final(cache), *self, *work, switch, *old(cache), keep),
    {
        let on: bool = match dsv4_grouped_experts_enabled(switch) {
            Ok(on) => on,
            Err(e) => {
                return Err(MoeError::Switch(e));
            },
        };
        if !on || !keep {
            return self.one_by_one(work, cache, keep);
        }
        let active: ActiveExperts = active_experts(work.counts, &work.pack.offsets);
        if active.experts.len() == 0 {
            return Ok(LocalExperts::Nothing);
        }
        let request: GroupedRequest = GroupedRequest {
            input: HiddenShape { hidden_dim: work.hidden_dim, seq_len: work.pack.total },
            output: HiddenShape { hidden_dim: work.hidden_dim, seq_len: work.received },
            total_routes: work.pack.total,
            max_routes: largest_count(&work.pack.counts),
        };
        match self.forward_grouped_dsv4_experts_gpu(&active.experts, request, cache) {
            Err(e) => Err(e),
            Ok(GroupedOutcome::Done) => Ok(LocalExperts::Nothing),
            Ok(GroupedOutcome::Run(run)) => Ok(LocalExperts::Grouped(active, run)),
            Ok(GroupedOutcome::Unsupported) => self.one_by_one(work, cache, keep),
        }
    }
}

} // verus!
