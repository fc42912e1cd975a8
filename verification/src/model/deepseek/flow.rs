//! The course of a step of routed experts: which action follows which event.
//!
//! A kernel or the other ranks perform an action; what it counted, or that it
//! is complete, is the next event.

use vstd::prelude::*;

use crate::model::deepseek::config::ExpertGroup;
use crate::model::deepseek::counts::CountError;
use crate::model::deepseek::counts::{
    as_sizes, countable, is_first_fault, offsets_of, scalable, total_routes,
};
use crate::model::deepseek::device::HiddenShape;
use crate::model::deepseek::dispatch::{
    combine_args, exchangeable, is_dispatch, is_exchange, is_local_plan, is_pack_of, rank_routes,
    received_routes, reverse_of,
};
use crate::model::deepseek::dispatch::{
    one_per_rank, pack_routes, plan_combine, plan_dispatch, plan_exchange, plan_received,
};
use crate::model::deepseek::dispatch::{
    CombineArgs, DispatchExchange, Exchange, LocalExperts, LocalWork, RankRoutes, ReceivedRoutes,
    RoutePack,
};
use crate::model::deepseek::mlp::{DeepseekV4MoeBlock, MoeError, RouterConfig};
use crate::model::deepseek::routed::{is_packing, local_routes};
use crate::model::deepseek::routed::{LocalRoutes, PackedRoutes};
use crate::model::deepseek::scratch::DeepseekMoeRuntimeCache;

verus! {

/// What all actions of a step share.
#[derive(Clone, Copy, Debug)]
pub struct ExpertStep<'a> {
    pub ep: ExpertGroup,
    /// The states that the router read.
    pub hidden: HiddenShape,
    /// The text that asks for one group of experts.
    pub grouped: Option<&'a str>,
    /// Buffers are kept between steps.
    pub keep: bool,
}

/// What an action led to.
pub enum ExpertEvent {
    /// Routes were counted, rank by rank or expert by expert.
    Counts(Vec<i32>),
    /// The action is complete.
    Completed,
}

/// Where a dispatched step stands.
pub enum DispatchState {
    /// The routes to each rank are being counted, as they were planned.
    Counting { routes: RankRoutes },
    /// The counts are being exchanged.
    Sending { sent: RoutePack },
    /// The routes are being exchanged.
    Dispatching { sent: RoutePack, received: RoutePack },
    /// The routes to each expert are being counted.
    Receiving { sent: RoutePack, received: RoutePack },
    /// The experts are running.
    Running { sent: RoutePack, received: RoutePack },
    /// The outputs are on their way back.
    Returning { home: usize },
    /// The outputs are being combined; nothing follows.
    Combining,
}

impl DispatchState {
    /// What is exchanged can be counted.
    pub open spec fn wf(self, hidden_dim: usize) -> bool {
        match self {
            DispatchState::Dispatching { sent, received } => exchangeable(
                sent,
                received,
                hidden_dim,
            ),
            DispatchState::Receiving { sent, received } => {
                &&& exchangeable(sent, received, hidden_dim)
                &&& received.total > 0
            },
            DispatchState::Running { sent, received } => exchangeable(sent, received, hidden_dim),
            _ => true,
        }
    }

    /// How far the step has come.
    pub open spec fn stage(self) -> nat {
        match self {
            DispatchState::Counting { .. } => 0,
            DispatchState::Sending { .. } => 1,
            DispatchState::Dispatching { .. } => 2,
            DispatchState::Receiving { .. } => 3,
            DispatchState::Running { .. } => 4,
            DispatchState::Returning { .. } => 5,
            DispatchState::Combining => 6,
        }
    }

    /// The event can follow.
    pub open spec fn awaits(self, event: ExpertEvent) -> bool {
        match self {
            DispatchState::Counting { .. } => event is Counts,
            DispatchState::Sending { .. } => event is Counts,
            DispatchState::Dispatching { .. } => event is Completed,
            DispatchState::Receiving { .. } => event is Counts,
            DispatchState::Running { .. } => event is Completed,
            DispatchState::Returning { .. } => event is Completed,
            DispatchState::Combining => false,
        }
    }
}

/// What a dispatched step does next.
pub enum DispatchAction {
    /// Pack the routes rank by rank, and exchange one count per rank.
    ExchangeCounts { offsets: Vec<i32>, total: usize, exchange: Exchange },
    /// Exchange states and route data; so many routes are received.
    ExchangeRoutes { routes: DispatchExchange, received: usize },
    /// Count the received routes to each expert.
    CountReceived(ReceivedRoutes),
    /// Pack the received routes expert by expert, and run the experts.
    RunExperts { pack: RoutePack, experts: LocalExperts },
    /// Send the outputs back; so many routes come home.
    ReturnRoutes { exchange: Exchange, home: usize },
    /// Combine the outputs of each token's routes.
    Combine(CombineArgs),
}

/// The routes to all ranks were planned for this step, with some router.
pub open spec fn is_rank_start(
    routes: RankRoutes,
    block: DeepseekV4MoeBlock,
    q: ExpertStep<'_>,
) -> bool {
    exists|config: RouterConfig<'_>, tokens: usize| #[trigger]
        rank_routes(block, config, q.ep, q.hidden, tokens) == Ok::<RankRoutes, MoeError>(routes)
}

/// The routes of this rank were planned for this step, with some router.
pub open spec fn is_local_start(
    routes: LocalRoutes,
    block: DeepseekV4MoeBlock,
    q: ExpertStep<'_>,
) -> bool {
    exists|config: RouterConfig<'_>, tokens: usize| #[trigger]
        local_routes(block, config, q.ep, q.hidden, tokens) == Ok::<LocalRoutes, MoeError>(routes)
}

/// A step that was planned for dispatch has several ranks, a slot for each, and
/// numbers that the kernels can take.
pub proof fn law_dispatch_starts_with_several_ranks(
    routes: RankRoutes,
    block: DeepseekV4MoeBlock,
    q: ExpertStep<'_>,
)
    requires
        is_rank_start(routes, block, q),
    ensures
        q.ep.world_size > 1,
        routes.rank_slots == q.ep.world_size,
        routes.world_size == q.ep.world_size,
        routes.experts_per_rank == q.ep.experts_per_rank,
{
}

/// An exchange of one value per rank.
pub open spec fn is_one_per_rank(x: Exchange, world_size: usize) -> bool {
    &&& x.send_offsets@ == Seq::new(world_size as nat, |i: int| i as usize)
    &&& x.send_counts@ == Seq::new(world_size as nat, |i: int| 1usize)
    &&& x.recv_offsets@ == x.send_offsets@
    &&& x.recv_counts@ == x.send_counts@
}

/// What follows the routes to each rank.
pub open spec fn follows_counting(
    r: Result<(DispatchState, DispatchAction), MoeError>,
    counts: Seq<i32>,
    world_size: usize,
) -> bool {
    if !countable(counts) {
        r matches Err(MoeError::Counts(e)) && is_first_fault(counts, e)
    } else {
        match r {
            Ok(
                (
                    DispatchState::Sending { sent },
                    DispatchAction::ExchangeCounts { offsets, total, exchange },
                ),
            ) => {
                &&& is_pack_of(sent, counts)
                &&& offsets@ == offsets_of(counts)
                &&& total == total_routes(counts)
                &&& is_one_per_rank(exchange, world_size)
            },
            _ => false,
        }
    }
}

/// The extents of what is sent and of what counts announce can be counted.
pub open spec fn extents_countable(sent: RoutePack, counts: Seq<i32>, width: usize) -> bool {
    &&& scalable(sent.starts@, width)
    &&& scalable(sent.counts@, width)
    &&& scalable(as_sizes(offsets_of(counts)), width)
    &&& scalable(as_sizes(counts), width)
}

/// What follows the exchange of the counts.
pub open spec fn follows_sending(
    r: Result<(DispatchState, DispatchAction), MoeError>,
    before: RoutePack,
    counts: Seq<i32>,
    hidden_dim: usize,
) -> bool {
    if !countable(counts) {
        r matches Err(MoeError::Counts(e)) && is_first_fault(counts, e)
    } else if !(extents_countable(before, counts, hidden_dim) && extents_countable(
        before,
        counts,
        3,
    )) {
        r == Err::<(DispatchState, DispatchAction), MoeError>(
            MoeError::Counts(CountError::ExtentOverflow),
        )
    } else {
        match r {
            Ok(
                (
                    DispatchState::Dispatching { sent, received },
                    DispatchAction::ExchangeRoutes { routes, received: total },
                ),
            ) => {
                &&& sent == before
                &&& is_pack_of(received, counts)
                &&& is_dispatch(routes, sent, received, hidden_dim)
                &&& total == total_routes(counts)
            },
            _ => false,
        }
    }
}

/// The outputs go back to where the inputs came from.
pub open spec fn follows_experts(
    r: Result<(DispatchState, DispatchAction), MoeError>,
    sent: RoutePack,
    received: RoutePack,
    hidden_dim: usize,
) -> bool {
    match r {
        Ok(
            (
                DispatchState::Returning { home },
                DispatchAction::ReturnRoutes { exchange, home: total },
            ),
        ) => {
            &&& home == sent.total
            &&& total == sent.total
            &&& is_exchange(exchange, received, sent, hidden_dim)
        },
        _ => false,
    }
}

/// What follows the exchange of the routes: without any there is nothing to
/// run.
pub open spec fn follows_dispatching(
    r: Result<(DispatchState, DispatchAction), MoeError>,
    sent: RoutePack,
    received: RoutePack,
    q: ExpertStep<'_>,
) -> bool {
    match received_routes(received.total, q.ep, q.hidden.hidden_dim) {
        Err(e) => r == Err::<(DispatchState, DispatchAction), MoeError>(e),
        Ok(None) => follows_experts(r, sent, received, q.hidden.hidden_dim),
        Ok(Some(routes)) => r == Ok::<(DispatchState, DispatchAction), MoeError>(
            (
                DispatchState::Receiving { sent, received },
                DispatchAction::CountReceived(routes),
            ),
        ),
    }
}

/// How the experts run, by what a step does next.
pub open spec fn experts_of(r: Result<(DispatchState, DispatchAction), MoeError>) -> Result<
    LocalExperts,
    MoeError,
> {
    match r {
        Ok((_, DispatchAction::RunExperts { pack: _, experts })) => Ok(experts),
        Ok(_) => Ok(LocalExperts::Nothing),
        Err(e) => Err(e),
    }
}

/// What follows the routes to each expert, and the buffers afterwards.
pub open spec fn follows_receiving(
    r: Result<(DispatchState, DispatchAction), MoeError>,
    after: DeepseekMoeRuntimeCache,
    block: DeepseekV4MoeBlock,
    sent: RoutePack,
    received: RoutePack,
    counts: Vec<i32>,
    q: ExpertStep<'_>,
    before: DeepseekMoeRuntimeCache,
) -> bool {
    if !countable(counts@) {
        &&& r matches Err(MoeError::Counts(e)) && is_first_fault(counts@, e)
        &&& after == before
    } else {
        exists|pack: RoutePack| #[trigger]
            is_pack_of(pack, counts@) && is_local_plan(
                experts_of(r),
                after,
                block,
                (LocalWork {
                    counts: &counts,
                    pack: &pack,
                    hidden_dim: q.hidden.hidden_dim,
                    received: received.total,
                }),
                q.grouped,
                before,
                q.keep,
            ) && (r is Ok ==> r->Ok_0 == (
                DispatchState::Running { sent, received },
                DispatchAction::RunExperts { pack, experts: experts_of(r)->Ok_0 },
            ))
    }
}

/// What follows an event, and the buffers afterwards.
pub open spec fn follows(
    r: Result<(DispatchState, DispatchAction), MoeError>,
    after: DeepseekMoeRuntimeCache,
    block: DeepseekV4MoeBlock,
    q: ExpertStep<'_>,
    state: DispatchState,
    event: ExpertEvent,
    before: DeepseekMoeRuntimeCache,
) -> bool {
    match (state, event) {
        (DispatchState::Counting { .. }, ExpertEvent::Counts(counts)) => {
            &&& follows_counting(r, counts@, q.ep.world_size)
            &&& after == before
        },
        (DispatchState::Sending { sent }, ExpertEvent::Counts(counts)) => {
            &&& follows_sending(r, sent, counts@, q.hidden.hidden_dim)
            &&& after == before
        },
        (DispatchState::Dispatching { sent, received }, ExpertEvent::Completed) => {
            &&& follows_dispatching(r, sent, received, q)
            &&& after == before
        },
        (DispatchState::Receiving { sent, received }, ExpertEvent::Counts(counts)) => {
            follows_receiving(r, after, block, sent, received, counts, q, before)
        },
        (DispatchState::Running { sent, received }, ExpertEvent::Completed) => {
            &&& follows_experts(r, sent, received, q.hidden.hidden_dim)
            &&& after == before
        },
        (DispatchState::Returning { home }, ExpertEvent::Completed) => {
            &&& r == Ok::<(DispatchState, DispatchAction), MoeError>(
                (
                    DispatchState::Combining,
                    DispatchAction::Combine(combine_args(q.hidden, home)),
                ),
            )
            &&& after == before
        },
        _ => true,
    }
}

/// What the outputs go back by is what the inputs came by, turned round.
pub proof fn law_outputs_return_the_way_inputs_came(
    out: Exchange,
    back: Exchange,
    sent: RoutePack,
    received: RoutePack,
    hidden_dim: usize,
)
    requires
        is_exchange(out, sent, received, hidden_dim),
        is_exchange(back, received, sent, hidden_dim),
    ensures
        back.send_offsets@ == reverse_of(out).send_offsets@,
        back.send_counts@ == reverse_of(out).send_counts@,
        back.recv_offsets@ == reverse_of(out).recv_offsets@,
        back.recv_counts@ == reverse_of(out).recv_counts@,
{
}

fn copy_offsets(offsets: &Vec<i32>) -> (copy: Vec<i32>)
    ensures
        copy@ == offsets@,
{
    let mut copy: Vec<i32> = Vec::new();
    let mut i: usize = 0;
    while i < offsets.len()
        invariant
            i <= offsets@.len(),
            copy@ =~= offsets@.take(i as int),
        decreases offsets@.len() - i,
    {
        copy.push(offsets[i]);
        i = i + 1;
    }
    copy
}

fn return_routes(sent: RoutePack, received: RoutePack, hidden_dim: usize) -> (r: Result<
    (DispatchState, DispatchAction),
    MoeError,
>)
    requires
        exchangeable(sent, received, hidden_dim),
    ensures
        follows_experts(r, sent, received, hidden_dim),
{
    match plan_exchange(&received, &sent, hidden_dim) {
        Ok(exchange) => Ok(
            (
                DispatchState::Returning { home: sent.total },
                DispatchAction::ReturnRoutes { exchange, home: sent.total },
            ),
        ),
        Err(e) => Err(e),
    }
}

/// Where a step with the rank's own experts stands.
#[derive(Clone, Copy, Debug, PartialEq, Eq, Structural)]
pub enum LocalState {
    /// The routes to each expert are being counted, as they were planned.
    Counting { routes: LocalRoutes },
    /// The experts are running.
    Running,
    /// The outputs of all ranks are being summed; nothing follows.
    Summing,
}

/// What a step with the rank's own experts does next.
pub enum LocalAction {
    /// Pack the routes, run the experts and add their outputs to the tokens.
    RunExperts(PackedRoutes),
    /// Sum the outputs of all ranks.
    SumRanks,
}

/// What follows an event of a step with the rank's own experts: the counted routes
/// are packed and run, and the outputs of all ranks are summed.
pub open spec fn follows_locally(
    r: Result<(LocalState, LocalAction), MoeError>,
    block: DeepseekV4MoeBlock,
    q: ExpertStep<'_>,
    state: LocalState,
    event: ExpertEvent,
) -> bool {
    match state {
        LocalState::Counting { .. } => match r {
            Ok((next, LocalAction::RunExperts(packed))) => {
                &&& next == LocalState::Running
                &&& is_packing(
                    Ok(packed),
                    block.experts@,
                    event->Counts_0@,
                    q.hidden.hidden_dim,
                )
            },
            Ok(_) => false,
            Err(e) => is_packing(Err(e), block.experts@, event->Counts_0@, q.hidden.hidden_dim),
        },
        LocalState::Running => r == Ok::<(LocalState, LocalAction), MoeError>(
            (LocalState::Summing, LocalAction::SumRanks),
        ),
        LocalState::Summing => true,
    }
}

impl DeepseekV4MoeBlock {
    /// Takes a dispatched step further.
    pub fn forward_deepep_routed_gpu(
        &self,
        q: &ExpertStep<'_>,
        state: DispatchState,
        event: ExpertEvent,
        cache: &mut DeepseekMoeRuntimeCache,
    ) -> (r: Result<(DispatchState, DispatchAction), MoeError>)
        requires
            state matches DispatchState::Counting { routes } ==> is_rank_start(routes, *self, *q),
            state.wf(q.hidden.hidden_dim),
            state.awaits(event),
            state is Receiving && countable(event->Counts_0@) ==> {
                &&& event->Counts_0@.len() == self.experts@.len()
                &&& total_routes(event->Counts_0@) * q.hidden.hidden_dim <= usize::MAX
            },
        ensures
            follows(r, *final(cache), *self, *q, state, event, *old(cache)),
            match r {
                Ok((next, _)) => {
                    &&& next.wf(q.hidden.hidden_dim)
                    &&& next.stage() > state.stage()
                },
                Err(_) => true,
            },
    {
        let hidden_dim: usize = q.hidden.hidden_dim;
        match (state, event) {
            (DispatchState::Counting { .. }, ExpertEvent::Counts(counts)) => {
                match pack_routes(&counts) {
                    Ok(sent) => {
                        let offsets: Vec<i32> = copy_offsets(&sent.offsets);
                        let total: usize = sent.total;
                        let exchange: Exchange = one_per_rank(q.ep.world_size);
                        Ok(
                            (
                                DispatchState::Sending { sent },
                                DispatchAction::ExchangeCounts { offsets, total, exchange },
                            ),
                        )
                    },
                    Err(e) => Err(e),
                }
            },
            (DispatchState::Sending { sent }, ExpertEvent::Counts(counts)) => {
                let received: RoutePack = match pack_routes(&counts) {
                    Ok(received) => received,
                    Err(e) => {
                        return Err(e);
                    },
                };
                match plan_dispatch(&sent, &received, hidden_dim) {
                    Ok(routes) => {
                        let total: usize = received.total;
                        Ok(
                            (
                                DispatchState::Dispatching { sent, received },
                                DispatchAction::ExchangeRoutes { routes, received: total },
                            ),
                        )
                    },
                    Err(e) => Err(e),
                }
            },
            (DispatchState::Dispatching { sent, received }, ExpertEvent::Completed) => {
                match plan_received(received.total, &q.ep, hidden_dim) {
                    Ok(Some(routes)) => Ok(
                        (
                            DispatchState::Receiving { sent, received },
                            DispatchAction::CountReceived(routes),
                        ),
                    ),
                    Ok(None) => return_routes(sent, received, hidden_dim),
                    Err(e) => Err(e),
                }
            },
            (DispatchState::Receiving { sent, received }, ExpertEvent::Counts(counts)) => {
                let pack: RoutePack = match pack_routes(&counts) {
                    Ok(pack) => pack,
                    Err(e) => {
                        return Err(e);
                    },
                };
                let work: LocalWork<'_> = LocalWork {
                    counts: &counts,
                    pack: &pack,
                    hidden_dim,
                    received: received.total,
                };
                match self.plan_local_experts(&work, q.grouped, cache, q.keep) {
                    Ok(experts) => Ok(
                        (
                            DispatchState::Running { sent, received },
                            DispatchAction::RunExperts { pack, experts },
                        ),
                    ),
                    Err(e) => Err(e),
                }
            },
            (DispatchState::Running { sent, received }, ExpertEvent::Completed) => return_routes(
                sent,
                received,
                hidden_dim,
            ),
            (DispatchState::Returning { home }, ExpertEvent::Completed) => Ok(
                (
                    DispatchState::Combining,
                    DispatchAction::Combine(plan_combine(q.hidden, home)),
                ),
            ),
            _ => vstd::pervasive::unreached(),
        }
    }

    /// Takes a step with the rank's own experts further.
    pub fn forward_local_routed_gpu(
        &self,
        q: &ExpertStep<'_>,
        state: LocalState,
        event: ExpertEvent,
    ) -> (r: Result<(LocalState, LocalAction), MoeError>)
        requires
            match state {
                LocalState::Counting { routes } => {
                    &&& is_local_start(routes, *self, *q)
                    &&& event is Counts
                    &&& event->Counts_0@.len() == self.experts@.len()
                    &&& countable(event->Counts_0@) ==> total_routes(event->Counts_0@)
                        * q.hidden.hidden_dim <= usize::MAX
                },
                LocalState::Running => event is Completed,
                LocalState::Summing => false,
            },
        ensures
            follows_locally(r, *self, *q, state, event),
    {
        match (state, event) {
            (LocalState::Counting { .. }, ExpertEvent::Counts(counts)) => {
                match self.pack_local_routes(&counts, q.hidden.hidden_dim) {
                    Ok(packed) => Ok((LocalState::Running, LocalAction::RunExperts(packed))),
                    Err(e) => Err(e),
                }
            },
            _ => Ok((LocalState::Summing, LocalAction::SumRanks)),
        }
    }
}

} // verus!
