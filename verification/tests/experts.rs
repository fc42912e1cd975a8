//! Experts: shapes, routing, grouping and the exchange between ranks.

use infer::model::deepseek::config::ExpertGroup;
use infer::model::deepseek::counts::CountError;
use infer::model::deepseek::device::{HiddenShape, LinearDispatchPhase, MatrixShape, WeightFormat};
use infer::model::deepseek::dispatch::{
    one_per_rank, pack_routes, plan_combine, plan_dispatch, plan_exchange, plan_received,
    LocalExperts, LocalWork,
};
use infer::model::deepseek::flow::{
    DispatchAction, DispatchState, ExpertEvent, ExpertStep, LocalAction, LocalState,
};
use infer::model::deepseek::grouped::{
    active_experts, dsv4_grouped_product, GroupedOutcome, GroupedRequest,
};
use infer::model::deepseek::load::BlockFormat;
use infer::model::deepseek::mlp::{
    dsv4_grouped_weights, hash_experts, DeepseekV4Expert, DeepseekV4MoeBlock, Dsv4GroupedWeights,
    ExpertMatrix, LocalRoute, MoeError, MoeRoutingKind, RouterConfig,
};
use infer::model::deepseek::routed::plan_segments;
use infer::model::deepseek::scratch::DeepseekMoeRuntimeCache;
use infer::model::deepseek::switches::SwitchError;

fn hidden(hidden_dim: usize, seq_len: usize) -> HiddenShape {
    HiddenShape { hidden_dim, seq_len }
}

fn matrix(rows: usize, cols: usize) -> MatrixShape {
    MatrixShape {
        format: WeightFormat::Dsv4Fp8BlockScaled,
        rows,
        cols,
        scale_rows: 1,
        scale_cols: 1,
        has_values: true,
        has_scales: true,
    }
}

fn dense(rows: usize, cols: usize) -> MatrixShape {
    MatrixShape { format: WeightFormat::Dense, scale_rows: 0, scale_cols: 0, ..matrix(rows, cols) }
}

fn expert() -> DeepseekV4Expert {
    DeepseekV4Expert { w1: matrix(6, 4), w2: matrix(4, 6), w3: matrix(6, 4) }
}

fn block(experts: Vec<DeepseekV4Expert>) -> DeepseekV4MoeBlock {
    DeepseekV4MoeBlock {
        gate_weight: dense(4, 4),
        gate_bias: Some(4),
        gate_tid2eid: None,
        experts,
        shared_experts: Some(expert()),
    }
}

fn group(world_size: usize) -> ExpertGroup {
    ExpertGroup { rank: 1, world_size, num_experts: 4, experts_per_rank: 2, local_expert_start: 2 }
}

fn router() -> RouterConfig<'static> {
    RouterConfig {
        n_routed_experts: 4,
        num_experts_per_tok: 2,
        scoring_func: "sqrtsoftplus",
        routing_kind: MoeRoutingKind::LearnedBias,
    }
}

#[test]
fn experts_chain_their_products() {
    let run = expert().forward(hidden(4, 3)).unwrap();
    assert_eq!(run.phase, LinearDispatchPhase::Prefill);
    assert_eq!((run.gate, run.up, run.act), (hidden(6, 3), hidden(6, 3), hidden(6, 3)));
    assert_eq!(run.out, hidden(4, 3));
    assert_eq!(expert().forward(hidden(4, 1)).unwrap().phase, LinearDispatchPhase::Decode);
    assert_eq!(expert().forward(hidden(5, 1)), Err(MoeError::ExpertInputWidth));
    let odd = DeepseekV4Expert { w2: matrix(4, 7), ..expert() };
    assert_eq!(odd.forward(hidden(4, 1)), Err(MoeError::ExpertIntermediate));
}

#[test]
fn kept_buffers_have_the_rows_of_their_input() {
    let mut cache = DeepseekMoeRuntimeCache::default();
    assert!(cache.ensure_expert_scratch(4, 6, 4, 8));
    assert!(!cache.ensure_expert_scratch(4, 6, 4, 3));
    let mut scratch = cache.expert.unwrap();
    scratch.input.seq_len = 2;
    assert_eq!(expert().forward_scratch_input(&mut scratch), Ok(LinearDispatchPhase::Prefill));
    assert_eq!((scratch.gate, scratch.out), (hidden(6, 2), hidden(4, 2)));
    scratch.input.seq_len = 9;
    assert_eq!(expert().forward_scratch_input(&mut scratch), Err(MoeError::ScratchShape));
    scratch.input.hidden_dim = 5;
    assert_eq!(expert().forward_scratch_input(&mut scratch), Err(MoeError::ExpertInputWidth));
}

#[test]
fn groups_share_format_and_shape() {
    let experts = vec![expert(), expert(), DeepseekV4Expert { w1: matrix(8, 4), ..expert() }];
    let weights = dsv4_grouped_weights(&experts, &vec![1, 0], ExpertMatrix::W1).unwrap();
    assert_eq!(
        weights,
        Dsv4GroupedWeights { format: BlockFormat::Fp8, rows: 6, cols: 4, scale_rows: 1, scale_cols: 1 }
    );
    let fault = |active: Vec<usize>, which| dsv4_grouped_weights(&experts, &active, which).err();
    assert_eq!(fault(vec![], ExpertMatrix::W1), Some(MoeError::NoActiveExperts));
    assert_eq!(fault(vec![3], ExpertMatrix::W1), Some(MoeError::ActiveExpert));
    assert_eq!(fault(vec![0, 3], ExpertMatrix::W1), Some(MoeError::ActiveExpert));
    assert_eq!(fault(vec![0, 2], ExpertMatrix::W1), Some(MoeError::MixedExperts));
    assert_eq!(fault(vec![0, 2], ExpertMatrix::W2), None);
    let one = |w1| dsv4_grouped_weights(&vec![DeepseekV4Expert { w1, ..expert() }], &vec![0], ExpertMatrix::W1).err();
    assert_eq!(one(dense(6, 4)), Some(MoeError::NotRaw));
    assert_eq!(one(MatrixShape { scale_cols: 0, ..matrix(6, 4) }), Some(MoeError::NoScales));
    assert_eq!(one(MatrixShape { has_values: false, ..matrix(6, 4) }), Some(MoeError::MissingValues));
    assert_eq!(one(MatrixShape { has_scales: false, ..matrix(6, 4) }), Some(MoeError::MissingScales));
}

#[test]
fn routers_take_what_their_kind_needs() {
    let moe = block(vec![expert(), expert()]);
    let plan = moe.plan_routes(&router(), &group(2), hidden(4, 3), 3).unwrap();
    assert_eq!((plan.route_slots, plan.routing_kind, plan.scoring_kind), (6, 1, 2));
    assert!(plan.has_bias && !plan.has_table);
    let fault = |moe: &DeepseekV4MoeBlock, config: RouterConfig<'_>, shape, tokens| {
        moe.plan_routes(&config, &group(2), shape, tokens).err()
    };
    assert_eq!(fault(&moe, router(), hidden(4, 3), 2), Some(MoeError::TokenCount));
    assert_eq!(fault(&moe, router(), hidden(5, 3), 3), Some(MoeError::GateShape));
    assert_eq!(fault(&block(vec![expert()]), router(), hidden(4, 3), 3), Some(MoeError::ExpertCount));
    let scoring = RouterConfig { scoring_func: "tanh", ..router() };
    assert_eq!(fault(&moe, scoring, hidden(4, 3), 3), Some(MoeError::Scoring));
    let hash = RouterConfig { routing_kind: MoeRoutingKind::Hash, ..router() };
    assert_eq!(fault(&moe, hash, hidden(4, 3), 3), Some(MoeError::MissingHashTable));
    let unbiased = DeepseekV4MoeBlock { gate_bias: None, ..block(vec![expert(), expert()]) };
    assert_eq!(fault(&unbiased, router(), hidden(4, 3), 3), Some(MoeError::MissingBias));
    assert_eq!(moe.check_route_logits(4, hidden(4, 3), 3), Ok(()));
    let biased = DeepseekV4MoeBlock { gate_bias: Some(3), ..block(vec![]) };
    assert_eq!(biased.check_route_logits(4, hidden(4, 3), 3), Err(MoeError::GateBias));
}

#[test]
fn hash_tables_name_experts() {
    let table = DeepseekV4MoeBlock { gate_tid2eid: Some(20), ..block(vec![]) };
    assert_eq!(table.hash_experts_for_token(10, 2, 3), Ok((6, 8)));
    assert_eq!(table.hash_experts_for_token(10, 2, 10), Err(MoeError::TokenId));
    assert_eq!(table.hash_experts_for_token(11, 2, 10), Err(MoeError::TableTooShort));
    assert_eq!(block(vec![]).hash_experts_for_token(10, 2, 3), Err(MoeError::MissingHashTable));
    assert_eq!(hash_experts(&[3, 0]), Ok(vec![3, 0]));
    assert_eq!(hash_experts(&[3, -1]), Err(MoeError::ExpertId));
}

#[test]
fn routes_run_one_row_each() {
    let moe = block(vec![expert(), expert()]);
    let route = |token_idx, local_expert_idx| LocalRoute { token_idx, local_expert_idx };
    let runs =
        moe.forward_local_routed_only(&vec![route(0, 1), route(2, 0)], 2, hidden(4, 3)).unwrap();
    assert_eq!(runs.len(), 2);
    assert_eq!(runs[1].out, hidden(4, 1));
    let fault = |routes: Vec<LocalRoute>, per_rank| {
        moe.forward_local_routed_only(&routes, per_rank, hidden(4, 3)).err()
    };
    assert_eq!(fault(vec![route(3, 0)], 2), Some(MoeError::RouteToken));
    assert_eq!(fault(vec![route(0, 2)], 2), Some(MoeError::RouteExpert));
    assert_eq!(fault(vec![], 3), Some(MoeError::ExpertCount));
}

#[test]
fn shared_experts_run_on_their_own() {
    assert_eq!(block(vec![]).forward(hidden(4, 2)).unwrap().out, hidden(4, 2));
    assert_eq!(block(vec![expert()]).forward(hidden(4, 2)), Err(MoeError::RoutedNotWired));
    let bare = DeepseekV4MoeBlock { shared_experts: None, ..block(vec![]) };
    assert_eq!(bare.forward(hidden(4, 2)), Err(MoeError::NoSharedExpert));
    assert_eq!(bare.add_shared_expert(hidden(4, 2)), Ok(None));
    assert!(block(vec![]).add_shared_expert(hidden(4, 2)).unwrap().is_some());
}

#[test]
fn segments_read_the_rows_of_their_expert() {
    let experts = vec![expert(), expert(), expert()];
    let mut cache = DeepseekMoeRuntimeCache::default();
    let segments = plan_segments(&experts, &vec![2, 0, 3], 4, &mut cache, true).unwrap();
    assert_eq!(segments.len(), 2);
    assert_eq!((segments[0].expert, segments[0].elem_start, segments[0].elem_end), (0, 0, 8));
    assert_eq!((segments[1].expert, segments[1].elem_start, segments[1].elem_end), (2, 8, 20));
    assert_eq!((segments[1].offset, segments[1].count), (2, 3));
    assert!(cache.expert.unwrap().capacity_tokens >= 3);

    let moe = block(experts);
    let packed = moe.pack_local_routes(&vec![2, 0, 3], 4).unwrap();
    assert_eq!((packed.offsets, packed.total, packed.segments.len()), (vec![0, 2, 2], 5, 2));
    assert_eq!(
        moe.pack_local_routes(&vec![2, -1, 3], 4).err(),
        Some(MoeError::Counts(CountError::Negative))
    );
}

#[test]
fn local_routes_know_the_first_expert() {
    let moe = block(vec![expert(), expert()]);
    let routes = moe.plan_local_routes(&router(), &group(1), hidden(4, 3), 3).unwrap();
    assert_eq!((routes.local_expert_start, routes.experts_per_rank, routes.expert_slots), (2, 2, 2));
    let far = ExpertGroup { local_expert_start: 1 << 31, ..group(1) };
    assert_eq!(
        moe.plan_local_routes(&router(), &far, hidden(4, 3), 3).err(),
        Some(MoeError::ExpertStart)
    );
    assert_eq!(
        moe.plan_rank_routes(&router(), &group(1), hidden(4, 3), 3).err(),
        Some(MoeError::SingleRank)
    );
    let ranks = moe.plan_rank_routes(&router(), &group(2), hidden(4, 3), 3).unwrap();
    assert_eq!((ranks.world_size, ranks.rank_slots, ranks.hidden_dim), (2, 2, 4));
    let wide = ExpertGroup { world_size: 1 << 31, ..group(2) };
    assert_eq!(
        moe.plan_rank_routes(&router(), &wide, hidden(4, 3), 3).err(),
        Some(MoeError::WorldSize)
    );
}

#[test]
fn busy_experts_are_active() {
    let active = active_experts(&vec![2, 0, 3], &vec![0, 2, 2]);
    assert_eq!(active.experts, vec![0, 2]);
    assert_eq!((active.offsets, active.counts), (vec![0, 2], vec![2, 3]));
}

#[test]
fn grouped_products_match_their_weights() {
    let weights =
        Dsv4GroupedWeights { format: BlockFormat::Fp4, rows: 6, cols: 4, scale_rows: 1, scale_cols: 2 };
    let product = dsv4_grouped_product(weights, hidden(4, 5), hidden(6, 5), 2, 3).unwrap();
    assert_eq!((product.num_experts, product.max_count, product.rows, product.cols), (2, 3, 6, 4));
    assert_eq!(
        dsv4_grouped_product(weights, hidden(4, 5), hidden(4, 5), 2, 3),
        Err(MoeError::GroupedProduct)
    );

    let moe = block(vec![expert(), expert()]);
    let mut cache = DeepseekMoeRuntimeCache::default();
    let request = GroupedRequest {
        input: hidden(4, 5),
        output: hidden(4, 5),
        total_routes: 5,
        max_routes: 3,
    };
    let first = moe.forward_grouped_dsv4_experts_gpu(&vec![0, 1], request, &mut cache);
    match first {
        Ok(GroupedOutcome::Run(run)) => {
            assert!(run.allocate);
            assert_eq!((run.gate.rows, run.down.rows, run.total_routes), (6, 4, 5));
        }
        other => panic!("{other:?}"),
    }
    match moe.forward_grouped_dsv4_experts_gpu(&vec![0, 1], request, &mut cache) {
        Ok(GroupedOutcome::Run(run)) => assert!(!run.allocate),
        other => panic!("{other:?}"),
    }
    let mut run = |moe: &DeepseekV4MoeBlock, active: Vec<usize>, request| {
        moe.forward_grouped_dsv4_experts_gpu(&active, request, &mut cache)
    };
    let none = GroupedRequest { total_routes: 0, ..request };
    assert_eq!(run(&moe, vec![0], none), Ok(GroupedOutcome::Done));
    assert_eq!(run(&moe, vec![], request), Ok(GroupedOutcome::Done));
    let mixed = block(vec![expert(), DeepseekV4Expert { w2: dense(4, 6), ..expert() }]);
    assert_eq!(run(&mixed, vec![0], request), Ok(GroupedOutcome::Unsupported));
    let misfit = GroupedRequest { input: hidden(5, 5), ..request };
    assert_eq!(run(&moe, vec![0], misfit), Err(MoeError::GroupedShape));
    let short = GroupedRequest { output: hidden(4, 4), ..request };
    assert_eq!(run(&moe, vec![0], short), Err(MoeError::RouteRows));
}

#[test]
fn exchanges_turn_round() {
    let send = pack_routes(&vec![2, 1]).unwrap();
    let recv = pack_routes(&vec![0, 4]).unwrap();
    assert_eq!((send.starts.clone(), send.counts.clone(), send.total), (vec![0, 2], vec![2, 1], 3));
    let exchange = plan_exchange(&send, &recv, 10).unwrap();
    assert_eq!((&exchange.send_offsets, &exchange.send_counts), (&vec![0, 20], &vec![20, 10]));
    assert_eq!((&exchange.recv_offsets, &exchange.recv_counts), (&vec![0, 0], &vec![0, 40]));
    let back = exchange.reversed();
    assert_eq!((back.send_counts, back.recv_counts), (vec![0, 40], vec![20, 10]));
    assert_eq!(
        plan_exchange(&send, &recv, usize::MAX).err(),
        Some(MoeError::Counts(CountError::ExtentOverflow))
    );
    assert_eq!(pack_routes(&vec![-1]).err(), Some(MoeError::Counts(CountError::Negative)));
    let dispatch = plan_dispatch(&send, &recv, 4).unwrap();
    assert_eq!(dispatch.hidden.send_counts, vec![8, 4]);
    assert_eq!(dispatch.meta.send_counts, vec![6, 3]);
    let single = one_per_rank(3);
    assert_eq!((single.send_offsets, single.recv_counts), (vec![0, 1, 2], vec![1, 1, 1]));
}

#[test]
fn received_routes_go_to_local_experts() {
    assert_eq!(plan_received(0, &group(2), 4), Ok(None));
    let received = plan_received(7, &group(2), 4).unwrap().unwrap();
    assert_eq!((received.total, received.local_expert_start, received.expert_slots), (7, 2, 2));
    let far = ExpertGroup { local_expert_start: 1 << 31, ..group(2) };
    assert_eq!(plan_received(7, &far, 4), Err(MoeError::ExpertStart));
    let combine = plan_combine(hidden(4, 3), 6);
    assert_eq!((combine.seq_len, combine.total_routes, combine.hidden_dim), (3, 6, 4));

    let moe = block(vec![expert(), expert()]);
    let counts = vec![2, 1];
    let pack = pack_routes(&counts).unwrap();
    let work = LocalWork { counts: &counts, pack: &pack, hidden_dim: 4, received: 3 };
    let mut cache = DeepseekMoeRuntimeCache::default();
    assert!(matches!(
        moe.plan_local_experts(&work, Some("1"), &mut cache, true),
        Ok(LocalExperts::Grouped(_, _))
    ));
    assert!(matches!(
        moe.plan_local_experts(&work, None, &mut cache, true),
        Ok(LocalExperts::OneByOne(_))
    ));
    assert!(matches!(
        moe.plan_local_experts(&work, Some("1"), &mut cache, false),
        Ok(LocalExperts::OneByOne(_))
    ));
    assert_eq!(
        moe.plan_local_experts(&work, Some("maybe"), &mut cache, true).err(),
        Some(MoeError::Switch(SwitchError::InvalidValue))
    );
    let idle = vec![0, 0];
    let empty = pack_routes(&idle).unwrap();
    let work = LocalWork { counts: &idle, pack: &empty, hidden_dim: 4, received: 0 };
    assert!(matches!(
        moe.plan_local_experts(&work, Some("1"), &mut cache, true),
        Ok(LocalExperts::Nothing)
    ));
}

fn expert_step() -> ExpertStep<'static> {
    ExpertStep { ep: group(2), hidden: hidden(4, 3), grouped: None, keep: true }
}

fn rank_start(moe: &DeepseekV4MoeBlock, q: &ExpertStep<'_>) -> DispatchState {
    let routes = moe.plan_rank_routes(&router(), &q.ep, q.hidden, q.hidden.seq_len).unwrap();
    assert_eq!((routes.world_size, routes.rank_slots, routes.experts_per_rank), (2, 2, 2));
    DispatchState::Counting { routes }
}

fn local_start(moe: &DeepseekV4MoeBlock, q: &ExpertStep<'_>) -> LocalState {
    let routes = moe.plan_local_routes(&router(), &q.ep, q.hidden, q.hidden.seq_len).unwrap();
    LocalState::Counting { routes }
}

#[test]
fn dispatched_steps_run_from_counting_to_combining() {
    let moe = block(vec![expert(), expert()]);
    let q = expert_step();
    let mut cache = DeepseekMoeRuntimeCache::default();
    let mut go = |state, event| moe.forward_deepep_routed_gpu(&q, state, event, &mut cache);

    let (state, action) =
        go(rank_start(&moe, &q), ExpertEvent::Counts(vec![2, 1])).ok().unwrap();
    match action {
        DispatchAction::ExchangeCounts { offsets, total, exchange } => {
            assert_eq!((offsets, total), (vec![0, 2], 3));
            assert_eq!(exchange.send_offsets, vec![0, 1]);
        }
        _ => panic!("counts are exchanged first"),
    }
    let (state, action) = go(state, ExpertEvent::Counts(vec![0, 4])).ok().unwrap();
    let out = match action {
        DispatchAction::ExchangeRoutes { routes, received } => {
            assert_eq!(received, 4);
            assert_eq!(routes.meta.recv_counts, vec![0, 12]);
            routes.hidden
        }
        _ => panic!("routes follow their counts"),
    };
    let (state, action) = go(state, ExpertEvent::Completed).ok().unwrap();
    match action {
        DispatchAction::CountReceived(routes) => assert_eq!(routes.total, 4),
        _ => panic!("received routes are counted"),
    }
    let (state, action) = go(state, ExpertEvent::Counts(vec![1, 3])).ok().unwrap();
    match action {
        DispatchAction::RunExperts { pack, experts } => {
            assert_eq!(pack.offsets, vec![0, 1]);
            assert!(matches!(experts, LocalExperts::OneByOne(list) if list.len() == 2));
        }
        _ => panic!("the experts run"),
    }
    let (state, action) = go(state, ExpertEvent::Completed).ok().unwrap();
    match action {
        DispatchAction::ReturnRoutes { exchange, home } => {
            assert_eq!(home, 3);
            assert_eq!((exchange.send_offsets, exchange.send_counts), (out.recv_offsets, out.recv_counts));
            assert_eq!((exchange.recv_offsets, exchange.recv_counts), (out.send_offsets, out.send_counts));
        }
        _ => panic!("the outputs go back"),
    }
    let (state, action) = go(state, ExpertEvent::Completed).ok().unwrap();
    assert!(matches!(state, DispatchState::Combining));
    match action {
        DispatchAction::Combine(args) => assert_eq!((args.seq_len, args.total_routes), (3, 3)),
        _ => panic!("the outputs are combined"),
    }
}

#[test]
fn ranks_that_receive_nothing_run_no_experts() {
    let moe = block(vec![expert(), expert()]);
    let q = expert_step();
    let mut cache = DeepseekMoeRuntimeCache::default();
    let mut go = |state, event| moe.forward_deepep_routed_gpu(&q, state, event, &mut cache);
    let (state, _) = go(rank_start(&moe, &q), ExpertEvent::Counts(vec![0, 2])).ok().unwrap();
    let (state, _) = go(state, ExpertEvent::Counts(vec![0, 0])).ok().unwrap();
    let (_, action) = go(state, ExpertEvent::Completed).ok().unwrap();
    assert!(matches!(action, DispatchAction::ReturnRoutes { home: 2, .. }));
}

#[test]
fn dispatch_refuses_counts_that_do_not_add_up() {
    let moe = block(vec![expert(), expert()]);
    let mut cache = DeepseekMoeRuntimeCache::default();
    let mut go = |q: &ExpertStep<'_>, state, event| {
        moe.forward_deepep_routed_gpu(q, state, event, &mut cache)
    };
    let q = expert_step();
    let negative = Some(MoeError::Counts(CountError::Negative));
    assert_eq!(go(&q, rank_start(&moe, &q), ExpertEvent::Counts(vec![-1])).err(), negative);
    let sending = |counts: Vec<i32>| DispatchState::Sending { sent: pack_routes(&counts).unwrap() };
    assert_eq!(go(&q, sending(vec![1]), ExpertEvent::Counts(vec![1, -1])).err(), negative);
    let wide = ExpertStep { hidden: hidden(usize::MAX, 3), ..q };
    assert_eq!(
        go(&wide, sending(vec![2]), ExpertEvent::Counts(vec![0])).err(),
        Some(MoeError::Counts(CountError::ExtentOverflow))
    );
    let far = ExpertStep { ep: ExpertGroup { local_expert_start: 1 << 31, ..group(2) }, ..q };
    let dispatching = DispatchState::Dispatching {
        sent: pack_routes(&vec![1]).unwrap(),
        received: pack_routes(&vec![1]).unwrap(),
    };
    assert_eq!(go(&far, dispatching, ExpertEvent::Completed).err(), Some(MoeError::ExpertStart));
}

#[test]
fn local_steps_pack_run_and_sum() {
    let moe = block(vec![expert(), expert()]);
    let q = expert_step();
    let go = |state, event| moe.forward_local_routed_gpu(&q, state, event);
    let (state, action) = go(local_start(&moe, &q), ExpertEvent::Counts(vec![2, 3])).ok().unwrap();
    match action {
        LocalAction::RunExperts(packed) => assert_eq!((packed.offsets, packed.total), (vec![0, 2], 5)),
        LocalAction::SumRanks => panic!("the experts run first"),
    }
    let (state, action) = go(state, ExpertEvent::Completed).ok().unwrap();
    assert_eq!(state, LocalState::Summing);
    assert!(matches!(action, LocalAction::SumRanks));
    assert_eq!(
        go(local_start(&moe, &q), ExpertEvent::Counts(vec![2, -3])).err(),
        Some(MoeError::Counts(CountError::Negative))
    );
}

fn narrow_expert() -> DeepseekV4Expert {
    DeepseekV4Expert { w1: dense(1, 2), w2: dense(2, 1), w3: dense(1, 2) }
}

#[test]
fn expert_forward_runs_clamped_swiglu_on_gpu() {
    let expert = DeepseekV4Expert { w1: dense(3, 2), w2: dense(2, 3), w3: dense(3, 2) };
    let run = expert.forward(hidden(2, 2)).unwrap();
    assert_eq!((run.gate, run.up, run.act), (hidden(3, 2), hidden(3, 2), hidden(3, 2)));
    assert_eq!((run.out, run.phase), (hidden(2, 2), LinearDispatchPhase::Prefill));
}

#[test]
fn moe_forward_local_routes_accumulates_ep_local_experts() {
    let moe = DeepseekV4MoeBlock {
        gate_weight: dense(1, 2),
        gate_bias: None,
        gate_tid2eid: None,
        experts: vec![narrow_expert(), narrow_expert()],
        shared_experts: None,
    };
    let route = |token_idx, local_expert_idx| LocalRoute { token_idx, local_expert_idx };
    let routes = vec![route(0, 0), route(0, 1), route(1, 1)];
    let runs = moe.forward_local_routed_only(&routes, 2, hidden(2, 2)).unwrap();
    assert_eq!(runs.len(), 3);
    for run in runs {
        assert_eq!((run.gate, run.up, run.act), (hidden(1, 1), hidden(1, 1), hidden(1, 1)));
        assert_eq!(run.out, hidden(2, 1));
    }
}

#[test]
fn moe_forward_routed_computes_gate_routes_and_localizes_ep() {
    let moe = DeepseekV4MoeBlock {
        gate_weight: dense(4, 2),
        gate_bias: Some(4),
        gate_tid2eid: None,
        experts: vec![narrow_expert(), narrow_expert()],
        shared_experts: None,
    };
    let config = RouterConfig {
        n_routed_experts: 4,
        num_experts_per_tok: 2,
        scoring_func: "softmax",
        routing_kind: MoeRoutingKind::LearnedBias,
    };
    let ep = ExpertGroup {
        rank: 0,
        world_size: 2,
        num_experts: 4,
        experts_per_rank: 2,
        local_expert_start: 0,
    };
    let routes = moe.plan_local_routes(&config, &ep, hidden(2, 2), 2).unwrap();
    assert_eq!((routes.route.route_slots, routes.route.seq_len), (4, 2));
    assert_eq!((routes.route.routing_kind, routes.route.scoring_kind), (1, 0));
    assert!(routes.route.has_bias && !routes.route.has_table);
    assert_eq!((routes.local_expert_start, routes.experts_per_rank), (0, 2));
    let packed = moe.pack_local_routes(&vec![1, 1], 2).ok().unwrap();
    assert_eq!((packed.offsets, packed.total), (vec![0, 1], 2));
    assert_eq!(packed.segments.len(), 2);
}
