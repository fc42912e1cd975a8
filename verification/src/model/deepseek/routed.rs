//! Experts of one rank over packed routes.
//!
//! A rank packs the hidden states of its routes expert by expert. Each expert
//! with routes then runs over its own rows, and its output is scattered back.

use vstd::prelude::*;

use crate::model::deepseek::config::ExpertGroup;
use crate::model::deepseek::counts::dsv4_counts_to_offsets_i32;
use crate::model::deepseek::counts::lemma_sums_ascend;
use crate::model::deepseek::counts::{
    countable, fault_at, is_first_fault, offsets_of, prefix_sum, total_routes,
};
use crate::model::deepseek::device::HiddenShape;
use crate::model::deepseek::device::phase_of;
use crate::model::deepseek::mlp::{
    expert_run, fits_i32, route_plan, rows_of_input, scratch_fault, shapes_agree,
};
use crate::model::deepseek::mlp::{
    DeepseekV4Expert, DeepseekV4MoeBlock, ExpertRun, MoeError, RoutePlan,
    RouterConfig,
};
use crate::model::deepseek::scratch::{ensured_expert, expert_fits};
use crate::model::deepseek::scratch::{DeepseekExpertRuntimeScratch, DeepseekMoeRuntimeCache};

verus! {

/// Buffers in which an expert runs.
#[derive(Clone, Copy, Debug, PartialEq, Eq, Structural)]
pub struct ScratchUse {
    /// The buffers have to be allocated first.
    pub allocate: bool,
    pub scratch: DeepseekExpertRuntimeScratch,
}

/// One expert over its packed rows.
#[derive(Clone, Copy, Debug, PartialEq, Eq, Structural)]
pub struct ExpertSegment {
    pub expert: usize,
    /// Elements of the packed hidden states that the expert reads.
    pub elem_start: usize,
    pub elem_end: usize,
    /// Arguments of the scatter kernel.
    pub offset: i32,
    pub count: i32,
    pub run: ExpertRun,
    /// Kept buffers, where the expert runs in such.
    pub scratch: Option<ScratchUse>,
}

/// The segment of an expert without the buffers that it runs in.
pub open spec fn bare_segment(
    counts: Seq<i32>,
    hidden_dim: usize,
    i: int,
    run: ExpertRun,
    scratch: Option<ScratchUse>,
) -> ExpertSegment {
    ExpertSegment {
        expert: i as usize,
        elem_start: (prefix_sum(counts, i) * hidden_dim) as usize,
        elem_end: (prefix_sum(counts, i) * hidden_dim + counts[i] * hidden_dim) as usize,
        offset: prefix_sum(counts, i) as i32,
        count: counts[i],
        run,
        scratch,
    }
}

/// The hidden states that an expert reads.
pub open spec fn expert_input(counts: Seq<i32>, hidden_dim: usize, i: int) -> HiddenShape {
    HiddenShape { hidden_dim, seq_len: counts[i] as usize }
}

/// The buffers of expert `i`, with its rows in the input.
pub open spec fn loaded_scratch(
    experts: Seq<DeepseekV4Expert>,
    counts: Seq<i32>,
    hidden_dim: usize,
    slot: Option<DeepseekExpertRuntimeScratch>,
    i: int,
) -> DeepseekExpertRuntimeScratch {
    let s = ensured_expert(
        slot,
        hidden_dim,
        experts[i].w1.rows,
        experts[i].w2.rows,
        counts[i] as usize,
    );
    DeepseekExpertRuntimeScratch {
        input: HiddenShape { seq_len: counts[i] as usize, ..s.input },
        ..s
    }
}

/// The shapes of an expert in kept buffers.
pub open spec fn scratch_run(s: DeepseekExpertRuntimeScratch) -> ExpertRun {
    ExpertRun {
        phase: phase_of(s.input.seq_len),
        gate: s.gate,
        up: s.up,
        act: s.act,
        out: s.out,
    }
}

/// Segments of the first `n` experts that have routes, and the kept buffers
/// afterwards. The first expert that cannot run is the error.
pub open spec fn planned_segments(
    experts: Seq<DeepseekV4Expert>,
    counts: Seq<i32>,
    hidden_dim: usize,
    slot: Option<DeepseekExpertRuntimeScratch>,
    keep: bool,
    n: int,
) -> (Result<Seq<ExpertSegment>, MoeError>, Option<DeepseekExpertRuntimeScratch>)
    decreases n,
{
    if n <= 0 {
        (Ok(Seq::empty()), slot)
    } else {
        let i = n - 1;
        let (before, s) = planned_segments(experts, counts, hidden_dim, slot, keep, i);
        match before {
            Err(e) => (Err(e), s),
            Ok(segments) => if counts[i] == 0 {
                (Ok(segments), s)
            } else if keep {
                let loaded = loaded_scratch(experts, counts, hidden_dim, s, i);
                match scratch_fault(experts[i], loaded) {
                    Some(e) => (Err(e), Some(loaded)),
                    None => {
                        let used = rows_of_input(loaded);
                        let allocate = !(s matches Some(old) && expert_fits(
                            old,
                            hidden_dim,
                            experts[i].w1.rows,
                            experts[i].w2.rows,
                            counts[i] as usize,
                        ));
                        (
                            Ok(
                                segments.push(
                                    bare_segment(
                                        counts,
                                        hidden_dim,
                                        i,
                                        scratch_run(used),
                                        Some(ScratchUse { allocate, scratch: used }),
                                    ),
                                ),
                            ),
                            Some(used),
                        )
                    },
                }
            } else {
                match expert_run(experts[i], expert_input(counts, hidden_dim, i)) {
                    Err(e) => (Err(e), s),
                    Ok(run) => (
                        Ok(segments.push(bare_segment(counts, hidden_dim, i, run, None))),
                        s,
                    ),
                }
            },
        }
    }
}

proof fn lemma_failure_stays(
    experts: Seq<DeepseekV4Expert>,
    counts: Seq<i32>,
    hidden_dim: usize,
    slot: Option<DeepseekExpertRuntimeScratch>,
    keep: bool,
    m: int,
    n: int,
)
    requires
        m <= n,
        planned_segments(experts, counts, hidden_dim, slot, keep, m).0 is Err,
    ensures
        planned_segments(experts, counts, hidden_dim, slot, keep, n) == planned_segments(
            experts,
            counts,
            hidden_dim,
            slot,
            keep,
            m,
        ),
    decreases n - m,
{
    if m < n {
        lemma_failure_stays(experts, counts, hidden_dim, slot, keep, m, n - 1);
    }
}

/// The rows of an expert lie inside the packed rows.
proof fn lemma_rows_inside(counts: Seq<i32>, hidden_dim: usize, i: int)
    requires
        countable(counts),
        0 <= i < counts.len(),
        total_routes(counts) * hidden_dim <= usize::MAX,
    ensures
        0 <= prefix_sum(counts, i) <= i32::MAX,
        0 <= counts[i],
        0 <= prefix_sum(counts, i) * hidden_dim <= usize::MAX,
        0 <= counts[i] * hidden_dim <= usize::MAX,
        prefix_sum(counts, i) * hidden_dim + counts[i] * hidden_dim <= total_routes(counts)
            * hidden_dim,
{
    crate::model::deepseek::counts::lemma_offsets_are_not_negative(counts);
    assert(fault_at(counts, i) is None);
    lemma_sums_ascend(counts, 0, i);
    lemma_sums_ascend(counts, i + 1, counts.len() as int);
    let p = prefix_sum(counts, i);
    let c = counts[i] as int;
    let t = total_routes(counts);
    let h = hidden_dim as int;
    assert(prefix_sum(counts, i + 1) == p + c);
    assert(p * h + c * h <= t * h && 0 <= p * h && 0 <= c * h) by (nonlinear_arith)
        requires
            0 <= p,
            0 <= c,
            p + c <= t,
            0 <= h,
    ;
}

/// Plans the experts that have routes, in the order in which they run.
///
/// With `keep`, every expert runs in the kept buffers, which grow to what it
/// needs.
pub fn plan_segments(
    experts: &Vec<DeepseekV4Expert>,
    counts: &Vec<i32>,
    hidden_dim: usize,
    cache: &mut DeepseekMoeRuntimeCache,
    keep: bool,
) -> (r: Result<Vec<ExpertSegment>, MoeError>)
    requires
        counts@.len() == experts@.len(),
        countable(counts@),
        total_routes(counts@) * hidden_dim <= usize::MAX,
    ensures
        ({
            let (planned, slot) = planned_segments(
                experts@,
                counts@,
                hidden_dim,
                old(cache).expert,
                keep,
                counts@.len() as int,
            );
            &&& *final(cache) == (DeepseekMoeRuntimeCache { expert: slot, ..*old(cache) })
            &&& match r {
                Ok(segments) => planned == Ok::<Seq<ExpertSegment>, MoeError>(segments@),
                Err(e) => planned == Err::<Seq<ExpertSegment>, MoeError>(e),
            }
        }),
{
    let mut segments: Vec<ExpertSegment> = Vec::new();
    let mut start: usize = 0;
    let mut i: usize = 0;
    let ghost slot = cache.expert;
    proof {
        assert(segments@ =~= Seq::<ExpertSegment>::empty());
    }
    while i < experts.len()
        invariant
            i <= experts@.len(),
            counts@.len() == experts@.len(),
            countable(counts@),
            total_routes(counts@) * hidden_dim <= usize::MAX,
            start == prefix_sum(counts@, i as int),
            slot == old(cache).expert,
            *cache == (DeepseekMoeRuntimeCache { expert: cache.expert, ..*old(cache) }),
            planned_segments(experts@, counts@, hidden_dim, slot, keep, i as int) == (
                Ok::<Seq<ExpertSegment>, MoeError>(segments@),
                cache.expert,
            ),
        decreases experts@.len() - i,
    {
        let count: i32 = counts[i];
        proof {
            lemma_rows_inside(counts@, hidden_dim, i as int);
            crate::model::deepseek::counts::lemma_offsets_are_not_negative(counts@);
            lemma_sums_ascend(counts@, i + 1, counts@.len() as int);
            assert(prefix_sum(counts@, i + 1) == prefix_sum(counts@, i as int) + counts@[i as int]);
        }
        if count != 0 {
            let rows: usize = count as usize;
            let expert: DeepseekV4Expert = experts[i];
            let elem_start: usize = start * hidden_dim;
            let elem_end: usize = elem_start + rows * hidden_dim;
            let ghost before = cache.expert;
            if keep {
                let allocate: bool = cache.ensure_expert_scratch(
                    hidden_dim,
                    expert.w1.rows,
                    expert.w2.rows,
                    rows,
                );
                let mut scratch: DeepseekExpertRuntimeScratch = match cache.expert {
                    Some(s) => s,
                    None => {
                        return Err(MoeError::ScratchShape);
                    },
                };
                scratch.input.seq_len = rows;
                proof {
                    assert(scratch == loaded_scratch(
                        experts@,
                        counts@,
                        hidden_dim,
                        before,
                        i as int,
                    ));
                }
                match expert.forward_scratch_input(&mut scratch) {
                    Err(e) => {
                        cache.expert = Some(scratch);
                        proof {
                            lemma_failure_stays(
                                experts@,
                                counts@,
                                hidden_dim,
                                slot,
                                keep,
                                i + 1,
                                counts@.len() as int,
                            );
                        }
                        return Err(e);
                    },
                    Ok(phase) => {
                        cache.expert = Some(scratch);
                        segments.push(
                            ExpertSegment {
                                expert: i,
                                elem_start,
                                elem_end,
                                offset: start as i32,
                                count,
                                run: ExpertRun {
                                    phase,
                                    gate: scratch.gate,
                                    up: scratch.up,
                                    act: scratch.act,
                                    out: scratch.out,
                                },
                                scratch: Some(ScratchUse { allocate, scratch }),
                            },
                        );
                    },
                }
            } else {
                match expert.forward(HiddenShape { hidden_dim, seq_len: rows }) {
                    Err(e) => {
                        proof {
                            lemma_failure_stays(
                                experts@,
                                counts@,
                                hidden_dim,
                                slot,
                                keep,
                                i + 1,
                                counts@.len() as int,
                            );
                        }
                        return Err(e);
                    },
                    Ok(run) => {
                        segments.push(
                            ExpertSegment {
                                expert: i,
                                elem_start,
                                elem_end,
                                offset: start as i32,
                                count,
                                run,
                                scratch: None,
                            },
                        );
                    },
                }
            }
        }
        start = start + count as usize;
        i = i + 1;
    }
    Ok(segments)
}

/// A segment is that of an expert with routes, and reads its packed rows.
pub open spec fn is_segment_of(
    segment: ExpertSegment,
    counts: Seq<i32>,
    hidden_dim: usize,
    i: int,
) -> bool {
    &&& segment.expert == i
    &&& segment.count == counts[i]
    &&& segment.count > 0
    &&& segment.offset == prefix_sum(counts, i)
    &&& segment.elem_start == prefix_sum(counts, i) * hidden_dim
    &&& segment.elem_end == prefix_sum(counts, i + 1) * hidden_dim
}

/// Every segment belongs to an expert that has routes, and reads exactly the
/// packed rows of that expert.
pub proof fn law_segments_read_their_rows(
    experts: Seq<DeepseekV4Expert>,
    counts: Seq<i32>,
    hidden_dim: usize,
    slot: Option<DeepseekExpertRuntimeScratch>,
    keep: bool,
    n: int,
    k: int,
)
    requires
        countable(counts),
        total_routes(counts) * hidden_dim <= usize::MAX,
        counts.len() <= usize::MAX,
        0 <= n <= counts.len(),
        planned_segments(experts, counts, hidden_dim, slot, keep, n).0 is Ok,
        0 <= k < planned_segments(experts, counts, hidden_dim, slot, keep, n).0->Ok_0.len(),
    ensures
        ({
            let segment = planned_segments(
                experts,
                counts,
                hidden_dim,
                slot,
                keep,
                n,
            ).0->Ok_0[k];
            0 <= segment.expert < n && is_segment_of(
                segment,
                counts,
                hidden_dim,
                segment.expert as int,
            )
        }),
    decreases n,
{
    if n > 0 {
        let i = n - 1;
        let before = planned_segments(experts, counts, hidden_dim, slot, keep, i);
        let segments = before.0->Ok_0;
        if k < segments.len() {
            law_segments_read_their_rows(experts, counts, hidden_dim, slot, keep, i, k);
        } else {
            lemma_rows_inside(counts, hidden_dim, i);
            let p = prefix_sum(counts, i);
            let c = counts[i] as int;
            let h = hidden_dim as int;
            assert(p * h + c * h == (p + c) * h) by (nonlinear_arith);
        }
    }
}

/// Every expert that has routes runs.
pub proof fn law_every_busy_expert_runs(
    experts: Seq<DeepseekV4Expert>,
    counts: Seq<i32>,
    hidden_dim: usize,
    slot: Option<DeepseekExpertRuntimeScratch>,
    keep: bool,
    n: int,
    i: int,
) -> (k: int)
    requires
        counts.len() <= usize::MAX,
        0 <= i < n <= counts.len(),
        counts[i] != 0,
        planned_segments(experts, counts, hidden_dim, slot, keep, n).0 is Ok,
    ensures
        ({
            let segments = planned_segments(
                experts,
                counts,
                hidden_dim,
                slot,
                keep,
                n,
            ).0->Ok_0;
            0 <= k < segments.len() && segments[k].expert == i
        }),
    decreases n,
{
    let segments = planned_segments(experts, counts, hidden_dim, slot, keep, n).0->Ok_0;
    if i == n - 1 {
        segments.len() - 1
    } else {
        law_every_busy_expert_runs(experts, counts, hidden_dim, slot, keep, n - 1, i)
    }
}

/// Arguments of counting and packing the routes of a rank.
#[derive(Clone, Copy, Debug, PartialEq, Eq, Structural)]
pub struct LocalRoutes {
    pub route: RoutePlan,
    pub local_expert_start: i32,
    pub experts_per_rank: i32,
    /// Entries of the counts, the offsets and the cursors.
    pub expert_slots: usize,
    pub hidden_dim: i32,
}

/// The local routes of a step, or why there are none.
pub open spec fn local_routes(
    block: DeepseekV4MoeBlock,
    config: RouterConfig<'_>,
    ep: ExpertGroup,
    hidden: HiddenShape,
    tokens: usize,
) -> Result<LocalRoutes, MoeError> {
    match route_plan(block, config, ep, hidden, tokens) {
        Err(e) => Err(e),
        Ok(route) => if !fits_i32(ep.local_expert_start) {
            Err(MoeError::ExpertStart)
        } else if !fits_i32(ep.experts_per_rank) {
            Err(MoeError::ExpertsPerRank)
        } else {
            Ok(
                LocalRoutes {
                    route,
                    local_expert_start: ep.local_expert_start as i32,
                    experts_per_rank: ep.experts_per_rank as i32,
                    expert_slots: ep.experts_per_rank,
                    hidden_dim: hidden.hidden_dim as i32,
                },
            )
        },
    }
}

/// The packed routes of a rank.
pub struct PackedRoutes {
    pub offsets: Vec<i32>,
    /// Rows of the packed hidden states.
    pub total: usize,
    /// The experts to run; none where there are no routes.
    pub segments: Vec<ExpertSegment>,
}

/// What packing counted routes gives.
pub open spec fn is_packing(
    r: Result<PackedRoutes, MoeError>,
    experts: Seq<DeepseekV4Expert>,
    counts: Seq<i32>,
    hidden_dim: usize,
) -> bool {
    if !countable(counts) {
        r matches Err(MoeError::Counts(e)) && is_first_fault(counts, e)
    } else if total_routes(counts) == 0 {
        &&& r matches Ok(p)
        &&& p.offsets@ == offsets_of(counts)
        &&& p.total == 0
        &&& p.segments@ == Seq::<ExpertSegment>::empty()
    } else {
        match planned_segments(experts, counts, hidden_dim, None, false, counts.len() as int).0 {
            Err(e) => r == Err::<PackedRoutes, MoeError>(e),
            Ok(segments) => {
                &&& r matches Ok(p)
                &&& p.offsets@ == offsets_of(counts)
                &&& p.total == total_routes(counts)
                &&& p.segments@ == segments
            },
        }
    }
}

impl DeepseekV4MoeBlock {
    /// Plans the router and the count of this rank's routes.
    pub fn plan_local_routes(
        &self,
        config: &RouterConfig<'_>,
        ep: &ExpertGroup,
        hidden: HiddenShape,
        tokens: usize,
    ) -> (r: Result<LocalRoutes, MoeError>)
        requires
            shapes_agree(*self, *config, *ep, hidden, tokens) ==> hidden.seq_len
                * config.num_experts_per_tok <= usize::MAX,
        ensures
            r == local_routes(*self, *config, *ep, hidden, tokens),
    {
        let route: RoutePlan = match self.plan_routes(config, ep, hidden, tokens) {
            Ok(route) => route,
            Err(e) => {
                return Err(e);
            },
        };
        if ep.local_expert_start > 0x7fff_ffff {
            return Err(MoeError::ExpertStart);
        }
        if ep.experts_per_rank > 0x7fff_ffff {
            return Err(MoeError::ExpertsPerRank);
        }
        Ok(
            LocalRoutes {
                route,
                local_expert_start: ep.local_expert_start as i32,
                experts_per_rank: ep.experts_per_rank as i32,
                expert_slots: ep.experts_per_rank,
                hidden_dim: hidden.hidden_dim as i32,
            },
        )
    }

    /// Plans packing and experts from the counted routes of this rank, one
    /// count per expert. Without routes the output stays zero.
    pub fn pack_local_routes(&self, counts: &Vec<i32>, hidden_dim: usize) -> (r: Result<
        PackedRoutes,
        MoeError,
    >)
        requires
            counts@.len() == self.experts@.len(),
            countable(counts@) ==> total_routes(counts@) * hidden_dim <= usize::MAX,
        ensures
            is_packing(r, self.experts@, counts@, hidden_dim),
    {
        let (offsets, total) = match dsv4_counts_to_offsets_i32(counts.as_slice()) {
            Ok(r) => r,
            Err(e) => {
                proof {
                    assert(!countable(counts@)) by {
                        let i = choose|i: int|
                            0 <= i < counts@.len() && #[trigger] fault_at(counts@, i) == Some(e);
                        assert(fault_at(counts@, i) is Some);
                    }
                }
                return Err(MoeError::Counts(e));
            },
        };
        if total == 0 {
            return Ok(PackedRoutes { offsets, total, segments: Vec::new() });
        }
        let mut cache: DeepseekMoeRuntimeCache = DeepseekMoeRuntimeCache::default();
        match plan_segments(&self.experts, counts, hidden_dim, &mut cache, false) {
            Ok(segments) => Ok(PackedRoutes { offsets, total, segments }),
            Err(e) => Err(e),
        }
    }
}

} // verus!
