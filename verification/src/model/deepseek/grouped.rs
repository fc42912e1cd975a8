//! All experts of a rank as one group.

use vstd::prelude::*;

use crate::model::deepseek::device::HiddenShape;
use crate::model::deepseek::mlp::{dsv4_grouped_format, dsv4_grouped_weights};
use crate::model::deepseek::mlp::{grouped_format, grouped_weights};
use crate::model::deepseek::mlp::{
    DeepseekV4Expert, DeepseekV4MoeBlock, Dsv4GroupedWeights, ExpertMatrix, MoeError,
};
use crate::model::deepseek::scratch::ensured_grouped;
use crate::model::deepseek::scratch::{
    DeepseekGroupedExpertRuntimeScratch, DeepseekMoeRuntimeCache,
};

verus! {

/// The experts that have routes, with their packed rows.
pub struct ActiveExperts {
    pub experts: Vec<usize>,
    pub offsets: Vec<i32>,
    pub counts: Vec<i32>,
}

/// Indices of the first `n` counts that are not zero.
pub open spec fn busy(counts: Seq<i32>, n: int) -> Seq<usize>
    decreases n,
{
    if n <= 0 {
        Seq::empty()
    } else if counts[n - 1] > 0 {
        busy(counts, n - 1).push((n - 1) as usize)
    } else {
        busy(counts, n - 1)
    }
}

/// The values at the given places.
pub open spec fn picked(values: Seq<i32>, at: Seq<usize>) -> Seq<i32> {
    Seq::new(at.len(), |i: int| values[at[i] as int])
}

proof fn lemma_busy_in_range(counts: Seq<i32>, n: int)
    requires
        0 <= n <= counts.len(),
        n <= usize::MAX,
    ensures
        forall|k: int|
            0 <= k < busy(counts, n).len() ==> (#[trigger] busy(counts, n)[k]) < n && counts[busy(
                counts,
                n,
            )[k] as int] > 0,
    decreases n,
{
    if n > 0 {
        lemma_busy_in_range(counts, n - 1);
        let list = busy(counts, n);
        assert forall|k: int| 0 <= k < list.len() implies (#[trigger] list[k]) < n
            && counts[list[k] as int] > 0 by {
            if k < busy(counts, n - 1).len() {
                assert(list[k] == busy(counts, n - 1)[k]);
            }
        }
    }
}

/// The active experts are those that have routes.
pub proof fn law_active_experts_have_routes(counts: Seq<i32>, i: usize)
    requires
        counts.len() <= usize::MAX,
    ensures
        busy(counts, counts.len() as int).contains(i) <==> i < counts.len() && counts[i as int] > 0,
{
    lemma_busy_in_range(counts, counts.len() as int);
    if i < counts.len() && counts[i as int] > 0 {
        lemma_busy_is_listed(counts, counts.len() as int, i as int);
    }
}

proof fn lemma_busy_is_listed(counts: Seq<i32>, n: int, i: int)
    requires
        0 <= i < n <= counts.len(),
        n <= usize::MAX,
        counts[i] > 0,
    ensures
        busy(counts, n).contains(i as usize),
    decreases n,
{
    if i == n - 1 {
        assert(busy(counts, n).last() == i as usize);
    } else {
        lemma_busy_is_listed(counts, n - 1, i);
        let list = busy(counts, n - 1);
        let k = choose|k: int| 0 <= k < list.len() && list[k] == i as usize;
        assert(busy(counts, n)[k] == i as usize);
    }
}

/// Lists the experts that have routes.
pub fn active_experts(counts: &Vec<i32>, offsets: &Vec<i32>) -> (active: ActiveExperts)
    requires
        counts@.len() == offsets@.len(),
    ensures
        active.experts@ == busy(counts@, counts@.len() as int),
        active.offsets@ == picked(offsets@, active.experts@),
        active.counts@ == picked(counts@, active.experts@),
{
    let mut experts: Vec<usize> = Vec::new();
    let mut active_offsets: Vec<i32> = Vec::new();
    let mut active_counts: Vec<i32> = Vec::new();
    let mut i: usize = 0;
    while i < counts.len()
        invariant
            i <= counts@.len(),
            counts@.len() == offsets@.len(),
            experts@ == busy(counts@, i as int),
            active_offsets@.len() == experts@.len(),
            active_counts@.len() == experts@.len(),
            forall|k: int|
                0 <= k < experts@.len()
                    ==> #[trigger] active_offsets@[k] == offsets@[experts@[k] as int],
            forall|k: int|
                0 <= k < experts@.len()
                    ==> #[trigger] active_counts@[k] == counts@[experts@[k] as int],
        decreases counts@.len() - i,
    {
        if counts[i] > 0 {
            experts.push(i);
            active_offsets.push(offsets[i]);
            active_counts.push(counts[i]);
        }
        i = i + 1;
    }
    proof {
        assert(active_offsets@ =~= picked(offsets@, experts@));
        assert(active_counts@ =~= picked(counts@, experts@));
    }
    ActiveExperts { experts, offsets: active_offsets, counts: active_counts }
}

/// One grouped product.
#[derive(Clone, Copy, Debug, PartialEq, Eq, Structural)]
pub struct GroupedProduct {
    pub weights: Dsv4GroupedWeights,
    pub num_experts: i32,
    pub max_count: i32,
    pub rows: i32,
    pub cols: i32,
    pub scale_rows: i32,
    pub scale_cols: i32,
}

/// The arguments of a grouped product, where it fits its input and output.
pub open spec fn grouped_product(
    weights: Dsv4GroupedWeights,
    input: HiddenShape,
    output: HiddenShape,
    num_experts: usize,
    max_count: usize,
) -> Result<GroupedProduct, MoeError> {
    if input.hidden_dim != weights.cols || output.hidden_dim != weights.rows {
        Err(MoeError::GroupedProduct)
    } else {
        Ok(
            GroupedProduct {
                weights,
                num_experts: num_experts as i32,
                max_count: max_count as i32,
                rows: weights.rows as i32,
                cols: weights.cols as i32,
                scale_rows: weights.scale_rows as i32,
                scale_cols: weights.scale_cols as i32,
            },
        )
    }
}

/// Plans one grouped product.
pub fn dsv4_grouped_product(
    weights: Dsv4GroupedWeights,
    input: HiddenShape,
    output: HiddenShape,
    num_experts: usize,
    max_count: usize,
) -> (r: Result<GroupedProduct, MoeError>)
    ensures
        r == grouped_product(weights, input, output, num_experts, max_count),
{
    if input.hidden_dim != weights.cols || output.hidden_dim != weights.rows {
        return Err(MoeError::GroupedProduct);
    }
    Ok(
        GroupedProduct {
            weights,
            num_experts: num_experts as i32,
            max_count: max_count as i32,
            rows: weights.rows as i32,
            cols: weights.cols as i32,
            scale_rows: weights.scale_rows as i32,
            scale_cols: weights.scale_cols as i32,
        },
    )
}

/// The grouped run: three products, with the activation between the second and
/// the third, and the scatter of their output.
#[derive(Clone, Copy, Debug, PartialEq, Eq, Structural)]
pub struct GroupedRun {
    /// The buffers have to be allocated first.
    pub allocate: bool,
    pub gate: GroupedProduct,
    pub up: GroupedProduct,
    pub down: GroupedProduct,
    /// Arguments of the scatter kernel.
    pub total_routes: i32,
    pub hidden_dim: i32,
}

/// How a grouped request ends.
#[derive(Clone, Copy, Debug, PartialEq, Eq, Structural)]
pub enum GroupedOutcome {
    /// There is nothing to do.
    Done,
    /// Some weights cannot be read by grouped products.
    Unsupported,
    Run(GroupedRun),
}

/// Grouped products can read all three matrices.
pub open spec fn all_raw(e: DeepseekV4Expert) -> bool {
    grouped_format(e.w1) is Some && grouped_format(e.w3) is Some && grouped_format(e.w2) is Some
}

/// Grouped products can read all experts.
pub open spec fn every_expert_raw(experts: Seq<DeepseekV4Expert>) -> bool {
    forall|i: int| 0 <= i < experts.len() ==> all_raw(#[trigger] experts[i])
}

/// What a grouped request asks for.
#[derive(Clone, Copy, Debug, PartialEq, Eq, Structural)]
pub struct GroupedRequest {
    /// The packed hidden states.
    pub input: HiddenShape,
    /// The states that the routes are scattered into.
    pub output: HiddenShape,
    pub total_routes: usize,
    pub max_routes: usize,
}

/// The buffers of a group with `rows` rows in use.
pub open spec fn group_in_use(
    s: DeepseekGroupedExpertRuntimeScratch,
    rows: usize,
) -> DeepseekGroupedExpertRuntimeScratch {
    DeepseekGroupedExpertRuntimeScratch {
        gate: HiddenShape { seq_len: rows, ..s.gate },
        up: HiddenShape { seq_len: rows, ..s.up },
        act: HiddenShape { seq_len: rows, ..s.act },
        out: HiddenShape { seq_len: rows, ..s.out },
        ..s
    }
}

/// The first expert does not fit the group's states.
pub open spec fn group_misfit(first: DeepseekV4Expert, q: GroupedRequest) -> bool {
    ||| first.w1.rows != first.w3.rows
    ||| first.w1.cols != q.input.hidden_dim
    ||| first.w3.cols != q.input.hidden_dim
    ||| first.w2.cols != first.w1.rows
    ||| first.w2.rows != q.output.hidden_dim
}

/// The matrices of the group, or what keeps them from forming one.
pub open spec fn group_matrices(experts: Seq<DeepseekV4Expert>, active: Seq<usize>) -> Result<
    (Dsv4GroupedWeights, Dsv4GroupedWeights, Dsv4GroupedWeights),
    MoeError,
> {
    match grouped_weights(experts, active, ExpertMatrix::W1) {
        Err(e) => Err(e),
        Ok(w1) => match grouped_weights(experts, active, ExpertMatrix::W3) {
            Err(e) => Err(e),
            Ok(w3) => match grouped_weights(experts, active, ExpertMatrix::W2) {
                Err(e) => Err(e),
                Ok(w2) => Ok((w1, w3, w2)),
            },
        },
    }
}

/// The products of a group in its buffers.
pub open spec fn group_run(
    weights: (Dsv4GroupedWeights, Dsv4GroupedWeights, Dsv4GroupedWeights),
    s: DeepseekGroupedExpertRuntimeScratch,
    allocate: bool,
    active: nat,
    q: GroupedRequest,
) -> Result<GroupedOutcome, MoeError> {
    let n = active as usize;
    match grouped_product(weights.0, q.input, s.gate, n, q.max_routes) {
        Err(e) => Err(e),
        Ok(gate) => match grouped_product(weights.1, q.input, s.up, n, q.max_routes) {
            Err(e) => Err(e),
            Ok(up) => match grouped_product(weights.2, s.act, s.out, n, q.max_routes) {
                Err(e) => Err(e),
                Ok(down) => Ok(
                    GroupedOutcome::Run(
                        GroupedRun {
                            allocate,
                            gate,
                            up,
                            down,
                            total_routes: q.total_routes as i32,
                            hidden_dim: q.output.hidden_dim as i32,
                        },
                    ),
                ),
            },
        },
    }
}

/// What a grouped request gives, and the group's buffers afterwards.
pub open spec fn grouped_forward(
    experts: Seq<DeepseekV4Expert>,
    active: Seq<usize>,
    q: GroupedRequest,
    slot: Option<DeepseekGroupedExpertRuntimeScratch>,
) -> (Result<GroupedOutcome, MoeError>, Option<DeepseekGroupedExpertRuntimeScratch>) {
    if q.total_routes == 0 || q.max_routes == 0 || active.len() == 0 {
        (Ok(GroupedOutcome::Done), slot)
    } else if experts.len() == 0 || !every_expert_raw(experts) {
        (Ok(GroupedOutcome::Unsupported), slot)
    } else if group_misfit(experts[0], q) {
        (Err(MoeError::GroupedShape), slot)
    } else if q.output.seq_len < q.total_routes {
        (Err(MoeError::RouteRows), slot)
    } else {
        match group_matrices(experts, active) {
            Err(e) => (Err(e), slot),
            Ok(weights) => {
                let rows = experts[0].w1.rows;
                let s = group_in_use(
                    ensured_grouped(slot, q.output.hidden_dim, rows, q.total_routes),
                    q.total_routes,
                );
                let allocate = !(slot matches Some(old)
                    && crate::model::deepseek::scratch::grouped_fits(
                    old,
                    q.output.hidden_dim,
                    rows,
                    q.total_routes,
                ));
                (group_run(weights, s, allocate, active.len(), q), Some(s))
            },
        }
    }
}

impl DeepseekV4MoeBlock {
    fn every_raw(&self) -> (raw: bool)
        ensures
            raw == every_expert_raw(self.experts@),
    {
        let mut i: usize = 0;
        while i < self.experts.len()
            invariant
                i <= self.experts@.len(),
                forall|k: int| 0 <= k < i ==> all_raw(#[trigger] self.experts@[k]),
            decreases self.experts@.len() - i,
        {
            let e: DeepseekV4Expert = self.experts[i];
            if dsv4_grouped_format(&e.w1).is_none() || dsv4_grouped_format(&e.w3).is_none()
                || dsv4_grouped_format(&e.w2).is_none() {
                assert(!all_raw(self.experts@[i as int]));
                return false;
            }
            i = i + 1;
        }
        true
    }

    /// Plans the active experts as one group.
    pub fn forward_grouped_dsv4_experts_gpu(
        &self,
        active: &Vec<usize>,
        q: GroupedRequest,
        cache: &mut DeepseekMoeRuntimeCache,
    ) -> (r: Result<GroupedOutcome, MoeError>)
        ensures
            ({
                let (outcome, slot) = grouped_forward(
                    self.experts@,
                    active@,
                    q,
                    old(cache).grouped,
                );
                &&& r == outcome
                &&& *final(cache) == (DeepseekMoeRuntimeCache { grouped: slot, ..*old(cache) })
            }),
    {
        if q.total_routes == 0 || q.max_routes == 0 || active.len() == 0 {
            return Ok(GroupedOutcome::Done);
        }
        if self.experts.len() == 0 || !self.every_raw() {
            return Ok(GroupedOutcome::Unsupported);
        }
        let first: DeepseekV4Expert = self.experts[0];
        if first.w1.rows != first.w3.rows || first.w1.cols != q.input.hidden_dim || first.w3.cols
            != q.input.hidden_dim || first.w2.cols != first.w1.rows || first.w2.rows
            != q.output.hidden_dim {
            return Err(MoeError::GroupedShape);
        }
        if q.output.seq_len < q.total_routes {
            return Err(MoeError::RouteRows);
        }
        let w1: Dsv4GroupedWeights = match dsv4_grouped_weights(
            &self.experts,
            active,
            ExpertMatrix::W1,
        ) {
            Ok(w) => w,
            Err(e) => {
                return Err(e);
            },
        };
        let w3: Dsv4GroupedWeights = match dsv4_grouped_weights(
            &self.experts,
            active,
            ExpertMatrix::W3,
        ) {
            Ok(w) => w,
            Err(e) => {
                return Err(e);
            },
        };
        let w2: Dsv4GroupedWeights = match dsv4_grouped_weights(
            &self.experts,
            active,
            ExpertMatrix::W2,
        ) {
            Ok(w) => w,
            Err(e) => {
                return Err(e);
            },
        };
        let allocate: bool = cache.ensure_grouped_expert_scratch(
            q.output.hidden_dim,
            first.w1.rows,
            q.total_routes,
        );
        let mut s: DeepseekGroupedExpertRuntimeScratch = match cache.grouped {
            Some(s) => s,
            None => {
                return Err(MoeError::ScratchShape);
            },
        };
        s.gate.seq_len = q.total_routes;
        s.up.seq_len = q.total_routes;
        s.act.seq_len = q.total_routes;
        s.out.seq_len = q.total_routes;
        cache.grouped = Some(s);
        let n: usize = active.len();
        let gate: GroupedProduct =
            match dsv4_grouped_product(w1, q.input, s.gate, n, q.max_routes) {
            Ok(p) => p,
            Err(e) => {
                return Err(e);
            },
        };
        let up: GroupedProduct = match dsv4_grouped_product(w3, q.input, s.up, n, q.max_routes) {
            Ok(p) => p,
            Err(e) => {
                return Err(e);
            },
        };
        let down: GroupedProduct = match dsv4_grouped_product(w2, s.act, s.out, n, q.max_routes) {
            Ok(p) => p,
            Err(e) => {
                return Err(e);
            },
        };
        Ok(
            GroupedOutcome::Run(
                GroupedRun {
                    allocate,
                    gate,
                    up,
                    down,
                    total_routes: q.total_routes as i32,
                    hidden_dim: q.output.hidden_dim as i32,
                },
            ),
        )
    }
}

/// A grouped product runs exactly where its input has the columns of the weights and
/// its output their rows; it is told the shapes of the weights, the experts and the
/// largest count.
pub proof fn law_grouped_products_fit_their_weights(
    weights: Dsv4GroupedWeights,
    input: HiddenShape,
    output: HiddenShape,
    num_experts: usize,
    max_count: usize,
)
    requires
        weights.rows <= i32::MAX && weights.cols <= i32::MAX,
        weights.scale_rows <= i32::MAX && weights.scale_cols <= i32::MAX,
        num_experts <= i32::MAX && max_count <= i32::MAX,
    ensures
        grouped_product(weights, input, output, num_experts, max_count) is Ok
            <==> input.hidden_dim == weights.cols && output.hidden_dim == weights.rows,
        grouped_product(weights, input, output, num_experts, max_count) matches Ok(p) ==> {
            &&& p.weights == weights
            &&& p.rows == output.hidden_dim
            &&& p.cols == input.hidden_dim
            &&& p.scale_rows == weights.scale_rows
            &&& p.scale_cols == weights.scale_cols
            &&& p.num_experts == num_experts
            &&& p.max_count == max_count
        },
{
}

/// Grouped products can read a list of experts exactly where they can read each one
/// of them.
pub proof fn law_experts_are_raw_one_by_one(a: Seq<DeepseekV4Expert>, b: Seq<DeepseekV4Expert>)
    ensures
        every_expert_raw(a + b) <==> every_expert_raw(a) && every_expert_raw(b),
        every_expert_raw(Seq::<DeepseekV4Expert>::empty()),
        a.len() == 1 ==> (every_expert_raw(a) <==> {
            &&& grouped_format(a[0].w1) is Some
            &&& grouped_format(a[0].w2) is Some
            &&& grouped_format(a[0].w3) is Some
        }),
{
    let s = a + b;
    if every_expert_raw(s) {
        assert forall|i: int| 0 <= i < a.len() implies all_raw(#[trigger] a[i]) by {
            assert(s[i] == a[i]);
        }
        assert forall|i: int| 0 <= i < b.len() implies all_raw(#[trigger] b[i]) by {
            assert(s[a.len() + i] == b[i]);
        }
    }
    if a.len() == 1 && every_expert_raw(a) {
        assert(all_raw(a[0]));
    }
}

} // verus!
