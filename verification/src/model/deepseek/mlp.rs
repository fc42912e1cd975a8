//! Experts and their router: shapes, checks and kernel arguments.
//!
//! Matrices and hidden states live on the device; what is planned here is
//! which products run over which rows, with which arguments.

use vstd::prelude::*;

use crate::model::deepseek::config::ExpertGroup;
use crate::model::deepseek::counts::CountError;
use crate::model::deepseek::device::{dispatch_phase, HiddenShape, LinearDispatchPhase};
use crate::model::deepseek::device::{MatrixShape, WeightFormat};
use crate::model::deepseek::device::phase_of;
use crate::model::deepseek::load::BlockFormat;
use crate::model::deepseek::scratch::DeepseekExpertRuntimeScratch;
use crate::model::deepseek::switches::SwitchError;
use crate::model::requests::same_text;

verus! {

/// Why the experts of a layer cannot run.
#[derive(Clone, Copy, Debug, PartialEq, Eq, Structural)]
pub enum MoeError {
    /// An expert's matrices do not take the hidden states.
    ExpertInputWidth,
    /// An expert's matrices do not fit each other.
    ExpertIntermediate,
    /// The buffers do not fit the expert.
    ScratchShape,
    /// The block holds routed experts, but only the shared one can run here.
    RoutedNotWired,
    /// There is no shared expert.
    NoSharedExpert,
    /// Dispatch needs more than one rank.
    SingleRank,
    /// There is not one token per hidden state.
    TokenCount,
    /// The router matrix has another shape than hidden states and experts ask.
    GateShape,
    /// The bias has not one value per expert.
    GateBias,
    /// The rank does not hold the experts that it should.
    ExpertCount,
    /// The scoring function is unknown.
    Scoring,
    /// A hash-routed layer has no table of experts.
    MissingHashTable,
    /// A bias-routed layer has no bias.
    MissingBias,
    /// The first local expert is too large for a kernel argument.
    ExpertStart,
    /// The number of local experts is too large for a kernel argument.
    ExpertsPerRank,
    /// The number of ranks is too large for a kernel argument.
    WorldSize,
    /// A route names a token that there is not.
    RouteToken,
    /// A route names an expert that there is not.
    RouteExpert,
    /// A token id is outside the vocabulary.
    TokenId,
    /// The table of experts ends before a token's entries.
    TableTooShort,
    /// The table holds an expert id that cannot be one.
    ExpertId,
    /// Grouped experts need at least one expert with routes.
    NoActiveExperts,
    /// An active expert is not loaded.
    ActiveExpert,
    /// Grouped experts need raw FP8 or FP4 values.
    NotRaw,
    /// Grouped experts need block scales.
    NoScales,
    /// Grouped experts differ in format or shape.
    MixedExperts,
    /// The values of a grouped expert are not on the device.
    MissingValues,
    /// The scales of a grouped expert are not on the device.
    MissingScales,
    /// The experts do not fit the hidden states of the group.
    GroupedShape,
    /// The group's output has fewer rows than there are routes.
    RouteRows,
    /// A grouped product does not fit its input or output.
    GroupedProduct,
    /// Route counts cannot be used.
    Counts(CountError),
    /// A switch cannot be read.
    Switch(SwitchError),
}

/// One SwiGLU expert: `w2(silu(w1(x)) * w3(x))`.
#[derive(Clone, Copy, Debug, PartialEq, Eq, Structural)]
pub struct DeepseekV4Expert {
    pub w1: MatrixShape,
    pub w2: MatrixShape,
    pub w3: MatrixShape,
}

/// The products of one expert: the shapes of its intermediate states.
#[derive(Clone, Copy, Debug, PartialEq, Eq, Structural)]
pub struct ExpertRun {
    pub phase: LinearDispatchPhase,
    pub gate: HiddenShape,
    pub up: HiddenShape,
    pub act: HiddenShape,
    pub out: HiddenShape,
}

/// Why an expert does not take hidden states of width `hidden_dim`, if it does
/// not.
pub open spec fn expert_fault(e: DeepseekV4Expert, hidden_dim: usize) -> Option<MoeError> {
    if e.w1.cols != hidden_dim || e.w3.cols != hidden_dim {
        Some(MoeError::ExpertInputWidth)
    } else if e.w1.rows != e.w3.rows || e.w2.cols != e.w1.rows {
        Some(MoeError::ExpertIntermediate)
    } else {
        None
    }
}

/// The products of an expert over hidden states.
pub open spec fn expert_run(e: DeepseekV4Expert, hidden: HiddenShape) -> Result<
    ExpertRun,
    MoeError,
> {
    match expert_fault(e, hidden.hidden_dim) {
        Some(error) => Err(error),
        None => Ok(
            ExpertRun {
                phase: phase_of(hidden.seq_len),
                gate: HiddenShape { hidden_dim: e.w1.rows, seq_len: hidden.seq_len },
                up: HiddenShape { hidden_dim: e.w3.rows, seq_len: hidden.seq_len },
                act: HiddenShape { hidden_dim: e.w1.rows, seq_len: hidden.seq_len },
                out: HiddenShape { hidden_dim: e.w2.rows, seq_len: hidden.seq_len },
            },
        ),
    }
}

/// An expert whose shapes fit hands on what it takes: the last product takes
/// the activation, and all states have the rows of the input.
pub proof fn law_expert_shapes_chain(e: DeepseekV4Expert, hidden: HiddenShape)
    requires
        expert_run(e, hidden) is Ok,
    ensures
        ({
            let run = expert_run(e, hidden)->Ok_0;
            &&& run.gate == run.up
            &&& run.act == run.gate
            &&& e.w2.cols == run.act.hidden_dim
            &&& run.out.seq_len == hidden.seq_len
        }),
{
}

/// The buffers fit an expert.
pub open spec fn scratch_fits_expert(
    s: DeepseekExpertRuntimeScratch,
    e: DeepseekV4Expert,
) -> bool {
    &&& s.capacity_tokens >= s.input.seq_len
    &&& s.hidden_dim == s.input.hidden_dim
    &&& s.intermediate_dim == e.w1.rows
    &&& s.output_dim == e.w2.rows
}

/// The buffers with as many rows in use as the input has.
pub open spec fn rows_of_input(s: DeepseekExpertRuntimeScratch) -> DeepseekExpertRuntimeScratch {
    let rows = s.input.seq_len;
    DeepseekExpertRuntimeScratch {
        gate: HiddenShape { seq_len: rows, ..s.gate },
        up: HiddenShape { seq_len: rows, ..s.up },
        act: HiddenShape { seq_len: rows, ..s.act },
        out: HiddenShape { seq_len: rows, ..s.out },
        ..s
    }
}

/// Why an expert cannot run in the given buffers, if it cannot.
pub open spec fn scratch_fault(e: DeepseekV4Expert, s: DeepseekExpertRuntimeScratch) -> Option<
    MoeError,
> {
    match expert_fault(e, s.input.hidden_dim) {
        Some(error) => Some(error),
        None => if scratch_fits_expert(s, e) {
            None
        } else {
            Some(MoeError::ScratchShape)
        },
    }
}

impl DeepseekV4Expert {
    /// Plans the expert over hidden states, in new buffers.
    pub fn forward(&self, hidden: HiddenShape) -> (run: Result<ExpertRun, MoeError>)
        ensures
            run == expert_run(*self, hidden),
    {
        if self.w1.cols != hidden.hidden_dim || self.w3.cols != hidden.hidden_dim {
            return Err(MoeError::ExpertInputWidth);
        }
        if self.w1.rows != self.w3.rows || self.w2.cols != self.w1.rows {
            return Err(MoeError::ExpertIntermediate);
        }
        let seq_len: usize = hidden.seq_len;
        Ok(
            ExpertRun {
                phase: dispatch_phase(seq_len),
                gate: HiddenShape { hidden_dim: self.w1.rows, seq_len },
                up: HiddenShape { hidden_dim: self.w3.rows, seq_len },
                act: HiddenShape { hidden_dim: self.w1.rows, seq_len },
                out: HiddenShape { hidden_dim: self.w2.rows, seq_len },
            },
        )
    }

    /// Plans the expert over the input rows of kept buffers. On an error the
    /// buffers stay as they are.
    pub fn forward_scratch_input(&self, scratch: &mut DeepseekExpertRuntimeScratch) -> (r: Result<
        LinearDispatchPhase,
        MoeError,
    >)
        ensures
            match scratch_fault(*self, *old(scratch)) {
                Some(e) => r == Err::<LinearDispatchPhase, MoeError>(e) && *final(scratch) == *old(
                    scratch,
                ),
                None => {
                    &&& r == Ok::<LinearDispatchPhase, MoeError>(
                        phase_of(old(scratch).input.seq_len),
                    )
                    &&& *final(scratch) == rows_of_input(*old(scratch))
                },
            },
    {
        let seq_len: usize = scratch.input.seq_len;
        if self.w1.cols != scratch.input.hidden_dim || self.w3.cols != scratch.input.hidden_dim {
            return Err(MoeError::ExpertInputWidth);
        }
        if self.w1.rows != self.w3.rows || self.w2.cols != self.w1.rows {
            return Err(MoeError::ExpertIntermediate);
        }
        if !(scratch.capacity_tokens >= seq_len && scratch.hidden_dim == scratch.input.hidden_dim
            && scratch.intermediate_dim == self.w1.rows && scratch.output_dim == self.w2.rows) {
            return Err(MoeError::ScratchShape);
        }
        scratch.gate.seq_len = seq_len;
        scratch.up.seq_len = seq_len;
        scratch.act.seq_len = seq_len;
        scratch.out.seq_len = seq_len;
        Ok(dispatch_phase(seq_len))
    }
}

/// The block format of a matrix that grouped products can read.
pub open spec fn grouped_format(weight: MatrixShape) -> Option<BlockFormat> {
    match weight.format {
        WeightFormat::Dsv4Fp8BlockScaled => Some(BlockFormat::Fp8),
        WeightFormat::Dsv4Fp4BlockScaled => Some(BlockFormat::Fp4),
        _ => None,
    }
}

/// The block format of a matrix that grouped products can read.
pub fn dsv4_grouped_format(weight: &MatrixShape) -> (format: Option<BlockFormat>)
    ensures
        format == grouped_format(*weight),
{
    match weight.format {
        WeightFormat::Dsv4Fp8BlockScaled => Some(BlockFormat::Fp8),
        WeightFormat::Dsv4Fp4BlockScaled => Some(BlockFormat::Fp4),
        _ => None,
    }
}

/// One of the three matrices of an expert.
#[derive(Clone, Copy, Debug, PartialEq, Eq, Structural)]
pub enum ExpertMatrix {
    W1,
    W2,
    W3,
}

/// The matrix of an expert.
pub open spec fn expert_matrix(e: DeepseekV4Expert, which: ExpertMatrix) -> MatrixShape {
    match which {
        ExpertMatrix::W1 => e.w1,
        ExpertMatrix::W2 => e.w2,
        ExpertMatrix::W3 => e.w3,
    }
}

fn select_matrix(e: &DeepseekV4Expert, which: ExpertMatrix) -> (m: MatrixShape)
    ensures
        m == expert_matrix(*e, which),
{
    match which {
        ExpertMatrix::W1 => e.w1,
        ExpertMatrix::W2 => e.w2,
        ExpertMatrix::W3 => e.w3,
    }
}

/// What the matrices of a group have in common.
#[derive(Clone, Copy, Debug, PartialEq, Eq, Structural)]
pub struct Dsv4GroupedWeights {
    pub format: BlockFormat,
    pub rows: usize,
    pub cols: usize,
    pub scale_rows: usize,
    pub scale_cols: usize,
}

/// The matrix has the format and shape of the group.
pub open spec fn belongs_to_group(weight: MatrixShape, group: Dsv4GroupedWeights) -> bool {
    &&& grouped_format(weight) == Some(group.format)
    &&& weight.rows == group.rows
    &&& weight.cols == group.cols
    &&& weight.scale_rows == group.scale_rows
    &&& weight.scale_cols == group.scale_cols
}

/// What keeps an active expert out of the group, if anything does.
pub open spec fn group_fault(
    experts: Seq<DeepseekV4Expert>,
    expert: usize,
    which: ExpertMatrix,
    group: Dsv4GroupedWeights,
) -> Option<MoeError> {
    if expert >= experts.len() {
        Some(MoeError::ActiveExpert)
    } else {
        let weight = expert_matrix(experts[expert as int], which);
        if !belongs_to_group(weight, group) {
            Some(MoeError::MixedExperts)
        } else if !weight.has_values {
            Some(MoeError::MissingValues)
        } else if !weight.has_scales {
            Some(MoeError::MissingScales)
        } else {
            None
        }
    }
}

/// What keeps the first of `n` active experts out of the group, if anything
/// does.
pub open spec fn first_group_fault(
    experts: Seq<DeepseekV4Expert>,
    active: Seq<usize>,
    which: ExpertMatrix,
    group: Dsv4GroupedWeights,
    n: int,
) -> Option<MoeError>
    decreases n,
{
    if n <= 0 {
        None
    } else {
        match first_group_fault(experts, active, which, group, n - 1) {
            Some(e) => Some(e),
            None => group_fault(experts, active[n - 1], which, group),
        }
    }
}

/// The group that the matrices of the active experts form.
pub open spec fn grouped_weights(
    experts: Seq<DeepseekV4Expert>,
    active: Seq<usize>,
    which: ExpertMatrix,
) -> Result<Dsv4GroupedWeights, MoeError> {
    if active.len() == 0 {
        Err(MoeError::NoActiveExperts)
    } else if active[0] >= experts.len() {
        Err(MoeError::ActiveExpert)
    } else {
        let first = expert_matrix(experts[active[0] as int], which);
        match grouped_format(first) {
            None => Err(MoeError::NotRaw),
            Some(format) => if first.scale_rows == 0 || first.scale_cols == 0 {
                Err(MoeError::NoScales)
            } else {
                let group = Dsv4GroupedWeights {
                    format,
                    rows: first.rows,
                    cols: first.cols,
                    scale_rows: first.scale_rows,
                    scale_cols: first.scale_cols,
                };
                match first_group_fault(experts, active, which, group, active.len() as int) {
                    Some(e) => Err(e),
                    None => Ok(group),
                }
            },
        }
    }
}

proof fn lemma_fault_stays(
    experts: Seq<DeepseekV4Expert>,
    active: Seq<usize>,
    which: ExpertMatrix,
    group: Dsv4GroupedWeights,
    m: int,
    n: int,
)
    requires
        m <= n,
        first_group_fault(experts, active, which, group, m) is Some,
    ensures
        first_group_fault(experts, active, which, group, n) == first_group_fault(
            experts,
            active,
            which,
            group,
            m,
        ),
    decreases n - m,
{
    if m < n {
        lemma_fault_stays(experts, active, which, group, m, n - 1);
    }
}

/// Every member of a group has the group's format and shape, and its values
/// and scales are on the device.
pub proof fn law_group_members_agree(
    experts: Seq<DeepseekV4Expert>,
    active: Seq<usize>,
    which: ExpertMatrix,
    i: int,
)
    requires
        grouped_weights(experts, active, which) is Ok,
        0 <= i < active.len(),
    ensures
        active[i] < experts.len(),
        ({
            let group = grouped_weights(experts, active, which)->Ok_0;
            let weight = expert_matrix(experts[active[i] as int], which);
            belongs_to_group(weight, group) && weight.has_values && weight.has_scales
        }),
{
    let group = grouped_weights(experts, active, which)->Ok_0;
    if first_group_fault(experts, active, which, group, i + 1) is Some {
        lemma_fault_stays(experts, active, which, group, i + 1, active.len() as int);
    }
    if first_group_fault(experts, active, which, group, i) is Some {
        lemma_fault_stays(experts, active, which, group, i, active.len() as int);
    }
}

/// Checks that the matrices of the active experts form a group.
pub fn dsv4_grouped_weights(
    experts: &Vec<DeepseekV4Expert>,
    active: &Vec<usize>,
    which: ExpertMatrix,
) -> (r: Result<Dsv4GroupedWeights, MoeError>)
    ensures
        r == grouped_weights(experts@, active@, which),
{
    if active.len() == 0 {
        return Err(MoeError::NoActiveExperts);
    }
    if active[0] >= experts.len() {
        return Err(MoeError::ActiveExpert);
    }
    let first: MatrixShape = select_matrix(&experts[active[0]], which);
    let format: BlockFormat = match dsv4_grouped_format(&first) {
        Some(f) => f,
        None => {
            return Err(MoeError::NotRaw);
        },
    };
    if first.scale_rows == 0 || first.scale_cols == 0 {
        return Err(MoeError::NoScales);
    }
    let group: Dsv4GroupedWeights = Dsv4GroupedWeights {
        format,
        rows: first.rows,
        cols: first.cols,
        scale_rows: first.scale_rows,
        scale_cols: first.scale_cols,
    };
    let mut i: usize = 0;
    while i < active.len()
        invariant
            i <= active@.len(),
            first_group_fault(experts@, active@, which, group, i as int) is None,
            active@.len() > 0,
            active@[0] < experts@.len(),
            first == expert_matrix(experts@[active@[0] as int], which),
            grouped_format(first) == Some(format),
            first.scale_rows > 0 && first.scale_cols > 0,
            group == (Dsv4GroupedWeights {
                format,
                rows: first.rows,
                cols: first.cols,
                scale_rows: first.scale_rows,
                scale_cols: first.scale_cols,
            }),
        decreases active@.len() - i,
    {
        match member_fault(experts, active[i], which, &group) {
            Some(e) => {
                proof {
                    assert(first_group_fault(experts@, active@, which, group, i + 1) == Some(e));
                    lemma_fault_stays(
                        experts@,
                        active@,
                        which,
                        group,
                        i + 1,
                        active@.len() as int,
                    );
                }
                return Err(e);
            },
            None => {},
        }
        i = i + 1;
    }
    Ok(group)
}

fn member_fault(
    experts: &Vec<DeepseekV4Expert>,
    expert: usize,
    which: ExpertMatrix,
    group: &Dsv4GroupedWeights,
) -> (fault: Option<MoeError>)
    ensures
        fault == group_fault(experts@, expert, which, *group),
{
    if expert >= experts.len() {
        return Some(MoeError::ActiveExpert);
    }
    let weight: MatrixShape = select_matrix(&experts[expert], which);
    let same_format: bool = match dsv4_grouped_format(&weight) {
        Some(f) => f == group.format,
        None => false,
    };
    if !(same_format && weight.rows == group.rows && weight.cols == group.cols && weight.scale_rows
        == group.scale_rows && weight.scale_cols == group.scale_cols) {
        return Some(MoeError::MixedExperts);
    }
    if !weight.has_values {
        return Some(MoeError::MissingValues);
    }
    if !weight.has_scales {
        return Some(MoeError::MissingScales);
    }
    None
}

/// How tokens find their experts.
#[derive(Clone, Copy, Debug, PartialEq, Eq, Structural)]
pub enum MoeRoutingKind {
    /// By a table over token ids.
    Hash,
    /// By scores and a learned bias.
    LearnedBias,
}

/// What the router reads of the configuration.
#[derive(Clone, Copy, Debug)]
pub struct RouterConfig<'a> {
    pub n_routed_experts: usize,
    pub num_experts_per_tok: usize,
    pub scoring_func: &'a str,
    pub routing_kind: MoeRoutingKind,
}

/// Routed experts with an optional shared expert.
pub struct DeepseekV4MoeBlock {
    pub gate_weight: MatrixShape,
    /// Length of the bias.
    pub gate_bias: Option<usize>,
    /// Entries of the table that maps token ids to experts.
    pub gate_tid2eid: Option<usize>,
    pub experts: Vec<DeepseekV4Expert>,
    pub shared_experts: Option<DeepseekV4Expert>,
}

/// The kernel's number of a scoring function.
pub open spec fn scoring_code(name: Seq<char>) -> Option<i32> {
    if name == "softmax"@ {
        Some(0i32)
    } else if name == "sigmoid"@ {
        Some(1i32)
    } else if name == "sqrtsoftplus"@ {
        Some(2i32)
    } else {
        None
    }
}

fn scoring_kind(name: &str) -> (code: Option<i32>)
    ensures
        code == scoring_code(name@),
{
    if same_text(name, "softmax") {
        Some(0)
    } else if same_text(name, "sigmoid") {
        Some(1)
    } else if same_text(name, "sqrtsoftplus") {
        Some(2)
    } else {
        None
    }
}

/// Arguments of the router kernel.
#[derive(Clone, Copy, Debug, PartialEq, Eq, Structural)]
pub struct RoutePlan {
    /// Entries of the route indices and of the route weights.
    pub route_slots: usize,
    pub seq_len: i32,
    pub n_routed_experts: i32,
    pub num_experts_per_tok: i32,
    /// `0` for a hash table, `1` for a learned bias.
    pub routing_kind: i32,
    pub scoring_kind: i32,
    /// The bias goes to the kernel.
    pub has_bias: bool,
    /// The table goes to the kernel.
    pub has_table: bool,
}

/// Tokens, gate and experts belong to the hidden states.
pub open spec fn shapes_agree(
    block: DeepseekV4MoeBlock,
    config: RouterConfig<'_>,
    ep: ExpertGroup,
    hidden: HiddenShape,
    tokens: usize,
) -> bool {
    &&& tokens == hidden.seq_len
    &&& block.gate_weight.rows == config.n_routed_experts
    &&& block.gate_weight.cols == hidden.hidden_dim
    &&& ep.experts_per_rank == block.experts@.len()
}

/// The routes of a step, or why there are none.
pub open spec fn route_plan(
    block: DeepseekV4MoeBlock,
    config: RouterConfig<'_>,
    ep: ExpertGroup,
    hidden: HiddenShape,
    tokens: usize,
) -> Result<RoutePlan, MoeError> {
    if tokens != hidden.seq_len {
        Err(MoeError::TokenCount)
    } else if block.gate_weight.rows != config.n_routed_experts || block.gate_weight.cols
        != hidden.hidden_dim {
        Err(MoeError::GateShape)
    } else if ep.experts_per_rank != block.experts@.len() {
        Err(MoeError::ExpertCount)
    } else {
        match scoring_code(config.scoring_func@) {
            None => Err(MoeError::Scoring),
            Some(scoring_kind) => if config.routing_kind == MoeRoutingKind::Hash
                && block.gate_tid2eid is None {
                Err(MoeError::MissingHashTable)
            } else if config.routing_kind == MoeRoutingKind::LearnedBias
                && block.gate_bias is None {
                Err(MoeError::MissingBias)
            } else {
                Ok(
                    RoutePlan {
                        route_slots: (hidden.seq_len * config.num_experts_per_tok) as usize,
                        seq_len: hidden.seq_len as i32,
                        n_routed_experts: config.n_routed_experts as i32,
                        num_experts_per_tok: config.num_experts_per_tok as i32,
                        routing_kind: match config.routing_kind {
                            MoeRoutingKind::Hash => 0i32,
                            MoeRoutingKind::LearnedBias => 1i32,
                        },
                        scoring_kind,
                        has_bias: block.gate_bias is Some,
                        has_table: block.gate_tid2eid is Some,
                    },
                )
            },
        }
    }
}

/// A number that fits a kernel argument.
pub open spec fn fits_i32(n: usize) -> bool {
    n <= i32::MAX
}

impl DeepseekV4MoeBlock {
    /// Plans the block where only the shared expert runs.
    pub fn forward(&self, hidden: HiddenShape) -> (r: Result<ExpertRun, MoeError>)
        ensures
            r == (if self.experts@.len() > 0 {
                Err(MoeError::RoutedNotWired)
            } else {
                match self.shared_experts {
                    None => Err(MoeError::NoSharedExpert),
                    Some(shared) => expert_run(shared, hidden),
                }
            }),
    {
        if self.experts.len() > 0 {
            return Err(MoeError::RoutedNotWired);
        }
        match &self.shared_experts {
            None => Err(MoeError::NoSharedExpert),
            Some(shared) => shared.forward(hidden),
        }
    }

    /// Plans the shared expert, whose output is added to that of the routed
    /// ones; without one nothing is added.
    pub fn add_shared_expert(&self, hidden: HiddenShape) -> (r: Result<
        Option<ExpertRun>,
        MoeError,
    >)
        ensures
            r == match self.shared_experts {
                None => Ok::<Option<ExpertRun>, MoeError>(None),
                Some(shared) => match expert_run(shared, hidden) {
                    Ok(run) => Ok(Some(run)),
                    Err(e) => Err(e),
                },
            },
    {
        match &self.shared_experts {
            None => Ok(None),
            Some(shared) => match shared.forward(hidden) {
                Ok(run) => Ok(Some(run)),
                Err(e) => Err(e),
            },
        }
    }

    /// Plans the router.
    pub fn plan_routes(
        &self,
        config: &RouterConfig<'_>,
        ep: &ExpertGroup,
        hidden: HiddenShape,
        tokens: usize,
    ) -> (r: Result<RoutePlan, MoeError>)
        requires
            shapes_agree(*self, *config, *ep, hidden, tokens) ==> hidden.seq_len
                * config.num_experts_per_tok <= usize::MAX,
        ensures
            r == route_plan(*self, *config, *ep, hidden, tokens),
    {
        if tokens != hidden.seq_len {
            return Err(MoeError::TokenCount);
        }
        if self.gate_weight.rows != config.n_routed_experts || self.gate_weight.cols
            != hidden.hidden_dim {
            return Err(MoeError::GateShape);
        }
        if ep.experts_per_rank != self.experts.len() {
            return Err(MoeError::ExpertCount);
        }
        let routing_kind: i32 = match config.routing_kind {
            MoeRoutingKind::Hash => 0,
            MoeRoutingKind::LearnedBias => 1,
        };
        let scoring: i32 = match scoring_kind(config.scoring_func) {
            Some(code) => code,
            None => {
                return Err(MoeError::Scoring);
            },
        };
        if routing_kind == 0 {
            if self.gate_tid2eid.is_none() {
                return Err(MoeError::MissingHashTable);
            }
        } else {
            if self.gate_bias.is_none() {
                return Err(MoeError::MissingBias);
            }
        }
        Ok(
            RoutePlan {
                route_slots: hidden.seq_len * config.num_experts_per_tok,
                seq_len: hidden.seq_len as i32,
                n_routed_experts: config.n_routed_experts as i32,
                num_experts_per_tok: config.num_experts_per_tok as i32,
                routing_kind,
                scoring_kind: scoring,
                has_bias: self.gate_bias.is_some(),
                has_table: self.gate_tid2eid.is_some(),
            },
        )
    }
}

/// A route to an expert of this rank.
#[derive(Clone, Copy, Debug, PartialEq, Eq, Structural)]
pub struct LocalRoute {
    pub token_idx: usize,
    pub local_expert_idx: usize,
}

/// The run of one route: one row of hidden states through one expert.
pub open spec fn route_run(
    experts: Seq<DeepseekV4Expert>,
    route: LocalRoute,
    hidden: HiddenShape,
) -> Result<ExpertRun, MoeError> {
    if route.token_idx >= hidden.seq_len {
        Err(MoeError::RouteToken)
    } else if route.local_expert_idx >= experts.len() {
        Err(MoeError::RouteExpert)
    } else {
        expert_run(
            experts[route.local_expert_idx as int],
            HiddenShape { hidden_dim: hidden.hidden_dim, seq_len: 1 },
        )
    }
}

/// The runs of the first `n` routes; the first that fails is the error.
pub open spec fn route_runs(
    experts: Seq<DeepseekV4Expert>,
    routes: Seq<LocalRoute>,
    hidden: HiddenShape,
    n: int,
) -> Result<Seq<ExpertRun>, MoeError>
    decreases n,
{
    if n <= 0 {
        Ok(Seq::empty())
    } else {
        match route_runs(experts, routes, hidden, n - 1) {
            Err(e) => Err(e),
            Ok(runs) => match route_run(experts, routes[n - 1], hidden) {
                Err(e) => Err(e),
                Ok(run) => Ok(runs.push(run)),
            },
        }
    }
}

proof fn lemma_route_failure_stays(
    experts: Seq<DeepseekV4Expert>,
    routes: Seq<LocalRoute>,
    hidden: HiddenShape,
    m: int,
    n: int,
)
    requires
        m <= n,
        route_runs(experts, routes, hidden, m) is Err,
    ensures
        route_runs(experts, routes, hidden, n) == route_runs(experts, routes, hidden, m),
    decreases n - m,
{
    if m < n {
        lemma_route_failure_stays(experts, routes, hidden, m, n - 1);
    }
}

/// Why the router's logits cannot be computed, if they cannot.
pub open spec fn logits_fault(
    block: DeepseekV4MoeBlock,
    n_routed_experts: usize,
    hidden: HiddenShape,
    tokens: usize,
) -> Option<MoeError> {
    if tokens != hidden.seq_len {
        Some(MoeError::TokenCount)
    } else if block.gate_weight.rows != n_routed_experts || block.gate_weight.cols
        != hidden.hidden_dim {
        Some(MoeError::GateShape)
    } else if block.gate_bias matches Some(len) && len != n_routed_experts {
        Some(MoeError::GateBias)
    } else {
        None
    }
}

/// Entries of a token in the table of experts, as `start` and `end`.
pub open spec fn table_entries(
    table: Option<usize>,
    vocab_size: usize,
    experts_per_tok: usize,
    token_id: u32,
) -> Result<(usize, usize), MoeError> {
    match table {
        None => Err(MoeError::MissingHashTable),
        Some(len) => if token_id >= vocab_size {
            Err(MoeError::TokenId)
        } else if token_id * experts_per_tok + experts_per_tok > len {
            Err(MoeError::TableTooShort)
        } else {
            Ok(
                (
                    (token_id * experts_per_tok) as usize,
                    (token_id * experts_per_tok + experts_per_tok) as usize,
                ),
            )
        },
    }
}

/// An entry of the table names an expert.
pub open spec fn names_expert(entry: i64) -> bool {
    0 <= entry <= usize::MAX
}

/// Experts that the entries of a token name.
pub fn hash_experts(entries: &[i64]) -> (r: Result<Vec<usize>, MoeError>)
    ensures
        match r {
            Ok(experts) => {
                &&& experts@.len() == entries@.len()
                &&& forall|i: int| 0 <= i < entries@.len() ==> names_expert(#[trigger] entries@[i])
                &&& forall|i: int| 0 <= i < entries@.len() ==> #[trigger] experts@[i] == entries@[i]
            },
            Err(e) => e == MoeError::ExpertId && exists|i: int|
                0 <= i < entries@.len() && !names_expert(#[trigger] entries@[i]),
        },
{
    let mut experts: Vec<usize> = Vec::new();
    let mut i: usize = 0;
    while i < entries.len()
        invariant
            i <= entries@.len(),
            experts@.len() == i,
            forall|k: int| 0 <= k < i ==> names_expert(#[trigger] entries@[k]),
            forall|k: int| 0 <= k < i ==> #[trigger] experts@[k] == entries@[k],
        decreases entries@.len() - i,
    {
        let entry: i64 = entries[i];
        if entry < 0 {
            assert(!names_expert(entries@[i as int]));
            return Err(MoeError::ExpertId);
        }
        let id: u64 = entry as u64;
        if id > usize::MAX as u64 {
            assert(!names_expert(entries@[i as int]));
            return Err(MoeError::ExpertId);
        }
        assert(id == entries@[i as int]);
        experts.push(id as usize);
        i = i + 1;
    }
    Ok(experts)
}

impl DeepseekV4MoeBlock {
    /// Plans the experts of this rank route by route; `routes` are already
    /// those of this rank.
    pub fn forward_local_routed_only(
        &self,
        routes: &Vec<LocalRoute>,
        experts_per_rank: usize,
        hidden: HiddenShape,
    ) -> (r: Result<Vec<ExpertRun>, MoeError>)
        ensures
            if experts_per_rank != self.experts@.len() {
                r == Err::<Vec<ExpertRun>, MoeError>(MoeError::ExpertCount)
            } else {
                match route_runs(self.experts@, routes@, hidden, routes@.len() as int) {
                    Err(e) => r == Err::<Vec<ExpertRun>, MoeError>(e),
                    Ok(runs) => r matches Ok(list) && list@ == runs,
                }
            },
    {
        if experts_per_rank != self.experts.len() {
            return Err(MoeError::ExpertCount);
        }
        let mut runs: Vec<ExpertRun> = Vec::new();
        let mut i: usize = 0;
        proof {
            assert(runs@ =~= Seq::<ExpertRun>::empty());
        }
        while i < routes.len()
            invariant
                i <= routes@.len(),
                experts_per_rank == self.experts@.len(),
                route_runs(self.experts@, routes@, hidden, i as int) == Ok::<
                    Seq<ExpertRun>,
                    MoeError,
                >(runs@),
            decreases routes@.len() - i,
        {
            let route: LocalRoute = routes[i];
            let run: Result<ExpertRun, MoeError> = if route.token_idx >= hidden.seq_len {
                Err(MoeError::RouteToken)
            } else if route.local_expert_idx >= self.experts.len() {
                Err(MoeError::RouteExpert)
            } else {
                self.experts[route.local_expert_idx].forward(
                    HiddenShape { hidden_dim: hidden.hidden_dim, seq_len: 1 },
                )
            };
            match run {
                Ok(run) => {
                    runs.push(run);
                },
                Err(e) => {
                    proof {
                        lemma_route_failure_stays(
                            self.experts@,
                            routes@,
                            hidden,
                            i + 1,
                            routes@.len() as int,
                        );
                    }
                    return Err(e);
                },
            }
            i = i + 1;
        }
        Ok(runs)
    }

    /// Checks that the router's logits can be computed.
    pub fn check_route_logits(
        &self,
        n_routed_experts: usize,
        hidden: HiddenShape,
        tokens: usize,
    ) -> (r: Result<(), MoeError>)
        ensures
            r == match logits_fault(*self, n_routed_experts, hidden, tokens) {
                Some(e) => Err::<(), MoeError>(e),
                None => Ok(()),
            },
    {
        if tokens != hidden.seq_len {
            return Err(MoeError::TokenCount);
        }
        if self.gate_weight.rows != n_routed_experts || self.gate_weight.cols
            != hidden.hidden_dim {
            return Err(MoeError::GateShape);
        }
        match self.gate_bias {
            Some(len) => {
                if len != n_routed_experts {
                    return Err(MoeError::GateBias);
                }
            },
            None => {},
        }
        Ok(())
    }

    /// Finds the entries of a token in the table of experts.
    pub fn hash_experts_for_token(
        &self,
        vocab_size: usize,
        experts_per_tok: usize,
        token_id: u32,
    ) -> (r: Result<(usize, usize), MoeError>)
        requires
            self.gate_tid2eid is Some && token_id < vocab_size ==> token_id * experts_per_tok
                + experts_per_tok <= usize::MAX,
        ensures
            r == table_entries(self.gate_tid2eid, vocab_size, experts_per_tok, token_id),
    {
        let len: usize = match self.gate_tid2eid {
            Some(len) => len,
            None => {
                return Err(MoeError::MissingHashTable);
            },
        };
        if token_id as usize >= vocab_size {
            return Err(MoeError::TokenId);
        }
        proof {
            assert(0 <= token_id * experts_per_tok) by (nonlinear_arith);
        }
        let start: usize = token_id as usize * experts_per_tok;
        let end: usize = start + experts_per_tok;
        if end > len {
            return Err(MoeError::TableTooShort);
        }
        Ok((start, end))
    }
}

/// The routes that the kernel writes fill the slots exactly: every token of the step
/// is routed to as many experts as configured, among all routed experts. The bias and
/// the table go to the kernel where the block has them.
pub proof fn law_routes_fill_their_slots(
    block: DeepseekV4MoeBlock,
    config: RouterConfig<'_>,
    ep: ExpertGroup,
    hidden: HiddenShape,
    tokens: usize,
)
    requires
        route_plan(block, config, ep, hidden, tokens) is Ok,
        hidden.seq_len * config.num_experts_per_tok <= usize::MAX,
        hidden.seq_len <= i32::MAX && config.num_experts_per_tok <= i32::MAX,
        config.n_routed_experts <= i32::MAX,
    ensures
        ({
            let p = route_plan(block, config, ep, hidden, tokens)->Ok_0;
            &&& p.seq_len * p.num_experts_per_tok == p.route_slots
            &&& p.seq_len == tokens == hidden.seq_len
            &&& p.num_experts_per_tok == config.num_experts_per_tok
            &&& p.n_routed_experts == config.n_routed_experts == block.gate_weight.rows
            &&& p.routing_kind == 0 <==> config.routing_kind == MoeRoutingKind::Hash
            &&& p.routing_kind == 1 <==> config.routing_kind == MoeRoutingKind::LearnedBias
            &&& p.has_bias <==> block.gate_bias is Some
            &&& p.has_table <==> block.gate_tid2eid is Some
            &&& p.routing_kind == 0 ==> p.has_table
            &&& p.routing_kind == 1 ==> p.has_bias
            &&& hidden.hidden_dim == block.gate_weight.cols
            &&& block.experts@.len() == ep.experts_per_rank
        }),
{
    assert(0 <= hidden.seq_len * config.num_experts_per_tok) by (nonlinear_arith);
}

/// A router runs exactly where tokens, gate and experts fit, its scoring is known,
/// and the block has what its kind of routing needs.
pub proof fn law_routers_run_where_they_fit(
    block: DeepseekV4MoeBlock,
    config: RouterConfig<'_>,
    ep: ExpertGroup,
    hidden: HiddenShape,
    tokens: usize,
)
    ensures
        route_plan(block, config, ep, hidden, tokens) is Ok <==> {
            &&& tokens == hidden.seq_len
            &&& block.gate_weight.rows == config.n_routed_experts
            &&& block.gate_weight.cols == hidden.hidden_dim
            &&& ep.experts_per_rank == block.experts@.len()
            &&& config.scoring_func@ == "softmax"@ || config.scoring_func@ == "sigmoid"@
                || config.scoring_func@ == "sqrtsoftplus"@
            &&& match config.routing_kind {
                MoeRoutingKind::Hash => block.gate_tid2eid is Some,
                MoeRoutingKind::LearnedBias => block.gate_bias is Some,
            }
        },
        route_plan(block, config, ep, hidden, tokens) matches Ok(p) ==> {
            &&& p.scoring_kind == 0 <==> config.scoring_func@ == "softmax"@
            &&& p.scoring_kind == 1 <==> config.scoring_func@ == "sigmoid"@
            &&& p.scoring_kind == 2 <==> config.scoring_func@ == "sqrtsoftplus"@
        },
{
    reveal_strlit("softmax");
    reveal_strlit("sigmoid");
    reveal_strlit("sqrtsoftplus");
    assert("softmax"@[1] == 'o' && "sigmoid"@[1] == 'i');
    assert("softmax"@.len() == 7 && "sqrtsoftplus"@.len() == 12 && "sigmoid"@.len() == 7);
}

/// An expert takes rows of the width of its first and third matrix and gives as many
/// rows of the height of its second, exactly where the three fit together.
pub proof fn law_experts_run_where_they_fit(e: DeepseekV4Expert, hidden: HiddenShape)
    ensures
        expert_run(e, hidden) is Ok <==> {
            &&& e.w1.cols == hidden.hidden_dim
            &&& e.w3.cols == hidden.hidden_dim
            &&& e.w1.rows == e.w3.rows
            &&& e.w2.cols == e.w1.rows
        },
        expert_run(e, hidden) matches Ok(run) ==> {
            &&& run.out.hidden_dim == e.w2.rows
            &&& run.out.seq_len == hidden.seq_len
            &&& run.gate.hidden_dim == e.w1.rows && run.gate.seq_len == hidden.seq_len
            &&& run.up.hidden_dim == e.w3.rows && run.up.seq_len == hidden.seq_len
            &&& run.act.hidden_dim == e.w2.cols && run.act.seq_len == hidden.seq_len
            &&& run.phase == if hidden.seq_len > 1 {
                LinearDispatchPhase::Prefill
            } else {
                LinearDispatchPhase::Decode
            }
        },
{
}

/// An expert runs in kept buffers as in new ones: over all rows of the input, with
/// states of the same shapes.
pub proof fn law_kept_experts_run_like_new_ones(
    e: DeepseekV4Expert,
    s: DeepseekExpertRuntimeScratch,
)
    requires
        scratch_fault(e, s) is None,
        s.gate.hidden_dim == s.up.hidden_dim == s.act.hidden_dim == s.intermediate_dim,
        s.out.hidden_dim == s.output_dim,
    ensures
        expert_run(e, s.input) is Ok,
        ({
            let run = expert_run(e, s.input)->Ok_0;
            let kept = rows_of_input(s);
            &&& kept.gate == run.gate
            &&& kept.up == run.up
            &&& kept.act == run.act
            &&& kept.out == run.out
            &&& kept.input == s.input
            &&& s.input.seq_len <= s.capacity_tokens
        }),
{
}

/// Every route runs one row through the expert that it names, in the order of the
/// routes, where every route names a token of the step and an expert of the rank.
pub proof fn law_every_route_runs_its_expert(
    experts: Seq<DeepseekV4Expert>,
    routes: Seq<LocalRoute>,
    hidden: HiddenShape,
    n: int,
    i: int,
)
    requires
        0 <= i < n <= routes.len(),
        route_runs(experts, routes, hidden, n) is Ok,
    ensures
        ({
            let runs = route_runs(experts, routes, hidden, n)->Ok_0;
            &&& runs.len() == n
            &&& routes[i].token_idx < hidden.seq_len
            &&& routes[i].local_expert_idx < experts.len()
            &&& runs[i].out.seq_len == 1
            &&& runs[i].out.hidden_dim == experts[routes[i].local_expert_idx as int].w2.rows
            &&& runs[i].gate.hidden_dim == experts[routes[i].local_expert_idx as int].w1.rows
            &&& experts[routes[i].local_expert_idx as int].w1.cols == hidden.hidden_dim
        }),
    decreases n,
{
    lemma_run_count(experts, routes, hidden, n);
    if i < n - 1 {
        law_every_route_runs_its_expert(experts, routes, hidden, n - 1, i);
    }
}

proof fn lemma_run_count(
    experts: Seq<DeepseekV4Expert>,
    routes: Seq<LocalRoute>,
    hidden: HiddenShape,
    n: int,
)
    requires
        0 <= n,
        route_runs(experts, routes, hidden, n) is Ok,
    ensures
        route_runs(experts, routes, hidden, n)->Ok_0.len() == n,
    decreases n,
{
    if n > 0 {
        lemma_run_count(experts, routes, hidden, n - 1);
    }
}

/// The table holds as many entries for a token as experts are chosen for it, and the
/// entries of consecutive tokens follow each other.
pub proof fn law_tokens_own_their_entries(
    len: usize,
    vocab_size: usize,
    experts_per_tok: usize,
    token_id: u32,
    later: u32,
)
    requires
        table_entries(Some(len), vocab_size, experts_per_tok, token_id) is Ok,
        table_entries(Some(len), vocab_size, experts_per_tok, later) is Ok,
        token_id < later,
    ensures
        ({
            let a = table_entries(Some(len), vocab_size, experts_per_tok, token_id)->Ok_0;
            let b = table_entries(Some(len), vocab_size, experts_per_tok, later)->Ok_0;
            &&& a.1 - a.0 == experts_per_tok == b.1 - b.0
            &&& a.1 <= b.0
            &&& token_id == 0 ==> a.0 == 0
            &&& later == token_id + 1 ==> a.1 == b.0
            &&& b.1 <= len
            &&& later < vocab_size
        }),
{
    let (t, u, k) = (token_id as int, later as int, experts_per_tok as int);
    assert(0 <= t * k && t * k + k <= u * k && 0 * k == 0) by (nonlinear_arith)
        requires
            0 <= t < u,
            k >= 0,
    ;
    assert(u == t + 1 ==> t * k + k == u * k) by (nonlinear_arith);
}

/// All members of a group are stored in one format and have one shape: that of the
/// first active expert.
pub proof fn law_groups_have_one_shape(
    experts: Seq<DeepseekV4Expert>,
    active: Seq<usize>,
    which: ExpertMatrix,
    i: int,
)
    requires
        grouped_weights(experts, active, which) is Ok,
        0 <= i < active.len(),
    ensures
        ({
            let group = grouped_weights(experts, active, which)->Ok_0;
            let e = experts[active[i] as int];
            let weight = match which {
                ExpertMatrix::W1 => e.w1,
                ExpertMatrix::W2 => e.w2,
                ExpertMatrix::W3 => e.w3,
            };
            &&& active[i] < experts.len()
            &&& weight.rows == group.rows
            &&& weight.cols == group.cols
            &&& weight.scale_rows == group.scale_rows > 0
            &&& weight.scale_cols == group.scale_cols > 0
            &&& weight.format == match group.format {
                BlockFormat::Fp8 => WeightFormat::Dsv4Fp8BlockScaled,
                BlockFormat::Fp4 => WeightFormat::Dsv4Fp4BlockScaled,
            }
            &&& weight.has_values && weight.has_scales
        }),
{
    law_group_members_agree(experts, active, which, i);
}

/// The router's logits are computed exactly where there is a token per row, its
/// weights have a row per expert and a column per hidden value, and a bias, if there
/// is one, has a value per expert.
pub proof fn law_logits_are_computed_where_routers_fit(
    block: DeepseekV4MoeBlock,
    n_routed_experts: usize,
    hidden: HiddenShape,
    tokens: usize,
)
    ensures
        logits_fault(block, n_routed_experts, hidden, tokens) is None <==> {
            &&& tokens == hidden.seq_len
            &&& block.gate_weight.rows == n_routed_experts
            &&& block.gate_weight.cols == hidden.hidden_dim
            &&& block.gate_bias is None || block.gate_bias == Some(n_routed_experts)
        },
        logits_fault(block, n_routed_experts, hidden, tokens) == Some(MoeError::TokenCount)
            <==> tokens != hidden.seq_len,
        tokens == hidden.seq_len && block.gate_weight.rows == n_routed_experts
            && block.gate_weight.cols == hidden.hidden_dim && logits_fault(
            block,
            n_routed_experts,
            hidden,
            tokens,
        ) is Some ==> logits_fault(block, n_routed_experts, hidden, tokens) == Some(
            MoeError::GateBias,
        ),
{
}

} // verus!
