//! Runtime configuration.

use vstd::prelude::*;

use crate::model::deepseek::load::Span;

verus! {

/// Place of a rank in tensor parallelism.
#[derive(Clone, Copy, Debug, PartialEq, Eq, Structural)]
pub struct TpConfig {
    pub rank: usize,
    pub world_size: usize,
}

impl TpConfig {
    /// One rank on its own.
    pub fn single() -> (tp: TpConfig)
        ensures
            tp == (TpConfig { rank: 0, world_size: 1 }),
    {
        TpConfig { rank: 0, world_size: 1 }
    }

    /// There is one rank.
    pub fn is_single(&self) -> (single: bool)
        ensures
            single == (self.world_size == 1),
    {
        self.world_size == 1
    }
}

/// Place of a rank in expert parallelism.
#[derive(Clone, Copy, Debug, PartialEq, Eq, Structural)]
pub struct ExpertGroup {
    pub rank: usize,
    pub world_size: usize,
    /// Experts of all ranks.
    pub num_experts: usize,
    pub experts_per_rank: usize,
    /// Index of the first expert of this rank.
    pub local_expert_start: usize,
}

impl ExpertGroup {
    /// The experts of this rank.
    pub fn local_expert_range(&self) -> (range: Span)
        requires
            self.local_expert_start + self.experts_per_rank <= usize::MAX,
        ensures
            range.start == self.local_expert_start,
            range.end == self.local_expert_start + self.experts_per_rank,
    {
        Span {
            start: self.local_expert_start,
            end: self.local_expert_start + self.experts_per_rank,
        }
    }
}

/// Which keys a layer attends to.
#[derive(Clone, Copy, Debug, PartialEq, Eq, Structural)]
pub enum AttentionMode {
    /// The last tokens.
    SlidingWindow,
    /// The last tokens and selected blocks.
    CompressedSparse,
    /// The last tokens and all blocks.
    HybridCompressed,
}

/// How many layers attend in each way.
#[derive(Clone, Copy, Debug, PartialEq, Eq, Structural)]
pub struct AttentionSummary {
    pub sliding_window_layers: usize,
    pub csa_layers: usize,
    pub hca_layers: usize,
}

/// What planning reads of the architecture.
pub struct DeepseekSpec {
    pub vocab_size: usize,
    pub hidden_size: usize,
    pub num_hidden_layers: usize,
    pub num_attention_heads: usize,
    pub num_key_value_heads: usize,
    pub head_dim: usize,
    pub o_groups: usize,
    pub qk_rope_head_dim: usize,
    pub n_routed_experts: usize,
    pub num_experts_per_tok: usize,
    pub index_n_heads: usize,
    pub index_head_dim: usize,
    pub index_topk: usize,
    pub sliding_window: usize,
    /// Tokens per compressed row of each layer; zero for none.
    pub compress_ratios: Vec<usize>,
    /// How each layer attends.
    pub attention_modes: Vec<AttentionMode>,
    pub attention_summary: AttentionSummary,
    pub hc_mult: usize,
    pub hc_sinkhorn_iters: usize,
    pub max_position_embeddings: usize,
    pub original_max_position_embeddings: usize,
    pub eos_token_id: Option<u32>,
}

/// The architecture with the knobs of the server.
pub struct DeepseekRuntimeConfig {
    pub spec: DeepseekSpec,
    /// Graphs of the decode step are captured and replayed.
    pub enable_cuda_graph: bool,
    pub tp: TpConfig,
    pub ep: ExpertGroup,
}

impl DeepseekRuntimeConfig {
    /// The architecture on one rank, which holds all experts.
    pub fn from_spec(spec: DeepseekSpec) -> (config: Self)
        requires
            spec.n_routed_experts > 0,
        ensures
            config.spec == spec,
            config.enable_cuda_graph,
            config.tp == (TpConfig { rank: 0, world_size: 1 }),
            config.ep == (ExpertGroup {
                rank: 0,
                world_size: 1,
                num_experts: spec.n_routed_experts,
                experts_per_rank: spec.n_routed_experts,
                local_expert_start: 0,
            }),
    {
        let experts: usize = spec.n_routed_experts;
        DeepseekRuntimeConfig {
            spec,
            enable_cuda_graph: true,
            tp: TpConfig::single(),
            ep: ExpertGroup {
                rank: 0,
                world_size: 1,
                num_experts: experts,
                experts_per_rank: experts,
                local_expert_start: 0,
            },
        }
    }
}

} // verus!
