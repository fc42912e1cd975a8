//! What the loaders of whole layers promise: every part comes from the tensor of its
//! own name, nothing that can be loaded is refused, and the ranks share the experts
//! out among them.

use safetensors::SafeTensors;
use vstd::prelude::*;

use crate::model::deepseek::config::{ExpertGroup, TpConfig};
use crate::model::deepseek::load::{tp_shard, TpLoadContext, TpShardAxis};
use crate::model::deepseek::loaders::{
    are_cut, attention_fault, compressor_fault, expert_fault, experts_fault, group_cuts,
    hyper_fault, indexer_fault, is_attention, is_layer, is_matrix, is_moe, is_table, is_vector,
    layer_fault, layers_fault, matrix_fault, moe_fault, rank_experts, rank_shard, table_fault,
    vector_fault, AttentionNames, AttentionShards, CompressorNames, ExpertNames, HostAttention,
    HostCompressor, HostExpert, HostHyperConnection, HostLayer, HostMoeBlock, HyperConnectionNames,
    IndexerNames, LayerNames, MoeNames,
};
use crate::model::deepseek::tensor::{found_tensor, listed_tensor, TensorDtype, WeightMap};

verus! {

/// A hyper-connection comes from the tensors of its names.
pub open spec fn comes_from_hyper(
    h: HostHyperConnection,
    shards: Seq<SafeTensors<'_>>,
    map: WeightMap,
    n: HyperConnectionNames,
) -> bool {
    &&& is_vector(h.base, shards, map, n.base@)
    &&& is_matrix(h.mix_fn, shards, map, n.mix_fn@, tp_shard(None))
    &&& is_vector(h.scale, shards, map, n.scale@)
}

/// A compressor comes from the tensors of its names.
pub open spec fn comes_from_compressor(
    c: HostCompressor,
    shards: Seq<SafeTensors<'_>>,
    map: WeightMap,
    n: CompressorNames,
) -> bool {
    &&& is_matrix(c.wkv, shards, map, n.wkv@, tp_shard(None))
    &&& is_matrix(c.wgate, shards, map, n.wgate@, tp_shard(None))
    &&& is_matrix(c.ape, shards, map, n.ape@, tp_shard(None))
    &&& is_vector(c.norm, shards, map, n.norm@)
}

/// An expert comes from the tensors of its names.
pub open spec fn comes_from_expert(
    x: HostExpert,
    shards: Seq<SafeTensors<'_>>,
    map: WeightMap,
    n: ExpertNames,
) -> bool {
    &&& is_matrix(x.w1, shards, map, n.w1@, tp_shard(None))
    &&& is_matrix(x.w2, shards, map, n.w2@, tp_shard(None))
    &&& is_matrix(x.w3, shards, map, n.w3@, tp_shard(None))
}

/// The shard of a matrix that a rank holds: the part of the context where there is
/// one, and the whole otherwise.
pub proof fn law_ranks_hold_their_part(tp: TpLoadContext)
    ensures
        rank_shard(Some(tp)) == tp_shard(Some(&tp)),
        rank_shard(None) == tp_shard(None),
{
}

/// Attention comes from the tensors of its names; a rank holds its part of the
/// second query projection and of both output projections, and the whole of the
/// rest. A compressor and an indexer are there exactly where they are named.
pub proof fn law_attention_comes_from_its_names(
    a: HostAttention,
    shards: Seq<SafeTensors<'_>>,
    map: WeightMap,
    n: AttentionNames,
    tp: AttentionShards,
)
    requires
        is_attention(a, shards, map, n, tp),
    ensures
        is_matrix(a.wq_a, shards, map, n.wq_a@, tp_shard(None)),
        is_vector(a.q_norm, shards, map, n.q_norm@),
        is_matrix(a.wq_b, shards, map, n.wq_b@, rank_shard(tp.wq_b)),
        is_matrix(a.wkv, shards, map, n.wkv@, tp_shard(None)),
        is_vector(a.kv_norm, shards, map, n.kv_norm@),
        is_matrix(a.wo_a, shards, map, n.wo_a@, rank_shard(tp.wo_a)),
        is_matrix(a.wo_b, shards, map, n.wo_b@, rank_shard(tp.wo_b)),
        is_vector(a.attn_sink, shards, map, n.attn_sink@),
        a.compressor is Some <==> n.compressor is Some,
        a.compressor is Some ==> comes_from_compressor(
            a.compressor->Some_0,
            shards,
            map,
            n.compressor->Some_0,
        ),
        a.indexer is Some <==> n.indexer is Some,
        a.indexer is Some ==> {
            let x = a.indexer->Some_0;
            let names = n.indexer->Some_0;
            &&& is_matrix(x.wq_b, shards, map, names.wq_b@, tp_shard(None))
            &&& is_matrix(x.weights_proj, shards, map, names.weights_proj@, tp_shard(None))
            &&& comes_from_compressor(x.compressor, shards, map, names.compressor)
        },
{
}

/// The experts of a rank come from the tensors of their names, expert by expert from
/// the rank's first one on, and the router, the table of tokens and the shared
/// expert from theirs.
pub proof fn law_experts_come_from_their_names(
    b: HostMoeBlock,
    shards: Seq<SafeTensors<'_>>,
    map: WeightMap,
    n: MoeNames,
    ep: ExpertGroup,
)
    requires
        is_moe(b, shards, map, n, ep),
    ensures
        b.experts@.len() == ep.experts_per_rank,
        ep.local_expert_start + ep.experts_per_rank <= n.experts@.len(),
        forall|i: int|
            0 <= i < b.experts@.len() ==> comes_from_expert(
                #[trigger] b.experts@[i],
                shards,
                map,
                n.experts@[ep.local_expert_start + i],
            ),
        is_matrix(b.gate_weight, shards, map, n.gate_weight@, tp_shard(None)),
        b.gate_bias is Some <==> n.gate_bias is Some,
        b.gate_bias is Some ==> is_vector(
            b.gate_bias->Some_0,
            shards,
            map,
            n.gate_bias->Some_0@,
        ),
        b.gate_tid2eid is Some <==> n.gate_tid2eid is Some,
        b.gate_tid2eid is Some ==> is_table(
            b.gate_tid2eid->Some_0,
            shards,
            map,
            n.gate_tid2eid->Some_0@,
        ),
        b.shared_experts is Some <==> n.shared_experts is Some,
        b.shared_experts is Some ==> comes_from_expert(
            b.shared_experts->Some_0,
            shards,
            map,
            n.shared_experts->Some_0,
        ),
{
}

/// Every part of a layer comes from the names of that part: the norms, the two
/// hyper-connections, attention with its shards, and the experts of the rank.
pub proof fn law_layers_come_from_their_names(
    l: HostLayer,
    shards: Seq<SafeTensors<'_>>,
    map: WeightMap,
    n: LayerNames,
    ep: ExpertGroup,
)
    requires
        is_layer(l, shards, map, n, ep),
    ensures
        is_vector(l.attn_norm, shards, map, n.attn_norm@),
        comes_from_hyper(l.hc_attn, shards, map, n.hc_attn),
        is_attention(l.attention, shards, map, n.attn, n.attn_shards),
        is_vector(l.ffn_norm, shards, map, n.ffn_norm@),
        comes_from_hyper(l.hc_ffn, shards, map, n.hc_ffn),
        is_moe(l.ffn, shards, map, n.ffn, ep),
{
    reveal(is_layer);
}

/// Attention is loaded exactly where each of its tensors is.
pub proof fn law_attention_loads_where_its_tensors_do(
    shards: Seq<SafeTensors<'_>>,
    map: WeightMap,
    n: AttentionNames,
    tp: AttentionShards,
)
    ensures
        attention_fault(shards, map, n, tp) is None <==> {
            &&& matrix_fault(shards, map, n.wq_a@, tp_shard(None)) is None
            &&& vector_fault(shards, map, n.q_norm@) is None
            &&& matrix_fault(shards, map, n.wq_b@, rank_shard(tp.wq_b)) is None
            &&& matrix_fault(shards, map, n.wkv@, tp_shard(None)) is None
            &&& vector_fault(shards, map, n.kv_norm@) is None
            &&& matrix_fault(shards, map, n.wo_a@, rank_shard(tp.wo_a)) is None
            &&& matrix_fault(shards, map, n.wo_b@, rank_shard(tp.wo_b)) is None
            &&& vector_fault(shards, map, n.attn_sink@) is None
            &&& n.compressor matches Some(c) ==> compressor_fault(shards, map, c) is None
            &&& n.indexer matches Some(x) ==> indexer_fault(shards, map, x) is None
        },
{
}

/// A hyper-connection, a compressor, an indexer and an expert are loaded exactly
/// where each of their tensors is.
pub proof fn law_parts_load_where_their_tensors_do(
    shards: Seq<SafeTensors<'_>>,
    map: WeightMap,
    h: HyperConnectionNames,
    c: CompressorNames,
    x: IndexerNames,
    e: ExpertNames,
)
    ensures
        hyper_fault(shards, map, h) is None <==> {
            &&& vector_fault(shards, map, h.base@) is None
            &&& matrix_fault(shards, map, h.mix_fn@, tp_shard(None)) is None
            &&& vector_fault(shards, map, h.scale@) is None
        },
        compressor_fault(shards, map, c) is None <==> {
            &&& matrix_fault(shards, map, c.wkv@, tp_shard(None)) is None
            &&& matrix_fault(shards, map, c.wgate@, tp_shard(None)) is None
            &&& matrix_fault(shards, map, c.ape@, tp_shard(None)) is None
            &&& vector_fault(shards, map, c.norm@) is None
        },
        indexer_fault(shards, map, x) is None <==> {
            &&& matrix_fault(shards, map, x.wq_b@, tp_shard(None)) is None
            &&& matrix_fault(shards, map, x.weights_proj@, tp_shard(None)) is None
            &&& compressor_fault(shards, map, x.compressor) is None
        },
        expert_fault(shards, map, e) is None <==> {
            &&& matrix_fault(shards, map, e.w1@, tp_shard(None)) is None
            &&& matrix_fault(shards, map, e.w2@, tp_shard(None)) is None
            &&& matrix_fault(shards, map, e.w3@, tp_shard(None)) is None
        },
{
}

proof fn lemma_experts_load(
    shards: Seq<SafeTensors<'_>>,
    map: WeightMap,
    names: Seq<ExpertNames>,
    n: int,
)
    requires
        0 <= n <= names.len(),
    ensures
        experts_fault(shards, map, names, n) is None <==> (forall|i: int|
            0 <= i < n ==> expert_fault(shards, map, #[trigger] names[i]) is None),
    decreases n,
{
    if n > 0 {
        lemma_experts_load(shards, map, names, n - 1);
        assert(expert_fault(shards, map, names[n - 1]) is None || expert_fault(
            shards,
            map,
            names[n - 1],
        ) is Some);
    }
}

/// The experts of a rank are loaded exactly where the list reaches to its last one
/// and each of their tensors is loaded.
pub proof fn law_experts_load_where_their_tensors_do(
    shards: Seq<SafeTensors<'_>>,
    map: WeightMap,
    n: MoeNames,
    ep: ExpertGroup,
)
    ensures
        moe_fault(shards, map, n, ep) is None <==> {
            &&& ep.local_expert_start + ep.experts_per_rank <= n.experts@.len()
            &&& forall|i: int|
                ep.local_expert_start <= i < ep.local_expert_start + ep.experts_per_rank
                    ==> expert_fault(shards, map, #[trigger] n.experts@[i]) is None
            &&& matrix_fault(shards, map, n.gate_weight@, tp_shard(None)) is None
            &&& n.gate_bias matches Some(name) ==> vector_fault(shards, map, name@) is None
            &&& n.gate_tid2eid matches Some(name) ==> table_fault(shards, map, name@) is None
            &&& n.shared_experts matches Some(x) ==> expert_fault(shards, map, x) is None
        },
{
    if let Ok(list) = rank_experts(n.experts@, ep) {
        lemma_experts_load(shards, map, list, list.len() as int);
        let start = ep.local_expert_start as int;
        assert forall|i: int| start <= i < start + ep.experts_per_rank implies list[i - start]
            == #[trigger] n.experts@[i] by {}
        assert forall|k: int| 0 <= k < list.len() implies #[trigger] list[k] == n.experts@[start
            + k] by {}
        if experts_fault(shards, map, list, list.len() as int) is None {
            assert forall|i: int| start <= i < start + ep.experts_per_rank implies expert_fault(
                shards,
                map,
                #[trigger] n.experts@[i],
            ) is None by {
                assert(list[i - start] == n.experts@[i]);
            }
        }
    }
}

/// A layer is loaded exactly where each of its parts is.
pub proof fn law_layers_load_where_their_parts_do(
    shards: Seq<SafeTensors<'_>>,
    map: WeightMap,
    n: LayerNames,
    ep: ExpertGroup,
)
    ensures
        layer_fault(shards, map, n, ep) is None <==> {
            &&& vector_fault(shards, map, n.attn_norm@) is None
            &&& hyper_fault(shards, map, n.hc_attn) is None
            &&& attention_fault(shards, map, n.attn, n.attn_shards) is None
            &&& vector_fault(shards, map, n.ffn_norm@) is None
            &&& hyper_fault(shards, map, n.hc_ffn) is None
            &&& moe_fault(shards, map, n.ffn, ep) is None
        },
{
    reveal(layer_fault);
}

/// All layers are loaded exactly where each of them is.
pub proof fn law_all_layers_load_where_each_does(
    shards: Seq<SafeTensors<'_>>,
    map: WeightMap,
    names: Seq<LayerNames>,
    ep: ExpertGroup,
    n: int,
)
    requires
        0 <= n <= names.len(),
    ensures
        layers_fault(shards, map, names, ep, n) is None <==> (forall|i: int|
            0 <= i < n ==> layer_fault(shards, map, #[trigger] names[i], ep) is None),
    decreases n,
{
    if n > 0 {
        law_all_layers_load_where_each_does(shards, map, names, ep, n - 1);
        assert(layer_fault(shards, map, names[n - 1], ep) is None || layer_fault(
            shards,
            map,
            names[n - 1],
            ep,
        ) is Some);
    }
}

/// Ranks that begin where the one before ends hold every expert of the list exactly
/// once: expert `e` is the `e % k`-th of rank `e / k`, where a rank holds `k`.
pub proof fn law_ranks_share_the_experts_out(
    names: Seq<ExpertNames>,
    a: ExpertGroup,
    b: ExpertGroup,
    e: int,
)
    requires
        a.experts_per_rank == b.experts_per_rank > 0,
        a.local_expert_start == a.rank * a.experts_per_rank,
        b.local_expert_start == b.rank * b.experts_per_rank,
        rank_experts(names, a) is Ok,
        0 <= e < names.len(),
    ensures
        e / a.experts_per_rank as int == a.rank ==> rank_experts(names, a)->Ok_0[e
            % a.experts_per_rank as int] == names[e],
        rank_experts(names, a)->Ok_0.len() == a.experts_per_rank,
        a.rank != b.rank && rank_experts(names, b) is Ok ==> a.local_expert_start
            + a.experts_per_rank <= b.local_expert_start || b.local_expert_start
            + b.experts_per_rank <= a.local_expert_start,
{
    let k = a.experts_per_rank as int;
    vstd::arithmetic::div_mod::lemma_fundamental_div_mod(e, k);
    let r = a.rank as int;
    let s = b.rank as int;
    assert(k * r == r * k) by (nonlinear_arith);
    assert(r + 1 <= s ==> r * k + k <= s * k) by (nonlinear_arith)
        requires
            k > 0,
    ;
    assert(s + 1 <= r ==> s * k + k <= r * k) by (nonlinear_arith)
        requires
            k > 0,
    ;
}

/// A single rank holds attention whole. Among several, the queries and the first
/// output projection are divided by rows of the matrix and the second output
/// projection by columns, each rank with a part of every one of them.
pub proof fn law_groups_divide_attention(tp: TpConfig, shards: AttentionShards)
    requires
        are_cut(group_cuts(tp), shards),
    ensures
        tp.world_size == 1 ==> shards.wq_b is None && shards.wo_a is None && shards.wo_b is None,
        tp.world_size != 1 ==> {
            &&& shards.wq_b matches Some(t) && t.axis == TpShardAxis::Column && t.range.start
                <= t.range.end
            &&& shards.wo_a matches Some(t) && t.axis == TpShardAxis::Column && t.range.start
                <= t.range.end
            &&& shards.wo_b matches Some(t) && t.axis == TpShardAxis::Row && t.range.start
                <= t.range.end
        },
{
}

/// A vector loads exactly where its tensor is found, has one dimension, and holds
/// numbers unless it is empty; a table exactly where its tensor is listed, holds
/// integers of eight bytes, and ends with a whole one.
pub proof fn law_vectors_load_where_they_hold_numbers(
    shards: Seq<SafeTensors<'_>>,
    map: WeightMap,
    name: Seq<char>,
)
    ensures
        vector_fault(shards, map, name) is None <==> (found_tensor(shards, map, name) matches Ok(t)
            && t.1.len() == 1 && (t.1[0] == 0 || t.0 == TensorDtype::BF16 || t.0
            == TensorDtype::F32 || t.0 == TensorDtype::F8E4M3 || t.0 == TensorDtype::F8E8M0)),
        table_fault(shards, map, name) is None <==> (listed_tensor(shards, map, name) matches Ok(t)
            && t.0 == TensorDtype::I64 && t.2.len() % 8 == 0),
        found_tensor(shards, map, name) matches Err(e) ==> vector_fault(shards, map, name) == Some(
            e,
        ),
        listed_tensor(shards, map, name) matches Err(e) ==> table_fault(shards, map, name) == Some(
            e,
        ),
{
}

} // verus!
