//! Loading of the weights of whole layers.

use safetensors::SafeTensors;
use vstd::prelude::*;
use vstd::slice::slice_subrange;

use crate::model::deepseek::config::{ExpertGroup, TpConfig};
use crate::model::deepseek::load::{
    block_scaled_error, is_quantized, is_raw_load, is_vector_load, planned_shard,
    shard_element, shard_size, signed_value, tp_shard,
};
use crate::model::deepseek::load::{
    load_dsv4_matrix_raw_sharded, load_dsv4_vec_bf16, load_i64_tensor,
};
use crate::model::deepseek::load::{HostMatrix, MatrixShard, TpLoadContext, TpShardAxis};
use crate::model::deepseek::quant::is_number;
use crate::model::deepseek::tensor::{found_tensor, listed_tensor, map_names_shards};
use crate::model::deepseek::tensor::{LoadError, TensorDtype, WeightMap};

verus! {

/// Names of the tensors of a hyper-connection.
pub struct HyperConnectionNames {
    pub base: String,
    pub mix_fn: String,
    pub scale: String,
}

/// Names of the tensors of a compressor.
pub struct CompressorNames {
    pub wkv: String,
    pub wgate: String,
    pub ape: String,
    pub norm: String,
}

/// Names of the tensors of an indexer.
pub struct IndexerNames {
    pub wq_b: String,
    pub weights_proj: String,
    pub compressor: CompressorNames,
}

/// Names of the tensors of attention.
pub struct AttentionNames {
    pub wq_a: String,
    pub q_norm: String,
    pub wq_b: String,
    pub wkv: String,
    pub kv_norm: String,
    pub wo_a: String,
    pub wo_b: String,
    pub attn_sink: String,
    pub compressor: Option<CompressorNames>,
    pub indexer: Option<IndexerNames>,
}

/// The shards of attention that a rank holds; none where there is one rank.
pub struct AttentionShards {
    pub wq_b: Option<TpLoadContext>,
    pub wo_a: Option<TpLoadContext>,
    pub wo_b: Option<TpLoadContext>,
}

/// How the ranks of a group divide the matrices of attention: by columns of the
/// product, which are the rows of the matrix, by rows of the product, which are its
/// columns, or not at all.
#[derive(Clone, Copy, Debug, PartialEq, Eq, Structural)]
pub struct AttentionCuts {
    pub wq_b: Option<TpShardAxis>,
    pub wo_a: Option<TpShardAxis>,
    pub wo_b: Option<TpShardAxis>,
}

/// Nothing is divided on a single rank. Otherwise the second query projection and
/// the first output projection are divided by their rows, and the second output
/// projection by its columns.
pub open spec fn group_cuts(tp: TpConfig) -> AttentionCuts {
    if tp.world_size == 1 {
        AttentionCuts { wq_b: None, wo_a: None, wo_b: None }
    } else {
        AttentionCuts {
            wq_b: Some(TpShardAxis::Column),
            wo_a: Some(TpShardAxis::Column),
            wo_b: Some(TpShardAxis::Row),
        }
    }
}

/// How the ranks of a group divide the matrices of attention.
pub fn attention_cuts(tp: &TpConfig) -> (c: AttentionCuts)
    ensures
        c == group_cuts(*tp),
{
    if tp.is_single() {
        return AttentionCuts { wq_b: None, wo_a: None, wo_b: None };
    }
    AttentionCuts {
        wq_b: Some(TpShardAxis::Column),
        wo_a: Some(TpShardAxis::Column),
        wo_b: Some(TpShardAxis::Row),
    }
}

/// A shard is there exactly where the matrix is divided, along that axis, and its
/// range is one.
pub open spec fn is_cut(axis: Option<TpShardAxis>, tp: Option<TpLoadContext>) -> bool {
    match (axis, tp) {
        (None, None) => true,
        (Some(axis), Some(tp)) => tp.axis == axis && tp.range.wf(),
        _ => false,
    }
}

/// The shards of attention are those that the group asks for.
pub open spec fn are_cut(cuts: AttentionCuts, tp: AttentionShards) -> bool {
    is_cut(cuts.wq_b, tp.wq_b) && is_cut(cuts.wo_a, tp.wo_a) && is_cut(cuts.wo_b, tp.wo_b)
}

fn test_cut(axis: Option<TpShardAxis>, tp: &Option<TpLoadContext>) -> (cut: bool)
    ensures
        cut == is_cut(axis, *tp),
{
    match (axis, tp) {
        (None, None) => true,
        (Some(axis), Some(tp)) => tp.axis == axis && tp.range.start <= tp.range.end,
        _ => false,
    }
}

/// Tests whether the shards of attention are those that the group asks for.
pub fn test_cuts(cuts: &AttentionCuts, tp: &AttentionShards) -> (cut: bool)
    ensures
        cut == are_cut(*cuts, *tp),
{
    test_cut(cuts.wq_b, &tp.wq_b) && test_cut(cuts.wo_a, &tp.wo_a) && test_cut(cuts.wo_b, &tp.wo_b)
}

/// Names of the tensors of an expert.
pub struct ExpertNames {
    pub w1: String,
    pub w2: String,
    pub w3: String,
}

/// Names of the tensors of a mixture of experts. The experts of all ranks are
/// listed.
pub struct MoeNames {
    pub experts: Vec<ExpertNames>,
    pub gate_weight: String,
    pub gate_bias: Option<String>,
    pub gate_tid2eid: Option<String>,
    pub shared_experts: Option<ExpertNames>,
}

/// Names of the tensors of a layer.
pub struct LayerNames {
    pub attn_norm: String,
    pub hc_attn: HyperConnectionNames,
    pub attn: AttentionNames,
    pub attn_shards: AttentionShards,
    pub ffn_norm: String,
    pub hc_ffn: HyperConnectionNames,
    pub ffn: MoeNames,
}

/// The weights of a hyper-connection.
pub struct HostHyperConnection {
    pub base: Vec<u16>,
    pub mix_fn: HostMatrix,
    pub scale: Vec<u16>,
}

/// The weights of a compressor.
pub struct HostCompressor {
    pub wkv: HostMatrix,
    pub wgate: HostMatrix,
    pub ape: HostMatrix,
    pub norm: Vec<u16>,
}

/// The weights of an indexer.
pub struct HostIndexer {
    pub wq_b: HostMatrix,
    pub weights_proj: HostMatrix,
    pub compressor: HostCompressor,
}

/// The weights of attention.
pub struct HostAttention {
    pub wq_a: HostMatrix,
    pub q_norm: Vec<u16>,
    pub wq_b: HostMatrix,
    pub wkv: HostMatrix,
    pub kv_norm: Vec<u16>,
    pub wo_a: HostMatrix,
    pub wo_b: HostMatrix,
    pub attn_sink: Vec<u16>,
    pub compressor: Option<HostCompressor>,
    pub indexer: Option<HostIndexer>,
}

/// The weights of an expert.
pub struct HostExpert {
    pub w1: HostMatrix,
    pub w2: HostMatrix,
    pub w3: HostMatrix,
}

/// The weights of a mixture of experts.
pub struct HostMoeBlock {
    pub experts: Vec<HostExpert>,
    pub gate_weight: HostMatrix,
    pub gate_bias: Option<Vec<u16>>,
    pub gate_tid2eid: Option<Vec<i64>>,
    pub shared_experts: Option<HostExpert>,
}

/// The weights of a layer.
pub struct HostLayer {
    pub attn_norm: Vec<u16>,
    pub hc_attn: HostHyperConnection,
    pub attention: HostAttention,
    pub ffn_norm: Vec<u16>,
    pub hc_ffn: HostHyperConnection,
    pub ffn: HostMoeBlock,
}

/// The weights of the head's hyper-connection and of all layers.
pub struct HostLayers {
    pub head_hc: HostHyperConnection,
    pub layers: Vec<HostLayer>,
}

/// The first fault of two.
pub open spec fn first(a: Option<LoadError>, b: Option<LoadError>) -> Option<LoadError> {
    match a {
        Some(e) => Some(e),
        None => b,
    }
}

/// Why a shard of a matrix cannot be loaded, if it cannot.
pub open spec fn matrix_fault(
    shards: Seq<SafeTensors<'_>>,
    map: WeightMap,
    name: Seq<char>,
    shard: MatrixShard,
) -> Option<LoadError> {
    let plan = planned_shard(shards, map, name, shard);
    match found_tensor(shards, map, name) {
        Err(e) => Some(e),
        Ok(t) => if t.1.len() != 2 {
            Some(LoadError::NotMatrix)
        } else if is_quantized(t.0) {
            match plan {
                Err(e) => Some(e),
                Ok(p) => block_scaled_error(p),
            }
        } else if t.0 == TensorDtype::BF16 || t.0 == TensorDtype::F32 || t.0
            == TensorDtype::F8E8M0 {
            match plan {
                Err(e) => Some(e),
                Ok(p) => if shard_size(p) > 0 && shard_element(p, 0) is Err {
                    Some(shard_element(p, 0)->Err_0)
                } else {
                    None
                },
            }
        } else {
            Some(LoadError::UnsupportedDtype)
        },
    }
}

/// Why a vector cannot be loaded, if it cannot.
pub open spec fn vector_fault(
    shards: Seq<SafeTensors<'_>>,
    map: WeightMap,
    name: Seq<char>,
) -> Option<LoadError> {
    match found_tensor(shards, map, name) {
        Err(e) => Some(e),
        Ok(t) => if t.1.len() != 1 {
            Some(LoadError::NotVector)
        } else if t.1[0] > 0 && !is_number(t.0) {
            Some(LoadError::UnsupportedDtype)
        } else {
            None
        },
    }
}

/// Why a table of integers cannot be loaded, if it cannot.
pub open spec fn table_fault(
    shards: Seq<SafeTensors<'_>>,
    map: WeightMap,
    name: Seq<char>,
) -> Option<LoadError> {
    match listed_tensor(shards, map, name) {
        Err(e) => Some(e),
        Ok(t) => if t.0 != TensorDtype::I64 {
            Some(LoadError::UnsupportedDtype)
        } else if t.2.len() % 8 != 0 {
            Some(LoadError::DataLength)
        } else {
            None
        },
    }
}

/// A shard of a matrix was loaded.
pub open spec fn is_matrix(
    m: HostMatrix,
    shards: Seq<SafeTensors<'_>>,
    map: WeightMap,
    name: Seq<char>,
    shard: MatrixShard,
) -> bool {
    is_raw_load(Ok(m), shards, map, name, shard)
}

/// A vector was loaded.
pub open spec fn is_vector(
    v: Vec<u16>,
    shards: Seq<SafeTensors<'_>>,
    map: WeightMap,
    name: Seq<char>,
) -> bool {
    is_vector_load(Ok(v), found_tensor(shards, map, name))
}

/// A table of integers was loaded.
pub open spec fn is_table(
    v: Vec<i64>,
    shards: Seq<SafeTensors<'_>>,
    map: WeightMap,
    name: Seq<char>,
) -> bool {
    listed_tensor(shards, map, name) matches Ok(t) && v@.len() == t.2.len() / 8 && forall|i: int|
        0 <= i < v@.len() ==> #[trigger] v@[i] == signed_value(t.2, 8 * i)
}

/// The whole matrix.
pub open spec fn whole() -> MatrixShard {
    tp_shard(None)
}

/// The shard of a rank.
pub open spec fn rank_shard(tp: Option<TpLoadContext>) -> MatrixShard {
    match tp {
        Some(t) => tp_shard(Some(&t)),
        None => tp_shard(None),
    }
}

/// The range of a rank's shard is one.
pub open spec fn shard_ok(tp: Option<TpLoadContext>) -> bool {
    tp matches Some(t) ==> t.range.wf()
}

fn matrix(
    shards: &[SafeTensors<'_>],
    weight_map: &WeightMap,
    name: &str,
    tp: Option<&TpLoadContext>,
) -> (r: Result<HostMatrix, LoadError>)
    requires
        weight_map.wf(),
        map_names_shards(*weight_map, shards@),
        tp matches Some(t) ==> t.range.wf(),
    ensures
        match r {
            Ok(m) => is_matrix(m, shards@, *weight_map, name@, tp_shard(tp)) && matrix_fault(
                shards@,
                *weight_map,
                name@,
                tp_shard(tp),
            ) is None,
            Err(e) => matrix_fault(shards@, *weight_map, name@, tp_shard(tp)) == Some(e),
        },
{
    load_dsv4_matrix_raw_sharded(shards, weight_map, name, tp)
}

fn vector(shards: &[SafeTensors<'_>], weight_map: &WeightMap, name: &str) -> (r: Result<
    Vec<u16>,
    LoadError,
>)
    requires
        weight_map.wf(),
        map_names_shards(*weight_map, shards@),
    ensures
        match r {
            Ok(v) => is_vector(v, shards@, *weight_map, name@) && vector_fault(
                shards@,
                *weight_map,
                name@,
            ) is None,
            Err(e) => vector_fault(shards@, *weight_map, name@) == Some(e),
        },
{
    load_dsv4_vec_bf16(shards, weight_map, name)
}

/// Why a hyper-connection cannot be loaded, if it cannot.
pub open spec fn hyper_fault(
    shards: Seq<SafeTensors<'_>>,
    map: WeightMap,
    n: HyperConnectionNames,
) -> Option<LoadError> {
    first(
        vector_fault(shards, map, n.base@),
        first(
            matrix_fault(shards, map, n.mix_fn@, whole()),
            vector_fault(shards, map, n.scale@),
        ),
    )
}

/// A hyper-connection was loaded.
pub open spec fn is_hyper(
    h: HostHyperConnection,
    shards: Seq<SafeTensors<'_>>,
    map: WeightMap,
    n: HyperConnectionNames,
) -> bool {
    &&& is_vector(h.base, shards, map, n.base@)
    &&& is_matrix(h.mix_fn, shards, map, n.mix_fn@, whole())
    &&& is_vector(h.scale, shards, map, n.scale@)
}

/// Loads a hyper-connection.
pub fn load_hyper_connection(
    shards: &[SafeTensors<'_>],
    weight_map: &WeightMap,
    names: &HyperConnectionNames,
) -> (r: Result<HostHyperConnection, LoadError>)
    requires
        weight_map.wf(),
        map_names_shards(*weight_map, shards@),
    ensures
        match hyper_fault(shards@, *weight_map, *names) {
            Some(e) => r matches Err(found) && found == e,
            None => r matches Ok(h) && is_hyper(h, shards@, *weight_map, *names),
        },
{
    let base = match vector(shards, weight_map, names.base.as_str()) {
        Ok(v) => v,
        Err(e) => {
            return Err(e);
        },
    };
    let mix_fn = match matrix(shards, weight_map, names.mix_fn.as_str(), None) {
        Ok(m) => m,
        Err(e) => {
            return Err(e);
        },
    };
    let scale = match vector(shards, weight_map, names.scale.as_str()) {
        Ok(v) => v,
        Err(e) => {
            return Err(e);
        },
    };
    Ok(HostHyperConnection { base, mix_fn, scale })
}

/// Why a compressor cannot be loaded, if it cannot.
pub open spec fn compressor_fault(
    shards: Seq<SafeTensors<'_>>,
    map: WeightMap,
    n: CompressorNames,
) -> Option<LoadError> {
    first(
        matrix_fault(shards, map, n.wkv@, whole()),
        first(
            matrix_fault(shards, map, n.wgate@, whole()),
            first(
                matrix_fault(shards, map, n.ape@, whole()),
                vector_fault(shards, map, n.norm@),
            ),
        ),
    )
}

/// A compressor was loaded.
pub open spec fn is_compressor(
    c: HostCompressor,
    shards: Seq<SafeTensors<'_>>,
    map: WeightMap,
    n: CompressorNames,
) -> bool {
    &&& is_matrix(c.wkv, shards, map, n.wkv@, whole())
    &&& is_matrix(c.wgate, shards, map, n.wgate@, whole())
    &&& is_matrix(c.ape, shards, map, n.ape@, whole())
    &&& is_vector(c.norm, shards, map, n.norm@)
}

/// Loads a compressor.
pub fn load_compressor(
    shards: &[SafeTensors<'_>],
    weight_map: &WeightMap,
    names: &CompressorNames,
) -> (r: Result<HostCompressor, LoadError>)
    requires
        weight_map.wf(),
        map_names_shards(*weight_map, shards@),
    ensures
        match compressor_fault(shards@, *weight_map, *names) {
            Some(e) => r matches Err(found) && found == e,
            None => r matches Ok(c) && is_compressor(c, shards@, *weight_map, *names),
        },
{
    let wkv = match matrix(shards, weight_map, names.wkv.as_str(), None) {
        Ok(m) => m,
        Err(e) => {
            return Err(e);
        },
    };
    let wgate = match matrix(shards, weight_map, names.wgate.as_str(), None) {
        Ok(m) => m,
        Err(e) => {
            return Err(e);
        },
    };
    let ape = match matrix(shards, weight_map, names.ape.as_str(), None) {
        Ok(m) => m,
        Err(e) => {
            return Err(e);
        },
    };
    let norm = match vector(shards, weight_map, names.norm.as_str()) {
        Ok(v) => v,
        Err(e) => {
            return Err(e);
        },
    };
    Ok(HostCompressor { wkv, wgate, ape, norm })
}

/// Why an indexer cannot be loaded, if it cannot.
pub open spec fn indexer_fault(
    shards: Seq<SafeTensors<'_>>,
    map: WeightMap,
    n: IndexerNames,
) -> Option<LoadError> {
    first(
        matrix_fault(shards, map, n.wq_b@, whole()),
        first(
            matrix_fault(shards, map, n.weights_proj@, whole()),
            compressor_fault(shards, map, n.compressor),
        ),
    )
}

/// An indexer was loaded.
pub open spec fn is_indexer(
    x: HostIndexer,
    shards: Seq<SafeTensors<'_>>,
    map: WeightMap,
    n: IndexerNames,
) -> bool {
    &&& is_matrix(x.wq_b, shards, map, n.wq_b@, whole())
    &&& is_matrix(x.weights_proj, shards, map, n.weights_proj@, whole())
    &&& is_compressor(x.compressor, shards, map, n.compressor)
}

/// Loads an indexer.
pub fn load_indexer(shards: &[SafeTensors<'_>], weight_map: &WeightMap, names: &IndexerNames) -> (r:
    Result<HostIndexer, LoadError>)
    requires
        weight_map.wf(),
        map_names_shards(*weight_map, shards@),
    ensures
        match indexer_fault(shards@, *weight_map, *names) {
            Some(e) => r matches Err(found) && found == e,
            None => r matches Ok(x) && is_indexer(x, shards@, *weight_map, *names),
        },
{
    let wq_b = match matrix(shards, weight_map, names.wq_b.as_str(), None) {
        Ok(m) => m,
        Err(e) => {
            return Err(e);
        },
    };
    let weights_proj = match matrix(shards, weight_map, names.weights_proj.as_str(), None) {
        Ok(m) => m,
        Err(e) => {
            return Err(e);
        },
    };
    let compressor = match load_compressor(shards, weight_map, &names.compressor) {
        Ok(c) => c,
        Err(e) => {
            return Err(e);
        },
    };
    Ok(HostIndexer { wq_b, weights_proj, compressor })
}

/// Why attention cannot be loaded, if it cannot.
pub open spec fn attention_fault(
    shards: Seq<SafeTensors<'_>>,
    map: WeightMap,
    n: AttentionNames,
    tp: AttentionShards,
) -> Option<LoadError> {
    first(
        matrix_fault(shards, map, n.wq_a@, whole()),
        first(
            vector_fault(shards, map, n.q_norm@),
            first(
                matrix_fault(shards, map, n.wq_b@, rank_shard(tp.wq_b)),
                first(
                    matrix_fault(shards, map, n.wkv@, whole()),
                    first(
                        vector_fault(shards, map, n.kv_norm@),
                        first(
                            matrix_fault(shards, map, n.wo_a@, rank_shard(tp.wo_a)),
                            first(
                                matrix_fault(shards, map, n.wo_b@, rank_shard(tp.wo_b)),
                                first(
                                    vector_fault(shards, map, n.attn_sink@),
                                    first(
                                        match n.compressor {
                                            Some(c) => compressor_fault(shards, map, c),
                                            None => None,
                                        },
                                        match n.indexer {
                                            Some(x) => indexer_fault(shards, map, x),
                                            None => None,
                                        },
                                    ),
                                ),
                            ),
                        ),
                    ),
                ),
            ),
        ),
    )
}

/// Attention was loaded.
pub open spec fn is_attention(
    a: HostAttention,
    shards: Seq<SafeTensors<'_>>,
    map: WeightMap,
    n: AttentionNames,
    tp: AttentionShards,
) -> bool {
    &&& is_matrix(a.wq_a, shards, map, n.wq_a@, whole())
    &&& is_vector(a.q_norm, shards, map, n.q_norm@)
    &&& is_matrix(a.wq_b, shards, map, n.wq_b@, rank_shard(tp.wq_b))
    &&& is_matrix(a.wkv, shards, map, n.wkv@, whole())
    &&& is_vector(a.kv_norm, shards, map, n.kv_norm@)
    &&& is_matrix(a.wo_a, shards, map, n.wo_a@, rank_shard(tp.wo_a))
    &&& is_matrix(a.wo_b, shards, map, n.wo_b@, rank_shard(tp.wo_b))
    &&& is_vector(a.attn_sink, shards, map, n.attn_sink@)
    &&& match n.compressor {
        Some(names) => a.compressor matches Some(c) && is_compressor(c, shards, map, names),
        None => a.compressor is None,
    }
    &&& match n.indexer {
        Some(names) => a.indexer matches Some(x) && is_indexer(x, shards, map, names),
        None => a.indexer is None,
    }
}

/// Loads attention: the query and output projections are divided among the
/// ranks, the rest is whole.
pub fn load_attention(
    shards: &[SafeTensors<'_>],
    weight_map: &WeightMap,
    names: &AttentionNames,
    tp: &AttentionShards,
) -> (r: Result<HostAttention, LoadError>)
    requires
        weight_map.wf(),
        map_names_shards(*weight_map, shards@),
        shard_ok(tp.wq_b),
        shard_ok(tp.wo_a),
        shard_ok(tp.wo_b),
    ensures
        match attention_fault(shards@, *weight_map, *names, *tp) {
            Some(e) => r matches Err(found) && found == e,
            None => r matches Ok(a) && is_attention(a, shards@, *weight_map, *names, *tp),
        },
{
    let wq_a = match matrix(shards, weight_map, names.wq_a.as_str(), None) {
        Ok(m) => m,
        Err(e) => {
            return Err(e);
        },
    };
    let q_norm = match vector(shards, weight_map, names.q_norm.as_str()) {
        Ok(v) => v,
        Err(e) => {
            return Err(e);
        },
    };
    let wq_b = match matrix(shards, weight_map, names.wq_b.as_str(), tp.wq_b.as_ref()) {
        Ok(m) => m,
        Err(e) => {
            return Err(e);
        },
    };
    let wkv = match matrix(shards, weight_map, names.wkv.as_str(), None) {
        Ok(m) => m,
        Err(e) => {
            return Err(e);
        },
    };
    let kv_norm = match vector(shards, weight_map, names.kv_norm.as_str()) {
        Ok(v) => v,
        Err(e) => {
            return Err(e);
        },
    };
    let wo_a = match matrix(shards, weight_map, names.wo_a.as_str(), tp.wo_a.as_ref()) {
        Ok(m) => m,
        Err(e) => {
            return Err(e);
        },
    };
    let wo_b = match matrix(shards, weight_map, names.wo_b.as_str(), tp.wo_b.as_ref()) {
        Ok(m) => m,
        Err(e) => {
            return Err(e);
        },
    };
    let attn_sink = match vector(shards, weight_map, names.attn_sink.as_str()) {
        Ok(v) => v,
        Err(e) => {
            return Err(e);
        },
    };
    let compressor = match &names.compressor {
        None => None,
        Some(n) => match load_compressor(shards, weight_map, n) {
            Ok(c) => Some(c),
            Err(e) => {
                return Err(e);
            },
        },
    };
    let indexer = match &names.indexer {
        None => None,
        Some(n) => match load_indexer(shards, weight_map, n) {
            Ok(x) => Some(x),
            Err(e) => {
                return Err(e);
            },
        },
    };
    Ok(
        HostAttention {
            wq_a,
            q_norm,
            wq_b,
            wkv,
            kv_norm,
            wo_a,
            wo_b,
            attn_sink,
            compressor,
            indexer,
        },
    )
}

/// Why an expert cannot be loaded, if it cannot.
pub open spec fn expert_fault(
    shards: Seq<SafeTensors<'_>>,
    map: WeightMap,
    n: ExpertNames,
) -> Option<LoadError> {
    first(
        matrix_fault(shards, map, n.w1@, whole()),
        first(
            matrix_fault(shards, map, n.w2@, whole()),
            matrix_fault(shards, map, n.w3@, whole()),
        ),
    )
}

/// An expert was loaded.
pub open spec fn is_expert(
    x: HostExpert,
    shards: Seq<SafeTensors<'_>>,
    map: WeightMap,
    n: ExpertNames,
) -> bool {
    &&& is_matrix(x.w1, shards, map, n.w1@, whole())
    &&& is_matrix(x.w2, shards, map, n.w2@, whole())
    &&& is_matrix(x.w3, shards, map, n.w3@, whole())
}

/// Loads an expert.
pub fn load_expert(shards: &[SafeTensors<'_>], weight_map: &WeightMap, names: &ExpertNames) -> (r:
    Result<HostExpert, LoadError>)
    requires
        weight_map.wf(),
        map_names_shards(*weight_map, shards@),
    ensures
        match expert_fault(shards@, *weight_map, *names) {
            Some(e) => r matches Err(found) && found == e,
            None => r matches Ok(x) && is_expert(x, shards@, *weight_map, *names),
        },
{
    let w1 = match matrix(shards, weight_map, names.w1.as_str(), None) {
        Ok(m) => m,
        Err(e) => {
            return Err(e);
        },
    };
    let w2 = match matrix(shards, weight_map, names.w2.as_str(), None) {
        Ok(m) => m,
        Err(e) => {
            return Err(e);
        },
    };
    let w3 = match matrix(shards, weight_map, names.w3.as_str(), None) {
        Ok(m) => m,
        Err(e) => {
            return Err(e);
        },
    };
    Ok(HostExpert { w1, w2, w3 })
}

/// Why one of the first `n` experts cannot be loaded, if one cannot.
pub open spec fn experts_fault(
    shards: Seq<SafeTensors<'_>>,
    map: WeightMap,
    names: Seq<ExpertNames>,
    n: int,
) -> Option<LoadError>
    decreases n,
{
    if n <= 0 {
        None
    } else {
        first(
            experts_fault(shards, map, names, n - 1),
            expert_fault(shards, map, names[n - 1]),
        )
    }
}

proof fn lemma_experts_fault_stays(
    shards: Seq<SafeTensors<'_>>,
    map: WeightMap,
    names: Seq<ExpertNames>,
    m: int,
    n: int,
)
    requires
        m <= n,
        experts_fault(shards, map, names, m) is Some,
    ensures
        experts_fault(shards, map, names, n) == experts_fault(shards, map, names, m),
    decreases n - m,
{
    if m < n {
        lemma_experts_fault_stays(shards, map, names, m, n - 1);
    }
}

/// The experts were loaded.
pub open spec fn are_experts(
    experts: Seq<HostExpert>,
    shards: Seq<SafeTensors<'_>>,
    map: WeightMap,
    names: Seq<ExpertNames>,
) -> bool {
    &&& experts.len() == names.len()
    &&& forall|i: int|
        0 <= i < experts.len() ==> is_expert(#[trigger] experts[i], shards, map, names[i])
}

/// The experts of a rank among those of all ranks: as many as a rank holds, from
/// its first one on. There is an error where the list ends before them.
pub open spec fn rank_experts(names: Seq<ExpertNames>, ep: ExpertGroup) -> Result<
    Seq<ExpertNames>,
    LoadError,
> {
    let end = ep.local_expert_start + ep.experts_per_rank;
    if end > names.len() {
        Err(LoadError::MissingExpert)
    } else {
        Ok(names.subrange(ep.local_expert_start as int, end))
    }
}

/// Chooses the experts of a rank among those of all ranks.
pub fn choose_rank_experts<'a>(names: &'a Vec<ExpertNames>, ep: &ExpertGroup) -> (r: Result<
    &'a [ExpertNames],
    LoadError,
>)
    ensures
        match rank_experts(names@, *ep) {
            Ok(list) => r matches Ok(found) && found@ == list,
            Err(e) => r matches Err(found) && found == e,
        },
{
    let start: usize = ep.local_expert_start;
    if start > names.len() || ep.experts_per_rank > names.len() - start {
        return Err(LoadError::MissingExpert);
    }
    Ok(slice_subrange(names.as_slice(), start, start + ep.experts_per_rank))
}

fn load_experts(
    shards: &[SafeTensors<'_>],
    weight_map: &WeightMap,
    names: &[ExpertNames],
) -> (r: Result<Vec<HostExpert>, LoadError>)
    requires
        weight_map.wf(),
        map_names_shards(*weight_map, shards@),
    ensures
        match experts_fault(shards@, *weight_map, names@, names@.len() as int) {
            Some(e) => r matches Err(found) && found == e,
            None => r matches Ok(x) && are_experts(x@, shards@, *weight_map, names@),
        },
{
    let mut experts: Vec<HostExpert> = Vec::new();
    let mut i: usize = 0;
    while i < names.len()
        invariant
            i <= names@.len(),
            weight_map.wf(),
            map_names_shards(*weight_map, shards@),
            experts@.len() == i,
            experts_fault(shards@, *weight_map, names@, i as int) is None,
            forall|k: int|
                0 <= k < i ==> is_expert(#[trigger] experts@[k], shards@, *weight_map, names@[k]),
        decreases names@.len() - i,
    {
        match load_expert(shards, weight_map, &names[i]) {
            Ok(x) => {
                experts.push(x);
            },
            Err(e) => {
                proof {
                    lemma_experts_fault_stays(
                        shards@,
                        *weight_map,
                        names@,
                        i + 1,
                        names@.len() as int,
                    );
                }
                return Err(e);
            },
        }
        i = i + 1;
    }
    Ok(experts)
}

/// Why a mixture of experts cannot be loaded, if it cannot.
pub open spec fn moe_fault(
    shards: Seq<SafeTensors<'_>>,
    map: WeightMap,
    n: MoeNames,
    ep: ExpertGroup,
) -> Option<LoadError> {
    first(
        match rank_experts(n.experts@, ep) {
            Ok(list) => experts_fault(shards, map, list, list.len() as int),
            Err(e) => Some(e),
        },
        first(
            matrix_fault(shards, map, n.gate_weight@, whole()),
            first(
                match n.gate_bias {
                    Some(name) => vector_fault(shards, map, name@),
                    None => None,
                },
                first(
                    match n.gate_tid2eid {
                        Some(name) => table_fault(shards, map, name@),
                        None => None,
                    },
                    match n.shared_experts {
                        Some(names) => expert_fault(shards, map, names),
                        None => None,
                    },
                ),
            ),
        ),
    )
}

/// A mixture of experts was loaded, with the experts of the rank.
pub open spec fn is_moe(
    b: HostMoeBlock,
    shards: Seq<SafeTensors<'_>>,
    map: WeightMap,
    n: MoeNames,
    ep: ExpertGroup,
) -> bool {
    &&& rank_experts(n.experts@, ep) is Ok
    &&& are_experts(b.experts@, shards, map, rank_experts(n.experts@, ep)->Ok_0)
    &&& is_matrix(b.gate_weight, shards, map, n.gate_weight@, whole())
    &&& match n.gate_bias {
        Some(name) => b.gate_bias matches Some(v) && is_vector(v, shards, map, name@),
        None => b.gate_bias is None,
    }
    &&& match n.gate_tid2eid {
        Some(name) => b.gate_tid2eid matches Some(v) && is_table(v, shards, map, name@),
        None => b.gate_tid2eid is None,
    }
    &&& match n.shared_experts {
        Some(names) => b.shared_experts matches Some(x) && is_expert(x, shards, map, names),
        None => b.shared_experts is None,
    }
}

/// Loads the experts of a rank with their router.
pub fn load_moe_block(
    shards: &[SafeTensors<'_>],
    weight_map: &WeightMap,
    names: &MoeNames,
    ep: &ExpertGroup,
) -> (r: Result<HostMoeBlock, LoadError>)
    requires
        weight_map.wf(),
        map_names_shards(*weight_map, shards@),
    ensures
        match moe_fault(shards@, *weight_map, *names, *ep) {
            Some(e) => r matches Err(found) && found == e,
            None => r matches Ok(b) && is_moe(b, shards@, *weight_map, *names, *ep),
        },
{
    let local = match choose_rank_experts(&names.experts, ep) {
        Ok(local) => local,
        Err(e) => {
            return Err(e);
        },
    };
    let experts = match load_experts(shards, weight_map, local) {
        Ok(x) => x,
        Err(e) => {
            return Err(e);
        },
    };
    let gate_weight = match matrix(shards, weight_map, names.gate_weight.as_str(), None) {
        Ok(m) => m,
        Err(e) => {
            return Err(e);
        },
    };
    let gate_bias = match &names.gate_bias {
        None => None,
        Some(name) => match vector(shards, weight_map, name.as_str()) {
            Ok(v) => Some(v),
            Err(e) => {
                return Err(e);
            },
        },
    };
    let gate_tid2eid = match &names.gate_tid2eid {
        None => None,
        Some(name) => match load_i64_tensor(shards, weight_map, name.as_str()) {
            Ok(v) => Some(v),
            Err(e) => {
                return Err(e);
            },
        },
    };
    let shared_experts = match &names.shared_experts {
        None => None,
        Some(n) => match load_expert(shards, weight_map, n) {
            Ok(x) => Some(x),
            Err(e) => {
                return Err(e);
            },
        },
    };
    Ok(HostMoeBlock { experts, gate_weight, gate_bias, gate_tid2eid, shared_experts })
}

/// Why a layer cannot be loaded, if it cannot.
#[verifier::opaque]
pub open spec fn layer_fault(
    shards: Seq<SafeTensors<'_>>,
    map: WeightMap,
    n: LayerNames,
    ep: ExpertGroup,
) -> Option<LoadError> {
    first(
        vector_fault(shards, map, n.attn_norm@),
        first(
            hyper_fault(shards, map, n.hc_attn),
            first(
                attention_fault(shards, map, n.attn, n.attn_shards),
                first(
                    vector_fault(shards, map, n.ffn_norm@),
                    first(hyper_fault(shards, map, n.hc_ffn), moe_fault(shards, map, n.ffn, ep)),
                ),
            ),
        ),
    )
}

/// A layer was loaded.
#[verifier::opaque]
pub open spec fn is_layer(
    l: HostLayer,
    shards: Seq<SafeTensors<'_>>,
    map: WeightMap,
    n: LayerNames,
    ep: ExpertGroup,
) -> bool {
    &&& is_vector(l.attn_norm, shards, map, n.attn_norm@)
    &&& is_hyper(l.hc_attn, shards, map, n.hc_attn)
    &&& is_attention(l.attention, shards, map, n.attn, n.attn_shards)
    &&& is_vector(l.ffn_norm, shards, map, n.ffn_norm@)
    &&& is_hyper(l.hc_ffn, shards, map, n.hc_ffn)
    &&& is_moe(l.ffn, shards, map, n.ffn, ep)
}

/// The ranges of a layer's shards are ranges.
pub open spec fn layer_ok(n: LayerNames) -> bool {
    shard_ok(n.attn_shards.wq_b) && shard_ok(n.attn_shards.wo_a) && shard_ok(n.attn_shards.wo_b)
}

/// Loads a layer.
pub fn load_layer(
    shards: &[SafeTensors<'_>],
    weight_map: &WeightMap,
    names: &LayerNames,
    ep: &ExpertGroup,
) -> (r: Result<HostLayer, LoadError>)
    requires
        weight_map.wf(),
        map_names_shards(*weight_map, shards@),
        layer_ok(*names),
    ensures
        match layer_fault(shards@, *weight_map, *names, *ep) {
            Some(e) => r matches Err(found) && found == e,
            None => r matches Ok(l) && is_layer(l, shards@, *weight_map, *names, *ep),
        },
{
    proof {
        reveal(layer_fault);
        reveal(is_layer);
    }
    let attn_norm = match vector(shards, weight_map, names.attn_norm.as_str()) {
        Ok(v) => v,
        Err(e) => {
            return Err(e);
        },
    };
    let hc_attn = match load_hyper_connection(shards, weight_map, &names.hc_attn) {
        Ok(h) => h,
        Err(e) => {
            return Err(e);
        },
    };
    let attention = match load_attention(shards, weight_map, &names.attn, &names.attn_shards) {
        Ok(a) => a,
        Err(e) => {
            return Err(e);
        },
    };
    let ffn_norm = match vector(shards, weight_map, names.ffn_norm.as_str()) {
        Ok(v) => v,
        Err(e) => {
            return Err(e);
        },
    };
    let hc_ffn = match load_hyper_connection(shards, weight_map, &names.hc_ffn) {
        Ok(h) => h,
        Err(e) => {
            return Err(e);
        },
    };
    let ffn = match load_moe_block(shards, weight_map, &names.ffn, ep) {
        Ok(b) => b,
        Err(e) => {
            return Err(e);
        },
    };
    Ok(HostLayer { attn_norm, hc_attn, attention, ffn_norm, hc_ffn, ffn })
}

/// Why one of the first `n` layers cannot be loaded, if one cannot.
pub open spec fn layers_fault(
    shards: Seq<SafeTensors<'_>>,
    map: WeightMap,
    names: Seq<LayerNames>,
    ep: ExpertGroup,
    n: int,
) -> Option<LoadError>
    decreases n,
{
    if n <= 0 {
        None
    } else {
        first(
            layers_fault(shards, map, names, ep, n - 1),
            layer_fault(shards, map, names[n - 1], ep),
        )
    }
}

proof fn lemma_layers_fault_stays(
    shards: Seq<SafeTensors<'_>>,
    map: WeightMap,
    names: Seq<LayerNames>,
    ep: ExpertGroup,
    m: int,
    n: int,
)
    requires
        m <= n,
        layers_fault(shards, map, names, ep, m) is Some,
    ensures
        layers_fault(shards, map, names, ep, n) == layers_fault(shards, map, names, ep, m),
    decreases n - m,
{
    if m < n {
        lemma_layers_fault_stays(shards, map, names, ep, m, n - 1);
    }
}

/// Loads the head's hyper-connection and all layers.
pub fn load_layer_weights(
    shards: &[SafeTensors<'_>],
    weight_map: &WeightMap,
    head_hc: &HyperConnectionNames,
    names: &Vec<LayerNames>,
    ep: &ExpertGroup,
) -> (r: Result<HostLayers, LoadError>)
    requires
        weight_map.wf(),
        map_names_shards(*weight_map, shards@),
        forall|i: int| 0 <= i < names@.len() ==> layer_ok(#[trigger] names@[i]),
    ensures
        match first(
            hyper_fault(shards@, *weight_map, *head_hc),
            layers_fault(shards@, *weight_map, names@, *ep, names@.len() as int),
        ) {
            Some(e) => r matches Err(found) && found == e,
            None => {
                &&& r is Ok
                &&& is_hyper(r->Ok_0.head_hc, shards@, *weight_map, *head_hc)
                &&& r->Ok_0.layers@.len() == names@.len()
                &&& forall|i: int|
                    0 <= i < names@.len() ==> is_layer(
                        #[trigger] r->Ok_0.layers@[i],
                        shards@,
                        *weight_map,
                        names@[i],
                        *ep,
                    )
            },
        },
{
    let head = match load_hyper_connection(shards, weight_map, head_hc) {
        Ok(h) => h,
        Err(e) => {
            return Err(e);
        },
    };
    let mut layers: Vec<HostLayer> = Vec::new();
    let mut i: usize = 0;
    while i < names.len()
        invariant
            i <= names@.len(),
            weight_map.wf(),
            map_names_shards(*weight_map, shards@),
            forall|i: int| 0 <= i < names@.len() ==> layer_ok(#[trigger] names@[i]),
            hyper_fault(shards@, *weight_map, *head_hc) is None,
            layers@.len() == i,
            layers_fault(shards@, *weight_map, names@, *ep, i as int) is None,
            forall|k: int|
                0 <= k < i ==> is_layer(
                    #[trigger] layers@[k],
                    shards@,
                    *weight_map,
                    names@[k],
                    *ep,
                ),
        decreases names@.len() - i,
    {
        match load_layer(shards, weight_map, &names[i], ep) {
            Ok(l) => {
                layers.push(l);
            },
            Err(e) => {
                proof {
                    lemma_layers_fault_stays(
                        shards@,
                        *weight_map,
                        names@,
                        *ep,
                        i + 1,
                        names@.len() as int,
                    );
                }
                return Err(e);
            },
        }
        i = i + 1;
    }
    Ok(HostLayers { head_hc: head, layers })
}

} // verus!
