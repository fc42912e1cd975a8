//! A model made from a checkpoint: which weights are loaded, what shapes they
//! have, and why a checkpoint does not fit a configuration.

use safetensors::SafeTensors;
use vstd::prelude::*;

use crate::model::deepseek::attention::{
    DeepseekV4Attention, DeepseekV4Compressor, DeepseekV4Indexer,
};
use crate::model::deepseek::config::{DeepseekRuntimeConfig, ExpertGroup, TpConfig};
use crate::model::deepseek::device::{MatrixShape, WeightFormat};
use crate::model::deepseek::hyper::DeepseekV4HyperConnection;
use crate::model::deepseek::layer::DeepseekLayer;
use crate::model::deepseek::load::logical_cols;
use crate::model::deepseek::load::{load_dsv4_matrix_raw, load_dsv4_vec_bf16};
use crate::model::deepseek::load::{BlockFormat, HostMatrix};
use crate::model::deepseek::loaders::{are_cut, group_cuts};
use crate::model::deepseek::loaders::{attention_cuts, load_layer_weights, test_cuts};
use crate::model::deepseek::loaders::{
    first, hyper_fault, is_hyper, is_layer, is_matrix, is_vector, layer_ok, layers_fault,
    matrix_fault, vector_fault, whole,
};
use crate::model::deepseek::loaders::{
    HostAttention, HostCompressor, HostExpert, HostHyperConnection, HostIndexer, HostLayer,
    HostLayers, HostMoeBlock, HyperConnectionNames, LayerNames,
};
use crate::model::deepseek::mlp::{DeepseekV4Expert, DeepseekV4MoeBlock};
use crate::model::deepseek::switches::{switch_enabled, switch_state, SwitchError};
use crate::model::deepseek::tensor::open_shards;
use crate::model::deepseek::tensor::{
    are_opened, first_unreadable, found_tensor, law_opened_maps_name_holders, map_names_shards,
};
use crate::model::deepseek::tensor::{LoadError, WeightMap};
use crate::model::deepseek::weights::scope_fault;
use crate::model::deepseek::weights::{DeepseekModel, ModelError};

verus! {

/// The shape that a matrix has on the device.
pub open spec fn shape_of(m: HostMatrix) -> MatrixShape {
    match m {
        HostMatrix::BlockScaled(b) => MatrixShape {
            format: match b.format {
                BlockFormat::Fp8 => WeightFormat::Dsv4Fp8BlockScaled,
                BlockFormat::Fp4 => WeightFormat::Dsv4Fp4BlockScaled,
            },
            rows: b.rows,
            cols: b.cols,
            scale_rows: b.scales.rows,
            scale_cols: b.scales.cols,
            has_values: true,
            has_scales: true,
        },
        HostMatrix::Dense(d) => MatrixShape {
            format: WeightFormat::Dense,
            rows: d.rows,
            cols: d.cols,
            scale_rows: 0,
            scale_cols: 0,
            has_values: false,
            has_scales: false,
        },
    }
}

/// The shape of a matrix.
pub fn matrix_shape(m: &HostMatrix) -> (shape: MatrixShape)
    ensures
        shape == shape_of(*m),
{
    match m {
        HostMatrix::BlockScaled(b) => MatrixShape {
            format: match b.format {
                BlockFormat::Fp8 => WeightFormat::Dsv4Fp8BlockScaled,
                BlockFormat::Fp4 => WeightFormat::Dsv4Fp4BlockScaled,
            },
            rows: b.rows,
            cols: b.cols,
            scale_rows: b.scales.rows,
            scale_cols: b.scales.cols,
            has_values: true,
            has_scales: true,
        },
        HostMatrix::Dense(d) => MatrixShape {
            format: WeightFormat::Dense,
            rows: d.rows,
            cols: d.cols,
            scale_rows: 0,
            scale_cols: 0,
            has_values: false,
            has_scales: false,
        },
    }
}

/// The shapes of a hyper-connection.
pub open spec fn hyper_shape(h: HostHyperConnection) -> DeepseekV4HyperConnection {
    DeepseekV4HyperConnection {
        base: h.base@.len() as usize,
        mix_fn: shape_of(h.mix_fn),
        scale: h.scale@.len() as usize,
    }
}

fn describe_hyper(h: &HostHyperConnection) -> (shape: DeepseekV4HyperConnection)
    ensures
        shape == hyper_shape(*h),
{
    DeepseekV4HyperConnection {
        base: h.base.len(),
        mix_fn: matrix_shape(&h.mix_fn),
        scale: h.scale.len(),
    }
}

/// The shapes of a compressor.
pub open spec fn compressor_shape(c: HostCompressor) -> DeepseekV4Compressor {
    DeepseekV4Compressor {
        wkv: shape_of(c.wkv),
        wgate: shape_of(c.wgate),
        ape: shape_of(c.ape),
        norm: c.norm@.len() as usize,
    }
}

fn describe_compressor(c: &HostCompressor) -> (shape: DeepseekV4Compressor)
    ensures
        shape == compressor_shape(*c),
{
    DeepseekV4Compressor {
        wkv: matrix_shape(&c.wkv),
        wgate: matrix_shape(&c.wgate),
        ape: matrix_shape(&c.ape),
        norm: c.norm.len(),
    }
}

/// The shapes of an indexer.
pub open spec fn indexer_shape(ix: HostIndexer) -> DeepseekV4Indexer {
    DeepseekV4Indexer {
        wq_b: shape_of(ix.wq_b),
        weights_proj: shape_of(ix.weights_proj),
        compressor: compressor_shape(ix.compressor),
    }
}

/// The shapes of the attention of a layer.
pub open spec fn attention_shape(a: HostAttention) -> DeepseekV4Attention {
    DeepseekV4Attention {
        wq_a: shape_of(a.wq_a),
        q_norm: a.q_norm@.len() as usize,
        wq_b: shape_of(a.wq_b),
        wkv: shape_of(a.wkv),
        kv_norm: a.kv_norm@.len() as usize,
        wo_a: shape_of(a.wo_a),
        wo_b: shape_of(a.wo_b),
        attn_sink: a.attn_sink@.len() as usize,
        compressor: match a.compressor {
            Some(c) => Some(compressor_shape(c)),
            None => None,
        },
        indexer: match a.indexer {
            Some(ix) => Some(indexer_shape(ix)),
            None => None,
        },
    }
}

fn describe_attention(a: &HostAttention) -> (shape: DeepseekV4Attention)
    ensures
        shape == attention_shape(*a),
{
    let compressor: Option<DeepseekV4Compressor> = match &a.compressor {
        Some(c) => Some(describe_compressor(c)),
        None => None,
    };
    let indexer: Option<DeepseekV4Indexer> = match &a.indexer {
        Some(ix) => Some(
            DeepseekV4Indexer {
                wq_b: matrix_shape(&ix.wq_b),
                weights_proj: matrix_shape(&ix.weights_proj),
                compressor: describe_compressor(&ix.compressor),
            },
        ),
        None => None,
    };
    DeepseekV4Attention {
        wq_a: matrix_shape(&a.wq_a),
        q_norm: a.q_norm.len(),
        wq_b: matrix_shape(&a.wq_b),
        wkv: matrix_shape(&a.wkv),
        kv_norm: a.kv_norm.len(),
        wo_a: matrix_shape(&a.wo_a),
        wo_b: matrix_shape(&a.wo_b),
        attn_sink: a.attn_sink.len(),
        compressor,
        indexer,
    }
}

/// The shapes of an expert.
pub open spec fn expert_shape(e: HostExpert) -> DeepseekV4Expert {
    DeepseekV4Expert { w1: shape_of(e.w1), w2: shape_of(e.w2), w3: shape_of(e.w3) }
}

fn describe_expert(e: &HostExpert) -> (shape: DeepseekV4Expert)
    ensures
        shape == expert_shape(*e),
{
    DeepseekV4Expert {
        w1: matrix_shape(&e.w1),
        w2: matrix_shape(&e.w2),
        w3: matrix_shape(&e.w3),
    }
}

/// The block has the shapes of the weights.
pub open spec fn describes_moe(block: DeepseekV4MoeBlock, m: HostMoeBlock) -> bool {
    &&& block.gate_weight == shape_of(m.gate_weight)
    &&& block.gate_bias == match m.gate_bias {
        Some(v) => Some(v@.len() as usize),
        None => None,
    }
    &&& block.gate_tid2eid == match m.gate_tid2eid {
        Some(v) => Some(v@.len() as usize),
        None => None,
    }
    &&& block.experts@ == Seq::new(m.experts@.len(), |i: int| expert_shape(m.experts@[i]))
    &&& block.shared_experts == match m.shared_experts {
        Some(e) => Some(expert_shape(e)),
        None => None,
    }
}

fn describe_moe(m: &HostMoeBlock) -> (block: DeepseekV4MoeBlock)
    ensures
        describes_moe(block, *m),
{
    let mut experts: Vec<DeepseekV4Expert> = Vec::new();
    let mut i: usize = 0;
    while i < m.experts.len()
        invariant
            i <= m.experts@.len(),
            experts@ == Seq::new(i as nat, |k: int| expert_shape(m.experts@[k])),
        decreases m.experts@.len() - i,
    {
        experts.push(describe_expert(&m.experts[i]));
        i = i + 1;
        proof {
            assert(experts@ =~= Seq::new(i as nat, |k: int| expert_shape(m.experts@[k])));
        }
    }
    DeepseekV4MoeBlock {
        gate_weight: matrix_shape(&m.gate_weight),
        gate_bias: match &m.gate_bias {
            Some(v) => Some(v.len()),
            None => None,
        },
        gate_tid2eid: match &m.gate_tid2eid {
            Some(v) => Some(v.len()),
            None => None,
        },
        experts,
        shared_experts: match &m.shared_experts {
            Some(e) => Some(describe_expert(e)),
            None => None,
        },
    }
}

/// The layer has the shapes of the weights.
pub open spec fn describes(layer: DeepseekLayer, l: HostLayer) -> bool {
    &&& layer.attn_norm == l.attn_norm@.len()
    &&& layer.hc_attn == hyper_shape(l.hc_attn)
    &&& layer.attention == attention_shape(l.attention)
    &&& layer.ffn_norm == l.ffn_norm@.len()
    &&& layer.hc_ffn == hyper_shape(l.hc_ffn)
    &&& describes_moe(layer.ffn, l.ffn)
}

/// The layers have the shapes of the weights.
pub open spec fn describes_all(layers: Seq<DeepseekLayer>, host: Seq<HostLayer>) -> bool {
    &&& layers.len() == host.len()
    &&& forall|i: int| 0 <= i < host.len() ==> describes(#[trigger] layers[i], host[i])
}

/// The shapes of all layers.
pub fn describe_layers(host: &Vec<HostLayer>) -> (layers: Vec<DeepseekLayer>)
    ensures
        describes_all(layers@, host@),
{
    let mut layers: Vec<DeepseekLayer> = Vec::new();
    let mut i: usize = 0;
    while i < host.len()
        invariant
            i <= host@.len(),
            layers@.len() == i,
            forall|k: int| 0 <= k < i ==> describes(#[trigger] layers@[k], host@[k]),
        decreases host@.len() - i,
    {
        let l = &host[i];
        layers.push(
            DeepseekLayer {
                attn_norm: l.attn_norm.len(),
                hc_attn: describe_hyper(&l.hc_attn),
                attention: describe_attention(&l.attention),
                ffn_norm: l.ffn_norm.len(),
                hc_ffn: describe_hyper(&l.hc_ffn),
                ffn: describe_moe(&l.ffn),
            },
        );
        i = i + 1;
    }
    layers
}

/// Names of the tensors of a checkpoint.
pub struct CheckpointNames {
    pub embed_tokens: String,
    pub lm_head: String,
    pub norm: String,
    pub head_hc: HyperConnectionNames,
    pub layers: Vec<LayerNames>,
}

/// The texts that say which weights are loaded.
#[derive(Clone, Copy, Debug)]
pub struct LoadSwitches<'a> {
    /// The reference model computes the logits.
    pub real_reference: Option<&'a str>,
    /// The layers are loaded.
    pub load_layers: Option<&'a str>,
}

/// The weights outside the layers.
pub struct HostTopLevel {
    pub embed_tokens: HostMatrix,
    pub lm_head: HostMatrix,
    pub norm: Vec<u16>,
}

/// A model and the weights that go to its device.
pub struct LoadedModel {
    pub model: DeepseekModel,
    pub top_level: Option<HostTopLevel>,
    pub layers: Option<HostLayers>,
}

/// Why a model cannot be made from a checkpoint.
#[derive(Clone, Copy, Debug, PartialEq, Eq, Structural)]
pub enum CheckpointError {
    Model(ModelError),
    Load(LoadError),
    /// A file holds no shard; its place among the files.
    Shard(usize),
    /// There are names for another number of layers than the model has.
    LayerCount,
    /// The shards of a layer's attention are not those that the tensor group asks
    /// for; the layer's index.
    AttentionCuts(usize),
}

/// Why a whole matrix cannot be used, if it cannot: it cannot be loaded, or it
/// has the wrong shape.
pub open spec fn sized_matrix_fault(
    shards: Seq<SafeTensors<'_>>,
    map: WeightMap,
    name: Seq<char>,
    rows: usize,
    cols: usize,
    e: ModelError,
) -> Option<CheckpointError> {
    match matrix_fault(shards, map, name, whole()) {
        Some(f) => Some(CheckpointError::Load(f)),
        None => {
            let t = found_tensor(shards, map, name)->Ok_0;
            if t.1[0] != rows || logical_cols(t) != cols {
                Some(CheckpointError::Model(e))
            } else {
                None
            }
        },
    }
}

/// Why the final norm cannot be used, if it cannot.
pub open spec fn norm_fault(
    shards: Seq<SafeTensors<'_>>,
    map: WeightMap,
    name: Seq<char>,
    len: usize,
) -> Option<CheckpointError> {
    match vector_fault(shards, map, name) {
        Some(f) => Some(CheckpointError::Load(f)),
        None => if found_tensor(shards, map, name)->Ok_0.1[0] != len {
            Some(CheckpointError::Model(ModelError::NormLength))
        } else {
            None
        },
    }
}

/// Why the weights outside the layers cannot be used, if they cannot.
pub open spec fn top_level_fault(
    config: DeepseekRuntimeConfig,
    shards: Seq<SafeTensors<'_>>,
    map: WeightMap,
    names: CheckpointNames,
) -> Option<CheckpointError> {
    let vocab_size = config.spec.vocab_size;
    let hidden_size = config.spec.hidden_size;
    match sized_matrix_fault(
        shards,
        map,
        names.embed_tokens@,
        vocab_size,
        hidden_size,
        ModelError::EmbeddingShape,
    ) {
        Some(e) => Some(e),
        None => match sized_matrix_fault(
            shards,
            map,
            names.lm_head@,
            vocab_size,
            hidden_size,
            ModelError::HeadShape,
        ) {
            Some(e) => Some(e),
            None => norm_fault(shards, map, names.norm@, hidden_size),
        },
    }
}

/// Why the layers cannot be loaded, if they cannot: each rank loads the experts of
/// its own.
pub open spec fn all_layers_fault(
    config: DeepseekRuntimeConfig,
    shards: Seq<SafeTensors<'_>>,
    map: WeightMap,
    names: CheckpointNames,
) -> Option<LoadError> {
    first(
        hyper_fault(shards, map, names.head_hc),
        layers_fault(shards, map, names.layers@, config.ep, names.layers@.len() as int),
    )
}

/// The first layer from `from` on whose shards of attention are not those that the
/// group asks for; the number of layers when all are.
pub open spec fn first_miscut(tp: TpConfig, layers: Seq<LayerNames>, from: nat) -> nat
    decreases layers.len() - from,
{
    if from >= layers.len() || !are_cut(group_cuts(tp), layers[from as int].attn_shards) {
        from
    } else {
        first_miscut(tp, layers, from + 1)
    }
}

/// Why the names do not fit the model, if they do not.
pub open spec fn names_fault(config: DeepseekRuntimeConfig, names: CheckpointNames) -> Option<
    CheckpointError,
> {
    let miscut = first_miscut(config.tp, names.layers@, 0);
    if names.layers@.len() != config.spec.num_hidden_layers {
        Some(CheckpointError::LayerCount)
    } else if miscut < names.layers@.len() {
        Some(CheckpointError::AttentionCuts(miscut as usize))
    } else {
        None
    }
}

proof fn lemma_no_miscut(tp: TpConfig, layers: Seq<LayerNames>, from: nat)
    requires
        first_miscut(tp, layers, from) == layers.len(),
    ensures
        forall|i: int|
            from <= i < layers.len() ==> are_cut(
                group_cuts(tp),
                (#[trigger] layers[i]).attn_shards,
            ),
    decreases layers.len() - from,
{
    if from < layers.len() {
        lemma_no_miscut(tp, layers, from + 1);
    }
}

fn test_names(config: &DeepseekRuntimeConfig, names: &CheckpointNames) -> (fault: Option<
    CheckpointError,
>)
    ensures
        fault == names_fault(*config, *names),
        fault is None ==> forall|i: int|
            0 <= i < names.layers@.len() ==> layer_ok(#[trigger] names.layers@[i]),
{
    if names.layers.len() != config.spec.num_hidden_layers {
        return Some(CheckpointError::LayerCount);
    }
    let cuts = attention_cuts(&config.tp);
    let mut i: usize = 0;
    while i < names.layers.len()
        invariant
            i <= names.layers@.len(),
            names.layers@.len() == config.spec.num_hidden_layers,
            cuts == group_cuts(config.tp),
            first_miscut(config.tp, names.layers@, 0) == first_miscut(
                config.tp,
                names.layers@,
                i as nat,
            ),
        decreases names.layers@.len() - i,
    {
        if !test_cuts(&cuts, &names.layers[i].attn_shards) {
            return Some(CheckpointError::AttentionCuts(i));
        }
        i = i + 1;
    }
    proof {
        lemma_no_miscut(config.tp, names.layers@, 0);
    }
    None
}

/// Why a model cannot be made, if it cannot. With the reference model, the
/// weights outside the layers are not needed.
pub open spec fn checkpoint_fault(
    config: DeepseekRuntimeConfig,
    q: LoadSwitches<'_>,
    shards: Seq<SafeTensors<'_>>,
    map: WeightMap,
    names: CheckpointNames,
) -> Option<CheckpointError> {
    match (scope_fault(config), switch_state(q.real_reference)) {
        (Some(e), _) => Some(CheckpointError::Model(e)),
        (None, Err(e)) => Some(CheckpointError::Model(ModelError::Switch(e))),
        (None, Ok(reference)) => {
            let top = if reference {
                None
            } else {
                top_level_fault(config, shards, map, names)
            };
            match (top, switch_state(q.load_layers)) {
                (Some(e), _) => Some(e),
                (None, Err(e)) => Some(CheckpointError::Model(ModelError::Switch(e))),
                (None, Ok(false)) => None,
                (None, Ok(true)) => match names_fault(config, names) {
                    Some(e) => Some(e),
                    None => match all_layers_fault(config, shards, map, names) {
                        Some(e) => Some(CheckpointError::Load(e)),
                        None => None,
                    },
                },
            }
        },
    }
}

/// The weights outside the layers were loaded, and the model has their shapes.
pub open spec fn has_top_level(
    l: LoadedModel,
    shards: Seq<SafeTensors<'_>>,
    map: WeightMap,
    names: CheckpointNames,
) -> bool {
    &&& l.top_level matches Some(t)
    &&& is_matrix(t.embed_tokens, shards, map, names.embed_tokens@, whole())
    &&& is_matrix(t.lm_head, shards, map, names.lm_head@, whole())
    &&& is_vector(t.norm, shards, map, names.norm@)
    &&& l.model.embed_tokens == Some(shape_of(t.embed_tokens))
    &&& l.model.lm_head == Some(shape_of(t.lm_head))
    &&& l.model.norm == Some(t.norm@.len() as usize)
}

/// All layers of the model were loaded, and the model has their shapes.
pub open spec fn has_layers(
    l: LoadedModel,
    config: DeepseekRuntimeConfig,
    shards: Seq<SafeTensors<'_>>,
    map: WeightMap,
    names: CheckpointNames,
) -> bool {
    &&& l.layers matches Some(h)
    &&& is_hyper(h.head_hc, shards, map, names.head_hc)
    &&& h.layers@.len() == names.layers@.len() == config.spec.num_hidden_layers
    &&& forall|i: int|
        0 <= i < names.layers@.len() ==> is_layer(
            #[trigger] h.layers@[i],
            shards,
            map,
            names.layers@[i],
            config.ep,
        )
    &&& l.model.head_hc == Some(hyper_shape(h.head_hc))
    &&& describes_all(l.model.layers@, h.layers@)
}

/// The model that a checkpoint gives.
pub open spec fn is_loaded(
    l: LoadedModel,
    config: DeepseekRuntimeConfig,
    q: LoadSwitches<'_>,
    shards: Seq<SafeTensors<'_>>,
    map: WeightMap,
    names: CheckpointNames,
) -> bool {
    &&& l.model.config == config
    &&& l.model.has_reference == (switch_state(q.real_reference) == Ok::<bool, SwitchError>(true))
    &&& if l.model.has_reference {
        &&& l.top_level is None
        &&& l.model.embed_tokens is None
        &&& l.model.lm_head is None
        &&& l.model.norm is None
    } else {
        has_top_level(l, shards, map, names)
    }
    &&& if switch_state(q.load_layers) == Ok::<bool, SwitchError>(true) {
        has_layers(l, config, shards, map, names)
    } else {
        &&& l.layers is None
        &&& l.model.head_hc is None
        &&& l.model.layers@.len() == 0
    }
}

/// A model of the configuration was made from these shards, or there is a reason
/// why not.
pub open spec fn is_made(
    r: Result<LoadedModel, CheckpointError>,
    config: DeepseekRuntimeConfig,
    q: LoadSwitches<'_>,
    shards: Seq<SafeTensors<'_>>,
    map: WeightMap,
    names: CheckpointNames,
) -> bool {
    match r {
        Err(e) => checkpoint_fault(config, q, shards, map, names) == Some(e),
        Ok(l) => {
            &&& checkpoint_fault(config, q, shards, map, names) is None
            &&& is_loaded(l, config, q, shards, map, names)
        },
    }
}

/// What is wrong before any file is opened, if anything is: with the reference
/// model the files are opened for the layers alone.
pub open spec fn opening_fault(config: DeepseekRuntimeConfig, q: LoadSwitches<'_>) -> Option<
    CheckpointError,
> {
    match (scope_fault(config), switch_state(q.real_reference), switch_state(q.load_layers)) {
        (Some(e), _, _) => Some(CheckpointError::Model(e)),
        (None, Err(e), _) => Some(CheckpointError::Model(ModelError::Switch(e))),
        (None, Ok(true), Err(e)) => Some(CheckpointError::Model(ModelError::Switch(e))),
        _ => None,
    }
}

/// The files have to be opened: only the reference model without layers needs
/// none of them.
pub open spec fn reads_files(q: LoadSwitches<'_>) -> bool {
    !(switch_state(q.real_reference) == Ok::<bool, SwitchError>(true) && switch_state(q.load_layers)
        == Ok::<bool, SwitchError>(false))
}

/// The model is the reference model alone: nothing was loaded here.
pub open spec fn is_reference_alone(l: LoadedModel, config: DeepseekRuntimeConfig) -> bool {
    &&& l.model.config == config
    &&& l.model.has_reference
    &&& l.top_level is None
    &&& l.layers is None
    &&& l.model.embed_tokens is None
    &&& l.model.lm_head is None
    &&& l.model.norm is None
    &&& l.model.head_hc is None
    &&& l.model.layers@.len() == 0
}

/// The model that the files of a checkpoint give: what the opened shards hold
/// decides, unless something is wrong before.
pub open spec fn is_made_from_files(
    r: Result<LoadedModel, CheckpointError>,
    config: DeepseekRuntimeConfig,
    q: LoadSwitches<'_>,
    files: Seq<&[u8]>,
    names: CheckpointNames,
) -> bool {
    let unreadable = first_unreadable(files, 0);
    match opening_fault(config, q) {
        Some(e) => r == Err::<LoadedModel, CheckpointError>(e),
        None => if !reads_files(q) {
            r matches Ok(l) && is_reference_alone(l, config)
        } else if unreadable < files.len() {
            r == Err::<LoadedModel, CheckpointError>(CheckpointError::Shard(unreadable as usize))
        } else {
            exists|shards: Seq<SafeTensors<'_>>, map: WeightMap| #[trigger]
                are_opened(shards, map, files) && is_made(r, config, q, shards, map, names)
        },
    }
}

/// A matrix that was loaded as a whole has the shape of its tensor.
pub proof fn law_whole_matrices_keep_their_shape(
    m: HostMatrix,
    shards: Seq<SafeTensors<'_>>,
    map: WeightMap,
    name: Seq<char>,
)
    requires
        is_matrix(m, shards, map, name, whole()),
    ensures
        found_tensor(shards, map, name) is Ok,
        shape_of(m).rows == found_tensor(shards, map, name)->Ok_0.1[0],
        shape_of(m).cols == logical_cols(found_tensor(shards, map, name)->Ok_0),
{
}

fn load_sized(
    shards: &[SafeTensors<'_>],
    weight_map: &WeightMap,
    name: &str,
    rows: usize,
    cols: usize,
    e: ModelError,
) -> (r: Result<HostMatrix, CheckpointError>)
    requires
        weight_map.wf(),
        map_names_shards(*weight_map, shards@),
    ensures
        match r {
            Err(f) => sized_matrix_fault(shards@, *weight_map, name@, rows, cols, e) == Some(f),
            Ok(m) => {
                &&& sized_matrix_fault(shards@, *weight_map, name@, rows, cols, e) is None
                &&& is_matrix(m, shards@, *weight_map, name@, whole())
                &&& shape_of(m).rows == rows
                &&& shape_of(m).cols == cols
            },
        },
{
    match load_dsv4_matrix_raw(shards, weight_map, name) {
        Ok(m) => {
            proof {
                law_whole_matrices_keep_their_shape(m, shards@, *weight_map, name@);
            }
            let shape: MatrixShape = matrix_shape(&m);
            if shape.rows != rows || shape.cols != cols {
                return Err(CheckpointError::Model(e));
            }
            Ok(m)
        },
        Err(f) => Err(CheckpointError::Load(f)),
    }
}

fn load_top_level(
    config: &DeepseekRuntimeConfig,
    shards: &[SafeTensors<'_>],
    weight_map: &WeightMap,
    names: &CheckpointNames,
) -> (r: Result<HostTopLevel, CheckpointError>)
    requires
        weight_map.wf(),
        map_names_shards(*weight_map, shards@),
    ensures
        match r {
            Err(e) => top_level_fault(*config, shards@, *weight_map, *names) == Some(e),
            Ok(t) => {
                &&& top_level_fault(*config, shards@, *weight_map, *names) is None
                &&& is_matrix(
                    t.embed_tokens,
                    shards@,
                    *weight_map,
                    names.embed_tokens@,
                    whole(),
                )
                &&& is_matrix(t.lm_head, shards@, *weight_map, names.lm_head@, whole())
                &&& is_vector(t.norm, shards@, *weight_map, names.norm@)
                &&& shape_of(t.embed_tokens).rows == config.spec.vocab_size
                &&& shape_of(t.embed_tokens).cols == config.spec.hidden_size
                &&& shape_of(t.lm_head).rows == config.spec.vocab_size
                &&& shape_of(t.lm_head).cols == config.spec.hidden_size
                &&& t.norm@.len() == config.spec.hidden_size
            },
        },
{
    let vocab_size: usize = config.spec.vocab_size;
    let hidden_size: usize = config.spec.hidden_size;
    let embed_tokens: HostMatrix = match load_sized(
        shards,
        weight_map,
        names.embed_tokens.as_str(),
        vocab_size,
        hidden_size,
        ModelError::EmbeddingShape,
    ) {
        Ok(m) => m,
        Err(e) => {
            return Err(e);
        },
    };
    let lm_head: HostMatrix = match load_sized(
        shards,
        weight_map,
        names.lm_head.as_str(),
        vocab_size,
        hidden_size,
        ModelError::HeadShape,
    ) {
        Ok(m) => m,
        Err(e) => {
            return Err(e);
        },
    };
    let norm: Vec<u16> = match load_dsv4_vec_bf16(shards, weight_map, names.norm.as_str()) {
        Ok(v) => v,
        Err(e) => {
            return Err(CheckpointError::Load(e));
        },
    };
    if norm.len() != hidden_size {
        return Err(CheckpointError::Model(ModelError::NormLength));
    }
    Ok(HostTopLevel { embed_tokens, lm_head, norm })
}

impl DeepseekModel {
    /// Makes a model from the files of a checkpoint. The files are taken as they
    /// are: nothing is held against the checkpoint's manifest.
    pub fn from_safetensors(
        config: DeepseekRuntimeConfig,
        q: &LoadSwitches<'_>,
        files: &Vec<&[u8]>,
        names: &CheckpointNames,
    ) -> (r: Result<LoadedModel, CheckpointError>)
        ensures
            is_made_from_files(r, config, *q, files@, *names),
    {
        let mut model: DeepseekModel = match DeepseekModel::from_config(config) {
            Ok(model) => model,
            Err(e) => {
                return Err(CheckpointError::Model(e));
            },
        };
        let reference: bool = match switch_enabled(q.real_reference) {
            Ok(on) => on,
            Err(e) => {
                return Err(CheckpointError::Model(ModelError::Switch(e)));
            },
        };
        if reference {
            match switch_enabled(q.load_layers) {
                Ok(true) => {},
                Ok(false) => {
                    model.has_reference = true;
                    return Ok(LoadedModel { model, top_level: None, layers: None });
                },
                Err(e) => {
                    return Err(CheckpointError::Model(ModelError::Switch(e)));
                },
            }
        }
        let (shards, map) = match open_shards(files) {
            Ok(opened) => opened,
            Err(e) => {
                return Err(CheckpointError::Shard(e.file));
            },
        };
        proof {
            assert(shards.len() <= usize::MAX);
            law_opened_maps_name_holders(shards@, map, files@);
        }
        let r = DeepseekModel::from_shards(model.config, q, shards.as_slice(), &map, names);
        proof {
            assert(are_opened(shards@, map, files@));
        }
        r
    }

    /// Makes a model from the opened shards of a checkpoint.
    pub fn from_shards(
        config: DeepseekRuntimeConfig,
        q: &LoadSwitches<'_>,
        shards: &[SafeTensors<'_>],
        weight_map: &WeightMap,
        names: &CheckpointNames,
    ) -> (r: Result<LoadedModel, CheckpointError>)
        requires
            weight_map.wf(),
            map_names_shards(*weight_map, shards@),
        ensures
            is_made(r, config, *q, shards@, *weight_map, *names),
    {
        let mut model: DeepseekModel = match DeepseekModel::from_config(config) {
            Ok(model) => model,
            Err(e) => {
                return Err(CheckpointError::Model(e));
            },
        };
        let reference: bool = match switch_enabled(q.real_reference) {
            Ok(on) => on,
            Err(e) => {
                return Err(CheckpointError::Model(ModelError::Switch(e)));
            },
        };
        let mut top_level: Option<HostTopLevel> = None;
        if reference {
            model.has_reference = true;
        } else {
            let top: HostTopLevel = match load_top_level(
                &model.config,
                shards,
                weight_map,
                names,
            ) {
                Ok(top) => top,
                Err(e) => {
                    return Err(e);
                },
            };
            match model.attach_top_level(
                matrix_shape(&top.embed_tokens),
                matrix_shape(&top.lm_head),
                top.norm.len(),
            ) {
                Ok(_) => {},
                Err(e) => {
                    return Err(CheckpointError::Model(e));
                },
            }
            top_level = Some(top);
        }
        let load_layers: bool = match switch_enabled(q.load_layers) {
            Ok(on) => on,
            Err(e) => {
                return Err(CheckpointError::Model(ModelError::Switch(e)));
            },
        };
        if !load_layers {
            return Ok(LoadedModel { model, top_level, layers: None });
        }
        if let Some(e) = test_names(&model.config, names) {
            return Err(e);
        }
        let ep: ExpertGroup = model.config.ep;
        match load_layer_weights(shards, weight_map, &names.head_hc, &names.layers, &ep) {
            Ok(host) => {
                model.attach_layers(describe_hyper(&host.head_hc), describe_layers(&host.layers));
                Ok(LoadedModel { model, top_level, layers: Some(host) })
            },
            Err(e) => Err(CheckpointError::Load(e)),
        }
    }
}

} // verus!
