//! What a model promises of the checkpoint that it was made from: its shapes are
//! those of the weights, a tensor comes from the last file that holds it, and
//! nothing is missing that was asked for.

use safetensors::SafeTensors;
use vstd::prelude::*;

use crate::model::deepseek::checkpoint::{
    all_layers_fault, checkpoint_fault, describes, first_miscut, is_made, is_made_from_files,
    names_fault, opening_fault, reads_files, shape_of, top_level_fault, CheckpointError,
    CheckpointNames, LoadSwitches, LoadedModel,
};
use crate::model::deepseek::config::{DeepseekRuntimeConfig, TpConfig};
use crate::model::deepseek::layer::DeepseekLayer;
use crate::model::deepseek::load::{tp_shard, HostMatrix};
use crate::model::deepseek::loaders::{
    are_cut, group_cuts, is_hyper, is_layer, is_matrix, is_vector, HostLayer, LayerNames,
};
use crate::model::deepseek::switches::{switch_state, SwitchError};
use crate::model::deepseek::tensor::{
    are_opened, first_holder, first_unreadable, found_tensor, is_readable, last_holder,
    shard_tensors, LoadError, TensorContents, WeightMap,
};
use crate::model::deepseek::weights::scope_fault;

verus! {

/// The shape of a matrix has its rows and columns and its format; it has scales
/// exactly where its values do.
pub proof fn law_shapes_are_those_of_the_weights(m: HostMatrix)
    ensures
        m matches HostMatrix::Dense(d) ==> {
            &&& shape_of(m).rows == d.rows
            &&& shape_of(m).cols == d.cols
            &&& shape_of(m).format is Dense
            &&& !shape_of(m).has_values && !shape_of(m).has_scales
            &&& shape_of(m).scale_rows == shape_of(m).scale_cols == 0
        },
        m matches HostMatrix::BlockScaled(b) ==> {
            &&& shape_of(m).rows == b.rows
            &&& shape_of(m).cols == b.cols
            &&& shape_of(m).scale_rows == b.scales.rows
            &&& shape_of(m).scale_cols == b.scales.cols
            &&& shape_of(m).has_values && shape_of(m).has_scales
            &&& shape_of(m).format is Dsv4Fp8BlockScaled <==> b.format is Fp8
            &&& shape_of(m).format is Dsv4Fp4BlockScaled <==> b.format is Fp4
        },
{
}

/// A layer of the model has the shape of each part of its weights, expert by
/// expert, and an optional part exactly where the weights have it.
pub proof fn law_layers_have_the_shapes_of_their_weights(layer: DeepseekLayer, l: HostLayer)
    requires
        describes(layer, l),
    ensures
        layer.attn_norm == l.attn_norm@.len(),
        layer.ffn_norm == l.ffn_norm@.len(),
        layer.hc_attn.mix_fn == shape_of(l.hc_attn.mix_fn),
        layer.hc_attn.base == l.hc_attn.base@.len(),
        layer.hc_attn.scale == l.hc_attn.scale@.len(),
        layer.hc_ffn.mix_fn == shape_of(l.hc_ffn.mix_fn),
        layer.hc_ffn.base == l.hc_ffn.base@.len(),
        layer.hc_ffn.scale == l.hc_ffn.scale@.len(),
        layer.attention.wq_a == shape_of(l.attention.wq_a),
        layer.attention.wq_b == shape_of(l.attention.wq_b),
        layer.attention.wkv == shape_of(l.attention.wkv),
        layer.attention.wo_a == shape_of(l.attention.wo_a),
        layer.attention.wo_b == shape_of(l.attention.wo_b),
        layer.attention.q_norm == l.attention.q_norm@.len(),
        layer.attention.kv_norm == l.attention.kv_norm@.len(),
        layer.attention.attn_sink == l.attention.attn_sink@.len(),
        layer.attention.compressor is Some <==> l.attention.compressor is Some,
        layer.attention.compressor matches Some(c) ==> {
            let h = l.attention.compressor->Some_0;
            &&& c.wkv == shape_of(h.wkv)
            &&& c.wgate == shape_of(h.wgate)
            &&& c.ape == shape_of(h.ape)
            &&& c.norm == h.norm@.len()
        },
        layer.attention.indexer is Some <==> l.attention.indexer is Some,
        layer.attention.indexer matches Some(x) ==> {
            let h = l.attention.indexer->Some_0;
            &&& x.wq_b == shape_of(h.wq_b)
            &&& x.weights_proj == shape_of(h.weights_proj)
            &&& x.compressor.wkv == shape_of(h.compressor.wkv)
            &&& x.compressor.wgate == shape_of(h.compressor.wgate)
            &&& x.compressor.ape == shape_of(h.compressor.ape)
            &&& x.compressor.norm == h.compressor.norm@.len()
        },
        layer.ffn.gate_weight == shape_of(l.ffn.gate_weight),
        layer.ffn.gate_bias is Some <==> l.ffn.gate_bias is Some,
        layer.ffn.gate_bias matches Some(n) ==> n == l.ffn.gate_bias->Some_0@.len(),
        layer.ffn.gate_tid2eid is Some <==> l.ffn.gate_tid2eid is Some,
        layer.ffn.gate_tid2eid matches Some(n) ==> n == l.ffn.gate_tid2eid->Some_0@.len(),
        layer.ffn.experts@.len() == l.ffn.experts@.len(),
        forall|i: int|
            0 <= i < l.ffn.experts@.len() ==> {
                let e = #[trigger] layer.ffn.experts@[i];
                &&& e.w1 == shape_of(l.ffn.experts@[i].w1)
                &&& e.w2 == shape_of(l.ffn.experts@[i].w2)
                &&& e.w3 == shape_of(l.ffn.experts@[i].w3)
            },
        layer.ffn.shared_experts is Some <==> l.ffn.shared_experts is Some,
        layer.ffn.shared_experts matches Some(e) ==> {
            let h = l.ffn.shared_experts->Some_0;
            &&& e.w1 == shape_of(h.w1)
            &&& e.w2 == shape_of(h.w2)
            &&& e.w3 == shape_of(h.w3)
        },
{
    assert(l.hc_attn.base.len() == l.hc_attn.base@.len());
    assert(l.hc_attn.scale.len() == l.hc_attn.scale@.len());
    assert(l.hc_ffn.base.len() == l.hc_ffn.base@.len());
    assert(l.hc_ffn.scale.len() == l.hc_ffn.scale@.len());
    assert(l.attention.q_norm.len() == l.attention.q_norm@.len());
    assert(l.attention.kv_norm.len() == l.attention.kv_norm@.len());
    assert(l.attention.attn_sink.len() == l.attention.attn_sink@.len());
    if let Some(h) = l.attention.compressor {
        assert(h.norm.len() == h.norm@.len());
    }
    if let Some(h) = l.attention.indexer {
        assert(h.compressor.norm.len() == h.compressor.norm@.len());
    }
    if let Some(v) = l.ffn.gate_bias {
        assert(v.len() == v@.len());
    }
    if let Some(v) = l.ffn.gate_tid2eid {
        assert(v.len() == v@.len());
    }
}

/// The layer that is reported is the first whose attention is not divided as the
/// group asks; none is reported exactly where all are.
pub proof fn law_the_first_miscut_layer_is_reported(
    tp: TpConfig,
    layers: Seq<LayerNames>,
    from: nat,
)
    requires
        from <= layers.len(),
    ensures
        ({
            let at = first_miscut(tp, layers, from);
            &&& from <= at <= layers.len()
            &&& forall|i: int|
                from <= i < at ==> are_cut(group_cuts(tp), (#[trigger] layers[i]).attn_shards)
            &&& at < layers.len() ==> !are_cut(group_cuts(tp), layers[at as int].attn_shards)
        }),
    decreases layers.len() - from,
{
    if from < layers.len() && are_cut(group_cuts(tp), layers[from as int].attn_shards) {
        law_the_first_miscut_layer_is_reported(tp, layers, from + 1);
    }
}

/// The names fit exactly where there are those of every layer of the model and the
/// attention of each is divided as the group asks.
pub proof fn law_names_fit_every_layer(config: DeepseekRuntimeConfig, names: CheckpointNames)
    ensures
        names_fault(config, names) is None <==> {
            &&& names.layers@.len() == config.spec.num_hidden_layers
            &&& forall|i: int|
                0 <= i < names.layers@.len() ==> are_cut(
                    group_cuts(config.tp),
                    (#[trigger] names.layers@[i]).attn_shards,
                )
        },
{
    law_the_first_miscut_layer_is_reported(config.tp, names.layers@, 0);
}

/// A model is made exactly where the configuration is served, both switches can be
/// read, and what they ask for is there: the weights outside the layers without the
/// reference model, and all layers where they are switched on.
pub proof fn law_models_are_made_where_nothing_is_missing(
    config: DeepseekRuntimeConfig,
    q: LoadSwitches<'_>,
    shards: Seq<SafeTensors<'_>>,
    map: WeightMap,
    names: CheckpointNames,
)
    ensures
        checkpoint_fault(config, q, shards, map, names) is None <==> {
            &&& scope_fault(config) is None
            &&& switch_state(q.real_reference) is Ok
            &&& switch_state(q.load_layers) is Ok
            &&& switch_state(q.real_reference) == Ok::<bool, SwitchError>(false)
                ==> top_level_fault(config, shards, map, names) is None
            &&& switch_state(q.load_layers) == Ok::<bool, SwitchError>(true) ==> names_fault(
                config,
                names,
            ) is None && all_layers_fault(config, shards, map, names) is None
        },
{
}

/// A model has the embeddings, the head and the norm of their own names, each with
/// its shape, unless the reference model computes; and it has every layer, in order,
/// exactly where layers are switched on.
pub proof fn law_models_hold_what_was_named(
    l: LoadedModel,
    config: DeepseekRuntimeConfig,
    q: LoadSwitches<'_>,
    shards: Seq<SafeTensors<'_>>,
    map: WeightMap,
    names: CheckpointNames,
)
    requires
        is_made(Ok(l), config, q, shards, map, names),
    ensures
        l.model.config == config,
        l.model.has_reference <==> switch_state(q.real_reference) == Ok::<bool, SwitchError>(true),
        l.top_level is None <==> l.model.has_reference,
        l.top_level matches Some(t) ==> {
            &&& is_matrix(t.embed_tokens, shards, map, names.embed_tokens@, tp_shard(None))
            &&& is_matrix(t.lm_head, shards, map, names.lm_head@, tp_shard(None))
            &&& is_vector(t.norm, shards, map, names.norm@)
            &&& l.model.embed_tokens == Some(shape_of(t.embed_tokens))
            &&& l.model.lm_head == Some(shape_of(t.lm_head))
            &&& l.model.norm is Some
        },
        l.layers is Some <==> switch_state(q.load_layers) == Ok::<bool, SwitchError>(true),
        l.layers is None ==> l.model.layers@.len() == 0 && l.model.head_hc is None,
        l.layers matches Some(h) ==> {
            &&& is_hyper(h.head_hc, shards, map, names.head_hc)
            &&& l.model.head_hc matches Some(hc) && hc.mix_fn == shape_of(h.head_hc.mix_fn)
            &&& l.model.layers@.len() == h.layers@.len() == names.layers@.len()
                == config.spec.num_hidden_layers
            &&& forall|i: int|
                0 <= i < names.layers@.len() ==> {
                    &&& is_layer(
                        #[trigger] h.layers@[i],
                        shards,
                        map,
                        names.layers@[i],
                        config.ep,
                    )
                    &&& describes(l.model.layers@[i], h.layers@[i])
                }
        },
{
}

/// Files are opened exactly where something is loaded from them, and nothing is
/// opened where it is known before that no model can be made.
pub proof fn law_files_are_opened_where_they_are_needed(
    config: DeepseekRuntimeConfig,
    q: LoadSwitches<'_>,
)
    ensures
        opening_fault(config, q) is None ==> scope_fault(config) is None && switch_state(
            q.real_reference,
        ) is Ok,
        opening_fault(config, q) is None && !reads_files(q) ==> switch_state(q.real_reference)
            == Ok::<bool, SwitchError>(true) && switch_state(q.load_layers) == Ok::<
            bool,
            SwitchError,
        >(false),
        switch_state(q.real_reference) == Ok::<bool, SwitchError>(false) ==> reads_files(q),
        switch_state(q.load_layers) == Ok::<bool, SwitchError>(true) ==> reads_files(q),
{
}

proof fn lemma_last_holder_is_last(shards: Seq<SafeTensors<'_>>, name: Seq<char>, n: nat)
    requires
        n <= shards.len() <= usize::MAX,
    ensures
        last_holder(shards, name, n) matches Some(s) ==> {
            &&& s < n
            &&& shard_tensors(shards[s as int]).contains_key(name)
            &&& forall|i: int|
                s < i < n ==> !#[trigger] shard_tensors(shards[i]).contains_key(name)
        },
        last_holder(shards, name, n) is None ==> forall|i: int|
            0 <= i < n ==> !#[trigger] shard_tensors(shards[i]).contains_key(name),
    decreases n,
{
    if n > 0 {
        lemma_last_holder_is_last(shards, name, (n - 1) as nat);
    }
}

/// A tensor of opened files is that of the last file that holds it, and it is
/// missing exactly where none does.
pub proof fn law_tensors_come_from_the_last_file(
    shards: Seq<SafeTensors<'_>>,
    map: WeightMap,
    files: Seq<&[u8]>,
    name: Seq<char>,
)
    requires
        are_opened(shards, map, files),
        shards.len() <= usize::MAX,
    ensures
        found_tensor(shards, map, name) is Ok <==> exists|i: int|
            0 <= i < shards.len() && #[trigger] shard_tensors(shards[i]).contains_key(name),
        forall|i: int|
            0 <= i < shards.len() && #[trigger] shard_tensors(shards[i]).contains_key(name) && (
            forall|j: int|
                i < j < shards.len() ==> !#[trigger] shard_tensors(shards[j]).contains_key(name))
                ==> found_tensor(shards, map, name) == Ok::<TensorContents, LoadError>(
                shard_tensors(shards[i])[name],
            ),
{
    assert(map.shard_of(name) == last_holder(shards, name, shards.len()));
    lemma_last_holder_is_last(shards, name, shards.len());
    law_the_first_holder_is_asked(shards, name, 0);
}

/// A tensor that no map lists is asked of the first shard that holds it.
pub proof fn law_the_first_holder_is_asked(
    shards: Seq<SafeTensors<'_>>,
    name: Seq<char>,
    from: nat,
)
    requires
        from <= shards.len(),
    ensures
        ({
            let at = first_holder(shards, name, from);
            &&& from <= at <= shards.len()
            &&& forall|i: int|
                from <= i < at ==> !#[trigger] shard_tensors(shards[i]).contains_key(name)
            &&& at < shards.len() ==> shard_tensors(shards[at as int]).contains_key(name)
        }),
    decreases shards.len() - from,
{
    if from < shards.len() && !shard_tensors(shards[from as int]).contains_key(name) {
        law_the_first_holder_is_asked(shards, name, from + 1);
    }
}

/// The file that is reported is the first that holds no shard.
pub proof fn law_the_first_unreadable_file_is_reported(files: Seq<&[u8]>, from: nat)
    requires
        from <= files.len(),
    ensures
        ({
            let at = first_unreadable(files, from);
            &&& from <= at <= files.len()
            &&& forall|i: int| from <= i < at ==> is_readable(#[trigger] files[i]@)
            &&& at < files.len() ==> !is_readable(files[at as int]@)
        }),
    decreases files.len() - from,
{
    if from < files.len() && is_readable(files[from as int]@) {
        law_the_first_unreadable_file_is_reported(files, from + 1);
    }
}

/// A model is made from its files: where they are read, none of them is unreadable,
/// and the model is made from the shards that they hold. Where the reference alone
/// is asked for, the model has no weights of its own, whatever the files hold.
pub proof fn law_models_are_made_from_readable_files(
    r: Result<LoadedModel, CheckpointError>,
    config: DeepseekRuntimeConfig,
    q: LoadSwitches<'_>,
    files: Seq<&[u8]>,
    names: CheckpointNames,
)
    requires
        is_made_from_files(r, config, q, files, names),
    ensures
        r is Ok ==> opening_fault(config, q) is None,
        r is Ok && reads_files(q) ==> forall|i: int|
            0 <= i < files.len() ==> is_readable(#[trigger] files[i]@),
        r is Ok && reads_files(q) ==> exists|shards: Seq<SafeTensors<'_>>, map: WeightMap|
            #[trigger] are_opened(shards, map, files) && is_made(r, config, q, shards, map, names),
        opening_fault(config, q) is None && !reads_files(q) ==> (r matches Ok(l) && {
            &&& l.model.config == config
            &&& l.model.has_reference
            &&& l.model.layers@.len() == 0
            &&& l.model.embed_tokens is None && l.model.lm_head is None && l.model.norm is None
            &&& l.top_level is None && l.layers is None
        }),
{
    law_the_first_unreadable_file_is_reported(files, 0);
}

} // verus!
