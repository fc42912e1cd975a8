//! Models made from checkpoints.

use infer::model::deepseek::checkpoint::{
    CheckpointError, CheckpointNames, LoadSwitches, LoadedModel,
};
use infer::model::deepseek::config::{
    AttentionMode, AttentionSummary, DeepseekRuntimeConfig, DeepseekSpec, ExpertGroup, TpConfig,
};
use infer::model::deepseek::device::WeightFormat;
use infer::model::deepseek::load::{Span, TpLoadContext, TpShardAxis};
use infer::model::deepseek::loaders::{
    AttentionNames, AttentionShards, ExpertNames, HyperConnectionNames, LayerNames, MoeNames,
};
use infer::model::deepseek::store::{read_entry_end, test_claims};
use infer::model::deepseek::switches::SwitchError;
use infer::model::deepseek::tensor::{
    deepseek_find_tensor, open_shards, LoadError, UnreadableShard, WeightMap,
};
use infer::model::deepseek::weights::{DeepseekModel, ModelError};
use safetensors::tensor::{serialize, Dtype, TensorView};

fn config() -> DeepseekRuntimeConfig {
    DeepseekRuntimeConfig::from_spec(DeepseekSpec {
        vocab_size: 4,
        hidden_size: 2,
        num_hidden_layers: 1,
        num_attention_heads: 1,
        num_key_value_heads: 1,
        head_dim: 2,
        o_groups: 1,
        qk_rope_head_dim: 2,
        n_routed_experts: 1,
        num_experts_per_tok: 1,
        index_n_heads: 1,
        index_head_dim: 2,
        index_topk: 1,
        sliding_window: 4,
        compress_ratios: vec![0],
        attention_modes: vec![AttentionMode::SlidingWindow],
        attention_summary: AttentionSummary {
            sliding_window_layers: 1,
            csa_layers: 0,
            hca_layers: 0,
        },
        hc_mult: 2,
        hc_sinkhorn_iters: 1,
        max_position_embeddings: 16,
        original_max_position_embeddings: 16,
        eos_token_id: None,
    })
}

fn text(name: &str) -> String {
    name.to_string()
}

fn hyper(prefix: &str) -> HyperConnectionNames {
    HyperConnectionNames { base: text("v"), mix_fn: text("m"), scale: format!("{prefix}.scale") }
}

fn names() -> CheckpointNames {
    CheckpointNames {
        embed_tokens: text("embed"),
        lm_head: text("head"),
        norm: text("v"),
        head_hc: hyper("head"),
        layers: vec![LayerNames {
            attn_norm: text("v"),
            hc_attn: hyper("attn"),
            attn: AttentionNames {
                wq_a: text("m"),
                q_norm: text("v"),
                wq_b: text("m"),
                wkv: text("m"),
                kv_norm: text("v"),
                wo_a: text("m"),
                wo_b: text("m"),
                attn_sink: text("v"),
                compressor: None,
                indexer: None,
            },
            attn_shards: AttentionShards { wq_b: None, wo_a: None, wo_b: None },
            ffn_norm: text("v"),
            hc_ffn: hyper("ffn"),
            ffn: MoeNames {
                experts: vec![ExpertNames {
                    w1: text("q.weight"),
                    w2: text("m"),
                    w3: text("q.weight"),
                }],
                gate_weight: text("m"),
                gate_bias: Some(text("v")),
                gate_tid2eid: None,
                shared_experts: None,
            },
        }],
    }
}

fn shard_file(tensors: &[(&str, TensorView<'_>)]) -> Vec<u8> {
    let listed = tensors.iter().map(|(name, tensor)| (name.to_string(), tensor.clone()));
    serialize(listed.collect::<Vec<_>>(), None).unwrap()
}

fn load(
    names: &CheckpointNames,
    real_reference: Option<&str>,
    load_layers: Option<&str>,
) -> Result<LoadedModel, CheckpointError> {
    load_as(config(), names, real_reference, load_layers)
}

fn load_as(
    config: DeepseekRuntimeConfig,
    names: &CheckpointNames,
    real_reference: Option<&str>,
    load_layers: Option<&str>,
) -> Result<LoadedModel, CheckpointError> {
    let bytes = [1.0f32; 8].iter().flat_map(|x| x.to_le_bytes()).collect::<Vec<_>>();
    let matrix = |rows: usize| {
        TensorView::new(Dtype::F32, vec![rows, 2], &bytes[..rows * 8]).unwrap()
    };
    let vector = || TensorView::new(Dtype::F32, vec![2], &bytes[..8]).unwrap();
    let tensors = vec![
        ("embed", matrix(4)),
        ("head", matrix(4)),
        ("m", matrix(2)),
        ("v", vector()),
        ("long", TensorView::new(Dtype::F32, vec![3], &bytes[..12]).unwrap()),
        ("head.scale", vector()),
        ("attn.scale", vector()),
        ("ffn.scale", vector()),
        ("q.weight", TensorView::new(Dtype::F8_E4M3, vec![2, 2], &bytes[..4]).unwrap()),
        ("q.scale", TensorView::new(Dtype::F8_E8M0, vec![1, 1], &bytes[..1]).unwrap()),
    ];
    let (top, rest) = tensors.split_at(3);
    let files = vec![shard_file(top), shard_file(rest)];
    let files = files.iter().map(|file| &file[..]).collect::<Vec<_>>();
    let q = LoadSwitches { real_reference, load_layers };
    DeepseekModel::from_safetensors(config, &q, &files, names)
}

fn refused(names: &CheckpointNames, load_layers: Option<&str>) -> Option<CheckpointError> {
    load(names, None, load_layers).err()
}

#[test]
fn models_have_the_shapes_of_their_checkpoint() {
    let loaded = load(&names(), None, Some("1")).ok().unwrap();
    let model = &loaded.model;
    let embed = model.embed_tokens.unwrap();
    assert_eq!((embed.format, embed.rows, embed.cols), (WeightFormat::Dense, 4, 2));
    assert_eq!((model.norm, model.has_reference), (Some(2), false));
    assert_eq!(loaded.top_level.unwrap().norm, vec![0x3f80; 2]);
    let head = model.head_hc.unwrap();
    assert_eq!((head.base, head.mix_fn.rows, head.scale), (2, 2, 2));
    assert_eq!(model.loaded_layer_count(), 1);
    let layer = &model.layers[0];
    assert_eq!((layer.attn_norm, layer.attention.attn_sink), (2, 2));
    assert!(layer.attention.compressor.is_none() && layer.attention.indexer.is_none());
    assert_eq!((layer.ffn.gate_bias, layer.ffn.gate_tid2eid), (Some(2), None));
    let w1 = layer.ffn.experts[0].w1;
    assert_eq!((w1.format, w1.rows, w1.cols), (WeightFormat::Dsv4Fp8BlockScaled, 2, 2));
    assert_eq!((w1.scale_rows, w1.scale_cols), (1, 1));
    assert!(w1.has_values && w1.has_scales);
    assert_eq!(loaded.layers.unwrap().layers.len(), 1);
}

#[test]
fn switches_choose_what_is_loaded() {
    let plain = load(&names(), None, None).ok().unwrap();
    assert!(plain.top_level.is_some() && plain.layers.is_none());
    assert!(plain.model.needs_layer_weights() && plain.model.head_hc.is_none());
    let reference = load(&names(), Some("on"), None).ok().unwrap();
    assert!(reference.model.has_reference && reference.model.embed_tokens.is_none());
    assert!(reference.top_level.is_none() && reference.layers.is_none());
    let both = load(&names(), Some("on"), Some("on")).ok().unwrap();
    assert!(both.model.has_reference && both.model.loaded_layer_count() == 1);
    let bad = Some(CheckpointError::Model(ModelError::Switch(SwitchError::InvalidValue)));
    assert_eq!(load(&names(), Some("?"), None).err(), bad);
    assert_eq!(load(&names(), None, Some("?")).err(), bad);
}

#[test]
fn checkpoints_that_do_not_fit_are_refused() {
    let model = |e| Some(CheckpointError::Model(e));
    let missing = Some(CheckpointError::Load(LoadError::MissingTensor));
    let wrong = CheckpointNames { embed_tokens: text("m"), lm_head: text("none"), ..names() };
    assert_eq!(refused(&wrong, None), model(ModelError::EmbeddingShape));
    let wrong = CheckpointNames { lm_head: text("m"), norm: text("none"), ..names() };
    assert_eq!(refused(&wrong, None), model(ModelError::HeadShape));
    let wrong = CheckpointNames { norm: text("long"), ..names() };
    assert_eq!(refused(&wrong, Some("?")), model(ModelError::NormLength));
    let wrong = CheckpointNames { norm: text("m"), ..names() };
    assert_eq!(refused(&wrong, None), Some(CheckpointError::Load(LoadError::NotVector)));
    let wrong = CheckpointNames { lm_head: text("none"), ..names() };
    assert_eq!(refused(&wrong, None), missing);
    assert!(load(&wrong, Some("1"), None).is_ok());
    let wrong = CheckpointNames { head_hc: hyper("none"), ..names() };
    assert_eq!(refused(&wrong, Some("1")), missing);
    assert_eq!(refused(&wrong, Some("0")), None);
    let small = || {
        let mut small = config();
        small.spec.vocab_size = 0;
        small
    };
    let q = LoadSwitches { real_reference: None, load_layers: None };
    let r = DeepseekModel::from_safetensors(small(), &q, &vec![], &names());
    assert_eq!(r.err(), model(ModelError::EmptyVocab));
    let r = DeepseekModel::from_shards(small(), &q, &[], &WeightMap::new(), &names());
    assert_eq!(r.err(), model(ModelError::EmptyVocab));
    let r = DeepseekModel::from_safetensors(config(), &q, &vec![], &names());
    assert_eq!(r.err(), missing);
}

#[test]
fn every_layer_of_a_model_has_names() {
    let mut few = names();
    few.layers.clear();
    assert_eq!(refused(&few, Some("1")), Some(CheckpointError::LayerCount));
    assert_eq!(refused(&few, None), None);
    let mut many = names();
    many.layers.extend(names().layers);
    assert_eq!(refused(&many, Some("1")), Some(CheckpointError::LayerCount));
    let mut two = config();
    two.spec.num_hidden_layers = 2;
    assert_eq!(load_as(two, &many, None, Some("1")).ok().unwrap().model.loaded_layer_count(), 2);
}

#[test]
fn divided_attention_needs_its_shards() {
    let shared = || {
        let mut shared = config();
        shared.tp = TpConfig { rank: 1, world_size: 2 };
        shared
    };
    assert_eq!(
        load_as(shared(), &names(), None, Some("1")).err(),
        Some(CheckpointError::AttentionCuts(0))
    );
    assert!(load_as(shared(), &names(), None, None).is_ok());
    let part = |axis| Some(TpLoadContext { axis, range: Span { start: 1, end: 2 }, total: 2 });
    let mut cut = names();
    cut.layers[0].attn_shards = AttentionShards {
        wq_b: part(TpShardAxis::Column),
        wo_a: part(TpShardAxis::Column),
        wo_b: part(TpShardAxis::Row),
    };
    let loaded = load_as(shared(), &cut, None, Some("1")).ok().unwrap();
    let attention = &loaded.model.layers[0].attention;
    assert_eq!((attention.wq_b.rows, attention.wq_b.cols), (1, 2));
    assert_eq!((attention.wo_b.rows, attention.wo_b.cols), (2, 1));
    assert_eq!(refused(&cut, Some("1")), Some(CheckpointError::AttentionCuts(0)));
}

#[test]
fn models_hold_the_experts_of_their_rank() {
    let ranked = || {
        let mut ranked = config();
        ranked.spec.n_routed_experts = 2;
        ranked.ep = ExpertGroup {
            rank: 1,
            world_size: 2,
            num_experts: 2,
            experts_per_rank: 1,
            local_expert_start: 1,
        };
        ranked
    };
    assert_eq!(
        load_as(ranked(), &names(), None, Some("1")).err(),
        Some(CheckpointError::Load(LoadError::MissingExpert))
    );
    let mut all = names();
    let plain = ExpertNames { w1: text("m"), w2: text("m"), w3: text("m") };
    all.layers[0].ffn.experts.push(plain);
    let loaded = load_as(ranked(), &all, None, Some("1")).ok().unwrap();
    let experts = &loaded.model.layers[0].ffn.experts;
    assert_eq!((experts.len(), experts[0].w1.format), (1, WeightFormat::Dense));
}

fn claiming(header: &str) -> Vec<u8> {
    let mut file = (header.len() as u64).to_le_bytes().to_vec();
    file.extend_from_slice(header.as_bytes());
    file
}

#[test]
fn shards_that_claim_too_much_are_refused() {
    let size = (1u64 << 61) - 1;
    let mut header = "{".to_string();
    for i in 0..8u64 {
        let comma = if i == 0 { "" } else { "," };
        let (start, end) = (i * size, (i + 1) * size);
        header.push_str(&format!(
            "{comma}\"t{i}\":{{\"dtype\":\"I8\",\"shape\":[{size}],\"data_offsets\":[{start},{end}]}}"
        ));
    }
    header.push('}');
    let huge = claiming(&header);
    assert!(!test_claims(&huge));
    let good = shard_file(&[]);
    assert!(test_claims(&good));
    let files: Vec<&[u8]> = vec![&good, &huge];
    assert_eq!(open_shards(&files).err(), Some(UnreadableShard { file: 1 }));
    let one = "{\"t\":{\"dtype\":\"I8\",\"shape\":[1],\"data_offsets\":[0,1]}}";
    assert!(!test_claims(&claiming(one)));
    let mut whole = claiming(one);
    whole.push(7);
    assert!(test_claims(&whole));
    assert!(open_shards(&vec![&whole[..]]).is_ok());
    assert!(!test_claims(b"") && !test_claims(&claiming("[]")));
    assert!(test_claims(&claiming("{\"__metadata__\":{\"a\":\"b\"}}")));
    let entry = |text: &str| read_entry_end(text.as_bytes());
    assert_eq!(entry("{\"dtype\":\"I8\",\"shape\":[1],\"data_offsets\":[2,9]}"), Some(9));
    assert_eq!(entry("{\"dtype\":\"I8\",\"shape\":[1]}"), None);
    assert_eq!(entry("{\"dtype\":\"I8\",\"shape\":[1],\"data_offsets\":[2]}"), None);
}

#[test]
fn files_without_a_shard_are_refused() {
    let file = shard_file(&[]);
    let files: Vec<&[u8]> = vec![&file, b"no shard", &file, b""];
    assert_eq!(open_shards(&files).err(), Some(UnreadableShard { file: 1 }));
    let make = |real_reference, load_layers| {
        let q = LoadSwitches { real_reference, load_layers };
        DeepseekModel::from_safetensors(config(), &q, &files, &names())
    };
    assert_eq!(make(None, None).err(), Some(CheckpointError::Shard(1)));
    assert_eq!(make(None, Some("?")).err(), Some(CheckpointError::Shard(1)));
    assert_eq!(make(Some("1"), Some("1")).err(), Some(CheckpointError::Shard(1)));
    let bad = Some(CheckpointError::Model(ModelError::Switch(SwitchError::InvalidValue)));
    assert_eq!(make(Some("1"), Some("?")).err(), bad);
    assert_eq!(make(Some("?"), Some("1")).err(), bad);
    assert!(make(Some("1"), None).ok().unwrap().model.has_reference);
}

#[test]
fn maps_list_the_last_shard_that_holds_a_tensor() {
    let bytes = [0u8; 8];
    let view = |n: usize| TensorView::new(Dtype::I8, vec![n], &bytes[..n]).unwrap();
    let files = vec![
        shard_file(&[("a", view(1)), ("b", view(2))]),
        shard_file(&[("b", view(3)), ("c", view(4))]),
        shard_file(&[("d", view(5))]),
    ];
    let files = files.iter().map(|file| &file[..]).collect::<Vec<_>>();
    let (shards, map) = open_shards(&files).ok().unwrap();
    assert_eq!(shards.len(), 3);
    let places = ["a", "b", "c", "d", "e"].map(|name| map.get(name));
    assert_eq!(places, [Some(0), Some(1), Some(1), Some(2), None]);
    let lengths = ["a", "b", "c", "d"].map(|name| {
        deepseek_find_tensor(&shards, &map, name).unwrap().data.len()
    });
    assert_eq!(lengths, [1, 3, 4, 5]);
    let (none, empty) = open_shards(&vec![]).ok().unwrap();
    assert!(none.is_empty() && empty.get("a").is_none());
}
