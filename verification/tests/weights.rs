//! Loading of weights from safetensors shards.

use half::bf16;
use infer::model::deepseek::config::{ExpertGroup, TpConfig};
use infer::model::deepseek::load::{
    load_dsv4_matrix_host, load_dsv4_matrix_raw, load_dsv4_matrix_raw_sharded, load_dsv4_vec_bf16,
    load_i64_tensor, matrix_logical_cols, matrix_rows, BlockFormat, BlockScaledMatrix, HostMatrix,
    MatrixShard, ScaledValue, Span, TpLoadContext, TpShardAxis,
};
use infer::model::deepseek::loaders::{
    attention_cuts, choose_rank_experts, load_expert, load_hyper_connection, load_moe_block,
    test_cuts, AttentionCuts, AttentionShards, ExpertNames, HyperConnectionNames, MoeNames,
};
use infer::model::deepseek::quant::round_to_bf16;
use infer::model::deepseek::tensor::{LoadError, WeightMap};
use safetensors::tensor::{serialize, Dtype, TensorView};
use safetensors::SafeTensors;

fn single_shard(
    name: &str,
    weight: TensorView<'_>,
    scale_name: Option<&str>,
    scale: Option<TensorView<'_>>,
) -> (Vec<u8>, WeightMap) {
    let mut tensors = vec![(name.to_string(), weight)];
    let mut map = WeightMap::new();
    map.insert(name, 0);
    if let (Some(scale_name), Some(scale)) = (scale_name, scale) {
        tensors.push((scale_name.to_string(), scale));
        map.insert(scale_name, 0);
    }
    (serialize(tensors, None).unwrap(), map)
}

fn shard_file(tensors: Vec<(&str, TensorView<'_>)>) -> (Vec<u8>, WeightMap) {
    let mut map = WeightMap::new();
    let mut listed = Vec::new();
    for (name, tensor) in tensors {
        map.insert(name, 0);
        listed.push((name.to_string(), tensor));
    }
    (serialize(listed, None).unwrap(), map)
}

fn rounded(value: &ScaledValue) -> f32 {
    let scale = value.scale.map_or(1.0, f32::from_bits);
    bf16::from_f32(f32::from_bits(value.value) * scale).to_f32()
}

fn block_scaled(matrix: HostMatrix) -> BlockScaledMatrix {
    match matrix {
        HostMatrix::BlockScaled(matrix) => matrix,
        HostMatrix::Dense(_) => panic!("dense matrix"),
    }
}

fn shard(axis: TpShardAxis, start: usize, end: usize, total: usize) -> TpLoadContext {
    TpLoadContext { axis, range: Span { start, end }, total }
}

#[test]
fn dequantizes_fp8_block_scaled_matrix() {
    let weight_bytes = [0x38_u8, 0xb8, 0x40, 0xc0];
    let scale_bytes = [127_u8];
    let weight = TensorView::new(Dtype::F8_E4M3, vec![2, 2], &weight_bytes).unwrap();
    let scale = TensorView::new(Dtype::F8_E8M0, vec![1, 1], &scale_bytes).unwrap();
    let (buf, map) = single_shard("a.weight", weight, Some("a.scale"), Some(scale));
    let shards = vec![SafeTensors::deserialize(&buf).unwrap()];

    let host =
        load_dsv4_matrix_host(&shards, &map, "a.weight", &MatrixShard::from_tp(None)).ok().unwrap();

    assert_eq!((host.rows, host.cols), (2, 2));
    let values = host.values.iter().map(rounded).collect::<Vec<_>>();
    assert_eq!(values, vec![1.0, -1.0, 2.0, -2.0]);
}

#[test]
fn packed_columns_read_the_low_half_first() {
    let weight_bytes = [0x21_u8, 0xb3, 0x40, 0x08];
    let scale_bytes = [127_u8];
    let weight = TensorView::new(Dtype::I8, vec![2, 2], &weight_bytes).unwrap();
    let scale = TensorView::new(Dtype::F8_E8M0, vec![1, 1], &scale_bytes).unwrap();
    let (buf, map) = single_shard("e.weight", weight, Some("e.scale"), Some(scale));
    let shards = vec![SafeTensors::deserialize(&buf).unwrap()];
    let tp = shard(TpShardAxis::Row, 2, 4, 4);

    let host =
        load_dsv4_matrix_host(&shards, &map, "e.weight", &MatrixShard::from_tp(Some(&tp))).ok().unwrap();

    assert_eq!((host.rows, host.cols), (2, 2));
    let values = host.values.iter().map(rounded).collect::<Vec<_>>();
    assert_eq!(values, vec![1.5, -1.5, -0.0, 0.0]);
}

#[test]
fn loads_raw_fp8_row_shard() {
    let weight_bytes = [
        0x38_u8, 0xb8, 0x40, 0xc0, 0x38, 0xb8, 0x40, 0xc0, 0x38, 0xb8, 0x40, 0xc0, 0x38, 0xb8, 0x40,
        0xc0,
    ];
    let scale_bytes = [127_u8, 128, 129, 130];
    let weight = TensorView::new(Dtype::F8_E4M3, vec![4, 4], &weight_bytes).unwrap();
    let scale = TensorView::new(Dtype::F8_E8M0, vec![2, 2], &scale_bytes).unwrap();
    let (buf, map) = single_shard("a.weight", weight, Some("a.scale"), Some(scale));
    let shards = vec![SafeTensors::deserialize(&buf).unwrap()];
    let tp = shard(TpShardAxis::Column, 2, 4, 4);

    let matrix = block_scaled(
        load_dsv4_matrix_raw_sharded(&shards, &map, "a.weight", Some(&tp)).ok().unwrap(),
    );

    assert_eq!(matrix.format, BlockFormat::Fp8);
    assert_eq!((matrix.rows, matrix.cols), (2, 4));
    assert_eq!((matrix.scales.rows, matrix.scales.cols), (1, 2));
    assert_eq!(matrix.weight, weight_bytes[8..16]);
    assert_eq!(matrix.scales.bytes, vec![129, 130]);
}

#[test]
fn loads_raw_fp4_column_shard() {
    let weight_bytes = [0x21_u8, 0xb3, 0x40, 0x08];
    let scale_bytes = [127_u8, 128, 129, 130];
    let weight = TensorView::new(Dtype::I8, vec![2, 2], &weight_bytes).unwrap();
    let scale = TensorView::new(Dtype::F8_E8M0, vec![2, 2], &scale_bytes).unwrap();
    let (buf, map) = single_shard("e.weight", weight, Some("e.scale"), Some(scale));
    let shards = vec![SafeTensors::deserialize(&buf).unwrap()];
    let tp = shard(TpShardAxis::Row, 2, 4, 4);

    let matrix = block_scaled(
        load_dsv4_matrix_raw_sharded(&shards, &map, "e.weight", Some(&tp)).ok().unwrap(),
    );

    assert_eq!(matrix.format, BlockFormat::Fp4);
    assert_eq!((matrix.rows, matrix.cols), (2, 2));
    assert_eq!((matrix.scales.rows, matrix.scales.cols), (2, 1));
    assert_eq!(matrix.weight, vec![0xb3, 0x08]);
    assert_eq!(matrix.scales.bytes, vec![128, 130]);
}

#[test]
fn scales_multiply_their_blocks() {
    let weight_bytes = [0x38_u8; 16];
    let scale_bytes = [127_u8, 128, 129, 130];
    let weight = TensorView::new(Dtype::F8_E4M3, vec![4, 4], &weight_bytes).unwrap();
    let scale = TensorView::new(Dtype::F8_E8M0, vec![2, 2], &scale_bytes).unwrap();
    let (buf, map) = single_shard("a.weight", weight, Some("a.scale"), Some(scale));
    let shards = vec![SafeTensors::deserialize(&buf).unwrap()];
    let host =
        load_dsv4_matrix_host(&shards, &map, "a.weight", &MatrixShard::from_tp(None)).ok().unwrap();
    let values = host.values.iter().map(rounded).collect::<Vec<_>>();
    assert_eq!(
        values,
        vec![1.0, 1.0, 2.0, 2.0, 1.0, 1.0, 2.0, 2.0, 4.0, 4.0, 8.0, 8.0, 4.0, 4.0, 8.0, 8.0]
    );
}

#[test]
fn dense_matrices_and_vectors_are_rounded() {
    let numbers = [1.5f32, -2.25, 3.0e-5, -0.0];
    let single = numbers.iter().flat_map(|x| x.to_le_bytes()).collect::<Vec<_>>();
    let short = numbers.iter().flat_map(|x| bf16::from_f32(*x).to_le_bytes()).collect::<Vec<_>>();
    let m = TensorView::new(Dtype::F32, vec![2, 2], &single).unwrap();
    let v = TensorView::new(Dtype::BF16, vec![4], &short).unwrap();
    let (buf, map) = shard_file(vec![("m", m), ("v", v)]);
    let shards = vec![SafeTensors::deserialize(&buf).unwrap()];
    match load_dsv4_matrix_raw(&shards, &map, "m").ok().unwrap() {
        HostMatrix::Dense(host) => {
            assert_eq!((host.rows, host.cols), (2, 2));
            assert_eq!(host.values, numbers.map(|x| bf16::from_f32(x).to_bits()));
        }
        HostMatrix::BlockScaled(_) => panic!("block scaled"),
    }
    let bits = load_dsv4_vec_bf16(&shards, &map, "v").unwrap();
    assert_eq!(bits, numbers.map(|x| bf16::from_f32(x).to_bits()));
    assert_eq!(matrix_rows(&shards, &map, "m"), Ok(2));
    assert_eq!(matrix_rows(&shards, &map, "v"), Err(LoadError::NotMatrix));
}

#[test]
fn rounding_takes_the_nearest_and_breaks_ties_to_even() {
    assert_eq!(round_to_bf16(0x3f80_0000), 0x3f80);
    assert_eq!(round_to_bf16(0x3f80_8000), 0x3f80);
    assert_eq!(round_to_bf16(0x3f80_8001), 0x3f81);
    assert_eq!(round_to_bf16(0x3f81_8000), 0x3f82);
    assert_eq!(round_to_bf16(0x7f7f_ffff), 0x7f80);
    assert_eq!(round_to_bf16(0xff80_0000), 0xff80);
    assert_eq!(round_to_bf16(0x7f80_0001), 0x7fc0);
    assert_eq!(round_to_bf16(0xffff_ffff), 0xffff);
    let mut bits = 1u32;
    for _ in 0..10_000 {
        bits = bits.wrapping_mul(1_664_525).wrapping_add(1_013_904_223);
        assert_eq!(round_to_bf16(bits), bf16::from_f32(f32::from_bits(bits)).to_bits());
    }
    for b in 0..=u16::MAX {
        let wide = bf16::from_bits(b).to_f32();
        assert_eq!(round_to_bf16(wide.to_bits()), if wide.is_nan() { b | 0x0040 } else { b });
    }
}

#[test]
fn packed_columns_count_twice() {
    let bytes = [0u8; 6];
    let packed = TensorView::new(Dtype::I8, vec![2, 3], &bytes).unwrap();
    let plain = TensorView::new(Dtype::F8_E4M3, vec![2, 3], &bytes).unwrap();
    let (buf, map) = shard_file(vec![("p", packed), ("q", plain)]);
    let shards = vec![SafeTensors::deserialize(&buf).unwrap()];
    assert_eq!(matrix_logical_cols(&shards, &map, "p"), Ok(6));
    assert_eq!(matrix_logical_cols(&shards, &map, "q"), Ok(3));
}

#[test]
fn tables_hold_signed_numbers() {
    let numbers = [5i64, -1, i64::MIN, i64::MAX];
    let bytes = numbers.iter().flat_map(|x| x.to_le_bytes()).collect::<Vec<_>>();
    let t = TensorView::new(Dtype::I64, vec![2, 2], &bytes).unwrap();
    let u = TensorView::new(Dtype::F32, vec![2, 4], &bytes).unwrap();
    let (buf, map) = shard_file(vec![("t", t), ("u", u)]);
    let shards = vec![SafeTensors::deserialize(&buf).unwrap()];
    assert_eq!(load_i64_tensor(&shards, &map, "t"), Ok(numbers.to_vec()));
    assert_eq!(load_i64_tensor(&shards, &map, "u"), Err(LoadError::UnsupportedDtype));
    assert_eq!(load_i64_tensor(&shards, &map, "w"), Err(LoadError::MissingTensor));
}

#[test]
fn unlisted_tensors_come_from_the_first_shard_that_holds_them() {
    let one = 1.0f32.to_le_bytes();
    let two = 2.0f32.to_le_bytes();
    let first = serialize(
        vec![("a".to_string(), TensorView::new(Dtype::F32, vec![1], &one).unwrap())],
        None,
    )
    .unwrap();
    let second = serialize(
        vec![
            ("a".to_string(), TensorView::new(Dtype::F32, vec![1], &two).unwrap()),
            ("b".to_string(), TensorView::new(Dtype::F32, vec![1], &two).unwrap()),
        ],
        None,
    )
    .unwrap();
    let shards =
        vec![SafeTensors::deserialize(&first).unwrap(), SafeTensors::deserialize(&second).unwrap()];
    let mut map = WeightMap::new();
    assert_eq!(load_dsv4_vec_bf16(&shards, &map, "a"), Ok(vec![0x3f80]));
    assert_eq!(load_dsv4_vec_bf16(&shards, &map, "b"), Ok(vec![0x4000]));
    map.insert("a", 1);
    assert_eq!(load_dsv4_vec_bf16(&shards, &map, "a"), Ok(vec![0x4000]));
    map.insert("b", 0);
    assert_eq!(load_dsv4_vec_bf16(&shards, &map, "b"), Err(LoadError::UnreadableTensor));
    assert_eq!(load_dsv4_vec_bf16(&shards, &map, "c"), Err(LoadError::MissingTensor));
}

fn matrix_error(
    weight: (Dtype, Vec<usize>, &[u8]),
    scale: Option<(Dtype, Vec<usize>, &[u8])>,
    name: &str,
    tp: Option<TpLoadContext>,
) -> LoadError {
    let weight = TensorView::new(weight.0, weight.1, weight.2).unwrap();
    let scale = scale.map(|s| TensorView::new(s.0, s.1, s.2).unwrap());
    let scale_name = name.replace(".weight", ".scale");
    let (buf, map) = single_shard(name, weight, Some(&scale_name), scale);
    let shards = vec![SafeTensors::deserialize(&buf).unwrap()];
    load_dsv4_matrix_raw_sharded(&shards, &map, name, tp.as_ref()).err().unwrap()
}

#[test]
fn faulty_matrices_are_refused() {
    let bytes = [0u8; 16];
    let fp8 = || (Dtype::F8_E4M3, vec![4, 4], &bytes[..]);
    let scales = || Some((Dtype::F8_E8M0, vec![2, 2], &bytes[..4]));
    assert_eq!(
        matrix_error((Dtype::F8_E4M3, vec![16], &bytes), None, "a.weight", None),
        LoadError::NotMatrix
    );
    assert_eq!(
        matrix_error((Dtype::I64, vec![2, 1], &bytes), None, "a.weight", None),
        LoadError::UnsupportedDtype
    );
    assert_eq!(
        matrix_error((Dtype::U8, vec![4, 4], &bytes), None, "a.weight", None),
        LoadError::UnsupportedDtype
    );
    assert_eq!(matrix_error(fp8(), None, "a.weight", None), LoadError::MissingScale);
    assert_eq!(
        matrix_error(fp8(), None, "a.other", None),
        LoadError::UnnamedScale
    );
    assert_eq!(
        matrix_error(fp8(), Some((Dtype::F8_E8M0, vec![4], &bytes[..4])), "a.weight", None),
        LoadError::ScaleNotMatrix
    );
    assert_eq!(
        matrix_error(fp8(), Some((Dtype::F8_E8M0, vec![0, 2], &bytes[..0])), "a.weight", None),
        LoadError::EmptyScale
    );
    assert_eq!(
        matrix_error(fp8(), Some((Dtype::F32, vec![2, 2], &bytes[..])), "a.weight", None),
        LoadError::ScaleDtype
    );
    let column = |start, end, total| Some(shard(TpShardAxis::Column, start, end, total));
    let row = |start, end, total| Some(shard(TpShardAxis::Row, start, end, total));
    assert_eq!(
        matrix_error(fp8(), scales(), "a.weight", column(0, 2, 8)),
        LoadError::RowShardTotal
    );
    assert_eq!(
        matrix_error(fp8(), scales(), "a.weight", column(2, 5, 4)),
        LoadError::RowShardRange
    );
    assert_eq!(
        matrix_error(fp8(), scales(), "a.weight", row(0, 2, 8)),
        LoadError::ColShardTotal
    );
    assert_eq!(
        matrix_error(fp8(), scales(), "a.weight", row(2, 5, 4)),
        LoadError::ColShardRange
    );
    assert_eq!(
        matrix_error(fp8(), scales(), "a.weight", column(1, 2, 4)),
        LoadError::UnalignedRows
    );
    assert_eq!(
        matrix_error(fp8(), scales(), "a.weight", row(0, 3, 4)),
        LoadError::UnalignedCols
    );
}

fn expert_names(prefix: &str) -> ExpertNames {
    ExpertNames {
        w1: format!("{prefix}.w1"),
        w2: format!("{prefix}.w2"),
        w3: format!("{prefix}.w3"),
    }
}

#[test]
fn blocks_of_weights_load_in_order() {
    let ones = [1.0f32; 4].iter().flat_map(|x| x.to_le_bytes()).collect::<Vec<_>>();
    let matrix = || TensorView::new(Dtype::F32, vec![2, 2], &ones).unwrap();
    let vector = || TensorView::new(Dtype::F32, vec![4], &ones).unwrap();
    let ids = [3i64, 1].iter().flat_map(|x| x.to_le_bytes()).collect::<Vec<_>>();
    let table = TensorView::new(Dtype::I64, vec![2, 1], &ids).unwrap();
    let (buf, map) = shard_file(vec![
        ("hc.base", vector()),
        ("hc.fn", matrix()),
        ("hc.scale", vector()),
        ("e0.w1", matrix()),
        ("e0.w2", matrix()),
        ("e0.w3", matrix()),
        ("gate", matrix()),
        ("bias", vector()),
        ("tid2eid", table),
    ]);
    let shards = vec![SafeTensors::deserialize(&buf).unwrap()];

    let names = HyperConnectionNames {
        base: "hc.base".to_string(),
        mix_fn: "hc.fn".to_string(),
        scale: "hc.scale".to_string(),
    };
    let hc = load_hyper_connection(&shards, &map, &names).ok().unwrap();
    assert_eq!(hc.base, vec![0x3f80; 4]);
    assert_eq!(hc.scale.len(), 4);

    assert!(load_expert(&shards, &map, &expert_names("e0")).is_ok());
    assert_eq!(
        load_expert(&shards, &map, &expert_names("e1")).err(),
        Some(LoadError::MissingTensor)
    );

    let mut moe = MoeNames {
        experts: vec![expert_names("e0")],
        gate_weight: "gate".to_string(),
        gate_bias: Some("bias".to_string()),
        gate_tid2eid: Some("tid2eid".to_string()),
        shared_experts: None,
    };
    let ep = ExpertGroup {
        rank: 0,
        world_size: 1,
        num_experts: 1,
        experts_per_rank: 1,
        local_expert_start: 0,
    };
    let block = load_moe_block(&shards, &map, &moe, &ep).ok().unwrap();
    assert_eq!(block.experts.len(), 1);
    assert_eq!(block.gate_tid2eid, Some(vec![3, 1]));
    assert!(block.shared_experts.is_none());
    moe.gate_bias = Some("gate".to_string());
    moe.gate_tid2eid = Some("bias".to_string());
    assert_eq!(load_moe_block(&shards, &map, &moe, &ep).err(), Some(LoadError::NotVector));
    moe.gate_bias = None;
    assert_eq!(load_moe_block(&shards, &map, &moe, &ep).err(), Some(LoadError::UnsupportedDtype));
    let more = ExpertGroup { experts_per_rank: 2, ..ep };
    assert_eq!(load_moe_block(&shards, &map, &moe, &more).err(), Some(LoadError::MissingExpert));
}

#[test]
fn ranks_load_their_own_experts() {
    let names = vec![expert_names("e0"), expert_names("e1"), expert_names("e2"), expert_names("e3")];
    let second = ExpertGroup {
        rank: 1,
        world_size: 2,
        num_experts: 4,
        experts_per_rank: 2,
        local_expert_start: 2,
    };
    let own = |ep: &ExpertGroup| -> Result<Vec<String>, LoadError> {
        Ok(choose_rank_experts(&names, ep)?.iter().map(|n| n.w1.clone()).collect())
    };
    assert_eq!(own(&second), Ok(vec!["e2.w1".to_string(), "e3.w1".to_string()]));
    let first = ExpertGroup { rank: 0, local_expert_start: 0, ..second };
    assert_eq!(own(&first), Ok(vec!["e0.w1".to_string(), "e1.w1".to_string()]));
    let past = ExpertGroup { local_expert_start: 3, ..second };
    assert_eq!(own(&past), Err(LoadError::MissingExpert));
    let far = ExpertGroup { local_expert_start: usize::MAX, ..second };
    assert_eq!(own(&far), Err(LoadError::MissingExpert));
}

#[test]
fn groups_divide_the_matrices_of_attention() {
    let (column, row) = (Some(TpShardAxis::Column), Some(TpShardAxis::Row));
    let alone = attention_cuts(&TpConfig::single());
    assert_eq!(alone, AttentionCuts { wq_b: None, wo_a: None, wo_b: None });
    let cuts = attention_cuts(&TpConfig { rank: 1, world_size: 2 });
    assert_eq!(cuts, AttentionCuts { wq_b: column, wo_a: column, wo_b: row });
    let part = |axis, start, end| {
        Some(TpLoadContext { axis, range: Span { start, end }, total: 4 })
    };
    let columns = part(TpShardAxis::Column, 2, 4);
    let shards = AttentionShards { wq_b: columns, wo_a: columns, wo_b: part(TpShardAxis::Row, 2, 4) };
    assert!(test_cuts(&cuts, &shards) && !test_cuts(&alone, &shards));
    assert!(!test_cuts(&cuts, &AttentionShards { wo_b: columns, ..shards }));
    assert!(!test_cuts(&cuts, &AttentionShards { wo_a: None, ..shards }));
    let reversed = part(TpShardAxis::Column, 4, 2);
    assert!(!test_cuts(&cuts, &AttentionShards { wq_b: reversed, ..shards }));
    assert!(test_cuts(&alone, &AttentionShards { wq_b: None, wo_a: None, wo_b: None }));
}
