//! The tensor store and the plans of the reference executor.

use half::bf16;
use infer::model::deepseek::config::AttentionMode;
use infer::model::deepseek::ranking::{argmax, select_blocks, top_logits};
use infer::model::deepseek::reference::{
    block_position, check_tokens, check_width, find_group_span, list_block_parts, list_keys,
    mix_count, outline_attention, route_source, selectable_blocks, stream_start, tensor_name,
    Greedy, Key, ReferenceError, RouteSource, RowPart, StopRule,
};
use infer::model::deepseek::store::{
    find_header_end, read_entry, resolve_index, shard_source, SafeTensorStore, ShardSource,
    StoreError,
};
use infer::text::{precedes, sorted_set};

fn file(header: &str, data: &[u8]) -> Vec<u8> {
    let mut bytes = (header.len() as u64).to_le_bytes().to_vec();
    bytes.extend_from_slice(header.as_bytes());
    bytes.extend_from_slice(data);
    bytes
}

fn open(shards: &[Vec<u8>]) -> Result<SafeTensorStore<'_>, StoreError> {
    SafeTensorStore::open_shards(shards.iter().map(|s| s.as_slice()).collect())
}

fn open_error(shards: &[Vec<u8>]) -> StoreError {
    open(shards).err().unwrap()
}

#[test]
fn dsv4_reference_resolves_sharded_safetensors_index() {
    let index = r#"{
              "metadata": {},
              "weight_map": {
                "embed.weight": "model-00002-of-00002.safetensors",
                "head.weight": "model-00001-of-00002.safetensors",
                "norm.weight": "model-00002-of-00002.safetensors"
              }
            }"#;

    let shards = resolve_index(index.as_bytes()).unwrap();
    assert_eq!(
        shards,
        vec![
            "model-00001-of-00002.safetensors".to_string(),
            "model-00002-of-00002.safetensors".to_string(),
        ]
    );
}

#[test]
fn faulty_indexes_are_refused() {
    assert_eq!(resolve_index(b"{"), Err(StoreError::IndexJson));
    assert_eq!(resolve_index(b"[]"), Err(StoreError::WeightMap));
    assert_eq!(resolve_index(b"{}"), Err(StoreError::WeightMap));
    assert_eq!(resolve_index(b"{\"weight_map\": 3}"), Err(StoreError::WeightMap));
    assert_eq!(resolve_index(b"{\"weight_map\": {\"a\": 3}}"), Err(StoreError::ShardName));
    assert_eq!(resolve_index(b"{\"weight_map\": {}}"), Err(StoreError::EmptyIndex));
    assert_eq!(shard_source(true, false), ShardSource::Single);
    assert_eq!(shard_source(true, true), ShardSource::Index);
    assert_eq!(shard_source(false, false), ShardSource::Index);
}

#[test]
fn texts_sort_as_strings_do() {
    let names = ["b", "", "a", "ab", "b", "é", "z", "a", "Z", "日本", "a\u{10000}"];
    for a in names {
        for b in names {
            assert_eq!(precedes(a, b), a < b, "{a} {b}");
        }
    }
    let mut expected = names.map(str::to_string).to_vec();
    expected.sort();
    expected.dedup();
    assert_eq!(sorted_set(names.map(str::to_string).to_vec()), expected);
}

#[test]
fn stores_read_what_shards_hold() {
    let numbers = [1.0f32, -2.5, 3.25, 0.0, 5.0, 6.0];
    let mut data = Vec::new();
    for x in numbers {
        data.extend_from_slice(&x.to_le_bytes());
    }
    for x in [1.5f32, -4.0] {
        data.extend_from_slice(&bf16::from_f32(x).to_le_bytes());
    }
    for x in [4i64, 0, -1, 9] {
        data.extend_from_slice(&x.to_le_bytes());
    }
    let header = r#"{"__metadata__": {"format": "pt"},
        "w": {"dtype": "F32", "shape": [2, 3], "data_offsets": [0, 24]},
        "v": {"dtype": "BF16", "shape": [2], "data_offsets": [24, 28]},
        "t": {"dtype": "I64", "shape": [2, 2], "data_offsets": [28, 60]},
        "u": {"dtype": "U8", "shape": [1, 1], "data_offsets": [0, 1]}}"#;
    let scalar = file(
        r#"{"s": ["F32", [], [0, 4]], "e": {"dtype": "U8", "shape": [3, 0], "data_offsets": [0, 0]}}"#,
        &7.0f32.to_le_bytes(),
    );
    let shards = [file(header, &data), scalar];
    let store = open(&shards).ok().unwrap();

    assert_eq!(store.row_f32("w", 1), Ok(vec![0.0f32.to_bits(), 5.0f32.to_bits(), 6.0f32.to_bits()]));
    assert_eq!(store.vec_f32("v"), Ok(vec![1.5f32.to_bits(), (-4.0f32).to_bits()]));
    assert_eq!(store.vec_f32("w"), Ok(numbers.map(f32::to_bits).to_vec()));
    assert_eq!(store.vec_f32("s"), Ok(vec![7.0f32.to_bits()]));
    assert_eq!(store.vec_f32("e"), Ok(vec![]));
    assert_eq!(store.row_usize("t", 0), Ok(vec![4, 0]));
    assert_eq!(store.matvec_shape("w", 3), Ok((2, 3)));
    assert_eq!(store.dot_row("w", 0, 3), store.row_f32("w", 0));

    assert_eq!(store.row_usize("t", 1), Err(StoreError::NegativeId));
    assert_eq!(store.row_usize("w", 0), Err(StoreError::Dtype));
    assert_eq!(store.row_usize("t", 2), Err(StoreError::Row));
    assert_eq!(store.row_f32("v", 0), Err(StoreError::NotMatrix));
    assert_eq!(store.row_f32("w", 2), Err(StoreError::Row));
    assert_eq!(store.row_f32("t", 0), Err(StoreError::Dtype));
    assert_eq!(store.row_f32("u", 0), Err(StoreError::Dtype));
    assert_eq!(store.vec_f32("x"), Err(StoreError::Missing));
    assert_eq!(store.matvec_shape("w", 4), Err(StoreError::InputLength));
    assert_eq!(store.dot_row("w", 0, 2), Err(StoreError::InputLength));
    assert_eq!(store.dot_row("w", 2, 2), Err(StoreError::Row));
}

#[test]
fn short_tensors_are_refused_when_read() {
    let header = r#"{"w": {"dtype": "F32", "shape": [2, 2], "data_offsets": [0, 12]},
        "t": {"dtype": "I64", "shape": [1, 2], "data_offsets": [0, 12]},
        "h": {"dtype": "BF16", "shape": [4294967295, 4294967295, 4294967295], "data_offsets": [0, 12]}}"#;
    let shards = [file(header, &[0; 12])];
    let store = open(&shards).ok().unwrap();
    assert_eq!(store.row_f32("w", 0), Ok(vec![0, 0]));
    assert_eq!(store.row_f32("w", 1), Err(StoreError::OutOfRange));
    assert_eq!(store.row_usize("t", 0), Err(StoreError::OutOfRange));
    assert_eq!(store.vec_f32("h"), Err(StoreError::OutOfRange));
}

#[test]
fn faulty_shards_are_refused() {
    assert_eq!(open_error(&[]), StoreError::NoShards);
    assert_eq!(open_error(&[vec![0; 7]]), StoreError::TooSmall);
    let mut long = file("{}", &[]);
    long[0] = 3;
    assert_eq!(open_error(&[long]), StoreError::HeaderLength);
    let mut longest = file("{}", &[]);
    longest[..8].copy_from_slice(&u64::MAX.to_le_bytes());
    assert_eq!(open_error(&[longest]), StoreError::HeaderLength);
    assert_eq!(open_error(&[file("[]", &[])]), StoreError::HeaderJson);
    assert_eq!(open_error(&[file("{\"a\": 1", &[])]), StoreError::HeaderJson);
    for entry in [
        "3",
        "{}",
        r#"{"dtype": "F32", "shape": [1]}"#,
        r#"{"dtype": 1, "shape": [1], "data_offsets": [0, 4]}"#,
        r#"{"dtype": "F32", "shape": [-1], "data_offsets": [0, 4]}"#,
        r#"{"dtype": "F32", "shape": [1.0], "data_offsets": [0, 4]}"#,
        r#"{"dtype": "F32", "shape": [1], "data_offsets": [0, 4, 8]}"#,
        r#"["F32", [1], [0, 4], 1]"#,
    ] {
        assert_eq!(open_error(&[file(&format!("{{\"a\": {entry}}}"), &[0; 8])]), StoreError::Entry);
    }
    for offsets in ["[4, 0]", "[0, 9]", "[0, 18446744073709551615]"] {
        let header =
            format!("{{\"a\": {{\"dtype\": \"F32\", \"shape\": [1], \"data_offsets\": {offsets}}}}}");
        assert_eq!(open_error(&[file(&header, &[0; 8])]), StoreError::Offsets);
    }
    let header = r#"{"a": {"dtype": "F32", "shape": [1], "data_offsets": [0, 4]}}"#;
    let shard = file(header, &[0; 4]);
    assert_eq!(open_error(&[shard.clone(), shard]), StoreError::Duplicate);
}

#[test]
fn headers_follow_their_length() {
    assert_eq!(find_header_end(&file("{}", &[1, 2])), Ok(10));
    let entry = read_entry(br#"{"extra": null, "dtype": "I64", "shape": [3], "data_offsets": [8, 32]}"#)
        .unwrap();
    assert_eq!(entry.dtype, "I64");
    assert_eq!(entry.shape, vec![3]);
    assert_eq!(entry.data_offsets, [8, 32]);
}

#[test]
fn greatest_values_rank_in_total_order() {
    let values = [0.0f32, -0.0, 1.0, -1.0, f32::INFINITY, f32::NEG_INFINITY, f32::NAN, -f32::NAN, 1e-45];
    for a in values {
        for b in values {
            let expected = if b.total_cmp(&a).is_ge() { 1 } else { 0 };
            assert_eq!(argmax(&[a.to_bits(), b.to_bits()]), expected, "{a} {b}");
        }
    }
    assert_eq!(argmax(&[]), 0);
    assert_eq!(argmax(&[3.0f32, 7.0, 7.0, -9.0].map(f32::to_bits)), 2);
}

#[test]
fn blocks_are_selected_best_first() {
    let scores = [1.0f32, 3.0, f32::NAN, 3.0, f32::INFINITY, -2.0, 0.0, -0.0].map(f32::to_bits);
    assert_eq!(select_blocks(&scores, 3), vec![1, 3, 0]);
    assert_eq!(select_blocks(&scores, 10), vec![1, 3, 0, 6, 7, 5]);
    assert_eq!(select_blocks(&scores, 0), Vec::<usize>::new());
    assert_eq!(select_blocks(&[], 4), Vec::<usize>::new());
    let prefix = select_blocks(&scores, 2);
    assert_eq!(prefix[..], select_blocks(&scores, 5)[..2]);
}

#[test]
fn logits_list_earlier_tokens_first() {
    let logits = [0.0f32, 2.0, -0.0, 2.0, f32::NEG_INFINITY, f32::NAN, 3.0]
        .map(|x| bf16::from_f32(x).to_bits());
    assert_eq!(top_logits(&logits, 3), vec![6, 1, 3]);
    assert_eq!(top_logits(&logits, 9), vec![6, 1, 3, 0, 2]);
}

#[test]
fn tokens_attend_to_past_blocks_and_their_window() {
    let keys = list_keys(AttentionMode::HybridCompressed, 2, 3, 5, &[], 3);
    assert_eq!(
        keys,
        vec![Key::Block(0), Key::Block(1), Key::Token(3), Key::Token(4), Key::Token(5)]
    );
    let keys = list_keys(AttentionMode::HybridCompressed, 2, 3, 4, &[], 8);
    assert_eq!(keys[..2], [Key::Block(0), Key::Block(1)]);
    assert_eq!(keys.len(), 7);
    let keys = list_keys(AttentionMode::CompressedSparse, 4, 3, 1, &[2, 0], 1);
    assert_eq!(keys, vec![Key::Block(2), Key::Block(0), Key::Token(1)]);
    let keys = list_keys(AttentionMode::SlidingWindow, 0, 0, 0, &[1], 4);
    assert_eq!(keys, vec![Key::Token(0)]);
    let keys = list_keys(AttentionMode::HybridCompressed, 0, 0, 2, &[], 2);
    assert_eq!(keys, vec![Key::Token(1), Key::Token(2)]);
}

#[test]
fn outlines_follow_the_ratio() {
    let plain = outline_attention(0, 10, 4, 8);
    assert!(!plain.compressed && !plain.overlap && !plain.selected);
    assert_eq!((plain.blocks, plain.q_width), (0, 32));
    let sparse = outline_attention(4, 10, 4, 8);
    assert!(sparse.compressed && sparse.overlap && sparse.selected);
    assert_eq!(sparse.blocks, 3);
    let hybrid = outline_attention(16, 16, 4, 8);
    assert!(hybrid.compressed && !hybrid.overlap && !hybrid.selected);
    assert_eq!(hybrid.blocks, 1);
    assert_eq!(block_position(1, 4, 10), 7);
    assert_eq!(block_position(2, 4, 10), 9);
    assert_eq!(selectable_blocks(9, 4, 3), 2);
    assert_eq!(selectable_blocks(30, 4, 3), 3);
}

#[test]
fn blocks_take_in_their_neighbours() {
    let part = |token, second_half| Some(RowPart { token, second_half });
    assert_eq!(list_block_parts(1, 2, false), vec![part(2, false), part(3, false)]);
    assert_eq!(list_block_parts(0, 2, true), vec![None, None, part(0, true), part(1, true)]);
    assert_eq!(
        list_block_parts(1, 2, true),
        vec![part(0, false), part(1, false), part(2, true), part(3, true)]
    );
}

#[test]
fn rows_are_laid_out_one_after_the_other() {
    let first = find_group_span(1, 0, 4, 2, 8);
    let second = find_group_span(1, 1, 4, 2, 8);
    assert_eq!((first.start, first.end), (32, 48));
    assert_eq!((second.start, second.end), (48, 64));
    assert_eq!(stream_start(2, 1, 4, 10), 90);
    assert_eq!(mix_count(4), 24);
    assert_eq!(tensor_name("layers.0.attn", "wq_a.weight"), "layers.0.attn.wq_a.weight");
}

#[test]
fn the_reference_refuses_what_it_cannot_run() {
    assert_eq!(check_tokens(0, 4), Err(ReferenceError::NoTokens));
    assert_eq!(check_tokens(5, 4), Err(ReferenceError::TooLong));
    assert_eq!(check_tokens(4, 4), Ok(()));
    assert_eq!(check_width(3, 4), Err(ReferenceError::Width));
    assert_eq!(check_width(4, 4), Ok(()));
    assert_eq!(route_source(1, 2, true), Ok(RouteSource::Table));
    assert_eq!(route_source(1, 2, false), Err(ReferenceError::NoTable));
    assert_eq!(route_source(2, 2, false), Ok(RouteSource::Scores));
}

fn run(max_new_tokens: usize, next: &[u32], rule: &StopRule<'_>) -> (Vec<u32>, usize) {
    let mut run = Greedy::new(vec![1, 2], max_new_tokens).ok().unwrap();
    let mut i = 0;
    while run.wants_token() {
        run.take(next[i], rule);
        i += 1;
    }
    let count = run.count();
    (run.generated, count)
}

#[test]
fn greedy_runs_end_with_a_stop_token() {
    let rule = StopRule { eos_token_id: Some(9), stop_token_ids: &[7], ignore_eos: false };
    assert_eq!(run(5, &[3, 4, 9, 8], &rule), (vec![3, 4], 3));
    assert_eq!(run(5, &[3, 7, 9, 8], &rule), (vec![3], 2));
    assert_eq!(run(2, &[3, 4, 9, 8], &rule), (vec![3, 4], 2));
    assert_eq!(run(0, &[], &rule), (vec![], 0));
    let all = StopRule { eos_token_id: Some(9), stop_token_ids: &[7], ignore_eos: true };
    assert_eq!(run(3, &[9, 7, 9], &all), (vec![9, 7, 9], 3));
    assert_eq!(Greedy::new(vec![], 3).err(), Some(ReferenceError::NoTokens));
}
