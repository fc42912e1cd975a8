//! Requests, batches, shared state, switches and counts.

use infer::arith::{div_ceil, max, min, saturating_mul, saturating_mul_u64};
use infer::double::Double;
use infer::metrics::server::ratio_ppm;
use infer::model::batching::{
    accepts_prefill_batch, decode_metadata_page_capacity, forward_phase, prefill_route,
    prepare_paged_prefill_batch, ForwardPhase, PageAppend, PageShortage, PrefillRoute,
};
use infer::model::deepseek::counts::{
    dsv4_counts_to_offsets_i32, dsv4_counts_to_usize, dsv4_offsets_to_usize, dsv4_scale_usize,
    CountError,
};
use infer::model::deepseek::switches::{
    bootstrap_port, dsv4_gpu_contextual_logits_enabled, dsv4_grouped_experts_enabled,
    dsv4_moe_deepep_enabled, enabled_unless_off, layer_limit, log_topk, switch_enabled, PortError,
    SwitchError,
};
use infer::model::generation_state::{
    GenerationStateBase, KvAction, LogitsSource, Migration, MigrationError,
};
use infer::model::requests::{
    KVFormat, MixedBatchFallbackReason, PrefillBatchRequest, SpecVerifyOutput,
};
use infer::text::{decimal_text, parse_number, signed_text};

#[test]
fn arithmetic_saturates_and_rounds_up() {
    assert_eq!(saturating_mul(6, 7), 42);
    assert_eq!(saturating_mul(usize::MAX, 2), usize::MAX);
    assert_eq!(saturating_mul_u64(u64::MAX / 2, 3), u64::MAX);
    assert_eq!(div_ceil(7, 3), 3);
    assert_eq!(div_ceil(6, 3), 2);
    assert_eq!(div_ceil(0, 3), 0);
    assert_eq!((max(2, 3), min(2, 3)), (3, 2));
    assert_eq!(ratio_ppm(1, 3), 333_333);
    assert_eq!(ratio_ppm(5, 0), 0);
    assert_eq!(ratio_ppm(u64::MAX, 2), u64::MAX / 2);
}

#[test]
fn numbers_read_back_as_written() {
    for n in [0u64, 7, 10, 65535, u64::MAX] {
        assert_eq!(decimal_text(n), n.to_string());
        assert_eq!(parse_number(&decimal_text(n), usize::MAX), Some(n as usize));
    }
    for n in [0i64, -1, i64::MIN, i64::MAX] {
        assert_eq!(signed_text(n), n.to_string());
    }
    for raw in ["", "+", "-1", " 1", "1 ", "0x1", "18446744073709551616", "+5", "007", "٣"] {
        assert_eq!(parse_number(raw, usize::MAX), raw.parse::<usize>().ok(), "{raw}");
    }
    assert_eq!(parse_number("70000", 65535), None);
}

#[test]
fn doubles_round_as_hardware_does() {
    let value = |x: Double| x.mantissa as f64 * 2f64.powi(x.exponent as i32);
    for (n, d) in [(1u128, 3u128), (2, 3), (5, 7), (1, 1), (0, 9), (u64::MAX as u128, 1_000_000)] {
        assert_eq!(value(Double::ratio(n, d)), n as f64 / d as f64, "{n}/{d}");
    }
    assert_eq!(value(Double::ratio(1, 3).times(1_000_000)), 1.0f64 / 3.0 * 1_000_000.0);
    for x in [0.0f64, 0.25, 1.0 / 3.0, 66.65, 0.5, 1.5, 2.5, 12345.6789, 1e15] {
        let double = Double::from_bits(x.to_bits()).unwrap();
        assert_eq!(value(double), x);
        assert_eq!(double.to_fixed(1), format!("{x:.1}"));
        assert_eq!(double.to_fixed(6), format!("{x:.6}"));
        assert_eq!(double.ceil(), x.ceil() as u64);
        assert_eq!(double.round(), x.round() as u64);
    }
    assert!(Double::from_bits((-1.0f64).to_bits()).is_none());
    assert!(Double::from_bits(f64::NAN.to_bits()).is_none());
    assert!(Double::from_bits(f64::INFINITY.to_bits()).is_none());
}

#[test]
fn labels_name_their_reasons() {
    let reasons = [
        MixedBatchFallbackReason::UnsupportedModel,
        MixedBatchFallbackReason::InactivePagedPool,
        MixedBatchFallbackReason::LoraEnabled,
        MixedBatchFallbackReason::UnsupportedKvFormat,
        MixedBatchFallbackReason::EmptyDecodeBatch,
        MixedBatchFallbackReason::DecodeSlotCountMismatch,
        MixedBatchFallbackReason::EmptyPrefillBatch,
        MixedBatchFallbackReason::PrefillStartPositionCountMismatch,
        MixedBatchFallbackReason::EmptyPrefillTokens,
        MixedBatchFallbackReason::PrefillSlotInDecodeBatch,
        MixedBatchFallbackReason::DuplicatePrefillSlot,
        MixedBatchFallbackReason::PrefillSeqLenMismatch,
        MixedBatchFallbackReason::SchedulerPreDispatchFallback,
    ];
    for reason in reasons {
        assert_eq!(MixedBatchFallbackReason::from_label(reason.as_str()), reason);
    }
    assert_eq!(MixedBatchFallbackReason::PrefillSeqLenMismatch.as_str(), "prefill_seq_len_mismatch");
    assert_eq!(
        MixedBatchFallbackReason::from_label("something else"),
        MixedBatchFallbackReason::UnsupportedModel
    );
}

#[test]
fn copies_of_outputs_are_equal() {
    let output = SpecVerifyOutput { slot_idx: 3, target_argmax_tokens: vec![5, 6] };
    let copy = output.clone();
    assert_eq!((copy.slot_idx, copy.target_argmax_tokens), (3, vec![5, 6]));
}

#[test]
fn page_capacity_covers_every_row() {
    assert_eq!(decode_metadata_page_capacity(4, Some(33), 16, 9), 12);
    assert_eq!(decode_metadata_page_capacity(0, Some(0), 0, 9), 1);
    assert_eq!(decode_metadata_page_capacity(4, None, 16, 9), 9);
    assert_eq!(decode_metadata_page_capacity(4, None, 16, 0), 1);
    assert_eq!(decode_metadata_page_capacity(usize::MAX, Some(64), 16, 0), usize::MAX);
}

#[test]
fn prefill_batches_have_tokens_and_distinct_slots() {
    let request = |slot_idx, tokens| PrefillBatchRequest { slot_idx, tokens };
    assert!(!accepts_prefill_batch(&[]));
    assert!(accepts_prefill_batch(&[request(1, &[1]), request(0, &[2, 3])]));
    assert!(!accepts_prefill_batch(&[request(1, &[1]), request(1, &[2])]));
    assert!(!accepts_prefill_batch(&[request(1, &[])]));

    let requests = [request(1, &[1]), request(0, &[2, 3])];
    assert_eq!(
        prepare_paged_prefill_batch(&requests, &vec![2, 3], 5),
        Ok(Some(vec![
            PageAppend { slot_idx: 1, tokens: 1 },
            PageAppend { slot_idx: 0, tokens: 2 },
        ]))
    );
    let same_slot = [request(1, &[1]), request(1, &[2])];
    assert_eq!(prepare_paged_prefill_batch(&same_slot, &vec![2, 3], 4), Ok(None));
    assert_eq!(prepare_paged_prefill_batch(&[], &vec![], 4), Ok(None));
    assert_eq!(
        prepare_paged_prefill_batch(&requests, &vec![2, 3], 4),
        Err(PageShortage { required: 5, free: 4 })
    );
    assert_eq!(prefill_route(0, true, Some(true)), PrefillRoute::Nothing);
    assert_eq!(prefill_route(1, true, Some(true)), PrefillRoute::Paged);
    assert_eq!(prefill_route(1, true, Some(false)), PrefillRoute::EachRequest);
    assert_eq!(prefill_route(1, false, Some(true)), PrefillRoute::EachRequest);
    assert_eq!(prefill_route(1, true, None), PrefillRoute::EachRequest);
    assert_eq!(forward_phase(1), ForwardPhase::Decode);
    assert_eq!(forward_phase(2), ForwardPhase::Prefill);
}

#[test]
fn states_forget_prefill_logits() {
    let mut base = GenerationStateBase::new(4, 2);
    assert_eq!(base.logits_source(), LogitsSource::Decode);
    base.prefill_logits = true;
    base.graph_captured = true;
    assert_eq!(base.logits_source(), LogitsSource::Prefill);
    assert_eq!(base.truncate_to(7), KvAction::Truncate(7));
    assert_eq!(base, GenerationStateBase::new(4, 2));
    base.prefill_logits = true;
    assert_eq!(base.reset(), KvAction::Reset);
    assert_eq!(base, GenerationStateBase::new(4, 2));

    let turbo = KVFormat::TurboQuant { key_bits: 4, val_bits: 4 };
    assert_eq!(base.migrate_kv_to_paged(KVFormat::BF16, 3, 9), Ok(Migration::Copy { slot: 3 }));
    assert_eq!(base.migrate_kv_to_paged(KVFormat::FP8E4M3, 3, 9), Ok(Migration::Fp8 { slot: 3 }));
    assert_eq!(base.migrate_kv_to_paged(KVFormat::INT8, 3, 9), Ok(Migration::Int8 { slot: 3 }));
    assert_eq!(
        base.migrate_kv_to_paged(turbo, 3, 9),
        Ok(Migration::TurboQuantRows { slot: 3, start_pos: 0, token_count: 9 })
    );
    assert_eq!(base.migrate_kv_to_paged(KVFormat::INT4, 3, 9), Err(MigrationError::Int4));
    assert_eq!(
        base.migrate_kv_range_to_paged(KVFormat::INT8, 3, 2, 5),
        Ok(Migration::Int8Rows { slot: 3, start_pos: 2, token_count: 5 })
    );
    assert_eq!(
        base.migrate_kv_range_to_paged(KVFormat::INT4, 3, 2, 5),
        Err(MigrationError::Int4)
    );
}

#[test]
fn switches_read_words() {
    for word in ["1", "true", "TRUE", "on", "ON", "yes", "YES"] {
        assert_eq!(switch_enabled(Some(word)), Ok(true));
    }
    for word in ["0", "false", "FALSE", "off", "OFF", "no", "NO"] {
        assert_eq!(switch_enabled(Some(word)), Ok(false));
    }
    assert_eq!(switch_enabled(None), Ok(false));
    assert_eq!(switch_enabled(Some("True")), Err(SwitchError::InvalidValue));
    assert_eq!(dsv4_grouped_experts_enabled(Some("on")), Ok(true));
    assert_eq!(dsv4_grouped_experts_enabled(Some("yes")), Err(SwitchError::InvalidValue));
    assert_eq!(dsv4_moe_deepep_enabled(None), Ok(false));
    assert_eq!(dsv4_moe_deepep_enabled(Some("dispatch_combine")), Ok(true));
    assert_eq!(dsv4_moe_deepep_enabled(Some("allreduce")), Ok(false));
    assert_eq!(dsv4_moe_deepep_enabled(Some("0")), Ok(false));
    assert_eq!(dsv4_moe_deepep_enabled(Some("1")), Err(SwitchError::InvalidValue));
    assert!(!enabled_unless_off(None));
    assert!(!enabled_unless_off(Some("off")));
    assert!(!enabled_unless_off(Some("FALSE")) && enabled_unless_off(Some("no")));
    assert!(enabled_unless_off(Some("")));
    assert_eq!(layer_limit(None), Ok(0));
    assert_eq!(layer_limit(Some("12")), Ok(12));
    assert_eq!(layer_limit(Some("many")), Err(SwitchError::InvalidValue));
    assert_eq!(dsv4_gpu_contextual_logits_enabled(None, Some("3")), Ok(true));
    assert_eq!(dsv4_gpu_contextual_logits_enabled(None, None), Ok(false));
    assert_eq!(dsv4_gpu_contextual_logits_enabled(Some("0"), Some("3")), Ok(false));
    assert_eq!(
        dsv4_gpu_contextual_logits_enabled(None, Some("x")),
        Err(SwitchError::InvalidValue)
    );
    assert_eq!(log_topk(Some("5")), Some(5));
    assert_eq!(log_topk(Some("0")), None);
    assert_eq!(log_topk(Some("x")), None);
    assert_eq!(bootstrap_port(Some("29500"), 7), Ok(29507));
    assert_eq!(bootstrap_port(None, 7), Err(PortError::Missing));
    assert_eq!(bootstrap_port(Some("65536"), 0), Err(PortError::Invalid));
    assert_eq!(bootstrap_port(Some("65535"), 1), Err(PortError::Overflow));
}

#[test]
fn counts_become_offsets() {
    assert_eq!(dsv4_counts_to_offsets_i32(&[2, 0, 3]), Ok((vec![0, 2, 2], 5)));
    assert_eq!(dsv4_counts_to_offsets_i32(&[]), Ok((vec![], 0)));
    assert_eq!(dsv4_counts_to_offsets_i32(&[2, -1]), Err(CountError::Negative));
    assert_eq!(dsv4_counts_to_offsets_i32(&[i32::MAX, 5]), Ok((vec![0, i32::MAX], 2_147_483_652)));
    assert_eq!(
        dsv4_counts_to_offsets_i32(&[i32::MAX, 1, 0]),
        Err(CountError::OffsetOverflow)
    );
    assert_eq!(dsv4_counts_to_usize(&[3, 0]), Ok(vec![3, 0]));
    assert_eq!(dsv4_counts_to_usize(&[3, -2]), Err(CountError::Negative));
    assert_eq!(dsv4_offsets_to_usize(&[0, 4]), Ok(vec![0, 4]));
    assert_eq!(dsv4_offsets_to_usize(&[-4]), Err(CountError::Negative));
    assert_eq!(dsv4_scale_usize(&[1, 2], 3), Ok(vec![3, 6]));
    assert_eq!(dsv4_scale_usize(&[usize::MAX], 2), Err(CountError::ExtentOverflow));
}
