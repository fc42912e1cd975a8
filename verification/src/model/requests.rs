//! Rows of work that the scheduler plans and their outcomes.

use vstd::prelude::*;

verus! {

/// One request worth of prefill work inside a scheduler-planned prefill batch.
#[derive(Clone, Copy, Debug)]
pub struct PrefillBatchRequest<'a> {
    pub slot_idx: usize,
    pub tokens: &'a [u32],
}

/// One scheduler-planned mixed decode and packed-prefill batch.
///
/// `prefills[i]` and `prefill_start_positions[i]` belong together: the two
/// slices are one row table.
#[derive(Clone, Copy, Debug)]
pub struct MixedBatchRequest<'a> {
    pub decode_tokens: &'a [u32],
    pub decode_slot_indices: &'a [usize],
    pub prefills: &'a [PrefillBatchRequest<'a>],
    pub prefill_start_positions: &'a [usize],
}

/// Why a mixed batch was not executed as one unit.
#[derive(Clone, Copy, Debug, Eq, PartialEq, Hash, Structural)]
pub enum MixedBatchFallbackReason {
    UnsupportedModel,
    InactivePagedPool,
    LoraEnabled,
    UnsupportedKvFormat,
    EmptyDecodeBatch,
    DecodeSlotCountMismatch,
    EmptyPrefillBatch,
    PrefillStartPositionCountMismatch,
    EmptyPrefillTokens,
    PrefillSlotInDecodeBatch,
    DuplicatePrefillSlot,
    PrefillSeqLenMismatch,
    SchedulerPreDispatchFallback,
}

/// The label of a fallback reason.
pub open spec fn reason_label(reason: MixedBatchFallbackReason) -> Seq<char> {
    match reason {
        MixedBatchFallbackReason::UnsupportedModel => "unsupported_model"@,
        MixedBatchFallbackReason::InactivePagedPool => "inactive_paged_pool"@,
        MixedBatchFallbackReason::LoraEnabled => "lora_enabled"@,
        MixedBatchFallbackReason::UnsupportedKvFormat => "unsupported_kv_format"@,
        MixedBatchFallbackReason::EmptyDecodeBatch => "empty_decode_batch"@,
        MixedBatchFallbackReason::DecodeSlotCountMismatch => "decode_slot_count_mismatch"@,
        MixedBatchFallbackReason::EmptyPrefillBatch => "empty_prefill_batch"@,
        MixedBatchFallbackReason::PrefillStartPositionCountMismatch =>
            "prefill_start_position_count_mismatch"@,
        MixedBatchFallbackReason::EmptyPrefillTokens => "empty_prefill_tokens"@,
        MixedBatchFallbackReason::PrefillSlotInDecodeBatch => "prefill_slot_in_decode_batch"@,
        MixedBatchFallbackReason::DuplicatePrefillSlot => "duplicate_prefill_slot"@,
        MixedBatchFallbackReason::PrefillSeqLenMismatch => "prefill_seq_len_mismatch"@,
        MixedBatchFallbackReason::SchedulerPreDispatchFallback =>
            "scheduler_pre_dispatch_fallback"@,
    }
}

/// The reason that a label stands for; a label that is none of the others
/// counts as an unsupported model.
pub open spec fn labelled_reason(label: Seq<char>) -> MixedBatchFallbackReason {
    if label == "inactive_paged_pool"@ {
        MixedBatchFallbackReason::InactivePagedPool
    } else if label == "lora_enabled"@ {
        MixedBatchFallbackReason::LoraEnabled
    } else if label == "unsupported_kv_format"@ {
        MixedBatchFallbackReason::UnsupportedKvFormat
    } else if label == "empty_decode_batch"@ {
        MixedBatchFallbackReason::EmptyDecodeBatch
    } else if label == "decode_slot_count_mismatch"@ {
        MixedBatchFallbackReason::DecodeSlotCountMismatch
    } else if label == "empty_prefill_batch"@ {
        MixedBatchFallbackReason::EmptyPrefillBatch
    } else if label == "prefill_start_position_count_mismatch"@ {
        MixedBatchFallbackReason::PrefillStartPositionCountMismatch
    } else if label == "empty_prefill_tokens"@ {
        MixedBatchFallbackReason::EmptyPrefillTokens
    } else if label == "prefill_slot_in_decode_batch"@ {
        MixedBatchFallbackReason::PrefillSlotInDecodeBatch
    } else if label == "duplicate_prefill_slot"@ {
        MixedBatchFallbackReason::DuplicatePrefillSlot
    } else if label == "prefill_seq_len_mismatch"@ {
        MixedBatchFallbackReason::PrefillSeqLenMismatch
    } else if label == "scheduler_pre_dispatch_fallback"@ {
        MixedBatchFallbackReason::SchedulerPreDispatchFallback
    } else {
        MixedBatchFallbackReason::UnsupportedModel
    }
}

/// Compares two texts.
pub fn same_text(a: &str, b: &str) -> (same: bool)
    ensures
        same == (a@ == b@),
{
    String::from_str(a) == String::from_str(b)
}

impl MixedBatchFallbackReason {
    /// The label under which the reason is counted and published.
    pub fn as_str(self) -> (label: &'static str)
        ensures
            label@ == reason_label(self),
    {
        match self {
            MixedBatchFallbackReason::UnsupportedModel => "unsupported_model",
            MixedBatchFallbackReason::InactivePagedPool => "inactive_paged_pool",
            MixedBatchFallbackReason::LoraEnabled => "lora_enabled",
            MixedBatchFallbackReason::UnsupportedKvFormat => "unsupported_kv_format",
            MixedBatchFallbackReason::EmptyDecodeBatch => "empty_decode_batch",
            MixedBatchFallbackReason::DecodeSlotCountMismatch => "decode_slot_count_mismatch",
            MixedBatchFallbackReason::EmptyPrefillBatch => "empty_prefill_batch",
            MixedBatchFallbackReason::PrefillStartPositionCountMismatch =>
                "prefill_start_position_count_mismatch",
            MixedBatchFallbackReason::EmptyPrefillTokens => "empty_prefill_tokens",
            MixedBatchFallbackReason::PrefillSlotInDecodeBatch => "prefill_slot_in_decode_batch",
            MixedBatchFallbackReason::DuplicatePrefillSlot => "duplicate_prefill_slot",
            MixedBatchFallbackReason::PrefillSeqLenMismatch => "prefill_seq_len_mismatch",
            MixedBatchFallbackReason::SchedulerPreDispatchFallback =>
                "scheduler_pre_dispatch_fallback",
        }
    }

    /// The reason that a label stands for; an unknown label counts as an
    /// unsupported model.
    pub fn from_label(label: &str) -> (reason: MixedBatchFallbackReason)
        ensures
            reason == labelled_reason(label@),
    {
        if same_text(label, "inactive_paged_pool") {
            MixedBatchFallbackReason::InactivePagedPool
        } else if same_text(label, "lora_enabled") {
            MixedBatchFallbackReason::LoraEnabled
        } else if same_text(label, "unsupported_kv_format") {
            MixedBatchFallbackReason::UnsupportedKvFormat
        } else if same_text(label, "empty_decode_batch") {
            MixedBatchFallbackReason::EmptyDecodeBatch
        } else if same_text(label, "decode_slot_count_mismatch") {
            MixedBatchFallbackReason::DecodeSlotCountMismatch
        } else if same_text(label, "empty_prefill_batch") {
            MixedBatchFallbackReason::EmptyPrefillBatch
        } else if same_text(label, "prefill_start_position_count_mismatch") {
            MixedBatchFallbackReason::PrefillStartPositionCountMismatch
        } else if same_text(label, "empty_prefill_tokens") {
            MixedBatchFallbackReason::EmptyPrefillTokens
        } else if same_text(label, "prefill_slot_in_decode_batch") {
            MixedBatchFallbackReason::PrefillSlotInDecodeBatch
        } else if same_text(label, "duplicate_prefill_slot") {
            MixedBatchFallbackReason::DuplicatePrefillSlot
        } else if same_text(label, "prefill_seq_len_mismatch") {
            MixedBatchFallbackReason::PrefillSeqLenMismatch
        } else if same_text(label, "scheduler_pre_dispatch_fallback") {
            MixedBatchFallbackReason::SchedulerPreDispatchFallback
        } else {
            MixedBatchFallbackReason::UnsupportedModel
        }
    }
}

/// A reason's label leads back to the reason: every reason is counted under
/// its own label and no two share one.
pub proof fn law_labels_name_reasons(reason: MixedBatchFallbackReason)
    ensures
        labelled_reason(reason_label(reason)) == reason,
{
    reveal_strlit("unsupported_model");
    reveal_strlit("inactive_paged_pool");
    reveal_strlit("lora_enabled");
    reveal_strlit("unsupported_kv_format");
    reveal_strlit("empty_decode_batch");
    reveal_strlit("decode_slot_count_mismatch");
    reveal_strlit("empty_prefill_batch");
    reveal_strlit("prefill_start_position_count_mismatch");
    reveal_strlit("empty_prefill_tokens");
    reveal_strlit("prefill_slot_in_decode_batch");
    reveal_strlit("duplicate_prefill_slot");
    reveal_strlit("prefill_seq_len_mismatch");
    reveal_strlit("scheduler_pre_dispatch_fallback");
    // The length tells the labels apart, but for one pair that differs in the
    // first letter.
    assert("unsupported_model"@.len() == 17);
    assert("inactive_paged_pool"@.len() == 19);
    assert("lora_enabled"@.len() == 12);
    assert("unsupported_kv_format"@.len() == 21);
    assert("empty_decode_batch"@.len() == 18);
    assert("decode_slot_count_mismatch"@.len() == 26);
    assert("empty_prefill_batch"@.len() == 19);
    assert("prefill_start_position_count_mismatch"@.len() == 37);
    assert("empty_prefill_tokens"@.len() == 20);
    assert("prefill_slot_in_decode_batch"@.len() == 28);
    assert("duplicate_prefill_slot"@.len() == 22);
    assert("prefill_seq_len_mismatch"@.len() == 24);
    assert("scheduler_pre_dispatch_fallback"@.len() == 31);
    assert("inactive_paged_pool"@[0] == 'i');
    assert("empty_prefill_batch"@[0] == 'e');
}

/// How a mixed batch ended.
#[derive(Clone, Copy, Debug, Eq, PartialEq, Structural)]
pub enum MixedBatchOutcome {
    Executed,
    Fallback(MixedBatchFallbackReason),
}

/// One scheduler-planned speculative verifier row.
///
/// `input_tokens` is the last committed token followed by `draft_tokens`.
/// Logits row `i` verifies `draft_tokens[i]`; the final row supplies the bonus
/// token of the target model.
#[derive(Clone, Copy, Debug)]
pub struct SpecVerifyRequest<'a> {
    pub slot_idx: usize,
    pub input_tokens: &'a [u32],
    pub draft_tokens: &'a [u32],
}

/// Target tokens of one verified row.
#[derive(Debug)]
pub struct SpecVerifyOutput {
    pub slot_idx: usize,
    pub target_argmax_tokens: Vec<u32>,
}

impl Clone for SpecVerifyOutput {
    fn clone(&self) -> (copy: Self)
        ensures
            copy.slot_idx == self.slot_idx,
            copy.target_argmax_tokens@ == self.target_argmax_tokens@,
    {
        let target_argmax_tokens = self.target_argmax_tokens.clone();
        proof {
            assert(target_argmax_tokens@ =~= self.target_argmax_tokens@);
        }
        SpecVerifyOutput { slot_idx: self.slot_idx, target_argmax_tokens }
    }
}

/// One sparse-KV draft attention view for self speculation.
///
/// `page_ids` are physical page ids selected by the scheduler. The view is a
/// draft-only approximation; verification uses the full page table of the slot.
#[derive(Clone, Copy, Debug)]
pub struct SparseKvDraftView<'a> {
    pub slot_idx: usize,
    pub page_ids: &'a [u32],
    pub active_recent_tokens: usize,
}

/// Format of the pages in the KV pool.
#[derive(Clone, Copy, Debug, Eq, PartialEq, Structural)]
pub enum KVFormat {
    BF16,
    FP8E4M3,
    INT8,
    INT4,
    TurboQuant { key_bits: u8, val_bits: u8 },
}

/// What the scheduler plans to run at once, from which a model sizes its
/// runtime workspace.
#[derive(Clone, Copy, Debug)]
pub struct SchedulerRuntimeWorkspaceBudget {
    pub max_batch_size: usize,
    pub prefill_tokens: usize,
    pub mixed_prefill_tokens: usize,
    pub max_seq_len: Option<usize>,
    pub kv_pool_format: KVFormat,
}

} // verus!
