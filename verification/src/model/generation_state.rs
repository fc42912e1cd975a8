//! Generation state that all models share.
//!
//! The KV cache, the prefill logits and the captured graph live on the device.
//! What is kept here decides which of them is valid and how the cache moves
//! into the paged pool.

use vstd::prelude::*;

use crate::model::requests::KVFormat;

verus! {

/// Where the logits of a request are.
#[derive(Clone, Copy, Debug, PartialEq, Eq, Structural)]
pub enum LogitsSource {
    Prefill,
    Decode,
}

/// What happens to the contiguous KV cache.
#[derive(Clone, Copy, Debug, PartialEq, Eq, Structural)]
pub enum KvAction {
    /// All tokens are dropped.
    Reset,
    /// The tokens from this length on are dropped.
    Truncate(usize),
}

/// How keys and values move from the contiguous cache into the paged pool.
#[derive(Clone, Copy, Debug, PartialEq, Eq, Structural)]
pub enum Migration {
    /// All tokens of a slot, as they are.
    Copy { slot: usize },
    /// All tokens of a slot, quantized to FP8 on the way.
    Fp8 { slot: usize },
    /// All tokens of a slot, with the scales of the quantized cache.
    Int8 { slot: usize },
    /// A range of tokens, as they are.
    CopyRange { slot: usize, start_pos: usize, token_count: usize },
    /// The pool rows of a range of tokens, quantized to FP8 on the way.
    Fp8Rows { slot: usize, start_pos: usize, token_count: usize },
    /// The pool rows of a range of tokens, with their scales.
    Int8Rows { slot: usize, start_pos: usize, token_count: usize },
    /// The pool rows of a range of tokens, rotated and quantized on the way.
    TurboQuantRows { slot: usize, start_pos: usize, token_count: usize },
}

/// Why a cache cannot move.
#[derive(Clone, Copy, Debug, PartialEq, Eq, Structural)]
pub enum MigrationError {
    /// INT4 pages are only filled by paged prefill.
    Int4,
}

/// How all tokens of a slot move into a pool; the slot holds `seq_len` tokens.
pub open spec fn slot_migration(format: KVFormat, slot: usize, seq_len: usize) -> Result<
    Migration,
    MigrationError,
> {
    match format {
        KVFormat::BF16 => Ok(Migration::Copy { slot }),
        KVFormat::FP8E4M3 => Ok(Migration::Fp8 { slot }),
        KVFormat::INT8 => Ok(Migration::Int8 { slot }),
        KVFormat::INT4 => Err(MigrationError::Int4),
        KVFormat::TurboQuant { .. } => Ok(
            Migration::TurboQuantRows { slot, start_pos: 0, token_count: seq_len },
        ),
    }
}

/// How a range of tokens of a slot moves into a pool.
pub open spec fn range_migration(
    format: KVFormat,
    slot: usize,
    start_pos: usize,
    token_count: usize,
) -> Result<Migration, MigrationError> {
    match format {
        KVFormat::BF16 => Ok(Migration::CopyRange { slot, start_pos, token_count }),
        KVFormat::FP8E4M3 => Ok(Migration::Fp8Rows { slot, start_pos, token_count }),
        KVFormat::INT8 => Ok(Migration::Int8Rows { slot, start_pos, token_count }),
        KVFormat::INT4 => Err(MigrationError::Int4),
        KVFormat::TurboQuant { .. } => Ok(
            Migration::TurboQuantRows { slot, start_pos, token_count },
        ),
    }
}

/// Whether a slot can move depends on the format of the pool alone, in one
/// piece as in ranges.
pub proof fn law_migration_depends_on_format(
    format: KVFormat,
    slot: usize,
    seq_len: usize,
    start_pos: usize,
    token_count: usize,
)
    ensures
        slot_migration(format, slot, seq_len) is Ok <==> format != KVFormat::INT4,
        range_migration(format, slot, start_pos, token_count) is Ok <==> format != KVFormat::INT4,
{
}

/// State of a request that every model carries.
#[derive(Clone, Copy, Debug, PartialEq, Eq, Structural)]
pub struct GenerationStateBase {
    pub num_layers: usize,
    pub num_kv_heads: usize,
    /// The logits of the last prefill are valid.
    pub prefill_logits: bool,
    /// A graph of the decode step is captured.
    pub graph_captured: bool,
}

impl GenerationStateBase {
    /// A state without logits or graph.
    pub fn new(num_layers: usize, num_kv_heads: usize) -> (state: Self)
        ensures
            state == (GenerationStateBase {
                num_layers,
                num_kv_heads,
                prefill_logits: false,
                graph_captured: false,
            }),
    {
        GenerationStateBase {
            num_layers,
            num_kv_heads,
            prefill_logits: false,
            graph_captured: false,
        }
    }

    /// Prefill logits where there are any, else those of the decode buffer.
    pub fn logits_source(&self) -> (source: LogitsSource)
        ensures
            source == (if self.prefill_logits {
                LogitsSource::Prefill
            } else {
                LogitsSource::Decode
            }),
    {
        if self.prefill_logits {
            LogitsSource::Prefill
        } else {
            LogitsSource::Decode
        }
    }

    /// Drops the tokens, the prefill logits and the graph.
    pub fn reset(&mut self) -> (action: KvAction)
        ensures
            action == KvAction::Reset,
            *final(self) == (GenerationStateBase {
                prefill_logits: false,
                graph_captured: false,
                ..*old(self)
            }),
    {
        self.prefill_logits = false;
        self.graph_captured = false;
        KvAction::Reset
    }

    /// Drops the tokens from `len` on, the prefill logits and the graph.
    pub fn truncate_to(&mut self, len: usize) -> (action: KvAction)
        ensures
            action == KvAction::Truncate(len),
            *final(self) == (GenerationStateBase {
                prefill_logits: false,
                graph_captured: false,
                ..*old(self)
            }),
    {
        self.prefill_logits = false;
        self.graph_captured = false;
        KvAction::Truncate(len)
    }

    /// How the cache of a slot moves into the pool. The format of the pool
    /// decides, not that of the cache: an FP8 pool quantizes on the way.
    pub fn migrate_kv_to_paged(&self, format: KVFormat, slot: usize, seq_len: usize) -> (r: Result<
        Migration,
        MigrationError,
    >)
        ensures
            r == slot_migration(format, slot, seq_len),
    {
        match format {
            KVFormat::BF16 => Ok(Migration::Copy { slot }),
            KVFormat::FP8E4M3 => Ok(Migration::Fp8 { slot }),
            KVFormat::INT8 => Ok(Migration::Int8 { slot }),
            KVFormat::INT4 => Err(MigrationError::Int4),
            KVFormat::TurboQuant { .. } => Ok(
                Migration::TurboQuantRows { slot, start_pos: 0, token_count: seq_len },
            ),
        }
    }

    /// How a range of a slot moves into the pool.
    pub fn migrate_kv_range_to_paged(
        &self,
        format: KVFormat,
        slot: usize,
        start_pos: usize,
        token_count: usize,
    ) -> (r: Result<Migration, MigrationError>)
        ensures
            r == range_migration(format, slot, start_pos, token_count),
    {
        match format {
            KVFormat::BF16 => Ok(Migration::CopyRange { slot, start_pos, token_count }),
            KVFormat::FP8E4M3 => Ok(Migration::Fp8Rows { slot, start_pos, token_count }),
            KVFormat::INT8 => Ok(Migration::Int8Rows { slot, start_pos, token_count }),
            KVFormat::INT4 => Err(MigrationError::Int4),
            KVFormat::TurboQuant { .. } => Ok(
                Migration::TurboQuantRows { slot, start_pos, token_count },
            ),
        }
    }
}

/// The format of the pool decides how tokens move: as they are into a pool of the
/// cache's own numbers, and converted into any other. What moves is the slot that
/// was named, and of a range its own tokens.
pub proof fn law_formats_decide_how_tokens_move(
    format: KVFormat,
    slot: usize,
    seq_len: usize,
    start_pos: usize,
    token_count: usize,
)
    ensures
        slot_migration(format, slot, seq_len) matches Ok(m) ==> {
            &&& m is Copy <==> format is BF16
            &&& m is Fp8 <==> format is FP8E4M3
            &&& m is Int8 <==> format is INT8
            &&& m is TurboQuantRows <==> format is TurboQuant
            &&& moved_slot(m) == slot
            &&& moved_range(m) matches Some(range) ==> range == (0usize, seq_len)
        },
        range_migration(format, slot, start_pos, token_count) matches Ok(m) ==> {
            &&& m is CopyRange <==> format is BF16
            &&& m is Fp8Rows <==> format is FP8E4M3
            &&& m is Int8Rows <==> format is INT8
            &&& m is TurboQuantRows <==> format is TurboQuant
            &&& moved_slot(m) == slot
            &&& moved_range(m) == Some((start_pos, token_count))
        },
        format is TurboQuant ==> slot_migration(format, slot, seq_len) == range_migration(
            format,
            slot,
            0,
            seq_len,
        ),
{
}

/// The slot that a migration moves.
pub open spec fn moved_slot(m: Migration) -> usize {
    match m {
        Migration::Copy { slot } => slot,
        Migration::Fp8 { slot } => slot,
        Migration::Int8 { slot } => slot,
        Migration::CopyRange { slot, .. } => slot,
        Migration::Fp8Rows { slot, .. } => slot,
        Migration::Int8Rows { slot, .. } => slot,
        Migration::TurboQuantRows { slot, .. } => slot,
    }
}

/// The first token and the number of tokens that a migration moves, where it moves
/// a range.
pub open spec fn moved_range(m: Migration) -> Option<(usize, usize)> {
    match m {
        Migration::Copy { .. } => None,
        Migration::Fp8 { .. } => None,
        Migration::Int8 { .. } => None,
        Migration::CopyRange { start_pos, token_count, .. } => Some((start_pos, token_count)),
        Migration::Fp8Rows { start_pos, token_count, .. } => Some((start_pos, token_count)),
        Migration::Int8Rows { start_pos, token_count, .. } => Some((start_pos, token_count)),
        Migration::TurboQuantRows { start_pos, token_count, .. } => Some(
            (start_pos, token_count),
        ),
    }
}

} // verus!
