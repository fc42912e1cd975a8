//! What holds of every attention step: where its tokens stand, what its kernels
//! are told, and how one step continues the one before.

use vstd::prelude::*;

use crate::model::deepseek::attention::{
    compressor_update, compressor_width, finish_plan, law_only_complete_blocks,
    law_rows_are_compressed_or_wait, prepared_compressor, room_fault, step_countable, swa_plan,
    temp_compression, update_countable,
};
use crate::model::deepseek::attention::{
    AttentionConfig, AttentionError, AttentionStep, CompressorRequest, CompressorStep,
    DeepseekV4Attention, DeepseekV4Compressor, DeepseekV4Indexer, RopeBase, StatesUse,
};
use crate::model::deepseek::config::AttentionMode;
use crate::model::deepseek::device::{HiddenShape, LinearDispatchPhase};
use crate::model::deepseek::mla::{
    block_forward, block_step, cached_block_forward, caches_countable, compression_countable,
    compressor_or_empty, csa_plan, index_request, row_capacity, row_request,
};
use crate::model::deepseek::mla::{AttentionPlan, AttentionRun, Compression};
use crate::model::deepseek::state::{
    law_compressor_cache_serves, no_attention_cache, no_compressor_cache,
};
use crate::model::deepseek::state::{
    DeepseekAttentionRuntimeCache, DeepseekGpuCompressorRuntimeCache,
};

verus! {

/// The rows and the width of states, wherever they are kept.
pub open spec fn shape_of(states: StatesUse) -> HiddenShape {
    match states {
        StatesUse::Fresh(shape) => shape,
        StatesUse::Kept { scratch, .. } => scratch.hidden,
    }
}

/// A buffer that holds rows of this width was allocated for no other width.
pub open spec fn is_sound(states: StatesUse) -> bool {
    states matches StatesUse::Kept { scratch, .. } ==> scratch.hidden.hidden_dim
        == scratch.hidden_dim
}

/// Tokens are rotated by their absolute position, whatever the layer attends to:
/// the kernel is told the position of the step's first token and the number of its
/// tokens, so that token `i` of the step stands at `start_pos + i`. A layer with a
/// compression ratio rotates with its own base over the original context, a layer
/// without one with the plain base.
pub proof fn law_tokens_are_rotated_by_their_position(
    c: AttentionConfig,
    s: AttentionStep,
    a: DeepseekV4Attention,
    rows: usize,
    cache: Option<DeepseekAttentionRuntimeCache>,
    i: int,
)
    requires
        s.start_pos + s.token_count <= i32::MAX,
        0 <= i < s.token_count,
    ensures
        ({
            let p = finish_plan(c, s, a, rows, cache).prepare;
            &&& p.start_pos + i == s.start_pos + i
            &&& p.token_count == s.token_count
            &&& p.rope_dim == c.rope_dim as i32
            &&& p.rope_base == RopeBase::Compressed <==> s.ratio > 0
            &&& p.original_positions == if s.ratio > 0 {
                c.original_positions as i32
            } else {
                0i32
            }
        }),
        ({
            let p = swa_plan(c, s, a, cache).prepare;
            &&& p.start_pos + i == s.start_pos + i
            &&& p.token_count == s.token_count
            &&& p.rope_dim == c.rope_dim as i32
            &&& p.rope_base == RopeBase::Plain
            &&& p.original_positions == 0
        }),
{
}

/// A sequence prepared in two steps is rotated like the sequence in one step: the
/// second step begins where the first one ends, and together they have the tokens
/// of the whole.
pub proof fn law_chunks_are_rotated_like_the_whole(
    c: AttentionConfig,
    whole: AttentionStep,
    first: usize,
    a: DeepseekV4Attention,
    rows: (usize, usize, usize),
    caches: (
        Option<DeepseekAttentionRuntimeCache>,
        Option<DeepseekAttentionRuntimeCache>,
        Option<DeepseekAttentionRuntimeCache>,
    ),
)
    requires
        first <= whole.token_count,
        whole.start_pos + whole.token_count <= i32::MAX,
    ensures
        ({
            let one = AttentionStep { token_count: first, ..whole };
            let two = AttentionStep {
                token_count: (whole.token_count - first) as usize,
                start_pos: (whole.start_pos + first) as usize,
                ..whole
            };
            let w = finish_plan(c, whole, a, rows.0, caches.0).prepare;
            let p = finish_plan(c, one, a, rows.1, caches.1).prepare;
            let q = finish_plan(c, two, a, rows.2, caches.2).prepare;
            &&& p.start_pos == w.start_pos
            &&& q.start_pos == p.start_pos + p.token_count
            &&& p.token_count + q.token_count == w.token_count
            &&& (p.local_heads, p.head_dim, p.rope_dim, p.rope_base, p.original_positions) == (
                w.local_heads,
                w.head_dim,
                w.rope_dim,
                w.rope_base,
                w.original_positions,
            )
            &&& (q.local_heads, q.head_dim, q.rope_dim, q.rope_base, q.original_positions) == (
                w.local_heads,
                w.head_dim,
                w.rope_dim,
                w.rope_base,
                w.original_positions,
            )
        }),
{
}

/// The kernels see the heads of the rank, the whole window and the compressed rows
/// that there are. The output has a row per token and is summed over the ranks.
pub proof fn law_kernels_see_the_heads_and_the_rows(
    c: AttentionConfig,
    s: AttentionStep,
    a: DeepseekV4Attention,
    rows: usize,
    cache: Option<DeepseekAttentionRuntimeCache>,
)
    requires
        step_countable(c, s),
        c.tp_rank * s.local_heads <= i32::MAX,
        rows <= i32::MAX && s.ratio <= i32::MAX && c.index_topk <= i32::MAX,
        c.sliding_window <= i32::MAX && s.local_heads <= i32::MAX && s.head_dim <= i32::MAX,
    ensures
        ({
            let p = finish_plan(c, s, a, rows, cache);
            &&& p.prepare.local_heads == s.local_heads
            &&& p.prepare.head_dim == s.head_dim
            &&& p.kernel.head_offset == c.tp_rank * s.local_heads
            &&& p.kernel.sliding_window == c.sliding_window
            &&& p.kernel.compressed_rows == rows
            &&& p.kernel.ratio == s.ratio
            &&& p.kernel.index_topk == c.index_topk
            &&& p.kernel.mode == 0 <==> s.mode == AttentionMode::SlidingWindow
            &&& p.kernel.mode == 1 <==> s.mode == AttentionMode::CompressedSparse
            &&& p.kernel.mode == 2 <==> s.mode == AttentionMode::HybridCompressed
            &&& p.window.len == c.sliding_window * s.head_dim
            &&& p.window.kept == cache is Some
            &&& cache is None ==> p.window.allocate
            &&& p.phase == Some(
                if s.token_count > 1 {
                    LinearDispatchPhase::Prefill
                } else {
                    LinearDispatchPhase::Decode
                },
            )
            &&& shape_of(p.queries).seq_len == shape_of(p.keys).seq_len == shape_of(
                p.attended,
            ).seq_len == shape_of(p.latent).seq_len == s.token_count || s.token_count == 0
            &&& is_sound(p.queries) ==> shape_of(p.queries).hidden_dim == s.local_width
            &&& is_sound(p.keys) ==> shape_of(p.keys).hidden_dim == s.head_dim
            &&& is_sound(p.attended) ==> shape_of(p.attended).hidden_dim == s.local_width
            &&& is_sound(p.latent) ==> shape_of(p.latent).hidden_dim == a.wo_a.rows
            &&& p.out.hidden_dim == a.wo_b.rows
            &&& p.out.seq_len == s.token_count
            &&& p.all_reduce == p.out
        }),
        ({
            let p = swa_plan(c, s, a, cache);
            let f = finish_plan(c, s, a, rows, cache);
            &&& p.kernel.head_offset == f.kernel.head_offset
            &&& p.kernel.sliding_window == f.kernel.sliding_window
            &&& p.kernel.compressed_rows == p.kernel.ratio == p.kernel.mode == p.kernel.index_topk
                == 0
            &&& p.prepare.local_heads == s.local_heads
            &&& p.prepare.head_dim == s.head_dim
            &&& p.window == f.window
            &&& p.out == f.out
            &&& p.all_reduce == p.out
            &&& p.phase is None
            &&& p.attended == p.queries
            &&& p.queries == StatesUse::Fresh(
                HiddenShape { hidden_dim: s.local_width, seq_len: s.token_count },
            )
            &&& p.keys == StatesUse::Fresh(
                HiddenShape { hidden_dim: s.head_dim, seq_len: s.token_count },
            )
            &&& p.latent == StatesUse::Fresh(
                HiddenShape { hidden_dim: a.wo_a.rows, seq_len: s.token_count },
            )
        }),
{
    assert(0 <= c.tp_rank * s.local_heads) by (nonlinear_arith);
    assert(0 <= c.sliding_window * s.head_dim) by (nonlinear_arith);
}

/// An update of a compressor tells the kernel the step's tokens, where they begin
/// and what waits already, and takes in every one of them: tokens are compressed in
/// blocks of `ratio`, and fewer than a block wait afterwards. A row counts as a
/// previous one exactly where some row was compressed before.
pub proof fn law_updates_take_in_every_token(
    c: AttentionConfig,
    w: DeepseekV4Compressor,
    q: CompressorRequest,
    seq_len: usize,
    cache: DeepseekGpuCompressorRuntimeCache,
)
    requires
        update_countable(q, seq_len, cache),
        compressor_update(c, w, q, seq_len, cache).0 is Ok,
        cache.compressed_rows + cache.pending_len + seq_len <= i32::MAX,
        q.ratio <= i32::MAX && q.start_pos <= i32::MAX && w.wkv.rows <= i32::MAX,
        q.head_dim <= i32::MAX,
    ensures
        ({
            let (r, after) = compressor_update(c, w, q, seq_len, cache);
            let step = r->Ok_0;
            &&& q.ratio > 0
            &&& step.args.seq_len == seq_len
            &&& step.args.start_pos == q.start_pos
            &&& step.args.ratio == q.ratio
            &&& step.args.head_dim == q.head_dim
            &&& step.args.width == w.wkv.rows == w.wgate.rows
            &&& step.args.width == if q.overlap {
                2 * q.head_dim
            } else {
                q.head_dim as int
            }
            &&& step.args.overlap == if q.overlap {
                1
            } else {
                0int
            }
            &&& step.args.has_previous == if step.args.compressed_rows > 0 {
                1
            } else {
                0int
            }
            &&& step.args.rope_dim == if q.apply_rope {
                c.rope_dim as i32
            } else {
                0i32
            }
            &&& step.args.original_positions == if q.apply_rope {
                c.original_positions as i32
            } else {
                0i32
            }
            &&& after.compressed_rows == step.args.compressed_rows + step.completed
            &&& after.pending_len < q.ratio
            &&& step.completed * q.ratio + after.pending_len == step.args.pending_len + seq_len
            &&& after.compressed_rows <= after.compressed_capacity
            &&& after.compressed_capacity >= q.capacity_rows
            &&& after.compressed is Some
        }),
{
    let (r, after) = compressor_update(c, w, q, seq_len, cache);
    let width = if q.overlap {
        2 * q.head_dim
    } else {
        q.head_dim as int
    };
    law_compressor_cache_serves(
        cache,
        q.capacity_rows,
        q.ratio,
        width as usize,
        q.head_dim,
    );
    let ready = prepared_compressor(cache, q, seq_len);
    law_rows_are_compressed_or_wait(ready, q.ratio, seq_len);
    let waiting = (ready.pending_len + seq_len) as int;
    let ratio = q.ratio as int;
    vstd::arithmetic::div_mod::lemma_fundamental_div_mod(waiting, ratio);
    assert(0 <= waiting / ratio <= waiting) by (nonlinear_arith)
        requires
            ratio > 0,
            waiting >= 0,
    ;
    assert(ratio * (waiting / ratio) == (waiting / ratio) * ratio) by (nonlinear_arith);
}

/// The selection of blocks scores every token of the step, at its position, against
/// all `key_count` blocks of the indexer, by all heads of the indexer, and keeps
/// `index_topk` blocks for each.
pub proof fn law_selection_scores_every_token(
    c: AttentionConfig,
    ix: DeepseekV4Indexer,
    s: AttentionStep,
    key_count: usize,
)
    requires
        csa_plan(c, ix, s, key_count) is Ok,
        c.index_head_dim > 0,
        s.token_count * c.index_topk <= i32::MAX,
        ix.wq_b.rows <= i32::MAX && s.token_count <= i32::MAX && c.index_topk <= i32::MAX,
        key_count <= i32::MAX && s.ratio <= i32::MAX && s.start_pos <= i32::MAX,
        c.index_head_dim <= i32::MAX,
    ensures
        ({
            let p = csa_plan(c, ix, s, key_count)->Ok_0;
            &&& p.seq_len == s.token_count
            &&& p.start_pos == s.start_pos
            &&& p.key_count == key_count
            &&& p.ratio == s.ratio
            &&& p.topk == c.index_topk
            &&& p.selected == p.seq_len * p.topk
            &&& p.head_dim == c.index_head_dim
            &&& p.local_heads * p.head_dim == ix.wq_b.rows == p.query_dim
            &&& p.local_heads == ix.weights_proj.rows
            &&& p.queries.hidden_dim == ix.wq_b.rows
            &&& p.weights.hidden_dim == ix.weights_proj.rows
            &&& p.queries.seq_len == p.weights.seq_len == s.token_count
        }),
{
    let (rows, dim) = (ix.wq_b.rows as int, c.index_head_dim as int);
    vstd::arithmetic::div_mod::lemma_fundamental_div_mod(rows, dim);
    assert(rows / dim * dim == dim * (rows / dim)) by (nonlinear_arith);
    assert(0 <= rows / dim <= rows) by (nonlinear_arith)
        requires
            rows >= 0,
            dim > 0,
    ;
    assert(0 <= s.token_count * c.index_topk) by (nonlinear_arith);
}

/// Compression of the rows that a layer attends to: the tokens of the step at
/// their position, rotated, with an overlap exactly where the ratio is below
/// sixteen.
pub open spec fn is_row_compression(
    rows: Compression,
    c: AttentionConfig,
    s: AttentionStep,
) -> bool {
    let args = match rows {
        Compression::Whole(whole) => whole.step->Some_0.args,
        Compression::Update(step) => step.args,
    };
    (rows matches Compression::Whole(whole) && whole.step is None) || {
        &&& args.seq_len == s.token_count as i32
        &&& args.start_pos == s.start_pos as i32
        &&& args.ratio == s.ratio as i32
        &&& args.head_dim == s.head_dim as i32
        &&& args.overlap == 1 <==> s.ratio < 16
        &&& args.rope_dim == c.rope_dim as i32
        &&& args.original_positions == c.original_positions as i32
    }
}

/// Compression of the indexer's rows: the same tokens at the same position, with an
/// overlap and without a rotation.
pub open spec fn is_index_compression(
    rows: Compression,
    c: AttentionConfig,
    s: AttentionStep,
) -> bool {
    let args = match rows {
        Compression::Whole(whole) => whole.step->Some_0.args,
        Compression::Update(step) => step.args,
    };
    (rows matches Compression::Whole(whole) && whole.step is None) || {
        &&& args.seq_len == s.token_count as i32
        &&& args.start_pos == s.start_pos as i32
        &&& args.ratio == s.ratio as i32
        &&& args.head_dim == c.index_head_dim as i32
        &&& args.overlap == 1
        &&& args.rope_dim == 0
        &&& args.original_positions == 0
    }
}

/// A block with a cache runs the tokens it was given, at the position it was given:
/// attention, compression and selection agree on them. It attends to all rows that
/// its cache holds afterwards, and selects among all that the indexer's cache holds.
pub proof fn law_cached_blocks_run_their_tokens(
    c: AttentionConfig,
    a: DeepseekV4Attention,
    hidden: HiddenShape,
    start_pos: usize,
    ratio: usize,
    mode: AttentionMode,
    cache: DeepseekAttentionRuntimeCache,
)
    requires
        c.head_dim > 0,
        cached_block_forward(c, a, hidden, start_pos, Some(ratio), mode, cache).0 is Ok,
    ensures
        ({
            let (r, after) = cached_block_forward(
                c,
                a,
                hidden,
                start_pos,
                Some(ratio),
                mode,
                cache,
            );
            let run = r->Ok_0;
            let core = run.plan.core_plan();
            let rows = after.compressed_gpu->Some_0;
            let index = after.indexer_gpu->Some_0;
            &&& core.prepare.start_pos == start_pos as i32
            &&& core.prepare.token_count == hidden.seq_len as i32
            &&& core.prepare.head_dim == c.head_dim as i32
            &&& core.prepare.local_heads == (a.wq_b.rows / c.head_dim) as i32
            &&& core.out == (HiddenShape { hidden_dim: a.wo_b.rows, seq_len: hidden.seq_len })
            &&& core.all_reduce == core.out
            &&& core.window.kept
            &&& core.kernel.ratio == ratio as i32
            &&& ratio == 0 <==> run.plan is Window
            &&& ratio == 0 ==> core.prepare.rope_base == RopeBase::Plain
            &&& run.plan matches AttentionPlan::Compressed { rows: made, selection, .. } ==> {
                let s = block_step(c, a, hidden, start_pos, ratio, mode);
                &&& core.prepare.rope_base == RopeBase::Compressed
                &&& core.kernel.compressed_rows == rows.compressed_rows as i32
                &&& made is Update
                &&& is_row_compression(made, c, s)
                &&& selection is Some <==> mode == AttentionMode::CompressedSparse
                &&& selection matches Some(chosen) ==> {
                    &&& chosen.keys is Update
                    &&& is_index_compression(chosen.keys, c, s)
                    &&& chosen.choice.key_count == index.compressed_rows as i32
                    &&& chosen.choice.seq_len == hidden.seq_len as i32
                    &&& chosen.choice.start_pos == start_pos as i32
                    &&& chosen.choice.topk == c.index_topk as i32
                }
            }
            &&& run.projections.phase == Some(LinearDispatchPhase::Decode)
            &&& hidden.seq_len > 0 ==> shape_of(run.projections.c_q).seq_len == shape_of(
                run.projections.c_q_normed,
            ).seq_len == shape_of(run.projections.q_raw).seq_len == shape_of(
                run.projections.kv_raw,
            ).seq_len == shape_of(run.projections.kv_normed).seq_len == hidden.seq_len
            &&& is_sound(run.projections.c_q) ==> shape_of(run.projections.c_q).hidden_dim
                == a.wq_a.rows
            &&& is_sound(run.projections.c_q_normed) ==> shape_of(
                run.projections.c_q_normed,
            ).hidden_dim == a.wq_a.rows
            &&& is_sound(run.projections.q_raw) ==> shape_of(run.projections.q_raw).hidden_dim
                == a.wq_b.rows
            &&& is_sound(run.projections.kv_raw) ==> shape_of(run.projections.kv_raw).hidden_dim
                == c.head_dim
            &&& is_sound(run.projections.kv_normed) ==> shape_of(
                run.projections.kv_normed,
            ).hidden_dim == c.head_dim
        }),
{
}

/// A block without a cache plans what a block with an empty cache plans for the
/// beginning of a sequence: the kernels are told the same, the same number of rows
/// is compressed, and blocks are selected the same way.
pub proof fn law_first_steps_need_no_cache(
    c: AttentionConfig,
    a: DeepseekV4Attention,
    hidden: HiddenShape,
    ratio: usize,
    mode: AttentionMode,
)
    requires
        c.head_dim > 0,
        block_forward(c, a, hidden, Some(ratio), mode) is Ok,
        cached_block_forward(c, a, hidden, 0, Some(ratio), mode, no_attention_cache()).0 is Ok,
    ensures
        ({
            let plain = block_forward(c, a, hidden, Some(ratio), mode)->Ok_0;
            let kept = cached_block_forward(
                c,
                a,
                hidden,
                0,
                Some(ratio),
                mode,
                no_attention_cache(),
            ).0->Ok_0;
            let (p, k) = (plain.plan.core_plan(), kept.plan.core_plan());
            &&& p.prepare == k.prepare
            &&& p.kernel == k.kernel
            &&& p.out == k.out
            &&& p.all_reduce == k.all_reduce
            &&& p.window.len == k.window.len
            &&& !p.window.kept
            &&& plain.plan is Window <==> kept.plan is Window
            &&& plain.plan matches AttentionPlan::Compressed { selection, .. } ==> {
                let other = kept.plan->selection;
                &&& selection is Some <==> other is Some
                &&& selection is Some ==> selection->Some_0.choice == other->Some_0.choice
            }
        }),
{
    let s = block_step(c, a, hidden, 0, ratio, mode);
    if ratio > 0 {
        assert(hidden.seq_len / ratio <= hidden.seq_len) by (nonlinear_arith)
            requires
                ratio > 0,
        ;
        assert(a.compressor is Some);
        law_only_complete_blocks(
            c,
            a.compressor->Some_0,
            row_request(s, 0),
            hidden.seq_len,
        );
        if mode == AttentionMode::CompressedSparse {
            law_only_complete_blocks(
                c,
                a.indexer->Some_0.compressor,
                index_request(c, s, 0),
                hidden.seq_len,
            );
        }
    }
}

/// Tokens that a compressor's cache has taken in.
pub open spec fn tokens_taken(cache: Option<DeepseekGpuCompressorRuntimeCache>, ratio: usize) -> int {
    match cache {
        Some(rows) => rows.compressed_rows * ratio + rows.pending_len,
        None => 0,
    }
}

proof fn lemma_updates_add(
    c: AttentionConfig,
    w: DeepseekV4Compressor,
    q: CompressorRequest,
    next: usize,
    first: usize,
    second: usize,
    cache: DeepseekGpuCompressorRuntimeCache,
)
    requires
        update_countable(q, first, cache),
        compressor_update(c, w, q, first, cache).0 is Ok,
        ({
            let kept = compressor_update(c, w, q, first, cache).1;
            let then = CompressorRequest { start_pos: next, ..q };
            &&& update_countable(q, second, kept)
            &&& compressor_update(c, w, then, second, kept).0 is Ok
        }),
    ensures
        ({
            let kept = compressor_update(c, w, q, first, cache).1;
            let then = CompressorRequest { start_pos: next, ..q };
            let after = compressor_update(c, w, then, second, kept).1;
            &&& cache == no_compressor_cache() ==> tokens_taken(Some(kept), q.ratio) == first
            &&& tokens_taken(Some(after), q.ratio) == tokens_taken(Some(kept), q.ratio) + second
        }),
{
    let width = compressor_width(q.head_dim, q.overlap) as usize;
    let kept = compressor_update(c, w, q, first, cache).1;
    let then = CompressorRequest { start_pos: next, ..q };
    law_compressor_cache_serves(cache, q.capacity_rows, q.ratio, width, q.head_dim);
    law_rows_are_compressed_or_wait(prepared_compressor(cache, q, first), q.ratio, first);
    law_rows_are_compressed_or_wait(prepared_compressor(kept, then, second), q.ratio, second);
    assert(0 * q.ratio == 0) by (nonlinear_arith);
}

/// A step continues where the step before it ended: from an empty cache the first
/// step takes in its own tokens, and the next one adds its own to them. Nothing that
/// was compressed is lost between two steps, and nothing is compressed twice.
pub proof fn law_steps_continue(
    c: AttentionConfig,
    a: DeepseekV4Attention,
    ratio: usize,
    mode: AttentionMode,
    first: HiddenShape,
    start: usize,
    second: HiddenShape,
    next: usize,
    cache: DeepseekAttentionRuntimeCache,
)
    requires
        ratio > 0,
        caches_countable(block_step(c, a, first, start, ratio, mode), cache),
        ({
            let (r, kept) = cached_block_forward(c, a, first, start, Some(ratio), mode, cache);
            &&& r is Ok
            &&& cached_block_forward(c, a, second, next, Some(ratio), mode, kept).0 is Ok
            &&& caches_countable(block_step(c, a, second, next, ratio, mode), kept)
            &&& compression_countable(c, block_step(c, a, second, next, ratio, mode), a)
            &&& kept.compressed_gpu is Some
        }),
    ensures
        ({
            let kept = cached_block_forward(c, a, first, start, Some(ratio), mode, cache).1;
            let after = cached_block_forward(c, a, second, next, Some(ratio), mode, kept).1;
            &&& cache.compressed_gpu is None ==> tokens_taken(kept.compressed_gpu, ratio)
                == first.seq_len
            &&& tokens_taken(after.compressed_gpu, ratio) == tokens_taken(
                kept.compressed_gpu,
                ratio,
            ) + second.seq_len
            &&& mode == AttentionMode::CompressedSparse && cache.indexer_gpu is None
                ==> tokens_taken(kept.indexer_gpu, ratio) == first.seq_len
            &&& mode == AttentionMode::CompressedSparse ==> tokens_taken(after.indexer_gpu, ratio)
                == tokens_taken(kept.indexer_gpu, ratio) + second.seq_len
        }),
{
    let one = block_step(c, a, first, start, ratio, mode);
    let two = block_step(c, a, second, next, ratio, mode);
    let kept = cached_block_forward(c, a, first, start, Some(ratio), mode, cache).1;
    let capacity = row_capacity(c, one);
    lemma_updates_add(
        c,
        a.compressor->Some_0,
        row_request(one, capacity),
        next,
        first.seq_len,
        second.seq_len,
        compressor_or_empty(cache.compressed_gpu),
    );
    assert(row_request(two, capacity) == (CompressorRequest {
        start_pos: next,
        ..row_request(one, capacity)
    }));
    if mode == AttentionMode::CompressedSparse {
        lemma_updates_add(
            c,
            a.indexer->Some_0.compressor,
            index_request(c, one, capacity),
            next,
            first.seq_len,
            second.seq_len,
            compressor_or_empty(cache.indexer_gpu),
        );
        assert(index_request(c, two, capacity) == (CompressorRequest {
            start_pos: next,
            ..index_request(c, one, capacity)
        }));
    }
}

/// The rows of a compressor's weights are those of the rows it reads: twice as wide
/// where blocks overlap.
pub open spec fn compressor_fits(w: DeepseekV4Compressor, head_dim: usize, overlap: bool) -> bool {
    let width = if overlap {
        2 * head_dim
    } else {
        head_dim as int
    };
    w.wkv.rows == width && w.wgate.rows == width && width <= usize::MAX
}

/// An update is taken exactly where blocks have a length, the weights have the rows
/// that are read, and what is kept can be addressed; tokens that a cache has room
/// for are all taken in. What is refused changes no row that the cache holds.
pub proof fn law_updates_that_fit_are_taken(
    c: AttentionConfig,
    w: DeepseekV4Compressor,
    q: CompressorRequest,
    seq_len: usize,
    cache: DeepseekGpuCompressorRuntimeCache,
)
    requires
        update_countable(q, seq_len, cache),
        cache.compressed_rows * q.ratio + cache.pending_len + seq_len <= q.capacity_rows * q.ratio,
    ensures
        ({
            let (r, after) = compressor_update(c, w, q, seq_len, cache);
            let width = if q.overlap {
                2 * q.head_dim
            } else {
                q.head_dim as int
            };
            &&& r is Ok <==> q.ratio > 0 && compressor_fits(w, q.head_dim, q.overlap) && q.ratio
                * width <= usize::MAX && q.capacity_rows * q.head_dim <= usize::MAX
            &&& r is Err ==> after == cache
            &&& r == Err::<CompressorStep, AttentionError>(AttentionError::ZeroRatio) <==> q.ratio
                == 0
            &&& r == Err::<CompressorStep, AttentionError>(AttentionError::CompressorRows)
                <==> q.ratio > 0 && !compressor_fits(w, q.head_dim, q.overlap)
        }),
{
    let width = compressor_width(q.head_dim, q.overlap) as usize;
    if q.ratio > 0 && room_fault(q) is None {
        law_compressor_cache_serves(cache, q.capacity_rows, q.ratio, width, q.head_dim);
        let ready = prepared_compressor(cache, q, seq_len);
        let held = ready.compressed_rows as int;
        let waiting = (ready.pending_len + seq_len) as int;
        let ratio = q.ratio as int;
        let capacity = q.capacity_rows as int;
        assert(held * ratio + waiting <= capacity * ratio) by {
            assert(0 * ratio == 0) by (nonlinear_arith);
            assert(0 <= cache.compressed_rows * ratio) by (nonlinear_arith)
                requires
                    ratio > 0,
            ;
            assert(cache.pending_len >= 0);
        }
        vstd::arithmetic::div_mod::lemma_fundamental_div_mod(waiting, ratio);
        assert(held + waiting / ratio <= capacity) by (nonlinear_arith)
            requires
                held * ratio + waiting <= capacity * ratio,
                waiting == ratio * (waiting / ratio) + waiting % ratio,
                waiting % ratio >= 0,
                ratio > 0,
        ;
    }
}

/// The weights of a block fit the rows that it reads: whole heads, at least one,
/// keys of a head, and an output over all heads.
pub open spec fn heads_fit(
    c: AttentionConfig,
    a: DeepseekV4Attention,
    hidden: HiddenShape,
) -> bool {
    &&& hidden.hidden_dim == c.hidden_size
    &&& c.head_dim > 0
    &&& a.wq_b.rows > 0
    &&& a.wq_b.rows % c.head_dim == 0
    &&& a.wkv.rows == c.head_dim
    &&& a.wo_a.cols == a.wq_b.rows
}

/// The window can be attended to: it has rows, the rotated values are among those of
/// a head, and there is a sink for every head of the ranks up to this one.
pub open spec fn window_fits(c: AttentionConfig, a: DeepseekV4Attention) -> bool {
    &&& c.sliding_window > 0
    &&& c.rope_dim <= c.head_dim
    &&& a.attn_sink >= (c.tp_rank + 1) * (a.wq_b.rows / c.head_dim)
}

/// A block without a compression ratio runs exactly where its weights fit and its
/// window can be attended to.
pub proof fn law_window_blocks_run_where_they_fit(
    c: AttentionConfig,
    a: DeepseekV4Attention,
    hidden: HiddenShape,
    mode: AttentionMode,
)
    ensures
        block_forward(c, a, hidden, Some(0), mode) is Ok <==> heads_fit(c, a, hidden)
            && window_fits(c, a),
        block_forward(c, a, hidden, None, mode) == Err::<AttentionRun, AttentionError>(
            AttentionError::MissingRatio,
        ),
        hidden.hidden_dim != c.hidden_size ==> block_forward(c, a, hidden, Some(0), mode)
            == Err::<AttentionRun, AttentionError>(AttentionError::HiddenDim),
        heads_fit(c, a, hidden) && c.sliding_window == 0 ==> block_forward(
            c,
            a,
            hidden,
            Some(0),
            mode,
        ) == Err::<AttentionRun, AttentionError>(AttentionError::ZeroWindow),
        heads_fit(c, a, hidden) && c.sliding_window > 0 && c.rope_dim > c.head_dim
            ==> block_forward(c, a, hidden, Some(0), mode) == Err::<AttentionRun, AttentionError>(
            AttentionError::RopeDim,
        ),
{
    if c.head_dim > 0 {
        lemma_whole_heads(a.wq_b.rows, c.head_dim);
        let heads = (a.wq_b.rows / c.head_dim) as int;
        assert((c.tp_rank + 1) * heads == c.tp_rank * heads + heads) by (nonlinear_arith);
    }
}

proof fn lemma_whole_heads(rows: usize, head_dim: usize)
    requires
        head_dim > 0,
    ensures
        rows % head_dim == 0 ==> (rows / head_dim == 0 <==> rows == 0),
{
    vstd::arithmetic::div_mod::lemma_fundamental_div_mod(rows as int, head_dim as int);
    if rows / head_dim == 0 {
        assert(head_dim * 0 == 0) by (nonlinear_arith);
    }
}

/// The indexer of a layer fits: as many score weights as heads of its queries, and a
/// compressor of overlapping rows.
pub open spec fn indexer_fits(c: AttentionConfig, ix: DeepseekV4Indexer) -> bool {
    &&& c.index_head_dim > 0
    &&& ix.wq_b.rows == ix.weights_proj.rows * c.index_head_dim
    &&& compressor_fits(ix.compressor, c.index_head_dim, true)
}

/// A block with a compression ratio runs where its weights and those of its
/// compressor fit, and those of its indexer where blocks are selected: it begins at
/// the first position, compresses every complete block of its tokens, attends to
/// those rows and selects among as many.
pub proof fn law_compressed_blocks_run_where_they_fit(
    c: AttentionConfig,
    a: DeepseekV4Attention,
    hidden: HiddenShape,
    ratio: usize,
    mode: AttentionMode,
)
    requires
        heads_fit(c, a, hidden),
        ratio > 0,
        a.compressor matches Some(w) && compressor_fits(w, c.head_dim, ratio < 16),
        mode == AttentionMode::CompressedSparse ==> (a.indexer matches Some(ix) && indexer_fits(
            c,
            ix,
        )),
        ratio * (2 * c.head_dim) <= usize::MAX,
        ratio * (2 * c.index_head_dim) <= usize::MAX,
        hidden.seq_len * c.head_dim <= usize::MAX,
        hidden.seq_len * c.index_head_dim <= usize::MAX,
        hidden.seq_len <= i32::MAX,
    ensures
        block_forward(c, a, hidden, Some(ratio), mode) matches Ok(run) && (
        run.plan matches AttentionPlan::Compressed { rows, selection, core } && {
            &&& core.prepare.start_pos == 0
            &&& core.prepare.token_count == hidden.seq_len
            &&& core.kernel.compressed_rows == hidden.seq_len / ratio
            &&& core.out == (HiddenShape { hidden_dim: a.wo_b.rows, seq_len: hidden.seq_len })
            &&& !core.window.kept
            &&& rows matches Compression::Whole(whole) && whole.rows.seq_len == hidden.seq_len
                / ratio
            &&& selection is Some <==> mode == AttentionMode::CompressedSparse
            &&& selection matches Some(chosen) ==> chosen.choice.key_count == hidden.seq_len / ratio
                && chosen.choice.start_pos == 0 && chosen.choice.seq_len == hidden.seq_len
        }),
{
    lemma_whole_heads(a.wq_b.rows, c.head_dim);
    let s = block_step(c, a, hidden, 0, ratio, mode);
    let rows = (hidden.seq_len / ratio) as int;
    assert(rows <= hidden.seq_len) by (nonlinear_arith)
        requires
            rows == hidden.seq_len / ratio,
            ratio > 0,
    ;
    assert(rows * c.head_dim <= hidden.seq_len * c.head_dim && rows * c.index_head_dim
        <= hidden.seq_len * c.index_head_dim) by (nonlinear_arith)
        requires
            rows <= hidden.seq_len,
    ;
    assert(ratio * c.head_dim <= ratio * (2 * c.head_dim)) by (nonlinear_arith);
    law_only_complete_blocks(c, a.compressor->Some_0, row_request(s, 0), hidden.seq_len);
    assert(temp_compression(c, a.compressor->Some_0, row_request(s, 0), hidden.seq_len) is Ok);
    if mode == AttentionMode::CompressedSparse {
        let ix = a.indexer->Some_0;
        law_only_complete_blocks(c, ix.compressor, index_request(c, s, 0), hidden.seq_len);
        assert(temp_compression(c, ix.compressor, index_request(c, s, 0), hidden.seq_len) is Ok);
        let (heads, dim) = (ix.weights_proj.rows as int, c.index_head_dim as int);
        vstd::arithmetic::div_mod::lemma_div_multiples_vanish(heads, dim);
        vstd::arithmetic::div_mod::lemma_mod_multiples_basic(heads, dim);
        assert(dim * heads == heads * dim) by (nonlinear_arith);
    }
}

/// A block with a ratio needs its compressor once its tokens fill a block, and its
/// indexer where blocks are selected; without them it is refused.
pub proof fn law_compressed_blocks_need_their_weights(
    c: AttentionConfig,
    a: DeepseekV4Attention,
    hidden: HiddenShape,
    start_pos: usize,
    ratio: usize,
    mode: AttentionMode,
    cache: DeepseekAttentionRuntimeCache,
)
    requires
        ratio > 0,
        heads_fit(c, a, hidden),
    ensures
        a.compressor is None && hidden.seq_len >= ratio ==> block_forward(
            c,
            a,
            hidden,
            Some(ratio),
            mode,
        ) == Err::<AttentionRun, AttentionError>(AttentionError::MissingCompressor),
        a.compressor is None && hidden.seq_len < ratio ==> (block_forward(
            c,
            a,
            hidden,
            Some(ratio),
            mode,
        ) is Ok <==> window_fits(c, a)),
        a.compressor is None ==> cached_block_forward(
            c,
            a,
            hidden,
            start_pos,
            Some(ratio),
            mode,
            cache,
        ).0 == Err::<AttentionRun, AttentionError>(AttentionError::MissingCompressor),
        a.indexer is None && mode == AttentionMode::CompressedSparse ==> {
            &&& block_forward(c, a, hidden, Some(ratio), mode) is Ok ==> a.compressor is None
            &&& cached_block_forward(c, a, hidden, start_pos, Some(ratio), mode, cache).0 is Err
        },
{
    lemma_whole_heads(a.wq_b.rows, c.head_dim);
    let heads = (a.wq_b.rows / c.head_dim) as int;
    assert((c.tp_rank + 1) * heads == c.tp_rank * heads + heads) by (nonlinear_arith);
}

} // verus!
