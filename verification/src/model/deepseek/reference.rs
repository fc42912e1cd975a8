//! What the reference executor reads and where it writes: which keys a token
//! attends to, which rows are compressed, which tensors are used, and when
//! generation ends.

use vstd::prelude::*;

use crate::arith::{ceil_div, smaller};
use crate::arith::{div_ceil, min};
use crate::model::deepseek::config::AttentionMode;
use crate::model::deepseek::load::Span;

verus! {

/// Why the reference executor cannot run.
#[derive(Clone, Copy, Debug, PartialEq, Eq, Structural)]
pub enum ReferenceError {
    /// There is no token.
    NoTokens,
    /// There are more tokens than the window holds.
    TooLong,
    /// A row is not as wide as it has to be.
    Width,
    /// A layer routed by token ids has no table of experts.
    NoTable,
}

/// Checks the tokens of a forward pass.
pub fn check_tokens(tokens: usize, sliding_window: usize) -> (r: Result<(), ReferenceError>)
    ensures
        r == (if tokens == 0 {
            Err::<(), ReferenceError>(ReferenceError::NoTokens)
        } else if tokens > sliding_window {
            Err(ReferenceError::TooLong)
        } else {
            Ok(())
        }),
{
    if tokens == 0 {
        return Err(ReferenceError::NoTokens);
    }
    if tokens > sliding_window {
        return Err(ReferenceError::TooLong);
    }
    Ok(())
}

/// Checks the width of a row.
pub fn check_width(found: usize, expected: usize) -> (r: Result<(), ReferenceError>)
    ensures
        r == (if found == expected {
            Ok::<(), ReferenceError>(())
        } else {
            Err(ReferenceError::Width)
        }),
{
    if found == expected {
        Ok(())
    } else {
        Err(ReferenceError::Width)
    }
}

/// A key that a token attends to.
#[derive(Clone, Copy, Debug, PartialEq, Eq, Structural)]
pub enum Key {
    /// The compressed row of a block of tokens.
    Block(usize),
    /// The row of a token.
    Token(usize),
}

/// Every token of a block comes before token `t`.
pub open spec fn is_past(block: int, ratio: int, t: int) -> bool {
    block * ratio + (ratio - 1) < t
}

/// The past blocks among the first `n`.
pub open spec fn past_blocks(n: int, ratio: int, t: int) -> Seq<Key>
    decreases n,
{
    if n <= 0 {
        Seq::empty()
    } else if is_past(n - 1, ratio, t) {
        past_blocks(n - 1, ratio, t).push(Key::Block((n - 1) as usize))
    } else {
        past_blocks(n - 1, ratio, t)
    }
}

/// The blocks that a token attends to; `selected` are those that were selected
/// for it.
pub open spec fn attended_blocks(
    mode: AttentionMode,
    ratio: int,
    blocks: int,
    t: int,
    selected: Seq<usize>,
) -> Seq<Key> {
    if ratio == 0 {
        Seq::empty()
    } else {
        match mode {
            AttentionMode::HybridCompressed => past_blocks(blocks, ratio, t),
            AttentionMode::CompressedSparse => Seq::new(
                selected.len(),
                |i: int| Key::Block(selected[i]),
            ),
            AttentionMode::SlidingWindow => Seq::empty(),
        }
    }
}

/// The first token of the window that ends at token `t`.
pub open spec fn window_start(t: int, sliding_window: int) -> int {
    if t + 1 > sliding_window {
        t + 1 - sliding_window
    } else {
        0
    }
}

/// The tokens of the window that ends at token `t`.
pub open spec fn window_keys(t: int, sliding_window: int) -> Seq<Key> {
    let start = window_start(t, sliding_window);
    Seq::new((t + 1 - start) as nat, |i: int| Key::Token((start + i) as usize))
}

/// The keys that token `t` attends to, in order.
pub open spec fn attended_keys(
    mode: AttentionMode,
    ratio: int,
    blocks: int,
    t: int,
    selected: Seq<usize>,
    sliding_window: int,
) -> Seq<Key> {
    attended_blocks(mode, ratio, blocks, t, selected) + window_keys(t, sliding_window)
}

/// Lists the keys that token `t` of a layer attends to. A layer compresses
/// `ratio` tokens to a block, or none where that is zero.
pub fn list_keys(
    mode: AttentionMode,
    ratio: usize,
    blocks: usize,
    t: usize,
    selected: &[usize],
    sliding_window: usize,
) -> (keys: Vec<Key>)
    requires
        t < usize::MAX,
        blocks * ratio <= usize::MAX,
    ensures
        keys@ == attended_keys(
            mode,
            ratio as int,
            blocks as int,
            t as int,
            selected@,
            sliding_window as int,
        ),
{
    let mut keys: Vec<Key> = Vec::new();
    if ratio > 0 {
        match mode {
            AttentionMode::HybridCompressed => {
                let mut block: usize = 0;
                proof {
                    assert(keys@ =~= past_blocks(0, ratio as int, t as int));
                }
                while block < blocks
                    invariant
                        block <= blocks,
                        ratio > 0,
                        blocks * ratio <= usize::MAX,
                        keys@ == past_blocks(block as int, ratio as int, t as int),
                    decreases blocks - block,
                {
                    proof {
                        assert(block * ratio + ratio <= blocks * ratio && 0 <= block * ratio)
                            by (nonlinear_arith)
                            requires
                                block + 1 <= blocks,
                                0 <= block,
                                0 <= ratio,
                        ;
                    }
                    if block * ratio + (ratio - 1) < t {
                        keys.push(Key::Block(block));
                    }
                    block = block + 1;
                }
            },
            AttentionMode::CompressedSparse => {
                let total: usize = selected.len();
                let mut i: usize = 0;
                while i < total
                    invariant
                        i <= total,
                        total == selected@.len(),
                        keys@ =~= Seq::new(i as nat, |k: int| Key::Block(selected@[k])),
                    decreases total - i,
                {
                    keys.push(Key::Block(selected[i]));
                    i = i + 1;
                }
            },
            AttentionMode::SlidingWindow => {},
        }
    }
    let ghost listed = keys@;
    proof {
        assert(listed =~= attended_blocks(
            mode,
            ratio as int,
            blocks as int,
            t as int,
            selected@,
        ));
    }
    let start: usize = if t + 1 > sliding_window {
        t + 1 - sliding_window
    } else {
        0
    };
    let mut token: usize = start;
    while token <= t
        invariant
            start <= token <= t + 1,
            t < usize::MAX,
            start == window_start(t as int, sliding_window as int),
            keys@ =~= listed + Seq::new(
                (token - start) as nat,
                |i: int| Key::Token((start + i) as usize),
            ),
        decreases t + 1 - token,
    {
        keys.push(Key::Token(token));
        token = token + 1;
    }
    keys
}

proof fn lemma_past_blocks(n: int, ratio: int, t: int, block: int)
    requires
        ratio > 0,
        0 <= n <= usize::MAX,
    ensures
        past_blocks(n, ratio, t).contains(Key::Block(block as usize)) && 0 <= block <= usize::MAX
            <==> 0 <= block < n && is_past(block, ratio, t),
    decreases n,
{
    if n > 0 {
        lemma_past_blocks(n - 1, ratio, t, block);
        let rest = past_blocks(n - 1, ratio, t);
        let all = past_blocks(n, ratio, t);
        let key = Key::Block(block as usize);
        if is_past(n - 1, ratio, t) {
            assert(all[rest.len() as int] == Key::Block((n - 1) as usize));
            if rest.contains(key) {
                let k = choose|k: int| 0 <= k < rest.len() && rest[k] == key;
                assert(all[k] == key);
            }
            if all.contains(key) {
                let k = choose|k: int| 0 <= k < all.len() && all[k] == key;
                if k < rest.len() {
                    assert(rest[k] == key);
                }
            }
        }
    }
}

/// A hybrid layer attends to a block exactly where all of its tokens come
/// before the token.
pub proof fn law_past_blocks_are_complete(blocks: nat, ratio: nat, t: nat, block: usize)
    requires
        ratio > 0,
        blocks <= usize::MAX,
    ensures
        attended_blocks(
            AttentionMode::HybridCompressed,
            ratio as int,
            blocks as int,
            t as int,
            Seq::empty(),
        ).contains(Key::Block(block)) <==> block < blocks && (block + 1) * ratio <= t,
{
    lemma_past_blocks(blocks as int, ratio as int, t as int, block as int);
    assert((block + 1) * ratio == block * ratio + ratio) by (nonlinear_arith);
}

/// A token attends to itself, and to no later token.
pub proof fn law_attention_is_causal(
    mode: AttentionMode,
    ratio: nat,
    blocks: nat,
    t: usize,
    selected: Seq<usize>,
    sliding_window: nat,
    token: usize,
)
    requires
        sliding_window > 0,
    ensures
        attended_keys(
            mode,
            ratio as int,
            blocks as int,
            t as int,
            selected,
            sliding_window as int,
        ).contains(Key::Token(token)) <==> token <= t && t < token + sliding_window,
{
    let listed = attended_blocks(mode, ratio as int, blocks as int, t as int, selected);
    let window = window_keys(t as int, sliding_window as int);
    let all = listed + window;
    let start = window_start(t as int, sliding_window as int);
    lemma_no_tokens(mode, ratio as int, blocks as int, t as int, selected);
    if all.contains(Key::Token(token)) {
        let k = choose|k: int| 0 <= k < all.len() && all[k] == Key::Token(token);
        assert(k >= listed.len());
        assert(window[k - listed.len()] == Key::Token(token));
    }
    if token <= t && t < token + sliding_window {
        let k = listed.len() + (token - start);
        assert(all[k] == window[token - start]);
        assert(all[k] == Key::Token(token));
    }
}

proof fn lemma_no_tokens(
    mode: AttentionMode,
    ratio: int,
    blocks: int,
    t: int,
    selected: Seq<usize>,
)
    ensures
        forall|i: int|
            0 <= i < attended_blocks(mode, ratio, blocks, t, selected).len() ==> (
            #[trigger] attended_blocks(mode, ratio, blocks, t, selected)[i]) is Block,
{
    lemma_past_are_blocks(blocks, ratio, t);
}

proof fn lemma_past_are_blocks(n: int, ratio: int, t: int)
    ensures
        forall|i: int|
            0 <= i < past_blocks(n, ratio, t).len() ==> (#[trigger] past_blocks(n, ratio, t)[i])
                is Block,
    decreases n,
{
    if n > 0 {
        lemma_past_are_blocks(n - 1, ratio, t);
    }
}

/// What attention does in a layer that compresses `ratio` tokens to a block.
#[derive(Clone, Copy, Debug, PartialEq, Eq, Structural)]
pub struct AttentionOutline {
    /// Rows are compressed.
    pub compressed: bool,
    /// A block takes in the tokens of the block before it.
    pub overlap: bool,
    /// Blocks are selected for each token.
    pub selected: bool,
    /// Number of blocks.
    pub blocks: usize,
    /// Width of all heads of a token.
    pub q_width: usize,
}

/// The outline of attention over `seq` tokens.
pub open spec fn outline(
    ratio: usize,
    seq: usize,
    heads: usize,
    head_dim: usize,
) -> AttentionOutline {
    AttentionOutline {
        compressed: ratio > 0,
        overlap: 0 < ratio < 16,
        selected: 0 < ratio < 16,
        blocks: if ratio > 0 {
            ceil_div(seq as nat, ratio as nat) as usize
        } else {
            0
        },
        q_width: (heads * head_dim) as usize,
    }
}

/// Outlines attention over `seq` tokens.
pub fn outline_attention(ratio: usize, seq: usize, heads: usize, head_dim: usize) -> (o:
    AttentionOutline)
    requires
        heads * head_dim <= usize::MAX,
    ensures
        o == outline(ratio, seq, heads, head_dim),
        ratio > 0 ==> o.blocks == ceil_div(seq as nat, ratio as nat),
{
    let blocks: usize = if ratio > 0 {
        div_ceil(seq, ratio)
    } else {
        0
    };
    AttentionOutline {
        compressed: ratio > 0,
        overlap: ratio > 0 && ratio < 16,
        selected: ratio > 0 && ratio < 16,
        blocks,
        q_width: heads * head_dim,
    }
}

/// The position by which the row of a block is rotated: that of its last
/// token, or of the last token there is.
pub fn block_position(block: usize, ratio: usize, seq: usize) -> (pos: usize)
    requires
        ratio > 0,
        seq > 0,
        block * ratio + ratio <= usize::MAX,
    ensures
        pos == smaller((block * ratio + (ratio - 1)) as nat, (seq - 1) as nat),
{
    proof {
        assert(0 <= block * ratio) by (nonlinear_arith)
            requires
                0 <= block,
                0 <= ratio,
        ;
    }
    min(block * ratio + (ratio - 1), seq - 1)
}

/// A part of a token's row that goes into a block: the first or the second
/// half where rows are twice as wide as a head, else the whole row.
#[derive(Clone, Copy, Debug, PartialEq, Eq, Structural)]
pub struct RowPart {
    pub token: usize,
    pub second_half: bool,
}

/// The parts that go into a block, in order. With overlap the first half of
/// them is the block before; the first block has none, and its places are
/// empty.
pub open spec fn block_parts(block: int, ratio: int, overlap: bool) -> Seq<Option<RowPart>> {
    if overlap {
        Seq::new(
            ratio as nat,
            |i: int|
                if block == 0 {
                    None::<RowPart>
                } else {
                    Some(
                        RowPart { token: ((block - 1) * ratio + i) as usize, second_half: false },
                    )
                },
        ) + Seq::new(
            ratio as nat,
            |i: int|
                Some(RowPart { token: (block * ratio + i) as usize, second_half: true }),
        )
    } else {
        Seq::new(
            ratio as nat,
            |i: int|
                Some(RowPart { token: (block * ratio + i) as usize, second_half: false }),
        )
    }
}

fn push_parts(parts: &mut Vec<Option<RowPart>>, first: usize, ratio: usize, second_half: bool)
    requires
        first + ratio <= usize::MAX,
    ensures
        final(parts)@ == old(parts)@ + Seq::new(
            ratio as nat,
            |i: int| Some(RowPart { token: (first + i) as usize, second_half }),
        ),
{
    let mut i: usize = 0;
    while i < ratio
        invariant
            i <= ratio,
            first + ratio <= usize::MAX,
            parts@ =~= old(parts)@ + Seq::new(
                i as nat,
                |k: int| Some(RowPart { token: (first + k) as usize, second_half }),
            ),
        decreases ratio - i,
    {
        parts.push(Some(RowPart { token: first + i, second_half }));
        i = i + 1;
    }
}

/// Lists the parts that go into a block.
pub fn list_block_parts(block: usize, ratio: usize, overlap: bool) -> (parts: Vec<
    Option<RowPart>,
>)
    requires
        block * ratio + ratio <= usize::MAX,
    ensures
        parts@ == block_parts(block as int, ratio as int, overlap),
{
    let mut parts: Vec<Option<RowPart>> = Vec::new();
    proof {
        assert(0 <= block * ratio) by (nonlinear_arith)
            requires
                0 <= block,
                0 <= ratio,
        ;
    }
    if overlap {
        if block == 0 {
            let mut i: usize = 0;
            while i < ratio
                invariant
                    i <= ratio,
                    parts@ =~= Seq::new(i as nat, |k: int| None::<RowPart>),
                decreases ratio - i,
            {
                parts.push(None);
                i = i + 1;
            }
        } else {
            proof {
                assert((block - 1) * ratio + ratio == block * ratio && 0 <= (block - 1) * ratio)
                    by (nonlinear_arith)
                    requires
                        1 <= block,
                        0 <= ratio,
                ;
            }
            push_parts(&mut parts, (block - 1) * ratio, ratio, false);
        }
        push_parts(&mut parts, block * ratio, ratio, true);
        proof {
            assert(parts@ =~= block_parts(block as int, ratio as int, overlap));
        }
    } else {
        push_parts(&mut parts, block * ratio, ratio, false);
        proof {
            assert(parts@ =~= block_parts(block as int, ratio as int, overlap));
        }
    }
    parts
}

/// With overlap every complete pair of neighbouring blocks shares its tokens:
/// what a block takes in whole, the next one takes in again.
pub proof fn law_overlap_carries_over(block: nat, ratio: nat, i: int)
    requires
        0 <= i < ratio,
        (block + 1) * ratio + ratio <= usize::MAX,
    ensures
        block_parts(block as int, ratio as int, true)[ratio + i] == Some(
            RowPart { token: (block * ratio + i) as usize, second_half: true },
        ),
        block_parts((block + 1) as int, ratio as int, true)[i] == Some(
            RowPart { token: (block * ratio + i) as usize, second_half: false },
        ),
{
}

/// The number of blocks that can be selected for token `t`: those that are
/// complete before it.
pub fn selectable_blocks(t: usize, ratio: usize, blocks: usize) -> (n: usize)
    requires
        ratio > 0,
    ensures
        n == smaller(blocks as nat, (t / ratio) as nat),
{
    min(blocks, t / ratio)
}

/// The heads of a token that an output group takes in, as places in the row of
/// all heads of all tokens.
pub open spec fn group_span(
    t: int,
    group: int,
    heads: int,
    heads_per_group: int,
    head_dim: int,
) -> (int, int) {
    let start = (t * heads + group * heads_per_group) * head_dim;
    (start, start + heads_per_group * head_dim)
}

/// Places of the heads of an output group.
pub fn find_group_span(
    t: usize,
    group: usize,
    heads: usize,
    heads_per_group: usize,
    head_dim: usize,
) -> (span: Span)
    requires
        (group + 1) * heads_per_group <= heads,
        (t + 1) * heads * head_dim <= usize::MAX,
    ensures
        span.start == group_span(
            t as int,
            group as int,
            heads as int,
            heads_per_group as int,
            head_dim as int,
        ).0,
        span.end == group_span(
            t as int,
            group as int,
            heads as int,
            heads_per_group as int,
            head_dim as int,
        ).1,
        span.start <= span.end <= (t + 1) * heads * head_dim,
{
    let ghost (tt, g, h, p, d) = (
        t as int,
        group as int,
        heads as int,
        heads_per_group as int,
        head_dim as int,
    );
    proof {
        lemma_group_bounds(tt, g, h, p, d);
    }
    if head_dim == 0 {
        proof {
            assert((tt * h + g * p) * 0 == 0 && p * 0 == 0) by (nonlinear_arith);
        }
        return Span { start: 0, end: 0 };
    }
    proof {
        assert((tt + 1) * h <= (tt + 1) * h * d) by (nonlinear_arith)
            requires
                d >= 1,
                (tt + 1) * h >= 0,
        ;
    }
    let start: usize = (t * heads + group * heads_per_group) * head_dim;
    Span { start, end: start + heads_per_group * head_dim }
}

proof fn lemma_group_bounds(t: int, g: int, h: int, p: int, d: int)
    by (nonlinear_arith)
    requires
        0 <= t,
        0 <= g,
        0 <= h,
        0 <= p,
        0 <= d,
        (g + 1) * p <= h,
    ensures
        0 <= t * h,
        0 <= g * p,
        0 <= p * d,
        0 <= (t * h + g * p) * d,
        0 <= (t + 1) * h,
        t * h + g * p + p <= (t + 1) * h,
        (t * h + g * p) * d + p * d <= (t + 1) * h * d,
{
    assert((t + 1) * h == t * h + h);
    assert((g + 1) * p == g * p + p);
    assert((t * h + g * p) * d + p * d == (t * h + g * p + p) * d);
}

/// The groups of a token take in all of its heads, one after the other.
pub proof fn law_groups_tile_the_heads(
    t: nat,
    group: nat,
    heads_per_group: nat,
    groups: nat,
    d: nat,
)
    ensures
        group_span(
            t as int,
            (group + 1) as int,
            (groups * heads_per_group) as int,
            heads_per_group as int,
            d as int,
        ).0 == group_span(
            t as int,
            group as int,
            (groups * heads_per_group) as int,
            heads_per_group as int,
            d as int,
        ).1,
        group_span(
            (t + 1) as int,
            0,
            (groups * heads_per_group) as int,
            heads_per_group as int,
            d as int,
        ).0 == group_span(
            t as int,
            groups as int,
            (groups * heads_per_group) as int,
            heads_per_group as int,
            d as int,
        ).0,
{
    let h = groups * heads_per_group;
    assert((t * h + (group + 1) * heads_per_group) * d == (t * h + group * heads_per_group) * d
        + heads_per_group * d) by (nonlinear_arith);
    assert((t + 1) * h + 0 * heads_per_group == t * h + groups * heads_per_group)
        by (nonlinear_arith)
        requires
            h == groups * heads_per_group,
    ;
}

/// Where a stream of a token begins, with `n_hc` streams of width `d` per
/// token.
pub fn stream_start(token: usize, hc: usize, n_hc: usize, d: usize) -> (start: usize)
    requires
        hc < n_hc,
        (token + 1) * n_hc * d <= usize::MAX,
    ensures
        start == (token * n_hc + hc) * d,
        start + d <= (token + 1) * n_hc * d,
{
    let ghost (t, c, n, w) = (token as int, hc as int, n_hc as int, d as int);
    proof {
        assert(0 <= t * n && t * n + c + 1 <= (t + 1) * n) by (nonlinear_arith)
            requires
                0 <= t,
                0 <= c,
                c + 1 <= n,
        ;
        assert((t * n + c) * w + w <= (t + 1) * n * w && 0 <= (t * n + c) * w)
            by (nonlinear_arith)
            requires
                0 <= t * n,
                t * n + c + 1 <= (t + 1) * n,
                0 <= w,
                0 <= c,
        ;
    }
    if d == 0 {
        proof {
            assert((t * n + c) * 0 == 0) by (nonlinear_arith);
        }
        return 0;
    }
    proof {
        assert((t + 1) * n <= (t + 1) * n * w) by (nonlinear_arith)
            requires
                w >= 1,
                (t + 1) * n >= 0,
        ;
    }
    (token * n_hc + hc) * d
}

/// How many mixing values the hyper-connections of `n` streams take.
pub fn mix_count(n: usize) -> (count: usize)
    requires
        (2 + n) * n <= usize::MAX,
        n <= usize::MAX - 2,
    ensures
        count == (2 + n) * n,
{
    (2 + n) * n
}

/// Where the experts of a token come from.
#[derive(Clone, Copy, Debug, PartialEq, Eq, Structural)]
pub enum RouteSource {
    /// A table by the token's id.
    Table,
    /// The scores of the router.
    Scores,
}

/// The first layers route by the token's id, which takes a table.
pub fn route_source(layer_idx: usize, num_hash_layers: usize, has_table: bool) -> (r: Result<
    RouteSource,
    ReferenceError,
>)
    ensures
        r == (if layer_idx >= num_hash_layers {
            Ok::<RouteSource, ReferenceError>(RouteSource::Scores)
        } else if has_table {
            Ok(RouteSource::Table)
        } else {
            Err(ReferenceError::NoTable)
        }),
{
    if layer_idx >= num_hash_layers {
        return Ok(RouteSource::Scores);
    }
    if has_table {
        Ok(RouteSource::Table)
    } else {
        Err(ReferenceError::NoTable)
    }
}

/// The name of a tensor of a block with that prefix.
pub fn tensor_name(prefix: &str, part: &str) -> (name: String)
    ensures
        name@ == prefix@ + "."@ + part@,
{
    let mut name = String::from_str(prefix);
    name.append(".");
    name.append(part);
    name
}

/// A run of greedy generation.
pub struct Greedy {
    /// The prompt and what followed it.
    pub tokens: Vec<u32>,
    /// The tokens that are handed out.
    pub generated: Vec<u32>,
    pub prompt_len: usize,
    pub max_new_tokens: usize,
    pub stopped: bool,
}

/// What ends a run.
pub struct StopRule<'a> {
    pub eos_token_id: Option<u32>,
    pub stop_token_ids: &'a [u32],
    /// No token ends the run.
    pub ignore_eos: bool,
}

impl<'a> StopRule<'a> {
    /// The token ends a run.
    pub open spec fn stops(self, token: u32) -> bool {
        !self.ignore_eos && (self.eos_token_id == Some(token) || self.stop_token_ids@.contains(
            token,
        ))
    }

    /// Does the token end a run?
    pub fn is_stop(&self, token: u32) -> (stop: bool)
        ensures
            stop == self.stops(token),
    {
        if self.ignore_eos {
            return false;
        }
        if self.eos_token_id == Some(token) {
            return true;
        }
        let total: usize = self.stop_token_ids.len();
        let mut i: usize = 0;
        while i < total
            invariant
                i <= total,
                total == self.stop_token_ids@.len(),
                !self.ignore_eos,
                self.eos_token_id != Some(token),
                forall|j: int| 0 <= j < i ==> self.stop_token_ids@[j] != token,
            decreases total - i,
        {
            if self.stop_token_ids[i] == token {
                return true;
            }
            i = i + 1;
        }
        false
    }
}

impl Greedy {
    /// The tokens follow the prompt; all that followed were handed out, but for
    /// the one that stopped the run.
    pub open spec fn wf(self) -> bool {
        &&& self.prompt_len > 0
        &&& self.tokens@.len() == self.prompt_len + self.generated@.len() + (if self.stopped {
            1int
        } else {
            0int
        })
        &&& self.tokens@.len() - self.prompt_len <= self.max_new_tokens
        &&& self.generated@ == self.tokens@.subrange(
            self.prompt_len as int,
            self.prompt_len + self.generated@.len(),
        )
    }

    /// Begins a run after a prompt.
    pub fn new(prompt: Vec<u32>, max_new_tokens: usize) -> (r: Result<Greedy, ReferenceError>)
        ensures
            if prompt@.len() == 0 {
                r matches Err(e) && e == ReferenceError::NoTokens
            } else {
                r matches Ok(run) && run.wf() && run.tokens@ == prompt@ && run.generated@.len()
                    == 0 && run.prompt_len == prompt@.len() && run.max_new_tokens
                    == max_new_tokens && !run.stopped
            },
    {
        if prompt.len() == 0 {
            return Err(ReferenceError::NoTokens);
        }
        let prompt_len: usize = prompt.len();
        let run = Greedy {
            tokens: prompt,
            generated: Vec::new(),
            prompt_len,
            max_new_tokens,
            stopped: false,
        };
        proof {
            assert(run.generated@ =~= run.tokens@.subrange(prompt_len as int, prompt_len as int));
        }
        Ok(run)
    }

    /// Is a further token wanted?
    pub fn wants_token(&self) -> (wanted: bool)
        requires
            self.wf(),
        ensures
            wanted == (!self.stopped && self.new_tokens() < self.max_new_tokens),
    {
        !self.stopped && self.tokens.len() - self.prompt_len < self.max_new_tokens
    }

    /// Tokens that followed the prompt.
    pub open spec fn new_tokens(self) -> int {
        self.tokens@.len() - self.prompt_len
    }

    /// Takes the next token: it is recorded, and handed out unless it ends the
    /// run.
    pub fn take(&mut self, next: u32, rule: &StopRule<'_>)
        requires
            old(self).wf(),
            !old(self).stopped,
            old(self).new_tokens() < old(self).max_new_tokens,
        ensures
            final(self).wf(),
            final(self).tokens@ == old(self).tokens@.push(next),
            final(self).stopped == rule.stops(next),
            final(self).generated@ == (if rule.stops(next) {
                old(self).generated@
            } else {
                old(self).generated@.push(next)
            }),
            final(self).prompt_len == old(self).prompt_len,
            final(self).max_new_tokens == old(self).max_new_tokens,
    {
        let ghost tokens = self.tokens@;
        let ghost generated = self.generated@;
        self.tokens.push(next);
        if rule.is_stop(next) {
            self.stopped = true;
        } else {
            self.generated.push(next);
        }
        proof {
            assert(self.generated@ =~= self.tokens@.subrange(
                self.prompt_len as int,
                self.prompt_len + self.generated@.len(),
            )) by {
                assert(generated == tokens.subrange(
                    self.prompt_len as int,
                    self.prompt_len + generated.len(),
                ));
            }
        }
    }

    /// The number of tokens that followed the prompt, the one that ended the
    /// run among them.
    pub fn count(&self) -> (n: usize)
        requires
            self.wf(),
        ensures
            n == self.new_tokens(),
            n <= self.max_new_tokens,
            n == self.generated@.len() || (self.stopped && n == self.generated@.len() + 1),
    {
        self.tokens.len() - self.prompt_len
    }
}

/// The window of a token has as many tokens as it may, ends with the token itself,
/// and runs without a gap; the blocks come before it.
pub proof fn law_windows_end_with_their_token(
    mode: AttentionMode,
    ratio: nat,
    blocks: nat,
    t: usize,
    selected: Seq<usize>,
    sliding_window: nat,
    i: int,
)
    requires
        sliding_window > 0,
    ensures
        ({
            let window = window_keys(t as int, sliding_window as int);
            let keys = attended_keys(
                mode,
                ratio as int,
                blocks as int,
                t as int,
                selected,
                sliding_window as int,
            );
            &&& window.len() == (if t + 1 < sliding_window { (t + 1) as nat } else { sliding_window })
            &&& window.last() == Key::Token(t)
            &&& 0 <= i < window.len() ==> window[i] == Key::Token(
                (t + 1 - window.len() + i) as usize,
            )
            &&& keys.len() >= window.len()
            &&& keys.subrange(keys.len() - window.len(), keys.len() as int) == window
            &&& mode == AttentionMode::SlidingWindow || ratio == 0 ==> keys == window
            &&& mode == AttentionMode::CompressedSparse && ratio > 0 ==> keys.len()
                == window.len() + selected.len() && forall|k: int|
                0 <= k < selected.len() ==> keys[k] == Key::Block(#[trigger] selected[k])
        }),
{
    let window = window_keys(t as int, sliding_window as int);
    let keys = attended_keys(
        mode,
        ratio as int,
        blocks as int,
        t as int,
        selected,
        sliding_window as int,
    );
    assert(keys.subrange(keys.len() - window.len(), keys.len() as int) =~= window);
    assert(Seq::<Key>::empty() + window =~= window);
}

/// A block takes in its own tokens in order. Without overlap these are all its
/// parts; with overlap they come second, behind those of the block before, which the
/// first block has not.
pub proof fn law_blocks_take_in_their_tokens(block: nat, ratio: nat, i: int)
    requires
        0 <= i < ratio,
        block * ratio + ratio <= usize::MAX,
    ensures
        block_parts(block as int, ratio as int, false).len() == ratio,
        block_parts(block as int, ratio as int, false)[i] == Some(
            RowPart { token: (block * ratio + i) as usize, second_half: false },
        ),
        block_parts(block as int, ratio as int, true).len() == 2 * ratio,
        block_parts(block as int, ratio as int, true)[ratio + i] == Some(
            RowPart { token: (block * ratio + i) as usize, second_half: true },
        ),
        block_parts(0, ratio as int, true)[i] is None,
        block > 0 ==> (block_parts(block as int, ratio as int, true)[i] matches Some(p) && p.token
            + ratio == block * ratio + i && !p.second_half),
{
    let b = block as int;
    let r = ratio as int;
    assert((b - 1) * r == b * r - r) by (nonlinear_arith);
    assert(b > 0 ==> b * r >= r) by (nonlinear_arith)
        requires
            r >= 0,
    ;
}

/// There are as many blocks as it takes to cover all tokens, and no more; short
/// ratios overlap and select, long ones do neither.
pub proof fn law_outlines_cover_the_tokens(
    ratio: usize,
    seq: usize,
    heads: usize,
    head_dim: usize,
)
    requires
        heads * head_dim <= usize::MAX,
    ensures
        ({
            let o = outline(ratio, seq, heads, head_dim);
            &&& o.compressed <==> ratio > 0
            &&& o.overlap <==> 0 < ratio < 16
            &&& o.selected <==> 0 < ratio < 16
            &&& ratio == 0 ==> o.blocks == 0
            &&& ratio > 0 ==> o.blocks * ratio >= seq
            &&& ratio > 0 && seq > 0 ==> (o.blocks - 1) * ratio < seq
            &&& ratio > 0 && seq == 0 ==> o.blocks == 0
            &&& o.q_width == heads * head_dim
        }),
{
    assert(heads * head_dim >= 0) by (nonlinear_arith);
    if ratio > 0 {
        let q = (seq / ratio) as int;
        let r = (seq % ratio) as int;
        let d = ratio as int;
        vstd::arithmetic::div_mod::lemma_fundamental_div_mod(seq as int, d);
        assert(d * q == q * d) by (nonlinear_arith);
        assert((q + 1) * d == q * d + d) by (nonlinear_arith);
        assert((q - 1) * d == q * d - d) by (nonlinear_arith);
        assert(q <= seq) by (nonlinear_arith)
            requires
                seq == q * d + r,
                d >= 1,
                r >= 0,
                q >= 0,
        ;
        assert(r > 0 ==> q + 1 <= seq) by (nonlinear_arith)
            requires
                seq == q * d + r,
                d >= 1,
                r >= 0,
                q >= 0,
        ;
    }
}

/// Where stop tokens are ignored nothing ends a run. Otherwise the end-of-sequence
/// token ends it, and so does a token exactly where it is listed: listing one more
/// ends runs at that one too, and at no other.
pub proof fn law_listed_tokens_end_a_run(
    rule: StopRule<'_>,
    longer: StopRule<'_>,
    extra: u32,
    token: u32,
)
    requires
        longer.ignore_eos == rule.ignore_eos,
        longer.eos_token_id == rule.eos_token_id,
        longer.stop_token_ids@ == rule.stop_token_ids@.push(extra),
    ensures
        rule.ignore_eos ==> !rule.stops(token),
        !rule.ignore_eos && rule.eos_token_id == Some(token) ==> rule.stops(token),
        !rule.ignore_eos ==> longer.stops(extra),
        token != extra ==> (longer.stops(token) <==> rule.stops(token)),
        rule.stop_token_ids@.len() == 0 && rule.eos_token_id is None ==> !rule.stops(token),
{
    let ids = rule.stop_token_ids@;
    assert(ids.push(extra)[ids.len() as int] == extra);
    if ids.contains(token) {
        let i = choose|i: int| 0 <= i < ids.len() && ids[i] == token;
        assert(ids.push(extra)[i] == token);
    }
    if ids.push(extra).contains(token) && token != extra {
        let i = choose|i: int| 0 <= i < ids.len() + 1 && ids.push(extra)[i] == token;
        assert(ids[i] == token);
    }
}

} // verus!
