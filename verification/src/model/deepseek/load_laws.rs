//! What holds of every loaded weight: which bytes a value is read from, which scale
//! it carries, and that a part of a matrix holds the values of the whole.

use safetensors::SafeTensors;
use vstd::prelude::*;

use crate::arith::ceil_div;
use crate::model::deepseek::load::{
    block_size, cols_of, is_block_scaled, is_dense_load, is_integer_load, is_rounded_load,
    is_vector_load, law_submatrix_elements, logical_cols, matrix_element, planned_shard,
    rows_of, scale_name, scale_span, shard_element, signed_value, tp_shard,
};
use crate::model::deepseek::load::{
    BlockFormat, BlockScaledMatrix, DenseMatrix, HostValues, MatrixShard, ScaledValue, ShardPlan,
    TpLoadContext, TpShardAxis,
};
use crate::model::deepseek::quant::{
    e2m1_bits, e4m3_bits, e8m0_bits, law_elements_lie_in_order, little_endian, nearest_bf16, scalar,
};
use crate::model::deepseek::tensor::{
    element_bytes, element_count, filled, leading_elements, LoadError, TensorContents, TensorDtype,
    WeightMap,
};

verus! {

/// Blocks of `size` elements are the smallest that cover an axis of `total` elements
/// with `blocks` scales.
pub open spec fn is_block_size(size: int, total: int, blocks: int) -> bool {
    size > 0 && (size - 1) * blocks < total <= size * blocks
}

proof fn lemma_block_size(size: int, total: nat, blocks: nat)
    requires
        is_block_size(size, total as int, blocks as int),
        blocks > 0,
    ensures
        block_size(total, blocks) == size,
{
    let (t, b) = (total as int, blocks as int);
    vstd::arithmetic::div_mod::lemma_fundamental_div_mod(t, b);
    let (q, r) = (t / b, t % b);
    assert(0 <= r < b);
    assert(size == if r == 0 {
        q
    } else {
        q + 1
    }) by (nonlinear_arith)
        requires
            t == b * q + r,
            0 <= r < b,
            (size - 1) * b < t <= size * b,
            b > 0,
    ;
}

proof fn lemma_block_of(at: int, size: int, total: int, blocks: int)
    requires
        is_block_size(size, total, blocks),
        0 <= at < total,
        blocks > 0,
    ensures
        0 <= at / size < blocks,
{
    assert(0 <= at / size < blocks) by (nonlinear_arith)
        requires
            size > 0,
            0 <= at < total <= size * blocks,
    ;
}

proof fn lemma_two_dimensions(shape: Seq<usize>)
    requires
        shape.len() == 2,
    ensures
        element_count(shape) == shape[0] * shape[1],
{
    reveal_with_fuel(leading_elements, 3);
    assert(1 * shape[0] as nat == shape[0]);
}

proof fn lemma_byte_count(t: TensorContents)
    requires
        filled(t),
    ensures
        element_bytes(t.0) == 1 ==> t.2.len() == element_count(t.1),
        element_bytes(t.0) == 2 ==> t.2.len() == 2 * element_count(t.1),
{
    let (n, b) = (element_count(t.1), element_bytes(t.0));
    assert(b == 1 ==> n * b == n) by (nonlinear_arith);
    assert(b == 2 ==> n * b == 2 * n) by (nonlinear_arith);
}

proof fn lemma_inside(row: int, col: int, rows: int, cols: int)
    requires
        0 <= row < rows,
        0 <= col < cols,
    ensures
        0 <= row * cols + col < rows * cols,
{
    assert(0 <= row * cols + col < rows * cols) by (nonlinear_arith)
        requires
            0 <= row < rows,
            0 <= col < cols,
    ;
}

/// An element of a quantized matrix carries the scale of its block: blocks are `h`
/// rows high and `w` values wide, counted in values and not in bytes, and lie one
/// beside the other, so that the elements which carry one scale are neighbours.
pub proof fn law_elements_carry_the_scale_of_their_block(
    t: TensorContents,
    s: TensorContents,
    row: int,
    col: int,
    h: int,
    w: int,
)
    requires
        t.0 == TensorDtype::F8E4M3 || t.0 == TensorDtype::I8,
        filled(t) && filled(s),
        t.1.len() == 2 && s.1.len() == 2,
        s.1[0] > 0 && s.1[1] > 0,
        s.0 == TensorDtype::F8E8M0,
        0 <= row < t.1[0],
        0 <= col < logical_cols(t),
        is_block_size(h, t.1[0] as int, s.1[0] as int),
        is_block_size(w, logical_cols(t) as int, s.1[1] as int),
    ensures
        matrix_element(t, Some(s), row, col, t.1[0] as nat, logical_cols(t)) matches Ok(v)
            && v.scale == Some(e8m0_bits(s.2[(row / h) * s.1[1] + col / w])),
        0 <= row / h < s.1[0],
        0 <= col / w < s.1[1],
{
    let rows = t.1[0] as int;
    lemma_two_dimensions(s.1);
    lemma_two_dimensions(t.1);
    lemma_block_size(h, t.1[0] as nat, s.1[0] as nat);
    lemma_block_size(w, logical_cols(t), s.1[1] as nat);
    lemma_block_of(row, h, rows, s.1[0] as int);
    lemma_block_of(col, w, logical_cols(t) as int, s.1[1] as int);
    lemma_inside(row / h, col / w, s.1[0] as int, s.1[1] as int);
    lemma_byte_count(s);
    law_elements_lie_in_order(s, (row / h) * s.1[1] + col / w);
    if t.0 == TensorDtype::F8E4M3 {
        lemma_inside(row, col, rows, t.1[1] as int);
        law_elements_lie_in_order(t, row * t.1[1] + col);
    }
}

/// Every scale is carried: the element in the upper left corner of each block that
/// begins inside the matrix carries the scale of that block.
pub proof fn law_every_scale_is_carried(
    t: TensorContents,
    s: TensorContents,
    a: int,
    b: int,
    h: int,
    w: int,
)
    requires
        t.0 == TensorDtype::F8E4M3 || t.0 == TensorDtype::I8,
        filled(t) && filled(s),
        t.1.len() == 2 && s.1.len() == 2,
        s.0 == TensorDtype::F8E8M0,
        0 <= a < s.1[0],
        0 <= b < s.1[1],
        is_block_size(h, t.1[0] as int, s.1[0] as int),
        is_block_size(w, logical_cols(t) as int, s.1[1] as int),
        a * h < t.1[0],
        b * w < logical_cols(t),
    ensures
        matrix_element(t, Some(s), a * h, b * w, t.1[0] as nat, logical_cols(t)) matches Ok(v)
            && v.scale == Some(e8m0_bits(s.2[a * s.1[1] + b])),
{
    assert(0 <= a * h && 0 <= b * w && (a * h) / h == a && (b * w) / w == b) by (nonlinear_arith)
        requires
            a >= 0,
            b >= 0,
            h > 0,
            w > 0,
    ;
    law_elements_carry_the_scale_of_their_block(t, s, a * h, b * w, h, w);
}

/// Values are stored row by row. A packed byte holds two values of a row: the low
/// half that of the even column, the high half that of the odd column after it. A
/// matrix that is not quantized has no scales.
pub proof fn law_values_are_read_where_they_are_stored(
    t: TensorContents,
    scale: Option<TensorContents>,
    row: int,
    col: int,
)
    requires
        filled(t),
        t.1.len() == 2,
        0 <= row < t.1[0],
        0 <= col < logical_cols(t),
        matrix_element(t, scale, row, col, t.1[0] as nat, logical_cols(t)) is Ok,
    ensures
        ({
            let v = matrix_element(
                t,
                scale,
                row,
                col,
                t.1[0] as nat,
                logical_cols(t),
            )->Ok_0;
            let at = row * t.1[1] + col;
            &&& t.0 == TensorDtype::F8E4M3 ==> v.value == e4m3_bits(t.2[at]) && v.scale is Some
            &&& t.0 == TensorDtype::F8E8M0 ==> v.value == e8m0_bits(t.2[at]) && v.scale is None
            &&& t.0 == TensorDtype::BF16 || t.0 == TensorDtype::F32 ==> v.scale is None && scalar(
                t.0,
                t.2,
                at,
            ) == Ok::<u32, LoadError>(v.value)
            &&& t.0 == TensorDtype::I8 ==> {
                let byte = t.2[row * t.1[1] + col / 2] as int;
                &&& v.scale is Some
                &&& col % 2 == 0 ==> v.value == e2m1_bits((byte - 16 * (byte / 16)) as u8)
                &&& col % 2 == 1 ==> v.value == e2m1_bits((byte / 16) as u8)
            }
        }),
        logical_cols(t) == if t.0 == TensorDtype::I8 {
            2 * t.1[1]
        } else {
            t.1[1] as int
        },
{
    lemma_two_dimensions(t.1);
    if t.0 != TensorDtype::I8 {
        lemma_inside(row, col, t.1[0] as int, t.1[1] as int);
        law_elements_lie_in_order(t, row * t.1[1] + col);
    }
}

/// A shard holds the values of the whole: value `(i, j)` of the shard is value
/// `(rows.start + i, cols.start + j)` of the matrix, scale and all. A column-parallel
/// rank takes rows, a row-parallel rank columns, and all of the other axis.
pub proof fn law_shards_hold_the_values_of_the_whole(
    shards: Seq<SafeTensors<'_>>,
    map: WeightMap,
    name: Seq<char>,
    tp: TpLoadContext,
    part: HostValues,
    whole: HostValues,
    i: int,
    j: int,
)
    requires
        tp.range.start <= tp.range.end,
        planned_shard(shards, map, name, tp_shard(Some(&tp))) is Ok,
        is_dense_load(Ok(part), planned_shard(shards, map, name, tp_shard(Some(&tp)))),
        is_dense_load(Ok(whole), planned_shard(shards, map, name, tp_shard(None))),
        0 <= i < part.rows,
        0 <= j < part.cols,
    ensures
        tp.axis == TpShardAxis::Column ==> {
            &&& part.rows == tp.range.end - tp.range.start
            &&& part.cols == whole.cols
            &&& tp.total == whole.rows
            &&& tp.range.end <= whole.rows
            &&& part.values@[i * part.cols + j] == whole.values@[(tp.range.start + i) * whole.cols
                + j]
        },
        tp.axis == TpShardAxis::Row ==> {
            &&& part.rows == whole.rows
            &&& part.cols == tp.range.end - tp.range.start
            &&& tp.total == whole.cols
            &&& tp.range.end <= whole.cols
            &&& part.values@[i * part.cols + j] == whole.values@[i * whole.cols + tp.range.start
                + j]
        },
{
    let p = planned_shard(shards, map, name, tp_shard(Some(&tp)))->Ok_0;
    let w = planned_shard(shards, map, name, tp_shard(None))->Ok_0;
    let k = i * part.cols + j;
    let (x, y) = (p.rows.start + i, p.cols.start + j);
    let l = x * whole.cols + y;
    lemma_inside(i, j, part.rows as int, part.cols as int);
    lemma_inside(x, y, whole.rows as int, whole.cols as int);
    vstd::arithmetic::div_mod::lemma_fundamental_div_mod_converse(k, part.cols as int, i, j);
    vstd::arithmetic::div_mod::lemma_fundamental_div_mod_converse(l, whole.cols as int, x, y);
    assert(shard_element(p, k) == Ok::<ScaledValue, LoadError>(part.values@[k]));
    assert(shard_element(w, l) == Ok::<ScaledValue, LoadError>(whole.values@[l]));
}

/// The dense values of a matrix without scales are its values rounded to the nearest
/// bfloat16, at the same places.
pub proof fn law_rounded_matrices_keep_their_values(
    plan: Result<ShardPlan, LoadError>,
    dense: DenseMatrix,
    host: HostValues,
    k: int,
)
    requires
        plan is Ok,
        is_rounded_load(Ok(dense), plan),
        is_dense_load(Ok(host), plan),
        0 <= k < host.values@.len(),
    ensures
        dense.rows == host.rows,
        dense.cols == host.cols,
        dense.values@.len() == host.values@.len() == host.rows * host.cols,
        dense.values@[k] == nearest_bf16(host.values@[k].value),
{
    assert(shard_element(plan->Ok_0, k) == Ok::<ScaledValue, LoadError>(host.values@[k]));
}

/// The bytes and scales of a quantized shard give the values that loading the shard
/// as dense values gives: value `(i, j)` lies in byte `(i, j)`, or in half of byte
/// `(i, j / 2)`, and carries scale `(i / h, j / w)` of the shard's own scales, for
/// blocks of `h` rows and `w` values.
pub proof fn law_raw_shards_hold_the_same_values(
    m: BlockScaledMatrix,
    p: ShardPlan,
    i: int,
    j: int,
    h: int,
    w: int,
)
    requires
        p.tensor.0 == TensorDtype::F8E4M3 || p.tensor.0 == TensorDtype::I8,
        p.scale is Some,
        filled(p.tensor) && filled(p.scale->Some_0),
        p.tensor.1.len() == 2,
        logical_cols(p.tensor) <= usize::MAX,
        p.rows.start <= p.rows.end <= p.tensor.1[0],
        p.cols.start <= p.cols.end <= logical_cols(p.tensor),
        crate::model::deepseek::load::block_scaled_error(p) is None,
        is_block_scaled(m, p),
        is_block_size(h, p.tensor.1[0] as int, p.scale->Some_0.1[0] as int),
        is_block_size(w, logical_cols(p.tensor) as int, p.scale->Some_0.1[1] as int),
        0 <= i < m.rows,
        0 <= j < m.cols,
    ensures
        m.rows == p.rows.end - p.rows.start,
        m.cols == p.cols.end - p.cols.start,
        m.format == BlockFormat::Fp4 <==> p.tensor.0 == TensorDtype::I8,
        ({
            let v = matrix_element(
                p.tensor,
                p.scale,
                p.rows.start + i,
                p.cols.start + j,
                p.tensor.1[0] as nat,
                logical_cols(p.tensor),
            );
            let byte = if m.format == BlockFormat::Fp4 {
                m.weight@[i * (m.cols as int / 2) + j / 2]
            } else {
                m.weight@[i * m.cols + j]
            };
            &&& v is Ok
            &&& v->Ok_0.scale == Some(
                e8m0_bits(m.scales.bytes@[(i / h) * m.scales.cols + j / w]),
            )
            &&& m.format == BlockFormat::Fp8 ==> v->Ok_0.value == e4m3_bits(byte)
            &&& m.format == BlockFormat::Fp4 && j % 2 == 0 ==> v->Ok_0.value == e2m1_bits(
                (byte - 16 * (byte / 16)) as u8,
            )
            &&& m.format == BlockFormat::Fp4 && j % 2 == 1 ==> v->Ok_0.value == e2m1_bits(
                byte / 16,
            )
        }),
{
    let (t, s) = (p.tensor, p.scale->Some_0);
    let (x, y) = (p.rows.start + i, p.cols.start + j);
    let (sr, sc) = (s.1[0] as int, s.1[1] as int);
    lemma_two_dimensions(t.1);
    lemma_two_dimensions(s.1);
    lemma_byte_count(t);
    lemma_byte_count(s);
    law_elements_carry_the_scale_of_their_block(t, s, x, y, h, w);
    law_values_are_read_where_they_are_stored(t, Some(s), x, y);
    lemma_block_size(h, t.1[0] as nat, s.1[0] as nat);
    lemma_block_size(w, logical_cols(t), s.1[1] as nat);
    let (r0, r1) = scale_span(p.rows, h as nat, s.1[0] as nat);
    let (c0, c1) = scale_span(p.cols, w as nat, s.1[1] as nat);
    lemma_part_of_blocks(p.rows.start as int, p.rows.end as int, i, h, sr, t.1[0] as int);
    lemma_part_of_blocks(
        p.cols.start as int,
        p.cols.end as int,
        j,
        w,
        sc,
        logical_cols(t) as int,
    );
    law_submatrix_elements(
        s.2,
        sr,
        s.1[1] as nat,
        r0 as int,
        r1 as int,
        c0 as int,
        c1 as int,
        i / h,
        j / w,
    );
    let packing: int = if t.0 == TensorDtype::I8 {
        2
    } else {
        1
    };
    let (b0, b1) = (p.cols.start as int / packing, p.cols.end as int / packing);
    law_submatrix_elements(
        t.2,
        t.1[0] as int,
        t.1[1] as nat,
        p.rows.start as int,
        p.rows.end as int,
        b0,
        b1,
        i,
        j / packing,
    );
}

proof fn lemma_part_of_blocks(start: int, end: int, i: int, size: int, blocks: int, total: int)
    requires
        is_block_size(size, total, blocks),
        0 <= start <= end <= total,
        blocks > 0,
        start == 0 || start % size == 0,
        0 <= i < end - start,
    ensures
        (start + i) / size == start / size + i / size,
        0 <= start / size <= ceil_div(end as nat, size as nat),
        0 <= i / size < crate::arith::smaller(ceil_div(end as nat, size as nat), blocks as nat)
            - start / size,
        0 <= start / size,
        crate::arith::smaller(ceil_div(end as nat, size as nat), blocks as nat) <= blocks,
        start / size <= crate::arith::smaller(ceil_div(end as nat, size as nat), blocks as nat),
{
    let q = start / size;
    vstd::arithmetic::div_mod::lemma_fundamental_div_mod(start, size);
    if start == 0 {
        assert(0int % size == 0) by (nonlinear_arith)
            requires
                size > 0,
        ;
    }
    assert(start == size * q);
    vstd::arithmetic::div_mod::lemma_fundamental_div_mod(i, size);
    let (a, b) = (i / size, i % size);
    assert(0 <= b < size);
    assert(start + i == size * (q + a) + b) by (nonlinear_arith)
        requires
            start == size * q,
            i == size * a + b,
    ;
    vstd::arithmetic::div_mod::lemma_fundamental_div_mod_converse(start + i, size, q + a, b);
    assert(a >= 0 && q >= 0) by (nonlinear_arith)
        requires
            size > 0,
            start == size * q,
            start >= 0,
            i == size * a + b,
            0 <= b < size,
            i >= 0,
    ;
    lemma_block_of(start + i, size, total, blocks);
    vstd::arithmetic::div_mod::lemma_fundamental_div_mod(end, size);
    let (e, f) = (end / size, end % size);
    assert(0 <= f < size);
    let c = ceil_div(end as nat, size as nat) as int;
    assert(c == if f == 0 {
        e
    } else {
        e + 1
    });
    assert(q + a < c) by (nonlinear_arith)
        requires
            size * (q + a) + b < end,
            0 <= b,
            end == size * e + f,
            0 <= f < size,
            c == (if f == 0 {
                e
            } else {
                e + 1
            }),
            size > 0,
    ;
}

/// A vector keeps its values in order: a bfloat16 vector its own bits, a
/// single-precision vector its values rounded.
pub proof fn law_vectors_keep_their_values(v: Vec<u16>, t: TensorContents, i: int)
    requires
        filled(t),
        t.1.len() == 1,
        is_vector_load(Ok(v), Ok(t)),
        0 <= i < t.1[0],
    ensures
        v@.len() == t.1[0],
        t.0 == TensorDtype::BF16 && t.2[2 * i + 1] % 128 < 127 ==> v@[i] == t.2[2 * i] + 256
            * t.2[2 * i + 1],
        t.0 == TensorDtype::F32 ==> v@[i] == nearest_bf16(
            (t.2[4 * i] + 256 * t.2[4 * i + 1] + 65536 * t.2[4 * i + 2] + 16777216 * t.2[4 * i
                + 3]) as u32,
        ),
        t.0 == TensorDtype::F8E8M0 ==> v@[i] == nearest_bf16(e8m0_bits(t.2[i])),
        t.0 == TensorDtype::F8E4M3 ==> v@[i] == nearest_bf16(e4m3_bits(t.2[i])),
{
    reveal_with_fuel(leading_elements, 2);
    assert(element_count(t.1) == t.1[0]) by {
        assert(leading_elements(t.1, 0) == 1);
        assert(leading_elements(t.1, 1) == 1 * t.1[0] as nat);
    }
    law_elements_lie_in_order(t, i);
    assert(v@[i] == nearest_bf16(scalar(t.0, t.2, i)->Ok_0));
    lemma_byte_count(t);
}

/// Integers are read in order, each from eight little-endian bytes in two's
/// complement.
pub proof fn law_integers_keep_their_values(v: Vec<i64>, t: TensorContents, i: int)
    requires
        is_integer_load(Ok(v), Ok(t)),
        0 <= i < v@.len(),
    ensures
        t.0 == TensorDtype::I64,
        8 * v@.len() == t.2.len(),
        v@[i] == t.2[8 * i] + 0x100 * t.2[8 * i + 1] + 0x1_0000 * t.2[8 * i + 2] + 0x100_0000
            * t.2[8 * i + 3] + 0x1_0000_0000 * t.2[8 * i + 4] + 0x100_0000_0000 * t.2[8 * i + 5]
            + 0x1_0000_0000_0000 * t.2[8 * i + 6] + 0x100_0000_0000_0000 * (t.2[8 * i + 7] as int
            - if t.2[8 * i + 7] >= 128 {
                256int
            } else {
                0int
            }),
{
    reveal_with_fuel(little_endian, 9);
    assert(v@[i] == signed_value(t.2, 8 * i));
}

/// The size of a listed matrix is that of its values: as many rows and values per
/// row as loading the whole of it gives.
pub proof fn law_sizes_are_those_of_the_values(
    shards: Seq<SafeTensors<'_>>,
    map: WeightMap,
    name: Seq<char>,
    t: TensorContents,
    whole: HostValues,
)
    requires
        crate::model::deepseek::tensor::found_tensor(shards, map, name) == Ok::<
            TensorContents,
            LoadError,
        >(t),
        is_dense_load(Ok(whole), planned_shard(shards, map, name, MatrixShard::Full)),
    ensures
        rows_of(Ok(t)) == Ok::<usize, LoadError>(whole.rows),
        cols_of(Ok(t)) == Ok::<usize, LoadError>(whole.cols),
        whole.values@.len() == whole.rows * whole.cols,
{
}

/// The scales of a weight stand beside it: `x.scale` holds those of `x.weight`.
pub proof fn law_scales_stand_beside_their_weight(base: Seq<char>)
    ensures
        scale_name(base + ".weight"@) == Some(base + ".scale"@),
{
    reveal_strlit(".weight");
    let name = base + ".weight"@;
    assert(name.subrange(name.len() - 7, name.len() as int) =~= ".weight"@);
    assert(name.subrange(0, name.len() - 7) =~= base);
}

} // verus!
