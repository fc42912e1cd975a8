//! Loading checkpoint weights.
//!
//! The checkpoint stores most dense weights as block-scaled FP8 and routed
//! experts as FP4 values packed two to a byte. The serving path keeps those
//! bytes as they are, together with the block scales; other weights become
//! dense values.

use safetensors::SafeTensors;
use vstd::prelude::*;

use crate::arith::{ceil_div, larger, smaller};
use crate::arith::{div_ceil, max, min};
use crate::model::deepseek::quant::{decode_fp4_e2m1, round_to_bf16, scalar_value};
use crate::model::deepseek::quant::{e2m1_bits, is_number, little_endian, nearest_bf16, scalar};
use crate::model::deepseek::tensor::{
    deepseek_find_tensor, find_tensor, LoadError, RawTensor, TensorDtype, WeightMap,
};
use crate::model::deepseek::tensor::{
    element_bytes, element_count, filled, found_tensor, leading_elements, listed_tensor,
    map_names_shards, TensorContents,
};

verus! {

/// A half-open range of indices.
#[derive(Clone, Copy, Debug, PartialEq, Eq, Structural)]
pub struct Span {
    pub start: usize,
    pub end: usize,
}

impl Span {
    /// The range does not run backwards.
    pub open spec fn wf(self) -> bool {
        self.start <= self.end
    }

    /// Number of indices.
    pub open spec fn size(self) -> nat {
        (self.end - self.start) as nat
    }
}

/// The axis along which tensor parallelism splits a matrix: a column-parallel
/// layer splits the rows of its weight, a row-parallel layer the columns.
#[derive(Clone, Copy, Debug, PartialEq, Eq, Structural)]
pub enum TpShardAxis {
    Column,
    Row,
}

/// The part of a matrix that one rank loads.
#[derive(Clone, Copy, Debug, PartialEq, Eq, Structural)]
pub struct TpLoadContext {
    pub axis: TpShardAxis,
    pub range: Span,
    pub total: usize,
}

/// The part of a matrix to load.
#[derive(Clone, Copy, Debug, PartialEq, Eq, Structural)]
pub enum MatrixShard {
    Full,
    Rows { range: Span, total: usize },
    Cols { range: Span, total: usize },
}

/// The rows that a shard takes of a matrix.
pub open spec fn shard_rows(shard: MatrixShard, rows: usize) -> Result<Span, LoadError> {
    match shard {
        MatrixShard::Rows { range, total } => if total != rows {
            Err(LoadError::RowShardTotal)
        } else if range.end > rows {
            Err(LoadError::RowShardRange)
        } else {
            Ok(range)
        },
        _ => Ok(Span { start: 0, end: rows }),
    }
}

/// The columns that a shard takes of a matrix.
pub open spec fn shard_cols(shard: MatrixShard, cols: usize) -> Result<Span, LoadError> {
    match shard {
        MatrixShard::Cols { range, total } => if total != cols {
            Err(LoadError::ColShardTotal)
        } else if range.end > cols {
            Err(LoadError::ColShardRange)
        } else {
            Ok(range)
        },
        _ => Ok(Span { start: 0, end: cols }),
    }
}

/// The shard that a rank loads.
pub open spec fn tp_shard(tp: Option<&TpLoadContext>) -> MatrixShard {
    match tp {
        None => MatrixShard::Full,
        Some(tp) => match tp.axis {
            TpShardAxis::Column => MatrixShard::Rows { range: tp.range, total: tp.total },
            TpShardAxis::Row => MatrixShard::Cols { range: tp.range, total: tp.total },
        },
    }
}

impl MatrixShard {
    /// The range does not run backwards.
    pub open spec fn wf(self) -> bool {
        match self {
            MatrixShard::Full => true,
            MatrixShard::Rows { range, .. } => range.wf(),
            MatrixShard::Cols { range, .. } => range.wf(),
        }
    }

    /// The shard that a rank loads; the whole matrix without tensor
    /// parallelism.
    pub fn from_tp(tp: Option<&TpLoadContext>) -> (shard: MatrixShard)
        ensures
            shard == tp_shard(tp),
    {
        match tp {
            None => MatrixShard::Full,
            Some(tp) => match tp.axis {
                TpShardAxis::Column => MatrixShard::Rows { range: tp.range, total: tp.total },
                TpShardAxis::Row => MatrixShard::Cols { range: tp.range, total: tp.total },
            },
        }
    }

    /// The rows that the shard takes.
    pub fn row_range(&self, rows: usize) -> (range: Result<Span, LoadError>)
        ensures
            range == shard_rows(*self, rows),
    {
        match *self {
            MatrixShard::Rows { range, total } => {
                if total != rows {
                    Err(LoadError::RowShardTotal)
                } else if range.end > rows {
                    Err(LoadError::RowShardRange)
                } else {
                    Ok(range)
                }
            },
            _ => Ok(Span { start: 0, end: rows }),
        }
    }

    /// The columns that the shard takes.
    pub fn col_range(&self, cols: usize) -> (range: Result<Span, LoadError>)
        ensures
            range == shard_cols(*self, cols),
    {
        match *self {
            MatrixShard::Cols { range, total } => {
                if total != cols {
                    Err(LoadError::ColShardTotal)
                } else if range.end > cols {
                    Err(LoadError::ColShardRange)
                } else {
                    Ok(range)
                }
            },
            _ => Ok(Span { start: 0, end: cols }),
        }
    }
}

/// The elements of columns `c0..c1` in rows `r0..r1` of a row-major matrix.
pub open spec fn submatrix(
    data: Seq<u8>,
    cols: nat,
    r0: int,
    r1: int,
    c0: int,
    c1: int,
) -> Seq<u8>
    decreases r1 - r0,
{
    if r1 <= r0 {
        Seq::empty()
    } else {
        submatrix(data, cols, r0, r1 - 1, c0, c1) + data.subrange(
            (r1 - 1) * cols + c0,
            (r1 - 1) * cols + c1,
        )
    }
}

proof fn lemma_row_in_data(row: int, rows: int, cols: int, c1: int)
    requires
        0 <= row < rows,
        0 <= c1 <= cols,
    ensures
        0 <= row * cols,
        row * cols + c1 <= rows * cols,
        row * cols + cols <= rows * cols,
{
    assert(row * cols + cols <= rows * cols) by (nonlinear_arith)
        requires
            0 <= row < rows,
            0 <= cols,
    ;
    assert(0 <= row * cols) by (nonlinear_arith)
        requires
            0 <= row,
            0 <= cols,
    ;
}

/// Element `(i, j)` of a copied block is element `(r0 + i, c0 + j)` of the
/// matrix.
pub proof fn law_submatrix_elements(
    data: Seq<u8>,
    rows: int,
    cols: nat,
    r0: int,
    r1: int,
    c0: int,
    c1: int,
    i: int,
    j: int,
)
    requires
        data.len() == rows * cols,
        0 <= r0 <= r1 <= rows,
        0 <= c0 <= c1 <= cols,
        0 <= i < r1 - r0,
        0 <= j < c1 - c0,
    ensures
        submatrix(data, cols, r0, r1, c0, c1).len() == (r1 - r0) * (c1 - c0),
        0 <= i * (c1 - c0) + j < (r1 - r0) * (c1 - c0),
        submatrix(data, cols, r0, r1, c0, c1)[i * (c1 - c0) + j] == data[(r0 + i) * cols + c0 + j],
    decreases r1 - r0,
{
    let w = c1 - c0;
    lemma_submatrix_len(data, rows, cols, r0, r1, c0, c1);
    lemma_submatrix_len(data, rows, cols, r0, r1 - 1, c0, c1);
    lemma_row_in_data(r1 - 1, rows, cols as int, c1);
    assert(
        i * w + j < (i + 1) * w && (i + 1) * w <= (r1 - r0) * w && 0 <= i * w
    ) by (nonlinear_arith)
        requires
            0 <= i < r1 - r0,
            0 <= j < w,
    ;
    let before = (r1 - 1 - r0) * w;
    if i < r1 - 1 - r0 {
        law_submatrix_elements(data, rows, cols, r0, r1 - 1, c0, c1, i, j);
    } else {
        assert(i * w == before);
    }
}

proof fn lemma_submatrix_len(
    data: Seq<u8>,
    rows: int,
    cols: nat,
    r0: int,
    r1: int,
    c0: int,
    c1: int,
)
    requires
        data.len() == rows * cols,
        0 <= r0 <= r1 <= rows,
        0 <= c0 <= c1 <= cols,
    ensures
        submatrix(data, cols, r0, r1, c0, c1).len() == (r1 - r0) * (c1 - c0),
    decreases r1 - r0,
{
    let w = c1 - c0;
    if r0 < r1 {
        lemma_submatrix_len(data, rows, cols, r0, r1 - 1, c0, c1);
        lemma_row_in_data(r1 - 1, rows, cols as int, c1);
        assert((r1 - 1 - r0) * w + w == (r1 - r0) * w) by (nonlinear_arith);
    } else {
        assert(0 * w == 0);
    }
}

/// Consecutive row shards join to the shard of both: loading a matrix in row
/// shards loses nothing and repeats nothing.
pub proof fn law_row_shards_join(
    data: Seq<u8>,
    cols: nat,
    r0: int,
    r1: int,
    r2: int,
    c0: int,
    c1: int,
)
    requires
        r0 <= r1 <= r2,
    ensures
        submatrix(data, cols, r0, r1, c0, c1) + submatrix(data, cols, r1, r2, c0, c1) == submatrix(
            data,
            cols,
            r0,
            r2,
            c0,
            c1,
        ),
    decreases r2 - r1,
{
    if r1 < r2 {
        law_row_shards_join(data, cols, r0, r1, r2 - 1, c0, c1);
        assert(submatrix(data, cols, r0, r1, c0, c1) + submatrix(data, cols, r1, r2, c0, c1)
            =~= submatrix(data, cols, r0, r2, c0, c1));
    } else {
        assert(submatrix(data, cols, r0, r1, c0, c1) + Seq::<u8>::empty() =~= submatrix(
            data,
            cols,
            r0,
            r1,
            c0,
            c1,
        ));
    }
}

/// Copies columns `c0..c1` of rows `r0..r1`.
fn copy_block(
    data: &[u8],
    rows: usize,
    cols: usize,
    r0: usize,
    r1: usize,
    c0: usize,
    c1: usize,
) -> (out: Vec<u8>)
    requires
        data@.len() == rows * cols,
        r0 <= r1 <= rows,
        c0 <= c1 <= cols,
    ensures
        out@ == submatrix(data@, cols as nat, r0 as int, r1 as int, c0 as int, c1 as int),
{
    let total: usize = data.len();
    let mut out: Vec<u8> = Vec::new();
    let mut row: usize = r0;
    while row < r1
        invariant
            data@.len() == rows * cols,
            data@.len() == total,
            r0 <= row <= r1 <= rows,
            c0 <= c1 <= cols,
            out@ == submatrix(data@, cols as nat, r0 as int, row as int, c0 as int, c1 as int),
        decreases r1 - row,
    {
        proof {
            lemma_row_in_data(row as int, rows as int, cols as int, c1 as int);
        }
        let base: usize = row * cols;
        let ghost before = out@;
        let mut col: usize = c0;
        while col < c1
            invariant
                data@.len() == total,
                base == row * cols,
                base + c1 <= data@.len(),
                c0 <= col <= c1,
                out@ == before + data@.subrange(base + c0, base + col),
            decreases c1 - col,
        {
            out.push(data[base + col]);
            col = col + 1;
            assert(out@ =~= before + data@.subrange(base + c0, base + col));
        }
        row = row + 1;
    }
    out
}

/// Copies a shard of an FP8 matrix.
pub fn copy_fp8_matrix_shard(
    data: &[u8],
    rows: usize,
    cols: usize,
    row_range: &Span,
    col_range: &Span,
) -> (out: Result<Vec<u8>, LoadError>)
    requires
        rows * cols <= usize::MAX,
        row_range.start <= row_range.end <= rows,
        col_range.start <= col_range.end <= cols,
    ensures
        data@.len() != rows * cols ==> out == Err::<Vec<u8>, LoadError>(LoadError::DataLength),
        data@.len() == rows * cols ==> out is Ok && out->Ok_0@ == submatrix(
            data@,
            cols as nat,
            row_range.start as int,
            row_range.end as int,
            col_range.start as int,
            col_range.end as int,
        ),
{
    if data.len() != rows * cols {
        return Err(LoadError::DataLength);
    }
    Ok(
        copy_block(
            data,
            rows,
            cols,
            row_range.start,
            row_range.end,
            col_range.start,
            col_range.end,
        ),
    )
}

/// Copies a shard of an FP4 matrix whose values are packed two to a byte. The
/// column range counts values and must not cut through a byte.
pub fn copy_fp4_matrix_shard(
    data: &[u8],
    rows: usize,
    packed_cols: usize,
    row_range: &Span,
    col_range: &Span,
) -> (out: Result<Vec<u8>, LoadError>)
    requires
        rows * packed_cols <= usize::MAX,
        row_range.start <= row_range.end <= rows,
        col_range.start <= col_range.end <= packed_cols * 2,
    ensures
        ({
            let even = col_range.start % 2 == 0 && col_range.end % 2 == 0;
            &&& !even ==> out == Err::<Vec<u8>, LoadError>(LoadError::SplitByte)
            &&& even && data@.len() != rows * packed_cols ==> out == Err::<Vec<u8>, LoadError>(
                LoadError::DataLength,
            )
            &&& even && data@.len() == rows * packed_cols ==> out is Ok && out->Ok_0@ == submatrix(
                data@,
                packed_cols as nat,
                row_range.start as int,
                row_range.end as int,
                col_range.start as int / 2,
                col_range.end as int / 2,
            )
        }),
{
    if col_range.start % 2 != 0 || col_range.end % 2 != 0 {
        return Err(LoadError::SplitByte);
    }
    if data.len() != rows * packed_cols {
        return Err(LoadError::DataLength);
    }
    Ok(
        copy_block(
            data,
            rows,
            packed_cols,
            row_range.start,
            row_range.end,
            col_range.start / 2,
            col_range.end / 2,
        ),
    )
}

/// Size of a scale block along an axis of `total` elements and `blocks` scales.
pub open spec fn block_size(total: nat, blocks: nat) -> nat {
    larger(ceil_div(total, blocks), 1)
}

/// The scales of a shard: how many rows and columns, and their bytes.
pub struct ScaleShard {
    pub rows: usize,
    pub cols: usize,
    pub bytes: Vec<u8>,
}

/// A shard boundary lies at an end of the axis or between two blocks.
pub open spec fn aligned(range: Span, total: usize, block: nat) -> bool {
    &&& range.start == 0 || range.start as nat % block == 0
    &&& range.end == total || range.end as nat % block == 0
}

/// The scales that a range of an axis needs.
pub open spec fn scale_span(range: Span, block: nat, scales: nat) -> (nat, nat) {
    (range.start as nat / block, smaller(ceil_div(range.end as nat, block), scales))
}

/// Why the scales of a shard cannot be copied, if they cannot.
pub open spec fn scale_shard_error(
    scale: TensorContents,
    rows: Span,
    cols: Span,
    total_rows: usize,
    total_cols: usize,
) -> Option<LoadError> {
    if scale.1.len() != 2 {
        Some(LoadError::ScaleNotMatrix)
    } else if scale.1[0] == 0 || scale.1[1] == 0 {
        Some(LoadError::EmptyScale)
    } else if scale.2.len() != scale.1[0] * scale.1[1] {
        Some(LoadError::ScaleLength)
    } else {
        let block_h = block_size(total_rows as nat, scale.1[0] as nat);
        let block_w = block_size(total_cols as nat, scale.1[1] as nat);
        let (r0, r1) = scale_span(rows, block_h, scale.1[0] as nat);
        let (c0, c1) = scale_span(cols, block_w, scale.1[1] as nat);
        if !aligned(rows, total_rows, block_h) {
            Some(LoadError::UnalignedRows)
        } else if !aligned(cols, total_cols, block_w) {
            Some(LoadError::UnalignedCols)
        } else if r1 == r0 || c1 == c0 {
            Some(LoadError::EmptyScaleShard)
        } else {
            None
        }
    }
}

/// The scales of a shard.
pub open spec fn is_scale_shard(
    out: ScaleShard,
    scale: TensorContents,
    rows: Span,
    cols: Span,
    total_rows: usize,
    total_cols: usize,
) -> bool {
    let block_h = block_size(total_rows as nat, scale.1[0] as nat);
    let block_w = block_size(total_cols as nat, scale.1[1] as nat);
    let (r0, r1) = scale_span(rows, block_h, scale.1[0] as nat);
    let (c0, c1) = scale_span(cols, block_w, scale.1[1] as nat);
    &&& out.rows == r1 - r0
    &&& out.cols == c1 - c0
    &&& out.bytes@ == submatrix(
        scale.2,
        scale.1[1] as nat,
        r0 as int,
        r1 as int,
        c0 as int,
        c1 as int,
    )
}

proof fn lemma_scale_span(range: Span, total: nat, scales: nat)
    requires
        range.wf(),
        range.end <= total,
        scales > 0,
    ensures
        ({
            let block = block_size(total, scales);
            let (s0, s1) = scale_span(range, block, scales);
            s0 <= s1 <= scales && block > 0
        }),
{
    let block = block_size(total, scales);
    let start = range.start as nat;
    let end = range.end as nat;
    assert(total <= ceil_div(total, scales) * scales) by {
        assert(total == scales * (total / scales) + total % scales) by {
            vstd::arithmetic::div_mod::lemma_fundamental_div_mod(total as int, scales as int);
        }
        assert((total / scales) * scales == scales * (total / scales)) by (nonlinear_arith);
        assert(
            (total / scales + 1) * scales == (total / scales) * scales + scales
        ) by (nonlinear_arith);
    }
    assert(ceil_div(total, scales) * scales <= block * scales) by (nonlinear_arith)
        requires
            ceil_div(total, scales) <= block,
    ;
    assert(start / block <= scales) by (nonlinear_arith)
        requires
            start <= total,
            total <= block * scales,
            block > 0,
    ;
    assert(start / block <= end / block) by (nonlinear_arith)
        requires
            start <= end,
            block > 0,
    ;
}

/// Copies the block scales of a shard. The shard must not cut through a block.
pub fn copy_scale_shard(
    scale: &RawTensor<'_>,
    row_range: &Span,
    col_range: &Span,
    total_rows: usize,
    total_cols: usize,
) -> (out: Result<ScaleShard, LoadError>)
    requires
        filled(scale.contents()),
        row_range.start <= row_range.end <= total_rows,
        col_range.start <= col_range.end <= total_cols,
    ensures
        match out {
            Err(e) => scale_shard_error(
                scale.contents(),
                *row_range,
                *col_range,
                total_rows,
                total_cols,
            ) == Some(e),
            Ok(s) => scale_shard_error(
                scale.contents(),
                *row_range,
                *col_range,
                total_rows,
                total_cols,
            ) is None && is_scale_shard(
                s,
                scale.contents(),
                *row_range,
                *col_range,
                total_rows,
                total_cols,
            ),
        },
{
    if scale.shape.len() != 2 {
        return Err(LoadError::ScaleNotMatrix);
    }
    proof {
        lemma_matrix_elements(scale.shape@);
    }
    let scale_rows: usize = scale.shape[0];
    let scale_cols: usize = scale.shape[1];
    if scale_rows == 0 || scale_cols == 0 {
        return Err(LoadError::EmptyScale);
    }
    if scale.data.len() != scale_rows * scale_cols {
        return Err(LoadError::ScaleLength);
    }
    let block_h: usize = max(div_ceil(total_rows, scale_rows), 1);
    let block_w: usize = max(div_ceil(total_cols, scale_cols), 1);
    if !(row_range.start == 0 || row_range.start % block_h == 0) || !(row_range.end == total_rows
        || row_range.end % block_h == 0) {
        return Err(LoadError::UnalignedRows);
    }
    if !(col_range.start == 0 || col_range.start % block_w == 0) || !(col_range.end == total_cols
        || col_range.end % block_w == 0) {
        return Err(LoadError::UnalignedCols);
    }
    proof {
        lemma_scale_span(*row_range, total_rows as nat, scale_rows as nat);
        lemma_scale_span(*col_range, total_cols as nat, scale_cols as nat);
    }
    let r0: usize = row_range.start / block_h;
    let r1: usize = min(div_ceil(row_range.end, block_h), scale_rows);
    let c0: usize = col_range.start / block_w;
    let c1: usize = min(div_ceil(col_range.end, block_w), scale_cols);
    if r1 - r0 == 0 || c1 - c0 == 0 {
        return Err(LoadError::EmptyScaleShard);
    }
    let bytes: Vec<u8> = copy_block(scale.data, scale_rows, scale_cols, r0, r1, c0, c1);
    Ok(ScaleShard { rows: r1 - r0, cols: c1 - c0, bytes })
}

proof fn lemma_matrix_elements(shape: Seq<usize>)
    requires
        shape.len() == 2,
    ensures
        element_count(shape) == shape[0] * shape[1],
{
    reveal_with_fuel(leading_elements, 3);
    assert(1 * shape[0] as nat == shape[0]);
}

/// A matrix of single bytes holds a byte per element.
proof fn lemma_byte_matrix(t: TensorContents)
    requires
        filled(t),
        t.1.len() == 2,
        t.0 != TensorDtype::Other,
        element_bytes(t.0) == 1,
    ensures
        t.2.len() == t.1[0] * t.1[1],
{
    lemma_matrix_elements(t.1);
    let n = element_count(t.1);
    let b = element_bytes(t.0);
    assert(n * b == n) by (nonlinear_arith)
        requires
            b == 1,
    ;
}

/// A value of a matrix: the bits of the stored number and of the scale that it
/// is multiplied with, if it has one.
#[derive(Clone, Copy, Debug, PartialEq, Eq, Structural)]
pub struct ScaledValue {
    pub value: u32,
    pub scale: Option<u32>,
}

/// The scale of the block that an element lies in.
pub open spec fn block_scale(
    scale: TensorContents,
    row: int,
    col: int,
    rows: nat,
    cols: nat,
) -> Result<u32, LoadError> {
    if scale.1.len() != 2 {
        Err(LoadError::ScaleNotMatrix)
    } else if scale.1[0] == 0 || scale.1[1] == 0 {
        Err(LoadError::EmptyScale)
    } else {
        let scale_row = smaller(
            row as nat / block_size(rows, scale.1[0] as nat),
            (scale.1[0] - 1) as nat,
        );
        let scale_col = smaller(
            col as nat / block_size(cols, scale.1[1] as nat),
            (scale.1[1] - 1) as nat,
        );
        scalar(scale.0, scale.2, scale_row * scale.1[1] + scale_col)
    }
}

/// A value with the scale of its block.
pub open spec fn with_scale(
    value: u32,
    scale: Option<TensorContents>,
    row: int,
    col: int,
    rows: nat,
    cols: nat,
) -> Result<ScaledValue, LoadError> {
    match scale {
        None => Err(LoadError::MissingScale),
        Some(s) => match block_scale(s, row, col, rows, cols) {
            Ok(bits) => Ok(ScaledValue { value, scale: Some(bits) }),
            Err(e) => Err(e),
        },
    }
}

/// The four bits of a packed value: the even column is in the low half.
pub open spec fn nibble(packed: u8, col: int) -> u8 {
    if col % 2 == 0 {
        packed % 16
    } else {
        packed / 16
    }
}

/// Element `(row, col)` of a matrix of `rows` rows and `cols` values per row.
pub open spec fn matrix_element(
    t: TensorContents,
    scale: Option<TensorContents>,
    row: int,
    col: int,
    rows: nat,
    cols: nat,
) -> Result<ScaledValue, LoadError> {
    match t.0 {
        TensorDtype::F8E4M3 => match scalar(t.0, t.2, row * t.1[1] + col) {
            Ok(value) => with_scale(value, scale, row, col, rows, cols),
            Err(e) => Err(e),
        },
        TensorDtype::I8 => with_scale(
            e2m1_bits(nibble(t.2[row * t.1[1] + col / 2], col)),
            scale,
            row,
            col,
            rows,
            cols,
        ),
        TensorDtype::BF16 | TensorDtype::F32 | TensorDtype::F8E8M0 => match scalar(
            t.0,
            t.2,
            row * t.1[1] + col,
        ) {
            Ok(value) => Ok(ScaledValue { value, scale: None }),
            Err(e) => Err(e),
        },
        _ => Err(LoadError::UnsupportedDtype),
    }
}

proof fn lemma_index_in_matrix(row: int, col: int, rows: int, cols: int)
    requires
        0 <= row < rows,
        0 <= col < cols,
    ensures
        0 <= row * cols + col < rows * cols,
{
    lemma_row_in_data(row, rows, cols, 0);
}

proof fn lemma_block_index(scale: TensorContents, row: int, col: int, rows: nat, cols: nat)
    requires
        scale.1.len() == 2,
        scale.1[0] > 0,
        scale.1[1] > 0,
        row >= 0,
        col >= 0,
    ensures
        ({
            let scale_row = smaller(
                row as nat / block_size(rows, scale.1[0] as nat),
                (scale.1[0] - 1) as nat,
            );
            let scale_col = smaller(
                col as nat / block_size(cols, scale.1[1] as nat),
                (scale.1[1] - 1) as nat,
            );
            0 <= scale_row * scale.1[1] + scale_col < scale.1[0] * scale.1[1]
        }),
{
    let scale_row = smaller(
        row as nat / block_size(rows, scale.1[0] as nat),
        (scale.1[0] - 1) as nat,
    );
    let scale_col = smaller(
        col as nat / block_size(cols, scale.1[1] as nat),
        (scale.1[1] - 1) as nat,
    );
    lemma_index_in_matrix(
        scale_row as int,
        scale_col as int,
        scale.1[0] as int,
        scale.1[1] as int,
    );
}

/// Whether an element can be read does not depend on where it lies.
proof fn lemma_elements_agree(
    t: TensorContents,
    scale: Option<TensorContents>,
    row: int,
    col: int,
    other_row: int,
    other_col: int,
    rows: nat,
    cols: nat,
)
    requires
        filled(t),
        scale matches Some(s) ==> filled(s),
        t.1.len() == 2,
        rows == t.1[0],
        cols == (if t.0 == TensorDtype::I8 {
            2 * t.1[1]
        } else {
            t.1[1] as int
        }),
        0 <= row < rows,
        0 <= col < cols,
        0 <= other_row < rows,
        0 <= other_col < cols,
    ensures
        matrix_element(t, scale, row, col, rows, cols) is Ok <==> matrix_element(
            t,
            scale,
            other_row,
            other_col,
            rows,
            cols,
        ) is Ok,
{
    lemma_matrix_elements(t.1);
    if t.0 != TensorDtype::I8 {
        lemma_index_in_matrix(row, col, rows as int, cols as int);
        lemma_index_in_matrix(other_row, other_col, rows as int, cols as int);
        if is_number(t.0) {
            crate::model::deepseek::quant::law_elements_are_readable(t, row * t.1[1] + col);
            crate::model::deepseek::quant::law_elements_are_readable(
                t,
                other_row * t.1[1] + other_col,
            );
        }
    }
    if let Some(s) = scale {
        if s.1.len() == 2 && s.1[0] > 0 && s.1[1] > 0 {
            lemma_matrix_elements(s.1);
            lemma_block_index(s, row, col, rows, cols);
            lemma_block_index(s, other_row, other_col, rows, cols);
            if is_number(s.0) {
                let a = smaller(
                    row as nat / block_size(rows, s.1[0] as nat),
                    (s.1[0] - 1) as nat,
                ) * s.1[1] + smaller(
                    col as nat / block_size(cols, s.1[1] as nat),
                    (s.1[1] - 1) as nat,
                );
                let b = smaller(
                    other_row as nat / block_size(rows, s.1[0] as nat),
                    (s.1[0] - 1) as nat,
                ) * s.1[1] + smaller(
                    other_col as nat / block_size(cols, s.1[1] as nat),
                    (s.1[1] - 1) as nat,
                );
                crate::model::deepseek::quant::law_elements_are_readable(s, a);
                crate::model::deepseek::quant::law_elements_are_readable(s, b);
            }
        }
    }
}

fn block_scale_bits(
    scale: &RawTensor<'_>,
    row: usize,
    col: usize,
    rows: usize,
    cols: usize,
) -> (bits: Result<u32, LoadError>)
    requires
        filled(scale.contents()),
    ensures
        bits == block_scale(scale.contents(), row as int, col as int, rows as nat, cols as nat),
{
    if scale.shape.len() != 2 {
        return Err(LoadError::ScaleNotMatrix);
    }
    let scale_rows: usize = scale.shape[0];
    let scale_cols: usize = scale.shape[1];
    if scale_rows == 0 || scale_cols == 0 {
        return Err(LoadError::EmptyScale);
    }
    proof {
        lemma_matrix_elements(scale.shape@);
        lemma_block_index(scale.contents(), row as int, col as int, rows as nat, cols as nat);
        let sr = smaller(
            row as nat / block_size(rows as nat, scale_rows as nat),
            (scale_rows - 1) as nat,
        ) as int;
        assert(0 <= sr * scale_cols) by (nonlinear_arith)
            requires
                sr >= 0,
        ;
    }
    let block_h: usize = max(div_ceil(rows, scale_rows), 1);
    let block_w: usize = max(div_ceil(cols, scale_cols), 1);
    let scale_row: usize = min(row / block_h, scale_rows - 1);
    let scale_col: usize = min(col / block_w, scale_cols - 1);
    scalar_value(scale.dtype, scale.data, scale_row * scale_cols + scale_col)
}

/// What an optional tensor holds.
pub open spec fn optional_contents(t: Option<&RawTensor<'_>>) -> Option<TensorContents> {
    match t {
        Some(t) => Some(t.contents()),
        None => None,
    }
}

fn scaled(
    value: u32,
    scale: Option<&RawTensor<'_>>,
    row: usize,
    col: usize,
    rows: usize,
    cols: usize,
) -> (r: Result<ScaledValue, LoadError>)
    requires
        scale matches Some(s) ==> filled(s.contents()),
    ensures
        r == with_scale(
            value,
            optional_contents(scale),
            row as int,
            col as int,
            rows as nat,
            cols as nat,
        ),
{
    match scale {
        None => Err(LoadError::MissingScale),
        Some(s) => match block_scale_bits(s, row, col, rows, cols) {
            Ok(bits) => Ok(ScaledValue { value, scale: Some(bits) }),
            Err(e) => Err(e),
        },
    }
}

/// Reads element `(row, col)` of a matrix with its block scale.
pub fn matrix_value(
    tensor: &RawTensor<'_>,
    scale: Option<&RawTensor<'_>>,
    row: usize,
    col: usize,
    rows: usize,
    logical_cols: usize,
) -> (r: Result<ScaledValue, LoadError>)
    requires
        filled(tensor.contents()),
        scale matches Some(s) ==> filled(s.contents()),
        tensor.shape@.len() == 2,
        rows == tensor.shape@[0],
        logical_cols == (if tensor.dtype == TensorDtype::I8 {
            2 * tensor.shape@[1]
        } else {
            tensor.shape@[1] as int
        }),
        row < rows,
        col < logical_cols,
    ensures
        r == matrix_element(
            tensor.contents(),
            optional_contents(scale),
            row as int,
            col as int,
            rows as nat,
            logical_cols as nat,
        ),
{
    let cols: usize = tensor.shape[1];
    proof {
        lemma_matrix_elements(tensor.shape@);
        lemma_row_in_data(row as int, rows as int, cols as int, 0);
    }
    match tensor.dtype {
        TensorDtype::F8E4M3 => {
            match scalar_value(tensor.dtype, tensor.data, row * cols + col) {
                Ok(value) => scaled(value, scale, row, col, rows, logical_cols),
                Err(e) => Err(e),
            }
        },
        TensorDtype::I8 => {
            proof {
                lemma_index_in_matrix(row as int, col as int / 2, rows as int, cols as int);
                lemma_byte_matrix(tensor.contents());
            }
            let packed: u8 = tensor.data[row * cols + col / 2];
            let bits: u8 = if col % 2 == 0 {
                packed % 16
            } else {
                packed / 16
            };
            scaled(decode_fp4_e2m1(bits), scale, row, col, rows, logical_cols)
        },
        TensorDtype::BF16 | TensorDtype::F32 | TensorDtype::F8E8M0 => {
            match scalar_value(tensor.dtype, tensor.data, row * cols + col) {
                Ok(value) => Ok(ScaledValue { value, scale: None }),
                Err(e) => Err(e),
            }
        },
        _ => Err(LoadError::UnsupportedDtype),
    }
}

/// Name of the block scales of a quantized weight.
pub open spec fn scale_name(name: Seq<char>) -> Option<Seq<char>> {
    if name.len() >= 7 && name.subrange(name.len() - 7, name.len() as int) == ".weight"@ {
        Some(name.subrange(0, name.len() - 7) + ".scale"@)
    } else {
        None
    }
}

fn scale_tensor_name(name: &str) -> (scale: Option<String>)
    ensures
        match scale {
            Some(s) => scale_name(name@) == Some(s@),
            None => scale_name(name@) is None,
        },
{
    let n: usize = name.unicode_len();
    if n < 7 {
        return None;
    }
    if !crate::model::requests::same_text(name.substring_char(n - 7, n), ".weight") {
        return None;
    }
    let mut s: String = String::from_str(name.substring_char(0, n - 7));
    s.append(".scale");
    Some(s)
}

/// Values per row of a matrix: packed matrices hold two to a byte.
pub open spec fn logical_cols(t: TensorContents) -> nat {
    if t.0 == TensorDtype::I8 {
        2 * t.1[1] as nat
    } else {
        t.1[1] as nat
    }
}

/// The tensor is quantized in scaled blocks.
pub open spec fn is_quantized(dtype: TensorDtype) -> bool {
    dtype == TensorDtype::F8E4M3 || dtype == TensorDtype::I8
}

/// What the block scales of a tensor hold.
pub open spec fn found_scale(
    shards: Seq<SafeTensors<'_>>,
    map: WeightMap,
    name: Seq<char>,
) -> Result<TensorContents, LoadError> {
    match scale_name(name) {
        None => Err(LoadError::UnnamedScale),
        Some(scale) => match found_tensor(shards, map, scale) {
            Ok(s) => Ok(s),
            Err(_) => Err(LoadError::MissingScale),
        },
    }
}

/// A shard of a matrix before its elements are read: the tensor, the rows and
/// columns to take, and the block scales of a quantized tensor.
pub struct ShardPlan {
    pub tensor: TensorContents,
    pub rows: Span,
    pub cols: Span,
    pub scale: Option<TensorContents>,
}

/// What loading a shard of a matrix reads, or why it cannot.
pub open spec fn planned_shard(
    shards: Seq<SafeTensors<'_>>,
    map: WeightMap,
    name: Seq<char>,
    shard: MatrixShard,
) -> Result<ShardPlan, LoadError> {
    match found_tensor(shards, map, name) {
        Err(e) => Err(e),
        Ok(t) => if t.1.len() != 2 {
            Err(LoadError::NotMatrix)
        } else if logical_cols(t) > usize::MAX {
            Err(LoadError::TooWide)
        } else {
            match (shard_rows(shard, t.1[0]), shard_cols(shard, logical_cols(t) as usize)) {
                (Err(e), _) => Err(e),
                (_, Err(e)) => Err(e),
                (Ok(rows), Ok(cols)) => if is_quantized(t.0) {
                    match found_scale(shards, map, name) {
                        Err(e) => Err(e),
                        Ok(s) => Ok(ShardPlan { tensor: t, rows, cols, scale: Some(s) }),
                    }
                } else {
                    Ok(ShardPlan { tensor: t, rows, cols, scale: None })
                },
            }
        },
    }
}

struct LocatedShard<'a> {
    tensor: RawTensor<'a>,
    rows: Span,
    cols: Span,
    scale: Option<RawTensor<'a>>,
}

spec fn located_plan(l: LocatedShard<'_>) -> ShardPlan {
    ShardPlan {
        tensor: l.tensor.contents(),
        rows: l.rows,
        cols: l.cols,
        scale: match l.scale {
            Some(s) => Some(s.contents()),
            None => None,
        },
    }
}

fn locate_shard<'a>(
    shards: &[SafeTensors<'a>],
    weight_map: &WeightMap,
    name: &str,
    shard: &MatrixShard,
) -> (r: Result<LocatedShard<'a>, LoadError>)
    requires
        weight_map.wf(),
        map_names_shards(*weight_map, shards@),
        shard.wf(),
    ensures
        match r {
            Err(e) => planned_shard(shards@, *weight_map, name@, *shard) == Err::<
                ShardPlan,
                LoadError,
            >(e),
            Ok(l) => {
                &&& planned_shard(shards@, *weight_map, name@, *shard) == Ok::<
                    ShardPlan,
                    LoadError,
                >(located_plan(l))
                &&& filled(l.tensor.contents())
                &&& l.scale matches Some(s) ==> filled(s.contents())
                &&& l.tensor.shape@.len() == 2
                &&& l.rows.start <= l.rows.end <= l.tensor.shape@[0]
                &&& l.cols.start <= l.cols.end <= logical_cols(l.tensor.contents()) <= usize::MAX
            },
        },
{
    let tensor: RawTensor<'a> = match find_tensor(shards, weight_map, name) {
        Ok(t) => t,
        Err(e) => {
            return Err(e);
        },
    };
    if tensor.shape.len() != 2 {
        return Err(LoadError::NotMatrix);
    }
    let physical: usize = tensor.shape[1];
    let quantized: bool = tensor.dtype == TensorDtype::F8E4M3 || tensor.dtype == TensorDtype::I8;
    let logical: usize = if tensor.dtype == TensorDtype::I8 {
        match physical.checked_mul(2) {
            Some(n) => n,
            None => {
                return Err(LoadError::TooWide);
            },
        }
    } else {
        physical
    };
    let rows: Span = match shard.row_range(tensor.shape[0]) {
        Ok(range) => range,
        Err(e) => {
            return Err(e);
        },
    };
    let cols: Span = match shard.col_range(logical) {
        Ok(range) => range,
        Err(e) => {
            return Err(e);
        },
    };
    if !quantized {
        return Ok(LocatedShard { tensor, rows, cols, scale: None });
    }
    let scale_name: String = match scale_tensor_name(name) {
        Some(s) => s,
        None => {
            return Err(LoadError::UnnamedScale);
        },
    };
    match find_tensor(shards, weight_map, scale_name.as_str()) {
        Ok(scale) => Ok(LocatedShard { tensor, rows, cols, scale: Some(scale) }),
        Err(_) => Err(LoadError::MissingScale),
    }
}

/// Values of a shard, row by row.
pub struct HostValues {
    pub values: Vec<ScaledValue>,
    pub rows: usize,
    pub cols: usize,
}

/// Element `k` of a shard, counted row by row.
pub open spec fn shard_element(plan: ShardPlan, k: int) -> Result<ScaledValue, LoadError> {
    let width = plan.cols.size() as int;
    matrix_element(
        plan.tensor,
        plan.scale,
        plan.rows.start + k / width,
        plan.cols.start + k % width,
        plan.tensor.1[0] as nat,
        logical_cols(plan.tensor),
    )
}

/// Number of elements of a shard.
pub open spec fn shard_size(plan: ShardPlan) -> nat {
    plan.rows.size() * plan.cols.size()
}

/// The dense values of a shard, or why they cannot be read: a shard without
/// elements can always be read.
pub open spec fn is_dense_load(
    r: Result<HostValues, LoadError>,
    plan: Result<ShardPlan, LoadError>,
) -> bool {
    match plan {
        Err(e) => r == Err::<HostValues, LoadError>(e),
        Ok(p) => if shard_size(p) > 0 && shard_element(p, 0) is Err {
            r == Err::<HostValues, LoadError>(shard_element(p, 0)->Err_0)
        } else {
            &&& r is Ok
            &&& r->Ok_0.rows == p.rows.size()
            &&& r->Ok_0.cols == p.cols.size()
            &&& r->Ok_0.values@.len() == shard_size(p)
            &&& forall|k: int|
                0 <= k < shard_size(p) ==> shard_element(p, k) == Ok::<ScaledValue, LoadError>(
                    #[trigger] r->Ok_0.values@[k],
                )
        },
    }
}

fn read_values(l: &LocatedShard<'_>) -> (r: Result<HostValues, LoadError>)
    requires
        filled(l.tensor.contents()),
        l.scale matches Some(s) ==> filled(s.contents()),
        l.tensor.shape@.len() == 2,
        l.rows.start <= l.rows.end <= l.tensor.shape@[0],
        l.cols.start <= l.cols.end <= logical_cols(l.tensor.contents()) <= usize::MAX,
    ensures
        is_dense_load(r, Ok(located_plan(*l))),
{
    let rows: usize = l.rows.end - l.rows.start;
    let cols: usize = l.cols.end - l.cols.start;
    let total_rows: usize = l.tensor.shape[0];
    let total_cols: usize = if l.tensor.dtype == TensorDtype::I8 {
        2 * l.tensor.shape[1]
    } else {
        l.tensor.shape[1]
    };
    let ghost plan = located_plan(*l);
    let mut values: Vec<ScaledValue> = Vec::new();
    let mut i: usize = 0;
    proof {
        assert(0 * cols == 0) by (nonlinear_arith);
    }
    while i < rows
        invariant
            i <= rows,
            plan == located_plan(*l),
            rows == plan.rows.size(),
            cols == plan.cols.size(),
            total_rows == l.tensor.shape@[0],
            total_cols == logical_cols(l.tensor.contents()),
            filled(l.tensor.contents()),
            l.scale matches Some(s) ==> filled(s.contents()),
            l.tensor.shape@.len() == 2,
            l.rows.start <= l.rows.end <= l.tensor.shape@[0],
            l.cols.start <= l.cols.end <= logical_cols(l.tensor.contents()) <= usize::MAX,
            values@.len() == i * cols,
            forall|k: int|
                0 <= k < values@.len() ==> shard_element(plan, k) == Ok::<ScaledValue, LoadError>(
                    #[trigger] values@[k],
                ),
        decreases rows - i,
    {
        let mut j: usize = 0;
        while j < cols
            invariant
                i < rows,
                j <= cols,
                plan == located_plan(*l),
                rows == plan.rows.size(),
                cols == plan.cols.size(),
                total_rows == l.tensor.shape@[0],
                total_cols == logical_cols(l.tensor.contents()),
                filled(l.tensor.contents()),
                l.scale matches Some(s) ==> filled(s.contents()),
                l.tensor.shape@.len() == 2,
                l.rows.start <= l.rows.end <= l.tensor.shape@[0],
                l.cols.start <= l.cols.end <= logical_cols(l.tensor.contents()) <= usize::MAX,
                values@.len() == i * cols + j,
                forall|k: int|
                    0 <= k < values@.len() ==> shard_element(plan, k) == Ok::<
                        ScaledValue,
                        LoadError,
                    >(#[trigger] values@[k]),
            decreases cols - j,
        {
            let ghost k = values@.len() as int;
            proof {
                lemma_index_in_matrix(i as int, j as int, rows as int, cols as int);
                assert(k / (cols as int) == i && k % (cols as int) == j) by {
                    vstd::arithmetic::div_mod::lemma_fundamental_div_mod_converse(
                        k,
                        cols as int,
                        i as int,
                        j as int,
                    );
                }
            }
            match matrix_value(
                &l.tensor,
                l.scale.as_ref(),
                l.rows.start + i,
                l.cols.start + j,
                total_rows,
                total_cols,
            ) {
                Ok(value) => {
                    assert(shard_element(plan, k) == Ok::<ScaledValue, LoadError>(value));
                    values.push(value);
                },
                Err(e) => {
                    proof {
                        assert(shard_element(plan, k) == Err::<ScaledValue, LoadError>(e));
                        if k > 0 {
                            lemma_elements_agree(
                                plan.tensor,
                                plan.scale,
                                l.rows.start + k / (cols as int),
                                l.cols.start + k % (cols as int),
                                l.rows.start as int,
                                l.cols.start as int,
                                total_rows as nat,
                                total_cols as nat,
                            );
                            assert(
                                shard_element(plan, 0) == Ok::<ScaledValue, LoadError>(values@[0])
                            );
                            assert(0int / (cols as int) == 0 && 0int % (cols as int) == 0) by {
                                vstd::arithmetic::div_mod::lemma_small_mod(0, cols as nat);
                                vstd::arithmetic::div_mod::lemma_basic_div(0, cols as int);
                            }
                            assert(false);
                        }
                    }
                    return Err(e);
                },
            }
            j = j + 1;
        }
        proof {
            assert(i * cols + cols == (i + 1) * cols) by (nonlinear_arith);
        }
        i = i + 1;
    }
    proof {
        if shard_size(plan) > 0 {
            assert(shard_element(plan, 0) == Ok::<ScaledValue, LoadError>(values@[0]));
        }
    }
    Ok(HostValues { values, rows, cols })
}

/// Loads a shard of a matrix as dense values.
pub fn load_dsv4_matrix_host(
    shards: &[SafeTensors<'_>],
    weight_map: &WeightMap,
    name: &str,
    shard: &MatrixShard,
) -> (r: Result<HostValues, LoadError>)
    requires
        weight_map.wf(),
        map_names_shards(*weight_map, shards@),
        shard.wf(),
    ensures
        is_dense_load(r, planned_shard(shards@, *weight_map, name@, *shard)),
{
    match locate_shard(shards, weight_map, name, shard) {
        Ok(located) => read_values(&located),
        Err(e) => Err(e),
    }
}

/// How the bytes of a quantized matrix hold its values.
#[derive(Clone, Copy, Debug, PartialEq, Eq, Structural)]
pub enum BlockFormat {
    /// A value per byte.
    Fp8,
    /// Two values per byte.
    Fp4,
}

/// A quantized matrix: the bytes of its values and its block scales.
pub struct BlockScaledMatrix {
    pub format: BlockFormat,
    pub weight: Vec<u8>,
    pub scales: ScaleShard,
    pub rows: usize,
    pub cols: usize,
}

/// A matrix of bfloat16 numbers, given by their bits, row by row.
pub struct DenseMatrix {
    pub values: Vec<u16>,
    pub rows: usize,
    pub cols: usize,
}

/// A matrix as it goes to the device.
pub enum HostMatrix {
    BlockScaled(BlockScaledMatrix),
    Dense(DenseMatrix),
}

/// The rounded values of a shard whose values have no scales, or why they
/// cannot be read.
pub open spec fn is_rounded_load(
    r: Result<DenseMatrix, LoadError>,
    plan: Result<ShardPlan, LoadError>,
) -> bool {
    match plan {
        Err(e) => r == Err::<DenseMatrix, LoadError>(e),
        Ok(p) => if shard_size(p) > 0 && shard_element(p, 0) is Err {
            r == Err::<DenseMatrix, LoadError>(shard_element(p, 0)->Err_0)
        } else {
            &&& r is Ok
            &&& r->Ok_0.rows == p.rows.size()
            &&& r->Ok_0.cols == p.cols.size()
            &&& r->Ok_0.values@.len() == shard_size(p)
            &&& forall|k: int|
                0 <= k < shard_size(p) ==> {
                    &&& shard_element(p, k) is Ok
                    &&& #[trigger] r->Ok_0.values@[k] == nearest_bf16(
                        shard_element(p, k)->Ok_0.value,
                    )
                }
        },
    }
}

/// Loads a shard of a matrix whose values have no scales, rounded to bfloat16.
fn load_dsv4_matrix_host_bf16(
    shards: &[SafeTensors<'_>],
    weight_map: &WeightMap,
    name: &str,
    shard: &MatrixShard,
) -> (r: Result<DenseMatrix, LoadError>)
    requires
        weight_map.wf(),
        map_names_shards(*weight_map, shards@),
        shard.wf(),
    ensures
        is_rounded_load(r, planned_shard(shards@, *weight_map, name@, *shard)),
{
    let host: HostValues = match load_dsv4_matrix_host(shards, weight_map, name, shard) {
        Ok(host) => host,
        Err(e) => {
            return Err(e);
        },
    };
    let mut values: Vec<u16> = Vec::new();
    let mut k: usize = 0;
    while k < host.values.len()
        invariant
            k <= host.values@.len(),
            values@.len() == k,
            forall|j: int|
                0 <= j < k ==> #[trigger] values@[j] == nearest_bf16(host.values@[j].value),
        decreases host.values@.len() - k,
    {
        values.push(round_to_bf16(host.values[k].value));
        k = k + 1;
    }
    proof {
        let p = planned_shard(shards@, *weight_map, name@, *shard)->Ok_0;
        assert forall|j: int| 0 <= j < shard_size(p) implies {
            &&& shard_element(p, j) is Ok
            &&& #[trigger] values@[j] == nearest_bf16(shard_element(p, j)->Ok_0.value)
        } by {
            assert(shard_element(p, j) == Ok::<ScaledValue, LoadError>(host.values@[j]));
        }
    }
    Ok(DenseMatrix { values, rows: host.rows, cols: host.cols })
}

/// Why the bytes of a quantized shard cannot be copied, if they cannot.
pub open spec fn block_scaled_error(p: ShardPlan) -> Option<LoadError> {
    let scale = p.scale->Some_0;
    if scale.0 != TensorDtype::F8E8M0 {
        Some(LoadError::ScaleDtype)
    } else {
        match scale_shard_error(
            scale,
            p.rows,
            p.cols,
            p.tensor.1[0],
            logical_cols(p.tensor) as usize,
        ) {
            Some(e) => Some(e),
            None => if p.tensor.0 == TensorDtype::I8 && !(p.cols.start % 2 == 0 && p.cols.end % 2
                == 0) {
                Some(LoadError::SplitByte)
            } else {
                None
            },
        }
    }
}

/// The bytes and scales of a quantized shard.
pub open spec fn is_block_scaled(m: BlockScaledMatrix, p: ShardPlan) -> bool {
    let t = p.tensor;
    let packing: int = if t.0 == TensorDtype::I8 {
        2
    } else {
        1
    };
    &&& m.format == (if t.0 == TensorDtype::I8 {
        BlockFormat::Fp4
    } else {
        BlockFormat::Fp8
    })
    &&& m.rows == p.rows.size()
    &&& m.cols == p.cols.size()
    &&& m.weight@ == submatrix(
        t.2,
        t.1[1] as nat,
        p.rows.start as int,
        p.rows.end as int,
        p.cols.start as int / packing,
        p.cols.end as int / packing,
    )
    &&& is_scale_shard(
        m.scales,
        p.scale->Some_0,
        p.rows,
        p.cols,
        t.1[0],
        logical_cols(t) as usize,
    )
}

/// A raw load of a shard: the bytes of a quantized matrix, the rounded values
/// of any other.
pub open spec fn is_raw_load(
    r: Result<HostMatrix, LoadError>,
    shards: Seq<SafeTensors<'_>>,
    map: WeightMap,
    name: Seq<char>,
    shard: MatrixShard,
) -> bool {
    let plan = planned_shard(shards, map, name, shard);
    match found_tensor(shards, map, name) {
        Err(e) => r == Err::<HostMatrix, LoadError>(e),
        Ok(t) => if t.1.len() != 2 {
            r == Err::<HostMatrix, LoadError>(LoadError::NotMatrix)
        } else if is_quantized(t.0) {
            match plan {
                Err(e) => r == Err::<HostMatrix, LoadError>(e),
                Ok(p) => match block_scaled_error(p) {
                    Some(e) => r == Err::<HostMatrix, LoadError>(e),
                    None => r matches Ok(HostMatrix::BlockScaled(m)) && is_block_scaled(m, p),
                },
            }
        } else if t.0 == TensorDtype::BF16 || t.0 == TensorDtype::F32 || t.0
            == TensorDtype::F8E8M0 {
            match r {
                Err(e) => is_rounded_load(Err(e), plan),
                Ok(m) => m matches HostMatrix::Dense(dense) && is_rounded_load(Ok(dense), plan),
            }
        } else {
            r == Err::<HostMatrix, LoadError>(LoadError::UnsupportedDtype)
        },
    }
}

#[verifier::spinoff_prover]
fn load_dsv4_block_scaled_matrix_raw(located: &LocatedShard<'_>) -> (r: Result<
    BlockScaledMatrix,
    LoadError,
>)
    requires
        filled(located.tensor.contents()),
        is_quantized(located.tensor.dtype),
        located.scale matches Some(s) && filled(s.contents()),
        located.tensor.shape@.len() == 2,
        located.rows.start <= located.rows.end <= located.tensor.shape@[0],
        located.cols.start <= located.cols.end <= logical_cols(located.tensor.contents())
            <= usize::MAX,
    ensures
        match r {
            Err(e) => block_scaled_error(located_plan(*located)) == Some(e),
            Ok(m) => block_scaled_error(located_plan(*located)) is None && is_block_scaled(
                m,
                located_plan(*located),
            ),
        },
{
    let tensor = &located.tensor;
    let total_rows: usize = tensor.shape[0];
    let physical_cols: usize = tensor.shape[1];
    proof {
        lemma_byte_matrix(tensor.contents());
    }
    let packed: bool = tensor.dtype == TensorDtype::I8;
    let total_cols: usize = if packed {
        2 * physical_cols
    } else {
        physical_cols
    };
    let rows: usize = located.rows.end - located.rows.start;
    let cols: usize = located.cols.end - located.cols.start;
    let data_len: usize = tensor.data.len();
    let scale = match &located.scale {
        Some(s) => s,
        None => {
            return Err(LoadError::MissingScale);
        },
    };
    proof {
        let p = located_plan(*located);
        assert(p.scale == Some(scale.contents()));
        assert(p.tensor == tensor.contents());
        assert(total_rows == p.tensor.1[0] && total_cols == logical_cols(p.tensor) as usize);
    }
    if scale.dtype != TensorDtype::F8E8M0 {
        return Err(LoadError::ScaleDtype);
    }
    let scales: ScaleShard = match copy_scale_shard(
        scale,
        &located.rows,
        &located.cols,
        total_rows,
        total_cols,
    ) {
        Ok(s) => s,
        Err(e) => {
            return Err(e);
        },
    };
    if packed {
        match copy_fp4_matrix_shard(
            tensor.data,
            total_rows,
            physical_cols,
            &located.rows,
            &located.cols,
        ) {
            Ok(weight) => Ok(
                BlockScaledMatrix { format: BlockFormat::Fp4, weight, scales, rows, cols },
            ),
            Err(e) => {
                proof {
                    assert(block_scaled_error(located_plan(*located)) == Some(e));
                }
                Err(e)
            },
        }
    } else {
        match copy_fp8_matrix_shard(
            tensor.data,
            total_rows,
            physical_cols,
            &located.rows,
            &located.cols,
        ) {
            Ok(weight) => Ok(
                BlockScaledMatrix { format: BlockFormat::Fp8, weight, scales, rows, cols },
            ),
            Err(e) => {
                proof {
                    assert(block_scaled_error(located_plan(*located)) == Some(e));
                }
                Err(e)
            },
        }
    }
}

/// Loads a shard of a matrix for the device: a quantized matrix keeps its
/// bytes and scales, any other is rounded to bfloat16.
pub fn load_dsv4_matrix_raw_sharded(
    shards: &[SafeTensors<'_>],
    weight_map: &WeightMap,
    name: &str,
    tp: Option<&TpLoadContext>,
) -> (r: Result<HostMatrix, LoadError>)
    requires
        weight_map.wf(),
        map_names_shards(*weight_map, shards@),
        tp matches Some(t) ==> t.range.wf(),
    ensures
        is_raw_load(r, shards@, *weight_map, name@, tp_shard(tp)),
{
    let shard: MatrixShard = MatrixShard::from_tp(tp);
    let tensor = match find_tensor(shards, weight_map, name) {
        Ok(t) => t,
        Err(e) => {
            return Err(e);
        },
    };
    if tensor.shape.len() != 2 {
        return Err(LoadError::NotMatrix);
    }
    match tensor.dtype {
        TensorDtype::F8E4M3 | TensorDtype::I8 => {
            match locate_shard(shards, weight_map, name, &shard) {
                Ok(located) => match load_dsv4_block_scaled_matrix_raw(&located) {
                    Ok(m) => Ok(HostMatrix::BlockScaled(m)),
                    Err(e) => Err(e),
                },
                Err(e) => Err(e),
            }
        },
        TensorDtype::BF16 | TensorDtype::F32 | TensorDtype::F8E8M0 => {
            match load_dsv4_matrix_host_bf16(shards, weight_map, name, &shard) {
                Ok(dense) => Ok(HostMatrix::Dense(dense)),
                Err(e) => Err(e),
            }
        },
        _ => Err(LoadError::UnsupportedDtype),
    }
}

/// Loads a whole matrix for the device.
pub fn load_dsv4_matrix_raw(
    shards: &[SafeTensors<'_>],
    weight_map: &WeightMap,
    name: &str,
) -> (r: Result<HostMatrix, LoadError>)
    requires
        weight_map.wf(),
        map_names_shards(*weight_map, shards@),
    ensures
        is_raw_load(r, shards@, *weight_map, name@, tp_shard(None)),
{
    load_dsv4_matrix_raw_sharded(shards, weight_map, name, None)
}

/// The rounded values of a one-dimensional tensor, or why they cannot be read.
pub open spec fn is_vector_load(
    r: Result<Vec<u16>, LoadError>,
    found: Result<TensorContents, LoadError>,
) -> bool {
    match found {
        Err(e) => r == Err::<Vec<u16>, LoadError>(e),
        Ok(t) => if t.1.len() != 1 {
            r == Err::<Vec<u16>, LoadError>(LoadError::NotVector)
        } else if t.1[0] > 0 && !is_number(t.0) {
            r == Err::<Vec<u16>, LoadError>(LoadError::UnsupportedDtype)
        } else {
            &&& r is Ok
            &&& r->Ok_0@.len() == t.1[0]
            &&& forall|i: int|
                0 <= i < t.1[0] ==> {
                    &&& scalar(t.0, t.2, i) is Ok
                    &&& #[trigger] r->Ok_0@[i] == nearest_bf16(scalar(t.0, t.2, i)->Ok_0)
                }
        },
    }
}

/// Loads a vector, rounded to bfloat16: the bits of each value.
pub fn load_dsv4_vec_bf16(
    shards: &[SafeTensors<'_>],
    weight_map: &WeightMap,
    name: &str,
) -> (r: Result<Vec<u16>, LoadError>)
    requires
        weight_map.wf(),
        map_names_shards(*weight_map, shards@),
    ensures
        is_vector_load(r, found_tensor(shards@, *weight_map, name@)),
{
    let tensor = match find_tensor(shards, weight_map, name) {
        Ok(t) => t,
        Err(e) => {
            return Err(e);
        },
    };
    if tensor.shape.len() != 1 {
        return Err(LoadError::NotVector);
    }
    let n: usize = tensor.shape[0];
    let ghost t = tensor.contents();
    let mut out: Vec<u16> = Vec::new();
    let mut i: usize = 0;
    proof {
        assert(leading_elements(t.1, 0) == 1);
        assert(leading_elements(t.1, 1) == 1 * t.1[0] as nat);
    }
    while i < n
        invariant
            i <= n,
            t == tensor.contents(),
            found_tensor(shards@, *weight_map, name@) == Ok::<TensorContents, LoadError>(t),
            filled(t),
            t.1.len() == 1,
            t.1[0] == n,
            element_count(t.1) == n,
            i > 0 ==> is_number(t.0),
            out@.len() == i,
            forall|k: int|
                0 <= k < i ==> {
                    &&& scalar(t.0, t.2, k) is Ok
                    &&& #[trigger] out@[k] == nearest_bf16(scalar(t.0, t.2, k)->Ok_0)
                },
        decreases n - i,
    {
        proof {
            if is_number(t.0) {
                crate::model::deepseek::quant::law_elements_are_readable(t, i as int);
            }
        }
        match scalar_value(tensor.dtype, tensor.data, i) {
            Ok(bits) => {
                out.push(round_to_bf16(bits));
            },
            Err(e) => {
                return Err(e);
            },
        }
        i = i + 1;
    }
    proof {
        assert forall|k: int| 0 <= k < t.1[0] implies (#[trigger] scalar(t.0, t.2, k)) is Ok by {
            crate::model::deepseek::quant::law_elements_are_readable(t, k);
        }
    }
    Ok(out)
}

/// Rows of a found matrix.
pub open spec fn rows_of(found: Result<TensorContents, LoadError>) -> Result<usize, LoadError> {
    match found {
        Err(e) => Err(e),
        Ok(t) => if t.1.len() != 2 {
            Err(LoadError::NotMatrix)
        } else {
            Ok(t.1[0])
        },
    }
}

/// Values per row of a found matrix.
pub open spec fn cols_of(found: Result<TensorContents, LoadError>) -> Result<usize, LoadError> {
    match found {
        Err(e) => Err(e),
        Ok(t) => if t.1.len() != 2 {
            Err(LoadError::NotMatrix)
        } else if logical_cols(t) > usize::MAX {
            Err(LoadError::TooWide)
        } else {
            Ok(logical_cols(t) as usize)
        },
    }
}

/// Rows of a listed matrix.
pub fn matrix_rows(shards: &[SafeTensors<'_>], weight_map: &WeightMap, name: &str) -> (r: Result<
    usize,
    LoadError,
>)
    requires
        weight_map.wf(),
    ensures
        r == rows_of(listed_tensor(shards@, *weight_map, name@)),
{
    match deepseek_find_tensor(shards, weight_map, name) {
        Err(e) => Err(e),
        Ok(tensor) => {
            if tensor.shape.len() != 2 {
                return Err(LoadError::NotMatrix);
            }
            Ok(tensor.shape[0])
        },
    }
}

/// Values per row of a listed matrix.
pub fn matrix_logical_cols(
    shards: &[SafeTensors<'_>],
    weight_map: &WeightMap,
    name: &str,
) -> (r: Result<usize, LoadError>)
    requires
        weight_map.wf(),
    ensures
        r == cols_of(listed_tensor(shards@, *weight_map, name@)),
{
    match deepseek_find_tensor(shards, weight_map, name) {
        Err(e) => Err(e),
        Ok(tensor) => {
            if tensor.shape.len() != 2 {
                return Err(LoadError::NotMatrix);
            }
            let physical: usize = tensor.shape[1];
            if tensor.dtype == TensorDtype::I8 {
                match physical.checked_mul(2) {
                    Some(n) => Ok(n),
                    None => Err(LoadError::TooWide),
                }
            } else {
                Ok(physical)
            }
        },
    }
}

/// The signed number that eight bytes hold.
pub open spec fn signed_value(data: Seq<u8>, at: int) -> int {
    let bits = little_endian(data, at, 8);
    if bits < 0x8000_0000_0000_0000 {
        bits as int
    } else {
        bits - 0x1_0000_0000_0000_0000
    }
}

pub(crate) fn read_signed(data: &[u8], at: usize) -> (value: i64)
    requires
        at + 8 <= data@.len(),
    ensures
        value == signed_value(data@, at as int),
{
    proof {
        reveal_with_fuel(little_endian, 9);
    }
    let total: usize = data.len();
    let low: u64 = data[at] as u64 + 256 * (data[at + 1] as u64 + 256 * (data[at + 2] as u64 + 256
        * (data[at + 3] as u64)));
    let high: u64 = data[at + 4] as u64 + 256 * (data[at + 5] as u64 + 256 * (data[at + 6] as u64
        + 256 * (data[at + 7] as u64)));
    let bits: u64 = low + 0x1_0000_0000 * high;
    if bits < 0x8000_0000_0000_0000 {
        bits as i64
    } else {
        -((u64::MAX - bits) as i64) - 1
    }
}

/// The integers of a tensor, or why they cannot be read.
pub open spec fn is_integer_load(
    r: Result<Vec<i64>, LoadError>,
    found: Result<TensorContents, LoadError>,
) -> bool {
    match found {
        Err(e) => r == Err::<Vec<i64>, LoadError>(e),
        Ok(t) => if t.0 != TensorDtype::I64 {
            r == Err::<Vec<i64>, LoadError>(LoadError::UnsupportedDtype)
        } else if t.2.len() % 8 != 0 {
            r == Err::<Vec<i64>, LoadError>(LoadError::DataLength)
        } else {
            &&& r is Ok
            &&& r->Ok_0@.len() == t.2.len() / 8
            &&& forall|i: int|
                0 <= i < t.2.len() / 8 ==> #[trigger] r->Ok_0@[i] == signed_value(t.2, 8 * i)
        },
    }
}

/// Loads the integers of a listed tensor, such as a table of expert ids.
pub fn load_i64_tensor(
    shards: &[SafeTensors<'_>],
    weight_map: &WeightMap,
    name: &str,
) -> (r: Result<Vec<i64>, LoadError>)
    requires
        weight_map.wf(),
    ensures
        is_integer_load(r, listed_tensor(shards@, *weight_map, name@)),
{
    let tensor = match deepseek_find_tensor(shards, weight_map, name) {
        Ok(t) => t,
        Err(e) => {
            return Err(e);
        },
    };
    if tensor.dtype != TensorDtype::I64 {
        return Err(LoadError::UnsupportedDtype);
    }
    let total: usize = tensor.data.len();
    if total % 8 != 0 {
        return Err(LoadError::DataLength);
    }
    let mut out: Vec<i64> = Vec::new();
    let mut i: usize = 0;
    while i < total / 8
        invariant
            i <= total / 8,
            total == tensor.data@.len(),
            out@.len() == i,
            forall|k: int| 0 <= k < i ==> #[trigger] out@[k] == signed_value(tensor.data@, 8 * k),
        decreases total - i,
    {
        out.push(read_signed(tensor.data, 8 * i));
        i = i + 1;
    }
    Ok(out)
}

} // verus!
