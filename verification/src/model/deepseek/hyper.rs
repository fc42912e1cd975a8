//! Hyper-connections: the stream of `hc_mult` lanes that runs beside the
//! layers, and how a layer reads from it and writes to it.

use vstd::prelude::*;

use crate::model::deepseek::device::phase_of;
use crate::model::deepseek::device::{
    dispatch_phase, HiddenShape, LinearDispatchPhase, MatrixShape,
};
use crate::model::deepseek::scratch::DeepseekMhcRuntimeScratch;

verus! {

/// Why a hyper-connection cannot be used.
#[derive(Clone, Copy, Debug, PartialEq, Eq, Structural)]
pub enum HcError {
    /// The embeddings have not the width of the hidden states.
    EmbeddingDim,
    /// There are no lanes.
    ZeroMult,
    /// The first stream has the wrong shape.
    InitialShape,
    /// The mixing matrix does not fit the stream.
    MixShape,
    /// Bases or scales are too short.
    BaseScale,
    /// The kept buffers do not fit.
    Scratch,
    /// The stream that a layer reads has the wrong width.
    PreStream,
    /// The read weights are too short.
    PreWeights,
    /// The states that a layer reads have the wrong shape.
    PreShape,
    /// The states that a layer writes, or the stream, have the wrong width.
    PostDim,
    /// The states that a layer writes are not as many as the stream's.
    PostRows,
    /// The write weights are too short.
    PostWeights,
    /// The stream after the layer has the wrong shape.
    PostShape,
    /// The head reads a token that there is not.
    HeadToken,
    /// The stream that the head reads has the wrong width.
    HeadStream,
    /// The head's mixing matrix does not fit the stream.
    HeadMix,
    /// The head's bases or scales are too short.
    HeadBaseScale,
}

/// Weights of a hyper-connection; vectors are given by their length.
#[derive(Clone, Copy, Debug, PartialEq, Eq, Structural)]
pub struct DeepseekV4HyperConnection {
    pub base: usize,
    pub mix_fn: MatrixShape,
    pub scale: usize,
}

/// Weights that a token needs: one to read and one to write each lane, and one
/// per pair of lanes.
pub open spec fn mix_dim(hc_mult: usize) -> nat {
    ((2 + hc_mult) * hc_mult) as nat
}

/// Arguments of the kernel that generates the parameters.
#[derive(Clone, Copy, Debug, PartialEq, Eq, Structural)]
pub struct MhcArgs {
    pub seq_len: i32,
    pub stream_dim: i32,
    pub mix_dim: i32,
    pub hc_mult: i32,
    pub sinkhorn_iters: i32,
}

/// Parameters in new buffers; the last three are numbers of elements.
#[derive(Clone, Copy, Debug, PartialEq, Eq, Structural)]
pub struct MhcParams {
    pub mixes: HiddenShape,
    pub pre: usize,
    pub post: usize,
    pub comb: usize,
    pub args: MhcArgs,
}

/// The mixing matrix does not give the weights that tokens need.
pub open spec fn mix_fault(
    hc: DeepseekV4HyperConnection,
    stream: HiddenShape,
    hc_mult: usize,
) -> Option<HcError> {
    if hc_mult == 0 {
        Some(HcError::ZeroMult)
    } else if hc.mix_fn.cols != stream.hidden_dim || hc.mix_fn.rows < mix_dim(hc_mult) {
        Some(HcError::MixShape)
    } else {
        None
    }
}

/// Why parameters cannot be generated, if they cannot.
pub open spec fn mhc_fault(
    hc: DeepseekV4HyperConnection,
    stream: HiddenShape,
    hc_mult: usize,
) -> Option<HcError> {
    match mix_fault(hc, stream, hc_mult) {
        Some(e) => Some(e),
        None => if hc.base < mix_dim(hc_mult) || hc.scale < 3 {
            Some(HcError::BaseScale)
        } else {
            None
        },
    }
}

/// The arguments over a stream.
pub open spec fn mhc_args(
    stream: HiddenShape,
    mixed: usize,
    hc_mult: usize,
    iters: usize,
) -> MhcArgs {
    MhcArgs {
        seq_len: stream.seq_len as i32,
        stream_dim: stream.hidden_dim as i32,
        mix_dim: mixed as i32,
        hc_mult: hc_mult as i32,
        sinkhorn_iters: iters as i32,
    }
}

/// The parameters of a stream in new buffers.
pub open spec fn mhc_params(
    hc: DeepseekV4HyperConnection,
    stream: HiddenShape,
    hc_mult: usize,
    iters: usize,
) -> Result<MhcParams, HcError> {
    match mhc_fault(hc, stream, hc_mult) {
        Some(e) => Err(e),
        None => Ok(
            MhcParams {
                mixes: HiddenShape { hidden_dim: hc.mix_fn.rows, seq_len: stream.seq_len },
                pre: (stream.seq_len * hc_mult) as usize,
                post: (stream.seq_len * hc_mult) as usize,
                comb: (stream.seq_len * hc_mult * hc_mult) as usize,
                args: mhc_args(stream, hc.mix_fn.rows, hc_mult, iters),
            },
        ),
    }
}

fn check_mix(hc: &DeepseekV4HyperConnection, stream: HiddenShape, hc_mult: usize) -> (fault: Option<
    HcError,
>)
    requires
        mix_dim(hc_mult) <= usize::MAX,
        hc_mult <= usize::MAX - 2,
    ensures
        fault == mix_fault(*hc, stream, hc_mult),
{
    if hc_mult == 0 {
        return Some(HcError::ZeroMult);
    }
    let needed: usize = (2 + hc_mult) * hc_mult;
    if hc.mix_fn.cols != stream.hidden_dim || hc.mix_fn.rows < needed {
        return Some(HcError::MixShape);
    }
    None
}

/// Plans the parameters of a stream, in new buffers.
pub fn gen_mhc_params(
    hc: &DeepseekV4HyperConnection,
    stream: HiddenShape,
    hc_mult: usize,
    iters: usize,
) -> (r: Result<MhcParams, HcError>)
    requires
        mix_dim(hc_mult) <= usize::MAX,
        hc_mult <= usize::MAX - 2,
        mhc_fault(*hc, stream, hc_mult) is None ==> stream.seq_len * hc_mult * hc_mult
            <= usize::MAX,
    ensures
        r == mhc_params(*hc, stream, hc_mult, iters),
{
    if let Some(e) = check_mix(hc, stream, hc_mult) {
        return Err(e);
    }
    let needed: usize = (2 + hc_mult) * hc_mult;
    if hc.base < needed || hc.scale < 3 {
        return Err(HcError::BaseScale);
    }
    proof {
        assert(stream.seq_len * hc_mult <= stream.seq_len * hc_mult * hc_mult) by (nonlinear_arith)
            requires
                hc_mult > 0,
        ;
        assert(0 <= stream.seq_len * hc_mult) by (nonlinear_arith);
    }
    let per_lane: usize = stream.seq_len * hc_mult;
    Ok(
        MhcParams {
            mixes: HiddenShape { hidden_dim: hc.mix_fn.rows, seq_len: stream.seq_len },
            pre: per_lane,
            post: per_lane,
            comb: per_lane * hc_mult,
            args: MhcArgs {
                seq_len: stream.seq_len as i32,
                stream_dim: stream.hidden_dim as i32,
                mix_dim: hc.mix_fn.rows as i32,
                hc_mult: hc_mult as i32,
                sinkhorn_iters: iters as i32,
            },
        },
    )
}

/// Parameters in kept buffers.
#[derive(Clone, Copy, Debug, PartialEq, Eq, Structural)]
pub struct MhcCached {
    pub phase: LinearDispatchPhase,
    pub args: MhcArgs,
}

/// The kept buffers hold the parameters of the stream.
pub open spec fn scratch_serves(
    s: DeepseekMhcRuntimeScratch,
    hc: DeepseekV4HyperConnection,
    stream: HiddenShape,
    hc_mult: usize,
) -> bool {
    &&& s.capacity_tokens >= stream.seq_len
    &&& s.stream_hidden_dim == stream.hidden_dim
    &&& s.mix_dim == hc.mix_fn.rows
    &&& s.hc_mult == hc_mult
}

/// The parameters of a stream in kept buffers.
pub open spec fn mhc_cached(
    hc: DeepseekV4HyperConnection,
    stream: HiddenShape,
    hc_mult: usize,
    iters: usize,
    s: DeepseekMhcRuntimeScratch,
) -> Result<MhcCached, HcError> {
    match mix_fault(hc, stream, hc_mult) {
        Some(e) => Err(e),
        None => if !scratch_serves(s, hc, stream, hc_mult) {
            Err(HcError::Scratch)
        } else {
            Ok(
                MhcCached {
                    phase: phase_of(stream.seq_len),
                    args: mhc_args(stream, s.mixes.hidden_dim, hc_mult, iters),
                },
            )
        },
    }
}

/// The kept buffers with `rows` rows of mixes in use.
pub open spec fn mixes_in_use(
    s: DeepseekMhcRuntimeScratch,
    rows: usize,
) -> DeepseekMhcRuntimeScratch {
    DeepseekMhcRuntimeScratch { mixes: HiddenShape { seq_len: rows, ..s.mixes }, ..s }
}

/// Plans the parameters of a stream, in kept buffers. On an error the buffers
/// stay as they are.
pub fn gen_mhc_params_cached(
    hc: &DeepseekV4HyperConnection,
    stream: HiddenShape,
    hc_mult: usize,
    iters: usize,
    scratch: &mut DeepseekMhcRuntimeScratch,
) -> (r: Result<MhcCached, HcError>)
    requires
        mix_dim(hc_mult) <= usize::MAX,
        hc_mult <= usize::MAX - 2,
    ensures
        r == mhc_cached(*hc, stream, hc_mult, iters, *old(scratch)),
        *final(scratch) == (if r is Ok {
            mixes_in_use(*old(scratch), stream.seq_len)
        } else {
            *old(scratch)
        }),
{
    if let Some(e) = check_mix(hc, stream, hc_mult) {
        return Err(e);
    }
    if !(scratch.capacity_tokens >= stream.seq_len && scratch.stream_hidden_dim
        == stream.hidden_dim && scratch.mix_dim == hc.mix_fn.rows && scratch.hc_mult == hc_mult) {
        return Err(HcError::Scratch);
    }
    scratch.mixes.seq_len = stream.seq_len;
    Ok(
        MhcCached {
            phase: dispatch_phase(stream.seq_len),
            args: MhcArgs {
                seq_len: stream.seq_len as i32,
                stream_dim: stream.hidden_dim as i32,
                mix_dim: scratch.mixes.hidden_dim as i32,
                hc_mult: hc_mult as i32,
                sinkhorn_iters: iters as i32,
            },
        },
    )
}

/// Arguments of the kernels that read and write lanes.
#[derive(Clone, Copy, Debug, PartialEq, Eq, Structural)]
pub struct LaneArgs {
    pub seq_len: i32,
    pub hidden_size: i32,
    pub hc_mult: i32,
}

/// The arguments for `seq_len` rows.
pub open spec fn lane_args(seq_len: usize, hidden_size: usize, hc_mult: usize) -> LaneArgs {
    LaneArgs {
        seq_len: seq_len as i32,
        hidden_size: hidden_size as i32,
        hc_mult: hc_mult as i32,
    }
}

fn make_lane_args(seq_len: usize, hidden_size: usize, hc_mult: usize) -> (args: LaneArgs)
    ensures
        args == lane_args(seq_len, hidden_size, hc_mult),
{
    LaneArgs {
        seq_len: seq_len as i32,
        hidden_size: hidden_size as i32,
        hc_mult: hc_mult as i32,
    }
}

/// Why the first stream cannot be made of embeddings, if it cannot.
pub open spec fn initial_fault(
    embeddings: HiddenShape,
    hidden_size: usize,
    hc_mult: usize,
    stream: HiddenShape,
) -> Option<HcError> {
    if embeddings.hidden_dim != hidden_size {
        Some(HcError::EmbeddingDim)
    } else if hc_mult == 0 {
        Some(HcError::ZeroMult)
    } else if stream.hidden_dim != hidden_size * hc_mult || stream.seq_len != embeddings.seq_len {
        Some(HcError::InitialShape)
    } else {
        None
    }
}

/// The first stream of embeddings, or why there is none.
pub open spec fn initial_lanes(
    embeddings: HiddenShape,
    hidden_size: usize,
    hc_mult: usize,
    stream: HiddenShape,
) -> Result<LaneArgs, HcError> {
    match initial_fault(embeddings, hidden_size, hc_mult, stream) {
        Some(e) => Err(e),
        None => Ok(lane_args(embeddings.seq_len, hidden_size, hc_mult)),
    }
}

/// Plans the first stream: every lane starts as the embeddings.
pub fn initial_hc_stream_from_embeddings_into(
    embeddings: HiddenShape,
    hidden_size: usize,
    hc_mult: usize,
    stream: HiddenShape,
) -> (r: Result<LaneArgs, HcError>)
    requires
        embeddings.hidden_dim == hidden_size ==> hidden_size * hc_mult <= usize::MAX,
    ensures
        r == initial_lanes(embeddings, hidden_size, hc_mult, stream),
{
    if embeddings.hidden_dim != hidden_size {
        return Err(HcError::EmbeddingDim);
    }
    if hc_mult == 0 {
        return Err(HcError::ZeroMult);
    }
    if stream.hidden_dim != hidden_size * hc_mult || stream.seq_len != embeddings.seq_len {
        return Err(HcError::InitialShape);
    }
    Ok(make_lane_args(embeddings.seq_len, hidden_size, hc_mult))
}

/// Why a layer cannot read from the stream, if it cannot.
pub open spec fn pre_fault(
    stream: HiddenShape,
    pre: usize,
    hidden_size: usize,
    hc_mult: usize,
    out: HiddenShape,
) -> Option<HcError> {
    if stream.hidden_dim != hidden_size * hc_mult {
        Some(HcError::PreStream)
    } else if pre < stream.seq_len * hc_mult {
        Some(HcError::PreWeights)
    } else if out.hidden_dim != hidden_size || out.seq_len != stream.seq_len {
        Some(HcError::PreShape)
    } else {
        None
    }
}

/// What a layer reads from the stream, or why it cannot.
pub open spec fn read_lanes(
    stream: HiddenShape,
    pre: usize,
    hidden_size: usize,
    hc_mult: usize,
    out: HiddenShape,
) -> Result<LaneArgs, HcError> {
    match pre_fault(stream, pre, hidden_size, hc_mult, out) {
        Some(e) => Err(e),
        None => Ok(lane_args(stream.seq_len, hidden_size, hc_mult)),
    }
}

/// Plans what a layer reads from the stream: a weighted sum of the lanes.
pub fn hc_pre_from_stream_into(
    stream: HiddenShape,
    pre: usize,
    hidden_size: usize,
    hc_mult: usize,
    out: HiddenShape,
) -> (r: Result<LaneArgs, HcError>)
    requires
        hidden_size * hc_mult <= usize::MAX,
        stream.hidden_dim == hidden_size * hc_mult ==> stream.seq_len * hc_mult <= usize::MAX,
    ensures
        r == read_lanes(stream, pre, hidden_size, hc_mult, out),
{
    if stream.hidden_dim != hidden_size * hc_mult {
        return Err(HcError::PreStream);
    }
    if pre < stream.seq_len * hc_mult {
        return Err(HcError::PreWeights);
    }
    if out.hidden_dim != hidden_size || out.seq_len != stream.seq_len {
        return Err(HcError::PreShape);
    }
    Ok(make_lane_args(stream.seq_len, hidden_size, hc_mult))
}

/// Why a layer cannot write to the stream, if it cannot.
pub open spec fn post_fault(
    new_x: HiddenShape,
    residual: HiddenShape,
    weights: (usize, usize),
    hidden_size: usize,
    hc_mult: usize,
    out: HiddenShape,
) -> Option<HcError> {
    if new_x.hidden_dim != hidden_size || residual.hidden_dim != hidden_size * hc_mult {
        Some(HcError::PostDim)
    } else if new_x.seq_len != residual.seq_len {
        Some(HcError::PostRows)
    } else if weights.0 < residual.seq_len * hc_mult || weights.1 < residual.seq_len * hc_mult
        * hc_mult {
        Some(HcError::PostWeights)
    } else if out.hidden_dim != hidden_size * hc_mult || out.seq_len != residual.seq_len {
        Some(HcError::PostShape)
    } else {
        None
    }
}

/// What a layer writes to the stream, or why it cannot.
pub open spec fn written_lanes(
    new_x: HiddenShape,
    residual: HiddenShape,
    weights: (usize, usize),
    hidden_size: usize,
    hc_mult: usize,
    out: HiddenShape,
) -> Result<LaneArgs, HcError> {
    match post_fault(new_x, residual, weights, hidden_size, hc_mult, out) {
        Some(e) => Err(e),
        None => Ok(lane_args(residual.seq_len, hidden_size, hc_mult)),
    }
}

/// Plans what a layer writes to the stream. `weights` are the lengths of the
/// write weights and of the weights between lanes.
pub fn hc_post_to_stream_into(
    new_x: HiddenShape,
    residual: HiddenShape,
    weights: (usize, usize),
    hidden_size: usize,
    hc_mult: usize,
    out: HiddenShape,
) -> (r: Result<LaneArgs, HcError>)
    requires
        hidden_size * hc_mult <= usize::MAX,
        residual.seq_len * hc_mult <= usize::MAX,
        residual.seq_len * hc_mult * hc_mult <= usize::MAX,
    ensures
        r == written_lanes(new_x, residual, weights, hidden_size, hc_mult, out),
{
    if new_x.hidden_dim != hidden_size || residual.hidden_dim != hidden_size * hc_mult {
        return Err(HcError::PostDim);
    }
    if new_x.seq_len != residual.seq_len {
        return Err(HcError::PostRows);
    }
    proof {
        assert(0 <= residual.seq_len * hc_mult) by (nonlinear_arith);
    }
    let per_lane: usize = residual.seq_len * hc_mult;
    if weights.0 < per_lane || weights.1 < per_lane * hc_mult {
        return Err(HcError::PostWeights);
    }
    if out.hidden_dim != hidden_size * hc_mult || out.seq_len != residual.seq_len {
        return Err(HcError::PostShape);
    }
    Ok(make_lane_args(residual.seq_len, hidden_size, hc_mult))
}

/// A layer that reads a stream with parameters generated for it, and writes
/// states of the same shape back, is never refused.
pub proof fn law_generated_parameters_serve(
    hc: DeepseekV4HyperConnection,
    stream: HiddenShape,
    hidden_size: usize,
    hc_mult: usize,
    iters: usize,
)
    requires
        stream.hidden_dim == hidden_size * hc_mult,
        stream.seq_len * hc_mult * hc_mult <= usize::MAX,
        mhc_params(hc, stream, hc_mult, iters) is Ok,
    ensures
        ({
            let params = mhc_params(hc, stream, hc_mult, iters)->Ok_0;
            let states = HiddenShape { hidden_dim: hidden_size, seq_len: stream.seq_len };
            &&& pre_fault(stream, params.pre, hidden_size, hc_mult, states) is None
            &&& post_fault(
                states,
                stream,
                (params.post, params.comb),
                hidden_size,
                hc_mult,
                stream,
            ) is None
        }),
{
    assert(0 <= stream.seq_len * hc_mult <= stream.seq_len * hc_mult * hc_mult) by (nonlinear_arith)
        requires
            hc_mult > 0,
    ;
}

/// What the head reads: the row of one token, and the kernel's arguments.
#[derive(Clone, Copy, Debug, PartialEq, Eq, Structural)]
pub struct HeadPlan {
    /// Elements of the stream that hold the token's row.
    pub row_start: usize,
    pub row_end: usize,
    pub mixes: HiddenShape,
    pub out: HiddenShape,
    pub stream_dim: i32,
    pub hidden_size: i32,
    pub hc_mult: i32,
}

/// Why the head cannot read a token, if it cannot.
pub open spec fn head_fault(
    hc: DeepseekV4HyperConnection,
    stream: HiddenShape,
    token_idx: usize,
    hidden_size: usize,
    hc_mult: usize,
) -> Option<HcError> {
    if token_idx >= stream.seq_len {
        Some(HcError::HeadToken)
    } else if stream.hidden_dim != hidden_size * hc_mult {
        Some(HcError::HeadStream)
    } else if hc.mix_fn.cols != stream.hidden_dim || hc.mix_fn.rows < hc_mult {
        Some(HcError::HeadMix)
    } else if hc.base < hc_mult || hc.scale < 1 {
        Some(HcError::HeadBaseScale)
    } else {
        None
    }
}

/// The states of one token, or why the head cannot read it.
pub open spec fn head_plan(
    hc: DeepseekV4HyperConnection,
    stream: HiddenShape,
    token_idx: usize,
    hidden_size: usize,
    hc_mult: usize,
) -> Result<HeadPlan, HcError> {
    match head_fault(hc, stream, token_idx, hidden_size, hc_mult) {
        Some(e) => Err(e),
        None => Ok(
            HeadPlan {
                row_start: (token_idx * stream.hidden_dim) as usize,
                row_end: (token_idx * stream.hidden_dim + stream.hidden_dim) as usize,
                mixes: HiddenShape { hidden_dim: hc.mix_fn.rows, seq_len: 1 },
                out: HiddenShape { hidden_dim: hidden_size, seq_len: 1 },
                stream_dim: stream.hidden_dim as i32,
                hidden_size: hidden_size as i32,
                hc_mult: hc_mult as i32,
            },
        ),
    }
}

/// Plans the states of one token from the stream.
pub fn head_hidden_from_stream(
    hc: &DeepseekV4HyperConnection,
    stream: HiddenShape,
    token_idx: usize,
    hidden_size: usize,
    hc_mult: usize,
) -> (r: Result<HeadPlan, HcError>)
    requires
        token_idx < stream.seq_len ==> hidden_size * hc_mult <= usize::MAX,
        stream.seq_len * stream.hidden_dim <= usize::MAX,
    ensures
        r == head_plan(*hc, stream, token_idx, hidden_size, hc_mult),
        r matches Ok(p) ==> p.row_end <= stream.seq_len * stream.hidden_dim,
{
    if token_idx >= stream.seq_len {
        return Err(HcError::HeadToken);
    }
    if stream.hidden_dim != hidden_size * hc_mult {
        return Err(HcError::HeadStream);
    }
    if hc.mix_fn.cols != stream.hidden_dim || hc.mix_fn.rows < hc_mult {
        return Err(HcError::HeadMix);
    }
    if hc.base < hc_mult || hc.scale < 1 {
        return Err(HcError::HeadBaseScale);
    }
    proof {
        let t = token_idx as int;
        let d = stream.hidden_dim as int;
        let n = stream.seq_len as int;
        assert(0 <= t * d && t * d + d <= n * d) by (nonlinear_arith)
            requires
                0 <= t < n,
                0 <= d,
        ;
    }
    let row_start: usize = token_idx * stream.hidden_dim;
    Ok(
        HeadPlan {
            row_start,
            row_end: row_start + stream.hidden_dim,
            mixes: HiddenShape { hidden_dim: hc.mix_fn.rows, seq_len: 1 },
            out: HiddenShape { hidden_dim: hidden_size, seq_len: 1 },
            stream_dim: stream.hidden_dim as i32,
            hidden_size: hidden_size as i32,
            hc_mult: hc_mult as i32,
        },
    )
}

/// Parameters are generated for every row of the stream, each from the whole width
/// of the stream and by every row of the mixing matrix, with as many iterations as
/// asked for. Where they are kept makes no difference: the kernel is told the same
/// whether the buffers are new or kept.
pub proof fn law_kept_and_new_parameters_agree(
    hc: DeepseekV4HyperConnection,
    stream: HiddenShape,
    hc_mult: usize,
    iters: usize,
    s: DeepseekMhcRuntimeScratch,
)
    requires
        s.mixes.hidden_dim == s.mix_dim,
        mhc_cached(hc, stream, hc_mult, iters, s) is Ok,
        stream.seq_len <= i32::MAX && stream.hidden_dim <= i32::MAX && iters <= i32::MAX,
        hc.mix_fn.rows <= i32::MAX,
    ensures
        ({
            let kept = mhc_cached(hc, stream, hc_mult, iters, s)->Ok_0;
            let fresh = mhc_params(hc, stream, hc_mult, iters);
            &&& kept.args.seq_len == stream.seq_len
            &&& kept.args.stream_dim == stream.hidden_dim == hc.mix_fn.cols
            &&& kept.args.mix_dim == hc.mix_fn.rows
            &&& kept.args.hc_mult == hc_mult
            &&& kept.args.sinkhorn_iters == iters
            &&& (2 + hc_mult) * hc_mult <= kept.args.mix_dim
            &&& kept.phase == if stream.seq_len > 1 {
                LinearDispatchPhase::Prefill
            } else {
                LinearDispatchPhase::Decode
            }
            &&& fresh matches Ok(p) ==> p.args == kept.args
            &&& mixes_in_use(s, stream.seq_len).mixes == (HiddenShape {
                hidden_dim: hc.mix_fn.rows,
                seq_len: stream.seq_len,
            })
            &&& fresh matches Ok(p) ==> p.mixes == mixes_in_use(s, stream.seq_len).mixes
        }),
{
    assert(hc_mult <= (2 + hc_mult) * hc_mult) by (nonlinear_arith)
        requires
            hc_mult >= 0,
    ;
}

/// New buffers hold for every row a weight to read and a weight to write each lane,
/// and a weight for every pair of lanes.
pub proof fn law_parameters_cover_every_lane(
    hc: DeepseekV4HyperConnection,
    stream: HiddenShape,
    hc_mult: usize,
    iters: usize,
)
    requires
        mhc_params(hc, stream, hc_mult, iters) is Ok,
        stream.seq_len * hc_mult * hc_mult <= usize::MAX,
    ensures
        ({
            let p = mhc_params(hc, stream, hc_mult, iters)->Ok_0;
            &&& p.pre == stream.seq_len * hc_mult
            &&& p.post == stream.seq_len * hc_mult
            &&& p.comb == stream.seq_len * hc_mult * hc_mult
            &&& hc.base >= (2 + hc_mult) * hc_mult
            &&& hc.scale >= 3
        }),
{
    assert(0 <= stream.seq_len * hc_mult <= stream.seq_len * hc_mult * hc_mult) by (nonlinear_arith)
        requires
            hc_mult > 0,
    ;
}

/// The kernels that begin, read and write the stream run over all its rows and all
/// its lanes: the rows of the stream, times the lanes, times the values of a lane
/// are the values of the stream.
pub proof fn law_lanes_fill_the_stream(
    rows: HiddenShape,
    stream: HiddenShape,
    pre: usize,
    weights: (usize, usize),
    hidden_size: usize,
    hc_mult: usize,
    out: HiddenShape,
)
    requires
        stream.seq_len <= i32::MAX && hidden_size <= i32::MAX && hc_mult <= i32::MAX,
    ensures
        initial_lanes(rows, hidden_size, hc_mult, stream) matches Ok(l) ==> {
            &&& l.seq_len == stream.seq_len == rows.seq_len
            &&& l.hidden_size * l.hc_mult == stream.hidden_dim
            &&& l.hidden_size == rows.hidden_dim
        },
        read_lanes(stream, pre, hidden_size, hc_mult, out) matches Ok(l) ==> {
            &&& l.seq_len == stream.seq_len == out.seq_len
            &&& l.hidden_size * l.hc_mult == stream.hidden_dim
            &&& l.hidden_size == out.hidden_dim == hidden_size
            &&& pre >= l.seq_len * l.hc_mult
        },
        written_lanes(rows, stream, weights, hidden_size, hc_mult, out) matches Ok(l) ==> {
            &&& l.seq_len == stream.seq_len == rows.seq_len
            &&& l.hidden_size * l.hc_mult == stream.hidden_dim
            &&& l.hidden_size == rows.hidden_dim == hidden_size
            &&& weights.0 >= l.seq_len * l.hc_mult
            &&& weights.1 >= l.seq_len * l.hc_mult * l.hc_mult
            &&& out == stream
        },
{
}

/// A stream that fits is never refused.
pub proof fn law_fitting_streams_run(
    rows: HiddenShape,
    stream: HiddenShape,
    pre: usize,
    weights: (usize, usize),
    hidden_size: usize,
    hc_mult: usize,
)
    requires
        hc_mult > 0,
        rows.hidden_dim == hidden_size,
        stream.hidden_dim == hidden_size * hc_mult,
        stream.seq_len == rows.seq_len,
        pre >= stream.seq_len * hc_mult,
        weights.0 >= stream.seq_len * hc_mult,
        weights.1 >= stream.seq_len * hc_mult * hc_mult,
    ensures
        initial_lanes(rows, hidden_size, hc_mult, stream) is Ok,
        read_lanes(stream, pre, hidden_size, hc_mult, rows) is Ok,
        written_lanes(rows, stream, weights, hidden_size, hc_mult, stream) is Ok,
{
}

/// The head reads the row of its token and nothing else: the rows of all tokens lie
/// one after the other in the stream, and that of the last one ends with it.
pub proof fn law_heads_read_the_row_of_their_token(
    hc: DeepseekV4HyperConnection,
    stream: HiddenShape,
    token_idx: usize,
    hidden_size: usize,
    hc_mult: usize,
)
    requires
        head_plan(hc, stream, token_idx, hidden_size, hc_mult) is Ok,
        stream.seq_len * stream.hidden_dim <= usize::MAX,
        stream.hidden_dim <= i32::MAX && hidden_size <= i32::MAX && hc_mult <= i32::MAX,
    ensures
        ({
            let p = head_plan(hc, stream, token_idx, hidden_size, hc_mult)->Ok_0;
            &&& token_idx < stream.seq_len
            &&& p.row_end - p.row_start == stream.hidden_dim
            &&& p.row_start == token_idx * stream.hidden_dim
            &&& token_idx == 0 ==> p.row_start == 0
            &&& token_idx == stream.seq_len - 1 ==> p.row_end == stream.seq_len * stream.hidden_dim
            &&& p.stream_dim == stream.hidden_dim == p.hidden_size * p.hc_mult
            &&& p.hidden_size == hidden_size
            &&& p.hc_mult == hc_mult
            &&& p.out == (HiddenShape { hidden_dim: hidden_size, seq_len: 1 })
            &&& p.mixes == (HiddenShape { hidden_dim: hc.mix_fn.rows, seq_len: 1 })
            &&& hc.mix_fn.rows >= hc_mult && hc.base >= hc_mult && hc.scale >= 1
        }),
{
    let (i, n, d) = (token_idx as int, stream.seq_len as int, stream.hidden_dim as int);
    assert(0 <= i * d && i * d + d <= n * d && 0 * d == 0) by (nonlinear_arith)
        requires
            0 <= i < n,
            d >= 0,
    ;
    assert(i == n - 1 ==> i * d + d == n * d) by (nonlinear_arith);
}

} // verus!
