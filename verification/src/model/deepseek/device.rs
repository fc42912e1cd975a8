//! What planning reads of values on the device.

use vstd::prelude::*;

verus! {

/// Shape of hidden states: `seq_len` rows of `hidden_dim` values.
#[derive(Clone, Copy, Debug, PartialEq, Eq, Structural)]
pub struct HiddenShape {
    pub hidden_dim: usize,
    pub seq_len: usize,
}

/// How the values of a matrix are stored.
#[derive(Clone, Copy, Debug, PartialEq, Eq, Structural)]
pub enum WeightFormat {
    Dense,
    Dsv4Fp8BlockScaled,
    Dsv4Fp4BlockScaled,
    Other,
}

/// A matrix on the device.
#[derive(Clone, Copy, Debug, PartialEq, Eq, Structural)]
pub struct MatrixShape {
    pub format: WeightFormat,
    pub rows: usize,
    pub cols: usize,
    pub scale_rows: usize,
    pub scale_cols: usize,
    /// The quantized values are on the device.
    pub has_values: bool,
    /// The block scales are on the device.
    pub has_scales: bool,
}

/// Which kernels a matrix product uses.
#[derive(Clone, Copy, Debug, PartialEq, Eq, Structural)]
pub enum LinearDispatchPhase {
    Prefill,
    Decode,
}

/// More than one row is a prefill.
pub open spec fn phase_of(seq_len: usize) -> LinearDispatchPhase {
    if seq_len > 1 {
        LinearDispatchPhase::Prefill
    } else {
        LinearDispatchPhase::Decode
    }
}

/// The phase of a product over `seq_len` rows.
pub fn dispatch_phase(seq_len: usize) -> (phase: LinearDispatchPhase)
    ensures
        phase == phase_of(seq_len),
{
    if seq_len > 1 {
        LinearDispatchPhase::Prefill
    } else {
        LinearDispatchPhase::Decode
    }
}

} // verus!
