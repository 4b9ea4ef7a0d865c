//! Color states that describe the renderer's source and target signals.

use vstd::prelude::*;

use crate::media::{ColorPrimaries, TransferFunction};

verus! {

/// YCbCr-to-RGB matrix of the encoded signal.
#[derive(Debug, Clone, Copy, PartialEq, Eq, Structural)]
pub enum MatrixCoefficients {
    Unknown,
    Bt601,
    Bt709,
    Bt2020Ncl,
}

/// Quantization range of the encoded signal.
#[derive(Debug, Clone, Copy, PartialEq, Eq, Structural)]
pub enum ColorRange {
    Unknown,
    Limited,
    Full,
}

/// Primaries and transfer function the renderer targets.
#[derive(Debug, Clone, Copy, PartialEq, Eq, Structural)]
pub struct TargetColorState {
    pub primaries: ColorPrimaries,
    pub transfer: TransferFunction,
}

impl TargetColorState {
    /// An SDR target: sRGB transfer with the given primaries.
    pub fn sdr(primaries: ColorPrimaries) -> (r: TargetColorState)
        ensures
            r == (TargetColorState { primaries, transfer: TransferFunction::Srgb }),
    {
        TargetColorState { primaries, transfer: TransferFunction::Srgb }
    }

    /// An HDR10 target: PQ transfer with the given primaries.
    pub fn hdr10(primaries: ColorPrimaries) -> (r: TargetColorState)
        ensures
            r == (TargetColorState { primaries, transfer: TransferFunction::Pq }),
    {
        TargetColorState { primaries, transfer: TransferFunction::Pq }
    }
}

} // verus!
