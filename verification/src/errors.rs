//! What can go wrong on the way from a decoded frame to an encoded image.

use vstd::prelude::*;

verus! {

/// The step of the conversion that failed.
#[derive(Clone, Copy, Debug, PartialEq, Eq, Structural)]
pub enum PipelineError {
    /// The scaler could not convert the frame, or handed back a plane that
    /// does not hold the scaled image.
    ScalerError,
    /// The tone-map filter could not be built or did not yield a frame.
    FilterError,
    /// The image could not be encoded.
    EncoderError,
}

/// Why a frame could not do what was asked of it.
#[derive(Clone, Copy, Debug, PartialEq, Eq, Structural)]
pub enum FrameError {
    /// The encoded bytes were asked for before the frame was materialized.
    NotReady,
    /// A step of the conversion failed; the frame is as it was before.
    ConversionFailed { reason: PipelineError },
    /// The frame holds neither a decoded frame nor encoded bytes.
    InvalidState,
}

} // verus!
