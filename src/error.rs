//! The error conditions of the pipeline stage.
use vstd::prelude::*;

verus! {

/// Why a step of the pipeline could not produce its result.
#[derive(Clone, Copy, Debug, PartialEq, Eq, Structural)]
pub enum VisionError {
    /// The primary capture backend failed; the frame is lost.
    CaptureFailed,
    /// The window capture backend failed; recovered with no window images.
    SecondaryCaptureFailed,
    /// The structural comparison was given images of different sizes.
    DimensionMismatch,
    /// An image could not be converted for the histogram comparison.
    IncompatibleInput,
    /// Writing the text files of a frame failed.
    IoFailure,
}

} // verus!
