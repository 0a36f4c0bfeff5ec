//! The ways in which a request can fail.

use vstd::prelude::*;

verus! {

/// Why a request was aborted. Every stage fails fast: once one of these is
/// raised no later stage runs and no partial image is produced.
#[derive(Clone, Copy, Debug, PartialEq, Eq, Structural)]
pub enum PipelineError {
    /// A tensor or mask has the wrong number of axes, an axis of length
    /// zero, or a length that does not match its axes.
    ShapeError,
    /// The image and the mask handed to the compositor differ in width or
    /// height.
    DimensionMismatch,
    /// The segmentation model rejected its input or failed internally.
    ModelError,
    /// The image codec could not decode or encode a byte stream.
    CodecError,
}

impl PipelineError {
    /// The description of each error.
    pub open spec fn spec_message(self) -> &'static str {
        match self {
            PipelineError::ShapeError => "malformed mask dimensions",
            PipelineError::DimensionMismatch => "image and mask dimensions differ",
            PipelineError::ModelError => "segmentation model failed",
            PipelineError::CodecError => "image codec failed",
        }
    }

    /// A short description of the error, for whoever reads the failure.
    pub fn message(&self) -> (text: &'static str)
        ensures
            text == self.spec_message(),
    {
        match self {
            PipelineError::ShapeError => "malformed mask dimensions",
            PipelineError::DimensionMismatch => "image and mask dimensions differ",
            PipelineError::ModelError => "segmentation model failed",
            PipelineError::CodecError => "image codec failed",
        }
    }
}

} // verus!
