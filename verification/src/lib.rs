//! Mask post-processing for image cutouts.
//!
//! A segmentation model scores every pixel of its input. This crate turns
//! those scores into a cutout of the image the scores were computed for: the
//! scores are thresholded into a binary mask, the mask is resampled to the
//! image's resolution with a Catmull-Rom filter, and every image pixel is
//! either kept (opaque) or cleared (transparent) according to the resampled
//! mask.
//!
//! Every function in this crate is verified with Verus. The interpolation
//! itself is computed by the `image` crate; the one function that calls it
//! is marked as trusted in [`resampler`].

pub mod compositor;
pub mod error;
pub mod grid;
pub mod normalizer;
pub mod pipeline;
pub mod pixel;
pub mod request;
pub mod resampler;
pub mod score;

pub use compositor::{composite, cut_out, DEFAULT_CUTOFF};
pub use error::PipelineError;
pub use grid::{BinaryMask, Grid, GridView, Image, ResampledMask};
pub use normalizer::{normalize, RawMask, RawMaskView};
pub use pipeline::{post_process, Settings};
pub use pixel::Pixel;
pub use request::{Action, Event, PromptPoint, Request};
pub use resampler::resample;
pub use score::Score;
