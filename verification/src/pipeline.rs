//! The three stages in sequence: threshold, resample, composite.

use vstd::prelude::*;
use crate::compositor::{composite, composited, DEFAULT_CUTOFF};
use crate::error::PipelineError;
use crate::grid::{GridView, Image};
use crate::normalizer::{normalize, RawMask, RawMaskView};
use crate::pixel::Pixel;
use crate::resampler::{resample, resample_accepts, resampled};
use crate::score::Score;

verus! {

/// The two parameters of the pipeline. They are independent of each other:
/// the threshold is applied to the model's scores, the cutoff to the
/// intensities of the resampled mask.
#[derive(Clone, Copy, Debug, PartialEq, Eq, Structural)]
pub struct Settings {
    /// A position belongs to the object when its score is at least this.
    pub threshold: Score,
    /// A pixel is kept when the resampled mask exceeds this.
    pub cutoff: u8,
}

impl Default for Settings {
    /// A threshold of zero and a cutoff of 100.
    fn default() -> (settings: Settings)
        ensures
            settings.threshold.bits == 0,
            settings.cutoff == DEFAULT_CUTOFF,
    {
        Settings { threshold: Score::zero(), cutoff: DEFAULT_CUTOFF }
    }
}

/// What the pipeline makes of an image and the scores computed for it: the
/// cutout, or the error that stops it.
///
/// The scores are thresholded, the binary mask is resampled to the width and
/// height of the image, and the image is cut out along the resampled mask.
/// The only error is `ShapeError`, for scores that are not well shaped and
/// for a mask that cannot be resampled to the size of the image: an image
/// without pixels, or a side beyond what the resampler takes. The image and
/// the resampled mask never differ in size.
pub open spec fn cutout_of(image: GridView<Pixel>, raw: RawMaskView, settings: Settings) -> Result<
    GridView<Pixel>,
    PipelineError,
> {
    let binary = raw.thresholded(settings.threshold);
    if raw.well_shaped() && resample_accepts(binary, image.width, image.height) {
        Ok(composited(image, resampled(binary, image.width, image.height), settings.cutoff))
    } else {
        Err(PipelineError::ShapeError)
    }
}

/// Runs the three stages on `image` and the scores `raw`.
///
/// The result is exactly [`cutout_of`]: on success a cutout with the width
/// and height of the image, on failure `ShapeError`. A failure of one stage
/// ends the run: no later stage is entered.
pub fn post_process(image: &Image, raw: &RawMask, settings: &Settings) -> (outcome: Result<Image, PipelineError>)
    ensures
        match outcome {
            Ok(cutout) => {
                &&& cutout_of(image@, raw@, *settings) == Ok::<GridView<Pixel>, PipelineError>(cutout@)
                &&& cutout@.well_formed()
                &&& cutout@.width == image@.width
                &&& cutout@.height == image@.height
            },
            Err(error) => cutout_of(image@, raw@, *settings) == Err::<GridView<Pixel>, PipelineError>(error),
        },
{
    let binary = match normalize(raw, settings.threshold) {
        Ok(binary) => binary,
        Err(error) => {
            return Err(error);
        },
    };
    let intensities = match resample(&binary, image.width(), image.height()) {
        Ok(intensities) => intensities,
        Err(error) => {
            return Err(error);
        },
    };
    composite(image, &intensities, settings.cutoff)
}

/// Running the pipeline again gives the same cutout: two images with the
/// same pixels and two sets of scores with the same values have the same
/// outcome, pixel for pixel and error for error.
pub proof fn lemma_post_process_repeatable(
    first_image: Image,
    first_raw: RawMask,
    second_image: Image,
    second_raw: RawMask,
    settings: Settings,
)
    requires
        first_image@.width == second_image@.width,
        first_image@.height == second_image@.height,
        first_image@.cells =~= second_image@.cells,
        first_raw@.shape =~= second_raw@.shape,
        first_raw@.scores =~= second_raw@.scores,
    ensures
        cutout_of(first_image@, first_raw@, settings) == cutout_of(second_image@, second_raw@, settings),
{
}

} // verus!
