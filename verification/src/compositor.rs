//! Compositing: from an image and a resampled mask to the cutout.
//!
//! Each pixel of the cutout depends on one pixel of the image and on the
//! intensity of the mask at the same position, and on nothing else.

use vstd::prelude::*;
use crate::error::PipelineError;
use crate::grid::{lemma_position_in_cells, Grid, GridView, Image, ResampledMask};
use crate::pixel::Pixel;

verus! {

/// The intensity that a mask sample has to exceed for its pixel to be kept,
/// unless the caller chooses another.
pub const DEFAULT_CUTOFF: u8 = 100;

/// The cutout's pixel for one position: the image's colour at full opacity
/// where the mask's intensity exceeds the cutoff, nothing elsewhere.
pub open spec fn spec_cut_out(pixel: Pixel, intensity: u8, cutoff: u8) -> Pixel {
    if intensity > cutoff {
        pixel.spec_opaque()
    } else {
        Pixel::spec_transparent()
    }
}

/// The cutout of `image` under `mask`: the image's width and height, and
/// each pixel decided by [`spec_cut_out`] from the image's pixel and the
/// mask's intensity at the same position.
pub open spec fn composited(image: GridView<Pixel>, mask: GridView<u8>, cutoff: u8) -> GridView<Pixel>
    recommends
        image.well_formed(),
        mask.well_formed(),
        image.width == mask.width,
        image.height == mask.height,
{
    GridView {
        width: image.width,
        height: image.height,
        cells: Seq::new(image.cells.len(), |i: int| spec_cut_out(image.cells[i], mask.cells[i], cutoff)),
    }
}

/// The cutout's pixel for one position.
pub fn cut_out(pixel: Pixel, intensity: u8, cutoff: u8) -> (kept: Pixel)
    ensures
        kept == spec_cut_out(pixel, intensity, cutoff),
{
    if intensity > cutoff {
        pixel.opaque()
    } else {
        Pixel::transparent()
    }
}

/// Cuts `image` out along `mask`.
///
/// Fails with `DimensionMismatch` exactly when the image and the mask differ
/// in width or in height. Otherwise the result has the image's width and
/// height, and each of its pixels is the image's pixel at full opacity where
/// the mask exceeds `cutoff`, and transparent elsewhere.
pub fn composite(image: &Image, mask: &ResampledMask, cutoff: u8) -> (outcome: Result<Image, PipelineError>)
    ensures
        match outcome {
            Ok(cutout) => {
                &&& image@.width == mask@.width
                &&& image@.height == mask@.height
                &&& cutout@ == composited(image@, mask@, cutoff)
                &&& cutout@.well_formed()
                &&& cutout@.width == image@.width
                &&& cutout@.height == image@.height
            },
            Err(error) => {
                &&& (image@.width != mask@.width || image@.height != mask@.height)
                &&& error == PipelineError::DimensionMismatch
            },
        },
{
    let width = image.width();
    let height = image.height();
    if width != mask.width() || height != mask.height() {
        return Err(PipelineError::DimensionMismatch);
    }
    let pixels = image.cells();
    let intensities = mask.cells();
    let mut cells: Vec<Pixel> = Vec::with_capacity(pixels.len());
    let mut index: usize = 0;
    while index < pixels.len()
        invariant
            index <= pixels.len(),
            pixels.len() == intensities.len(),
            pixels@ == image@.cells,
            intensities@ == mask@.cells,
            cells@.len() == index,
            forall|i: int| 0 <= i < index ==> cells@[i] == spec_cut_out(pixels@[i], intensities@[i], cutoff),
        decreases pixels.len() - index,
    {
        cells.push(cut_out(pixels[index], intensities[index], cutoff));
        index += 1;
    }
    assert(cells@ == composited(image@, mask@, cutoff).cells);
    Grid::from_cells(width, height, cells)
}

/// Each pixel of the cutout is decided at its own position: it is the
/// image's pixel there at full opacity if the mask there exceeds the
/// cutoff, and transparent otherwise.
pub proof fn lemma_composited_pointwise(
    image: GridView<Pixel>,
    mask: GridView<u8>,
    cutoff: u8,
    x: int,
    y: int,
)
    requires
        image.well_formed(),
        mask.well_formed(),
        image.width == mask.width,
        image.height == mask.height,
        image.contains(x, y),
    ensures
        composited(image, mask, cutoff).well_formed(),
        composited(image, mask, cutoff).at(x, y) == spec_cut_out(image.at(x, y), mask.at(x, y), cutoff),
{
    lemma_position_in_cells(image.width, image.height, x, y);
}

/// The cutoff is exclusive: a pixel whose mask intensity equals the cutoff
/// is transparent.
pub proof fn lemma_cutoff_is_exclusive(pixel: Pixel, cutoff: u8)
    ensures
        spec_cut_out(pixel, cutoff, cutoff) == Pixel::spec_transparent(),
{
}

} // verus!
