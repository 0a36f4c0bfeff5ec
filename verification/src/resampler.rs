//! Resampling: from a binary mask at the model's resolution to intensities
//! at the image's resolution.
//!
//! The mask is read as a grayscale picture, white where it is set and black
//! where it is not, and stretched over the target rectangle with a
//! Catmull-Rom filter. The stretch ignores the aspect ratio: the result
//! always has exactly the requested width and height. Intensities between
//! black and white along the edges of the object are kept as they are; it is
//! the compositor that decides what they mean.

use vstd::prelude::*;
use crate::error::PipelineError;
use crate::grid::{BinaryMask, Grid, GridView, ResampledMask};

verus! {

/// The intensity of a set cell.
pub const WHITE: u8 = 255;

/// The intensity of a cell that is not set.
pub const BLACK: u8 = 0;

/// The intensity that stands for one cell of a binary mask.
pub open spec fn gray_level(set: bool) -> u8 {
    if set {
        WHITE
    } else {
        BLACK
    }
}

/// The grayscale picture of a binary mask, row by row.
pub open spec fn gray_levels(mask: GridView<bool>) -> Seq<u8> {
    Seq::new(mask.cells.len(), |i: int| gray_level(mask.cells[i]))
}

/// The samples that the `image` crate's Catmull-Rom resize computes from a
/// grayscale picture of `width` by `height` samples, `levels`, for a target
/// of `out_width` by `out_height` samples, row by row.
pub uninterp spec fn catmull_rom_resized(
    levels: Seq<u8>,
    width: nat,
    height: nat,
    out_width: nat,
    out_height: nat,
) -> Seq<u8>;

/// The longest side, of a mask or of a target, that the resampler takes.
///
/// The interpolation computes positions along a side in single precision.
/// Up to this length neighbouring samples are told apart with room to
/// spare, so that every output sample is a weighted mean of input samples
/// whose weights do not cancel.
pub const MAX_SIDE: u32 = 65_535;

/// Whether the two buffers that the interpolation allocates can be addressed:
/// an intermediate picture of `width` by `out_height` samples at sixteen
/// bytes each, and the result at one byte per sample.
pub open spec fn buffers_fit(width: nat, out_width: nat, out_height: nat) -> bool {
    &&& 16 * width * out_height <= isize::MAX
    &&& out_width * out_height <= isize::MAX
}

/// Whether a picture of `width` by `height` samples can be resized to
/// `out_width` by `out_height` samples: no side is empty, none is longer
/// than [`MAX_SIDE`], and the buffers fit this machine.
pub open spec fn resizable(width: nat, height: nat, out_width: nat, out_height: nat) -> bool {
    &&& 1 <= width <= MAX_SIDE
    &&& 1 <= height <= MAX_SIDE
    &&& 1 <= out_width <= MAX_SIDE
    &&& 1 <= out_height <= MAX_SIDE
    &&& buffers_fit(width, out_width, out_height)
}

/// The inputs that [`resample`] accepts: a mask and a target that can be
/// resized one to the other.
pub open spec fn resample_accepts(mask: GridView<bool>, out_width: nat, out_height: nat) -> bool {
    resizable(mask.width, mask.height, out_width, out_height)
}

/// The resampled mask: the requested width and height, and the samples
/// interpolated from the mask's grayscale picture.
pub open spec fn resampled(mask: GridView<bool>, out_width: nat, out_height: nat) -> GridView<u8> {
    GridView {
        width: out_width,
        height: out_height,
        cells: catmull_rom_resized(gray_levels(mask), mask.width, mask.height, out_width, out_height),
    }
}

/// Calls `image::imageops::resize` with `FilterType::CatmullRom` on a
/// one-channel, eight-bit picture.
///
/// Trusted, not proved: the samples returned are those that the crate
/// computes from the picture and the four dimensions alone, and there are
/// exactly `out_width * out_height` of them. The preconditions keep the call
/// away from the panics in the crate's code: a buffer too short for the
/// picture, a buffer too large to allocate, and weights that sum to zero.
#[verifier::external_body]
fn resize_catmull_rom(
    levels: Vec<u8>,
    width: u32,
    height: u32,
    out_width: u32,
    out_height: u32,
) -> (samples: Vec<u8>)
    requires
        levels@.len() == width * height,
        resizable(width as nat, height as nat, out_width as nat, out_height as nat),
    ensures
        samples@ == catmull_rom_resized(
            levels@,
            width as nat,
            height as nat,
            out_width as nat,
            out_height as nat,
        ),
        samples@.len() == out_width * out_height,
{
    let picture = image::GrayImage::from_raw(width, height, levels).unwrap();
    let filter = image::imageops::FilterType::CatmullRom;
    image::imageops::resize(&picture, out_width, out_height, filter).into_raw()
}

/// The grayscale picture of `mask`, row by row.
pub fn to_gray_levels(mask: &BinaryMask) -> (levels: Vec<u8>)
    ensures
        levels@ == gray_levels(mask@),
{
    let cells = mask.cells();
    let mut levels: Vec<u8> = Vec::with_capacity(cells.len());
    let mut index: usize = 0;
    while index < cells.len()
        invariant
            index <= cells.len(),
            cells@ == mask@.cells,
            levels@.len() == index,
            forall|i: int| 0 <= i < index ==> levels@[i] == gray_level(cells@[i]),
        decreases cells.len() - index,
    {
        levels.push(if cells[index] { WHITE } else { BLACK });
        index += 1;
    }
    levels
}

/// Whether a picture of `width` by `height` samples can be resized to
/// `out_width` by `out_height` samples.
fn check_resizable(width: u32, height: u32, out_width: u32, out_height: u32) -> (accepted: bool)
    ensures
        accepted == resizable(width as nat, height as nat, out_width as nat, out_height as nat),
{
    if width == 0 || height == 0 || out_width == 0 || out_height == 0 {
        return false;
    }
    if width > MAX_SIDE || height > MAX_SIDE || out_width > MAX_SIDE || out_height > MAX_SIDE {
        return false;
    }
    assert(16 * width * out_height <= 16 * 65_535 * 65_535) by (nonlinear_arith)
        requires
            width <= 65_535,
            out_height <= 65_535,
    {
    }
    assert(out_width * out_height <= 65_535 * 65_535) by (nonlinear_arith)
        requires
            out_width <= 65_535,
            out_height <= 65_535,
    {
    }
    let limit: u64 = (usize::MAX / 2) as u64;
    let intermediate: u64 = 16u64 * (width as u64) * (out_height as u64);
    let output: u64 = (out_width as u64) * (out_height as u64);
    intermediate <= limit && output <= limit
}

/// Resamples `mask` to `out_width` columns and `out_height` rows.
///
/// Fails with `ShapeError` exactly when the mask or the target has no rows or
/// no columns, when one of them has a side longer than [`MAX_SIDE`], or when
/// the buffers of the interpolation do not fit this machine. Otherwise the
/// result has exactly the requested width and height, whatever the size of
/// the mask, and holds the Catmull-Rom interpolation of the mask's grayscale
/// picture.
pub fn resample(mask: &BinaryMask, out_width: u32, out_height: u32) -> (outcome: Result<
    ResampledMask,
    PipelineError,
>)
    ensures
        match outcome {
            Ok(intensities) => {
                &&& resample_accepts(mask@, out_width as nat, out_height as nat)
                &&& intensities@ == resampled(mask@, out_width as nat, out_height as nat)
                &&& intensities@.well_formed()
                &&& intensities@.width == out_width
                &&& intensities@.height == out_height
            },
            Err(error) => {
                &&& !resample_accepts(mask@, out_width as nat, out_height as nat)
                &&& error == PipelineError::ShapeError
            },
        },
{
    let width = mask.width();
    let height = mask.height();
    if !check_resizable(width, height, out_width, out_height) {
        return Err(PipelineError::ShapeError);
    }
    let levels = to_gray_levels(mask);
    let samples = resize_catmull_rom(levels, width, height, out_width, out_height);
    Grid::from_cells(out_width, out_height, samples)
}

} // verus!
