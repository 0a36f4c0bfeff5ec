//! Thresholding: from raw scores to a binary mask.

use vstd::prelude::*;
use crate::error::PipelineError;
use crate::grid::{lemma_position_in_cells, BinaryMask, Grid, GridView};
use crate::score::Score;

verus! {

/// The raw output of the model: scores on three axes, channels by rows by
/// columns, stored with the last axis running fastest.
///
/// Nothing is assumed of a value of this type; [`normalize`] checks the
/// shape before it reads a score.
#[derive(Debug, PartialEq, Eq)]
pub struct RawMask {
    /// The length of each axis.
    pub shape: Vec<usize>,
    /// The scores, channel by channel and row by row.
    pub scores: Vec<Score>,
}

/// The mathematical content of a [`RawMask`].
pub struct RawMaskView {
    /// The length of each axis.
    pub shape: Seq<usize>,
    /// The scores, channel by channel and row by row.
    pub scores: Seq<Score>,
}

impl View for RawMask {
    type V = RawMaskView;

    open spec fn view(&self) -> RawMaskView {
        RawMaskView { shape: self.shape@, scores: self.scores@ }
    }
}

impl RawMaskView {
    /// The number of channels.
    pub open spec fn channels(self) -> nat
        recommends
            self.shape.len() == 3,
    {
        self.shape[0] as nat
    }

    /// The number of rows.
    pub open spec fn height(self) -> nat
        recommends
            self.shape.len() == 3,
    {
        self.shape[1] as nat
    }

    /// The number of columns.
    pub open spec fn width(self) -> nat
        recommends
            self.shape.len() == 3,
    {
        self.shape[2] as nat
    }

    /// The mask has a channel axis and two spatial axes, none of them empty,
    /// it holds one score for each position of each channel, and its rows
    /// and columns can be counted in 32 bits, as those of every grid.
    pub open spec fn well_shaped(self) -> bool {
        &&& self.shape.len() == 3
        &&& self.channels() >= 1
        &&& 1 <= self.height() <= u32::MAX
        &&& 1 <= self.width() <= u32::MAX
        &&& self.scores.len() == self.channels() * self.height() * self.width()
    }

    /// The score of `channel` in column `x` of row `y`.
    pub open spec fn score_at(self, channel: int, y: int, x: int) -> Score
        recommends
            self.well_shaped(),
            0 <= channel < self.channels(),
            0 <= y < self.height(),
            0 <= x < self.width(),
    {
        self.scores[(channel * self.height() + y) * self.width() + x]
    }

    /// The binary mask of the first channel: a position is set exactly when
    /// its score reaches the threshold.
    pub open spec fn thresholded(self, threshold: Score) -> GridView<bool>
        recommends
            self.well_shaped(),
    {
        GridView {
            width: self.width(),
            height: self.height(),
            cells: Seq::new(
                self.width() * self.height(),
                |i: int| self.scores[i].spec_at_least(threshold),
            ),
        }
    }
}

/// A well-shaped mask holds at least the scores of its first channel.
proof fn lemma_first_channel_within_scores(channels: nat, height: nat, width: nat)
    requires
        channels >= 1,
    ensures
        width * height <= channels * height * width,
{
    assert(width * height <= channels * height * width) by (nonlinear_arith)
        requires
            channels >= 1,
    {
    }
}

/// Thresholds the first channel of `mask`.
///
/// Fails with `ShapeError` exactly when the mask is not well shaped: it does
/// not have three axes, one of them is empty, its rows or columns cannot be
/// counted in 32 bits, or the number of scores is not the product of the axes.
/// Otherwise the result has the mask's rows and columns, and each of its
/// cells tells whether the score at that position reaches `threshold`.
pub fn normalize(mask: &RawMask, threshold: Score) -> (normalized: Result<BinaryMask, PipelineError>)
    ensures
        match normalized {
            Ok(binary) => {
                &&& mask@.well_shaped()
                &&& binary@ == mask@.thresholded(threshold)
                &&& binary@.well_formed()
            },
            Err(error) => !mask@.well_shaped() && error == PipelineError::ShapeError,
        },
{
    if mask.shape.len() != 3 {
        return Err(PipelineError::ShapeError);
    }
    let channels: usize = mask.shape[0];
    let height: usize = mask.shape[1];
    let width: usize = mask.shape[2];
    if channels == 0 || height == 0 || width == 0 {
        return Err(PipelineError::ShapeError);
    }
    if height > 0xffff_ffff || width > 0xffff_ffff {
        return Err(PipelineError::ShapeError);
    }
    assert(width * height <= 0xffff_ffff * 0xffff_ffff) by (nonlinear_arith)
        requires
            width <= 0xffff_ffff,
            height <= 0xffff_ffff,
    {
    }
    assert(channels * height * width == channels * (width * height)) by (nonlinear_arith);
    let positions: u64 = (width as u64) * (height as u64);
    match (channels as u64).checked_mul(positions) {
        None => {
            assert(mask.scores.len() <= u64::MAX < channels * positions);
            return Err(PipelineError::ShapeError);
        },
        Some(expected) => {
            if mask.scores.len() as u64 != expected {
                return Err(PipelineError::ShapeError);
            }
        },
    }
    proof {
        lemma_first_channel_within_scores(channels as nat, height as nat, width as nat);
    }
    let count: usize = positions as usize;
    let mut cells: Vec<bool> = Vec::with_capacity(count);
    let mut index: usize = 0;
    while index < count
        invariant
            index <= count <= mask.scores.len(),
            cells@.len() == index,
            forall|i: int| 0 <= i < index ==> cells@[i] == mask.scores@[i].spec_at_least(threshold),
        decreases count - index,
    {
        cells.push(mask.scores[index].at_least(threshold));
        index += 1;
    }
    assert(cells@ == mask@.thresholded(threshold).cells);
    Grid::from_cells(width as u32, height as u32, cells)
}

/// Thresholding decides each position on its own score: the cell of the
/// binary mask in column `x` of row `y` is set exactly when the score of
/// the first channel at that position reaches the threshold.
pub proof fn lemma_thresholded_pointwise(mask: RawMaskView, threshold: Score, x: int, y: int)
    requires
        mask.well_shaped(),
        0 <= x < mask.width(),
        0 <= y < mask.height(),
    ensures
        mask.thresholded(threshold).well_formed(),
        mask.thresholded(threshold).contains(x, y),
        mask.thresholded(threshold).at(x, y) == mask.score_at(0, y, x).spec_at_least(threshold),
{
    lemma_position_in_cells(mask.width(), mask.height(), x, y);
    assert((0 * mask.height() + y) * mask.width() + x == y * mask.width() + x) by (nonlinear_arith);
}

} // verus!
