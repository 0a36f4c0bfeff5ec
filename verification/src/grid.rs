//! Rectangular grids of cells: masks and images.
//!
//! A grid stores its cells row by row, the top row first. Its width, its
//! height and the number of cells it holds always agree; the fields are
//! private so that no grid can exist for which they do not.

use vstd::prelude::*;
use crate::error::PipelineError;
use crate::pixel::Pixel;

verus! {

/// The mathematical content of a [`Grid`].
pub struct GridView<T> {
    pub width: nat,
    pub height: nat,
    /// The cells, row by row.
    pub cells: Seq<T>,
}

impl<T> GridView<T> {
    /// The grid has exactly one cell for each position.
    pub open spec fn well_formed(self) -> bool {
        self.cells.len() == self.width * self.height
    }

    /// Whether `(x, y)` is a position of the grid.
    pub open spec fn contains(self, x: int, y: int) -> bool {
        0 <= x < self.width && 0 <= y < self.height
    }

    /// The cell in column `x` of row `y`.
    pub open spec fn at(self, x: int, y: int) -> T
        recommends
            self.well_formed(),
            self.contains(x, y),
    {
        self.cells[y * self.width + x]
    }

    /// Whether the grid has no cells.
    pub open spec fn is_empty(self) -> bool {
        self.width == 0 || self.height == 0
    }
}

/// A position of a well-formed grid lies inside its sequence of cells.
pub proof fn lemma_position_in_cells(width: nat, height: nat, x: int, y: int)
    requires
        0 <= x < width,
        0 <= y < height,
    ensures
        0 <= y * width + x < width * height,
{
    assert(y * width + x < width * height) by (nonlinear_arith)
        requires
            0 <= x < width,
            0 <= y < height,
    {
    }
    assert(0 <= y * width) by (nonlinear_arith)
        requires
            0 <= y,
            0 <= width,
    {
    }
}

/// A rectangular grid of cells.
#[derive(Debug, PartialEq, Eq)]
pub struct Grid<T> {
    width: u32,
    height: u32,
    cells: Vec<T>,
}

/// A per-position decision at the model's resolution: does the position
/// belong to the object?
pub type BinaryMask = Grid<bool>;

/// A per-pixel intensity, 0 to 255, at the image's resolution.
pub type ResampledMask = Grid<u8>;

/// An image with an alpha channel.
pub type Image = Grid<Pixel>;

impl<T> View for Grid<T> {
    type V = GridView<T>;

    closed spec fn view(&self) -> GridView<T> {
        GridView { width: self.width as nat, height: self.height as nat, cells: self.cells@ }
    }
}

impl<T> Grid<T> {
    /// What holds of every grid: one cell for each position.
    #[verifier::type_invariant]
    pub open spec fn consistent(self) -> bool {
        &&& self@.well_formed()
        &&& self@.width <= u32::MAX
        &&& self@.height <= u32::MAX
    }
}

impl<T: Copy> Grid<T> {
    /// Builds a grid from its cells, given row by row. Fails with
    /// `ShapeError` exactly when the number of cells is not
    /// `width * height`.
    pub fn from_cells(width: u32, height: u32, cells: Vec<T>) -> (made: Result<Grid<T>, PipelineError>)
        ensures
            match made {
                Ok(grid) => {
                    &&& cells@.len() == width * height
                    &&& grid@ == (GridView { width: width as nat, height: height as nat, cells: cells@ })
                    &&& grid@.well_formed()
                },
                Err(error) => {
                    &&& cells@.len() != width * height
                    &&& error == PipelineError::ShapeError
                },
            },
    {
        assert(width * height <= 0xffff_ffff * 0xffff_ffff) by (nonlinear_arith)
            requires
                width <= 0xffff_ffff,
                height <= 0xffff_ffff,
        {
        }
        let expected: u64 = (width as u64) * (height as u64);
        if cells.len() as u64 == expected {
            Ok(Grid { width, height, cells })
        } else {
            Err(PipelineError::ShapeError)
        }
    }

    /// The number of columns.
    pub fn width(&self) -> (width: u32)
        ensures
            width == self@.width,
            self@.well_formed(),
    {
        proof {
            use_type_invariant(self);
        }
        self.width
    }

    /// The number of rows.
    pub fn height(&self) -> (height: u32)
        ensures
            height == self@.height,
            self@.well_formed(),
    {
        proof {
            use_type_invariant(self);
        }
        self.height
    }

    /// Whether the grid has no cells.
    pub fn is_empty(&self) -> (empty: bool)
        ensures
            empty == self@.is_empty(),
    {
        self.width == 0 || self.height == 0
    }

    /// The cells, row by row.
    pub fn cells(&self) -> (cells: &Vec<T>)
        ensures
            cells@ == self@.cells,
            self@.well_formed(),
    {
        proof {
            use_type_invariant(self);
        }
        &self.cells
    }

    /// Gives up the grid for its cells, row by row.
    pub fn into_cells(self) -> (cells: Vec<T>)
        ensures
            cells@ == self@.cells,
            self@.well_formed(),
    {
        proof {
            use_type_invariant(&self);
        }
        self.cells
    }

    /// A second grid with the same cells.
    pub fn duplicate(&self) -> (copy: Grid<T>)
        ensures
            copy@ == self@,
    {
        proof {
            use_type_invariant(self);
        }
        let mut cells: Vec<T> = Vec::with_capacity(self.cells.len());
        let mut index: usize = 0;
        while index < self.cells.len()
            invariant
                index <= self.cells.len(),
                cells@ == self.cells@.take(index as int),
            decreases self.cells.len() - index,
        {
            cells.push(self.cells[index]);
            index += 1;
        }
        assert(cells@ == self.cells@);
        Grid { width: self.width, height: self.height, cells }
    }

    /// The cell in column `x` of row `y`, or `None` when `(x, y)` is not a
    /// position of the grid.
    pub fn get(&self, x: u32, y: u32) -> (cell: Option<T>)
        ensures
            cell == (if self@.contains(x as int, y as int) {
                Some(self@.at(x as int, y as int))
            } else {
                None
            }),
    {
        proof {
            use_type_invariant(self);
        }
        if x < self.width && y < self.height {
            proof {
                lemma_position_in_cells(self.width as nat, self.height as nat, x as int, y as int);
                assert(0 <= y * self.width) by (nonlinear_arith)
                    requires
                        0 <= y,
                        0 <= self.width,
                {
                }
                assert(y * self.width + x < self.cells.len());
            }
            let index: usize = (y as usize) * (self.width as usize) + (x as usize);
            Some(self.cells[index])
        } else {
            None
        }
    }
}

impl<T: Copy> Clone for Grid<T> {
    fn clone(&self) -> (copy: Grid<T>)
        ensures
            copy@ == self@,
    {
        self.duplicate()
    }
}

} // verus!
