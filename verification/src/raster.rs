//! The luminance raster: a grid of 8-bit samples, stored row by row.

use vstd::prelude::*;

verus! {

/// What a raster is: `width` columns by `height` rows of samples, row-major,
/// top to bottom and left to right.
pub struct Grid {
    pub width: nat,
    pub height: nat,
    pub samples: Seq<u8>,
}

impl Grid {
    /// One sample for every cell, no more.
    pub open spec fn complete(self) -> bool {
        self.samples.len() == self.width * self.height
    }

    /// The sample in column `col` of row `row`.
    pub open spec fn at(self, row: int, col: int) -> u8
        recommends
            0 <= row < self.height,
            0 <= col < self.width,
    {
        self.samples[row * self.width + col]
    }
}

/// A cell of a complete grid has its sample within the sequence.
pub proof fn lemma_cell_in_bounds(grid: Grid, row: int, col: int)
    requires
        grid.complete(),
        0 <= row < grid.height,
        0 <= col < grid.width,
    ensures
        0 <= row * grid.width + col < grid.samples.len(),
{
    assert(0 <= row * grid.width && (row + 1) * grid.width <= grid.height * grid.width)
        by (nonlinear_arith)
        requires
            0 <= row,
            row + 1 <= grid.height,
            0 <= grid.width,
    ;
    assert((row + 1) * grid.width == row * grid.width + grid.width) by (nonlinear_arith);
    assert(grid.height * grid.width == grid.width * grid.height) by (nonlinear_arith);
}

/// An owned luminance raster (0 is darkest, 255 brightest) that always holds
/// exactly one sample per cell.
pub struct LumaRaster {
    width: usize,
    height: usize,
    samples: Vec<u8>,
}

impl View for LumaRaster {
    type V = Grid;

    closed spec fn view(&self) -> Grid {
        Grid { width: self.width as nat, height: self.height as nat, samples: self.samples@ }
    }
}

impl LumaRaster {
    #[verifier::type_invariant]
    spec fn well_formed(&self) -> bool {
        self.samples@.len() == self.width * self.height
    }

    /// A raster of the given size over `samples`; `None` unless there are
    /// exactly `width * height` of them.
    pub fn new(width: usize, height: usize, samples: Vec<u8>) -> (r: Option<LumaRaster>)
        ensures
            samples@.len() == width * height <==> r is Some,
            r matches Some(raster) ==> raster@ == (Grid {
                width: width as nat,
                height: height as nat,
                samples: samples@,
            }),
    {
        let given = samples.len();
        match width.checked_mul(height) {
            Some(cells) => {
                if given == cells {
                    Some(LumaRaster { width, height, samples })
                } else {
                    None
                }
            },
            None => None,
        }
    }

    /// Number of columns.
    pub fn width(&self) -> (w: usize)
        ensures
            w == self@.width,
    {
        self.width
    }

    /// Number of rows.
    pub fn height(&self) -> (h: usize)
        ensures
            h == self@.height,
    {
        self.height
    }

    /// The sample in column `col` of row `row`.
    pub fn cell(&self, row: usize, col: usize) -> (v: u8)
        requires
            row < self@.height,
            col < self@.width,
        ensures
            v == self@.at(row as int, col as int),
    {
        proof {
            use_type_invariant(self);
        }
        let cells = self.samples.len();
        proof {
            lemma_cell_in_bounds(self@, row as int, col as int);
            assert(0 <= row * self.width + col < cells);
            assert(0 <= row * self.width) by (nonlinear_arith);
        }
        self.samples[row * self.width + col]
    }

    /// The sample in column `col` of row `row`; `None` outside the raster.
    pub fn sample(&self, row: usize, col: usize) -> (r: Option<u8>)
        ensures
            row < self@.height && col < self@.width <==> r is Some,
            r matches Some(v) ==> v == self@.at(row as int, col as int),
    {
        if row < self.height && col < self.width {
            Some(self.cell(row, col))
        } else {
            None
        }
    }

    /// The samples, row by row; there is exactly one for every cell.
    pub fn samples(&self) -> (s: &Vec<u8>)
        ensures
            s@ == self@.samples,
            self@.complete(),
    {
        proof {
            use_type_invariant(self);
        }
        &self.samples
    }
}

} // verus!
