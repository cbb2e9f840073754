use vstd::prelude::*;

verus! {

use vstd::arithmetic::div_mod::{
    lemma_fundamental_div_mod,
    lemma_mod_bound,
    lemma_multiply_divide_lt,
};
use vstd::arithmetic::mul::{lemma_mul_is_commutative, lemma_mul_strictly_positive,
    lemma_mul_upper_bound};

/// The frame layout of a sprite sheet: a grid of equally sized tiles,
/// measured in whole pixels and indexed row-major from the top left.
#[derive(Clone, Copy, PartialEq, Eq, Structural, Debug)]
pub struct AtlasGrid {
    /// Width of one tile in pixels.
    pub tile_w: u32,
    /// Height of one tile in pixels.
    pub tile_h: u32,
    /// Number of tiles in each row.
    pub columns: u32,
    /// Number of rows of tiles.
    pub rows: u32,
}

impl AtlasGrid {
    /// A grid is well formed when it has at least one row and one column
    /// and the frame count and the sheet's pixel dimensions all fit.
    pub open spec fn wf(self) -> bool {
        &&& 1 <= self.columns
        &&& 1 <= self.rows
        &&& self.columns * self.rows <= u32::MAX
        &&& self.columns * self.tile_w <= u32::MAX
        &&& self.rows * self.tile_h <= u32::MAX
    }

    /// How many frames the sheet holds.
    pub open spec fn spec_frame_count(self) -> int {
        self.columns * self.rows
    }

    /// Build a grid from tile size and shape. Succeeds exactly when there
    /// is at least one row and one column and the frame count and the
    /// sheet's pixel dimensions all fit.
    pub fn new(tile_w: u32, tile_h: u32, columns: u32, rows: u32) -> (r: Option<AtlasGrid>)
        ensures
            r is Some <==> {
                &&& 1 <= columns
                &&& 1 <= rows
                &&& columns * rows <= u32::MAX
                &&& columns * tile_w <= u32::MAX
                &&& rows * tile_h <= u32::MAX
            },
            r is Some ==> r->Some_0 == (AtlasGrid { tile_w, tile_h, columns, rows }),
            r is Some ==> r->Some_0.wf(),
    {
        proof {
            lemma_mul_upper_bound(columns as int, u32::MAX as int, rows as int, u32::MAX as int);
            lemma_mul_upper_bound(columns as int, u32::MAX as int, tile_w as int, u32::MAX as int);
            lemma_mul_upper_bound(rows as int, u32::MAX as int, tile_h as int, u32::MAX as int);
        }
        let frames: u64 = (columns as u64) * (rows as u64);
        let sheet_w: u64 = (columns as u64) * (tile_w as u64);
        let sheet_h: u64 = (rows as u64) * (tile_h as u64);
        let limit: u64 = u32::MAX as u64;
        if 1 <= columns && 1 <= rows && frames <= limit && sheet_w <= limit && sheet_h <= limit {
            Some(AtlasGrid { tile_w, tile_h, columns, rows })
        } else {
            None
        }
    }

    /// How many frames the sheet holds.
    pub fn frame_count(&self) -> (n: u32)
        requires
            self.wf(),
        ensures
            n == self.spec_frame_count(),
            1 <= n,
    {
        proof {
            lemma_mul_strictly_positive(self.columns as int, self.rows as int);
        }
        self.columns * self.rows
    }

    /// Whether `index` names a frame of this sheet.
    pub fn contains(&self, index: u32) -> (r: bool)
        requires
            self.wf(),
        ensures
            r <==> index < self.spec_frame_count(),
    {
        index < self.frame_count()
    }

    /// The row a frame sits in, counted from the top.
    pub fn row_of(&self, index: u32) -> (r: u32)
        requires
            self.wf(),
            index < self.spec_frame_count(),
        ensures
            r == index as int / self.columns as int,
            r < self.rows,
    {
        proof {
            lemma_multiply_divide_lt(index as int, self.columns as int, self.rows as int);
        }
        index / self.columns
    }

    /// The column a frame sits in, counted from the left.
    pub fn col_of(&self, index: u32) -> (r: u32)
        requires
            self.wf(),
            index < self.spec_frame_count(),
        ensures
            r == index as int % self.columns as int,
            r < self.columns,
    {
        proof {
            lemma_mod_bound(index as int, self.columns as int);
        }
        index % self.columns
    }

    /// The frame index at the given row and column, row-major.
    pub fn index_of(&self, row: u32, col: u32) -> (r: u32)
        requires
            self.wf(),
            row < self.rows,
            col < self.columns,
        ensures
            r == row * self.columns + col,
            r < self.spec_frame_count(),
    {
        proof {
            assert((row as int) * (self.columns as int) + (col as int) < (self.columns as int)
                * (self.rows as int)) by (nonlinear_arith)
                requires
                    (row as int) <= (self.rows as int) - 1,
                    (col as int) < (self.columns as int),
                    1 <= (self.columns as int),
            ;
        }
        row * self.columns + col
    }

    /// Pixel offsets of the top-left corner of a frame within the sheet.
    /// The frame's tile lies wholly inside the sheet.
    pub fn frame_origin(&self, index: u32) -> (r: (u32, u32))
        requires
            self.wf(),
            index < self.spec_frame_count(),
        ensures
            r.0 == (index as int % self.columns as int) * self.tile_w,
            r.1 == (index as int / self.columns as int) * self.tile_h,
            r.0 + self.tile_w <= self.columns * self.tile_w,
            r.1 + self.tile_h <= self.rows * self.tile_h,
    {
        let col: u32 = self.col_of(index);
        let row: u32 = self.row_of(index);
        proof {
            assert((col as int) * (self.tile_w as int) + self.tile_w as int <= (self.columns
                as int) * (self.tile_w as int)) by (nonlinear_arith)
                requires
                    (col as int) <= (self.columns as int) - 1,
                    0 <= (self.tile_w as int),
            ;
            assert((row as int) * (self.tile_h as int) + self.tile_h as int <= (self.rows as int)
                * (self.tile_h as int)) by (nonlinear_arith)
                requires
                    (row as int) <= (self.rows as int) - 1,
                    0 <= (self.tile_h as int),
            ;
        }
        (col * self.tile_w, row * self.tile_h)
    }
}

/// Taking a frame index apart into its row and column and putting it back
/// together yields the same index.
pub proof fn lemma_grid_round_trip(g: AtlasGrid, index: u32)
    requires
        g.wf(),
        index < g.spec_frame_count(),
    ensures
        (index as int / g.columns as int) * g.columns + (index as int % g.columns as int)
            == index,
{
    lemma_fundamental_div_mod(index as int, g.columns as int);
    lemma_mul_is_commutative(g.columns as int, index as int / g.columns as int);
}

} // verus!
