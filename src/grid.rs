use vstd::prelude::*;
use crate::error::GenError;

verus! {

/// The extent of a height field: `cols × rows` cells, stored row after row.
pub struct GridShape {
    cols: usize,
    rows: usize,
}

/// Position in the row-major storage of cell `(col, row)` on a grid `cols` wide.
pub open spec fn cell_offset(cols: nat, col: nat, row: nat) -> nat {
    col + row * cols
}

impl GridShape {
    pub closed spec fn spec_cols(self) -> nat {
        self.cols as nat
    }

    pub closed spec fn spec_rows(self) -> nat {
        self.rows as nat
    }

    /// Both counts are positive and the cell count fits in memory.
    pub open spec fn wf(self) -> bool {
        &&& self.spec_cols() > 0
        &&& self.spec_rows() > 0
        &&& self.spec_cols() * self.spec_rows() <= usize::MAX
    }

    /// Number of cells of the grid.
    pub open spec fn spec_len(self) -> nat {
        self.spec_cols() * self.spec_rows()
    }

    /// A flat grid of `cols × rows` cells; fails when either count is zero.
    pub fn new_flat(cols: usize, rows: usize) -> (r: Result<GridShape, GenError>)
        requires
            cols * rows <= usize::MAX,
        ensures
            (cols == 0 || rows == 0) <==> r == Err::<GridShape, GenError>(GenError::InvalidDimensions),
            (cols > 0 && rows > 0) ==> (r matches Ok(g) && g.wf() && g.spec_cols() == cols
                && g.spec_rows() == rows),
    {
        if cols == 0 || rows == 0 {
            Err(GenError::InvalidDimensions)
        } else {
            Ok(GridShape { cols, rows })
        }
    }

    pub fn cols(&self) -> (r: usize)
        ensures
            r == self.spec_cols(),
    {
        self.cols
    }

    pub fn rows(&self) -> (r: usize)
        ensures
            r == self.spec_rows(),
    {
        self.rows
    }

    /// Number of cells, `cols · rows`.
    pub fn len(&self) -> (r: usize)
        requires
            self.wf(),
        ensures
            r == self.spec_len(),
    {
        self.cols * self.rows
    }

    /// Storage position of cell `(col, row)`, or `OutOfBounds` outside
    /// `[0, cols) × [0, rows)`.
    pub fn index(&self, col: usize, row: usize) -> (r: Result<usize, GenError>)
        requires
            self.wf(),
        ensures
            (col < self.spec_cols() && row < self.spec_rows()) ==> r == Ok::<usize, GenError>(
                cell_offset(self.spec_cols(), col as nat, row as nat) as usize,
            ),
            !(col < self.spec_cols() && row < self.spec_rows()) ==> r == Err::<usize, GenError>(
                GenError::OutOfBounds,
            ),
            r matches Ok(i) ==> i < self.spec_len(),
    {
        if col < self.cols && row < self.rows {
            proof {
                let (c, w, h, y) = (col as int, self.cols as int, self.rows as int, row as int);
                assert(c + y * w < w * h) by (nonlinear_arith)
                    requires
                        0 <= c < w,
                        0 <= y < h,
                ;
            }
            Ok(col + row * self.cols)
        } else {
            Err(GenError::OutOfBounds)
        }
    }
}

} // verus!
