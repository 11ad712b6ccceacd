//! A row-major boolean raster, the storage of the fine clearance grids and
//! of the forest grid.

use vstd::prelude::*;

verus! {

/// `cols` × `rows` booleans in row-major order.
pub struct BoolRaster {
    cols: usize,
    rows: usize,
    cells: Vec<bool>,
}

impl BoolRaster {
    #[verifier::type_invariant]
    spec fn sized(self) -> bool {
        self.cells@.len() == self.cols * self.rows
    }

    pub closed spec fn spec_cols(self) -> nat {
        self.cols as nat
    }

    pub closed spec fn spec_rows(self) -> nat {
        self.rows as nat
    }

    /// Whether cell (col, row) is set; cells outside the raster are unset.
    pub closed spec fn spec_at(self, col: int, row: int) -> bool {
        if 0 <= col < self.cols && 0 <= row < self.rows {
            self.cells@[row * self.cols + col]
        } else {
            false
        }
    }

    /// An all-clear raster.
    pub fn new_empty(cols: usize, rows: usize) -> (r: Self)
        requires
            cols * rows <= usize::MAX,
        ensures
            r.spec_cols() == cols,
            r.spec_rows() == rows,
            forall|c: int, w: int| !r.spec_at(c, w),
    {
        let n = cols * rows;
        let mut cells: Vec<bool> = Vec::new();
        let mut i: usize = 0;
        while i < n
            invariant
                i <= n,
                cells@.len() == i,
                forall|j: int| 0 <= j < i ==> !cells@[j],
            decreases n - i,
        {
            cells.push(false);
            i = i + 1;
        }
        let r = BoolRaster { cols, rows, cells };
        proof {
            assert forall|c: int, w: int| !r.spec_at(c, w) by {
                if 0 <= c < cols && 0 <= w < rows {
                    lemma_index_in_bounds(c, w, cols as int, rows as int);
                }
            }
        }
        r
    }

    pub fn cols(&self) -> (c: usize)
        ensures
            c == self.spec_cols(),
    {
        self.cols
    }

    pub fn rows(&self) -> (r: usize)
        ensures
            r == self.spec_rows(),
    {
        self.rows
    }

    /// Whether cell (col, row) is set; cells outside the raster are unset.
    pub fn is_set(&self, col: usize, row: usize) -> (b: bool)
        ensures
            b == self.spec_at(col as int, row as int),
    {
        proof {
            use_type_invariant(self);
        }
        if col >= self.cols || row >= self.rows {
            return false;
        }
        let n = self.cells.len();
        proof {
            lemma_index_in_bounds(col as int, row as int, self.cols as int, self.rows as int);
        }
        assert(row * self.cols + col < n);
        self.cells[row * self.cols + col]
    }

    /// The same raster with cell (col, row) set.
    pub fn marked(self, col: usize, row: usize) -> (r: Self)
        requires
            col < self.spec_cols(),
            row < self.spec_rows(),
        ensures
            r.spec_cols() == self.spec_cols(),
            r.spec_rows() == self.spec_rows(),
            forall|c: int, w: int|
                #![trigger r.spec_at(c, w)]
                r.spec_at(c, w) == (self.spec_at(c, w) || (c == col && w == row)),
    {
        proof {
            use_type_invariant(&self);
            lemma_index_in_bounds(col as int, row as int, self.cols as int, self.rows as int);
        }
        let BoolRaster { cols, rows, mut cells } = self;
        let n = cells.len();
        let idx = row * cols + col;
        assert(idx < n);
        cells.set(idx, true);
        let r = BoolRaster { cols, rows, cells };
        proof {
            assert forall|c: int, w: int|
                #![trigger r.spec_at(c, w)]
                r.spec_at(c, w) == (self.spec_at(c, w) || (c == col && w == row)) by {
                if 0 <= c < cols && 0 <= w < rows {
                    lemma_index_in_bounds(c, w, cols as int, rows as int);
                    lemma_index_injective(c, w, col as int, row as int, cols as int);
                }
            }
        }
        r
    }
}

proof fn lemma_index_in_bounds(col: int, row: int, cols: int, rows: int)
    requires
        0 <= col < cols,
        0 <= row < rows,
    ensures
        0 <= row * cols + col < cols * rows,
{
    assert(row * cols + col < cols * rows) by (nonlinear_arith)
        requires
            0 <= col < cols,
            0 <= row < rows,
    ;
    assert(0 <= row * cols) by (nonlinear_arith)
        requires
            0 <= row,
            0 <= cols,
    ;
}

proof fn lemma_index_injective(c1: int, r1: int, c2: int, r2: int, cols: int)
    requires
        0 <= c1 < cols,
        0 <= c2 < cols,
        0 <= r1,
        0 <= r2,
    ensures
        (r1 * cols + c1 == r2 * cols + c2) <==> (c1 == c2 && r1 == r2),
{
    if r1 < r2 {
        assert(r1 * cols + c1 < r2 * cols + c2) by (nonlinear_arith)
            requires
                r1 < r2,
                0 <= c1 < cols,
                0 <= c2,
        ;
    } else if r2 < r1 {
        assert(r2 * cols + c2 < r1 * cols + c1) by (nonlinear_arith)
            requires
                r2 < r1,
                0 <= c2 < cols,
                0 <= c1,
        ;
    }
}

} // verus!
