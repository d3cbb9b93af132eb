//! A minimal dense matrix of binary64 bit patterns, used to hold a Jacobian:
//! construct filled with zero, read and write one entry, nothing more.
use vstd::prelude::*;
use crate::fp::BITS_ZERO;

verus! {

/// A dense row-major matrix of binary64 bit patterns.
pub struct Mat {
    rows: usize,
    cols: usize,
    data: Vec<u64>,
}

/// Distinct (row, column) pairs land on distinct row-major positions.
proof fn lemma_entry_injective(r1: int, c1: int, r2: int, c2: int, cols: int)
    requires
        0 <= c1 < cols,
        0 <= c2 < cols,
        r1 * cols + c1 == r2 * cols + c2,
    ensures
        r1 == r2 && c1 == c2,
{
    assert(r1 == r2 && c1 == c2) by (nonlinear_arith)
        requires
            0 <= c1 < cols,
            0 <= c2 < cols,
            r1 * cols + c1 == r2 * cols + c2,
    ;
}

/// A row-major position lies inside the data of its matrix.
proof fn lemma_entry_in_range(r: int, c: int, rows: int, cols: int)
    requires
        0 <= r < rows,
        0 <= c < cols,
    ensures
        0 <= r * cols + c < rows * cols,
{
    assert(0 <= r * cols + c < rows * cols) by (nonlinear_arith)
        requires
            0 <= r < rows,
            0 <= c < cols,
    ;
}

impl Mat {
    /// Number of rows (one per output component).
    pub closed spec fn spec_rows(&self) -> int {
        self.rows as int
    }

    /// Number of columns (one per input component).
    pub closed spec fn spec_cols(&self) -> int {
        self.cols as int
    }

    /// The storage holds exactly rows * cols entries (so that count fits
    /// in a machine word).
    pub closed spec fn wf(&self) -> bool {
        self.data@.len() == self.spec_rows() * self.spec_cols()
            && self.spec_rows() * self.spec_cols() <= usize::MAX
    }

    /// The entry at row `r`, column `c`, as a binary64 bit pattern.
    pub closed spec fn entry(&self, r: int, c: int) -> u64 {
        self.data@[r * self.spec_cols() + c]
    }

    pub fn rows(&self) -> (r: usize)
        ensures
            r as int == self.spec_rows(),
    {
        self.rows
    }

    pub fn cols(&self) -> (c: usize)
        ensures
            c as int == self.spec_cols(),
    {
        self.cols
    }

    /// An `rows` x `cols` matrix with every entry 0.0.
    pub fn zeros(rows: usize, cols: usize) -> (m: Mat)
        requires
            rows * cols <= usize::MAX,
        ensures
            m.wf(),
            m.spec_rows() == rows as int,
            m.spec_cols() == cols as int,
            forall|r: int, c: int|
                0 <= r < rows && 0 <= c < cols ==> m.entry(r, c) == BITS_ZERO,
    {
        let n = rows * cols;
        let mut data: Vec<u64> = Vec::new();
        let mut j: usize = 0;
        while j < n
            invariant
                j <= n,
                data@.len() == j as int,
                forall|k: int| 0 <= k < j ==> data@[k] == BITS_ZERO,
            decreases n - j,
        {
            data.push(BITS_ZERO);
            j += 1;
        }
        let m = Mat { rows, cols, data };
        proof {
            assert forall|r: int, c: int|
                0 <= r < rows && 0 <= c < cols implies m.entry(r, c) == BITS_ZERO by {
                lemma_entry_in_range(r, c, rows as int, cols as int);
            }
        }
        m
    }

    /// Read the entry at row `r`, column `c`.
    pub fn get(&self, r: usize, c: usize) -> (x: u64)
        requires
            self.wf(),
            (r as int) < self.spec_rows(),
            (c as int) < self.spec_cols(),
        ensures
            x == self.entry(r as int, c as int),
    {
        proof {
            lemma_entry_in_range(r as int, c as int, self.spec_rows(), self.spec_cols());
        }
        self.data[r * self.cols + c]
    }

    /// Write `x` at row `r`, column `c`; every other entry is unchanged.
    pub fn set(&mut self, r: usize, c: usize, x: u64)
        requires
            old(self).wf(),
            (r as int) < old(self).spec_rows(),
            (c as int) < old(self).spec_cols(),
        ensures
            final(self).wf(),
            final(self).spec_rows() == old(self).spec_rows(),
            final(self).spec_cols() == old(self).spec_cols(),
            final(self).entry(r as int, c as int) == x,
            forall|r2: int, c2: int|
                0 <= r2 < old(self).spec_rows() && 0 <= c2 < old(self).spec_cols() && !(r2 == r
                    && c2 == c) ==> final(self).entry(r2, c2) == old(self).entry(r2, c2),
    {
        proof {
            lemma_entry_in_range(r as int, c as int, self.spec_rows(), self.spec_cols());
        }
        let idx = r * self.cols + c;
        self.data[idx] = x;
        proof {
            assert forall|r2: int, c2: int|
                0 <= r2 < self.spec_rows() && 0 <= c2 < self.spec_cols() && !(r2 == r && c2
                    == c) implies self.entry(r2, c2) == old(self).entry(r2, c2) by {
                lemma_entry_in_range(r2, c2, self.spec_rows(), self.spec_cols());
                if r2 * self.spec_cols() + c2 == r as int * self.spec_cols() + c as int {
                    lemma_entry_injective(
                        r2,
                        c2,
                        r as int,
                        c as int,
                        self.spec_cols(),
                    );
                }
            }
        }
    }

    /// Overwrite column `c` with the entries of `col`, top to bottom; every
    /// entry outside that column is unchanged.
    pub fn set_column(&mut self, c: usize, col: &Vec<u64>)
        requires
            old(self).wf(),
            (c as int) < old(self).spec_cols(),
            col@.len() == old(self).spec_rows(),
        ensures
            final(self).wf(),
            final(self).spec_rows() == old(self).spec_rows(),
            final(self).spec_cols() == old(self).spec_cols(),
            forall|j: int| 0 <= j < col@.len() ==> final(self).entry(j, c as int) == col@[j],
            forall|r2: int, c2: int|
                0 <= r2 < old(self).spec_rows() && 0 <= c2 < old(self).spec_cols() && c2 != c
                    ==> final(self).entry(r2, c2) == old(self).entry(r2, c2),
    {
        let rows = self.rows;
        let mut j: usize = 0;
        while j < rows
            invariant
                j <= rows,
                self.wf(),
                self.spec_rows() == old(self).spec_rows(),
                self.spec_cols() == old(self).spec_cols(),
                rows as int == self.spec_rows(),
                (c as int) < self.spec_cols(),
                col@.len() == self.spec_rows(),
                forall|k: int| 0 <= k < j ==> self.entry(k, c as int) == col@[k],
                forall|r2: int, c2: int|
                    0 <= r2 < self.spec_rows() && 0 <= c2 < self.spec_cols() && c2 != c
                        ==> self.entry(r2, c2) == old(self).entry(r2, c2),
            decreases rows - j,
        {
            self.set(j, c, col[j]);
            j += 1;
        }
    }
}

} // verus!
