use vstd::prelude::*;

use crate::error::ProveError;
use crate::field::{coerce_all, valid_or_zero, valid_or_zero_spec, Val, INVALID};

verus! {

/// Position of cell (`row`, `col`) in a column-major buffer of `rows` rows.
pub open spec fn cell_index(rows: int, row: int, col: int) -> int {
    col * rows + row
}

/// A named `rows` x `cols` view over field-element cells, stored column by
/// column, with a flag that makes reads of unwritten cells fail.
pub struct MetaBuffer {
    pub name: &'static str,
    pub buf: Vec<Val>,
    pub rows: usize,
    pub cols: usize,
    pub checked_reads: bool,
}

impl MetaBuffer {
    /// The cell storage matches the declared shape.
    pub open spec fn wf(&self) -> bool {
        self.buf@.len() == self.rows * self.cols
    }

    /// The value of cell (`row`, `col`).
    pub open spec fn cell(&self, row: int, col: int) -> Val {
        self.buf@[cell_index(self.rows as int, row, col)]
    }

    /// Allocates a buffer whose every cell holds the INVALID sentinel.
    pub fn new(name: &'static str, rows: usize, cols: usize, checked_reads: bool) -> (r: Self)
        requires
            rows * cols <= usize::MAX,
        ensures
            r.wf(),
            r.name == name,
            r.rows == rows,
            r.cols == cols,
            r.checked_reads == checked_reads,
            r.buf@ == Seq::new((rows * cols) as nat, |i: int| INVALID),
    {
        let n: usize = rows * cols;
        let mut buf: Vec<Val> = Vec::with_capacity(n);
        let mut i: usize = 0;
        while i < n
            invariant
                i <= n,
                buf@ == Seq::new(i as nat, |k: int| INVALID),
            decreases n - i,
        {
            buf.push(INVALID);
            i = i + 1;
            proof {
                assert(buf@ =~= Seq::new(i as nat, |k: int| INVALID));
            }
        }
        MetaBuffer { name, buf, rows, cols, checked_reads }
    }

    /// Builds a buffer from values already computed (a one-row copy-in).
    pub fn from_values(name: &'static str, values: &Vec<Val>, checked_reads: bool) -> (r: Self)
        ensures
            r.wf(),
            r.name == name,
            r.rows == 1,
            r.cols == values@.len(),
            r.checked_reads == checked_reads,
            r.buf@ == values@,
    {
        MetaBuffer { name, buf: values.clone(), rows: 1, cols: values.len(), checked_reads }
    }

    /// Copies out every cell, column by column.
    pub fn to_vec(&self) -> (r: Vec<Val>)
        ensures
            r@ == self.buf@,
    {
        self.buf.clone()
    }

    /// Reads cell (`row`, `col`); with checked reads on, an unwritten cell is
    /// an error naming the cell.
    pub fn get(&self, row: usize, col: usize) -> (r: Result<Val, ProveError>)
        requires
            self.wf(),
            row < self.rows,
            col < self.cols,
        ensures
            self.checked_reads && self.cell(row as int, col as int) == INVALID ==> r == Err::<
                Val,
                ProveError,
            >(ProveError::UninitializedRead { row, col }),
            !(self.checked_reads && self.cell(row as int, col as int) == INVALID) ==> r == Ok::<
                Val,
                ProveError,
            >(self.cell(row as int, col as int)),
    {
        let n: usize = self.buf.len();
        proof {
            lemma_index_in_bounds(self.rows as int, self.cols as int, row as int, col as int);
        }
        let v = self.buf[col * self.rows + row];
        if self.checked_reads && v == INVALID {
            Err(ProveError::UninitializedRead { row, col })
        } else {
            Ok(v)
        }
    }

    /// Writes `v` into cell (`row`, `col`) and leaves every other cell as it was.
    pub fn set(&mut self, row: usize, col: usize, v: Val)
        requires
            old(self).wf(),
            row < old(self).rows,
            col < old(self).cols,
        ensures
            final(self).wf(),
            final(self).name == old(self).name,
            final(self).rows == old(self).rows,
            final(self).cols == old(self).cols,
            final(self).checked_reads == old(self).checked_reads,
            final(self).buf@ == old(self).buf@.update(
                cell_index(old(self).rows as int, row as int, col as int),
                v,
            ),
    {
        let n: usize = self.buf.len();
        proof {
            lemma_index_in_bounds(self.rows as int, self.cols as int, row as int, col as int);
        }
        let idx: usize = col * self.rows + row;
        self.buf.set(idx, v);
    }

    /// Replaces every unwritten cell by zero; written cells keep their value.
    pub fn zeroize(&mut self)
        requires
            old(self).wf(),
        ensures
            final(self).wf(),
            final(self).name == old(self).name,
            final(self).rows == old(self).rows,
            final(self).cols == old(self).cols,
            final(self).checked_reads == old(self).checked_reads,
            final(self).buf@ == coerce_all(old(self).buf@),
    {
        let n: usize = self.buf.len();
        let mut i: usize = 0;
        while i < n
            invariant
                i <= n,
                n == self.buf@.len(),
                self.name == old(self).name,
                self.rows == old(self).rows,
                self.cols == old(self).cols,
                self.checked_reads == old(self).checked_reads,
                self.buf@.len() == old(self).buf@.len(),
                forall|k: int| 0 <= k < i ==> self.buf@[k] == valid_or_zero_spec(old(self).buf@[k]),
                forall|k: int| i <= k < n ==> self.buf@[k] == old(self).buf@[k],
            decreases n - i,
        {
            let v = valid_or_zero(self.buf[i]);
            self.buf.set(i, v);
            i = i + 1;
        }
        proof {
            assert(self.buf@ =~= coerce_all(old(self).buf@));
        }
    }
}

/// A cell of a `rows` x `cols` buffer lies inside its storage.
pub proof fn lemma_index_in_bounds(rows: int, cols: int, row: int, col: int)
    requires
        0 <= row < rows,
        0 <= col < cols,
    ensures
        0 <= col * rows <= cell_index(rows, row, col) < rows * cols,
{
    assert(col * rows + row < rows * cols) by (nonlinear_arith)
        requires
            0 <= row < rows,
            0 <= col < cols,
    ;
    assert(0 <= col * rows) by (nonlinear_arith)
        requires
            0 <= col,
            0 <= rows,
    ;
}

} // verus!
