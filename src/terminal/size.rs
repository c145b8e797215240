use vstd::prelude::*;

verus! {

/// The terminal's dimensions, in character cells.
#[derive(Clone, Copy, Debug, PartialEq, Eq, Structural)]
pub struct Size {
    cols: usize,
    rows: usize,
}

impl Size {
    pub closed spec fn cols_spec(&self) -> nat {
        self.cols as nat
    }

    pub closed spec fn rows_spec(&self) -> nat {
        self.rows as nat
    }

    /// Builds a size from a (columns, rows) pair.
    pub fn new(size: (u16, u16)) -> (r: Self)
        ensures
            r.cols_spec() == size.0 as nat,
            r.rows_spec() == size.1 as nat,
    {
        Size { cols: size.0 as usize, rows: size.1 as usize }
    }

    pub fn get_cols(&self) -> (r: usize)
        ensures
            r == self.cols_spec(),
    {
        self.cols
    }

    pub fn get_rows(&self) -> (r: usize)
        ensures
            r == self.rows_spec(),
    {
        self.rows
    }

    pub fn set(&mut self, cols: usize, rows: usize)
        ensures
            final(self).cols_spec() == cols,
            final(self).rows_spec() == rows,
    {
        self.cols = cols;
        self.rows = rows;
    }
}

} // verus!
