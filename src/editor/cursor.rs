use vstd::prelude::*;

verus! {

/// The logical edit position in the buffer: a column and a row.
pub struct Cursor {
    col: usize,
    row: usize,
}

impl View for Cursor {
    /// (column, row)
    type V = (nat, nat);

    closed spec fn view(&self) -> (nat, nat) {
        (self.col as nat, self.row as nat)
    }
}

impl Cursor {
    pub fn new() -> (r: Self)
        ensures
            r@ == (0nat, 0nat),
    {
        Cursor { col: 0, row: 0 }
    }

    pub fn get_col(&self) -> (r: usize)
        ensures
            r == self@.0,
    {
        self.col
    }

    pub fn get_row(&self) -> (r: usize)
        ensures
            r == self@.1,
    {
        self.row
    }

    pub fn set_col(&mut self, value: usize)
        ensures
            final(self)@ == (value as nat, old(self)@.1),
    {
        self.col = value;
    }

    pub fn set_col_row(&mut self, col: usize, row: usize)
        ensures
            final(self)@ == (col as nat, row as nat),
    {
        self.col = col;
        self.row = row;
    }
}

} // verus!
