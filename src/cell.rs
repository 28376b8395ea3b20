use vstd::prelude::*;

verus! {

/// A cell of the terminal, by column and row.
#[derive(Debug, Clone, Copy, PartialEq, Eq, Structural)]
pub struct Cell {
    /// The column position of the cell.
    pub col: u16,
    /// The row position of the cell.
    pub row: u16,
}

impl Cell {
    /// Creates a new `Cell` with the specified column and row positions.
    pub fn new(col: u16, row: u16) -> (r: Self)
        ensures
            r.col == col,
            r.row == row,
    {
        Self { col, row }
    }
}

impl Default for Cell {
    /// The cell in the first column of the first row.
    fn default() -> (r: Self)
        ensures
            r.col == 1,
            r.row == 1,
    {
        Cell::new(1, 1)
    }
}

} // verus!
