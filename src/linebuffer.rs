use vstd::prelude::*;

use crate::cell::Cell;

verus! {

/// The line being typed at the prompt, and where its caret stands.
#[derive(Debug)]
pub struct LineBuffer {
    /// The characters typed so far.
    pub buffer: String,
    /// The caret's cell in the terminal.
    pub caret: Cell,
}

impl LineBuffer {
    /// Creates an empty `LineBuffer` with its caret in the first cell.
    pub fn new() -> (r: Self)
        ensures
            r.buffer@ == Seq::<char>::empty(),
            r.caret.col == 1,
            r.caret.row == 1,
    {
        LineBuffer::default()
    }
}

impl Default for LineBuffer {
    /// An empty buffer with the caret in the first cell.
    fn default() -> (r: Self)
        ensures
            r.buffer@ == Seq::<char>::empty(),
            r.caret.col == 1,
            r.caret.row == 1,
    {
        Self { buffer: String::new(), caret: Cell::new(1, 1) }
    }
}

} // verus!
