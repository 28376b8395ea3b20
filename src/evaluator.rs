use vstd::prelude::*;

use crate::ast::{Errors, Nodes, all_clean, nodes_view};
use crate::parser::{Parser, parse_text, tree_view};

verus! {

/// Runs a program text through the parser and hands back what came of it.
pub struct Evaluator<'a> {
    parser: Parser<'a>,
}

impl<'a> Evaluator<'a> {
    /// The program text.
    pub closed spec fn text(&self) -> Seq<char> {
        self.parser.text()
    }

    /// Whether the program has not been read yet.
    pub closed spec fn fresh(&self) -> bool {
        self.parser.wf() && self.parser.cursor() == 0
    }

    /// Creates a new Evaluator instance with the given program source code.
    pub fn new(program: &'a str) -> (r: Self)
        requires
            program@.len() < usize::MAX,
        ensures
            r.fresh(),
            r.text() == program@,
    {
        Evaluator { parser: Parser::new(program) }
    }

    /// Parses the whole program: its top-level nodes, or every error found
    /// in it.
    pub fn eval(&mut self) -> (r: Result<Nodes, Errors>)
        requires
            old(self).fresh(),
        ensures
            tree_view(r) == parse_text(old(self).text()),
            r is Ok ==> all_clean(nodes_view(r->Ok_0@)),
            r is Err ==> r->Err_0.len() > 0,
    {
        self.parser.parse()
    }
}

} // verus!
