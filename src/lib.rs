//! Lexer and recursive-descent parser for Hydrogen, a small C-like scripting
//! language, with the plain data types of its terminal front end.
use vstd::prelude::*;

pub mod ast;
pub mod cell;
pub mod evaluator;
pub mod lexer;
pub mod linebuffer;
pub mod mode;
pub mod parser;
pub mod tokens;

verus! {

} // verus!
