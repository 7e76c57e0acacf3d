//! An interpreter for a small language of one-character operators over a fixed
//! row of signed cells: a lexer, a recursive-descent parser, and a tree-walking
//! machine, each proved against a model of what it computes.

use vstd::prelude::*;

pub mod ast;
pub mod lexer;
pub mod parser;
pub mod program;
pub mod text;
pub mod vm;

verus! {

} // verus!
