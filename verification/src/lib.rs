//! A structured-text (IEC 61131-3) compiler front end: the abstract syntax
//! tree, its pre-processing, literal classification, date/time constants and
//! the command line options, with their contracts proved by Verus.
use vstd::prelude::*;

pub mod ast;
pub mod builtins;
pub mod cli;
pub mod codegen;
pub mod text;

verus! {
} // verus!
