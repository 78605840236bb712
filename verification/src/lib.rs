use vstd::prelude::*;

pub mod atom;
pub mod ast;
pub mod precedence;
pub mod paren;
pub mod frame;
pub mod escape;

verus! {

/// Whether to pretty-print the generated source: `Yes` adds indentation,
/// newlines and optional spaces; `No` produces compact output.
#[derive(Debug, Copy, Clone, PartialEq, Eq, Structural)]
pub enum Pretty {
    No,
    Yes,
}

} // verus!
