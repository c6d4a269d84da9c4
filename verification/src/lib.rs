//! Compile-time transformation of singleton methods.
//!
//! Given a method declaration that carries a singleton annotation, this
//! library classifies the shape of its signature (receiver mutability and
//! argument arity), adapts multiple extra arguments into a single tuple
//! argument, and synthesizes a receiver-less facade method that forwards to
//! the shape-appropriate singleton accessor.

pub mod decl;
pub mod facade_fn;
pub mod laws;
pub mod paths;
pub mod singleton_fns;
pub mod syn_checks;
pub mod text;
pub mod transform;

use vstd::prelude::*;

verus! {

/// The reserved identifier for the synthesized tuple argument.
pub open spec fn tuple_arg_name() -> Seq<char> {
    "args"@
}

} // verus!
