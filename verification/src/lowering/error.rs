//! Errors found while lowering the syntax tree.
use vstd::prelude::*;

verus! {

/// A construct that lowering cannot accept.
#[derive(Debug, Clone)]
pub enum HirError {
    /// A tuple expression; the language has no tuples.
    TupleExpression,
    /// An assignment whose target cannot be assigned.
    InvalidAssignTarget,
    /// A name that no scope binds.
    SymbolNotFound(String),
}

} // verus!
