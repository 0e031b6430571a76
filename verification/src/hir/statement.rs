//! Statements of the intermediate representation.
use vstd::prelude::*;

use crate::hir::expression::{ExprId, Resolution};
use crate::interner::SymbolId;

verus! {

/// A statement, by the number it was given when it was allocated.
#[derive(Debug, Clone, Copy, PartialEq, Eq, Hash, Structural)]
pub struct StmtId(pub u32);

/// A statement.
#[derive(Debug, Clone)]
pub enum Statement {
    /// An expression evaluated for its effects.
    Expression(ExprId),
    /// A binding of `symbol`, resolved as `name`, to the value of `initializer`.
    Let { name: Resolution, symbol: SymbolId, initializer: ExprId },
    /// A conditional statement.
    If { condition: ExprId, if_branch: StmtId, else_branch: Option<StmtId> },
    /// A statement that could not be lowered.
    Error,
    /// A block of statements, in order.
    Scope { statements: Vec<StmtId> },
}

} // verus!
