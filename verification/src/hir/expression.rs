//! Identifiers of expressions and local bindings, and what a name resolves to.
use vstd::prelude::*;

use crate::hir::globals::DefId;

verus! {

/// A local binding: its number, handed out in order of declaration.
#[derive(Debug, Clone, Copy, PartialEq, Eq, Hash, Structural)]
pub struct LocalId(pub u32);

/// An expression, by the number it was given when it was allocated.
#[derive(Debug, Clone, Copy, PartialEq, Eq, Hash, Structural)]
pub struct ExprId(pub u32);

/// What a name stands for: a local binding or a global definition.
#[derive(Debug, Clone, Copy, PartialEq, Eq, Structural)]
pub enum Resolution {
    Local(LocalId),
    Global(DefId),
}

} // verus!
