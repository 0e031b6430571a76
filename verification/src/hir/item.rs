//! Items of the intermediate representation.
use vstd::prelude::*;

use crate::hir::expression::{ExprId, Resolution};
use crate::hir::statement::StmtId;
use crate::interner::SymbolId;

verus! {

/// A top-level item.
#[derive(Debug, Clone)]
pub enum HirItem {
    /// A model declaration.
    Model(HirModel),
    /// An import.
    Import(HirImport),
    /// A statement of the module's body.
    Stmt(StmtId),
    /// A global binding of `name`, resolved as `resolution`, to `initializer`.
    Let { name: SymbolId, resolution: Resolution, initializer: ExprId },
    /// An item that could not be lowered.
    Error,
}

/// An import, with its names interned.
#[derive(Debug, Clone)]
pub struct HirImport {
    /// The path of the imported module.
    pub path: Vec<SymbolId>,
    /// The name the module is bound to, if it was given one.
    pub alias: Option<SymbolId>,
    /// The names the import brings into scope directly.
    pub exposed: Vec<SymbolId>,
}

/// A model: its name, its fields and its methods, each found by its name.
#[derive(Debug, Clone)]
pub struct HirModel {
    pub name: SymbolId,
    pub fields: Vec<SymbolId>,
    pub methods: Vec<HirMethod>,
}

/// A method of a model.
#[derive(Debug, Clone)]
pub struct HirMethod {
    pub name: SymbolId,
    pub params: Vec<SymbolId>,
    pub body: Vec<StmtId>,
}

} // verus!
