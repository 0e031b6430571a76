//! Identifiers of global definitions and the scope that names them.
use vstd::prelude::*;

use crate::hir::table::SymbolTable;
use crate::interner::SymbolId;
use crate::module::ModuleId;

verus! {

/// A global definition: the module that holds it and its position there.
#[derive(Debug, Clone, Copy, PartialEq, Eq, Hash, Structural)]
pub struct DefId {
    pub module: ModuleId,
    pub index: u32,
}

impl DefId {
    /// The definition at position `index` of `module`.
    pub fn new(module: ModuleId, index: u32) -> (d: DefId)
        ensures
            d.module == module,
            d.index == index,
    {
        DefId { module, index }
    }
}

/// The global names of a module and the definitions they stand for.
#[derive(Debug)]
pub struct GlobalScope {
    names: SymbolTable<DefId>,
}

impl View for GlobalScope {
    type V = Map<SymbolId, DefId>;

    /// The definition that each global name stands for.
    closed spec fn view(&self) -> Map<SymbolId, DefId> {
        self.names@
    }
}

impl GlobalScope {
    /// A scope with no name.
    pub fn new() -> (g: GlobalScope)
        ensures
            g@ == Map::<SymbolId, DefId>::empty(),
    {
        GlobalScope { names: SymbolTable::new() }
    }

    /// Lets `name` stand for `def`, in place of what it stood for before.
    pub fn insert(&mut self, name: SymbolId, def: DefId)
        ensures
            final(self)@ == old(self)@.insert(name, def),
    {
        self.names.insert(name, def);
    }

    /// The definition that `name` stands for, if any.
    pub fn resolve(&self, name: &SymbolId) -> (r: Option<DefId>)
        ensures
            r == (if self@.dom().contains(*name) { Some(self@[*name]) } else { None::<DefId> }),
    {
        self.names.get(*name)
    }
}

} // verus!
