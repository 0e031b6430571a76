//! Modules of the intermediate representation: their items, the scope of
//! their global names, their exports and their body.
use vstd::prelude::*;

use crate::hir::expression::ExprId;
use crate::hir::globals::DefId;
use crate::hir::item::{HirImport, HirItem, HirModel};
use crate::hir::statement::StmtId;
use crate::hir::table::SymbolTable;
use crate::interner::SymbolId;
use crate::module::ModuleId;

verus! {

/// Whether a definition is seen outside its module.
#[derive(Debug, Clone, Copy, PartialEq, Eq, Structural)]
pub enum DefVisibility {
    Public,
    Private,
}

impl DefVisibility {
    /// Whether the definition is exported.
    pub fn is_public(&self) -> (b: bool)
        ensures
            b <==> *self == DefVisibility::Public,
    {
        match self {
            DefVisibility::Public => true,
            DefVisibility::Private => false,
        }
    }
}

/// An item of a module, as it is kept apart by kind.
#[derive(Debug, Clone)]
pub enum HirModuleItem {
    Model(HirModel),
    Let(ExprId),
    Import(HirImport),
}

/// The scope `scope` with each of `names` bound to `def`, in order.
pub open spec fn bind_all(scope: Map<SymbolId, DefId>, names: Seq<SymbolId>, def: DefId) -> Map<SymbolId, DefId>
    decreases names.len(),
{
    if names.len() == 0 {
        scope
    } else {
        bind_all(scope, names.drop_last(), def).insert(names.last(), def)
    }
}

/// The scope after importing at `def`: the alias is bound, or with no
/// alias the last segment of the path, if there is one; then each exposed
/// name.
pub open spec fn import_scope(
    scope: Map<SymbolId, DefId>,
    alias: Option<SymbolId>,
    path: Seq<SymbolId>,
    exposed: Seq<SymbolId>,
    def: DefId,
) -> Map<SymbolId, DefId> {
    let first = match alias {
        Some(a) => scope.insert(a, def),
        None => if path.len() > 0 {
            scope.insert(path.last(), def)
        } else {
            scope
        },
    };
    bind_all(first, exposed, def)
}

proof fn lemma_bind_all(scope: Map<SymbolId, DefId>, names: Seq<SymbolId>, def: DefId, name: SymbolId)
    ensures
        names.contains(name) ==> bind_all(scope, names, def).dom().contains(name) && bind_all(scope, names, def)[name] == def,
        !names.contains(name) ==> bind_all(scope, names, def).dom().contains(name) == scope.dom().contains(name)
            && (scope.dom().contains(name) ==> bind_all(scope, names, def)[name] == scope[name]),
    decreases names.len(),
{
    if names.len() > 0 {
        lemma_bind_all(scope, names.drop_last(), def, name);
        if name != names.last() {
            if names.contains(name) {
                let k = choose|k: int| 0 <= k < names.len() && names[k] == name;
                assert(names.drop_last()[k] == name);
            } else {
                assert forall|k: int| 0 <= k < names.drop_last().len() implies names.drop_last()[k] != name by {
                    assert(names.drop_last()[k] == names[k]);
                }
            }
        }
    }
}

/// An import binds each name it exposes, and its alias (or the last segment
/// of its path), to its definition; every other name keeps what it had.
pub proof fn law_import_binds_its_names(
    scope: Map<SymbolId, DefId>,
    alias: Option<SymbolId>,
    path: Seq<SymbolId>,
    exposed: Seq<SymbolId>,
    def: DefId,
    name: SymbolId,
)
    ensures
        exposed.contains(name) ==> import_scope(scope, alias, path, exposed, def)[name] == def,
        alias == Some(name) ==> import_scope(scope, alias, path, exposed, def)[name] == def,
        (alias is None && path.len() > 0 && path.last() == name) ==> import_scope(scope, alias, path, exposed, def)[name]
            == def,
        (!exposed.contains(name) && alias != Some(name) && !(alias is None && path.len() > 0 && path.last() == name))
            ==> import_scope(scope, alias, path, exposed, def).dom().contains(name) == scope.dom().contains(name),
        (!exposed.contains(name) && alias != Some(name) && !(alias is None && path.len() > 0 && path.last() == name)
            && scope.dom().contains(name)) ==> import_scope(scope, alias, path, exposed, def)[name] == scope[name],
{
    let first = match alias {
        Some(a) => scope.insert(a, def),
        None => if path.len() > 0 {
            scope.insert(path.last(), def)
        } else {
            scope
        },
    };
    lemma_bind_all(first, exposed, def, name);
}

/// A module: its identifier and name, the scope of its global names, its
/// items in order of definition, the statements of its body, and the
/// definitions it exports.
#[derive(Debug)]
pub struct HirModule {
    pub id: ModuleId,
    pub name: SymbolId,
    pub scope: SymbolTable<DefId>,
    pub items: Vec<HirItem>,
    pub body: Vec<StmtId>,
    pub exports: Vec<DefId>,
}

impl HirModule {
    /// The module `id` named `name`, with nothing in it.
    pub fn new(id: ModuleId, name: SymbolId) -> (m: HirModule)
        ensures
            m.id == id,
            m.name == name,
            m.scope@ == Map::<SymbolId, DefId>::empty(),
            m.items@ == Seq::<HirItem>::empty(),
            m.body@ == Seq::<StmtId>::empty(),
            m.exports@ == Seq::<DefId>::empty(),
    {
        HirModule {
            id,
            name,
            scope: SymbolTable::new(),
            items: Vec::new(),
            exports: Vec::new(),
            body: Vec::new(),
        }
    }

    /// Defines `item` as the next item, binds `name` to it, and exports it
    /// if it is public; gives the new definition.
    pub fn define_global(&mut self, name: SymbolId, item: HirItem, visibility: DefVisibility) -> (d: DefId)
        requires
            old(self).items@.len() <= u32::MAX,
        ensures
            d == (DefId { module: old(self).id, index: old(self).items@.len() as u32 }),
            final(self).items@ == old(self).items@.push(item),
            final(self).scope@ == old(self).scope@.insert(name, d),
            final(self).exports@ == (if visibility == DefVisibility::Public {
                old(self).exports@.push(d)
            } else {
                old(self).exports@
            }),
            final(self).body@ == old(self).body@,
            final(self).id == old(self).id,
            final(self).name == old(self).name,
    {
        let index = self.items.len() as u32;
        let def_id = DefId::new(self.id, index);
        self.items.push(item);
        self.scope.insert(name, def_id);
        if visibility.is_public() {
            self.exports.push(def_id);
        }
        def_id
    }

    /// Defines `import` as the next item, and binds to it its alias (or,
    /// with none, the last segment of its path) and the names it exposes.
    pub fn define_import(&mut self, import: HirImport)
        requires
            old(self).items@.len() <= u32::MAX,
        ensures
            final(self).items@ == old(self).items@.push(HirItem::Import(import)),
            final(self).scope@ == import_scope(
                old(self).scope@,
                import.alias,
                import.path@,
                import.exposed@,
                DefId { module: old(self).id, index: old(self).items@.len() as u32 },
            ),
            final(self).exports@ == old(self).exports@,
            final(self).body@ == old(self).body@,
            final(self).id == old(self).id,
            final(self).name == old(self).name,
    {
        let index = self.items.len() as u32;
        let def_id = DefId::new(self.id, index);
        match import.alias {
            Some(alias) => {
                self.scope.insert(alias, def_id);
            },
            None => {
                let n = import.path.len();
                if n > 0 {
                    self.scope.insert(import.path[n - 1], def_id);
                }
            },
        }
        let ghost first = self.scope@;
        let mut k: usize = 0;
        proof {
            assert(import.exposed@.take(0) =~= Seq::<SymbolId>::empty());
        }
        while k < import.exposed.len()
            invariant
                k <= import.exposed@.len(),
                self.scope@ == bind_all(first, import.exposed@.take(k as int), def_id),
                self.items@ == old(self).items@,
                self.exports@ == old(self).exports@,
                self.body@ == old(self).body@,
                self.id == old(self).id,
                self.name == old(self).name,
            decreases import.exposed@.len() - k,
        {
            self.scope.insert(import.exposed[k], def_id);
            proof {
                assert(import.exposed@.take(k + 1).drop_last() =~= import.exposed@.take(k as int));
            }
            k = k + 1;
        }
        proof {
            assert(import.exposed@.take(k as int) =~= import.exposed@);
        }
        self.items.push(HirItem::Import(import));
    }

    /// Adds `stmt` at the end of the module's body.
    pub fn push_body_statement(&mut self, stmt: StmtId)
        ensures
            final(self).body@ == old(self).body@.push(stmt),
            final(self).items@ == old(self).items@,
            final(self).scope@ == old(self).scope@,
            final(self).exports@ == old(self).exports@,
            final(self).id == old(self).id,
            final(self).name == old(self).name,
    {
        self.body.push(stmt);
    }
}

} // verus!
