//! Name resolution: nested scopes of locals over the globals of a module.
use vstd::prelude::*;

use crate::hir::expression::LocalId;
use crate::hir::globals::{DefId, GlobalScope};
use crate::hir::table::SymbolTable;
use crate::interner::SymbolId;
use crate::module::ModuleId;

verus! {

/// The local that `name` resolves to in nested scopes, innermost last: the
/// binding of the innermost scope that binds it.
pub open spec fn lookup_local(scopes: Seq<Map<SymbolId, LocalId>>, name: SymbolId) -> Option<LocalId>
    decreases scopes.len(),
{
    if scopes.len() == 0 {
        None
    } else if scopes.last().dom().contains(name) {
        Some(scopes.last()[name])
    } else {
        lookup_local(scopes.drop_last(), name)
    }
}

/// The scopes after binding `name` to `id` in the innermost one; with no
/// scope open, nothing is bound.
pub open spec fn bind_local(scopes: Seq<Map<SymbolId, LocalId>>, name: SymbolId, id: LocalId) -> Seq<
    Map<SymbolId, LocalId>,
> {
    if scopes.len() == 0 {
        scopes
    } else {
        scopes.update(scopes.len() - 1, scopes.last().insert(name, id))
    }
}

/// The scopes after the innermost one is closed; with none open, nothing
/// changes.
pub open spec fn close_scope(scopes: Seq<Map<SymbolId, LocalId>>) -> Seq<Map<SymbolId, LocalId>> {
    if scopes.len() == 0 {
        scopes
    } else {
        scopes.drop_last()
    }
}

/// A local declared while a scope is open resolves to the number it was
/// given, whatever outer scopes bind the same name.
pub proof fn law_declared_local_resolves(scopes: Seq<Map<SymbolId, LocalId>>, name: SymbolId, id: LocalId)
    requires
        scopes.len() > 0,
    ensures
        lookup_local(bind_local(scopes, name, id), name) == Some(id),
{
    let b = bind_local(scopes, name, id);
    assert(b.last() == scopes.last().insert(name, id));
}

/// Declaring a local leaves every other name resolving as before.
pub proof fn law_declare_keeps_other_names(
    scopes: Seq<Map<SymbolId, LocalId>>,
    name: SymbolId,
    id: LocalId,
    other: SymbolId,
)
    requires
        other != name,
    ensures
        lookup_local(bind_local(scopes, name, id), other) == lookup_local(scopes, other),
{
    if scopes.len() > 0 {
        let b = bind_local(scopes, name, id);
        assert(b.drop_last() =~= scopes.drop_last());
        assert(b.last().dom().contains(other) == scopes.last().dom().contains(other));
    }
}

/// Closing a scope undoes its opening: whatever was declared in it, every
/// name resolves as it did before the scope was opened.
pub proof fn law_closed_scope_forgotten(
    scopes: Seq<Map<SymbolId, LocalId>>,
    inner: Map<SymbolId, LocalId>,
    name: SymbolId,
)
    ensures
        close_scope(scopes.push(inner)) == scopes,
        lookup_local(close_scope(scopes.push(inner)), name) == lookup_local(scopes, name),
{
    assert(scopes.push(inner).drop_last() =~= scopes);
}

/// The scopes after declaring each of `binds` in turn, name and number.
pub open spec fn bind_locals(scopes: Seq<Map<SymbolId, LocalId>>, binds: Seq<(SymbolId, LocalId)>) -> Seq<
    Map<SymbolId, LocalId>,
>
    decreases binds.len(),
{
    if binds.len() == 0 {
        scopes
    } else {
        bind_local(bind_locals(scopes, binds.drop_last()), binds.last().0, binds.last().1)
    }
}

proof fn lemma_bind_locals_inner(
    scopes: Seq<Map<SymbolId, LocalId>>,
    inner: Map<SymbolId, LocalId>,
    binds: Seq<(SymbolId, LocalId)>,
)
    ensures
        bind_locals(scopes.push(inner), binds).len() == scopes.len() + 1,
        bind_locals(scopes.push(inner), binds).drop_last() == scopes,
    decreases binds.len(),
{
    if binds.len() == 0 {
        assert(scopes.push(inner).drop_last() =~= scopes);
    } else {
        lemma_bind_locals_inner(scopes, inner, binds.drop_last());
        let prev = bind_locals(scopes.push(inner), binds.drop_last());
        let cur = bind_local(prev, binds.last().0, binds.last().1);
        assert(cur.drop_last() =~= prev.drop_last());
    }
}

/// Opening a scope, declaring any locals in it, and closing it leaves every
/// name resolving as it did before the scope was opened: the locals vanish
/// and the outer bindings they shadowed are seen again.
pub proof fn law_declares_vanish_with_their_scope(
    scopes: Seq<Map<SymbolId, LocalId>>,
    binds: Seq<(SymbolId, LocalId)>,
    name: SymbolId,
)
    ensures
        close_scope(bind_locals(scopes.push(Map::<SymbolId, LocalId>::empty()), binds)) == scopes,
        lookup_local(close_scope(bind_locals(scopes.push(Map::<SymbolId, LocalId>::empty()), binds)), name)
            == lookup_local(scopes, name),
{
    lemma_bind_locals_inner(scopes, Map::<SymbolId, LocalId>::empty(), binds);
}

/// A name resolves to its binding in the innermost scope that binds it: if
/// scope `k` binds `name` and no scope after it does, the name resolves to
/// scope `k`'s binding, however many scopes lie before or after it.
pub proof fn law_innermost_binding_wins(scopes: Seq<Map<SymbolId, LocalId>>, name: SymbolId, k: int)
    requires
        0 <= k < scopes.len(),
        scopes[k].dom().contains(name),
        forall|j: int| k < j < scopes.len() ==> !(#[trigger] scopes[j]).dom().contains(name),
    ensures
        lookup_local(scopes, name) == Some(scopes[k][name]),
    decreases scopes.len(),
{
    if k < scopes.len() - 1 {
        assert(!scopes[scopes.len() - 1].dom().contains(name));
        let d = scopes.drop_last();
        assert forall|j: int| k < j < d.len() implies !(#[trigger] d[j]).dom().contains(name) by {
            assert(d[j] == scopes[j]);
        }
        law_innermost_binding_wins(d, name, k);
        assert(d[k] == scopes[k]);
    }
}

/// A name that no open scope binds resolves to nothing.
pub proof fn law_unbound_name_resolves_to_nothing(scopes: Seq<Map<SymbolId, LocalId>>, name: SymbolId)
    requires
        forall|j: int| 0 <= j < scopes.len() ==> !(#[trigger] scopes[j]).dom().contains(name),
    ensures
        lookup_local(scopes, name) is None,
    decreases scopes.len(),
{
    if scopes.len() > 0 {
        let d = scopes.drop_last();
        assert(!scopes[scopes.len() - 1].dom().contains(name));
        assert forall|j: int| 0 <= j < d.len() implies !(#[trigger] d[j]).dom().contains(name) by {
            assert(d[j] == scopes[j]);
        }
        law_unbound_name_resolves_to_nothing(d, name);
    }
}

/// Opening a scope hides nothing: a name that the new inner scope does not
/// bind resolves as it did in the enclosing scopes.
pub proof fn law_inner_scope_hides_nothing(
    scopes: Seq<Map<SymbolId, LocalId>>,
    inner: Map<SymbolId, LocalId>,
    name: SymbolId,
)
    requires
        !inner.dom().contains(name),
    ensures
        lookup_local(scopes.push(inner), name) == lookup_local(scopes, name),
{
    let s = scopes.push(inner);
    assert(s.drop_last() =~= scopes);
    assert(s.last() == inner);
}

/// Resolves names while a module is lowered: locals in nested scopes, and
/// the globals of the module, those declared during lowering first.
#[derive(Debug)]
pub struct Resolver<'a> {
    next_id: u32,
    scopes: Vec<SymbolTable<LocalId>>,
    globals: &'a GlobalScope,
    pending_globals: SymbolTable<DefId>,
    module_id: ModuleId,
    global_index: u32,
}

impl<'a> Resolver<'a> {
    /// The open scopes, innermost last.
    pub closed spec fn scopes_spec(&self) -> Seq<Map<SymbolId, LocalId>> {
        self.scopes@.map_values(|t: SymbolTable<LocalId>| t@)
    }

    /// The number the next local gets.
    pub closed spec fn next_id_spec(&self) -> u32 {
        self.next_id
    }

    /// The globals declared during lowering.
    pub closed spec fn pending_spec(&self) -> Map<SymbolId, DefId> {
        self.pending_globals@
    }

    /// The position the next declared global gets.
    pub closed spec fn global_index_spec(&self) -> u32 {
        self.global_index
    }

    /// The module whose globals are declared.
    pub closed spec fn module_spec(&self) -> ModuleId {
        self.module_id
    }

    /// The globals known before lowering.
    pub closed spec fn globals_spec(&self) -> Map<SymbolId, DefId> {
        self.globals@
    }

    /// A resolver with no scope open and no global declared, over `globals`.
    pub fn new(globals: &'a GlobalScope) -> (r: Resolver<'a>)
        ensures
            r.scopes_spec() == Seq::<Map<SymbolId, LocalId>>::empty(),
            r.next_id_spec() == 0,
            r.pending_spec() == Map::<SymbolId, DefId>::empty(),
            r.global_index_spec() == 0,
            r.module_spec() == ModuleId(0),
            r.globals_spec() == globals@,
    {
        let r = Resolver {
            next_id: 0,
            scopes: Vec::new(),
            globals,
            pending_globals: SymbolTable::new(),
            module_id: ModuleId::new(0),
            global_index: 0,
        };
        assert(r.scopes_spec() =~= Seq::<Map<SymbolId, LocalId>>::empty());
        r
    }

    /// Declares the global `symbol` as the next definition of the module.
    pub fn declare_global(&mut self, symbol: SymbolId)
        requires
            old(self).global_index_spec() < u32::MAX,
        ensures
            final(self).pending_spec() == old(self).pending_spec().insert(
                symbol,
                DefId { module: old(self).module_spec(), index: old(self).global_index_spec() },
            ),
            final(self).global_index_spec() == old(self).global_index_spec() + 1,
            final(self).scopes_spec() == old(self).scopes_spec(),
            final(self).next_id_spec() == old(self).next_id_spec(),
            final(self).module_spec() == old(self).module_spec(),
            final(self).globals_spec() == old(self).globals_spec(),
    {
        let def_id = DefId::new(self.module_id, self.global_index);
        self.pending_globals.insert(symbol, def_id);
        self.global_index = self.global_index + 1;
    }

    /// Opens a new, empty, innermost scope.
    pub fn begin_scope(&mut self)
        ensures
            final(self).scopes_spec() == old(self).scopes_spec().push(Map::<SymbolId, LocalId>::empty()),
            final(self).next_id_spec() == old(self).next_id_spec(),
            final(self).pending_spec() == old(self).pending_spec(),
            final(self).global_index_spec() == old(self).global_index_spec(),
            final(self).module_spec() == old(self).module_spec(),
            final(self).globals_spec() == old(self).globals_spec(),
    {
        self.scopes.push(SymbolTable::new());
        proof {
            assert(self.scopes_spec() =~= old(self).scopes_spec().push(Map::<SymbolId, LocalId>::empty()));
        }
    }

    /// Closes the innermost scope, if one is open.
    pub fn end_scope(&mut self)
        ensures
            final(self).scopes_spec() == close_scope(old(self).scopes_spec()),
            final(self).next_id_spec() == old(self).next_id_spec(),
            final(self).pending_spec() == old(self).pending_spec(),
            final(self).global_index_spec() == old(self).global_index_spec(),
            final(self).module_spec() == old(self).module_spec(),
            final(self).globals_spec() == old(self).globals_spec(),
    {
        let _ = self.scopes.pop();
        proof {
            assert(self.scopes_spec() =~= close_scope(old(self).scopes_spec()));
        }
    }

    /// Declares the local `symbol` in the innermost scope, under a fresh
    /// number, and returns it. With no scope open the number is still used,
    /// but nothing is bound.
    pub fn declare(&mut self, symbol: SymbolId) -> (id: LocalId)
        requires
            old(self).next_id_spec() < u32::MAX,
        ensures
            id == LocalId(old(self).next_id_spec()),
            final(self).next_id_spec() == old(self).next_id_spec() + 1,
            final(self).scopes_spec() == bind_local(old(self).scopes_spec(), symbol, id),
            final(self).pending_spec() == old(self).pending_spec(),
            final(self).global_index_spec() == old(self).global_index_spec(),
            final(self).module_spec() == old(self).module_spec(),
            final(self).globals_spec() == old(self).globals_spec(),
    {
        let id = LocalId(self.next_id);
        self.next_id = self.next_id + 1;
        let n = self.scopes.len();
        if n > 0 {
            let mut scope = self.scopes.pop().unwrap();
            scope.insert(symbol, id);
            self.scopes.push(scope);
            proof {
                assert(self.scopes_spec() =~= bind_local(old(self).scopes_spec(), symbol, id));
            }
        }
        id
    }

    /// The definition that the global `name` stands for: one declared
    /// during lowering first, else one known before.
    pub fn resolve_global(&self, name: &SymbolId) -> (r: Option<DefId>)
        ensures
            r == (if self.pending_spec().dom().contains(*name) {
                Some(self.pending_spec()[*name])
            } else if self.globals_spec().dom().contains(*name) {
                Some(self.globals_spec()[*name])
            } else {
                None::<DefId>
            }),
    {
        if let Some(def_id) = self.pending_globals.get(*name) {
            return Some(def_id);
        }
        self.globals.resolve(name)
    }

    /// The local that `name` stands for in the open scopes, the innermost
    /// binding first.
    pub fn resolve_local(&self, name: &SymbolId) -> (r: Option<LocalId>)
        ensures
            r == lookup_local(self.scopes_spec(), *name),
    {
        let mut i: usize = self.scopes.len();
        proof {
            assert(self.scopes_spec().take(i as int) =~= self.scopes_spec());
        }
        while i > 0
            invariant
                i <= self.scopes@.len(),
                self.scopes_spec().len() == self.scopes@.len(),
                lookup_local(self.scopes_spec(), *name) == lookup_local(self.scopes_spec().take(i as int), *name),
            decreases i,
        {
            let found = self.scopes[i - 1].get(*name);
            proof {
                let t = self.scopes_spec().take(i as int);
                assert(t.last() == self.scopes@[i - 1]@);
                assert(t.drop_last() =~= self.scopes_spec().take(i - 1));
            }
            if let Some(id) = found {
                return Some(id);
            }
            i = i - 1;
        }
        proof {
            assert(self.scopes_spec().take(0) =~= Seq::<Map<SymbolId, LocalId>>::empty());
        }
        None
    }
}

} // verus!
