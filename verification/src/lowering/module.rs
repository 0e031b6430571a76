//! The module that a lowered file makes: its globals, its models and its
//! body.
use vstd::prelude::*;

use crate::hir::expression::{ExprId, Resolution};
use crate::hir::globals::DefId;
use crate::hir::item::{HirItem, HirModel};
use crate::hir::module::{DefVisibility, HirModule};
use crate::hir::statement::StmtId;
use crate::interner::SymbolId;
use crate::module::ModuleId;

verus! {

/// The scope in which the `k`-th of `names` stands for the definition at
/// position `k` of `module`; a later name replaces an earlier equal one.
pub open spec fn positional_scope(module: ModuleId, names: Seq<SymbolId>) -> Map<SymbolId, DefId>
    decreases names.len(),
{
    if names.len() == 0 {
        Map::empty()
    } else {
        positional_scope(module, names.drop_last()).insert(
            names.last(),
            DefId { module, index: (names.len() - 1) as u32 },
        )
    }
}

/// The definitions at positions `0` to `n - 1` of `module`, in order.
pub open spec fn positional_defs(module: ModuleId, n: nat) -> Seq<DefId> {
    Seq::new(n, |k: int| DefId { module, index: k as u32 })
}

/// The statements among `items`, in order.
pub open spec fn body_statements(items: Seq<HirItem>) -> Seq<StmtId>
    decreases items.len(),
{
    if items.len() == 0 {
        Seq::empty()
    } else {
        body_statements(items.drop_last()) + match items.last() {
            HirItem::Stmt(s) => seq![s],
            _ => Seq::empty(),
        }
    }
}

/// The global binding that the `k`-th global of `module` becomes.
pub open spec fn global_item(module: ModuleId, k: int, global: (SymbolId, ExprId)) -> HirItem {
    HirItem::Let {
        name: global.0,
        resolution: Resolution::Global(DefId { module, index: k as u32 }),
        initializer: global.1,
    }
}

/// The module `module_id` named `name`: first the global bindings, each
/// bound to its position and exported, then the models, likewise; its body
/// is the statements among `items`, in order.
pub fn gen_hir_module(
    module_id: ModuleId,
    name: SymbolId,
    globals: &Vec<(SymbolId, ExprId)>,
    models: Vec<(SymbolId, HirModel)>,
    items: &Vec<HirItem>,
) -> (m: HirModule)
    requires
        globals@.len() + models@.len() <= u32::MAX,
    ensures
        m.id == module_id,
        m.name == name,
        m.items@.len() == globals@.len() + models@.len(),
        forall|k: int| 0 <= k < globals@.len() ==> #[trigger] m.items@[k] == global_item(module_id, k, globals@[k]),
        forall|j: int|
            0 <= j < models@.len() ==> #[trigger] m.items@[globals@.len() + j] == HirItem::Model(models@[j].1),
        m.scope@ == positional_scope(
            module_id,
            globals@.map_values(|g: (SymbolId, ExprId)| g.0) + models@.map_values(|p: (SymbolId, HirModel)| p.0),
        ),
        m.exports@ == positional_defs(module_id, (globals@.len() + models@.len()) as nat),
        m.body@ == body_statements(items@),
{
    let ghost names = globals@.map_values(|g: (SymbolId, ExprId)| g.0) + models@.map_values(
        |p: (SymbolId, HirModel)| p.0,
    );
    let ghost g = globals@.len();
    let mut module = HirModule::new(module_id, name);
    let mut k: usize = 0;
    proof {
        assert(names.take(0) =~= Seq::<SymbolId>::empty());
        assert(positional_defs(module_id, 0) =~= Seq::<DefId>::empty());
    }
    while k < globals.len()
        invariant
            g == globals@.len(),
            g + models@.len() <= u32::MAX,
            names == globals@.map_values(|g: (SymbolId, ExprId)| g.0) + models@.map_values(
                |p: (SymbolId, HirModel)| p.0,
            ),
            k <= g,
            module.id == module_id,
            module.name == name,
            module.items@.len() == k,
            forall|i: int| 0 <= i < k ==> #[trigger] module.items@[i] == global_item(module_id, i, globals@[i]),
            module.scope@ == positional_scope(module_id, names.take(k as int)),
            module.exports@ == positional_defs(module_id, k as nat),
            module.body@ == Seq::<StmtId>::empty(),
        decreases g - k,
    {
        let (symbol, expr_id) = globals[k];
        let def_id = DefId::new(module_id, module.items.len() as u32);
        let item = HirItem::Let { name: symbol, resolution: Resolution::Global(def_id), initializer: expr_id };
        let ghost before = module.items@;
        module.define_global(symbol, item, DefVisibility::Public);
        proof {
            assert(names[k as int] == symbol);
            assert(names.take(k + 1).drop_last() =~= names.take(k as int));
            assert(module.exports@ =~= positional_defs(module_id, (k + 1) as nat));
            assert forall|i: int| 0 <= i < k + 1 implies #[trigger] module.items@[i] == global_item(
                module_id,
                i,
                globals@[i],
            ) by {
                if i < k {
                    assert(module.items@[i] == before[i]);
                }
            }
        }
        k = k + 1;
    }
    let mut rest = models;
    let ghost all_models = rest@;
    let mut j: usize = 0;
    while rest.len() > 0
        invariant
            g == globals@.len(),
            g + all_models.len() <= u32::MAX,
            names == globals@.map_values(|g: (SymbolId, ExprId)| g.0) + all_models.map_values(
                |p: (SymbolId, HirModel)| p.0,
            ),
            j <= all_models.len(),
            rest@ == all_models.skip(j as int),
            all_models == models@,
            module.id == module_id,
            module.name == name,
            module.items@.len() == g + j,
            forall|i: int| 0 <= i < g ==> #[trigger] module.items@[i] == global_item(module_id, i, globals@[i]),
            forall|i: int|
                0 <= i < j ==> #[trigger] module.items@[g + i] == HirItem::Model(all_models[i].1),
            module.scope@ == positional_scope(module_id, names.take(g + j)),
            module.exports@ == positional_defs(module_id, (g + j) as nat),
            module.body@ == Seq::<StmtId>::empty(),
        decreases rest@.len(),
    {
        let (id, model) = rest.remove(0);
        proof {
            assert(all_models[j as int] == (id, model));
            assert(names[g + j] == id);
            assert(names.take(g + j + 1).drop_last() =~= names.take(g + j));
            assert(rest@ =~= all_models.skip(j + 1));
        }
        let ghost before = module.items@;
        module.define_global(id, HirItem::Model(model), DefVisibility::Public);
        proof {
            assert(module.exports@ =~= positional_defs(module_id, (g + j + 1) as nat));
            assert forall|i: int| 0 <= i < g implies #[trigger] module.items@[i] == global_item(
                module_id,
                i,
                globals@[i],
            ) by {
                assert(module.items@[i] == before[i]);
            }
            assert forall|i: int| 0 <= i < j + 1 implies #[trigger] module.items@[g + i] == HirItem::Model(
                all_models[i].1,
            ) by {
                if i < j {
                    assert(module.items@[g + i] == before[g + i]);
                }
            }
        }
        j = j + 1;
    }
    proof {
        assert(names.take(g + j) =~= names);
    }
    let ghost items_done = module.items@;
    let ghost scope_done = module.scope@;
    let ghost exports_done = module.exports@;
    let mut i: usize = 0;
    proof {
        assert(items@.take(0) =~= Seq::<HirItem>::empty());
    }
    while i < items.len()
        invariant
            i <= items@.len(),
            module.body@ == body_statements(items@.take(i as int)),
            module.id == module_id,
            module.name == name,
            module.items@ == items_done,
            module.scope@ == scope_done,
            module.exports@ == exports_done,
        decreases items@.len() - i,
    {
        proof {
            assert(items@.take(i + 1).drop_last() =~= items@.take(i as int));
        }
        match &items[i] {
            HirItem::Stmt(stmt) => {
                module.push_body_statement(*stmt);
            },
            _ => {},
        }
        i = i + 1;
    }
    proof {
        assert(items@.take(i as int) =~= items@);
    }
    module
}

} // verus!
