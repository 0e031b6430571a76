use iris::hir::expression::{ExprId, Resolution};
use iris::hir::globals::DefId;
use iris::hir::item::{HirImport, HirItem, HirMethod, HirModel};
use iris::hir::module::{DefVisibility, HirModule};
use iris::hir::statement::StmtId;
use iris::interner::SymbolId;
use iris::lowering::module::gen_hir_module;
use iris::module::ModuleId;

fn def(m: u32, i: u32) -> DefId {
    DefId::new(ModuleId::new(m), i)
}

#[test]
fn define_global_numbers_and_exports() {
    let mut m = HirModule::new(ModuleId::new(4), SymbolId(9));
    let a = m.define_global(SymbolId(1), HirItem::Error, DefVisibility::Public);
    let b = m.define_global(SymbolId(2), HirItem::Stmt(StmtId(0)), DefVisibility::Private);
    assert_eq!(a, def(4, 0));
    assert_eq!(b, def(4, 1));
    assert_eq!(m.items.len(), 2);
    assert_eq!(m.exports, vec![def(4, 0)]);
    assert_eq!(m.scope.get(SymbolId(1)), Some(def(4, 0)));
    assert_eq!(m.scope.get(SymbolId(2)), Some(def(4, 1)));
    m.push_body_statement(StmtId(3));
    assert_eq!(m.body, vec![StmtId(3)]);
}

#[test]
fn define_import_binds_alias_or_last_segment() {
    let mut m = HirModule::new(ModuleId::new(1), SymbolId(0));
    m.define_import(HirImport { path: vec![SymbolId(10), SymbolId(11)], alias: Some(SymbolId(12)), exposed: vec![SymbolId(13)] });
    assert_eq!(m.scope.get(SymbolId(12)), Some(def(1, 0)));
    assert_eq!(m.scope.get(SymbolId(11)), None);
    assert_eq!(m.scope.get(SymbolId(13)), Some(def(1, 0)));
    m.define_import(HirImport { path: vec![SymbolId(20), SymbolId(21)], alias: None, exposed: vec![SymbolId(22), SymbolId(23)] });
    assert_eq!(m.scope.get(SymbolId(21)), Some(def(1, 1)));
    assert_eq!(m.scope.get(SymbolId(20)), None);
    assert_eq!(m.scope.get(SymbolId(23)), Some(def(1, 1)));
    m.define_import(HirImport { path: vec![], alias: None, exposed: vec![] });
    assert_eq!(m.items.len(), 3);
    assert!(matches!(m.items[2], HirItem::Import(_)));
    assert!(m.exports.is_empty());
}

#[test]
fn module_of_globals_models_and_statements() {
    let globals = vec![(SymbolId(1), ExprId(5)), (SymbolId(2), ExprId(6))];
    let model = HirModel {
        name: SymbolId(3),
        fields: vec![SymbolId(4)],
        methods: vec![HirMethod { name: SymbolId(7), params: vec![], body: vec![StmtId(1)] }],
    };
    let items = vec![HirItem::Stmt(StmtId(8)), HirItem::Error, HirItem::Stmt(StmtId(9))];
    let m = gen_hir_module(ModuleId::new(2), SymbolId(0), &globals, vec![(SymbolId(3), model)], &items);
    assert_eq!(m.id, ModuleId::new(2));
    assert_eq!(m.name, SymbolId(0));
    assert_eq!(m.items.len(), 3);
    match &m.items[1] {
        HirItem::Let { name, resolution, initializer } => {
            assert_eq!(*name, SymbolId(2));
            assert_eq!(*resolution, Resolution::Global(def(2, 1)));
            assert_eq!(*initializer, ExprId(6));
        }
        _ => panic!("expected a global binding"),
    }
    match &m.items[2] {
        HirItem::Model(md) => assert_eq!(md.name, SymbolId(3)),
        _ => panic!("expected a model"),
    }
    assert_eq!(m.scope.get(SymbolId(3)), Some(def(2, 2)));
    assert_eq!(m.exports, vec![def(2, 0), def(2, 1), def(2, 2)]);
    assert_eq!(m.body, vec![StmtId(8), StmtId(9)]);
}
