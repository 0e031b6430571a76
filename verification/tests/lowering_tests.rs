use iris::ast::item::{ImportDef, ItemKind, TypeDef};
use iris::ast::statement::StmtKind;
use iris::ast::expression::{ExprKind, Literal};
use iris::ast::{Ast, Spanned};
use iris::hir::expression::LocalId;
use iris::hir::globals::{DefId, GlobalScope};
use iris::hir::module::DefVisibility;
use iris::hir::table::SymbolTable;
use iris::interner::{SymbolId, SymbolInterner};
use iris::lowering::globals::globals_of;
use iris::lowering::resolver::Resolver;
use iris::module::ModuleId;
use iris::span::Span;

fn sp<T>(node: T) -> Spanned<T> {
    Spanned::new(node, Span::new(0, 1))
}

#[test]
fn declared_local_resolves_in_scope() {
    let globals = GlobalScope::new();
    let mut r = Resolver::new(&globals);
    r.begin_scope();
    let x = r.declare(SymbolId(3));
    assert_eq!(x, LocalId(0));
    assert_eq!(r.resolve_local(&SymbolId(3)), Some(LocalId(0)));
    assert_eq!(r.resolve_local(&SymbolId(4)), None);
}

#[test]
fn inner_scope_shadows_and_closing_restores() {
    let globals = GlobalScope::new();
    let mut r = Resolver::new(&globals);
    r.begin_scope();
    let outer = r.declare(SymbolId(1));
    r.begin_scope();
    let inner = r.declare(SymbolId(1));
    let only_inner = r.declare(SymbolId(2));
    assert_ne!(outer, inner);
    assert_eq!(r.resolve_local(&SymbolId(1)), Some(inner));
    assert_eq!(r.resolve_local(&SymbolId(2)), Some(only_inner));
    r.end_scope();
    assert_eq!(r.resolve_local(&SymbolId(1)), Some(outer));
    assert_eq!(r.resolve_local(&SymbolId(2)), None);
}

#[test]
fn declaring_without_scope_binds_nothing() {
    let globals = GlobalScope::new();
    let mut r = Resolver::new(&globals);
    let a = r.declare(SymbolId(1));
    let b = r.declare(SymbolId(1));
    assert_eq!(a, LocalId(0));
    assert_eq!(b, LocalId(1));
    assert_eq!(r.resolve_local(&SymbolId(1)), None);
    r.end_scope();
    assert_eq!(r.resolve_local(&SymbolId(1)), None);
}

#[test]
fn redeclaring_in_one_scope_replaces() {
    let globals = GlobalScope::new();
    let mut r = Resolver::new(&globals);
    r.begin_scope();
    let _ = r.declare(SymbolId(7));
    let second = r.declare(SymbolId(7));
    assert_eq!(r.resolve_local(&SymbolId(7)), Some(second));
}

#[test]
fn pending_globals_come_before_known_ones() {
    let mut globals = GlobalScope::new();
    globals.insert(SymbolId(1), DefId::new(ModuleId::new(9), 4));
    globals.insert(SymbolId(2), DefId::new(ModuleId::new(9), 5));
    let mut r = Resolver::new(&globals);
    assert_eq!(r.resolve_global(&SymbolId(1)), Some(DefId::new(ModuleId::new(9), 4)));
    r.declare_global(SymbolId(1));
    r.declare_global(SymbolId(3));
    assert_eq!(r.resolve_global(&SymbolId(1)), Some(DefId::new(ModuleId::new(0), 0)));
    assert_eq!(r.resolve_global(&SymbolId(3)), Some(DefId::new(ModuleId::new(0), 1)));
    assert_eq!(r.resolve_global(&SymbolId(2)), Some(DefId::new(ModuleId::new(9), 5)));
    assert_eq!(r.resolve_global(&SymbolId(8)), None);
}

#[test]
fn global_scope_and_table() {
    let mut g = GlobalScope::new();
    assert_eq!(g.resolve(&SymbolId(0)), None);
    g.insert(SymbolId(0), DefId::new(ModuleId::new(1), 2));
    g.insert(SymbolId(0), DefId::new(ModuleId::new(1), 3));
    assert_eq!(g.resolve(&SymbolId(0)), Some(DefId { module: ModuleId(1), index: 3 }));
    let mut t: SymbolTable<u32> = SymbolTable::new();
    t.insert(SymbolId(5), 50);
    t.insert(SymbolId(6), 60);
    assert_eq!(t.get(SymbolId(5)), Some(50));
    assert_eq!(t.get(SymbolId(6)), Some(60));
    assert_eq!(t.get(SymbolId(7)), None);
}

#[test]
fn visibility() {
    assert!(DefVisibility::Public.is_public());
    assert!(!DefVisibility::Private.is_public());
}

#[test]
fn globals_of_types_and_imports() {
    let items = vec![
        sp(ItemKind::Type(Box::new(TypeDef { name: sp("Point".to_string()), fields: vec![], generics: vec![] }))),
        sp(ItemKind::Stmt(Box::new(StmtKind::Expr(sp(ExprKind::Literal(Literal::Int(1))))))),
        sp(ItemKind::Import(Box::new(ImportDef {
            path: vec![sp("Iris".to_string()), sp("Data".to_string())],
            alias: Some(sp("df".to_string())),
            exposing: vec![sp("sum".to_string()), sp("Point".to_string())],
        }))),
    ];
    let ast = Ast::new(items);
    let mut interner = SymbolInterner::new();
    let pre = interner.intern("sum");
    let g = globals_of(ModuleId::new(3), &ast, &mut interner);
    let point = interner.intern("Point");
    let df = interner.intern("df");
    assert_eq!(pre, SymbolId(0));
    assert_eq!(point, SymbolId(1));
    assert_eq!(df, SymbolId(2));
    assert_eq!(interner.resolve(SymbolId(2)), "df");
    // `Point` is declared first, then exposed again by the import, which wins.
    assert_eq!(g.resolve(&point), Some(DefId::new(ModuleId::new(3), 3)));
    assert_eq!(g.resolve(&df), Some(DefId::new(ModuleId::new(3), 1)));
    assert_eq!(g.resolve(&pre), Some(DefId::new(ModuleId::new(3), 2)));
    assert_eq!(g.resolve(&SymbolId(9)), None);
}

#[test]
fn try_globals_of_within_bounds() {
    let items = vec![sp(ItemKind::Type(Box::new(TypeDef { name: sp("A".to_string()), fields: vec![], generics: vec![] })))];
    let ast = Ast::new(items);
    let mut interner = SymbolInterner::new();
    let g = iris::lowering::globals::try_globals_of(ModuleId::new(2), &ast, &mut interner).unwrap();
    assert_eq!(interner.len(), 1);
    assert_eq!(g.resolve(&SymbolId(0)), Some(DefId::new(ModuleId::new(2), 0)));
}
