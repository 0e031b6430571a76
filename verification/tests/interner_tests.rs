use iris::interner::{SymbolId, SymbolInterner};

#[test]
fn interning_gives_positions() {
    let mut i = SymbolInterner::new();
    let a = i.intern("alpha");
    let b = i.intern("beta");
    assert_eq!(a, SymbolId(0));
    assert_eq!(b, SymbolId(1));
}

#[test]
fn interning_twice_gives_the_same_id() {
    let mut i = SymbolInterner::new();
    let a = i.intern("x");
    let _ = i.intern("y");
    let a2 = i.intern("x");
    assert_eq!(a, a2);
    assert_eq!(i.intern("y"), SymbolId(1));
}

#[test]
fn resolve_gives_back_the_name() {
    let mut i = SymbolInterner::new();
    let a = i.intern("data");
    let b = i.intern("");
    assert_eq!(i.resolve(a), "data");
    assert_eq!(i.resolve(b), "");
}
