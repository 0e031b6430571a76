//! The global names a module declares.
use vstd::prelude::*;

use crate::ast::item::ItemKind;
use crate::ast::{Ast, Item, Spanned};
use crate::hir::globals::{DefId, GlobalScope};
use crate::interner::{
    distinct_names, intern_spec, law_intern_known, lemma_intern_spec, SymbolId, SymbolInterner,
};
use crate::module::ModuleId;

verus! {

/// The global names a top-level item declares, in order: the name of a type
/// declaration; the alias of an import, then the names it exposes.
pub open spec fn item_globals(item: Item) -> Seq<Seq<char>> {
    match item.node {
        ItemKind::Type(t) => seq![t.name.node@],
        ItemKind::Import(i) => alias_names(i.alias) + i.exposing@.map_values(|e: Spanned<String>| e.node@),
        _ => Seq::empty(),
    }
}

/// The name an import alias declares, if there is one.
pub open spec fn alias_names(alias: Option<Spanned<String>>) -> Seq<Seq<char>> {
    match alias {
        Some(a) => seq![a.node@],
        None => Seq::empty(),
    }
}

/// The global names the items declare, in order.
pub open spec fn declared_globals(items: Seq<Item>) -> Seq<Seq<char>>
    decreases items.len(),
{
    if items.len() == 0 {
        Seq::empty()
    } else {
        declared_globals(items.drop_last()) + item_globals(items.last())
    }
}

/// The interned names after interning `texts` in order, starting from
/// `names`, and the identifiers the texts got.
pub open spec fn intern_all(names: Seq<Seq<char>>, texts: Seq<Seq<char>>) -> (Seq<Seq<char>>, Seq<int>)
    decreases texts.len(),
{
    if texts.len() == 0 {
        (names, Seq::empty())
    } else {
        let (n, ids) = intern_all(names, texts.drop_last());
        let (n2, id) = intern_spec(n, texts.last());
        (n2, ids.push(id))
    }
}

/// The scope in which the `k`-th name, interned as `ids[k]`, stands for the
/// definition at position `k` of `module`; a later name replaces an earlier
/// equal one.
pub open spec fn numbered_globals(module: ModuleId, ids: Seq<int>) -> Map<SymbolId, DefId>
    decreases ids.len(),
{
    if ids.len() == 0 {
        Map::empty()
    } else {
        numbered_globals(module, ids.drop_last()).insert(
            SymbolId(ids.last() as u32),
            DefId { module, index: (ids.len() - 1) as u32 },
        )
    }
}

proof fn lemma_intern_all_len(names: Seq<Seq<char>>, texts: Seq<Seq<char>>)
    ensures
        intern_all(names, texts).0.len() <= names.len() + texts.len(),
        intern_all(names, texts).1.len() == texts.len(),
    decreases texts.len(),
{
    if texts.len() > 0 {
        lemma_intern_all_len(names, texts.drop_last());
    }
}

proof fn lemma_declared_prefix(items: Seq<Item>, k: int, m: int)
    requires
        0 <= k <= m <= items.len(),
    ensures
        declared_globals(items.take(k)).len() <= declared_globals(items.take(m)).len(),
    decreases m - k,
{
    if k < m {
        lemma_declared_prefix(items, k, m - 1);
        assert(items.take(m).drop_last() =~= items.take(m - 1));
    }
}

/// Every type declaration declares its name as the next global, whatever
/// its fields and generic parameters: appending a type declaration to the
/// items appends exactly its name to the names they declare.
pub proof fn law_type_declares_its_name(items: Seq<Item>, item: Item)
    requires
        item.node matches ItemKind::Type(_),
    ensures
        item.node matches ItemKind::Type(t) ==> {
            &&& item_globals(item) == seq![t.name.node@]
            &&& declared_globals(items.push(item)) == declared_globals(items).push(t.name.node@)
        },
{
    assert(items.push(item).drop_last() =~= items);
    if let ItemKind::Type(t) = item.node {
        assert(declared_globals(items) + seq![t.name.node@] =~= declared_globals(items).push(t.name.node@));
    }
}

/// An import declares its alias, if any, then each name it exposes, in order,
/// whatever its path.
pub proof fn law_import_declares_alias_and_exposed(item: Item)
    requires
        item.node matches ItemKind::Import(_),
    ensures
        item.node matches ItemKind::Import(i) ==> {
            let n: int = if i.alias is Some { 1 } else { 0 };
            &&& item_globals(item).len() == n + i.exposing@.len()
            &&& (i.alias matches Some(a) ==> item_globals(item)[0] == a.node@)
            &&& forall|k: int| 0 <= k < i.exposing@.len() ==> item_globals(item)[n + k] == #[trigger] i.exposing@[k].node@
        },
{
}

/// Interning keeps what was interned: after any texts are interned, a text
/// interned earlier at position `id` still sits there, and interning it again
/// hands out `id` and adds nothing.
pub proof fn law_interned_text_keeps_its_id(
    names: Seq<Seq<char>>,
    texts: Seq<Seq<char>>,
    text: Seq<char>,
    id: int,
)
    requires
        distinct_names(names),
        0 <= id < names.len(),
        names[id] == text,
    ensures
        distinct_names(intern_all(names, texts).0),
        intern_all(names, texts).0.len() >= names.len(),
        intern_all(names, texts).0[id] == text,
        intern_spec(intern_all(names, texts).0, text) == (intern_all(names, texts).0, id),
    decreases texts.len(),
{
    if texts.len() > 0 {
        law_interned_text_keeps_its_id(names, texts.drop_last(), text, id);
        let n = intern_all(names, texts.drop_last()).0;
        lemma_intern_spec(n, texts.last());
    }
    law_intern_known(intern_all(names, texts).0, text, id);
}

/// Interns `text` as the next global name, at position `next_index`.
fn declare_next(
    module: ModuleId,
    text: &String,
    interner: &mut SymbolInterner,
    globals: &mut GlobalScope,
    next_index: u32,
    Ghost(start): Ghost<Seq<Seq<char>>>,
    Ghost(done): Ghost<Seq<Seq<char>>>,
    Ghost(total): Ghost<nat>,
)
    requires
        (old(interner)@, next_index as int) == (intern_all(start, done).0, intern_all(start, done).1.len() as int),
        old(globals)@ == numbered_globals(module, intern_all(start, done).1),
        done.len() < total,
        start.len() + total <= u32::MAX,
    ensures
        final(interner)@ == intern_all(start, done.push(text@)).0,
        final(globals)@ == numbered_globals(module, intern_all(start, done.push(text@)).1),
{
    proof {
        lemma_intern_all_len(start, done);
        assert(done.push(text@).drop_last() =~= done);
    }
    let id = interner.intern(text.as_str());
    globals.insert(id, DefId::new(module, next_index));
    proof {
        let ids = intern_all(start, done.push(text@)).1;
        assert(ids.drop_last() =~= intern_all(start, done).1);
    }
}

/// The global scope of the module `module` whose syntax tree is `ast`: the
/// names it declares, interned in order in `interner`, the `k`-th standing
/// for the definition at position `k` of the module.
pub fn globals_of(module: ModuleId, ast: &Ast, interner: &mut SymbolInterner) -> (g: GlobalScope)
    requires
        old(interner)@.len() + declared_globals(ast.items@).len() <= u32::MAX,
    ensures
        final(interner)@ == intern_all(old(interner)@, declared_globals(ast.items@)).0,
        g@ == numbered_globals(module, intern_all(old(interner)@, declared_globals(ast.items@)).1),
{
    let ghost start = interner@;
    let ghost total = declared_globals(ast.items@).len();
    let mut globals = GlobalScope::new();
    let mut next_index: u32 = 0;
    let mut k: usize = 0;
    proof {
        assert(ast.items@.take(0) =~= Seq::<Item>::empty());
    }
    while k < ast.items.len()
        invariant
            k <= ast.items@.len(),
            start.len() + total <= u32::MAX,
            total == declared_globals(ast.items@).len(),
            interner@ == intern_all(start, declared_globals(ast.items@.take(k as int))).0,
            next_index == declared_globals(ast.items@.take(k as int)).len(),
            globals@ == numbered_globals(module, intern_all(start, declared_globals(ast.items@.take(k as int))).1),
        decreases ast.items@.len() - k,
    {
        let item = &ast.items[k];
        let ghost before = declared_globals(ast.items@.take(k as int));
        let ghost after = declared_globals(ast.items@.take(k + 1));
        proof {
            assert(ast.items@.take(k + 1).drop_last() =~= ast.items@.take(k as int));
            assert(after == before + item_globals(ast.items@[k as int]));
            lemma_declared_prefix(ast.items@, k + 1, ast.items@.len() as int);
            assert(ast.items@.take(ast.items@.len() as int) =~= ast.items@);
            lemma_intern_all_len(start, before);
        }
        match &item.node {
            ItemKind::Type(t) => {
                declare_next(module, &t.name.node, interner, &mut globals, next_index, Ghost(start), Ghost(before), Ghost(total));
                next_index = next_index + 1;
                proof {
                    assert(before.push(t.name.node@) =~= after);
                }
            },
            ItemKind::Import(import) => {
                let ghost mut done = before;
                let ghost alias_part = alias_names(import.alias);
                let ghost exposed = import.exposing@.map_values(|e: Spanned<String>| e.node@);
                proof {
                    assert(after =~= before + alias_part + exposed);
                }
                match &import.alias {
                    Some(a) => {
                        declare_next(module, &a.node, interner, &mut globals, next_index, Ghost(start), Ghost(done), Ghost(total));
                        next_index = next_index + 1;
                        proof {
                            done = done.push(a.node@);
                        }
                    },
                    None => {},
                }
                proof {
                    assert(done =~= before + alias_part);
                    lemma_intern_all_len(start, done);
                }
                let mut j: usize = 0;
                while j < import.exposing.len()
                    invariant
                        j <= import.exposing@.len(),
                        exposed == import.exposing@.map_values(|e: Spanned<String>| e.node@),
                        after =~= before + alias_part + exposed,
                        after.len() <= total,
                        start.len() + total <= u32::MAX,
                        done == before + alias_part + exposed.take(j as int),
                                    interner@ == intern_all(start, done).0,
                        next_index == done.len(),
                        globals@ == numbered_globals(module, intern_all(start, done).1),
                    decreases import.exposing@.len() - j,
                {
                    let name = &import.exposing[j].node;
                    proof {
                        lemma_intern_all_len(start, done);
                        assert(name@ == exposed[j as int]);
                    }
                    declare_next(module, name, interner, &mut globals, next_index, Ghost(start), Ghost(done), Ghost(total));
                    next_index = next_index + 1;
                    proof {
                        done = done.push(name@);
                        assert(done =~= before + alias_part + exposed.take(j + 1));
                    }
                    j = j + 1;
                }
                proof {
                    assert(exposed.take(j as int) =~= exposed);
                }
            },
            _ => {
                proof {
                    assert(after =~= before);
                }
            },
        }
        k = k + 1;
    }
    proof {
        assert(ast.items@.take(k as int) =~= ast.items@);
    }
    globals
}

/// The number of global names `items` declare, if it is at most `u32::MAX`.
fn count_declared(items: &Vec<Item>) -> (r: Option<u64>)
    ensures
        r matches Some(n) ==> n == declared_globals(items@).len() && n <= u32::MAX,
        r is None ==> declared_globals(items@).len() > u32::MAX,
{
    let mut count: u64 = 0;
    let mut k: usize = 0;
    proof {
        assert(items@.take(0) =~= Seq::<Item>::empty());
    }
    while k < items.len()
        invariant
            k <= items@.len(),
            count <= u32::MAX,
            count == declared_globals(items@.take(k as int)).len(),
        decreases items@.len() - k,
    {
        proof {
            assert(items@.take(k + 1).drop_last() =~= items@.take(k as int));
            lemma_declared_prefix(items@, k + 1, items@.len() as int);
            assert(items@.take(items@.len() as int) =~= items@);
        }
        let add: u64 = match &items[k].node {
            ItemKind::Type(_) => 1,
            ItemKind::Import(import) => {
                let a: u64 = match &import.alias {
                    Some(_) => 1,
                    None => 0,
                };
                let e = import.exposing.len() as u64;
                if e > u32::MAX as u64 {
                    return None;
                }
                a + e
            },
            _ => 0,
        };
        if add > u32::MAX as u64 - count {
            return None;
        }
        count = count + add;
        k = k + 1;
    }
    proof {
        assert(items@.take(k as int) =~= items@);
    }
    Some(count)
}

/// The global scope of `module` as `globals_of` computes it, when the
/// interner can hand out an identifier to every name it declares; else
/// `None`, with the interner unchanged.
pub fn try_globals_of(module: ModuleId, ast: &Ast, interner: &mut SymbolInterner) -> (r: Option<GlobalScope>)
    ensures
        (r is Some) <==> old(interner)@.len() + declared_globals(ast.items@).len() <= u32::MAX,
        r matches Some(g) ==> {
            &&& final(interner)@ == intern_all(old(interner)@, declared_globals(ast.items@)).0
            &&& g@ == numbered_globals(module, intern_all(old(interner)@, declared_globals(ast.items@)).1)
        },
        r is None ==> final(interner)@ == old(interner)@,
{
    let count = match count_declared(&ast.items) {
        Some(n) => n,
        None => return None,
    };
    let held = interner.len();
    if held as u64 > u32::MAX as u64 - count {
        return None;
    }
    Some(globals_of(module, ast, interner))
}

} // verus!
