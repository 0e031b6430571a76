//! Interning of symbol names.
use vstd::prelude::*;

use crate::diagnostic::clone_string;

verus! {

/// The identifier of an interned name: its position in the interner.
#[derive(Debug, Clone, Copy, PartialEq, Eq, Hash, Structural)]
pub struct SymbolId(pub u32);

/// Hands out one identifier per distinct name, and gives the name back.
///
/// The names are kept in a list, searched when a name is interned, rather
/// than also in a `HashMap` from names: vstd states the behaviour of a
/// `HashMap` only for keys it has a key model of (integers and booleans), not
/// for strings, while the search is proved here to find the one position a
/// name occupies.
#[derive(Debug)]
pub struct SymbolInterner {
    strings: Vec<String>,
}

impl View for SymbolInterner {
    type V = Seq<Seq<char>>;

    /// The interned names, indexed by their identifiers.
    closed spec fn view(&self) -> Seq<Seq<char>> {
        self.strings@.map_values(|s: String| s@)
    }
}

/// No name occurs twice.
pub open spec fn distinct_names(names: Seq<Seq<char>>) -> bool {
    forall|a: int, b: int| 0 <= a < b < names.len() ==> #[trigger] names[a] != #[trigger] names[b]
}

impl SymbolInterner {
    /// No name is interned twice.
    #[verifier::type_invariant]
    closed spec fn wf(&self) -> bool {
        distinct_names(self.strings@.map_values(|s: String| s@))
    }

    /// The number of interned names.
    pub fn len(&self) -> (n: usize)
        ensures
            n == self@.len(),
    {
        self.strings.len()
    }

    /// An interner that holds no name.
    pub fn new() -> (i: SymbolInterner)
        ensures
            i@ == Seq::<Seq<char>>::empty(),
    {
        let i = SymbolInterner { strings: Vec::new() };
        assert(i@ =~= Seq::<Seq<char>>::empty());
        i
    }

    /// The identifier of `text`: the one it already has if it was interned
    /// before, else a new one, the next position, at which `text` is added.
    pub fn intern(&mut self, text: &str) -> (id: SymbolId)
        requires
            old(self)@.len() <= u32::MAX,
        ensures
            distinct_names(final(self)@),
            final(self)@ == intern_spec(old(self)@, text@).0,
            id.0 == intern_spec(old(self)@, text@).1,
            id.0 < final(self)@.len(),
            final(self)@[id.0 as int] == text@,
    {
        proof {
            use_type_invariant(&*self);
        }
        let owned = text.to_owned();
        let n = self.strings.len();
        let mut i: usize = 0;
        while i < n
            invariant
                n == self.strings@.len(),
                n <= u32::MAX,
                distinct_names(self@),
                i <= n,
                self.strings@ == old(self).strings@,
                owned@ == text@,
                forall|k: int| 0 <= k < i ==> #[trigger] self@[k] != text@,
            decreases n - i,
        {
            let same = self.strings[i] == owned;
            if same {
                proof {
                    assert(self.strings@[i as int]@ == self@[i as int]);
                    assert(self@.contains(text@)) by {
                        assert(self@[i as int] == text@);
                    }
                    let p = position_of(self@, text@);
                    law_intern_injective(self@, p, i as int);
                }
                return SymbolId(i as u32);
            }
            i = i + 1;
        }
        proof {
            assert(!self@.contains(text@));
        }
        let mut strings: Vec<String> = Vec::new();
        std::mem::swap(&mut strings, &mut self.strings);
        strings.push(owned);
        proof {
            assert(strings@.map_values(|s: String| s@) =~= old(self)@.push(text@));
            lemma_intern_spec(old(self)@, text@);
        }
        self.strings = strings;
        assert(self@ =~= old(self)@.push(text@));
        proof {
            lemma_intern_spec(old(self)@, text@);
        }
        SymbolId(n as u32)
    }

    /// The name interned under `id`.
    pub fn resolve(&self, id: SymbolId) -> (s: String)
        requires
            id.0 < self@.len(),
        ensures
            s@ == self@[id.0 as int],
    {
        clone_string(&self.strings[id.0 as usize])
    }
}

/// The position of `text` in `names`, where it occurs.
pub open spec fn position_of(names: Seq<Seq<char>>, text: Seq<char>) -> int {
    choose|k: int| 0 <= k < names.len() && names[k] == text
}

/// The names after interning `text`, and the identifier it gets: its
/// position if it is already there, else the next position, where it is added.
pub open spec fn intern_spec(names: Seq<Seq<char>>, text: Seq<char>) -> (Seq<Seq<char>>, int) {
    if names.contains(text) {
        (names, position_of(names, text))
    } else {
        (names.push(text), names.len() as int)
    }
}

pub proof fn lemma_intern_spec(names: Seq<Seq<char>>, text: Seq<char>)
    requires
        distinct_names(names),
    ensures
        distinct_names(intern_spec(names, text).0),
        0 <= intern_spec(names, text).1 < intern_spec(names, text).0.len(),
        intern_spec(names, text).0[intern_spec(names, text).1] == text,
        intern_spec(names, text).0.len() >= names.len(),
        forall|k: int| 0 <= k < names.len() ==> #[trigger] intern_spec(names, text).0[k] == names[k],
{
    if !names.contains(text) {
        let after = names.push(text);
        assert forall|a: int, b: int| 0 <= a < b < after.len() implies #[trigger] after[a]
            != #[trigger] after[b] by {
            if b == after.len() - 1 {
                assert(after[a] == names[a]);
                assert(!names.contains(text));
            }
        }
    }
}

/// Interning then resolving gives back the text: the name at the identifier
/// that interning `text` hands out is `text`, and names interned earlier keep
/// their identifiers.
pub proof fn law_resolve_interned(names: Seq<Seq<char>>, text: Seq<char>)
    requires
        distinct_names(names),
    ensures
        intern_spec(names, text).0[intern_spec(names, text).1] == text,
        forall|k: int| 0 <= k < names.len() ==> #[trigger] intern_spec(names, text).0[k] == names[k],
{
    lemma_intern_spec(names, text);
}

/// Interning a text that already sits at position `id` hands out `id` and
/// adds nothing.
pub proof fn law_intern_known(names: Seq<Seq<char>>, text: Seq<char>, id: int)
    requires
        distinct_names(names),
        0 <= id < names.len(),
        names[id] == text,
    ensures
        intern_spec(names, text) == (names, id),
{
    assert(names.contains(text));
    let p = position_of(names, text);
    law_intern_injective(names, p, id);
}

/// Interning the same text twice hands out the same identifier and adds
/// nothing the second time.
pub proof fn law_intern_idempotent(names: Seq<Seq<char>>, text: Seq<char>)
    requires
        distinct_names(names),
    ensures
        ({
            let (after, id) = intern_spec(names, text);
            intern_spec(after, text) == (after, id)
        }),
{
    lemma_intern_spec(names, text);
    let (after, id) = intern_spec(names, text);
    assert(after.contains(text));
    let p = position_of(after, text);
    law_intern_injective(after, p, id);
}

/// Distinct texts get distinct identifiers: interning `a` and then `b`, with
/// `a != b`, hands out two different identifiers.
pub proof fn law_intern_distinct(names: Seq<Seq<char>>, a: Seq<char>, b: Seq<char>)
    requires
        distinct_names(names),
        a != b,
    ensures
        ({
            let (after_a, id_a) = intern_spec(names, a);
            let (after_b, id_b) = intern_spec(after_a, b);
            id_a != id_b && after_b[id_a] == a && after_b[id_b] == b
        }),
{
    lemma_intern_spec(names, a);
    let (after_a, id_a) = intern_spec(names, a);
    lemma_intern_spec(after_a, b);
}

/// In an interner where no name occurs twice, equal names sit at equal
/// positions.
pub proof fn law_intern_injective(names: Seq<Seq<char>>, a: int, b: int)
    requires
        distinct_names(names),
        0 <= a < names.len(),
        0 <= b < names.len(),
    ensures
        (names[a] == names[b]) <==> (a == b),
{
    if a < b {
        assert(names[a] != names[b]);
    } else if b < a {
        assert(names[b] != names[a]);
    }
}

} // verus!
