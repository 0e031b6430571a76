//! A finite map from interned names to small copyable values.
use vstd::prelude::*;

use std::collections::HashMap;

use crate::interner::SymbolId;

verus! {

broadcast use vstd::std_specs::hash::group_hash_axioms;

/// The map from names whose numbers a map from numbers binds.
pub open spec fn by_symbol<V>(m: Map<u32, V>) -> Map<SymbolId, V> {
    Map::new(|s: SymbolId| m.dom().contains(s.0), |s: SymbolId| m[s.0])
}

/// Bindings from names to values, looked up by name: a hash map keyed by
/// the number of each name.
#[derive(Debug)]
pub struct SymbolTable<V> {
    bindings: HashMap<u32, V>,
}

impl<V> View for SymbolTable<V> {
    type V = Map<SymbolId, V>;

    /// The value bound to each name.
    closed spec fn view(&self) -> Map<SymbolId, V> {
        by_symbol(self.bindings@)
    }
}

impl<V: Copy> SymbolTable<V> {
    /// A table that binds no name.
    pub fn new() -> (t: SymbolTable<V>)
        ensures
            t@ == Map::<SymbolId, V>::empty(),
    {
        let t = SymbolTable { bindings: HashMap::new() };
        assert(t@ =~= Map::<SymbolId, V>::empty());
        t
    }

    /// Binds `name` to `value`, replacing any earlier binding of `name`.
    pub fn insert(&mut self, name: SymbolId, value: V)
        ensures
            final(self)@ == old(self)@.insert(name, value),
    {
        self.bindings.insert(name.0, value);
        proof {
            assert(self@ =~= old(self)@.insert(name, value));
        }
    }

    /// The value bound to `name`, if any.
    pub fn get(&self, name: SymbolId) -> (r: Option<V>)
        ensures
            r == (if self@.dom().contains(name) { Some(self@[name]) } else { None::<V> }),
    {
        let key = name.0;
        match self.bindings.get(&key) {
            Some(v) => Some(*v),
            None => None,
        }
    }
}

} // verus!
