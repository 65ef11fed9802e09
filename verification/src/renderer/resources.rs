//! Tables of loaded renderer resources, keyed by the index a scene gives
//! them.

use vstd::prelude::*;
use std::collections::HashMap;

verus! {

/// The message for a vertex buffer that is not loaded.
pub const VBO_NOT_LOADED: &'static str = "Queried VBO that is not loaded";

/// The message for a texture that is not loaded.
pub const TEXTURE_NOT_LOADED: &'static str = "Queried texture that is not loaded";

/// Loaded resources by index.
pub struct ResourceTable<V> {
    items: HashMap<usize, V>,
}

impl<V> View for ResourceTable<V> {
    type V = Map<usize, V>;

    closed spec fn view(&self) -> Map<usize, V> {
        self.items@
    }
}

impl<V> ResourceTable<V> {
    /// An empty table.
    pub fn new() -> (r: ResourceTable<V>)
        ensures
            r@ == Map::<usize, V>::empty(),
    {
        ResourceTable { items: HashMap::new() }
    }

    /// Store a resource under an index, replacing any resource held there.
    pub fn insert(&mut self, index: usize, value: V)
        ensures
            final(self)@ == old(self)@.insert(index, value),
    {
        broadcast use vstd::std_specs::hash::group_hash_axioms;
        self.items.insert(index, value);
    }

    /// The resource stored under an index; `missing_message` is the error
    /// when there is none.
    pub fn query(&self, index: usize, missing_message: &str) -> (r: Result<&V, String>)
        ensures
            self@.contains_key(index) ==> (r matches Ok(v) && *v == self@[index]),
            !self@.contains_key(index) ==> (r matches Err(m) && m@ == missing_message@),
    {
        broadcast use vstd::std_specs::hash::group_hash_axioms;
        match self.items.get(&index) {
            Some(v) => Ok(v),
            None => Err(String::from_str(missing_message)),
        }
    }
}

/// A resource stored under an index is what a query of that index gives,
/// until another is stored there; storing under one index leaves every other
/// index as it was.
pub proof fn lemma_query_after_insert<V>(table: Map<usize, V>, index: usize, value: V, other: usize)
    ensures
        table.insert(index, value).contains_key(index),
        table.insert(index, value)[index] == value,
        other != index ==> (table.insert(index, value).contains_key(other) == table.contains_key(
            other,
        )),
        other != index && table.contains_key(other) ==> table.insert(index, value)[other]
            == table[other],
{
}

} // verus!
