//! The reverse index of a component store: entity id to position in the
//! dense arrays, kept in a `hashbrown::HashMap`.
//!
//! Nothing here is proved. Each function states what the hash map's own
//! method does; the stores are verified against these statements.

use vstd::prelude::*;

verus! {

/// A `hashbrown::HashMap<u64, usize>` from entity id to position.
#[verifier::external_body]
pub struct EntityIndex {
    map: hashbrown::HashMap<u64, usize>,
}

/// The entries an index holds: every key in it, with the position stored under
/// that key.
pub uninterp spec fn index_entries(index: EntityIndex) -> Map<u64, usize>;

impl EntityIndex {
    /// `hashbrown::HashMap::new`: the map it returns holds no entry.
    #[verifier::external_body]
    pub(crate) fn new() -> (fresh: EntityIndex)
        ensures
            index_entries(fresh) =~= Map::empty(),
    {
        EntityIndex { map: hashbrown::HashMap::new() }
    }

    /// `hashbrown::HashMap::get`: the position stored under `id`, or `None`
    /// where the map has no such key.
    #[verifier::external_body]
    pub(crate) fn get(&self, id: u64) -> (position: Option<usize>)
        ensures
            position == (if index_entries(*self).contains_key(id) {
                Some(index_entries(*self)[id])
            } else {
                None
            }),
    {
        self.map.get(&id).copied()
    }

    /// `hashbrown::HashMap::insert`: afterwards `id` maps to `position`,
    /// whether or not it was a key before, and every other entry is as it was.
    #[verifier::external_body]
    pub(crate) fn insert(&mut self, id: u64, position: usize)
        ensures
            index_entries(*final(self)) == index_entries(*old(self)).insert(id, position),
    {
        self.map.insert(id, position);
    }

    /// `hashbrown::HashMap::remove`: afterwards `id` is no key, and every
    /// other entry is as it was.
    #[verifier::external_body]
    pub(crate) fn remove(&mut self, id: u64)
        ensures
            index_entries(*final(self)) == index_entries(*old(self)).remove(id),
    {
        self.map.remove(&id);
    }

    /// `hashbrown::HashMap::len`: the number of entries.
    #[verifier::external_body]
    pub(crate) fn len(&self) -> (count: usize)
        ensures
            count == index_entries(*self).len(),
    {
        self.map.len()
    }
}

} // verus!
