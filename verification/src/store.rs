//! The component store: one dense array of components of a kind, the entity
//! that owns each of them, and a reverse index from entity to position.

use crate::entity::Entity;
use crate::index::{index_entries, EntityIndex};
use vstd::prelude::*;
use vstd::relations::injective_on;
use vstd::set_lib::{lemma_int_range, lemma_len_subset, lemma_map_size, set_int_range};

verus! {

/// What a store holds, as plain mathematics: position `i` of `data` belongs
/// to `owners[i]`, and `index` says where each indexed entity's component is.
pub struct StoreView<D> {
    pub owners: Seq<Entity>,
    pub data: Seq<D>,
    pub index: Map<Entity, int>,
}

impl<D> StoreView<D> {
    /// The store that has never received a component.
    pub open spec fn empty() -> Self {
        StoreView { owners: Seq::empty(), data: Seq::empty(), index: Map::empty() }
    }

    /// Every indexed entity resolves to a position in the dense arrays, and
    /// the component at that position is its own.
    pub open spec fn wf(self) -> bool {
        &&& self.owners.len() == self.data.len()
        &&& forall|e: Entity| #[trigger]
            self.index.contains_key(e) ==> 0 <= self.index[e] < self.owners.len()
                && self.owners[self.index[e]] == e
    }

    /// Every position of the dense arrays is the indexed position of its
    /// owner: no component is out of the index's reach.
    pub open spec fn all_indexed(self) -> bool {
        forall|i: int|
            0 <= i < self.owners.len() ==> self.index.contains_key(#[trigger] self.owners[i])
                && self.index[self.owners[i]] == i
    }

    /// Whether `e` has a component here.
    pub open spec fn contains(self, e: Entity) -> bool {
        self.index.contains_key(e)
    }

    /// The component of `e`, if it has one.
    pub open spec fn lookup(self, e: Entity) -> Option<D> {
        if self.index.contains_key(e) {
            Some(self.data[self.index[e]])
        } else {
            None
        }
    }

    /// The store after `d` was appended for `e`. Where `e` was indexed
    /// already, its entry now points at the new component and the earlier
    /// one stays in the array, out of reach.
    pub open spec fn added(self, e: Entity, d: D) -> Self {
        StoreView {
            owners: self.owners.push(e),
            data: self.data.push(d),
            index: self.index.insert(e, self.owners.len() as int),
        }
    }

    /// The store after the component of `e` was taken out: the last
    /// component moves into its place, the moved component's owner is indexed
    /// there, `e` leaves the index and the arrays shrink by one. Without a
    /// component of `e` the store is unchanged.
    pub open spec fn removed(self, e: Entity) -> Self {
        if self.index.contains_key(e) {
            let i = self.index[e];
            StoreView {
                owners: self.owners.update(i, self.owners.last()).drop_last(),
                data: self.data.update(i, self.data.last()).drop_last(),
                index: self.index.insert(self.owners.last(), i).remove(e),
            }
        } else {
            self
        }
    }

    /// The store after the component of `e` was overwritten with `d`.
    pub open spec fn replaced(self, e: Entity, d: D) -> Self {
        if self.index.contains_key(e) {
            StoreView { data: self.data.update(self.index[e], d), ..self }
        } else {
            self
        }
    }

    /// Appending keeps a store well formed. Where every component was indexed
    /// and the entity had none, every component is indexed afterwards.
    pub proof fn lemma_added(self, e: Entity, d: D)
        requires
            self.wf(),
        ensures
            self.added(e, d).wf(),
            self.all_indexed() && !self.contains(e) ==> self.added(e, d).all_indexed(),
    {
        let after = self.added(e, d);
        assert forall|x: Entity| #[trigger] after.index.contains_key(x) implies 0 <= after.index[x]
            < after.owners.len() && after.owners[after.index[x]] == x by {
            if x != e {
                assert(self.index.contains_key(x));
            }
        }
        if self.all_indexed() && !self.contains(e) {
            assert forall|i: int| 0 <= i < after.owners.len() implies after.index.contains_key(
                #[trigger] after.owners[i],
            ) && after.index[after.owners[i]] == i by {
                if i < self.owners.len() {
                    assert(self.index.contains_key(self.owners[i]));
                }
            }
        }
    }

    /// The index of a well-formed store is finite and has no more entries
    /// than the dense arrays have components.
    pub proof fn lemma_index_finite(self)
        requires
            self.wf(),
        ensures
            self.index.dom().finite(),
            self.index.len() <= self.owners.len(),
    {
        let positions = Set::new(
            |i: int|
                0 <= i < self.owners.len() && self.index.contains_key(self.owners[i])
                    && self.index[self.owners[i]] == i,
        );
        let all = set_int_range(0, self.owners.len() as int);
        let owner = |i: int| self.owners[i];
        lemma_int_range(0, self.owners.len() as int);
        assert(positions.subset_of(all));
        lemma_len_subset(positions, all);
        assert forall|e: Entity| self.index.dom().contains(e) implies positions.map(
            owner,
        ).contains(e) by {
            assert(self.index.contains_key(e));
            assert(positions.contains(self.index[e]));
            assert(owner(self.index[e]) == e);
        }
        assert(positions.map(owner) =~= self.index.dom());
        assert(injective_on(owner, positions));
        lemma_map_size(positions, self.index.dom(), owner);
    }

    /// In a well-formed store whose components are all indexed, no entity
    /// owns two components, and the index has exactly one entry for each
    /// position of the dense arrays.
    pub proof fn lemma_all_indexed_counts(self)
        requires
            self.wf(),
            self.all_indexed(),
        ensures
            self.index.dom().finite(),
            self.index.len() == self.owners.len(),
            self.owners.no_duplicates(),
    {
        broadcast use vstd::seq_lib::seq_to_set_is_finite;

        assert forall|i: int, j: int|
            0 <= i < self.owners.len() && 0 <= j < self.owners.len() && i != j implies self.owners[i]
            != self.owners[j] by {
            assert(self.index[self.owners[i]] == i);
            assert(self.index[self.owners[j]] == j);
        }
        assert forall|e: Entity| self.index.dom().contains(e) <==> self.owners.to_set().contains(
            e,
        ) by {
            if self.index.dom().contains(e) {
                assert(self.index.contains_key(e));
                assert(self.owners[self.index[e]] == e);
            }
            if self.owners.to_set().contains(e) {
                let i = choose|i: int| 0 <= i < self.owners.len() && self.owners[i] == e;
                assert(self.index.contains_key(self.owners[i]));
            }
        }
        assert(self.index.dom() =~= self.owners.to_set());
        self.owners.unique_seq_to_set();
    }

    /// Removing keeps a store well formed, and keeps every component indexed
    /// where every component was.
    pub proof fn lemma_removed(self, e: Entity)
        requires
            self.wf(),
        ensures
            self.removed(e).wf(),
            self.all_indexed() ==> self.removed(e).all_indexed(),
    {
        let after = self.removed(e);
        if self.index.contains_key(e) {
            let i = self.index[e];
            let last = self.owners.len() - 1;
            let moved = self.owners.last();
            assert forall|x: Entity| #[trigger] after.index.contains_key(x) implies 0
                <= after.index[x] < after.owners.len() && after.owners[after.index[x]] == x by {
                if x == moved {
                    assert(i != last);
                } else {
                    assert(self.index.contains_key(x));
                    assert(self.index[x] != last);
                    assert(self.index[x] != i);
                }
            }
            if self.all_indexed() {
                assert forall|k: int| 0 <= k < after.owners.len() implies after.index.contains_key(
                    #[trigger] after.owners[k],
                ) && after.index[after.owners[k]] == k by {
                    if k == i {
                        assert(self.index.contains_key(self.owners[last]));
                    } else {
                        assert(self.index.contains_key(self.owners[k]));
                    }
                }
            }
        }
    }
}

/// The index over entities that a map over their numbers stands for.
spec fn index_of(entries: Map<u64, usize>) -> Map<Entity, int> {
    Map::new(|e: Entity| entries.contains_key(e@), |e: Entity| entries[e@] as int)
}

proof fn lemma_index_of_insert(entries: Map<u64, usize>, e: Entity, position: usize)
    ensures
        index_of(entries.insert(e@, position)) == index_of(entries).insert(e, position as int),
{
    broadcast use Entity::lemma_same_id;

    assert(index_of(entries.insert(e@, position)) =~= index_of(entries).insert(
        e,
        position as int,
    ));
}

proof fn lemma_index_of_remove(entries: Map<u64, usize>, e: Entity)
    ensures
        index_of(entries.remove(e@)) == index_of(entries).remove(e),
{
    broadcast use Entity::lemma_same_id;

    assert(index_of(entries.remove(e@)) =~= index_of(entries).remove(e));
}

proof fn lemma_index_of_len(entries: Map<u64, usize>)
    requires
        index_of(entries).dom().finite(),
    ensures
        index_of(entries).len() == entries.len(),
{
    broadcast use Entity::lemma_same_id, Entity::lemma_with_id;

    let number = |e: Entity| e@;
    let indexed = index_of(entries).dom();
    assert forall|id: u64| entries.dom().contains(id) implies indexed.map(number).contains(id) by {
        assert(indexed.contains(Entity::with_id(id)));
        assert(number(Entity::with_id(id)) == id);
    }
    assert(indexed.map(number) =~= entries.dom());
    assert(injective_on(number, indexed));
    lemma_map_size(indexed, entries.dom(), number);
}

/// All live components of one kind.
pub struct ComponentStore<D> {
    entities: Vec<Entity>,
    components: Vec<D>,
    map: EntityIndex,
}

impl<D> View for ComponentStore<D> {
    type V = StoreView<D>;

    closed spec fn view(&self) -> StoreView<D> {
        StoreView {
            owners: self.entities@,
            data: self.components@,
            index: index_of(index_entries(self.map)),
        }
    }
}

impl<D> ComponentStore<D> {
    /// The invariant that every operation keeps.
    pub open spec fn wf(&self) -> bool {
        self@.wf()
    }

    /// A store without components.
    pub fn new() -> (store: ComponentStore<D>)
        ensures
            store@ == StoreView::<D>::empty(),
            store.wf(),
    {
        let store = ComponentStore {
            entities: Vec::new(),
            components: Vec::new(),
            map: EntityIndex::new(),
        };
        assert(store@.index =~= Map::empty());
        store
    }

    /// Appends `component` as the component of `entity`.
    pub fn add(&mut self, entity: Entity, component: D)
        requires
            old(self).wf(),
        ensures
            final(self)@ == old(self)@.added(entity, component),
            final(self).wf(),
            old(self)@.all_indexed() && !old(self)@.contains(entity) ==> final(self)@.all_indexed(),
    {
        let position: usize = self.entities.len();
        self.entities.push(entity);
        self.components.push(component);
        self.map.insert(entity.id(), position);
        proof {
            lemma_index_of_insert(index_entries(old(self).map), entity, position);
            old(self)@.lemma_added(entity, component);
        }
    }

    /// Gives `entity` the component `component`: in place of the one it has,
    /// or appended where it has none. Unlike `add`, this never leaves a
    /// component out of the index's reach.
    pub fn set(&mut self, entity: Entity, component: D)
        requires
            old(self).wf(),
        ensures
            final(self)@ == (if old(self)@.contains(entity) {
                old(self)@.replaced(entity, component)
            } else {
                old(self)@.added(entity, component)
            }),
            final(self).wf(),
            old(self)@.all_indexed() ==> final(self)@.all_indexed(),
    {
        match self.map.get(entity.id()) {
            Some(position) => {
                assert(self@.index.contains_key(entity) && self@.index[entity] == position);
                self.components[position] = component;
            },
            None => {
                self.add(entity, component);
            },
        }
    }

    /// Takes the component of `e` out, if it has one.
    pub fn remove(&mut self, e: &Entity)
        requires
            old(self).wf(),
        ensures
            final(self)@ == old(self)@.removed(*e),
            final(self).wf(),
            old(self)@.all_indexed() ==> final(self)@.all_indexed(),
    {
        if let Some(position) = self.map.get(e.id()) {
            assert(self@.index.contains_key(*e) && self@.index[*e] == position);
            let last: usize = self.entities.len() - 1;
            let moved: Entity = self.entities[last];
            self.entities.swap_remove(position);
            self.components.swap_remove(position);
            self.map.insert(moved.id(), position);
            self.map.remove(e.id());
            proof {
                let entries = index_entries(old(self).map);
                lemma_index_of_insert(entries, moved, position);
                lemma_index_of_remove(entries.insert(moved@, position), *e);
            }
        }
        proof {
            old(self)@.lemma_removed(*e);
        }
    }

    /// The component of `e`, or `None` where it has none.
    pub fn lookup(&self, e: &Entity) -> (found: Option<&D>)
        requires
            self.wf(),
        ensures
            match found {
                Some(d) => self@.lookup(*e) == Some(*d),
                None => self@.lookup(*e).is_none(),
            },
    {
        match self.map.get(e.id()) {
            Some(position) => Some(&self.components[position]),
            None => None,
        }
    }

    /// The component of `e`, to be changed in place, or `None` where it has
    /// none. Whatever is written through the reference, the entity keeps its
    /// position and every other component stays as it was.
    pub fn lookup_mut(&mut self, e: &Entity) -> (found: Option<&mut D>)
        requires
            old(self).wf(),
        ensures
            match found {
                Some(d) => old(self)@.lookup(*e) == Some(*d) && final(self)@ == old(self)@.replaced(
                    *e,
                    *final(d),
                ),
                None => old(self)@.lookup(*e).is_none() && final(self)@ == old(self)@,
            },
            final(self).wf(),
    {
        match self.map.get(e.id()) {
            Some(position) => {
                assert(self@.index.contains_key(*e) && self@.index[*e] == position);
                Some(&mut self.components[position])
            },
            None => None,
        }
    }

    /// How many entities the index holds: as many as there are components,
    /// unless a component was added for an entity that had one already.
    pub fn indexed(&self) -> (n: usize)
        requires
            self.wf(),
        ensures
            n == self@.index.len(),
            n <= self@.data.len(),
            self@.all_indexed() ==> n == self@.data.len(),
    {
        proof {
            self@.lemma_index_finite();
            lemma_index_of_len(index_entries(self.map));
            if self@.all_indexed() {
                self@.lemma_all_indexed_counts();
            }
        }
        self.map.len()
    }

    /// How many components the store holds.
    pub fn len(&self) -> (n: usize)
        ensures
            n == self@.data.len(),
    {
        self.components.len()
    }

    /// The dense array, for a pass over every component.
    pub fn components(&self) -> (all: &[D])
        ensures
            all@ == self@.data,
    {
        self.components.as_slice()
    }

    /// The dense array, for a pass that changes components in place. The
    /// owners and the index stay as they were, and the store is well formed
    /// afterwards as long as the slice has kept its length, as every slice
    /// does.
    pub fn components_mut(&mut self) -> (all: &mut [D])
        requires
            old(self).wf(),
        ensures
            all@ == old(self)@.data,
            final(self)@ == (StoreView { data: final(all)@, ..old(self)@ }),
            final(all)@.len() == all@.len() ==> final(self).wf(),
    {
        self.components.as_mut_slice()
    }

    /// The owner of each component, position by position.
    pub fn entities(&self) -> (all: &[Entity])
        ensures
            all@ == self@.owners,
    {
        self.entities.as_slice()
    }
}

} // verus!
