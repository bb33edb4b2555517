//! Entity identifiers, the owning handle, and the registry that mints them.

use crate::systems::{purged, Systems};
use vstd::prelude::*;

verus! {

/// Handle to one logical object. It carries no ownership and may be copied
/// freely for lookups.
#[derive(Clone, Copy, PartialEq, Eq, Hash, Debug, Structural)]
pub struct Entity {
    id: u64,
}

impl View for Entity {
    type V = u64;

    closed spec fn view(&self) -> u64 {
        self.id
    }
}

impl Entity {
    /// The number behind the handle.
    pub fn id(&self) -> (id: u64)
        ensures
            id == self@,
    {
        self.id
    }

    /// The handle with the number `id`.
    pub closed spec fn with_id(id: u64) -> Entity {
        Entity { id }
    }

    /// Every number is the number of a handle.
    pub broadcast proof fn lemma_with_id(id: u64)
        ensures
            (#[trigger] Entity::with_id(id))@ == id,
    {
    }

    /// Two handles with the same number are the same handle.
    pub broadcast proof fn lemma_same_id(self, other: Entity)
        ensures
            #![trigger self@, other@]
            self@ == other@ <==> self == other,
    {
    }
}

/// The one owner of a live entity. It can be neither copied nor cloned; to
/// end the entity's life the handle is given back to the registry.
#[derive(Debug)]
pub struct OwnedEntity {
    entity: Entity,
}

impl View for OwnedEntity {
    type V = Entity;

    closed spec fn view(&self) -> Entity {
        self.entity
    }
}

impl OwnedEntity {
    /// A non-owning copy of the identifier.
    pub fn entity(&self) -> (e: Entity)
        ensures
            e == self@,
    {
        self.entity
    }

    /// The identifier itself, borrowed for a lookup.
    pub fn as_entity(&self) -> (e: &Entity)
        ensures
            *e == self@,
    {
        &self.entity
    }
}

/// Mints entity identifiers and ends their lives. Identifiers are handed
/// out in increasing order and never a second time, so an identifier that is
/// created differs from every identifier alive at that moment.
pub struct EntitySystem {
    next_id: u64,
    live: Ghost<Set<Entity>>,
}

impl EntitySystem {
    /// How many identifiers have been minted so far.
    pub closed spec fn minted(&self) -> nat {
        self.next_id as nat
    }

    /// The entities that were created and not destroyed since.
    pub closed spec fn live(&self) -> Set<Entity> {
        self.live@
    }

    /// Whether `e` is one of the identifiers minted so far.
    pub open spec fn issued(&self, e: Entity) -> bool {
        (e@ as nat) < self.minted()
    }

    /// Every live entity was minted here.
    pub open spec fn wf(&self) -> bool {
        forall|e: Entity| #[trigger] self.live().contains(e) ==> self.issued(e)
    }

    /// A registry that has minted nothing.
    pub fn new() -> (es: EntitySystem)
        ensures
            es.minted() == 0,
            es.live() == Set::<Entity>::empty(),
            es.wf(),
    {
        EntitySystem { next_id: 0, live: Ghost(Set::empty()) }
    }

    /// Whether another identifier can still be minted.
    pub fn has_free_id(&self) -> (free: bool)
        ensures
            free == (self.minted() < u64::MAX),
    {
        self.next_id < u64::MAX
    }

    /// Mints an identifier that no live entity has, and that no earlier call
    /// has returned.
    pub fn create_entity(&mut self) -> (owned: OwnedEntity)
        requires
            old(self).wf(),
            old(self).minted() < u64::MAX,
        ensures
            owned@@ == old(self).minted(),
            !old(self).live().contains(owned@),
            !old(self).issued(owned@),
            final(self).live() == old(self).live().insert(owned@),
            final(self).minted() == old(self).minted() + 1,
            final(self).wf(),
    {
        let id: u64 = self.next_id;
        let owned = OwnedEntity { entity: Entity { id } };
        self.next_id = id + 1;
        self.live = Ghost(self.live@.insert(owned@));
        owned
    }

    /// Removes every trace of `entity`: each registered store, in
    /// registration order, gives up the component it holds for `entity`, and
    /// a store that holds none is left as it is. The entity is live no more.
    pub fn destroy<D>(&mut self, systems: &mut Systems<D>, entity: &Entity)
        requires
            old(self).wf(),
            old(systems).wf(),
        ensures
            final(systems)@ == purged(old(systems)@, *entity),
            final(systems).wf(),
            final(self).live() == old(self).live().remove(*entity),
            final(self).minted() == old(self).minted(),
            final(self).wf(),
    {
        systems.remove_everywhere(entity);
        self.live = Ghost(self.live@.remove(*entity));
        assert forall|e: Entity| #[trigger] self.live().contains(e) implies self.issued(e) by {
            assert(old(self).live().contains(e));
        }
    }

    /// Ends the life of the entity behind `owned`, as `destroy` does, and
    /// uses the handle up.
    pub fn release<D>(&mut self, systems: &mut Systems<D>, owned: OwnedEntity)
        requires
            old(self).wf(),
            old(systems).wf(),
        ensures
            final(systems)@ == purged(old(systems)@, owned@),
            final(systems).wf(),
            final(self).live() == old(self).live().remove(owned@),
            final(self).minted() == old(self).minted(),
            final(self).wf(),
    {
        self.destroy(systems, &owned.entity);
    }
}

/// The identifiers that `n` calls of `create_entity` return, one after the
/// other, in a registry that has minted `start` identifiers before them.
pub open spec fn minted_run(start: nat, n: nat) -> Seq<u64> {
    Seq::new(n, |k: int| (start + k) as u64)
}

/// However many identifiers are created in a row, no two of them are the
/// same, and none was handed out before the run began.
pub proof fn lemma_created_ids_unique(start: nat, n: nat)
    requires
        start + n <= u64::MAX,
    ensures
        minted_run(start, n).no_duplicates(),
        forall|k: int| 0 <= k < n ==> #[trigger] minted_run(start, n)[k] >= start,
{
}

/// An identifier created later differs from every identifier that the
/// registry had issued before, whatever was created or destroyed in between.
pub proof fn lemma_later_id_differs(earlier: EntitySystem, later: EntitySystem, a: Entity, b: Entity)
    requires
        earlier.issued(a) || a@ == earlier.minted(),
        earlier.minted() < later.minted(),
        b@ == later.minted(),
    ensures
        a != b,
{
}

/// The entity that a well-formed registry creates next is none of its live
/// entities.
pub proof fn lemma_next_differs_from_live(es: EntitySystem, next: Entity, other: Entity)
    requires
        es.wf(),
        next@ == es.minted(),
        es.live().contains(other),
    ensures
        next != other,
        next@ != other@,
{
}

} // verus!
