//! The system registry: every component store that must forget an entity
//! when the entity is destroyed, in the order in which the stores were
//! registered.

use crate::entity::Entity;
use crate::store::{ComponentStore, StoreView};
use vstd::prelude::*;

verus! {

/// Every store of `stores` after the component of `e` was taken out of it.
pub open spec fn purged<D>(stores: Seq<StoreView<D>>, e: Entity) -> Seq<StoreView<D>> {
    Seq::new(stores.len(), |k: int| stores[k].removed(e))
}

/// The registered stores. A store's place in the registry is its kind: it is
/// given at registration and never changes, since nothing is ever taken out.
pub struct Systems<D> {
    removers: Vec<ComponentStore<D>>,
}

impl<D> View for Systems<D> {
    type V = Seq<StoreView<D>>;

    closed spec fn view(&self) -> Seq<StoreView<D>> {
        views(self.removers@)
    }
}

/// What each store of `stores` holds.
pub closed spec fn views<D>(stores: Seq<ComponentStore<D>>) -> Seq<StoreView<D>> {
    Seq::new(stores.len(), |k: int| stores[k]@)
}

impl<D> Systems<D> {
    /// Every registered store is well formed.
    pub open spec fn wf(&self) -> bool {
        forall|k: int| 0 <= k < self@.len() ==> (#[trigger] self@[k]).wf()
    }

    /// A registry without stores.
    pub fn new() -> (systems: Systems<D>)
        ensures
            systems@ == Seq::<StoreView<D>>::empty(),
            systems.wf(),
    {
        let systems = Systems { removers: Vec::new() };
        assert(systems@ =~= Seq::empty());
        systems
    }

    /// Appends `remover` to the registry and returns its kind. From now on
    /// every destroyed entity is taken out of it.
    pub fn register_remover(&mut self, remover: ComponentStore<D>) -> (kind: usize)
        requires
            old(self).wf(),
            remover.wf(),
        ensures
            kind == old(self)@.len(),
            final(self)@ == old(self)@.push(remover@),
            final(self).wf(),
    {
        let kind: usize = self.removers.len();
        self.removers.push(remover);
        assert(self@ =~= old(self)@.push(remover@));
        kind
    }

    /// The registered stores, in registration order, for reading.
    pub fn removers(&self) -> (all: &[ComponentStore<D>])
        ensures
            all@.len() == self@.len(),
            forall|k: int| 0 <= k < all@.len() ==> (#[trigger] all@[k])@ == self@[k],
    {
        self.removers.as_slice()
    }

    /// The store of kind `kind`, for adding, removing and changing
    /// components, or `None` where no store has that kind.
    pub fn remover_mut(&mut self, kind: usize) -> (found: Option<&mut ComponentStore<D>>)
        ensures
            match found {
                Some(store) => kind < old(self)@.len() && store@ == old(self)@[kind as int]
                    && final(self)@ == old(self)@.update(kind as int, final(store)@),
                None => kind >= old(self)@.len() && final(self)@ == old(self)@,
            },
    {
        if kind < self.removers.len() {
            proof {
                let before = self.removers@;
                assert forall|store: ComponentStore<D>| #[trigger]
                    views(before.update(kind as int, store)) == views(before).update(
                        kind as int,
                        store@,
                    ) by {
                    assert(views(before.update(kind as int, store)) =~= views(before).update(
                        kind as int,
                        store@,
                    ));
                }
            }
            Some(&mut self.removers[kind])
        } else {
            None
        }
    }

    /// Takes the component of `e` out of every registered store, in
    /// registration order. A store without a component of `e` is left as it
    /// is.
    pub fn remove_everywhere(&mut self, e: &Entity)
        requires
            old(self).wf(),
        ensures
            final(self)@ == purged(old(self)@, *e),
            final(self).wf(),
    {
        let n: usize = self.removers.len();
        let mut k: usize = 0;
        assert forall|j: int| 0 <= j < n implies (#[trigger] self.removers@[j]).wf() by {
            assert(self@[j].wf());
        }
        while k < n
            invariant
                k <= n,
                n == self.removers@.len(),
                n == old(self).removers@.len(),
                forall|j: int| 0 <= j < k ==> (#[trigger] self.removers@[j])@ == old(
                    self,
                ).removers@[j]@.removed(*e),
                forall|j: int| k <= j < n ==> #[trigger] self.removers@[j] == old(self).removers@[j],
                forall|j: int| 0 <= j < n ==> (#[trigger] self.removers@[j]).wf(),
                old(self).wf(),
            decreases n - k,
        {
            self.removers[k].remove(e);
            k += 1;
        }
        assert(self@ =~= purged(old(self)@, *e));
    }
}

} // verus!
