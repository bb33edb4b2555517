//! What holds of a component store and of the registry under every sequence
//! of operations, proved over their views.

use crate::entity::Entity;
use crate::store::StoreView;
use crate::systems::purged;
use vstd::prelude::*;

verus! {

/// One change to a store.
pub enum StoreOp<D> {
    Add(Entity, D),
    Remove(Entity),
}

/// The store after one change.
pub open spec fn step<D>(store: StoreView<D>, op: StoreOp<D>) -> StoreView<D> {
    match op {
        StoreOp::Add(e, d) => store.added(e, d),
        StoreOp::Remove(e) => store.removed(e),
    }
}

/// The store after the changes of `ops`, first to last.
pub open spec fn applied<D>(store: StoreView<D>, ops: Seq<StoreOp<D>>) -> StoreView<D>
    decreases ops.len(),
{
    if ops.len() == 0 {
        store
    } else {
        step(applied(store, ops.drop_last()), ops.last())
    }
}

/// No addition of `ops` is for an entity that has a component at that
/// moment.
pub open spec fn adds_fresh<D>(store: StoreView<D>, ops: Seq<StoreOp<D>>) -> bool
    decreases ops.len(),
{
    ops.len() == 0 || (adds_fresh(store, ops.drop_last()) && match ops.last() {
        StoreOp::Add(e, _) => !applied(store, ops.drop_last()).contains(e),
        StoreOp::Remove(_) => true,
    })
}

/// After any sequence of additions and removals on a well-formed store,
/// every indexed entity resolves to a position in the dense arrays whose
/// component is its own. Where every component was indexed at the start and
/// no addition was for an entity that had a component already, the index
/// has as many entries as the dense arrays have components.
pub proof fn lemma_invariant_after_any_ops<D>(store: StoreView<D>, ops: Seq<StoreOp<D>>)
    requires
        store.wf(),
    ensures
        applied(store, ops).wf(),
        forall|e: Entity| #[trigger]
            applied(store, ops).contains(e) ==> applied(store, ops).owners[applied(
                store,
                ops,
            ).index[e]] == e,
        store.all_indexed() && adds_fresh(store, ops) ==> applied(store, ops).all_indexed() && applied(
            store,
            ops,
        ).index.len() == applied(store, ops).owners.len(),
    decreases ops.len(),
{
    if ops.len() > 0 {
        let before = applied(store, ops.drop_last());
        lemma_invariant_after_any_ops(store, ops.drop_last());
        match ops.last() {
            StoreOp::Add(e, d) => before.lemma_added(e, d),
            StoreOp::Remove(e) => before.lemma_removed(e),
        }
    }
    if store.all_indexed() && adds_fresh(store, ops) {
        applied(store, ops).lemma_all_indexed_counts();
    }
}

/// Removing the component of `e` from a store whose components are all
/// indexed leaves every other entity's component as it was; afterwards `e`
/// has none, and the dense array is shorter by one where `e` had one.
pub proof fn lemma_remove_spares_others<D>(store: StoreView<D>, e: Entity, other: Entity)
    requires
        store.wf(),
        store.all_indexed(),
        other != e,
    ensures
        store.removed(e).lookup(other) == store.lookup(other),
        store.removed(e).lookup(e).is_none(),
        store.contains(e) ==> store.removed(e).data.len() == store.data.len() - 1,
        !store.contains(e) ==> store.removed(e) == store,
{
    if store.contains(e) {
        assert(store.index.contains_key(e));
        if store.contains(other) {
            assert(store.index.contains_key(other));
        }
        if store.removed(e).contains(other) {
            assert(store.removed(e).index.contains_key(other));
        }
    }
}

/// Three entities without components receive one each, in a store whose
/// components are all indexed; then the first is removed. The second and the
/// third still find their components, the first finds none, and two
/// components more than at the start are left.
pub proof fn lemma_swap_remove<D>(
    store: StoreView<D>,
    e1: Entity,
    c1: D,
    e2: Entity,
    c2: D,
    e3: Entity,
    c3: D,
)
    requires
        store.wf(),
        store.all_indexed(),
        !store.contains(e1),
        !store.contains(e2),
        !store.contains(e3),
        e1 != e2,
        e1 != e3,
        e2 != e3,
    ensures
        ({
            let after = store.added(e1, c1).added(e2, c2).added(e3, c3).removed(e1);
            &&& after.lookup(e2) == Some(c2)
            &&& after.lookup(e3) == Some(c3)
            &&& after.lookup(e1).is_none()
            &&& after.data.len() == store.data.len() + 2
            &&& after.wf()
        }),
{
    let s1 = store.added(e1, c1);
    let s2 = s1.added(e2, c2);
    let s3 = s2.added(e3, c3);
    store.lemma_added(e1, c1);
    s1.lemma_added(e2, c2);
    s2.lemma_added(e3, c3);
    s3.lemma_removed(e1);
    lemma_remove_spares_others(s3, e1, e2);
    lemma_remove_spares_others(s3, e1, e3);
    assert(s3.contains(e1));
}

/// Removing twice is removing once.
pub proof fn lemma_remove_idempotent<D>(store: StoreView<D>, e: Entity)
    requires
        store.wf(),
    ensures
        store.removed(e).removed(e) == store.removed(e),
{
    if store.contains(e) {
        assert(store.index.contains_key(e));
    }
}

/// Destroying twice is destroying once, and destroying `e` leaves the
/// component of every other entity as it was, in every store whose
/// components are all indexed.
pub proof fn lemma_destroy_idempotent<D>(stores: Seq<StoreView<D>>, e: Entity, other: Entity)
    requires
        forall|k: int| 0 <= k < stores.len() ==> (#[trigger] stores[k]).wf(),
        other != e,
    ensures
        purged(purged(stores, e), e) == purged(stores, e),
        forall|k: int|
            0 <= k < stores.len() && stores[k].all_indexed() ==> (#[trigger] purged(stores, e)[k]).lookup(
                other,
            ) == stores[k].lookup(other),
{
    assert forall|k: int| 0 <= k < stores.len() implies #[trigger] purged(purged(stores, e), e)[k]
        == purged(stores, e)[k] by {
        lemma_remove_idempotent(stores[k], e);
    }
    assert(purged(purged(stores, e), e) =~= purged(stores, e));
    assert forall|k: int| 0 <= k < stores.len() && stores[k].all_indexed() implies (#[trigger] purged(
        stores,
        e,
    )[k]).lookup(other) == stores[k].lookup(other) by {
        lemma_remove_spares_others(stores[k], e, other);
    }
}

/// Once an entity is destroyed no store holds a component for it, however
/// many held one before, and a store that held none is exactly as it was.
pub proof fn lemma_destroy_cleans_every_store<D>(stores: Seq<StoreView<D>>, e: Entity)
    requires
        forall|k: int| 0 <= k < stores.len() ==> (#[trigger] stores[k]).wf(),
    ensures
        purged(stores, e).len() == stores.len(),
        forall|k: int| 0 <= k < stores.len() ==> !(#[trigger] purged(stores, e)[k]).contains(e),
        forall|k: int|
            0 <= k < stores.len() && !stores[k].contains(e) ==> #[trigger] purged(stores, e)[k]
                == stores[k],
        forall|k: int| 0 <= k < stores.len() ==> (#[trigger] purged(stores, e)[k]).wf(),
{
    assert forall|k: int| 0 <= k < stores.len() implies !(#[trigger] purged(stores, e)[k]).contains(
        e,
    ) && purged(stores, e)[k].wf() by {
        stores[k].lemma_removed(e);
        if stores[k].contains(e) {
            assert(stores[k].index.contains_key(e));
        }
    }
}

} // verus!
