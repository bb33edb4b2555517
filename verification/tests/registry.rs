use n64_game::entity::EntitySystem;
use n64_game::store::ComponentStore;
use n64_game::systems::Systems;

#[test]
fn created_entities_are_unique() {
    let mut es = EntitySystem::new();
    let mut live = Vec::new();
    for _ in 0..100 {
        assert!(es.has_free_id());
        live.push(es.create_entity());
    }
    for i in 0..live.len() {
        for j in 0..i {
            assert_ne!(live[i].entity(), live[j].entity());
            assert_ne!(live[i].entity().id(), live[j].entity().id());
        }
    }
}

#[test]
fn identifiers_count_up_from_zero() {
    let mut es = EntitySystem::new();
    assert_eq!(es.create_entity().entity().id(), 0);
    assert_eq!(es.create_entity().entity().id(), 1);
    assert_eq!(es.create_entity().entity().id(), 2);
}

#[test]
fn entity_created_after_a_destroy_is_new() {
    let mut es = EntitySystem::new();
    let mut systems: Systems<i32> = Systems::new();
    let first = es.create_entity();
    let first_id = first.entity();
    es.release(&mut systems, first);
    let second = es.create_entity();
    assert_ne!(second.entity(), first_id);
}

#[test]
fn owned_handle_lends_its_entity() {
    let mut es = EntitySystem::new();
    let owned = es.create_entity();
    assert_eq!(*owned.as_entity(), owned.entity());
}

#[test]
fn register_remover_gives_kinds_in_order() {
    let mut systems: Systems<i32> = Systems::new();
    assert_eq!(systems.removers().len(), 0);
    assert_eq!(systems.register_remover(ComponentStore::new()), 0);
    assert_eq!(systems.register_remover(ComponentStore::new()), 1);
    assert_eq!(systems.register_remover(ComponentStore::new()), 2);
    assert_eq!(systems.removers().len(), 3);
    assert!(systems.remover_mut(2).is_some());
    assert!(systems.remover_mut(3).is_none());
}

#[test]
fn register_remover_keeps_what_the_store_holds() {
    let mut es = EntitySystem::new();
    let e = es.create_entity().entity();
    let mut store: ComponentStore<i32> = ComponentStore::new();
    store.add(e, 5);
    let mut systems: Systems<i32> = Systems::new();
    systems.register_remover(ComponentStore::new());
    let kind = systems.register_remover(store);
    assert_eq!(kind, 1);
    assert_eq!(systems.removers()[0].len(), 0);
    assert_eq!(systems.removers()[1].lookup(&e), Some(&5));
}

#[test]
fn destroy_cleans_every_store() {
    let mut es = EntitySystem::new();
    let mut systems: Systems<i32> = Systems::new();
    let a = systems.register_remover(ComponentStore::new());
    let b = systems.register_remover(ComponentStore::new());
    let c = systems.register_remover(ComponentStore::new());
    let doomed = es.create_entity();
    let other = es.create_entity();
    let e = doomed.entity();
    let o = other.entity();
    systems.remover_mut(a).unwrap().add(e, 1);
    systems.remover_mut(a).unwrap().add(o, 2);
    systems.remover_mut(b).unwrap().add(o, 3);
    systems.remover_mut(b).unwrap().add(e, 4);
    systems.remover_mut(c).unwrap().add(o, 5);

    es.release(&mut systems, doomed);

    assert_eq!(systems.removers()[a].lookup(&e), None);
    assert_eq!(systems.removers()[b].lookup(&e), None);
    assert_eq!(systems.removers()[c].lookup(&e), None);
    assert_eq!(systems.removers()[a].components(), &[2]);
    assert_eq!(systems.removers()[b].components(), &[3]);
    assert_eq!(systems.removers()[c].components(), &[5]);
    assert_eq!(systems.removers()[c].entities(), &[o]);
    assert_eq!(systems.removers()[a].lookup(&o), Some(&2));
    assert_eq!(systems.removers()[b].lookup(&o), Some(&3));
    assert_eq!(systems.removers()[c].lookup(&o), Some(&5));
}

#[test]
fn destroy_twice_is_safe() {
    let mut es = EntitySystem::new();
    let mut systems: Systems<i32> = Systems::new();
    let kind = systems.register_remover(ComponentStore::new());
    let e = es.create_entity().entity();
    let o = es.create_entity().entity();
    systems.remover_mut(kind).unwrap().add(e, 1);
    systems.remover_mut(kind).unwrap().add(o, 2);
    es.destroy(&mut systems, &e);
    es.destroy(&mut systems, &e);
    assert_eq!(systems.removers()[kind].lookup(&e), None);
    assert_eq!(systems.removers()[kind].lookup(&o), Some(&2));
    assert_eq!(systems.removers()[kind].len(), 1);
}

#[test]
fn destroy_without_stores_does_nothing() {
    let mut es = EntitySystem::new();
    let mut systems: Systems<i32> = Systems::new();
    let e = es.create_entity().entity();
    es.destroy(&mut systems, &e);
    assert_eq!(systems.removers().len(), 0);
}

#[test]
fn remove_everywhere_spares_other_entities() {
    let mut es = EntitySystem::new();
    let mut systems: Systems<&str> = Systems::new();
    let k0 = systems.register_remover(ComponentStore::new());
    let k1 = systems.register_remover(ComponentStore::new());
    let e: Vec<_> = (0..4).map(|_| es.create_entity().entity()).collect();
    for (i, name) in ["a", "b", "c", "d"].into_iter().enumerate() {
        systems.remover_mut(k0).unwrap().add(e[i], name);
    }
    systems.remover_mut(k1).unwrap().add(e[1], "x");
    systems.remove_everywhere(&e[1]);
    assert_eq!(systems.removers()[k0].components(), &["a", "d", "c"]);
    assert!(systems.removers()[k1].components().is_empty());
    assert_eq!(systems.removers()[k0].lookup(&e[3]), Some(&"d"));
}
