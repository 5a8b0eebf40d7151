use lumina::ecs::{Entity, Name, Tag, World};

#[test]
fn new_world_is_empty() {
    let mut w = World::new();
    assert_eq!(w.entity_count(), 0);
    assert_eq!(w.raw().len(), 0);
}

#[test]
fn spawn_named_adds_entity() {
    let mut w = World::new();
    let a = w.spawn_named("Cube".to_string());
    let b = w.spawn_named("Ground".to_string());
    assert_ne!(a, b);
    assert_eq!(w.entity_count(), 2);
    let ea = hecs::Entity::from_bits(a.0).unwrap();
    assert!(w.raw().contains(ea));
    let name = w.raw().get::<&Name>(ea).unwrap();
    assert_eq!(name.0, "Cube");
}

#[test]
fn despawn_is_deferred_until_flush() {
    let mut w = World::new();
    let a = w.spawn_named("A".to_string());
    let b = w.spawn_named("B".to_string());
    w.despawn(a);
    assert_eq!(w.entity_count(), 2);
    w.flush();
    assert_eq!(w.entity_count(), 1);
    assert!(!w.raw().contains(hecs::Entity::from_bits(a.0).unwrap()));
    assert!(w.raw().contains(hecs::Entity::from_bits(b.0).unwrap()));
}

#[test]
fn flush_skips_dead_and_repeated() {
    let mut w = World::new();
    let a = w.spawn_named("A".to_string());
    let _b = w.spawn_named("B".to_string());
    w.despawn(a);
    w.despawn(a);
    w.despawn(Entity(0));
    w.flush();
    assert_eq!(w.entity_count(), 1);
    w.flush();
    assert_eq!(w.entity_count(), 1);
}

#[test]
fn fresh_entity_after_despawn() {
    let mut w = World::new();
    let a = w.spawn_named("A".to_string());
    w.despawn(a);
    w.flush();
    let c = w.spawn_named("C".to_string());
    assert_ne!(a, c);
    assert_eq!(w.entity_count(), 1);
}

#[test]
fn raw_mut_spawn_is_counted() {
    let mut w = World::new();
    w.raw_mut().spawn((Tag("player".to_string()),));
    assert_eq!(w.entity_count(), 1);
}

#[test]
fn name_and_tag_defaults() {
    assert_eq!(Name::default().0, "");
    assert_eq!(Tag::default().0, "");
    assert_eq!(Name("x".to_string()).clone().0, "x");
    assert_eq!(Tag("y".to_string()).clone().0, "y");
}

#[test]
fn spawn_named_gives_the_entity_its_name() {
    let mut w = World::new();
    let a = w.spawn_named("Player".to_string());
    let b = w.spawn_named("Enemy".to_string());
    let ea = hecs::Entity::from_bits(a.0).unwrap();
    let eb = hecs::Entity::from_bits(b.0).unwrap();
    assert_eq!(w.raw().get::<&Name>(ea).unwrap().0, "Player");
    assert_eq!(w.raw().get::<&Name>(eb).unwrap().0, "Enemy");
    w.despawn(a);
    w.flush();
    assert!(w.raw().get::<&Name>(ea).is_err());
    assert_eq!(w.raw().get::<&Name>(eb).unwrap().0, "Enemy");
}

#[test]
fn reservations_are_counted_once_flushed() {
    let mut w = World::new();
    let _a = w.spawn_named("A".to_string());
    let r = w.raw().reserve_entity();
    assert!(w.raw().contains(r));
    // Reserved but not yet flushed: not counted.
    assert_eq!(w.entity_count(), 1);
    // A spawn flushes the reservation into a real entity.
    let _b = w.spawn_named("B".to_string());
    assert_eq!(w.entity_count(), 3);
    assert!(w.raw().contains(r));
}

#[test]
fn despawn_flush_turns_reservations_real() {
    let mut w = World::new();
    let a = w.spawn_named("A".to_string());
    let r = w.raw().reserve_entity();
    assert_eq!(w.entity_count(), 1);
    w.despawn(a);
    w.flush();
    // The despawn reached hecs, which flushed the reservation first.
    assert_eq!(w.entity_count(), 1);
    assert!(w.raw().contains(r));
}

#[test]
fn flush_without_generation_keeps_reservations_pending() {
    let mut w = World::new();
    let r = w.raw().reserve_entity();
    w.despawn(Entity(7));
    w.flush();
    assert_eq!(w.entity_count(), 0);
    assert!(w.raw().contains(r));
}
