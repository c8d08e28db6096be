use std::any::Any;

use fluid::ecs::{ArchetypeWorld, Component, ComponentKey, EntityId, WorldAny};

type Erased = Box<dyn Any + Send + Sync>;

const POSITION: ComponentKey = 1;
const VELOCITY: ComponentKey = 2;

#[derive(Debug, PartialEq)]
struct Position {
    x: f32,
    y: f32,
}

#[derive(Debug, PartialEq)]
struct Velocity {
    dx: f32,
    dy: f32,
}

fn get<'a, C: 'static>(w: &'a ArchetypeWorld<Erased>, e: EntityId, key: ComponentKey) -> Option<&'a C> {
    w.get_erased(e, key).and_then(|b| b.downcast_ref::<C>())
}

#[test]
fn entity_id_raw() {
    let id = EntityId(42);
    assert_eq!(id.raw(), 42);
}

#[test]
fn entity_id_equality() {
    assert_eq!(EntityId(1), EntityId(1));
    assert_ne!(EntityId(1), EntityId(2));
}

#[test]
fn entity_id_copy() {
    let a = EntityId(7);
    let b = a;
    assert_eq!(a, b);
}

#[test]
fn world_any_is_dyn_compatible() {
    fn accepts_dyn(_w: &dyn WorldAny<Erased>) {}
    fn accepts_box(_w: Box<dyn WorldAny<Erased>>) {}
    let _ = accepts_dyn as fn(&dyn WorldAny<Erased>);
    let _ = accepts_box as fn(Box<dyn WorldAny<Erased>>);
}

#[test]
fn spawn_returns_unique_ids() {
    let mut world: ArchetypeWorld<Erased> = ArchetypeWorld::new();
    let a = world.spawn();
    let b = world.spawn();
    assert_ne!(a, b);
    assert_eq!(world.entity_count(), 2);
}

#[test]
fn insert_and_get() {
    let mut world: ArchetypeWorld<Erased> = ArchetypeWorld::new();
    let e = world.spawn();
    world.insert_erased(e, POSITION, Box::new(Position { x: 1.0, y: 2.0 }));
    let p = get::<Position>(&world, e, POSITION).unwrap();
    assert_eq!(p.x, 1.0);
    assert_eq!(p.y, 2.0);
}

#[test]
fn get_mut_modifies_component() {
    let mut world: ArchetypeWorld<Erased> = ArchetypeWorld::new();
    let e = world.spawn();
    world.insert_erased(e, VELOCITY, Box::new(Velocity { dx: 0.0, dy: 0.0 }));
    world
        .get_erased_mut(e, VELOCITY)
        .and_then(|b| b.downcast_mut::<Velocity>())
        .unwrap()
        .dx = 5.0;
    assert_eq!(get::<Velocity>(&world, e, VELOCITY).unwrap().dx, 5.0);
}

#[test]
fn remove_component() {
    let mut world: ArchetypeWorld<Erased> = ArchetypeWorld::new();
    let e = world.spawn();
    world.insert_erased(e, POSITION, Box::new(Position { x: 0.0, y: 0.0 }));
    world.remove_erased(e, POSITION);
    assert!(get::<Position>(&world, e, POSITION).is_none());
}

#[test]
fn despawn_removes_entity() {
    let mut world: ArchetypeWorld<Erased> = ArchetypeWorld::new();
    let e = world.spawn();
    world.insert_erased(e, POSITION, Box::new(Position { x: 0.0, y: 0.0 }));
    world.despawn(e);
    assert_eq!(world.entity_count(), 0);
    assert!(get::<Position>(&world, e, POSITION).is_none());
}

#[test]
fn multiple_component_types_on_one_entity() {
    let mut world: ArchetypeWorld<Erased> = ArchetypeWorld::new();
    let e = world.spawn();
    world.insert_erased(e, POSITION, Box::new(Position { x: 3.0, y: 4.0 }));
    world.insert_erased(e, VELOCITY, Box::new(Velocity { dx: 1.0, dy: -1.0 }));
    assert_eq!(get::<Position>(&world, e, POSITION).unwrap().x, 3.0);
    assert_eq!(get::<Velocity>(&world, e, VELOCITY).unwrap().dx, 1.0);
}

#[test]
fn overwrite_component() {
    let mut world: ArchetypeWorld<Erased> = ArchetypeWorld::new();
    let e = world.spawn();
    world.insert_erased(e, POSITION, Box::new(Position { x: 0.0, y: 0.0 }));
    world.insert_erased(e, POSITION, Box::new(Position { x: 9.0, y: 9.0 }));
    assert_eq!(get::<Position>(&world, e, POSITION).unwrap().x, 9.0);
}

#[test]
fn insert_on_despawned_entity_is_silent() {
    let mut world: ArchetypeWorld<Erased> = ArchetypeWorld::new();
    let e = world.spawn();
    world.despawn(e);
    world.insert_erased(e, POSITION, Box::new(Position { x: 0.0, y: 0.0 }));
}

#[test]
fn archetype_world_as_dyn_world_any() {
    let mut world: Box<dyn WorldAny<Erased>> = Box::new(ArchetypeWorld::new());
    let e = world.spawn();
    world.insert_erased(e, POSITION, Box::new(Position { x: 1.0, y: 2.0 }));
    let any = world.get_erased(e, POSITION).unwrap();
    let p = any.downcast_ref::<Position>().unwrap();
    assert_eq!(p.x, 1.0);
    world.despawn(e);
}

#[test]
fn ids_count_up_from_one_and_are_not_reused() {
    let mut world: ArchetypeWorld<u32> = ArchetypeWorld::new();
    let a = world.spawn();
    assert_eq!(a.raw(), 1);
    world.despawn(a);
    let b = world.spawn();
    assert_eq!(b.raw(), 2);
    assert_eq!(world.entity_count(), 1);
}

#[allow(dead_code)]
struct TestComp(i32);

#[test]
fn test_comp_is_component() {
    fn assert_component<C: Component>() {}
    assert_component::<TestComp>();
}

#[test]
fn entity_count_follows_spawn_and_despawn() {
    let mut world: ArchetypeWorld<Erased> = ArchetypeWorld::new();
    assert_eq!(world.entity_count(), 0);
    let a = world.spawn();
    let b = world.spawn();
    assert_eq!(world.entity_count(), 2);
    world.insert_erased(a, 5, Box::new(1u8));
    world.remove_erased(a, 5);
    assert_eq!(world.entity_count(), 2);
    world.despawn(b);
    assert_eq!(world.entity_count(), 1);
    world.despawn(b);
    assert_eq!(world.entity_count(), 1);
}

#[test]
fn entity_count_is_the_number_of_spawned_ids_not_despawned() {
    let mut world: ArchetypeWorld<Erased> = ArchetypeWorld::new();
    let a = world.spawn();
    let b = world.spawn();
    let c = world.spawn();
    world.despawn(b);
    world.insert_erased(c, 1, Box::new(7u32));
    if let Some(v) = world.get_erased_mut(c, 1) {
        *v = Box::new(8u32);
    }
    world.remove_erased(a, 1);
    let d = world.spawn();
    world.despawn(EntityId(99));
    assert_eq!(d.raw(), 4);
    assert_eq!(world.entity_count(), 3);
    assert_eq!(world.next_id_value(), 5);
}
