use fluid::command::{SceneCommand, SceneCommandError};
use fluid::scene::{DespawnEntityCmd, SpawnEntityCmd};
use fluid::ecs::EntityId;
use fluid::scene::{entity_id_text, Scene};

#[test]
fn new_scene_is_empty() {
    let s: Scene<()> = Scene::new();
    assert_eq!(s.root_entities().len(), 0);
    assert_eq!(s.name, "Untitled");
    assert!(!s.dirty);
}

#[test]
fn spawn_and_despawn() {
    let mut s: Scene<()> = Scene::new();
    let e = s.spawn_object("Cube".to_string());
    assert_eq!(s.root_entities().len(), 1);
    assert!(s.dirty);
    assert_eq!(s.meta(e).unwrap().name, "Cube");

    s.despawn_object(e);
    assert_eq!(s.root_entities().len(), 0);
    assert!(s.meta(e).is_none());
}

#[test]
fn mark_clean_clears_dirty() {
    let mut s: Scene<()> = Scene::new();
    s.spawn_object("A".to_string());
    assert!(s.dirty);
    s.mark_clean();
    assert!(!s.dirty);
}

#[test]
fn positions_are_stored_per_entity() {
    let mut s: Scene<[f32; 3]> = Scene::new();
    let a = s.spawn_object("A".to_string());
    let b = s.spawn_object("B".to_string());
    assert_eq!(s.get_position(a), None);
    s.set_position(a, [1.0, 0.0, 0.0]);
    assert_eq!(s.get_position(a), Some(&[1.0, 0.0, 0.0]));
    assert_eq!(s.get_position(b), None);
    s.set_position(EntityId(99), [5.0, 5.0, 5.0]);
    assert_eq!(s.get_position(EntityId(99)), None);
}

#[test]
fn outliner_keeps_spawn_order() {
    let mut s: Scene<()> = Scene::new();
    let a = s.spawn_object("A".to_string());
    let b = s.spawn_object("B".to_string());
    let c = s.spawn_object("C".to_string());
    s.despawn_object(b);
    assert_eq!(s.root_entities(), &[a, c]);
}

#[test]
fn entity_ids_render_as_debug_form() {
    assert_eq!(entity_id_text(EntityId(12)), "EntityId(12)");
}


#[test]
fn spawn_command_spawns_and_undo_despawns() {
    let mut s: Scene<u8> = Scene::new();
    let mut c = SpawnEntityCmd::new("Probe".to_string());
    assert_eq!(SceneCommand::<Scene<u8>>::label(&c), "Spawn Entity");
    let mut fresh = SpawnEntityCmd::new("X".to_string());
    match SceneCommand::<Scene<u8>>::undo(&mut fresh, &mut s) {
        Err(SceneCommandError::UndoError(m)) => assert_eq!(m, "SpawnEntityCmd: nothing was spawned"),
        other => panic!("unexpected {:?}", other),
    }
    c.execute(&mut s).unwrap();
    let e = c.spawned.unwrap();
    assert_eq!(s.root_entities(), &[e]);
    assert_eq!(s.meta(e).unwrap().name, "Probe");
    c.undo(&mut s).unwrap();
    assert!(s.root_entities().is_empty());
    assert!(s.meta(e).is_none());
}

#[test]
fn despawn_command_restores_name_and_position() {
    let mut s: Scene<u8> = Scene::new();
    let a = s.spawn_object("A".to_string());
    s.set_position(a, 7);
    let mut c = DespawnEntityCmd::new(a, "A".to_string(), 7u8);
    assert_eq!(c.label(), "Delete Entity");
    c.execute(&mut s).unwrap();
    assert!(s.root_entities().is_empty());
    c.undo(&mut s).unwrap();
    let b = c.entity;
    assert_ne!(a, b);
    assert_eq!(s.root_entities(), &[b]);
    assert_eq!(s.meta(b).unwrap().name, "A");
    assert_eq!(s.get_position(b), Some(&7));
    c.execute(&mut s).unwrap();
    assert!(s.root_entities().is_empty());
}
