use fluid::app_state::{load_scene, scene_file};
use fluid::app_state::{AppCore, CoreAction, CoreMsg, MenuTarget, SceneFile, SimClock};
use fluid::scene::Scene;
use fluid::ecs::EntityId;

type Pos = [f32; 3];

fn fresh() -> AppCore<Pos> {
    AppCore::new([0.0, 0.0, 0.0])
}

fn run(c: &mut AppCore<Pos>, msg: CoreMsg<Pos>) -> CoreAction<Pos> {
    assert!(c.can_handle(&msg));
    c.update(msg)
}

#[test]
fn menu_click_toggles() {
    let mut c = fresh();
    run(&mut c, CoreMsg::MenuOpen(MenuTarget::File));
    assert_eq!(c.menu_open, Some(MenuTarget::File));
    run(&mut c, CoreMsg::MenuOpen(MenuTarget::Edit));
    assert_eq!(c.menu_open, Some(MenuTarget::Edit));
    run(&mut c, CoreMsg::MenuOpen(MenuTarget::Edit));
    assert_eq!(c.menu_open, None);
    run(&mut c, CoreMsg::MenuOpen(MenuTarget::Help));
    run(&mut c, CoreMsg::MenuClose);
    assert_eq!(c.menu_open, None);
}

#[test]
fn sim_clock_ticks_only_when_running() {
    let mut clock = SimClock::new();
    assert!(!clock.maybe_tick());
    assert_eq!(clock.tick, 0);
    clock.running = true;
    assert!(clock.maybe_tick());
    clock.step();
    assert_eq!(clock.tick, 2);
    clock.reset();
    assert_eq!(clock, SimClock { running: false, tick: 0 });
}

#[test]
fn debug_tick_publishes_snapshot() {
    let mut c = fresh();
    match run(&mut c, CoreMsg::DebugTick) {
        CoreAction::Frame { ticked, frame, scene_name, entity_count } => {
            assert!(!ticked);
            assert_eq!(frame, 1);
            assert_eq!(scene_name, "\u{2014}");
            assert_eq!(entity_count, 0);
        }
        _ => panic!("expected a frame snapshot"),
    }
    run(&mut c, CoreMsg::NewScene);
    run(&mut c, CoreMsg::SimToggle);
    match run(&mut c, CoreMsg::DebugTick) {
        CoreAction::Frame { ticked, frame, scene_name, .. } => {
            assert!(ticked);
            assert_eq!(frame, 2);
            assert_eq!(scene_name, "Untitled");
        }
        _ => panic!("expected a frame snapshot"),
    }
    assert_eq!(c.sim.tick, 1);
}

#[test]
fn rename_and_undo_through_messages() {
    let mut c = fresh();
    run(&mut c, CoreMsg::NewScene);
    let file = SceneFile { scene_name: "Lab".to_string(), entities: vec![("Cube".to_string(), [1.0, 2.0, 3.0])] };
    run(&mut c, CoreMsg::Opened("lab.fluid".to_string(), Ok(file)));
    assert_eq!(c.status_message.as_deref(), Some("Opened \u{2014} 1 object(s)"));
    assert_eq!(c.current_path.as_deref(), Some("lab.fluid"));
    let e = EntityId(1);
    run(&mut c, CoreMsg::RenameEntity(e, "Box".to_string()));
    assert_eq!(c.prop_name_buf, "Box");
    assert_eq!(c.scene.as_ref().unwrap().meta(e).unwrap().name, "Box");
    run(&mut c, CoreMsg::Undo);
    assert_eq!(c.scene.as_ref().unwrap().meta(e).unwrap().name, "Cube");
    run(&mut c, CoreMsg::Redo);
    assert_eq!(c.scene.as_ref().unwrap().meta(e).unwrap().name, "Box");
}

#[test]
fn move_and_reset_positions() {
    let mut c = fresh();
    let file = SceneFile { scene_name: "S".to_string(), entities: vec![("A".to_string(), [1.0, 1.0, 1.0])] };
    run(&mut c, CoreMsg::Opened("s.fluid".to_string(), Ok(file)));
    let e = EntityId(1);
    run(&mut c, CoreMsg::MoveEntity(e, [5.0, 0.0, 0.0]));
    assert_eq!(c.scene.as_ref().unwrap().get_position(e), Some(&[5.0, 0.0, 0.0]));
    run(&mut c, CoreMsg::Undo);
    assert_eq!(c.scene.as_ref().unwrap().get_position(e), Some(&[1.0, 1.0, 1.0]));
    run(&mut c, CoreMsg::SimReset);
    assert_eq!(c.scene.as_ref().unwrap().get_position(e), Some(&[0.0, 0.0, 0.0]));
}

#[test]
fn save_dialog_uses_known_path() {
    let mut c = fresh();
    assert!(matches!(run(&mut c, CoreMsg::SaveFileDialog), CoreAction::PickSaveFile));
    run(&mut c, CoreMsg::NewScene);
    run(&mut c, CoreMsg::SaveDone("a.fluid".to_string(), Ok(())));
    assert_eq!(c.status_message.as_deref(), Some("Scene saved."));
    match run(&mut c, CoreMsg::SaveFileDialog) {
        CoreAction::SaveTo(p) => assert_eq!(p, "a.fluid"),
        _ => panic!("expected a save to the known path"),
    }
    run(&mut c, CoreMsg::SaveDone("b.fluid".to_string(), Err("disk full".to_string())));
    assert_eq!(c.status_message.as_deref(), Some("Save failed: disk full"));
    assert_eq!(c.current_path.as_deref(), Some("a.fluid"));
}

#[test]
fn save_file_writes_names_and_positions() {
    let mut c = fresh();
    let file = SceneFile {
        scene_name: "S".to_string(),
        entities: vec![("A".to_string(), [1.0, 2.0, 3.0]), ("B".to_string(), [4.0, 5.0, 6.0])],
    };
    run(&mut c, CoreMsg::Opened("s.fluid".to_string(), Ok(file)));
    match run(&mut c, CoreMsg::SaveFile("t.fluid".to_string())) {
        CoreAction::WriteScene(path, f) => {
            assert_eq!(path, "t.fluid");
            assert_eq!(f.scene_name, "S");
            assert_eq!(
                f.entities,
                vec![
                    (EntityId(1), "A".to_string(), [1.0, 2.0, 3.0]),
                    (EntityId(2), "B".to_string(), [4.0, 5.0, 6.0])
                ]
            );
        }
        _ => panic!("expected a scene write"),
    }
}

#[test]
fn autosave_only_when_dirty_with_a_path() {
    let mut c = fresh();
    assert!(matches!(run(&mut c, CoreMsg::AutosaveTick), CoreAction::Nothing));
    let file = SceneFile { scene_name: "S".to_string(), entities: vec![] };
    run(&mut c, CoreMsg::Opened("s.fluid".to_string(), Ok(file)));
    assert!(matches!(run(&mut c, CoreMsg::AutosaveTick), CoreAction::Nothing));
    run(&mut c, CoreMsg::Imported("m.glb".to_string(), Ok(vec![("Mesh".to_string(), [0.0, 0.0, 0.0])])));
    match run(&mut c, CoreMsg::AutosaveTick) {
        CoreAction::SaveTo(p) => assert_eq!(p, "s.fluid"),
        _ => panic!("expected an autosave"),
    }
}

#[test]
fn import_reports_and_selects_first() {
    let mut c = fresh();
    let act = run(
        &mut c,
        CoreMsg::Imported("m.glb".to_string(), Ok(vec![("M0".to_string(), [0.0; 3]), ("M1".to_string(), [1.5, 0.0, 0.0])])),
    );
    match act {
        CoreAction::Select(e) => assert_eq!(e, EntityId(1)),
        _ => panic!("expected a selection"),
    }
    assert_eq!(c.status_message.as_deref(), Some("Imported 2 mesh(es) from m.glb"));
    assert_eq!(c.scene.as_ref().unwrap().root_entities().len(), 2);
    run(&mut c, CoreMsg::Imported("e.obj".to_string(), Ok(vec![])));
    assert_eq!(c.status_message.as_deref(), Some("Import: file contained no mesh data."));
    run(&mut c, CoreMsg::Imported("x.stl".to_string(), Err("bad file".to_string())));
    assert_eq!(c.status_message.as_deref(), Some("Import failed: bad file"));
}

#[test]
fn preset_needs_a_selection() {
    let mut c = fresh();
    run(&mut c, CoreMsg::LoadPreset(Some(("Water".to_string(), [1.0, 0.0, 0.0]))));
    assert_eq!(c.status_message.as_deref(), Some("Select an object first."));
    let file = SceneFile { scene_name: "S".to_string(), entities: vec![("A".to_string(), [0.0; 3])] };
    run(&mut c, CoreMsg::Opened("s.fluid".to_string(), Ok(file)));
    run(&mut c, CoreMsg::SelectEntity(EntityId(1)));
    assert_eq!(c.prop_name_buf, "A");
    run(&mut c, CoreMsg::LoadPreset(Some(("Water".to_string(), [1.0, 0.0, 0.0]))));
    assert_eq!(c.status_message.as_deref(), Some("Preset \"Water\" applied."));
    assert!(c.scene.as_ref().unwrap().dirty);
}

#[test]
fn place_objects_follows_outliner_order() {
    let mut c = fresh();
    let file = SceneFile {
        scene_name: "S".to_string(),
        entities: vec![("A".to_string(), [0.0; 3]), ("B".to_string(), [0.0; 3])],
    };
    run(&mut c, CoreMsg::Opened("s.fluid".to_string(), Ok(file)));
    c.place_objects(vec![[2.0, 0.0, 0.0], [3.5, 0.0, 0.0]]);
    let s = c.scene.as_ref().unwrap();
    assert_eq!(s.get_position(EntityId(1)), Some(&[2.0, 0.0, 0.0]));
    assert_eq!(s.get_position(EntityId(2)), Some(&[3.5, 0.0, 0.0]));
}

#[test]
fn new_scene_clears_history() {
    let mut c = fresh();
    run(&mut c, CoreMsg::NewScene);
    run(&mut c, CoreMsg::Undo);
    assert!(!c.history.can_undo());
    assert_eq!(c.scene.as_ref().unwrap().name, "Untitled");
}

fn names(c: &AppCore<Pos>) -> Vec<String> {
    let s = c.scene.as_ref().unwrap();
    s.root_entities().iter().map(|e| s.meta(*e).unwrap().name.clone()).collect()
}

#[test]
fn spawn_creates_a_scene_and_numbered_objects() {
    let mut c = fresh();
    run(&mut c, CoreMsg::SpawnEntity);
    assert_eq!(names(&c), vec!["Object 1"]);
    assert_eq!(c.scene.as_ref().unwrap().name, "Untitled");
    run(&mut c, CoreMsg::SpawnEntity);
    assert_eq!(names(&c), vec!["Object 1", "Object 2"]);
    assert_eq!(c.history.peek_undo_label::<Scene<Pos>>(), Some("Spawn Entity"));
    run(&mut c, CoreMsg::Undo);
    assert_eq!(names(&c), vec!["Object 1"]);
    run(&mut c, CoreMsg::Redo);
    assert_eq!(names(&c), vec!["Object 1", "Object 2"]);
    // the redone object has a fresh id
    let ids = c.scene.as_ref().unwrap().root_entities().to_vec();
    assert_eq!(ids, vec![EntityId(1), EntityId(3)]);
}

#[test]
fn delete_removes_the_selection_and_undo_restores_it() {
    let mut c = fresh();
    run(&mut c, CoreMsg::SpawnEntity);
    run(&mut c, CoreMsg::SpawnEntity);
    let ids = c.scene.as_ref().unwrap().root_entities().to_vec();
    run(&mut c, CoreMsg::MoveEntity(ids[0], [1.0, 2.0, 3.0]));
    run(&mut c, CoreMsg::SelectEntity(ids[0]));
    run(&mut c, CoreMsg::DeleteEntity);
    assert_eq!(c.selected_entity, None);
    assert_eq!(c.prop_name_buf, "");
    assert_eq!(names(&c), vec!["Object 2"]);
    assert_eq!(c.history.peek_undo_label::<Scene<Pos>>(), Some("Delete Entity"));
    run(&mut c, CoreMsg::Undo);
    assert_eq!(names(&c), vec!["Object 2", "Object 1"]);
    let s = c.scene.as_ref().unwrap();
    let restored = s.root_entities()[1];
    assert_ne!(restored, ids[0]);
    assert_eq!(s.get_position(restored), Some(&[1.0, 2.0, 3.0]));
    run(&mut c, CoreMsg::Redo);
    assert_eq!(names(&c), vec!["Object 2"]);
}

#[test]
fn delete_without_selection_changes_nothing() {
    let mut c = fresh();
    run(&mut c, CoreMsg::DeleteEntity);
    assert!(c.scene.is_none());
    run(&mut c, CoreMsg::SpawnEntity);
    run(&mut c, CoreMsg::DeleteEntity);
    assert_eq!(names(&c), vec!["Object 1"]);
    assert_eq!(c.history.peek_undo_label::<Scene<Pos>>(), Some("Spawn Entity"));
}

#[test]
fn save_then_open_gives_the_objects_back() {
    let mut s: Scene<Pos> = Scene::new();
    let a = s.spawn_object("A".to_string());
    let b = s.spawn_object("B".to_string());
    s.set_position(b, [1.0, 2.0, 3.0]);
    s.set_name("Lab".to_string());
    let snap = scene_file(&s, &[0.0, 0.0, 0.0]);
    assert_eq!(snap.entities.iter().map(|e| e.0).collect::<Vec<_>>(), vec![a, b]);
    let file = SceneFile {
        scene_name: snap.scene_name.clone(),
        entities: snap.entities.iter().map(|(_, n, p)| (n.clone(), *p)).collect(),
    };
    let s1 = load_scene(file);
    assert_eq!(s1.name, "Lab");
    assert!(!s1.dirty);
    let ids = s1.root_entities().to_vec();
    assert_eq!(ids, vec![EntityId(1), EntityId(2)]);
    assert_eq!(s1.meta(ids[0]).unwrap().name, "A");
    assert_eq!(s1.meta(ids[1]).unwrap().name, "B");
    assert_eq!(s1.get_position(ids[0]), Some(&[0.0, 0.0, 0.0]));
    assert_eq!(s1.get_position(ids[1]), Some(&[1.0, 2.0, 3.0]));
}
