use fluid::command::{CommandHistory, SceneCommand, SceneCommandError};
use fluid::ecs::EntityId;
use fluid::scene::{EditCmd, MoveEntityCmd, RenameEntityCmd, Scene};

#[derive(Debug)]
struct NoOp {
    label: &'static str,
    executed: u32,
    undone: u32,
}

impl NoOp {
    fn new(label: &'static str) -> Self {
        NoOp { label, executed: 0, undone: 0 }
    }
}

impl SceneCommand<Scene<()>> for NoOp {
    fn label(&self) -> &str {
        self.label
    }

    fn execute(&mut self, _scene: &mut Scene<()>) -> Result<(), SceneCommandError> {
        self.executed += 1;
        Ok(())
    }

    fn undo(&mut self, _scene: &mut Scene<()>) -> Result<(), SceneCommandError> {
        self.undone += 1;
        Ok(())
    }
}

fn empty_scene() -> Scene<()> {
    Scene::new()
}

#[test]
fn history_empty_undo_returns_nothing_to_undo() {
    let mut h: CommandHistory<NoOp> = CommandHistory::new(10);
    let mut s = empty_scene();
    let err = h.undo(&mut s).unwrap_err();
    assert!(matches!(err, SceneCommandError::NothingToUndo));
}

#[test]
fn history_empty_redo_returns_nothing_to_redo() {
    let mut h: CommandHistory<NoOp> = CommandHistory::new(10);
    let mut s = empty_scene();
    let err = h.redo(&mut s).unwrap_err();
    assert!(matches!(err, SceneCommandError::NothingToRedo));
}

#[test]
fn execute_then_undo_then_redo() {
    let mut h: CommandHistory<NoOp> = CommandHistory::new(10);
    let mut s = empty_scene();

    h.execute(NoOp::new("A"), &mut s).unwrap();
    assert!(h.can_undo());
    assert!(!h.can_redo());
    assert_eq!(h.peek_undo_label::<Scene<()>>(), Some("A"));

    h.undo(&mut s).unwrap();
    assert!(!h.can_undo());
    assert!(h.can_redo());

    h.redo(&mut s).unwrap();
    assert!(h.can_undo());
    assert!(!h.can_redo());
}

#[test]
fn new_command_clears_redo_stack() {
    let mut h: CommandHistory<NoOp> = CommandHistory::new(10);
    let mut s = empty_scene();

    h.execute(NoOp::new("A"), &mut s).unwrap();
    h.undo(&mut s).unwrap();
    assert!(h.can_redo());

    h.execute(NoOp::new("B"), &mut s).unwrap();
    assert!(!h.can_redo());
    assert_eq!(h.peek_undo_label::<Scene<()>>(), Some("B"));
}

#[test]
fn depth_limit_drops_oldest() {
    let mut h: CommandHistory<NoOp> = CommandHistory::new(3);
    let mut s = empty_scene();

    for name in ["A", "B", "C", "D"] {
        h.execute(NoOp::new(name), &mut s).unwrap();
    }
    let labels = h.undo_labels::<Scene<()>>(10);
    assert_eq!(labels, vec!["D", "C", "B"]);
}

#[test]
fn clear_resets_both_stacks() {
    let mut h: CommandHistory<NoOp> = CommandHistory::new(10);
    let mut s = empty_scene();

    h.execute(NoOp::new("A"), &mut s).unwrap();
    h.undo(&mut s).unwrap();
    h.clear();
    assert!(!h.can_undo());
    assert!(!h.can_redo());
}

#[test]
fn default_history_keeps_two_hundred_commands() {
    let mut h: CommandHistory<NoOp> = CommandHistory::default();
    let mut s = empty_scene();
    for _ in 0..205 {
        h.execute(NoOp::new("X"), &mut s).unwrap();
    }
    assert_eq!(h.undo_labels::<Scene<()>>(1000).len(), 200);
}

#[test]
fn undo_labels_respects_limit_and_order() {
    let mut h: CommandHistory<NoOp> = CommandHistory::new(10);
    let mut s = empty_scene();
    for name in ["A", "B", "C"] {
        h.execute(NoOp::new(name), &mut s).unwrap();
    }
    assert_eq!(h.undo_labels::<Scene<()>>(2), vec!["C", "B"]);
    assert_eq!(h.peek_redo_label::<Scene<()>>(), None);
    h.undo(&mut s).unwrap();
    assert_eq!(h.peek_redo_label::<Scene<()>>(), Some("C"));
}

#[test]
fn error_messages() {
    assert_eq!(SceneCommandError::NothingToUndo.message(), "nothing to undo");
    assert_eq!(SceneCommandError::NothingToRedo.message(), "nothing to redo");
    assert_eq!(
        SceneCommandError::ExecuteError("x".to_string()).message(),
        "command execute failed: x"
    );
    assert_eq!(SceneCommandError::UndoError("y".to_string()).message(), "command undo failed: y");
}

#[test]
fn rename_through_history_and_undo() {
    let mut s: Scene<u32> = Scene::new();
    let e = s.spawn_object("Cube".to_string());
    let mut h: CommandHistory<EditCmd<u32>> = CommandHistory::new(10);
    let cmd = RenameEntityCmd::new(e, "Cube".to_string(), "Sphere".to_string());
    h.execute(EditCmd::Rename(cmd), &mut s).unwrap();
    assert_eq!(s.meta(e).unwrap().name, "Sphere");
    assert_eq!(h.peek_undo_label::<Scene<u32>>(), Some("Rename Entity"));
    h.undo(&mut s).unwrap();
    assert_eq!(s.meta(e).unwrap().name, "Cube");
    h.redo(&mut s).unwrap();
    assert_eq!(s.meta(e).unwrap().name, "Sphere");
}

#[test]
fn rename_of_missing_entity_fails() {
    let mut s: Scene<u32> = Scene::new();
    let mut h: CommandHistory<EditCmd<u32>> = CommandHistory::new(10);
    let cmd = RenameEntityCmd::new(EntityId(7), String::new(), "X".to_string());
    let err = h.execute(EditCmd::Rename(cmd), &mut s).unwrap_err();
    match err {
        SceneCommandError::ExecuteError(m) => {
            assert_eq!(m, "RenameEntityCmd: entity EntityId(7) not found")
        }
        other => panic!("unexpected {:?}", other),
    }
    assert!(!h.can_undo());
}

#[test]
fn move_through_history_and_undo() {
    let mut s: Scene<[f32; 3]> = Scene::new();
    let e = s.spawn_object("Cube".to_string());
    s.set_position(e, [1.0, 2.0, 3.0]);
    let mut h: CommandHistory<EditCmd<[f32; 3]>> = CommandHistory::new(10);
    let cmd = MoveEntityCmd::new(e, [1.0, 2.0, 3.0], [4.0, 5.0, 6.0]);
    h.execute(EditCmd::Move(cmd), &mut s).unwrap();
    assert_eq!(s.get_position(e), Some(&[4.0, 5.0, 6.0]));
    assert_eq!(h.peek_undo_label::<Scene<[f32; 3]>>(), Some("Move Entity"));
    h.undo(&mut s).unwrap();
    assert_eq!(s.get_position(e), Some(&[1.0, 2.0, 3.0]));
}

#[test]
fn undone_label_is_offered_for_redo() {
    let mut s: Scene<u32> = Scene::new();
    let e = s.spawn_object("Cube".to_string());
    let mut h: CommandHistory<EditCmd<u32>> = CommandHistory::new(10);
    h.execute(EditCmd::Rename(RenameEntityCmd::new(e, "Cube".to_string(), "A".to_string())), &mut s).unwrap();
    h.execute(EditCmd::Move(MoveEntityCmd::new(e, 0, 5)), &mut s).unwrap();
    assert_eq!(h.peek_redo_label::<Scene<u32>>(), None);
    let before = h.peek_undo_label::<Scene<u32>>().map(|l| l.to_string());
    assert_eq!(before.as_deref(), Some("Move Entity"));
    h.undo(&mut s).unwrap();
    assert_eq!(h.peek_redo_label::<Scene<u32>>().map(|l| l.to_string()), before);
    assert_eq!(h.peek_undo_label::<Scene<u32>>(), Some("Rename Entity"));
    h.redo(&mut s).unwrap();
    assert_eq!(h.peek_undo_label::<Scene<u32>>(), Some("Move Entity"));
    assert_eq!(h.peek_redo_label::<Scene<u32>>(), None);
}

fn assert_undo_queries_agree(h: &CommandHistory<NoOp>) {
    let peek = h.peek_undo_label::<Scene<()>>();
    let one = h.undo_labels::<Scene<()>>(1);
    assert_eq!(h.can_undo(), peek.is_some());
    assert_eq!(one.first().copied(), peek);
    assert_eq!(h.can_redo(), h.peek_redo_label::<Scene<()>>().is_some());
}

#[test]
fn history_queries_agree_after_every_step() {
    let mut h: CommandHistory<NoOp> = CommandHistory::new(10);
    let mut s = empty_scene();
    assert_undo_queries_agree(&h);
    h.execute(NoOp::new("A"), &mut s).unwrap();
    assert_eq!(h.peek_undo_label::<Scene<()>>(), Some("A"));
    assert!(!h.can_redo());
    assert_undo_queries_agree(&h);
    h.execute(NoOp::new("B"), &mut s).unwrap();
    assert_undo_queries_agree(&h);
    h.undo(&mut s).unwrap();
    assert_eq!(h.peek_redo_label::<Scene<()>>(), Some("B"));
    assert_undo_queries_agree(&h);
    h.redo(&mut s).unwrap();
    assert_eq!(h.peek_undo_label::<Scene<()>>(), Some("B"));
    assert!(h.can_undo());
    assert_undo_queries_agree(&h);
    h.clear();
    assert!(!h.can_undo());
    assert!(!h.can_redo());
    assert_undo_queries_agree(&h);
}
