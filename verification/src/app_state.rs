//! The application's state machine: which menu is open, the scene and its
//! undo history, the selection, the file the scene belongs to, the
//! simulation clock, the frame counter and the status line. Each message of
//! the user interface or of a finished background job is turned into the next
//! state and an action that the user interface carries out (a file dialog, a
//! file write, a follow-up message).
use vstd::prelude::*;
use crate::command::{
    execute_outcome,
    make_room,
    redo_outcome,
    undo_outcome,
    CommandHistory,
    SceneCommand,
    SceneCommandError,
};
use crate::ecs::EntityId;
use crate::scene::{
    lemma_edit_keeps_wf,
    DespawnEntityCmd,
    EditCmd,
    MoveEntityCmd,
    SpawnEntityCmd,
    ObjectMeta,
    RenameEntityCmd,
    Scene,
    POSITION_KEY,
};
use crate::text::{decimal, owned, push_decimal};

verus! {

/// Component key under which the simulation material parameters of an entity
/// are stored.
pub const SIM_PARAMS_KEY: u64 = 2;

/// Which top-level menu is open.
#[derive(Debug, Clone, Copy, PartialEq, Eq, Structural)]
pub enum MenuTarget {
    File,
    Edit,
    Simulation,
    View,
    Help,
}

/// The menu state after a click on the menu `t`: a second click on the open
/// menu closes it, a click on another menu opens that one.
pub open spec fn toggled(cur: Option<MenuTarget>, t: MenuTarget) -> Option<MenuTarget> {
    if cur == Some(t) {
        None
    } else {
        Some(t)
    }
}

/// Whether the preview simulation is advancing, and how many ticks it has made.
#[derive(Debug, Clone, Copy, PartialEq, Eq, Structural)]
pub struct SimClock {
    pub running: bool,
    pub tick: u64,
}

impl SimClock {
    /// A stopped clock at tick zero.
    pub fn new() -> (c: Self)
        ensures
            !c.running,
            c.tick == 0,
    {
        SimClock { running: false, tick: 0 }
    }

    /// Advances one tick when running; returns whether it did.
    pub fn maybe_tick(&mut self) -> (r: bool)
        requires
            old(self).tick < u64::MAX,
        ensures
            r == old(self).running,
            final(self).running == old(self).running,
            final(self).tick == if old(self).running {
                old(self).tick + 1
            } else {
                old(self).tick as int
            },
    {
        if self.running {
            self.tick = self.tick + 1;
            true
        } else {
            false
        }
    }

    /// Advances exactly one tick, running or not.
    pub fn step(&mut self)
        requires
            old(self).tick < u64::MAX,
        ensures
            final(self).running == old(self).running,
            final(self).tick == old(self).tick + 1,
    {
        self.tick = self.tick + 1;
    }

    /// Back to tick zero, stopped.
    pub fn reset(&mut self)
        ensures
            !final(self).running,
            final(self).tick == 0,
    {
        self.tick = 0;
        self.running = false;
    }
}

impl Default for SimClock {
    fn default() -> (c: Self)
        ensures
            !c.running,
            c.tick == 0,
    {
        SimClock::new()
    }
}

/// A scene as a scene file holds it: its name and, per object in outliner
/// order, the object's name and position.
pub struct SceneFile<V> {
    pub scene_name: String,
    pub entities: Vec<(String, V)>,
}

/// A scene as it is written to a scene file: its name and, per object in
/// outliner order, the object's id, name and position.
pub struct SceneSnapshot<V> {
    pub scene_name: String,
    pub entities: Vec<(EntityId, String, V)>,
}

/// The scene after appending `items` as new objects: each gets the next entity
/// id, its name as metadata (visible) and a clone of its position, in order.
pub open spec fn objects_added<V: Clone>(s0: Scene<V>, s1: Scene<V>, items: Seq<(String, V)>) -> bool {
    let base = s0.world_view().next_raw();
    let n = items.len();
    &&& s1.wf()
    &&& s1.world_view().next_raw() == base + n
    &&& s1.roots() == s0.roots() + Seq::new(n, |i: int| EntityId((base + i) as u64))
    &&& s1.metas().dom() == s0.metas().dom().union(Set::new(|k: u64| base <= k < base + n))
    &&& forall|k: u64| #[trigger]
        s1.metas().contains_key(k) ==> s1.metas()[k] == if base <= k < base + n {
            ObjectMeta { name: items[k - base].0, visible: true }
        } else {
            s0.metas()[k]
        }
    &&& s1.world_view().view().dom() == s0.world_view().view().dom().union(
        Set::new(|k: u64| base <= k < base + n),
    )
    &&& forall|k: u64| #[trigger]
        s1.world_view().view().contains_key(k) ==> if base <= k < base + n {
            &&& s1.world_view().view()[k] == Map::<u64, V>::empty().insert(
                POSITION_KEY,
                s1.world_view().view()[k][POSITION_KEY],
            )
            &&& cloned(items[k - base].1, s1.world_view().view()[k][POSITION_KEY])
        } else {
            s1.world_view().view()[k] == s0.world_view().view()[k]
        }
    &&& s1.scene_name() == s0.scene_name()
    &&& s1.is_dirty() == (s0.is_dirty() || n > 0)
}

/// Appends `items` to the scene as new objects (see `objects_added`).
pub fn add_objects<V: Clone>(scene: &mut Scene<V>, items: &Vec<(String, V)>)
    requires
        old(scene).wf(),
        old(scene).world_view().next_raw() + items@.len() <= u64::MAX,
    ensures
        objects_added(*old(scene), *final(scene), items@),
{
    let ghost s0 = *scene;
    let ghost base = s0.world_view().next_raw();
    let n = items.len();
    let mut i: usize = 0;
    proof {
        assert(s0.roots() + Seq::new(0, |j: int| EntityId((base + j) as u64)) =~= s0.roots());
        assert(s0.metas().dom().union(Set::new(|k: u64| base <= k < base + 0)) =~= s0.metas().dom());
        assert(s0.world_view().view().dom().union(Set::new(|k: u64| base <= k < base + 0))
            =~= s0.world_view().view().dom());
    }
    while i < n
        invariant
            n == items@.len(),
            i <= n,
            base == s0.world_view().next_raw(),
            base + n <= u64::MAX,
            s0.wf(),
            objects_added(s0, *scene, items@.take(i as int)),
        decreases n - i,
    {
        let ghost s1 = *scene;
        let name = items[i].0.clone();
        let p = items[i].1.clone();
        let e = scene.spawn_object(name);
        scene.set_position(e, p);
        proof {
            let t = items@.take(i + 1);
            let t0 = items@.take(i as int);
            assert(t.len() == i + 1);
            assert forall|j: int| 0 <= j < i implies #[trigger] t[j] == t0[j] by {}
            assert(t[i as int] == items@[i as int]);
            assert(e.0 == base + i);
            s0.lemma_world_wf();
            s0.world_view().lemma_live_below_next();
            assert(scene.roots() =~= s0.roots() + Seq::new(
                (i + 1) as nat,
                |j: int| EntityId((base + j) as u64),
            ));
            assert(scene.metas().dom() =~= s0.metas().dom().union(
                Set::new(|k: u64| base <= k < base + (i + 1)),
            ));
            assert(scene.world_view().view().dom() =~= s0.world_view().view().dom().union(
                Set::new(|k: u64| base <= k < base + (i + 1)),
            ));
            assert forall|k: u64| #[trigger] scene.world_view().view().contains_key(k) implies if base
                <= k < base + (i + 1) {
                &&& scene.world_view().view()[k] == Map::<u64, V>::empty().insert(
                    POSITION_KEY,
                    scene.world_view().view()[k][POSITION_KEY],
                )
                &&& cloned(t[k - base].1, scene.world_view().view()[k][POSITION_KEY])
            } else {
                scene.world_view().view()[k] == s0.world_view().view()[k]
            } by {
                if k == e.0 {
                    assert(scene.world_view().view()[k] =~= Map::<u64, V>::empty().insert(
                        POSITION_KEY,
                        p,
                    ));
                } else {
                    assert(s1.world_view().view().contains_key(k));
                }
            }
            assert forall|k: u64| #[trigger] scene.metas().contains_key(k) implies scene.metas()[k]
                == if base <= k < base + (i + 1) {
                ObjectMeta { name: t[k - base].0, visible: true }
            } else {
                s0.metas()[k]
            } by {
                if k != e.0 {
                    assert(s1.metas().contains_key(k));
                }
            }
        }
        i = i + 1;
    }
    proof {
        assert(items@.take(n as int) =~= items@);
    }
}

/// What the user interface does after a message has been handled.
pub enum CoreAction<V> {
    /// Nothing more.
    Nothing,
    /// Show the open-file dialog; the chosen path comes back as `Opened`.
    PickOpenFile,
    /// Show the save-file dialog; the chosen path comes back as `SaveFile`.
    PickSaveFile,
    /// Show the import dialog; the imported objects come back as `Imported`.
    PickImportFile,
    /// Handle `SaveFile` with this path next.
    SaveTo(String),
    /// Write this scene to a scene file at the path; the outcome comes back as
    /// `SaveDone`.
    WriteScene(String, SceneSnapshot<V>),
    /// Handle `SelectEntity` with this entity next.
    Select(EntityId),
    /// Show the position of this entity in the properties panel.
    ShowPosition(EntityId),
    /// Move the objects along the preview orbit of the current tick.
    ApplyOrbit,
    /// Publish the frame snapshot: frame number, scene name, object count;
    /// move the objects along the preview orbit first when the clock ticked.
    Frame { ticked: bool, frame: u64, scene_name: String, entity_count: u64 },
}

/// A message of the user interface or of a finished background job.
pub enum CoreMsg<V> {
    /// A click on a top-level menu.
    MenuOpen(MenuTarget),
    /// Close all menus.
    MenuClose,
    Undo,
    Redo,
    SimToggle,
    SimStep,
    SimReset,
    SelectEntity(EntityId),
    RenameEntity(EntityId, String),
    MoveEntity(EntityId, V),
    NewScene,
    /// Spawn a new object through the history (a new scene if there is none).
    SpawnEntity,
    /// Delete the selected object through the history.
    DeleteEntity,
    OpenFileDialog,
    SaveFileDialog,
    /// Save the scene to this path.
    SaveFile(String),
    /// The scene file write for this path ended, with the error text if it failed.
    SaveDone(String, Result<(), String>),
    /// The scene file at this path was read, or the error text of the failure.
    Opened(String, Result<SceneFile<V>, String>),
    ImportFileDialog,
    /// Objects imported from the file with this name, or the error text.
    Imported(String, Result<Vec<(String, V)>, String>),
    ClearStatus,
    /// A material preset was chosen: its display name and parameters, or none
    /// if no preset of the chosen name exists.
    LoadPreset(Option<(String, V)>),
    DebugTick,
    AutosaveTick,
    Noop,
}

/// The application state.
pub struct AppCore<V> {
    /// The open top-level menu, if any.
    pub menu_open: Option<MenuTarget>,
    /// The active scene, if any.
    pub scene: Option<Scene<V>>,
    /// Undo/redo history of the scene edits.
    pub history: CommandHistory<EditCmd<V>>,
    /// The selected entity, if any.
    pub selected_entity: Option<EntityId>,
    /// The name field of the properties panel.
    pub prop_name_buf: String,
    /// The file the scene was last saved to or opened from.
    pub current_path: Option<String>,
    /// The preview simulation clock.
    pub sim: SimClock,
    /// Frames handled so far.
    pub frame: u64,
    /// The transient status line.
    pub status_message: Option<String>,
    /// The position of an object without one, and where a reset puts objects.
    pub origin: V,
}

/// Both histories hold the same commands under the same limit.
pub open spec fn same_history<V>(h0: CommandHistory<EditCmd<V>>, h1: CommandHistory<EditCmd<V>>) -> bool {
    &&& h1.undo_view() == h0.undo_view()
    &&& h1.redo_view() == h0.redo_view()
    &&& h1.depth_limit() == h0.depth_limit()
}

/// `h1` is `h0` emptied.
pub open spec fn cleared_history<V>(h0: CommandHistory<EditCmd<V>>, h1: CommandHistory<EditCmd<V>>) -> bool {
    &&& h1.undo_view() == Seq::<EditCmd<V>>::empty()
    &&& h1.redo_view() == Seq::<EditCmd<V>>::empty()
    &&& h1.depth_limit() == h0.depth_limit()
}

/// A new empty scene named `name`, with no unsaved changes.
pub open spec fn blank_scene<V>(s: Scene<V>, name: Seq<char>) -> bool {
    &&& s.wf()
    &&& s.world_view().next_raw() == 1
    &&& s.world_view().view() == Map::<u64, Map<u64, V>>::empty()
    &&& s.metas() == Map::<u64, ObjectMeta>::empty()
    &&& s.roots() == Seq::<EntityId>::empty()
    &&& s.scene_name()@ == name
    &&& !s.is_dirty()
}

/// The menu is unchanged.
pub open spec fn keeps_menu<V>(a: AppCore<V>, b: AppCore<V>) -> bool {
    b.menu_open == a.menu_open
}

/// The scene and its history are unchanged.
pub open spec fn keeps_scene<V>(a: AppCore<V>, b: AppCore<V>) -> bool {
    b.scene == a.scene && same_history(a.history, b.history)
}

/// The selection and the name field are unchanged.
pub open spec fn keeps_selection<V>(a: AppCore<V>, b: AppCore<V>) -> bool {
    b.selected_entity == a.selected_entity && b.prop_name_buf == a.prop_name_buf
}

/// The scene's file is unchanged.
pub open spec fn keeps_file<V>(a: AppCore<V>, b: AppCore<V>) -> bool {
    b.current_path == a.current_path
}

/// The simulation clock and the frame counter are unchanged.
pub open spec fn keeps_clock<V>(a: AppCore<V>, b: AppCore<V>) -> bool {
    b.sim == a.sim && b.frame == a.frame
}

/// The status line is unchanged.
pub open spec fn keeps_status<V>(a: AppCore<V>, b: AppCore<V>) -> bool {
    b.status_message == a.status_message
}

/// Only the menu may differ.
pub open spec fn keeps_all_but_menu<V>(a: AppCore<V>, b: AppCore<V>) -> bool {
    &&& keeps_scene(a, b)
    &&& keeps_selection(a, b)
    &&& keeps_file(a, b)
    &&& keeps_clock(a, b)
    &&& keeps_status(a, b)
}

/// The status line shows `text`.
pub open spec fn shows<V>(b: AppCore<V>, text: Seq<char>) -> bool {
    b.status_message matches Some(m) && m@ == text
}

impl<V> AppCore<V> {
    /// The scene is consistent and the history is consistent with room for at
    /// least one command.
    pub open spec fn wf(&self) -> bool {
        &&& self.scene matches Some(s) ==> s.wf()
        &&& self.history.wf()
        &&& self.history.depth_limit() > 0
    }

    /// The start state: no menu, no scene, an empty history of depth 200, no
    /// selection, no file, a stopped clock at frame zero and no status.
    pub fn new(origin: V) -> (c: Self)
        ensures
            c.wf(),
            (c.menu_open is None),
            (c.scene is None),
            c.history.undo_view().len() == 0,
            c.history.redo_view().len() == 0,
            c.history.depth_limit() == 200,
            (c.selected_entity is None),
            c.prop_name_buf@ == Seq::<char>::empty(),
            (c.current_path is None),
            (c.sim == SimClock { running: false, tick: 0 }),
            c.frame == 0,
            (c.status_message is None),
            c.origin == origin,
    {
        AppCore {
            menu_open: None,
            scene: None,
            history: CommandHistory::default(),
            selected_entity: None,
            prop_name_buf: String::new(),
            current_path: None,
            sim: SimClock::new(),
            frame: 0,
            status_message: None,
            origin,
        }
    }
}

/// The name the frame snapshot gives the scene: its own, or a dash without one.
pub open spec fn snapshot_name<V>(scene: Option<Scene<V>>) -> Seq<char> {
    match scene {
        Some(s) => s.scene_name()@,
        None => "\u{2014}"@,
    }
}

/// The number of objects the frame snapshot reports.
pub open spec fn snapshot_count<V>(scene: Option<Scene<V>>) -> int {
    match scene {
        Some(s) => s.roots().len() as int,
        None => 0,
    }
}

impl<V: Clone + Send + Sync> AppCore<V> {
    fn set_status(&mut self, text: String)
        ensures
            final(self).status_message == Some(text),
            keeps_menu(*old(self), *final(self)),
            keeps_all_but_status(*old(self), *final(self)),
    {
        self.status_message = Some(text);
    }

    /// A click on menu `t` opens it, or closes it when it is already open.
    pub fn on_menu_open(&mut self, t: MenuTarget)
        ensures
            menu_open_step(*old(self), t, *final(self)),
    {
        if self.menu_open == Some(t) {
            self.menu_open = None;
        } else {
            self.menu_open = Some(t);
        }
    }

    /// Closes all menus.
    pub fn on_menu_close(&mut self)
        ensures
            menu_close_step(*old(self), *final(self)),
    {
        self.menu_open = None;
    }

    /// Starts or stops the preview simulation and closes the menus.
    pub fn on_sim_toggle(&mut self)
        ensures
            sim_toggle_step(*old(self), *final(self)),
    {
        self.sim.running = !self.sim.running;
        self.menu_open = None;
    }

    /// Advances the simulation by one tick and closes the menus; the objects
    /// then move along the preview orbit.
    pub fn on_sim_step(&mut self) -> (act: CoreAction<V>)
        requires
            old(self).sim.tick < u64::MAX,
        ensures
            sim_step_step(*old(self), *final(self), act),
    {
        self.sim.step();
        self.menu_open = None;
        CoreAction::ApplyOrbit
    }

    /// Closes the menus and asks for the open-file dialog.
    pub fn on_open_file_dialog(&mut self) -> (act: CoreAction<V>)
        ensures
            open_dialog_step(*old(self), *final(self), act),
    {
        self.menu_open = None;
        CoreAction::PickOpenFile
    }

    /// Closes the menus and asks for the import dialog.
    pub fn on_import_file_dialog(&mut self) -> (act: CoreAction<V>)
        ensures
            import_dialog_step(*old(self), *final(self), act),
    {
        self.menu_open = None;
        CoreAction::PickImportFile
    }

    /// Closes the menus; saves to the scene's file when it has one, else asks
    /// for the save dialog.
    pub fn on_save_file_dialog(&mut self) -> (act: CoreAction<V>)
        ensures
            save_dialog_step(*old(self), *final(self), act),
    {
        self.menu_open = None;
        match &self.current_path {
            Some(p) => CoreAction::SaveTo(p.clone()),
            None => CoreAction::PickSaveFile,
        }
    }

    /// Clears the status line.
    pub fn on_clear_status(&mut self)
        ensures
            clear_status_step(*old(self), *final(self)),
    {
        self.status_message = None;
    }

    /// Saves to the scene's file when there is a scene with unsaved changes and
    /// a file to save it to; changes nothing.
    pub fn on_autosave_tick(&self) -> (act: CoreAction<V>)
        ensures
            autosave_step(*self, act),
    {
        match (&self.current_path, &self.scene) {
            (Some(p), Some(s)) => if s.has_unsaved_changes() {
                CoreAction::SaveTo(p.clone())
            } else {
                CoreAction::Nothing
            },
            _ => CoreAction::Nothing,
        }
    }

    /// Records the end of a scene file write: on success the path becomes the
    /// scene's file and the status says so; on failure the status shows the
    /// error.
    pub fn on_save_done(&mut self, path: String, outcome: Result<(), String>)
        ensures
            save_done_step(*old(self), path, outcome, *final(self)),
    {
        match outcome {
            Ok(()) => {
                self.current_path = Some(path);
                self.set_status(owned("Scene saved."));
            },
            Err(e) => {
                let mut m = owned("Save failed: ");
                m.append(e.as_str());
                self.set_status(m);
            },
        }
    }

    /// Counts a frame and advances a running clock by one tick; the snapshot
    /// to publish is returned.
    pub fn on_debug_tick(&mut self) -> (act: CoreAction<V>)
        requires
            old(self).frame < u64::MAX,
            old(self).sim.tick < u64::MAX,
        ensures
            debug_tick_step(*old(self), *final(self), act),
    {
        self.frame = self.frame + 1;
        let ticked = self.sim.maybe_tick();
        let (scene_name, entity_count) = match &self.scene {
            Some(s) => (s.scene_name_ref().clone(), s.root_entities().len() as u64),
            None => (owned("\u{2014}"), 0),
        };
        CoreAction::Frame { ticked, frame: self.frame, scene_name, entity_count }
    }
}

/// Everything but the status line is unchanged.
pub open spec fn keeps_all_but_status<V>(a: AppCore<V>, b: AppCore<V>) -> bool {
    &&& keeps_scene(a, b)
    &&& keeps_selection(a, b)
    &&& keeps_file(a, b)
    &&& keeps_clock(a, b)
    &&& b.origin == a.origin
}

/// The scene after every outliner object has been put back at a clone of
/// `origin`; nothing else but the dirty flag changes.
pub open spec fn positions_reset<V: Clone>(s0: Scene<V>, s1: Scene<V>, origin: V) -> bool {
    &&& s1.wf()
    &&& s1.world_view().next_raw() == s0.world_view().next_raw()
    &&& s1.world_view().view().dom() == s0.world_view().view().dom()
    &&& forall|k: u64| #[trigger]
        s1.world_view().view().contains_key(k) ==> if s0.roots().contains(EntityId(k)) {
            &&& s1.world_view().view()[k] == s0.world_view().view()[k].insert(
                POSITION_KEY,
                s1.world_view().view()[k][POSITION_KEY],
            )
            &&& cloned(origin, s1.world_view().view()[k][POSITION_KEY])
        } else {
            s1.world_view().view()[k] == s0.world_view().view()[k]
        }
    &&& s1.metas() == s0.metas()
    &&& s1.roots() == s0.roots()
    &&& s1.scene_name() == s0.scene_name()
    &&& s1.is_dirty() == (s0.is_dirty() || s0.roots().len() > 0)
}

/// Puts every outliner object back at a clone of `origin`.
pub fn reset_positions<V: Clone>(scene: &mut Scene<V>, origin: &V)
    requires
        old(scene).wf(),
    ensures
        positions_reset(*old(scene), *final(scene), *origin),
{
    let ghost s0 = *scene;
    let mut roots: Vec<EntityId> = Vec::new();
    let n = scene.root_entities().len();
    let mut i: usize = 0;
    while i < n
        invariant
            n == s0.roots().len(),
            *scene == s0,
            i <= n,
            roots@ == s0.roots().take(i as int),
        decreases n - i,
    {
        roots.push(scene.root_entities()[i]);
        proof {
            assert(roots@ =~= s0.roots().take(i + 1));
        }
        i = i + 1;
    }
    proof {
        assert(roots@ =~= s0.roots());
    }
    let mut j: usize = 0;
    while j < n
        invariant
            n == roots@.len(),
            roots@ == s0.roots(),
            j <= n,
            s0.wf(),
            scene.wf(),
            scene.world_view().next_raw() == s0.world_view().next_raw(),
            scene.world_view().view().dom() == s0.world_view().view().dom(),
            forall|k: u64| #[trigger]
                scene.world_view().view().contains_key(k) ==> if roots@.take(j as int).contains(
                    EntityId(k),
                ) {
                    &&& scene.world_view().view()[k] == s0.world_view().view()[k].insert(
                        POSITION_KEY,
                        scene.world_view().view()[k][POSITION_KEY],
                    )
                    &&& cloned(*origin, scene.world_view().view()[k][POSITION_KEY])
                } else {
                    scene.world_view().view()[k] == s0.world_view().view()[k]
                },
            scene.metas() == s0.metas(),
            scene.roots() == s0.roots(),
            scene.scene_name() == s0.scene_name(),
            scene.is_dirty() == (s0.is_dirty() || j > 0),
        decreases n - j,
    {
        let e = roots[j];
        let ghost s1 = *scene;
        let p = origin.clone();
        scene.set_position(e, p);
        proof {
            let t = roots@.take(j + 1);
            assert(t =~= roots@.take(j as int).push(e));
            assert forall|k: u64| #[trigger] scene.world_view().view().contains_key(k) implies if t.contains(
                EntityId(k),
            ) {
                &&& scene.world_view().view()[k] == s0.world_view().view()[k].insert(
                    POSITION_KEY,
                    scene.world_view().view()[k][POSITION_KEY],
                )
                &&& cloned(*origin, scene.world_view().view()[k][POSITION_KEY])
            } else {
                scene.world_view().view()[k] == s0.world_view().view()[k]
            } by {
                assert(s1.world_view().view().contains_key(k));
                if k == e.0 {
                    assert(t.contains(EntityId(k))) by {
                        assert(t[j as int] == e);
                    }
                    assert(scene.world_view().view()[k][POSITION_KEY] == p);
                    assert(scene.world_view().view()[k] =~= s0.world_view().view()[k].insert(
                        POSITION_KEY,
                        p,
                    ));
                } else {
                    if t.contains(EntityId(k)) {
                        let w = choose|x: int| 0 <= x < t.len() && t[x] == EntityId(k);
                        assert(roots@.take(j as int).contains(EntityId(k))) by {
                            assert(roots@.take(j as int)[w] == EntityId(k));
                        }
                    } else {
                        assert(!roots@.take(j as int).contains(EntityId(k))) by {
                            if roots@.take(j as int).contains(EntityId(k)) {
                                let w = choose|x: int|
                                    0 <= x < j && roots@.take(j as int)[x] == EntityId(k);
                                assert(t[w] == EntityId(k));
                            }
                        }
                    }
                }
            }
        }
        j = j + 1;
    }
    proof {
        assert(roots@.take(n as int) =~= roots@);
    }
}

/// The name a saved object gets: its own, or `Entity <raw id>` without metadata.
pub open spec fn saved_name<V>(s: Scene<V>, e: EntityId) -> Seq<char> {
    if s.metas().contains_key(e.0) {
        s.metas()[e.0].name@
    } else {
        "Entity "@ + decimal(e.0 as nat)
    }
}

/// The position a saved object gets: a clone of its own, or of `origin` if it
/// has none.
pub open spec fn saved_position<V: Clone>(s: Scene<V>, origin: V, e: EntityId, p: V) -> bool {
    if s.world_view().view().contains_key(e.0) && s.world_view().view()[e.0].contains_key(
        POSITION_KEY,
    ) {
        cloned(s.world_view().view()[e.0][POSITION_KEY], p)
    } else {
        cloned(origin, p)
    }
}

/// `f` is what is written of `s`: its name and, for each outliner object in
/// order, its id, saved name and saved position.
pub open spec fn saved_file<V: Clone>(s: Scene<V>, origin: V, f: SceneSnapshot<V>) -> bool {
    &&& f.scene_name == s.scene_name()
    &&& f.entities@.len() == s.roots().len()
    &&& forall|i: int|
        0 <= i < s.roots().len() ==> {
            &&& (#[trigger] f.entities@[i]).0 == s.roots()[i]
            &&& f.entities@[i].1@ == saved_name(s, s.roots()[i])
            &&& saved_position(s, origin, s.roots()[i], f.entities@[i].2)
        }
}

/// What is written of a scene to its file.
pub fn scene_file<V: Clone>(s: &Scene<V>, origin: &V) -> (f: SceneSnapshot<V>)
    requires
        s.wf(),
    ensures
        saved_file(*s, *origin, f),
{
    let roots = s.root_entities();
    let n = roots.len();
    let mut entities: Vec<(EntityId, String, V)> = Vec::new();
    let mut i: usize = 0;
    while i < n
        invariant
            n == s.roots().len(),
            roots@ == s.roots(),
            s.wf(),
            i <= n,
            entities@.len() == i,
            forall|k: int|
                0 <= k < i ==> {
                    &&& (#[trigger] entities@[k]).0 == s.roots()[k]
                    &&& entities@[k].1@ == saved_name(*s, s.roots()[k])
                    &&& saved_position(*s, *origin, s.roots()[k], entities@[k].2)
                },
        decreases n - i,
    {
        let e = roots[i];
        let name = match s.meta(e) {
            Some(m) => m.name.clone(),
            None => {
                let mut t = owned("Entity ");
                push_decimal(&mut t, e.0);
                t
            },
        };
        let pos = match s.get_position(e) {
            Some(p) => {
                let c = p.clone();
                assert(cloned(*p, c));
                c
            },
            None => {
                let c = origin.clone();
                assert(cloned(*origin, c));
                c
            },
        };
        assert(name@ == saved_name(*s, s.roots()[i as int]));
        assert(saved_position(*s, *origin, s.roots()[i as int], pos));
        let ghost prev = entities@;
        let ghost item = (e, name, pos);
        entities.push((e, name, pos));
        assert(entities@[i as int] == item);
        assert forall|k: int| 0 <= k < i + 1 implies {
            &&& (#[trigger] entities@[k]).0 == s.roots()[k]
            &&& entities@[k].1@ == saved_name(*s, s.roots()[k])
            &&& saved_position(*s, *origin, s.roots()[k], entities@[k].2)
        } by {
            if k < i {
                assert(entities@[k] == prev[k]);
            }
        }
        i = i + 1;
    }
    SceneSnapshot { scene_name: s.scene_name_ref().clone(), entities }
}

impl<V: Clone + Send + Sync> AppCore<V> {
    /// Undoes the newest scene edit, if there is a scene.
    pub fn on_undo(&mut self)
        requires
            old(self).wf(),
        ensures
            undo_step(*old(self), *final(self)),
    {
        let taken = self.scene.take();
        match taken {
            Some(s) => {
                let mut s = s;
                let ghost s0 = s;
                let r = self.history.undo(&mut s);
                proof {
                    if old(self).history.undo_view().len() > 0 {
                        let done = choose|done: EditCmd<V>|
                            #[trigger] old(self).history.undo_view().last().undo_spec(
                                done,
                                s0,
                                s,
                                r,
                            );
                        lemma_edit_keeps_wf(old(self).history.undo_view().last(), done, s0, s, r);
                    }
                    assert(undo_outcome(old(self).history, s0, self.history, s, r));
                }
                self.scene = Some(s);
                assert(old(self).scene == Some(s0));
                assert(self.scene == Some(s));
                assert(undo_outcome(old(self).history, s0, self.history, s, r));
                assert(self.scene->0 == s);
                assert(undo_step(*old(self), *self));
            },
            None => {},
        }
    }

    /// Redoes the newest undone scene edit, if there is a scene.
    pub fn on_redo(&mut self)
        requires
            old(self).wf(),
        ensures
            redo_step(*old(self), *final(self)),
    {
        let taken = self.scene.take();
        match taken {
            Some(s) => {
                let mut s = s;
                let ghost s0 = s;
                let r = self.history.redo(&mut s);
                proof {
                    if old(self).history.redo_view().len() > 0 {
                        let done = choose|done: EditCmd<V>|
                            #[trigger] old(self).history.redo_view().last().execute_spec(
                                done,
                                s0,
                                s,
                                r,
                            );
                        lemma_edit_keeps_wf(old(self).history.redo_view().last(), done, s0, s, r);
                    }
                    assert(redo_outcome(old(self).history, s0, self.history, s, r));
                }
                self.scene = Some(s);
                assert(old(self).scene == Some(s0));
                assert(redo_outcome(old(self).history, s0, self.history, s, r));
                assert(self.scene->0 == s);
                assert(redo_step(*old(self), *self));
            },
            None => {},
        }
    }
}

/// The name a rename records as the entity's previous one: its current name,
/// or empty without metadata.
pub open spec fn previous_name<V>(s: Scene<V>, e: EntityId) -> Seq<char> {
    if s.metas().contains_key(e.0) {
        s.metas()[e.0].name@
    } else {
        Seq::empty()
    }
}

/// The scene read from a file: a new scene named `name` whose objects are
/// `items` in order (ids from 1, names as metadata, clones of the positions),
/// with no unsaved changes.
pub open spec fn loaded_scene<V: Clone>(s1: Scene<V>, name: String, items: Seq<(String, V)>) -> bool {
    let n = items.len();
    &&& s1.wf()
    &&& s1.world_view().next_raw() == 1 + n
    &&& s1.roots() == Seq::new(n, |i: int| EntityId((1 + i) as u64))
    &&& s1.metas().dom() == Set::new(|k: u64| 1 <= k < 1 + n)
    &&& forall|k: u64| #[trigger]
        s1.metas().contains_key(k) ==> s1.metas()[k] == ObjectMeta {
            name: items[k - 1].0,
            visible: true,
        }
    &&& s1.world_view().view().dom() == Set::new(|k: u64| 1 <= k < 1 + n)
    &&& forall|k: u64| #[trigger]
        s1.world_view().view().contains_key(k) ==> {
            &&& s1.world_view().view()[k] == Map::<u64, V>::empty().insert(
                POSITION_KEY,
                s1.world_view().view()[k][POSITION_KEY],
            )
            &&& cloned(items[k - 1].1, s1.world_view().view()[k][POSITION_KEY])
        }
    &&& s1.scene_name() == name
    &&& !s1.is_dirty()
}

/// Builds the scene of a scene file.
pub fn load_scene<V: Clone>(file: SceneFile<V>) -> (s: Scene<V>)
    requires
        file.entities@.len() < u64::MAX,
    ensures
        loaded_scene(s, file.scene_name, file.entities@),
{
    let mut s: Scene<V> = Scene::new();
    let ghost s0 = s;
    s.set_name(file.scene_name);
    let ghost s1 = s;
    add_objects(&mut s, &file.entities);
    s.mark_clean();
    proof {
        let n = file.entities@.len();
        assert(s0.roots() + Seq::new(n, |i: int| EntityId((1 + i) as u64)) =~= Seq::new(
            n,
            |i: int| EntityId((1 + i) as u64),
        ));
        assert(s0.metas().dom().union(Set::new(|k: u64| 1 <= k < 1 + n)) =~= Set::new(
            |k: u64| 1 <= k < 1 + n,
        ));
        assert(s0.world_view().view().dom().union(Set::new(|k: u64| 1 <= k < 1 + n)) =~= Set::new(
            |k: u64| 1 <= k < 1 + n,
        ));
    }
    s
}

impl<V: Clone + Send + Sync> AppCore<V> {
    /// Stops and rewinds the simulation, closes the menus and puts every
    /// object back at the origin.
    pub fn on_sim_reset(&mut self)
        requires
            old(self).wf(),
        ensures
            sim_reset_step(*old(self), *final(self)),
    {
        self.sim.reset();
        self.menu_open = None;
        let taken = self.scene.take();
        match taken {
            Some(s) => {
                let mut s = s;
                reset_positions(&mut s, &self.origin);
                self.scene = Some(s);
            },
            None => {},
        }
    }

    /// Selects an entity; with a scene, its name goes into the name field (if
    /// it has one) and its position is to be shown.
    pub fn on_select(&mut self, id: EntityId) -> (act: CoreAction<V>)
        ensures
            select_step(*old(self), id, *final(self), act),
    {
        self.selected_entity = Some(id);
        match &self.scene {
            Some(s) => {
                match s.meta(id) {
                    Some(m) => {
                        self.prop_name_buf = m.name.clone();
                    },
                    None => {},
                }
                CoreAction::ShowPosition(id)
            },
            None => CoreAction::Nothing,
        }
    }

    /// Renames an entity through the history, so that it can be undone; the
    /// name field shows the new name.
    pub fn on_rename(&mut self, id: EntityId, name: String)
        requires
            old(self).wf(),
        ensures
            rename_step(*old(self), id, name, *final(self)),
    {
        let taken = self.scene.take();
        match taken {
            Some(s) => {
                let mut s = s;
                let ghost s0 = s;
                let old_name = match s.meta(id) {
                    Some(m) => m.name.clone(),
                    None => String::new(),
                };
                let c = RenameEntityCmd::new(id, old_name, name.clone());
                let ghost cg = c;
                let r = self.history.execute(EditCmd::Rename(c), &mut s);
                proof {
                    let done = choose|done: EditCmd<V>|
                        #[trigger] EditCmd::<V>::Rename(cg).execute_spec(done, s0, s, r);
                    lemma_edit_keeps_wf(EditCmd::<V>::Rename(cg), done, s0, s, r);
                    assert(execute_outcome(old(self).history, EditCmd::Rename(cg), s0, self.history, s, r));
                }
                self.scene = Some(s);
            },
            None => {},
        }
        self.prop_name_buf = name;
    }

    /// Moves an entity through the history, so that it can be undone; the move
    /// records a clone of the entity's position (or of the origin) to go back to.
    pub fn on_move(&mut self, id: EntityId, pos: V)
        requires
            old(self).wf(),
        ensures
            move_step(*old(self), id, pos, *final(self)),
    {
        let taken = self.scene.take();
        match taken {
            Some(s) => {
                let mut s = s;
                let ghost s0 = s;
                let old_pos = match s.get_position(id) {
                    Some(p) => {
                        let c = p.clone();
                        assert(cloned(*p, c));
                        c
                    },
                    None => {
                        let c = self.origin.clone();
                        assert(cloned(self.origin, c));
                        c
                    },
                };
                let c = MoveEntityCmd::new(id, old_pos, pos);
                let ghost cg = c;
                let r = self.history.execute(EditCmd::Move(c), &mut s);
                proof {
                    let done = choose|done: EditCmd<V>|
                        #[trigger] EditCmd::<V>::Move(cg).execute_spec(done, s0, s, r);
                    lemma_edit_keeps_wf(EditCmd::<V>::Move(cg), done, s0, s, r);
                    assert(execute_outcome(old(self).history, EditCmd::Move(cg), s0, self.history, s, r));
                }
                self.scene = Some(s);
            },
            None => {},
        }
    }
}

/// The name a spawned object gets: `Object <n>`, `n` one more than the
/// number of objects in the outliner.
pub open spec fn object_name(count: nat) -> Seq<char> {
    "Object "@ + decimal(count + 1)
}

/// A new object is spawned through the history, into the current scene or a
/// new empty one; nothing else changes.
pub open spec fn spawn_step<V: Clone + Send + Sync>(a: AppCore<V>, b: AppCore<V>) -> bool {
    &&& b.wf()
    &&& keeps_menu(a, b)
    &&& keeps_selection(a, b)
    &&& keeps_file(a, b)
    &&& keeps_clock(a, b)
    &&& keeps_status(a, b)
    &&& b.origin == a.origin
    &&& b.scene matches Some(s1) && exists|s0: Scene<V>, c: SpawnEntityCmd, r|
        {
            &&& import_base(a.scene, s0)
            &&& c.name@ == object_name(s0.roots().len())
            &&& c.spawned is None
            &&& #[trigger] execute_outcome(a.history, EditCmd::Spawn(c), s0, b.history, s1, r)
        }
}

/// With an object selected in a scene, it is deleted through the history,
/// which remembers its name and position (a clone of its own, or of the
/// origin), and the selection and the name field are cleared; otherwise
/// nothing changes.
pub open spec fn delete_step<V: Clone + Send + Sync>(a: AppCore<V>, b: AppCore<V>) -> bool {
    &&& b.wf()
    &&& keeps_menu(a, b)
    &&& keeps_file(a, b)
    &&& keeps_clock(a, b)
    &&& keeps_status(a, b)
    &&& b.origin == a.origin
    &&& match (a.selected_entity, a.scene) {
        (Some(id), Some(s0)) => {
            &&& b.selected_entity is None
            &&& b.prop_name_buf@ == Seq::<char>::empty()
            &&& b.scene matches Some(s1) && exists|c: DespawnEntityCmd<V>, r|
                {
                    &&& c.entity == id
                    &&& c.name@ == previous_name(s0, id)
                    &&& saved_position(s0, a.origin, id, c.pos)
                    &&& #[trigger] execute_outcome(
                        a.history,
                        EditCmd::Despawn(c),
                        s0,
                        b.history,
                        s1,
                        r,
                    )
                }
        },
        _ => keeps_scene(a, b) && keeps_selection(a, b),
    }
}

impl<V: Clone + Send + Sync> AppCore<V> {
    /// Spawns `Object <n>` through the history, so that it can be undone,
    /// creating an empty scene first if there is none.
    pub fn on_spawn(&mut self)
        requires
            old(self).wf(),
            old(self).scene matches Some(s) ==> s.roots().len() < u64::MAX,
        ensures
            spawn_step(*old(self), *final(self)),
    {
        let taken = self.scene.take();
        let mut s = match taken {
            Some(s) => s,
            None => Scene::new(),
        };
        let ghost s0 = s;
        let n = s.root_entities().len() as u64;
        let mut name = owned("Object ");
        push_decimal(&mut name, n + 1);
        let c = SpawnEntityCmd::new(name);
        let ghost cg = c;
        let r = self.history.execute(EditCmd::Spawn(c), &mut s);
        proof {
            let done = choose|done: EditCmd<V>|
                #[trigger] EditCmd::<V>::Spawn(cg).execute_spec(done, s0, s, r);
            lemma_edit_keeps_wf(EditCmd::<V>::Spawn(cg), done, s0, s, r);
            assert(execute_outcome(old(self).history, EditCmd::Spawn(cg), s0, self.history, s, r));
            assert(import_base(old(self).scene, s0));
            assert(cg.name@ == object_name(s0.roots().len()));
        }
        self.scene = Some(s);
        assert(self.scene matches Some(s1) && execute_outcome(
            old(self).history,
            EditCmd::Spawn(cg),
            s0,
            self.history,
            s1,
            r,
        ));
    }

    /// Deletes the selected object through the history, so that it can be
    /// undone, and clears the selection.
    pub fn on_delete(&mut self)
        requires
            old(self).wf(),
        ensures
            delete_step(*old(self), *final(self)),
    {
        match self.selected_entity {
            Some(id) => {
                let taken = self.scene.take();
                match taken {
                    Some(s) => {
                        let mut s = s;
                        let ghost s0 = s;
                        let name = match s.meta(id) {
                            Some(m) => m.name.clone(),
                            None => String::new(),
                        };
                        let pos = match s.get_position(id) {
                            Some(p) => {
                                let c = p.clone();
                                assert(cloned(*p, c));
                                c
                            },
                            None => {
                                let c = self.origin.clone();
                                assert(cloned(self.origin, c));
                                c
                            },
                        };
                        let c = DespawnEntityCmd::new(id, name, pos);
                        let ghost cg = c;
                        let r = self.history.execute(EditCmd::Despawn(c), &mut s);
                        proof {
                            let done = choose|done: EditCmd<V>|
                                #[trigger] EditCmd::<V>::Despawn(cg).execute_spec(done, s0, s, r);
                            lemma_edit_keeps_wf(EditCmd::<V>::Despawn(cg), done, s0, s, r);
                            assert(execute_outcome(
                                old(self).history,
                                EditCmd::Despawn(cg),
                                s0,
                                self.history,
                                s,
                                r,
                            ));
                        }
                        self.scene = Some(s);
                        self.selected_entity = None;
                        self.prop_name_buf = String::new();
                        assert(cg.name@ == previous_name(s0, id));
                        assert(saved_position(s0, old(self).origin, id, cg.pos));
                        assert(self.prop_name_buf@ == Seq::<char>::empty());
                    },
                    None => {},
                }
            },
            None => {},
        }
    }
}

/// The scene an import adds to: the current one, or a new empty scene.
pub open spec fn import_base<V>(cur: Option<Scene<V>>, s0: Scene<V>) -> bool {
    match cur {
        Some(s) => s0 == s,
        None => blank_scene(s0, "Untitled"@),
    }
}

/// The scene after storing `params` as the material parameters of `id` (a live
/// entity) and marking it dirty.
pub open spec fn preset_applied<V>(s0: Scene<V>, s1: Scene<V>, id: EntityId, params: V) -> bool {
    &&& s1.wf()
    &&& s1.world_view().next_raw() == s0.world_view().next_raw()
    &&& s1.world_view().view() == if s0.world_view().view().contains_key(id.0) {
        s0.world_view().view().insert(
            id.0,
            s0.world_view().view()[id.0].insert(SIM_PARAMS_KEY, params),
        )
    } else {
        s0.world_view().view()
    }
    &&& s1.metas() == s0.metas()
    &&& s1.roots() == s0.roots()
    &&& s1.scene_name() == s0.scene_name()
    &&& s1.is_dirty()
}

/// The status line after an import of `n` objects from `fname`.
pub open spec fn imported_text(n: nat, fname: Seq<char>) -> Seq<char> {
    "Imported "@ + decimal(n) + " mesh(es) from "@ + fname
}

/// The status line after opening a scene of `n` objects.
pub open spec fn opened_text(n: nat) -> Seq<char> {
    "Opened \u{2014} "@ + decimal(n) + " object(s)"@
}

impl<V: Clone + Send + Sync> AppCore<V> {
    /// Starts a new empty scene: the history, selection and file are cleared,
    /// the simulation reset and the menus closed.
    pub fn on_new_scene(&mut self)
        requires
            old(self).wf(),
        ensures
            new_scene_step(*old(self), *final(self)),
    {
        self.scene = Some(Scene::new());
        self.history.clear();
        self.selected_entity = None;
        self.current_path = None;
        self.sim.reset();
        self.menu_open = None;
    }

    /// With a scene, asks for its scene file to be written to `path`.
    pub fn on_save_file(&self, path: String) -> (act: CoreAction<V>)
        requires
            self.wf(),
        ensures
            save_file_step(*self, path, act),
    {
        match &self.scene {
            Some(s) => CoreAction::WriteScene(path, scene_file(s, &self.origin)),
            None => CoreAction::Nothing,
        }
    }

    /// A scene file was read (or failed to): the read scene replaces the
    /// current one, with a cleared history and selection, the file remembered
    /// and the simulation reset; the status line reports either way.
    pub fn on_opened(&mut self, path: String, res: Result<SceneFile<V>, String>)
        requires
            old(self).wf(),
            res matches Ok(f) ==> f.entities@.len() < u64::MAX,
        ensures
            opened_step(*old(self), path, res, *final(self)),
    {
        match res {
            Ok(f) => {
                let n = f.entities.len();
                let scene = load_scene(f);
                self.scene = Some(scene);
                self.history.clear();
                self.selected_entity = None;
                self.current_path = Some(path);
                self.sim.reset();
                let mut m = owned("Opened \u{2014} ");
                push_decimal(&mut m, n as u64);
                m.append(" object(s)");
                self.set_status(m);
            },
            Err(e) => {
                let mut m = owned("Open failed: ");
                m.append(e.as_str());
                self.set_status(m);
            },
        }
    }

    /// Objects were imported from the file `fname` (or the import failed):
    /// they are added to the scene (a new one if there is none), the first is
    /// to be selected, and the status line reports.
    pub fn on_imported(&mut self, fname: String, res: Result<Vec<(String, V)>, String>) -> (act:
        CoreAction<V>)
        requires
            old(self).wf(),
            res matches Ok(items) ==> match old(self).scene {
                Some(s) => s.world_view().next_raw() + items@.len() <= u64::MAX,
                None => 1 + items@.len() <= u64::MAX,
            },
        ensures
            imported_step(*old(self), fname, res, *final(self), act),
    {
        let taken = self.scene.take();
        let mut s = match taken {
            Some(s) => s,
            None => Scene::new(),
        };
        let ghost s0 = s;
        let act = match res {
            Ok(items) => {
                let n = items.len();
                if n == 0 {
                    self.set_status(owned("Import: file contained no mesh data."));
                    CoreAction::Nothing
                } else {
                    let first = EntityId(s.ids_used_next());
                    add_objects(&mut s, &items);
                    let mut m = owned("Imported ");
                    push_decimal(&mut m, n as u64);
                    m.append(" mesh(es) from ");
                    m.append(fname.as_str());
                    self.set_status(m);
                    CoreAction::Select(first)
                }
            },
            Err(e) => {
                let mut m = owned("Import failed: ");
                m.append(e.as_str());
                self.set_status(m);
                CoreAction::Nothing
            },
        };
        self.scene = Some(s);
        assert(import_base(old(self).scene, s0));
        act
    }

    /// A material preset was chosen: the menus close; with a selected entity
    /// in a scene its parameters are stored on it, otherwise the user is asked
    /// to select an object. An unknown preset changes nothing else.
    pub fn on_load_preset(&mut self, preset: Option<(String, V)>)
        requires
            old(self).wf(),
        ensures
            load_preset_step(*old(self), preset, *final(self)),
    {
        self.menu_open = None;
        match preset {
            None => {},
            Some((pname, params)) => {
                match self.selected_entity {
                    Some(id) => {
                        let taken = self.scene.take();
                        match taken {
                            Some(s) => {
                                let mut s = s;
                                let ghost s0 = s;
                                proof {
                                    s0.lemma_world_wf();
                                }
                                let w = s.world_mut();
                                w.insert_erased(id, SIM_PARAMS_KEY, params);
                                s.mark_dirty();
                                self.scene = Some(s);
                                let mut m = owned("Preset \"");
                                m.append(pname.as_str());
                                m.append("\" applied.");
                                self.set_status(m);
                            },
                            None => {
                                self.set_status(owned("Select an object first."));
                            },
                        }
                    },
                    None => {
                        self.set_status(owned("Select an object first."));
                    },
                }
            },
        }
    }
}

/// A click on menu `t`: it toggles, nothing else changes.
pub open spec fn menu_open_step<V: Clone + Send + Sync>(a: AppCore<V>, t: MenuTarget, b: AppCore<V>) -> bool {
    &&& b.menu_open == toggled(a.menu_open, t)
    &&& keeps_all_but_menu(a, b)
    &&& b.origin == a.origin
}

/// All menus close, nothing else changes.
pub open spec fn menu_close_step<V: Clone + Send + Sync>(a: AppCore<V>, b: AppCore<V>) -> bool {
    &&& b.menu_open is None
    &&& keeps_all_but_menu(a, b)
    &&& b.origin == a.origin
}

/// The clock starts or stops and the menus close.
pub open spec fn sim_toggle_step<V: Clone + Send + Sync>(a: AppCore<V>, b: AppCore<V>) -> bool {
    &&& b.menu_open is None
    &&& (b.sim == SimClock { running: !a.sim.running, tick: a.sim.tick })
    &&& b.frame == a.frame
    &&& keeps_scene(a, b)
    &&& keeps_selection(a, b)
    &&& keeps_file(a, b)
    &&& keeps_status(a, b)
    &&& b.origin == a.origin
}

/// The clock advances one tick, the menus close and the objects are to move along the orbit.
pub open spec fn sim_step_step<V: Clone + Send + Sync>(a: AppCore<V>, b: AppCore<V>, act: CoreAction<V>) -> bool {
    &&& act is ApplyOrbit
    &&& b.menu_open is None
    &&& (b.sim == SimClock { running: a.sim.running, tick: (a.sim.tick + 1) as u64 })
    &&& b.frame == a.frame
    &&& keeps_scene(a, b)
    &&& keeps_selection(a, b)
    &&& keeps_file(a, b)
    &&& keeps_status(a, b)
    &&& b.origin == a.origin
}

/// The menus close and the open-file dialog is to be shown.
pub open spec fn open_dialog_step<V: Clone + Send + Sync>(a: AppCore<V>, b: AppCore<V>, act: CoreAction<V>) -> bool {
    &&& act is PickOpenFile
    &&& b.menu_open is None
    &&& keeps_all_but_menu(a, b)
    &&& b.origin == a.origin
}

/// The menus close and the import dialog is to be shown.
pub open spec fn import_dialog_step<V: Clone + Send + Sync>(a: AppCore<V>, b: AppCore<V>, act: CoreAction<V>) -> bool {
    &&& act is PickImportFile
    &&& b.menu_open is None
    &&& keeps_all_but_menu(a, b)
    &&& b.origin == a.origin
}

/// The menus close; the scene is saved to its file, or the save dialog is shown when it has none.
pub open spec fn save_dialog_step<V: Clone + Send + Sync>(a: AppCore<V>, b: AppCore<V>, act: CoreAction<V>) -> bool {
    &&& b.menu_open is None
    &&& keeps_all_but_menu(a, b)
    &&& b.origin == a.origin
    &&& match a.current_path {
        Some(p) => act matches CoreAction::SaveTo(q) && q == p,
        None => (act is PickSaveFile),
    }
}

/// The status line is cleared.
pub open spec fn clear_status_step<V: Clone + Send + Sync>(a: AppCore<V>, b: AppCore<V>) -> bool {
    &&& b.status_message is None
    &&& keeps_menu(a, b)
    &&& keeps_all_but_status(a, b)
}

/// A scene with unsaved changes and a file is saved to it; otherwise nothing happens.
pub open spec fn autosave_step<V: Clone + Send + Sync>(a: AppCore<V>, act: CoreAction<V>) -> bool {
    &&& match (a.current_path, a.scene) {
        (Some(p), Some(s)) => if s.is_dirty() {
            act matches CoreAction::SaveTo(q) && q == p
        } else {
            act is Nothing
        },
        _ => (act is Nothing),
    }
}

/// A finished scene file write: on success the path becomes the scene's file; the status line reports.
pub open spec fn save_done_step<V: Clone + Send + Sync>(a: AppCore<V>, path: String, outcome: Result<(), String>, b: AppCore<V>) -> bool {
    &&& keeps_menu(a, b)
    &&& keeps_scene(a, b)
    &&& keeps_selection(a, b)
    &&& keeps_clock(a, b)
    &&& b.origin == a.origin
    &&& match outcome {
        Ok(()) => b.current_path == Some(path) && shows(b, "Scene saved."@),
        Err(e) => keeps_file(a, b) && shows(
            b,
            "Save failed: "@ + e@,
        ),
    }
}

/// A frame is counted, a running clock ticks, and the frame snapshot is to be published.
pub open spec fn debug_tick_step<V: Clone + Send + Sync>(a: AppCore<V>, b: AppCore<V>, act: CoreAction<V>) -> bool {
    &&& b.frame == a.frame + 1
    &&& b.sim.running == a.sim.running
    &&& b.sim.tick == if a.sim.running {
        a.sim.tick + 1
    } else {
        a.sim.tick as int
    }
    &&& keeps_menu(a, b)
    &&& keeps_scene(a, b)
    &&& keeps_selection(a, b)
    &&& keeps_file(a, b)
    &&& keeps_status(a, b)
    &&& b.origin == a.origin
    &&& act matches CoreAction::Frame { ticked, frame, scene_name, entity_count } && ticked
        == a.sim.running && frame == b.frame && scene_name@
        == snapshot_name(a.scene) && entity_count == snapshot_count(a.scene)
}

/// The newest scene edit is undone through the history, when there is a scene.
pub open spec fn undo_step<V: Clone + Send + Sync>(a: AppCore<V>, b: AppCore<V>) -> bool {
    &&& b.wf()
    &&& keeps_menu(a, b)
    &&& keeps_selection(a, b)
    &&& keeps_file(a, b)
    &&& keeps_clock(a, b)
    &&& keeps_status(a, b)
    &&& b.origin == a.origin
    &&& match a.scene {
        None => keeps_scene(a, b),
        Some(s0) => b.scene matches Some(s1) && exists|r|
            #[trigger] undo_outcome(a.history, s0, b.history, s1, r),
    }
}

/// The newest undone scene edit is redone through the history, when there is a scene.
pub open spec fn redo_step<V: Clone + Send + Sync>(a: AppCore<V>, b: AppCore<V>) -> bool {
    &&& b.wf()
    &&& keeps_menu(a, b)
    &&& keeps_selection(a, b)
    &&& keeps_file(a, b)
    &&& keeps_clock(a, b)
    &&& keeps_status(a, b)
    &&& b.origin == a.origin
    &&& match a.scene {
        None => keeps_scene(a, b),
        Some(s0) => b.scene matches Some(s1) && exists|r|
            #[trigger] redo_outcome(a.history, s0, b.history, s1, r),
    }
}

/// The clock is stopped and rewound, the menus close and every object goes back to the origin.
pub open spec fn sim_reset_step<V: Clone + Send + Sync>(a: AppCore<V>, b: AppCore<V>) -> bool {
    &&& b.wf()
    &&& b.menu_open is None
    &&& (b.sim == SimClock { running: false, tick: 0 })
    &&& b.frame == a.frame
    &&& same_history(a.history, b.history)
    &&& keeps_selection(a, b)
    &&& keeps_file(a, b)
    &&& keeps_status(a, b)
    &&& b.origin == a.origin
    &&& match a.scene {
        None => b.scene is None,
        Some(s0) => b.scene matches Some(s1) && positions_reset(
            s0,
            s1,
            a.origin,
        ),
    }
}

/// An entity is selected; with a scene its name fills the name field and its position is to be shown.
pub open spec fn select_step<V: Clone + Send + Sync>(a: AppCore<V>, id: EntityId, b: AppCore<V>, act: CoreAction<V>) -> bool {
    &&& b.selected_entity == Some(id)
    &&& keeps_menu(a, b)
    &&& keeps_scene(a, b)
    &&& keeps_file(a, b)
    &&& keeps_clock(a, b)
    &&& keeps_status(a, b)
    &&& b.origin == a.origin
    &&& match a.scene {
        None => b.prop_name_buf == a.prop_name_buf && (act is Nothing),
        Some(s) => {
            &&& act matches CoreAction::ShowPosition(e) && e == id
            &&& b.prop_name_buf == if s.metas().contains_key(id.0) {
                s.metas()[id.0].name
            } else {
                a.prop_name_buf
            }
        },
    }
}

/// An entity is renamed through the history; the name field shows the new name.
pub open spec fn rename_step<V: Clone + Send + Sync>(a: AppCore<V>, id: EntityId, name: String, b: AppCore<V>) -> bool {
    &&& b.wf()
    &&& b.prop_name_buf == name
    &&& b.selected_entity == a.selected_entity
    &&& keeps_menu(a, b)
    &&& keeps_file(a, b)
    &&& keeps_clock(a, b)
    &&& keeps_status(a, b)
    &&& b.origin == a.origin
    &&& match a.scene {
        None => keeps_scene(a, b),
        Some(s0) => b.scene matches Some(s1) && exists|c: RenameEntityCmd, r|
            {
                &&& c.entity == id
                &&& c.new_name == name
                &&& c.old_name@ == previous_name(s0, id)
                &&& #[trigger] execute_outcome(
                    a.history,
                    EditCmd::Rename(c),
                    s0,
                    b.history,
                    s1,
                    r,
                )
            },
    }
}

/// An entity is moved through the history, which remembers where it was.
pub open spec fn move_step<V: Clone + Send + Sync>(a: AppCore<V>, id: EntityId, pos: V, b: AppCore<V>) -> bool {
    &&& b.wf()
    &&& keeps_menu(a, b)
    &&& keeps_selection(a, b)
    &&& keeps_file(a, b)
    &&& keeps_clock(a, b)
    &&& keeps_status(a, b)
    &&& b.origin == a.origin
    &&& match a.scene {
        None => keeps_scene(a, b),
        Some(s0) => b.scene matches Some(s1) && exists|c: MoveEntityCmd<V>, r|
            {
                &&& c.entity == id
                &&& c.new_pos == pos
                &&& saved_position(s0, a.origin, id, c.old_pos)
                &&& #[trigger] execute_outcome(
                    a.history,
                    EditCmd::Move(c),
                    s0,
                    b.history,
                    s1,
                    r,
                )
            },
    }
}

/// A new empty scene replaces the current one; history, selection and file are cleared, the clock reset and the menus closed.
pub open spec fn new_scene_step<V: Clone + Send + Sync>(a: AppCore<V>, b: AppCore<V>) -> bool {
    &&& b.wf()
    &&& b.scene matches Some(s) && blank_scene(s, "Untitled"@)
    &&& cleared_history(a.history, b.history)
    &&& b.selected_entity is None
    &&& b.current_path is None
    &&& (b.sim == SimClock { running: false, tick: 0 })
    &&& b.menu_open is None
    &&& b.prop_name_buf == a.prop_name_buf
    &&& b.frame == a.frame
    &&& keeps_status(a, b)
    &&& b.origin == a.origin
}

/// With a scene, its scene file is to be written to `path`.
pub open spec fn save_file_step<V: Clone + Send + Sync>(a: AppCore<V>, path: String, act: CoreAction<V>) -> bool {
    &&& match a.scene {
        None => (act is Nothing),
        Some(s) => act matches CoreAction::WriteScene(p, f) && p == path && saved_file(
            s,
            a.origin,
            f,
        ),
    }
}

/// A read scene file replaces the scene (history, selection cleared, file remembered, clock reset); the status line reports either way.
pub open spec fn opened_step<V: Clone + Send + Sync>(a: AppCore<V>, path: String, res: Result<SceneFile<V>, String>, b: AppCore<V>) -> bool {
    &&& b.wf()
    &&& keeps_menu(a, b)
    &&& b.prop_name_buf == a.prop_name_buf
    &&& b.frame == a.frame
    &&& b.origin == a.origin
    &&& match res {
        Ok(f) => {
            &&& b.scene matches Some(s) && loaded_scene(
                s,
                f.scene_name,
                f.entities@,
            )
            &&& cleared_history(a.history, b.history)
            &&& b.selected_entity is None
            &&& b.current_path == Some(path)
            &&& b.sim == SimClock { running: false, tick: 0 }
            &&& shows(b, opened_text(f.entities@.len()))
        },
        Err(e) => {
            &&& keeps_scene(a, b)
            &&& keeps_selection(a, b)
            &&& keeps_file(a, b)
            &&& keeps_clock(a, b)
            &&& shows(b, "Open failed: "@ + e@)
        },
    }
}

/// Imported objects are added to the scene (a new one if there is none) and the first is to be selected; the status line reports.
pub open spec fn imported_step<V: Clone + Send + Sync>(a: AppCore<V>, fname: String, res: Result<Vec<(String, V)>, String>, b: AppCore<V>, act: CoreAction<V>) -> bool {
    &&& b.wf()
    &&& keeps_menu(a, b)
    &&& keeps_selection(a, b)
    &&& keeps_file(a, b)
    &&& keeps_clock(a, b)
    &&& same_history(a.history, b.history)
    &&& b.origin == a.origin
    &&& exists|s0: Scene<V>|
        {
            &&& #[trigger] import_base(a.scene, s0)
            &&& b.scene matches Some(s1) && match res {
                Ok(items) => if items@.len() == 0 {
                    &&& s1 == s0
                    &&& act is Nothing
                    &&& shows(b, "Import: file contained no mesh data."@)
                } else {
                    &&& objects_added(s0, s1, items@)
                    &&& act matches CoreAction::Select(e) && e == EntityId(
                        s0.world_view().next_raw(),
                    )
                    &&& shows(b, imported_text(items@.len(), fname@))
                },
                Err(e) => {
                    &&& s1 == s0
                    &&& act is Nothing
                    &&& shows(b, "Import failed: "@ + e@)
                },
            }
        }
}

/// A chosen preset is stored on the selected entity, or the user is asked to select one; the menus close.
pub open spec fn load_preset_step<V: Clone + Send + Sync>(a: AppCore<V>, preset: Option<(String, V)>, b: AppCore<V>) -> bool {
    &&& b.wf()
    &&& b.menu_open is None
    &&& keeps_selection(a, b)
    &&& keeps_file(a, b)
    &&& keeps_clock(a, b)
    &&& same_history(a.history, b.history)
    &&& b.origin == a.origin
    &&& match preset {
        None => keeps_scene(a, b) && keeps_status(
            a,
            b,
        ),
        Some((pname, params)) => match (a.selected_entity, a.scene) {
            (Some(id), Some(s0)) => {
                &&& b.scene matches Some(s1) && preset_applied(s0, s1, id, params)
                &&& shows(b, "Preset \""@ + pname@ + "\" applied."@)
            },
            _ => keeps_scene(a, b) && shows(
                b,
                "Select an object first."@,
            ),
        },
    }
}

/// Whether `msg` can be handled in state `a` without a counter or the entity
/// ids running out.
pub open spec fn ready<V>(a: AppCore<V>, msg: CoreMsg<V>) -> bool {
    match msg {
        CoreMsg::SimStep => a.sim.tick < u64::MAX,
        CoreMsg::DebugTick => a.frame < u64::MAX && a.sim.tick < u64::MAX,
        CoreMsg::SpawnEntity => a.scene matches Some(s) ==> s.roots().len() < u64::MAX,
        CoreMsg::Opened(_, res) => res matches Ok(f) ==> f.entities@.len() < u64::MAX,
        CoreMsg::Imported(_, res) => res matches Ok(items) ==> match a.scene {
            Some(s) => s.world_view().next_raw() + items@.len() <= u64::MAX,
            None => 1 + items@.len() <= u64::MAX,
        },
        _ => true,
    }
}

/// The effect of handling `msg` in state `a`: the next state `b` and the
/// action `act`.
pub open spec fn step_spec<V: Clone + Send + Sync>(
    a: AppCore<V>,
    msg: CoreMsg<V>,
    b: AppCore<V>,
    act: CoreAction<V>,
) -> bool {
    match msg {
        CoreMsg::MenuOpen(t) => menu_open_step(a, t, b) && act is Nothing,
        CoreMsg::MenuClose => menu_close_step(a, b) && act is Nothing,
        CoreMsg::Undo => undo_step(a, b) && act is Nothing,
        CoreMsg::Redo => redo_step(a, b) && act is Nothing,
        CoreMsg::SimToggle => sim_toggle_step(a, b) && act is Nothing,
        CoreMsg::SimStep => sim_step_step(a, b, act),
        CoreMsg::SimReset => sim_reset_step(a, b) && act is Nothing,
        CoreMsg::SelectEntity(id) => select_step(a, id, b, act),
        CoreMsg::RenameEntity(id, name) => rename_step(a, id, name, b) && act is Nothing,
        CoreMsg::MoveEntity(id, pos) => move_step(a, id, pos, b) && act is Nothing,
        CoreMsg::NewScene => new_scene_step(a, b) && act is Nothing,
        CoreMsg::SpawnEntity => spawn_step(a, b) && act is Nothing,
        CoreMsg::DeleteEntity => delete_step(a, b) && act is Nothing,
        CoreMsg::OpenFileDialog => open_dialog_step(a, b, act),
        CoreMsg::SaveFileDialog => save_dialog_step(a, b, act),
        CoreMsg::SaveFile(path) => b == a && save_file_step(a, path, act),
        CoreMsg::SaveDone(path, outcome) => save_done_step(a, path, outcome, b) && act is Nothing,
        CoreMsg::Opened(path, res) => opened_step(a, path, res, b) && act is Nothing,
        CoreMsg::ImportFileDialog => import_dialog_step(a, b, act),
        CoreMsg::Imported(fname, res) => imported_step(a, fname, res, b, act),
        CoreMsg::ClearStatus => clear_status_step(a, b) && act is Nothing,
        CoreMsg::LoadPreset(preset) => load_preset_step(a, preset, b) && act is Nothing,
        CoreMsg::DebugTick => debug_tick_step(a, b, act),
        CoreMsg::AutosaveTick => b == a && autosave_step(a, act),
        CoreMsg::Noop => b == a && act is Nothing,
    }
}

impl<V: Clone + Send + Sync> AppCore<V> {
    /// Whether `msg` can be handled now (see `ready`).
    pub fn can_handle(&self, msg: &CoreMsg<V>) -> (r: bool)
        ensures
            r == ready(*self, *msg),
    {
        match msg {
            CoreMsg::SimStep => self.sim.tick < u64::MAX,
            CoreMsg::DebugTick => self.frame < u64::MAX && self.sim.tick < u64::MAX,
            CoreMsg::SpawnEntity => match &self.scene {
                Some(s) => (s.root_entities().len() as u64) < u64::MAX,
                None => true,
            },
            CoreMsg::Opened(_, res) => match res {
                Ok(f) => (f.entities.len() as u64) < u64::MAX,
                Err(_) => true,
            },
            CoreMsg::Imported(_, res) => match res {
                Ok(items) => {
                    let n = items.len() as u64;
                    match &self.scene {
                        Some(s) => n <= u64::MAX - s.ids_used_next(),
                        None => n <= u64::MAX - 1,
                    }
                },
                Err(_) => true,
            },
            _ => true,
        }
    }

    /// Handles a message: the state moves on as `step_spec` says and the
    /// returned action is for the user interface to carry out.
    pub fn update(&mut self, msg: CoreMsg<V>) -> (act: CoreAction<V>)
        requires
            old(self).wf(),
            ready(*old(self), msg),
        ensures
            final(self).wf(),
            step_spec(*old(self), msg, *final(self), act),
    {
        match msg {
            CoreMsg::MenuOpen(t) => {
                self.on_menu_open(t);
                CoreAction::Nothing
            },
            CoreMsg::MenuClose => {
                self.on_menu_close();
                CoreAction::Nothing
            },
            CoreMsg::Undo => {
                self.on_undo();
                CoreAction::Nothing
            },
            CoreMsg::Redo => {
                self.on_redo();
                CoreAction::Nothing
            },
            CoreMsg::SimToggle => {
                self.on_sim_toggle();
                CoreAction::Nothing
            },
            CoreMsg::SimStep => self.on_sim_step(),
            CoreMsg::SimReset => {
                self.on_sim_reset();
                CoreAction::Nothing
            },
            CoreMsg::SelectEntity(id) => self.on_select(id),
            CoreMsg::RenameEntity(id, name) => {
                self.on_rename(id, name);
                CoreAction::Nothing
            },
            CoreMsg::MoveEntity(id, pos) => {
                self.on_move(id, pos);
                CoreAction::Nothing
            },
            CoreMsg::NewScene => {
                self.on_new_scene();
                CoreAction::Nothing
            },
            CoreMsg::SpawnEntity => {
                self.on_spawn();
                CoreAction::Nothing
            },
            CoreMsg::DeleteEntity => {
                self.on_delete();
                CoreAction::Nothing
            },
            CoreMsg::OpenFileDialog => self.on_open_file_dialog(),
            CoreMsg::SaveFileDialog => self.on_save_file_dialog(),
            CoreMsg::SaveFile(path) => self.on_save_file(path),
            CoreMsg::SaveDone(path, outcome) => {
                self.on_save_done(path, outcome);
                CoreAction::Nothing
            },
            CoreMsg::Opened(path, res) => {
                self.on_opened(path, res);
                CoreAction::Nothing
            },
            CoreMsg::ImportFileDialog => self.on_import_file_dialog(),
            CoreMsg::Imported(fname, res) => self.on_imported(fname, res),
            CoreMsg::ClearStatus => {
                self.on_clear_status();
                CoreAction::Nothing
            },
            CoreMsg::LoadPreset(preset) => {
                self.on_load_preset(preset);
                CoreAction::Nothing
            },
            CoreMsg::DebugTick => self.on_debug_tick(),
            CoreMsg::AutosaveTick => self.on_autosave_tick(),
            CoreMsg::Noop => CoreAction::Nothing,
        }
    }
}

/// The world after the first `i` outliner objects have been given the
/// positions `ps`, in order (an object that is not live is skipped).
pub open spec fn placed_world<V>(
    view: Map<u64, Map<u64, V>>,
    roots: Seq<EntityId>,
    ps: Seq<V>,
    i: nat,
) -> Map<u64, Map<u64, V>>
    decreases i,
{
    if i == 0 {
        view
    } else {
        let w = placed_world(view, roots, ps, (i - 1) as nat);
        let e = roots[i - 1];
        if w.contains_key(e.0) {
            w.insert(e.0, w[e.0].insert(POSITION_KEY, ps[i - 1]))
        } else {
            w
        }
    }
}

/// The number of objects that `place_objects` moves.
pub open spec fn placed_count(roots: nat, ps: nat) -> nat {
    if roots < ps {
        roots
    } else {
        ps
    }
}

impl<V: Clone + Send + Sync> AppCore<V> {
    /// Gives the outliner objects the positions `positions`, the first object
    /// the first position and so on (as the preview orbit does each tick).
    pub fn place_objects(&mut self, positions: Vec<V>)
        requires
            old(self).wf(),
        ensures
            final(self).wf(),
            keeps_menu(*old(self), *final(self)),
            keeps_selection(*old(self), *final(self)),
            keeps_file(*old(self), *final(self)),
            keeps_clock(*old(self), *final(self)),
            keeps_status(*old(self), *final(self)),
            same_history(old(self).history, final(self).history),
            final(self).origin == old(self).origin,
            match old(self).scene {
                None => final(self).scene is None,
                Some(s0) => final(self).scene matches Some(s1) && {
                    let n = placed_count(s0.roots().len(), positions@.len());
                    &&& s1.wf()
                    &&& s1.world_view().next_raw() == s0.world_view().next_raw()
                    &&& s1.world_view().view() == placed_world(
                        s0.world_view().view(),
                        s0.roots(),
                        positions@,
                        n,
                    )
                    &&& s1.metas() == s0.metas()
                    &&& s1.roots() == s0.roots()
                    &&& s1.scene_name() == s0.scene_name()
                    &&& s1.is_dirty() == (s0.is_dirty() || n > 0)
                },
            },
    {
        let taken = self.scene.take();
        match taken {
            Some(s) => {
                let mut s = s;
                let ghost s0 = s;
                let ghost ps = positions@;
                let mut rest = positions;
                let nr = s.root_entities().len();
                let n = if nr < rest.len() {
                    nr
                } else {
                    rest.len()
                };
                let mut i: usize = 0;
                while i < n
                    invariant
                        n == placed_count(s0.roots().len(), ps.len()),
                        i <= n,
                        rest@ == ps.skip(i as int),
                        s.wf(),
                        s.world_view().next_raw() == s0.world_view().next_raw(),
                        s.world_view().view() == placed_world(
                            s0.world_view().view(),
                            s0.roots(),
                            ps,
                            i as nat,
                        ),
                        s.metas() == s0.metas(),
                        s.roots() == s0.roots(),
                        s.scene_name() == s0.scene_name(),
                        s.is_dirty() == (s0.is_dirty() || i > 0),
                    decreases n - i,
                {
                    let e = s.root_entities()[i];
                    let p = rest.remove(0);
                    proof {
                        assert(p == ps[i as int]);
                        assert(rest@ =~= ps.skip(i + 1));
                    }
                    s.set_position(e, p);
                    i = i + 1;
                }
                self.scene = Some(s);
            },
            None => {},
        }
    }
}

/// The Step command advances the preview simulation by exactly one tick,
/// running or stopped, leaves it running or stopped as it was, and has the
/// objects moved along the orbit; a frame tick advances a stopped simulation
/// not at all, so from a stopped clock a Step is one tick ahead of it.
pub proof fn lemma_sim_step_advances_one_tick<V: Clone + Send + Sync>(
    a: AppCore<V>,
    b: AppCore<V>,
    act: CoreAction<V>,
    c: AppCore<V>,
    act2: CoreAction<V>,
)
    requires
        ready(a, CoreMsg::SimStep),
        step_spec(a, CoreMsg::SimStep, b, act),
    ensures
        b.sim.tick == a.sim.tick + 1,
        b.sim.running == a.sim.running,
        act is ApplyOrbit,
        b.scene == a.scene,
        ready(a, CoreMsg::DebugTick) && step_spec(a, CoreMsg::DebugTick, c, act2) && !a.sim.running
            ==> b.sim.tick == c.sim.tick + 1,
{
}

/// Clicking the same menu twice leaves the menus as they were.
pub proof fn lemma_menu_click_twice(cur: Option<MenuTarget>, t: MenuTarget)
    ensures
        cur == Some(t) || cur is None ==> toggled(toggled(cur, t), t) == cur,
        cur != Some(t) && cur is Some ==> toggled(toggled(cur, t), t) is None,
{
}

/// After a new scene there is nothing to undo: an undo then changes neither
/// the scene nor the history.
pub proof fn lemma_new_scene_then_undo<V: Clone + Send + Sync>(
    a: AppCore<V>,
    b: AppCore<V>,
    c: AppCore<V>,
)
    requires
        new_scene_step(a, b),
        undo_step(b, c),
    ensures
        c.scene == b.scene,
        c.history.undo_view().len() == 0,
        c.history.redo_view().len() == 0,
{
    let s0 = b.scene->0;
    let s1 = c.scene->0;
    let r = choose|r| #[trigger] undo_outcome(b.history, s0, c.history, s1, r);
}

/// Saving a scene and opening what was saved gives back its objects in
/// outliner order, each with its saved name (its own, or `Entity <id>`) and a
/// clone of the position that was written (its own, or the origin), under the
/// same scene name and with nothing unsaved; ids are handed out afresh from 1.
pub proof fn lemma_save_then_open<V: Clone>(
    s: Scene<V>,
    origin: V,
    snap: SceneSnapshot<V>,
    file: SceneFile<V>,
    s1: Scene<V>,
)
    requires
        s.wf(),
        saved_file(s, origin, snap),
        file.scene_name == snap.scene_name,
        file.entities@.len() == snap.entities@.len(),
        forall|i: int|
            0 <= i < snap.entities@.len() ==> #[trigger] file.entities@[i] == (
                snap.entities@[i].1,
                snap.entities@[i].2,
            ),
        loaded_scene(s1, file.scene_name, file.entities@),
    ensures
        s1.scene_name() == s.scene_name(),
        !s1.is_dirty(),
        s1.roots().len() == s.roots().len(),
        forall|i: int|
            0 <= i < s.roots().len() ==> {
                let e = #[trigger] s1.roots()[i];
                let p = snap.entities@[i].2;
                &&& e.0 == i + 1
                &&& s1.metas().contains_key(e.0)
                &&& s1.metas()[e.0].name@ == saved_name(s, s.roots()[i])
                &&& saved_position(s, origin, s.roots()[i], p)
                &&& s1.world_view().view().contains_key(e.0)
                &&& cloned(p, s1.world_view().view()[e.0][POSITION_KEY])
            },
{
    assert forall|i: int| 0 <= i < s.roots().len() implies {
        let e = #[trigger] s1.roots()[i];
        let p = snap.entities@[i].2;
        &&& e.0 == i + 1
        &&& s1.metas().contains_key(e.0)
        &&& s1.metas()[e.0].name@ == saved_name(s, s.roots()[i])
        &&& saved_position(s, origin, s.roots()[i], p)
        &&& s1.world_view().view().contains_key(e.0)
        &&& cloned(p, s1.world_view().view()[e.0][POSITION_KEY])
    } by {
        let e = s1.roots()[i];
        assert(e == EntityId((1 + i) as u64));
        assert(file.entities@[i] == (snap.entities@[i].1, snap.entities@[i].2));
        assert(s1.metas().dom().contains(e.0));
        assert(s1.world_view().view().dom().contains(e.0));
        assert(snap.entities@[i].1@ == saved_name(s, s.roots()[i]));
    }
}

} // verus!
