//! Scene graph: the entity world, per-entity display metadata, the outliner
//! order of root entities, the scene name and the unsaved-changes flag.
use vstd::prelude::*;
use crate::command::{SceneCommand, SceneCommandError};
use crate::ecs::{lookup, ArchetypeWorld, ComponentKey, EntityId};
use std::collections::HashMap;
use std::collections::hash_map::Entry;
use crate::text::{concat2, decimal, owned, push_decimal};

verus! {

broadcast use vstd::std_specs::hash::group_hash_axioms;

/// Component key under which an entity's world-space position is stored.
pub const POSITION_KEY: ComponentKey = 1;

/// Display metadata of a scene object.
#[derive(Debug, Clone)]
pub struct ObjectMeta {
    pub name: String,
    pub visible: bool,
}

impl ObjectMeta {
    /// Metadata with the given name, visible.
    pub fn new(name: String) -> (m: Self)
        ensures
            m.name == name,
            m.visible,
    {
        ObjectMeta { name, visible: true }
    }
}

/// The simulation scene.
pub struct Scene<V> {
    world: ArchetypeWorld<V>,
    object_meta: HashMap<u64, ObjectMeta>,
    root_entities: Vec<EntityId>,
    /// Name of the scene.
    pub name: String,
    /// Whether the scene has unsaved modifications.
    pub dirty: bool,
}

/// `roots` without the occurrences of `e`.
pub open spec fn without<T>(roots: Seq<T>, e: T) -> Seq<T> {
    roots.filter(|x: T| x != e)
}

impl<V> Scene<V> {
    /// The entity world.
    pub closed spec fn world_view(&self) -> ArchetypeWorld<V> {
        self.world
    }

    /// The scene's name.
    pub closed spec fn scene_name(&self) -> String {
        self.name
    }

    /// Whether the scene has unsaved modifications.
    pub closed spec fn is_dirty(&self) -> bool {
        self.dirty
    }

    /// Display metadata by raw entity id.
    pub closed spec fn metas(&self) -> Map<u64, ObjectMeta> {
        self.object_meta@
    }

    /// Root entities in outliner order.
    pub closed spec fn roots(&self) -> Seq<EntityId> {
        self.root_entities@
    }

    /// Consistency: the world is consistent, metadata keys are unique, and
    /// every id with metadata or in the outliner has been handed out already.
    pub closed spec fn wf(&self) -> bool {
        &&& self.world.wf()
        &&& forall|k: u64| #[trigger]
            self.object_meta@.contains_key(k) ==> k < self.world.next_raw()
        &&& forall|i: int|
            0 <= i < self.root_entities@.len() ==> #[trigger] self.root_entities@[i].0
                < self.world.next_raw()
    }

    /// In a consistent scene, the ids with metadata and the outliner's ids lie
    /// below the next id to be handed out.
    pub proof fn lemma_ids_handed_out(&self)
        requires
            self.wf(),
        ensures
            forall|k: u64| #[trigger] self.metas().contains_key(k) ==> k < self.world_view().next_raw(),
            forall|i: int|
                0 <= i < self.roots().len() ==> #[trigger] self.roots()[i].0
                    < self.world_view().next_raw(),
    {
    }

    /// Whether `spawn_object` can still hand out an entity id.
    pub open spec fn can_spawn(&self) -> bool {
        self.world_view().next_raw() < u64::MAX
    }

    /// A consistent scene has a consistent world.
    pub proof fn lemma_world_wf(&self)
        requires
            self.wf(),
        ensures
            self.world_view().wf(),
    {
    }

    /// An empty scene named "Untitled" with an empty world.
    pub fn new() -> (s: Self)
        ensures
            s.wf(),
            s.can_spawn(),
            s.world_view().next_raw() == 1,
            s.world_view().view() == Map::<u64, Map<u64, V>>::empty(),
            s.metas() == Map::<u64, ObjectMeta>::empty(),
            s.roots() == Seq::<EntityId>::empty(),
            s.scene_name()@ == "Untitled"@,
            !s.is_dirty(),
    {
        let s = Scene {
            world: ArchetypeWorld::new(),
            object_meta: HashMap::new(),
            root_entities: Vec::new(),
            name: owned("Untitled"),
            dirty: false,
        };
        s
    }

    /// An empty scene named "Untitled" around a given world.
    pub fn with_world(world: ArchetypeWorld<V>) -> (s: Self)
        requires
            world.wf(),
        ensures
            s.wf(),
            s.world_view() == world,
            s.metas() == Map::<u64, ObjectMeta>::empty(),
            s.roots() == Seq::<EntityId>::empty(),
            s.scene_name()@ == "Untitled"@,
            !s.is_dirty(),
    {
        let s = Scene {
            world,
            object_meta: HashMap::new(),
            root_entities: Vec::new(),
            name: owned("Untitled"),
            dirty: false,
        };
        s
    }

    /// Sets the metadata of raw id `id`, replacing any previous metadata.
    fn put_meta(&mut self, id: u64, meta: ObjectMeta)
        ensures
            final(self).metas() == old(self).metas().insert(id, meta),
            final(self).world == old(self).world,
            final(self).root_entities == old(self).root_entities,
            final(self).scene_name() == old(self).scene_name(),
            final(self).is_dirty() == old(self).is_dirty(),
    {
        let _ = self.object_meta.insert(id, meta);
    }

    /// Spawns a new entity with the given display name, appends it to the
    /// outliner and marks the scene dirty.
    pub fn spawn_object(&mut self, name: String) -> (e: EntityId)
        requires
            old(self).wf(),
            old(self).can_spawn(),
        ensures
            final(self).wf(),
            e.0 == old(self).world_view().next_raw(),
            final(self).world_view().next_raw() == old(self).world_view().next_raw() + 1,
            final(self).world_view().view() == old(self).world_view().view().insert(
                e.0,
                Map::empty(),
            ),
            final(self).metas() == old(self).metas().insert(
                e.0,
                ObjectMeta { name: name, visible: true },
            ),
            final(self).roots() == old(self).roots().push(e),
            final(self).scene_name() == old(self).scene_name(),
            final(self).is_dirty(),
    {
        let e = self.world.spawn();
        self.put_meta(e.0, ObjectMeta::new(name));
        self.root_entities.push(e);
        self.dirty = true;
        e
    }

    /// Despawns an entity, drops its metadata, removes it from the outliner and
    /// marks the scene dirty.
    pub fn despawn_object(&mut self, entity: EntityId)
        requires
            old(self).wf(),
        ensures
            final(self).wf(),
            final(self).world_view().next_raw() == old(self).world_view().next_raw(),
            final(self).world_view().view() == old(self).world_view().view().remove(entity.0),
            final(self).metas() == old(self).metas().remove(entity.0),
            final(self).roots() == without(old(self).roots(), entity),
            final(self).scene_name() == old(self).scene_name(),
            final(self).is_dirty(),
    {
        self.world.despawn(entity);
        let _ = self.object_meta.remove(&entity.0);
        let ghost r0 = self.root_entities@;
        let mut kept: Vec<EntityId> = Vec::new();
        let mut i: usize = 0;
        while i < self.root_entities.len()
            invariant
                r0 == self.root_entities@,
                i <= r0.len(),
                kept@ == without(r0.take(i as int), entity),
                forall|a: int| 0 <= a < r0.len() ==> #[trigger] r0[a].0 < self.world.next_raw(),
                forall|a: int| 0 <= a < kept@.len() ==> #[trigger] kept@[a].0 < self.world.next_raw(),
            decreases r0.len() - i,
        {
            let x = self.root_entities[i];
            proof {
                assert(r0.take(i + 1).drop_last() =~= r0.take(i as int));
                reveal_with_fuel(Seq::filter, 1);
            }
            if x != entity {
                kept.push(x);
            }
            i = i + 1;
        }
        proof {
            assert(r0.take(r0.len() as int) =~= r0);
        }
        self.root_entities = kept;
        self.dirty = true;
    }

    /// The display metadata of an entity, if it has any.
    pub fn meta(&self, entity: EntityId) -> (r: Option<&ObjectMeta>)
        ensures
            match r {
                Some(m) => self.metas().contains_key(entity.0) && *m == self.metas()[entity.0],
                None => !self.metas().contains_key(entity.0),
            },
    {
        self.object_meta.get(&entity.0)
    }

    /// Mutable display metadata of an entity, if it has any; what is written
    /// through it becomes the entity's metadata.
    pub fn meta_mut(&mut self, entity: EntityId) -> (r: Option<&mut ObjectMeta>)
        ensures
            match r {
                Some(m) => {
                    &&& old(self).metas().contains_key(entity.0)
                    &&& *m == old(self).metas()[entity.0]
                    &&& old(self).wf() ==> final(self).wf()
                    &&& final(self).metas() == old(self).metas().insert(entity.0, *final(m))
                    &&& final(self).world_view() == old(self).world_view()
                    &&& final(self).roots() == old(self).roots()
                    &&& final(self).scene_name() == old(self).scene_name()
                    &&& final(self).is_dirty() == old(self).is_dirty()
                },
                None => {
                    &&& !old(self).metas().contains_key(entity.0)
                    &&& *final(self) == *old(self)
                },
            },
    {
        if !self.object_meta.contains_key(&entity.0) {
            return None;
        }
        match self.object_meta.entry(entity.0) {
            Entry::Occupied(o) => Some(o.into_mut()),
            Entry::Vacant(_) => None,
        }
    }

    /// The entity world.
    pub fn world(&self) -> (w: &ArchetypeWorld<V>)
        ensures
            *w == self.world_view(),
    {
        &self.world
    }

    /// Mutable access to the entity world.
    pub fn world_mut(&mut self) -> (w: &mut ArchetypeWorld<V>)
        ensures
            *w == old(self).world_view(),
            final(self).world_view() == *final(w),
            final(self).metas() == old(self).metas(),
            final(self).roots() == old(self).roots(),
            final(self).scene_name() == old(self).scene_name(),
            final(self).is_dirty() == old(self).is_dirty(),
            old(self).wf() && final(w).wf() && final(w).next_raw() >= old(self).world_view().next_raw()
                ==> final(self).wf(),
    {
        &mut self.world
    }

    /// The scene's name.
    pub fn scene_name_ref(&self) -> (r: &String)
        ensures
            *r == self.scene_name(),
    {
        &self.name
    }

    /// Whether the scene has unsaved modifications.
    pub fn has_unsaved_changes(&self) -> (r: bool)
        ensures
            r == self.is_dirty(),
    {
        self.dirty
    }

    /// Renames the scene.
    pub fn set_name(&mut self, name: String)
        ensures
            final(self).scene_name() == name,
            final(self).is_dirty() == old(self).is_dirty(),
            final(self).world_view() == old(self).world_view(),
            final(self).metas() == old(self).metas(),
            final(self).roots() == old(self).roots(),
            final(self).wf() == old(self).wf(),
    {
        self.name = name;
    }

    /// The raw id the next spawned object gets.
    pub fn ids_used_next(&self) -> (r: u64)
        ensures
            r == self.world_view().next_raw(),
    {
        self.world.next_id_value()
    }

    /// The first `limit` outliner objects with their positions (a clone of the
    /// stored one, or of `origin` for an object without one).
    pub fn entity_positions(&self, limit: usize, origin: &V) -> (r: Vec<(EntityId, V)>)
        where V: Clone
        requires
            self.wf(),
        ensures
            r@.len() == if limit < self.roots().len() {
                limit as int
            } else {
                self.roots().len() as int
            },
            forall|i: int|
                0 <= i < r@.len() ==> (#[trigger] r@[i]).0 == self.roots()[i] && cloned(
                    match lookup(self.world_view().view(), self.roots()[i].0, POSITION_KEY) {
                        Some(p) => p,
                        None => *origin,
                    },
                    r@[i].1,
                ),
    {
        let n = if limit < self.root_entities.len() {
            limit
        } else {
            self.root_entities.len()
        };
        let mut out: Vec<(EntityId, V)> = Vec::new();
        let mut i: usize = 0;
        while i < n
            invariant
                n <= self.root_entities@.len(),
                n == if limit < self.roots().len() {
                    limit as int
                } else {
                    self.roots().len() as int
                },
                self.wf(),
                i <= n,
                out@.len() == i,
                forall|k: int|
                    0 <= k < i ==> (#[trigger] out@[k]).0 == self.roots()[k] && cloned(
                        match lookup(self.world_view().view(), self.roots()[k].0, POSITION_KEY) {
                            Some(p) => p,
                            None => *origin,
                        },
                        out@[k].1,
                    ),
            decreases n - i,
        {
            let e = self.root_entities[i];
            let p = match self.get_position(e) {
                Some(p) => {
                    let c = p.clone();
                    assert(cloned(*p, c));
                    c
                },
                None => {
                    let c = origin.clone();
                    assert(cloned(*origin, c));
                    c
                },
            };
            let ghost prev = out@;
            out.push((e, p));
            assert forall|k: int| 0 <= k < i + 1 implies (#[trigger] out@[k]).0 == self.roots()[k]
                && cloned(
                match lookup(self.world_view().view(), self.roots()[k].0, POSITION_KEY) {
                    Some(p) => p,
                    None => *origin,
                },
                out@[k].1,
            ) by {
                if k < i {
                    assert(out@[k] == prev[k]);
                }
            }
            i = i + 1;
        }
        out
    }

    /// Whether `spawn_object` can still hand out an entity id.
    pub fn has_room(&self) -> (r: bool)
        ensures
            r == self.can_spawn(),
    {
        self.world.has_free_id()
    }

    /// Root entities in outliner order.
    pub fn root_entities(&self) -> (r: &[EntityId])
        ensures
            r@ == self.roots(),
    {
        self.root_entities.as_slice()
    }

    /// The position component of an entity, if one is stored.
    pub fn get_position(&self, entity: EntityId) -> (r: Option<&V>)
        requires
            self.wf(),
        ensures
            match r {
                Some(p) => self.world_view().view().contains_key(entity.0)
                    && self.world_view().view()[entity.0].contains_key(POSITION_KEY) && *p
                    == self.world_view().view()[entity.0][POSITION_KEY],
                None => !(self.world_view().view().contains_key(entity.0)
                    && self.world_view().view()[entity.0].contains_key(POSITION_KEY)),
            },
    {
        self.world.get_erased(entity, POSITION_KEY)
    }

    /// Stores the position of an entity (ignored for an entity that is not live)
    /// and marks the scene dirty.
    pub fn set_position(&mut self, entity: EntityId, pos: V)
        requires
            old(self).wf(),
        ensures
            final(self).wf(),
            final(self).world_view().next_raw() == old(self).world_view().next_raw(),
            final(self).world_view().view() == if old(self).world_view().view().contains_key(
                entity.0,
            ) {
                old(self).world_view().view().insert(
                    entity.0,
                    old(self).world_view().view()[entity.0].insert(POSITION_KEY, pos),
                )
            } else {
                old(self).world_view().view()
            },
            final(self).metas() == old(self).metas(),
            final(self).roots() == old(self).roots(),
            final(self).scene_name() == old(self).scene_name(),
            final(self).is_dirty(),
    {
        self.world.insert_erased(entity, POSITION_KEY, pos);
        self.dirty = true;
    }

    /// Marks the scene as saved.
    pub fn mark_clean(&mut self)
        ensures
            !final(self).is_dirty(),
            final(self).scene_name() == old(self).scene_name(),
            final(self).world_view() == old(self).world_view(),
            final(self).metas() == old(self).metas(),
            final(self).roots() == old(self).roots(),
            final(self).wf() == old(self).wf(),
    {
        self.dirty = false;
        assert(self.world == old(self).world && self.object_meta == old(self).object_meta
            && self.root_entities == old(self).root_entities);
    }

    /// Marks the scene as having unsaved modifications.
    pub fn mark_dirty(&mut self)
        ensures
            final(self).is_dirty(),
            final(self).scene_name() == old(self).scene_name(),
            final(self).world_view() == old(self).world_view(),
            final(self).metas() == old(self).metas(),
            final(self).roots() == old(self).roots(),
            final(self).wf() == old(self).wf(),
    {
        self.dirty = true;
        assert(self.world == old(self).world && self.object_meta == old(self).object_meta
            && self.root_entities == old(self).root_entities);
    }
}

/// How an entity id is shown in messages: `EntityId(<raw>)`.
pub open spec fn entity_text(e: EntityId) -> Seq<char> {
    "EntityId("@ + decimal(e.0 as nat) + ")"@
}

/// Renders an entity id as its debug form, `EntityId(<raw>)`.
pub fn entity_id_text(e: EntityId) -> (r: String)
    ensures
        r@ == entity_text(e),
{
    let mut s = owned("EntityId(");
    push_decimal(&mut s, e.0);
    s.append(")");
    s
}

/// Renames a scene entity; keeps the old and new names for undo/redo.
#[derive(Debug)]
pub struct RenameEntityCmd {
    pub entity: EntityId,
    pub old_name: String,
    pub new_name: String,
}

impl RenameEntityCmd {
    /// A rename of `entity` from `old_name` to `new_name`.
    pub fn new(entity: EntityId, old_name: String, new_name: String) -> (c: Self)
        ensures
            c.entity == entity,
            c.old_name == old_name,
            c.new_name == new_name,
    {
        RenameEntityCmd { entity, old_name, new_name }
    }

    /// Sets the entity's name to `name` and marks the scene dirty, or reports
    /// the entity as missing.
    fn apply_name<V>(&self, scene: &mut Scene<V>, name: &String, on_undo: bool) -> (r: Result<
        (),
        SceneCommandError,
    >)
        ensures
            renamed(*old(scene), *final(scene), self.entity, *name, on_undo, r),
    {
        match scene.meta_mut(self.entity) {
            Some(meta) => {
                meta.name = name.clone();
                scene.mark_dirty();
                Ok(())
            },
            None => {
                let msg = rename_missing_message(self.entity, on_undo);
                if on_undo {
                    Err(SceneCommandError::UndoError(msg))
                } else {
                    Err(SceneCommandError::ExecuteError(msg))
                }
            },
        }
    }
}

/// What renaming `e` to `name` does: with metadata for `e`, the name is
/// replaced (visibility kept), nothing else but the dirty flag changes, and
/// the rename succeeds; without, the scene is unchanged and the rename fails
/// as a missing entity.
pub open spec fn renamed<V>(
    before: Scene<V>,
    after: Scene<V>,
    e: EntityId,
    name: String,
    on_undo: bool,
    r: Result<(), SceneCommandError>,
) -> bool {
    if before.metas().contains_key(e.0) {
        &&& r is Ok
        &&& before.wf() ==> after.wf()
        &&& after.metas() == before.metas().insert(
            e.0,
            ObjectMeta { name: name, visible: before.metas()[e.0].visible },
        )
        &&& after.world_view() == before.world_view()
        &&& after.roots() == before.roots()
        &&& after.scene_name() == before.scene_name()
        &&& after.is_dirty()
    } else {
        after == before && rename_failed(r, e, on_undo)
    }
}

/// The reason given when a rename finds no entity.
pub open spec fn rename_missing_text(e: EntityId, on_undo: bool) -> Seq<char> {
    "RenameEntityCmd: entity "@ + entity_text(e) + if on_undo {
        " not found on undo"@
    } else {
        " not found"@
    }
}

/// `r` is the error a rename reports when `e` is missing: an `UndoError` on undo,
/// an `ExecuteError` otherwise, with the reason above.
pub open spec fn rename_failed(r: Result<(), SceneCommandError>, e: EntityId, on_undo: bool) -> bool {
    match r {
        Err(SceneCommandError::UndoError(m)) => on_undo && m@ == rename_missing_text(e, on_undo),
        Err(SceneCommandError::ExecuteError(m)) => !on_undo && m@ == rename_missing_text(
            e,
            on_undo,
        ),
        _ => false,
    }
}

/// The reason given when a rename finds no entity.
fn rename_missing_message(e: EntityId, on_undo: bool) -> (r: String)
    ensures
        r@ == rename_missing_text(e, on_undo),
{
    let mut s = owned("RenameEntityCmd: entity ");
    s.append(entity_id_text(e).as_str());
    if on_undo {
        s.append(" not found on undo");
    } else {
        s.append(" not found");
    }
    s
}

impl<V> SceneCommand<Scene<V>> for RenameEntityCmd {
    open spec fn label_view(&self) -> Seq<char> {
        "Rename Entity"@
    }

    open spec fn accepts(&self, scene: Scene<V>) -> bool {
        true
    }

    open spec fn execute_spec(
        &self,
        done: Self,
        before: Scene<V>,
        after: Scene<V>,
        r: Result<(), SceneCommandError>,
    ) -> bool {
        done == *self && renamed(before, after, self.entity, self.new_name, false, r)
    }

    open spec fn undo_spec(
        &self,
        done: Self,
        before: Scene<V>,
        after: Scene<V>,
        r: Result<(), SceneCommandError>,
    ) -> bool {
        done == *self && renamed(before, after, self.entity, self.old_name, true, r)
    }

    fn label(&self) -> (r: &str) {
        "Rename Entity"
    }

    fn execute(&mut self, scene: &mut Scene<V>) -> (r: Result<(), SceneCommandError>) {
        let name = self.new_name.clone();
        self.apply_name(scene, &name, false)
    }

    fn undo(&mut self, scene: &mut Scene<V>) -> (r: Result<(), SceneCommandError>) {
        let name = self.old_name.clone();
        self.apply_name(scene, &name, true)
    }
}

/// Moves a scene entity to a new position; keeps the old and new positions for
/// undo/redo.
#[derive(Debug)]
pub struct MoveEntityCmd<V> {
    pub entity: EntityId,
    pub old_pos: V,
    pub new_pos: V,
}

impl<V> MoveEntityCmd<V> {
    /// A move of `entity` from `old_pos` to `new_pos`.
    pub fn new(entity: EntityId, old_pos: V, new_pos: V) -> (c: Self)
        ensures
            c.entity == entity,
            c.old_pos == old_pos,
            c.new_pos == new_pos,
    {
        MoveEntityCmd { entity, old_pos, new_pos }
    }
}

/// What storing a clone of `pos` as the position of `e` does: a live entity's
/// position becomes a clone of `pos`; the world is otherwise unchanged, as are
/// metadata, outliner and name; the scene becomes dirty.
pub open spec fn positioned<V: Clone>(before: Scene<V>, after: Scene<V>, e: EntityId, pos: V) -> bool {
    &&& after.wf()
    &&& after.world_view().next_raw() == before.world_view().next_raw()
    &&& if before.world_view().view().contains_key(e.0) {
        let w = after.world_view().view()[e.0][POSITION_KEY];
        &&& cloned(pos, w)
        &&& after.world_view().view() == before.world_view().view().insert(
            e.0,
            before.world_view().view()[e.0].insert(POSITION_KEY, w),
        )
    } else {
        after.world_view().view() == before.world_view().view()
    }
    &&& after.metas() == before.metas()
    &&& after.roots() == before.roots()
    &&& after.scene_name() == before.scene_name()
    &&& after.is_dirty()
}

impl<V> MoveEntityCmd<V> {
    /// Stores a clone of `pos` as the entity's position.
    fn place(&self, scene: &mut Scene<V>, pos: &V)
        where V: Clone
        requires
            old(scene).wf(),
        ensures
            positioned(*old(scene), *final(scene), self.entity, *pos),
    {
        let p = pos.clone();
        scene.set_position(self.entity, p);
        proof {
            if old(scene).world_view().view().contains_key(self.entity.0) {
                assert(scene.world_view().view()[self.entity.0][POSITION_KEY] == p);
            }
        }
    }
}

impl<V: Clone + Send + Sync> SceneCommand<Scene<V>> for MoveEntityCmd<V> {
    open spec fn label_view(&self) -> Seq<char> {
        "Move Entity"@
    }

    open spec fn accepts(&self, scene: Scene<V>) -> bool {
        scene.wf()
    }

    open spec fn execute_spec(
        &self,
        done: Self,
        before: Scene<V>,
        after: Scene<V>,
        r: Result<(), SceneCommandError>,
    ) -> bool {
        done == *self && r is Ok && positioned(before, after, self.entity, self.new_pos)
    }

    open spec fn undo_spec(
        &self,
        done: Self,
        before: Scene<V>,
        after: Scene<V>,
        r: Result<(), SceneCommandError>,
    ) -> bool {
        done == *self && r is Ok && positioned(before, after, self.entity, self.old_pos)
    }

    fn label(&self) -> (r: &str) {
        "Move Entity"
    }

    fn execute(&mut self, scene: &mut Scene<V>) -> (r: Result<(), SceneCommandError>) {
        self.place(scene, &self.new_pos);
        Ok(())
    }

    fn undo(&mut self, scene: &mut Scene<V>) -> (r: Result<(), SceneCommandError>) {
        self.place(scene, &self.old_pos);
        Ok(())
    }
}

/// What spawning an object named `name` as `e` does: `e` is the next id, the
/// world gains it with no components, it gets visible metadata with that name
/// and goes last in the outliner; the scene becomes dirty.
pub open spec fn spawned_as<V>(before: Scene<V>, after: Scene<V>, name: String, e: EntityId) -> bool {
    &&& after.wf()
    &&& e.0 == before.world_view().next_raw()
    &&& after.world_view().next_raw() == before.world_view().next_raw() + 1
    &&& after.world_view().view() == before.world_view().view().insert(e.0, Map::empty())
    &&& after.metas() == before.metas().insert(e.0, ObjectMeta { name: name, visible: true })
    &&& after.roots() == before.roots().push(e)
    &&& after.scene_name() == before.scene_name()
    &&& after.is_dirty()
}

/// What despawning `e` does: it leaves the world, the metadata and the
/// outliner; ids are not handed back; the scene becomes dirty.
pub open spec fn despawned<V>(before: Scene<V>, after: Scene<V>, e: EntityId) -> bool {
    &&& after.wf()
    &&& after.world_view().next_raw() == before.world_view().next_raw()
    &&& after.world_view().view() == before.world_view().view().remove(e.0)
    &&& after.metas() == before.metas().remove(e.0)
    &&& after.roots() == without(before.roots(), e)
    &&& after.scene_name() == before.scene_name()
    &&& after.is_dirty()
}

/// The reason given when no entity id is left to hand out.
pub open spec fn no_free_id_text(command: Seq<char>) -> Seq<char> {
    command + ": no free entity id"@
}

/// `r` failed with `UndoError` (on undo) or `ExecuteError` (otherwise) and the
/// reason `why`.
pub open spec fn failed_with(r: Result<(), SceneCommandError>, on_undo: bool, why: Seq<char>) -> bool {
    match r {
        Err(SceneCommandError::UndoError(m)) => on_undo && m@ == why,
        Err(SceneCommandError::ExecuteError(m)) => !on_undo && m@ == why,
        _ => false,
    }
}

fn failure(on_undo: bool, why: String) -> (r: Result<(), SceneCommandError>)
    ensures
        failed_with(r, on_undo, why@),
{
    if on_undo {
        Err(SceneCommandError::UndoError(why))
    } else {
        Err(SceneCommandError::ExecuteError(why))
    }
}

/// Spawns a named object; undo despawns it again. A redo spawns a fresh
/// object under a new id, since ids are never handed out twice.
#[derive(Debug)]
pub struct SpawnEntityCmd {
    pub name: String,
    /// The object the last execute spawned.
    pub spawned: Option<EntityId>,
}

impl SpawnEntityCmd {
    /// A spawn of an object named `name`; nothing spawned yet.
    pub fn new(name: String) -> (c: Self)
        ensures
            c.name == name,
            (c.spawned is None),
    {
        SpawnEntityCmd { name, spawned: None }
    }
}

impl<V> SceneCommand<Scene<V>> for SpawnEntityCmd {
    open spec fn label_view(&self) -> Seq<char> {
        "Spawn Entity"@
    }

    open spec fn accepts(&self, scene: Scene<V>) -> bool {
        scene.wf()
    }

    open spec fn execute_spec(
        &self,
        done: Self,
        before: Scene<V>,
        after: Scene<V>,
        r: Result<(), SceneCommandError>,
    ) -> bool {
        if before.can_spawn() {
            let e = EntityId(before.world_view().next_raw());
            &&& r is Ok
            &&& done.name == self.name
            &&& done.spawned == Some(e)
            &&& spawned_as(before, after, self.name, e)
        } else {
            &&& done == *self
            &&& after == before
            &&& failed_with(r, false, no_free_id_text("SpawnEntityCmd"@))
        }
    }

    open spec fn undo_spec(
        &self,
        done: Self,
        before: Scene<V>,
        after: Scene<V>,
        r: Result<(), SceneCommandError>,
    ) -> bool {
        &&& done == *self
        &&& match self.spawned {
            Some(e) => r is Ok && despawned(before, after, e),
            None => after == before && failed_with(
                r,
                true,
                "SpawnEntityCmd: nothing was spawned"@,
            ),
        }
    }

    fn label(&self) -> (r: &str) {
        "Spawn Entity"
    }

    fn execute(&mut self, scene: &mut Scene<V>) -> (r: Result<(), SceneCommandError>) {
        if !scene.has_room() {
            return failure(false, concat2("SpawnEntityCmd", ": no free entity id"));
        }
        let e = scene.spawn_object(self.name.clone());
        self.spawned = Some(e);
        Ok(())
    }

    fn undo(&mut self, scene: &mut Scene<V>) -> (r: Result<(), SceneCommandError>) {
        match self.spawned {
            Some(e) => {
                scene.despawn_object(e);
                Ok(())
            },
            None => failure(true, owned("SpawnEntityCmd: nothing was spawned")),
        }
    }
}

/// Despawns an object; undo spawns it again with its recorded name and
/// position, under a new id (which a redo then despawns).
#[derive(Debug)]
pub struct DespawnEntityCmd<V> {
    /// The object a redo despawns.
    pub entity: EntityId,
    pub name: String,
    pub pos: V,
}

impl<V> DespawnEntityCmd<V> {
    /// A despawn of `entity`, recording its name and position for undo.
    pub fn new(entity: EntityId, name: String, pos: V) -> (c: Self)
        ensures
            c.entity == entity,
            c.name == name,
            c.pos == pos,
    {
        DespawnEntityCmd { entity, name, pos }
    }
}

/// What restoring a despawned object does: it is spawned as `e` with its
/// name and given a clone of the recorded position.
pub open spec fn restored<V: Clone>(
    before: Scene<V>,
    after: Scene<V>,
    name: String,
    pos: V,
    e: EntityId,
) -> bool {
    let w = after.world_view().view()[e.0][POSITION_KEY];
    &&& after.wf()
    &&& e.0 == before.world_view().next_raw()
    &&& after.world_view().next_raw() == before.world_view().next_raw() + 1
    &&& cloned(pos, w)
    &&& after.world_view().view() == before.world_view().view().insert(
        e.0,
        Map::empty().insert(POSITION_KEY, w),
    )
    &&& after.metas() == before.metas().insert(e.0, ObjectMeta { name: name, visible: true })
    &&& after.roots() == before.roots().push(e)
    &&& after.scene_name() == before.scene_name()
    &&& after.is_dirty()
}

impl<V: Clone + Send + Sync> SceneCommand<Scene<V>> for DespawnEntityCmd<V> {
    open spec fn label_view(&self) -> Seq<char> {
        "Delete Entity"@
    }

    open spec fn accepts(&self, scene: Scene<V>) -> bool {
        scene.wf()
    }

    open spec fn execute_spec(
        &self,
        done: Self,
        before: Scene<V>,
        after: Scene<V>,
        r: Result<(), SceneCommandError>,
    ) -> bool {
        done == *self && r is Ok && despawned(before, after, self.entity)
    }

    open spec fn undo_spec(
        &self,
        done: Self,
        before: Scene<V>,
        after: Scene<V>,
        r: Result<(), SceneCommandError>,
    ) -> bool {
        if before.can_spawn() {
            let e = EntityId(before.world_view().next_raw());
            &&& r is Ok
            &&& done.entity == e
            &&& done.name == self.name
            &&& done.pos == self.pos
            &&& restored(before, after, self.name, self.pos, e)
        } else {
            &&& done == *self
            &&& after == before
            &&& failed_with(r, true, no_free_id_text("DespawnEntityCmd"@))
        }
    }

    fn label(&self) -> (r: &str) {
        "Delete Entity"
    }

    fn execute(&mut self, scene: &mut Scene<V>) -> (r: Result<(), SceneCommandError>) {
        scene.despawn_object(self.entity);
        Ok(())
    }

    fn undo(&mut self, scene: &mut Scene<V>) -> (r: Result<(), SceneCommandError>) {
        if !scene.has_room() {
            return failure(true, concat2("DespawnEntityCmd", ": no free entity id"));
        }
        let ghost before = *scene;
        let e = scene.spawn_object(self.name.clone());
        let c = self.pos.clone();
        assert(cloned(self.pos, c));
        scene.set_position(e, c);
        proof {
            assert(scene.world_view().view()[e.0][POSITION_KEY] == c);
            assert(scene.world_view().view() =~= before.world_view().view().insert(
                e.0,
                Map::empty().insert(POSITION_KEY, c),
            ));
        }
        self.entity = e;
        Ok(())
    }
}

/// The scene edits the application records in its history.
#[derive(Debug)]
pub enum EditCmd<V> {
    Rename(RenameEntityCmd),
    Move(MoveEntityCmd<V>),
    Spawn(SpawnEntityCmd),
    Despawn(DespawnEntityCmd<V>),
}

impl<V: Clone + Send + Sync> SceneCommand<Scene<V>> for EditCmd<V> {
    open spec fn label_view(&self) -> Seq<char> {
        match *self {
            EditCmd::Rename(c) => SceneCommand::<Scene<V>>::label_view(&c),
            EditCmd::Move(c) => c.label_view(),
            EditCmd::Spawn(c) => SceneCommand::<Scene<V>>::label_view(&c),
            EditCmd::Despawn(c) => c.label_view(),
        }
    }

    open spec fn accepts(&self, scene: Scene<V>) -> bool {
        match *self {
            EditCmd::Rename(c) => c.accepts(scene),
            EditCmd::Move(c) => c.accepts(scene),
            EditCmd::Spawn(c) => c.accepts(scene),
            EditCmd::Despawn(c) => c.accepts(scene),
        }
    }

    open spec fn execute_spec(
        &self,
        done: Self,
        before: Scene<V>,
        after: Scene<V>,
        r: Result<(), SceneCommandError>,
    ) -> bool {
        match *self {
            EditCmd::Rename(c) => done matches EditCmd::Rename(d) && c.execute_spec(
                d,
                before,
                after,
                r,
            ),
            EditCmd::Move(c) => done matches EditCmd::Move(d) && c.execute_spec(d, before, after, r),
            EditCmd::Spawn(c) => done matches EditCmd::Spawn(d) && c.execute_spec(
                d,
                before,
                after,
                r,
            ),
            EditCmd::Despawn(c) => done matches EditCmd::Despawn(d) && c.execute_spec(
                d,
                before,
                after,
                r,
            ),
        }
    }

    open spec fn undo_spec(
        &self,
        done: Self,
        before: Scene<V>,
        after: Scene<V>,
        r: Result<(), SceneCommandError>,
    ) -> bool {
        match *self {
            EditCmd::Rename(c) => done matches EditCmd::Rename(d) && c.undo_spec(d, before, after, r),
            EditCmd::Move(c) => done matches EditCmd::Move(d) && c.undo_spec(d, before, after, r),
            EditCmd::Spawn(c) => done matches EditCmd::Spawn(d) && c.undo_spec(d, before, after, r),
            EditCmd::Despawn(c) => done matches EditCmd::Despawn(d) && c.undo_spec(
                d,
                before,
                after,
                r,
            ),
        }
    }

    fn label(&self) -> (r: &str) {
        match self {
            EditCmd::Rename(c) => SceneCommand::<Scene<V>>::label(c),
            EditCmd::Move(c) => c.label(),
            EditCmd::Spawn(c) => SceneCommand::<Scene<V>>::label(c),
            EditCmd::Despawn(c) => c.label(),
        }
    }

    fn execute(&mut self, scene: &mut Scene<V>) -> (r: Result<(), SceneCommandError>) {
        match self {
            EditCmd::Rename(c) => c.execute(scene),
            EditCmd::Move(c) => c.execute(scene),
            EditCmd::Spawn(c) => c.execute(scene),
            EditCmd::Despawn(c) => c.execute(scene),
        }
    }

    fn undo(&mut self, scene: &mut Scene<V>) -> (r: Result<(), SceneCommandError>) {
        match self {
            EditCmd::Rename(c) => c.undo(scene),
            EditCmd::Move(c) => c.undo(scene),
            EditCmd::Spawn(c) => c.undo(scene),
            EditCmd::Despawn(c) => c.undo(scene),
        }
    }
}

/// Applying or reversing a scene edit keeps a consistent scene consistent.
pub proof fn lemma_edit_keeps_wf<V: Clone + Send + Sync>(
    c: EditCmd<V>,
    done: EditCmd<V>,
    before: Scene<V>,
    after: Scene<V>,
    r: Result<(), SceneCommandError>,
)
    requires
        before.wf(),
        c.execute_spec(done, before, after, r) || c.undo_spec(done, before, after, r),
    ensures
        after.wf(),
{
}

/// Renaming an entity and undoing the rename gives every entity back the
/// metadata it had, when the rename recorded the entity's name as the old one;
/// the world, the outliner and the scene name are untouched throughout.
pub proof fn lemma_rename_then_undo<V>(
    c: RenameEntityCmd,
    d1: RenameEntityCmd,
    s0: Scene<V>,
    s1: Scene<V>,
    r1: Result<(), SceneCommandError>,
    d2: RenameEntityCmd,
    s2: Scene<V>,
    r2: Result<(), SceneCommandError>,
)
    requires
        s0.metas().contains_key(c.entity.0),
        c.old_name == s0.metas()[c.entity.0].name,
        SceneCommand::<Scene<V>>::execute_spec(&c, d1, s0, s1, r1),
        SceneCommand::<Scene<V>>::undo_spec(&d1, d2, s1, s2, r2),
    ensures
        r1 is Ok,
        r2 is Ok,
        s2.metas() == s0.metas(),
        s2.world_view() == s0.world_view(),
        s2.roots() == s0.roots(),
        s2.scene_name() == s0.scene_name(),
{
    assert(s2.metas() =~= s0.metas());
}

/// Moving an entity and undoing the move puts a clone of the recorded old
/// position back as its position; nothing else of the world, the metadata or
/// the outliner changes.
pub proof fn lemma_move_then_undo<V: Clone + Send + Sync>(
    c: MoveEntityCmd<V>,
    d1: MoveEntityCmd<V>,
    s0: Scene<V>,
    s1: Scene<V>,
    r1: Result<(), SceneCommandError>,
    d2: MoveEntityCmd<V>,
    s2: Scene<V>,
    r2: Result<(), SceneCommandError>,
)
    requires
        s0.world_view().view().contains_key(c.entity.0),
        c.execute_spec(d1, s0, s1, r1),
        d1.undo_spec(d2, s1, s2, r2),
    ensures
        r1 is Ok,
        r2 is Ok,
        s2.world_view().view().dom() == s0.world_view().view().dom(),
        s2.world_view().view()[c.entity.0] == s0.world_view().view()[c.entity.0].insert(
            POSITION_KEY,
            s2.world_view().view()[c.entity.0][POSITION_KEY],
        ),
        cloned(c.old_pos, s2.world_view().view()[c.entity.0][POSITION_KEY]),
        forall|k: u64|
            k != c.entity.0 && #[trigger] s0.world_view().view().contains_key(k)
                ==> s2.world_view().view()[k] == s0.world_view().view()[k],
        s2.metas() == s0.metas(),
        s2.roots() == s0.roots(),
        s2.scene_name() == s0.scene_name(),
{
    let e = c.entity.0;
    assert(s2.world_view().view().dom() =~= s0.world_view().view().dom());
    assert(s2.world_view().view()[e] =~= s0.world_view().view()[e].insert(
        POSITION_KEY,
        s2.world_view().view()[e][POSITION_KEY],
    ));
}

/// Dropping an absent element from a sequence leaves it as it is.
proof fn lemma_without_absent<T>(r: Seq<T>, e: T)
    requires
        !r.contains(e),
    ensures
        without(r, e) == r,
    decreases r.len(),
{
    if r.len() > 0 {
        let rest = r.drop_last();
        assert(!rest.contains(e)) by {
            if rest.contains(e) {
                let i = choose|i: int| 0 <= i < rest.len() && rest[i] == e;
                assert(r[i] == e);
            }
        }
        lemma_without_absent(rest, e);
        assert(rest.push(r.last()) =~= r);
        rest.lemma_filter_push(r.last(), |x: T| x != e);
        assert(r.last() != e) by {
            assert(r[r.len() - 1] == r.last());
        }
    } else {
        assert(r.filter(|x: T| x != e) =~= r) by {
            reveal(Seq::filter);
        }
    }
}

/// Dropping `e` from a sequence with `x` appended drops it from the sequence
/// and keeps `x` unless it is `e`.
proof fn lemma_without_push<T>(r: Seq<T>, x: T, e: T)
    ensures
        without(r.push(x), e) == if x != e {
            without(r, e).push(x)
        } else {
            without(r, e)
        },
{
    r.lemma_filter_push(x, |y: T| y != e);
}

/// Spawning an object and undoing the spawn leaves the world, the metadata
/// and the outliner as they were; only the spent id stays spent.
pub proof fn lemma_spawn_then_undo<V>(
    c: SpawnEntityCmd,
    d1: SpawnEntityCmd,
    s0: Scene<V>,
    s1: Scene<V>,
    r1: Result<(), SceneCommandError>,
    d2: SpawnEntityCmd,
    s2: Scene<V>,
    r2: Result<(), SceneCommandError>,
)
    requires
        s0.wf(),
        s0.can_spawn(),
        SceneCommand::<Scene<V>>::execute_spec(&c, d1, s0, s1, r1),
        SceneCommand::<Scene<V>>::undo_spec(&d1, d2, s1, s2, r2),
    ensures
        r1 is Ok,
        r2 is Ok,
        s2.world_view().view() == s0.world_view().view(),
        s2.metas() == s0.metas(),
        s2.roots() == s0.roots(),
        s2.scene_name() == s0.scene_name(),
        s2.world_view().next_raw() == s0.world_view().next_raw() + 1,
{
    let e = EntityId(s0.world_view().next_raw());
    s0.lemma_world_wf();
    s0.world_view().lemma_live_below_next();
    s0.lemma_ids_handed_out();
    assert(s2.world_view().view() =~= s0.world_view().view());
    assert(s2.metas() =~= s0.metas());
    assert(!s0.roots().contains(e)) by {
        if s0.roots().contains(e) {
            let i = choose|i: int| 0 <= i < s0.roots().len() && s0.roots()[i] == e;
            assert(s0.roots()[i].0 < s0.world_view().next_raw());
        }
    }
    lemma_without_absent(s0.roots(), e);
    assert(d1.spawned == Some(e));
    assert(s1.roots() == s0.roots().push(e));
    assert(s2.roots() == without(s1.roots(), e));
    lemma_without_push(s0.roots(), e, e);
}

/// Deleting an object and undoing the deletion brings it back under a new id
/// with the recorded name and a clone of the recorded position; every other
/// object keeps its components and metadata, and the restored object goes
/// last in the outliner.
pub proof fn lemma_despawn_then_undo<V: Clone + Send + Sync>(
    c: DespawnEntityCmd<V>,
    d1: DespawnEntityCmd<V>,
    s0: Scene<V>,
    s1: Scene<V>,
    r1: Result<(), SceneCommandError>,
    d2: DespawnEntityCmd<V>,
    s2: Scene<V>,
    r2: Result<(), SceneCommandError>,
)
    requires
        s0.wf(),
        s0.can_spawn(),
        c.execute_spec(d1, s0, s1, r1),
        d1.undo_spec(d2, s1, s2, r2),
    ensures
        r1 is Ok,
        r2 is Ok,
        d2.entity.0 == s0.world_view().next_raw(),
        s2.metas() == s0.metas().remove(c.entity.0).insert(
            d2.entity.0,
            ObjectMeta { name: c.name, visible: true },
        ),
        s2.roots() == without(s0.roots(), c.entity).push(d2.entity),
        forall|k: u64|
            k != c.entity.0 && k != d2.entity.0 ==> (#[trigger] s2.world_view().view().contains_key(k)
                == s0.world_view().view().contains_key(k) && (s0.world_view().view().contains_key(k)
                ==> s2.world_view().view()[k] == s0.world_view().view()[k])),
        s2.world_view().view()[d2.entity.0] == Map::<u64, V>::empty().insert(
            POSITION_KEY,
            s2.world_view().view()[d2.entity.0][POSITION_KEY],
        ),
        cloned(c.pos, s2.world_view().view()[d2.entity.0][POSITION_KEY]),
        s2.scene_name() == s0.scene_name(),
{
}

} // verus!
