//! Entity-component storage.
//!
//! Every live object is an [`EntityId`]. Components are attached to an entity
//! under a component key (one key per component type); the world stores at most
//! one component per key and entity. The world is generic over the stored
//! component value, so a caller may store one concrete type or a boxed,
//! type-erased value.
use vstd::prelude::*;
use std::collections::HashMap;
use std::collections::hash_map::Entry;

verus! {

broadcast use vstd::std_specs::hash::group_hash_axioms;

/// Opaque handle for a simulation entity.
#[derive(Debug, Clone, Copy, PartialEq, Eq, Structural, PartialOrd, Ord, Hash)]
pub struct EntityId(pub u64);

impl EntityId {
    /// The raw numeric value of the id.
    pub fn raw(self) -> (r: u64)
        ensures
            r == self.0,
    {
        self.0
    }
}

/// Marker for data that can be stored on an entity.
pub trait Component: Send + Sync + 'static {}

impl<T: Send + Sync + 'static> Component for T {}

/// Key under which one component type is stored on an entity.
pub type ComponentKey = u64;

/// Object-safe world interface: entity lifetime and keyed component access.
pub trait WorldAny<V>: Send + Sync {
    /// The world's internal consistency, which every operation keeps.
    spec fn world_wf(&self) -> bool;

    /// Live entities (by raw id) and, for each, its components by key.
    spec fn components(&self) -> Map<u64, Map<u64, V>>;

    /// The raw id that the next `spawn` hands out.
    spec fn next_entity(&self) -> u64;

    /// Whether another entity id can still be handed out.
    spec fn can_spawn(&self) -> bool;

    /// Creates a new entity with no components and returns its id: the next id,
    /// which is never handed out again.
    fn spawn(&mut self) -> (id: EntityId)
        requires
            old(self).world_wf(),
            old(self).can_spawn(),
        ensures
            final(self).world_wf(),
            id.0 == old(self).next_entity(),
            final(self).next_entity() == old(self).next_entity() + 1,
            final(self).components() == old(self).components().insert(id.0, Map::empty()),
    ;

    /// Destroys an entity and all its components.
    fn despawn(&mut self, entity: EntityId)
        requires
            old(self).world_wf(),
        ensures
            final(self).world_wf(),
            final(self).next_entity() == old(self).next_entity(),
            final(self).components() == old(self).components().remove(entity.0),
    ;

    /// Attaches `component` to `entity` under `key`, replacing any previous
    /// one; an entity that is not live is left alone.
    fn insert_erased(&mut self, entity: EntityId, key: ComponentKey, component: V)
        requires
            old(self).world_wf(),
        ensures
            final(self).world_wf(),
            final(self).next_entity() == old(self).next_entity(),
            final(self).components() == with_component(
                old(self).components(),
                entity.0,
                key,
                component,
            ),
    ;

    /// The component stored under `key` on `entity`, if any.
    fn get_erased(&self, entity: EntityId, key: ComponentKey) -> (r: Option<&V>)
        requires
            self.world_wf(),
        ensures
            match r {
                Some(c) => lookup(self.components(), entity.0, key) == Some(*c),
                None => lookup(self.components(), entity.0, key) is None,
            },
    ;

    /// Mutable access to the component stored under `key` on `entity`, if any;
    /// what is written through it becomes the component.
    fn get_erased_mut(&mut self, entity: EntityId, key: ComponentKey) -> (r: Option<&mut V>)
        requires
            old(self).world_wf(),
        ensures
            match r {
                Some(c) => {
                    &&& lookup(old(self).components(), entity.0, key) == Some(*c)
                    &&& final(self).world_wf()
                    &&& final(self).next_entity() == old(self).next_entity()
                    &&& final(self).components() == with_component(
                        old(self).components(),
                        entity.0,
                        key,
                        *final(c),
                    )
                },
                None => {
                    &&& lookup(old(self).components(), entity.0, key) is None
                    &&& final(self).world_wf()
                    &&& final(self).next_entity() == old(self).next_entity()
                    &&& final(self).components() == old(self).components()
                },
            },
    ;

    /// Removes the component stored under `key` from `entity`, if present.
    fn remove_erased(&mut self, entity: EntityId, key: ComponentKey)
        requires
            old(self).world_wf(),
        ensures
            final(self).world_wf(),
            final(self).next_entity() == old(self).next_entity(),
            final(self).components() == without_component(old(self).components(), entity.0, key),
    ;
}

/// Concrete world: the live entities by raw id, each with its components by
/// key.
pub struct ArchetypeWorld<V> {
    entities: HashMap<u64, HashMap<ComponentKey, V>>,
    next_id: u64,
}

/// The component maps of a table of entities.
pub open spec fn tables_view<V>(m: Map<u64, HashMap<ComponentKey, V>>) -> Map<u64, Map<u64, V>> {
    m.map_values(|t: HashMap<ComponentKey, V>| t@)
}

impl<V> ArchetypeWorld<V> {
    /// Live entities (by raw id) and, for each, its components by key.
    pub closed spec fn view(&self) -> Map<u64, Map<u64, V>> {
        tables_view(self.entities@)
    }

    /// The raw id that the next `spawn` hands out.
    pub closed spec fn next_raw(&self) -> u64 {
        self.next_id
    }

    /// Internal consistency: every live id lies between 1 and the next id to
    /// be handed out.
    pub closed spec fn wf(&self) -> bool {
        &&& self.next_id >= 1
        &&& forall|k: u64| #[trigger] self.entities@.contains_key(k) ==> 1 <= k < self.next_id
    }

    /// Every live id is below the next id to be handed out.
    pub proof fn lemma_live_below_next(&self)
        requires
            self.wf(),
        ensures
            forall|k: u64| #[trigger] self.view().contains_key(k) ==> 1 <= k < self.next_raw(),
    {
    }

    /// A world holds finitely many live entities.
    pub proof fn lemma_finite(&self)
        ensures
            self.view().dom().finite(),
    {
        assert(self.view().dom() =~= self.entities@.dom());
    }

    /// Creates an empty world with no entities.
    pub fn new() -> (w: Self)
        ensures
            w.wf(),
            w.view() == Map::<u64, Map<u64, V>>::empty(),
            w.next_raw() == 1,
    {
        let w = ArchetypeWorld { entities: HashMap::new(), next_id: 1 };
        assert(w.view() =~= Map::<u64, Map<u64, V>>::empty());
        w
    }

    /// The raw id the next `spawn` hands out.
    pub fn next_id_value(&self) -> (r: u64)
        ensures
            r == self.next_raw(),
    {
        self.next_id
    }

    /// Whether another entity id can still be handed out.
    pub fn has_free_id(&self) -> (r: bool)
        ensures
            r == (self.next_raw() < u64::MAX),
    {
        self.next_id < u64::MAX
    }

    /// Number of live entities.
    pub fn entity_count(&self) -> (n: usize)
        requires
            self.wf(),
        ensures
            n == self.view().dom().len(),
    {
        assert(self.view().dom() =~= self.entities@.dom());
        self.entities.len()
    }

    /// Creates a new entity with no components; ids are handed out in
    /// increasing order starting at 1 and are never reused.
    pub fn spawn(&mut self) -> (id: EntityId)
        requires
            old(self).wf(),
            old(self).next_raw() < u64::MAX,
        ensures
            final(self).wf(),
            id.0 == old(self).next_raw(),
            final(self).next_raw() == old(self).next_raw() + 1,
            !old(self).view().contains_key(id.0),
            final(self).view() == old(self).view().insert(id.0, Map::empty()),
    {
        let id = self.next_id;
        self.next_id = self.next_id + 1;
        let table: HashMap<ComponentKey, V> = HashMap::new();
        let _ = self.entities.insert(id, table);
        assert(self.view() =~= old(self).view().insert(id, Map::empty()));
        EntityId(id)
    }

    /// Destroys an entity and all its components; nothing happens if it is not live.
    pub fn despawn(&mut self, entity: EntityId)
        requires
            old(self).wf(),
        ensures
            final(self).wf(),
            final(self).next_raw() == old(self).next_raw(),
            final(self).view() == old(self).view().remove(entity.0),
    {
        let _ = self.entities.remove(&entity.0);
        assert(self.view() =~= old(self).view().remove(entity.0));
    }

    /// Attaches `component` under `key`, replacing any previous component with that
    /// key; an entity that is not live is left alone.
    pub fn insert_erased(&mut self, entity: EntityId, key: ComponentKey, component: V)
        requires
            old(self).wf(),
        ensures
            final(self).wf(),
            final(self).next_raw() == old(self).next_raw(),
            final(self).view() == with_component(old(self).view(), entity.0, key, component),
    {
        if !self.entities.contains_key(&entity.0) {
            return;
        }
        match self.entities.entry(entity.0) {
            Entry::Occupied(o) => {
                let table = o.into_mut();
                let _ = table.insert(key, component);
            },
            Entry::Vacant(_) => {},
        }
        assert(self.view() =~= with_component(old(self).view(), entity.0, key, component));
    }

    /// The component stored under `key` on `entity`, if the entity is live and has one.
    pub fn get_erased(&self, entity: EntityId, key: ComponentKey) -> (r: Option<&V>)
        requires
            self.wf(),
        ensures
            match r {
                Some(c) => lookup(self.view(), entity.0, key) == Some(*c),
                None => lookup(self.view(), entity.0, key) is None,
            },
    {
        match self.entities.get(&entity.0) {
            Some(table) => table.get(&key),
            None => None,
        }
    }

    /// Mutable access to the component stored under `key` on `entity`, if the entity
    /// is live and has one; whatever is written through it becomes that component.
    pub fn get_erased_mut(&mut self, entity: EntityId, key: ComponentKey) -> (r: Option<&mut V>)
        requires
            old(self).wf(),
        ensures
            match r {
                Some(c) => {
                    &&& old(self).view().contains_key(entity.0)
                    &&& old(self).view()[entity.0].contains_key(key)
                    &&& *c == old(self).view()[entity.0][key]
                    &&& final(self).wf()
                    &&& final(self).next_raw() == old(self).next_raw()
                    &&& final(self).view() == old(self).view().insert(
                        entity.0,
                        old(self).view()[entity.0].insert(key, *final(c)),
                    )
                },
                None => {
                    &&& !(old(self).view().contains_key(entity.0) && old(self).view()[
                        entity.0
                    ].contains_key(key))
                    &&& *final(self) == *old(self)
                },
            },
    {
        let present = match self.entities.get(&entity.0) {
            Some(table) => table.contains_key(&key),
            None => false,
        };
        if !present {
            return None;
        }
        match self.entities.entry(entity.0) {
            Entry::Occupied(o) => {
                let table = o.into_mut();
                match table.entry(key) {
                    Entry::Occupied(slot) => Some(slot.into_mut()),
                    Entry::Vacant(_) => None,
                }
            },
            Entry::Vacant(_) => None,
        }
    }

    /// Removes the component stored under `key` from `entity`, if present.
    pub fn remove_erased(&mut self, entity: EntityId, key: ComponentKey)
        requires
            old(self).wf(),
        ensures
            final(self).wf(),
            final(self).next_raw() == old(self).next_raw(),
            final(self).view() == without_component(old(self).view(), entity.0, key),
    {
        if !self.entities.contains_key(&entity.0) {
            return;
        }
        match self.entities.entry(entity.0) {
            Entry::Occupied(o) => {
                let table = o.into_mut();
                let _ = table.remove(&key);
            },
            Entry::Vacant(_) => {},
        }
        assert(self.view() =~= without_component(old(self).view(), entity.0, key));
    }
}

impl<V: Send + Sync> WorldAny<V> for ArchetypeWorld<V> {
    open spec fn world_wf(&self) -> bool {
        self.wf()
    }

    open spec fn components(&self) -> Map<u64, Map<u64, V>> {
        self.view()
    }

    open spec fn next_entity(&self) -> u64 {
        self.next_raw()
    }

    open spec fn can_spawn(&self) -> bool {
        self.next_raw() < u64::MAX
    }

    fn spawn(&mut self) -> (id: EntityId) {
        ArchetypeWorld::spawn(self)
    }

    fn despawn(&mut self, entity: EntityId) {
        ArchetypeWorld::despawn(self, entity)
    }

    fn insert_erased(&mut self, entity: EntityId, key: ComponentKey, component: V) {
        ArchetypeWorld::insert_erased(self, entity, key, component)
    }

    fn get_erased(&self, entity: EntityId, key: ComponentKey) -> Option<&V> {
        ArchetypeWorld::get_erased(self, entity, key)
    }

    fn get_erased_mut(&mut self, entity: EntityId, key: ComponentKey) -> Option<&mut V> {
        ArchetypeWorld::get_erased_mut(self, entity, key)
    }

    fn remove_erased(&mut self, entity: EntityId, key: ComponentKey) {
        ArchetypeWorld::remove_erased(self, entity, key)
    }
}

/// The component stored under `key` on the live entity `e` of a world view.
pub open spec fn lookup<V>(view: Map<u64, Map<u64, V>>, e: u64, key: u64) -> Option<V> {
    if view.contains_key(e) && view[e].contains_key(key) {
        Some(view[e][key])
    } else {
        None
    }
}

/// The world view after attaching `c` under `key` to `e`; a world without `e`
/// is left as it is.
pub open spec fn with_component<V>(view: Map<u64, Map<u64, V>>, e: u64, key: u64, c: V) -> Map<
    u64,
    Map<u64, V>,
> {
    if view.contains_key(e) {
        view.insert(e, view[e].insert(key, c))
    } else {
        view
    }
}

/// The world view after removing the component under `key` from `e`.
pub open spec fn without_component<V>(view: Map<u64, Map<u64, V>>, e: u64, key: u64) -> Map<
    u64,
    Map<u64, V>,
> {
    if view.contains_key(e) {
        view.insert(e, view[e].remove(key))
    } else {
        view
    }
}

/// A read gives back what a write stored: after attaching `c` under `key` to a
/// live entity, looking it up gives `c`, and every other (entity, key) pair
/// reads as before; attaching to an entity that is not live changes nothing.
pub proof fn lemma_read_after_write<V>(
    view: Map<u64, Map<u64, V>>,
    e: u64,
    key: u64,
    c: V,
    e2: u64,
    key2: u64,
)
    ensures
        view.contains_key(e) ==> lookup(with_component(view, e, key, c), e, key) == Some(c),
        !view.contains_key(e) ==> with_component(view, e, key, c) == view,
        (e2 != e || key2 != key) ==> lookup(with_component(view, e, key, c), e2, key2) == lookup(
            view,
            e2,
            key2,
        ),
{
}

/// Removing a component makes it unreadable and leaves every other (entity,
/// key) pair as it was.
pub proof fn lemma_read_after_remove<V>(
    view: Map<u64, Map<u64, V>>,
    e: u64,
    key: u64,
    e2: u64,
    key2: u64,
)
    ensures
        lookup(without_component(view, e, key), e, key) is None,
        (e2 != e || key2 != key) ==> lookup(without_component(view, e, key), e2, key2) == lookup(
            view,
            e2,
            key2,
        ),
{
}

/// A despawned entity has no components left, and other entities keep theirs.
pub proof fn lemma_read_after_despawn<V>(view: Map<u64, Map<u64, V>>, e: u64, key: u64, e2: u64)
    ensures
        lookup(view.remove(e), e, key) is None,
        e2 != e ==> lookup(view.remove(e), e2, key) == lookup(view, e2, key),
{
}

/// Entity ids are never handed out twice: an id spawned earlier is below every
/// later world's next id, so a later spawn gives a different one.
pub proof fn lemma_spawned_ids_differ<V>(w1: ArchetypeWorld<V>, w2: ArchetypeWorld<V>, first: EntityId)
    requires
        first.0 < w1.next_raw(),
        w1.next_raw() <= w2.next_raw(),
    ensures
        first.0 != w2.next_raw(),
{
}

/// The number of live entities changes by spawning and despawning only: a
/// spawn adds one, despawning a live entity removes one, despawning anything
/// else and attaching or removing components leave it as it was.
pub proof fn lemma_entity_count_steps<V>(view: Map<u64, Map<u64, V>>, e: u64, key: u64, c: V)
    requires
        view.dom().finite(),
    ensures
        !view.contains_key(e) ==> view.insert(e, Map::empty()).dom().len() == view.dom().len() + 1,
        view.remove(e).dom().len() == view.dom().len() - if view.contains_key(e) {
            1int
        } else {
            0int
        },
        with_component(view, e, key, c).dom() == view.dom(),
        without_component(view, e, key).dom() == view.dom(),
        Map::<u64, Map<u64, V>>::empty().dom().len() == 0,
{
    if view.contains_key(e) {
        assert(with_component(view, e, key, c).dom() =~= view.dom());
        assert(without_component(view, e, key).dom() =~= view.dom());
    } else {
        assert(view.remove(e).dom() =~= view.dom());
    }
}

/// One call on a world, as the law over runs of calls sees it: `Spawn`,
/// `Despawn`, `Insert` (`insert_erased`), `Write` (a write through
/// `get_erased_mut`) and `Remove` (`remove_erased`), with their entity, key
/// and component.
pub enum WorldOp<V> {
    Spawn,
    Despawn(u64),
    Insert(u64, u64, V),
    Write(u64, u64, V),
    Remove(u64, u64),
}

/// The number of spawns in `ops`.
pub open spec fn spawn_count<V>(ops: Seq<WorldOp<V>>) -> nat
    decreases ops.len(),
{
    if ops.len() == 0 {
        0
    } else {
        spawn_count(ops.drop_last()) + if ops.last() is Spawn {
            1nat
        } else {
            0nat
        }
    }
}

/// The world view and next id after one call, as the calls' contracts state
/// it.
pub open spec fn world_step<V>(view: Map<u64, Map<u64, V>>, next: u64, op: WorldOp<V>) -> (
    Map<u64, Map<u64, V>>,
    u64,
) {
    match op {
        WorldOp::Spawn => (view.insert(next, Map::empty()), (next + 1) as u64),
        WorldOp::Despawn(e) => (view.remove(e), next),
        WorldOp::Insert(e, k, c) => (with_component(view, e, k, c), next),
        WorldOp::Write(e, k, c) => (
            if lookup(view, e, k) is Some {
                with_component(view, e, k, c)
            } else {
                view
            },
            next,
        ),
        WorldOp::Remove(e, k) => (without_component(view, e, k), next),
    }
}

/// The world view and next id after `ops`, starting from `ArchetypeWorld::new()`.
pub open spec fn world_run<V>(ops: Seq<WorldOp<V>>) -> (Map<u64, Map<u64, V>>, u64)
    decreases ops.len(),
{
    if ops.len() == 0 {
        (Map::empty(), 1)
    } else {
        let (view, next) = world_run(ops.drop_last());
        world_step(view, next, ops.last())
    }
}

/// The ids handed out by the spawns of `ops` (the `n`-th spawn hands out `n`)
/// and not passed to a despawn since.
pub open spec fn alive_ids<V>(ops: Seq<WorldOp<V>>) -> Set<u64>
    decreases ops.len(),
{
    if ops.len() == 0 {
        Set::empty()
    } else {
        let before = alive_ids(ops.drop_last());
        match ops.last() {
            WorldOp::Spawn => before.insert((spawn_count(ops.drop_last()) + 1) as u64),
            WorldOp::Despawn(e) => before.remove(e),
            _ => before,
        }
    }
}

/// Over any run of calls from a new world, the live entities are exactly the
/// ids that spawns handed out and no despawn has taken back since, so
/// `entity_count` is their number; the next id is one more than the number of
/// spawns. A run may spawn at most `u64::MAX - 1` times, as `spawn` requires.
pub proof fn lemma_count_is_alive<V>(ops: Seq<WorldOp<V>>)
    requires
        spawn_count(ops) < u64::MAX,
    ensures
        world_run(ops).0.dom() == alive_ids(ops),
        world_run(ops).0.dom().finite(),
        world_run(ops).0.dom().len() == alive_ids(ops).len(),
        world_run(ops).1 == spawn_count(ops) + 1,
        forall|k: u64| #[trigger] alive_ids(ops).contains(k) ==> 1 <= k < world_run(ops).1,
    decreases ops.len(),
{
    if ops.len() == 0 {
        assert(world_run(ops).0.dom() =~= Set::<u64>::empty());
    } else {
        let pre = ops.drop_last();
        lemma_count_is_alive(pre);
        let (view, next) = world_run(pre);
        let op = ops.last();
        match op {
            WorldOp::Spawn => {
                assert(world_run(ops).0.dom() =~= alive_ids(ops));
            },
            WorldOp::Despawn(e) => {
                assert(world_run(ops).0.dom() =~= alive_ids(ops));
            },
            WorldOp::Insert(e, k, c) => {
                assert(with_component(view, e, k, c).dom() =~= view.dom());
            },
            WorldOp::Write(e, k, c) => {
                assert(with_component(view, e, k, c).dom() =~= view.dom());
            },
            WorldOp::Remove(e, k) => {
                assert(without_component(view, e, k).dom() =~= view.dom());
            },
        }
    }
}

} // verus!
