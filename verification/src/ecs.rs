//! The entity-component store.

use std::collections::HashMap;
use vstd::prelude::*;

use crate::component::ComponentTypeId;
use crate::entity::{next_generation, Entities, EntityId};
use crate::entity_builder::EntityBuilder;
use crate::storage::SparseSetStorage;

verus! {

broadcast use vstd::std_specs::hash::group_hash_axioms;

/// Failure of a component operation.
#[derive(Clone, Copy, Debug, PartialEq, Eq, Structural)]
pub enum ComponentError {
    /// The entity is alive but holds no value of the requested type
    /// (including the case that the type has never been stored at all).
    MissingComponent(ComponentTypeId),
    /// The liveness check failed; wraps the underlying identity error so
    /// component operations keep a single error channel.
    MissingEntity(EntityDead),
}

/// The entity identifier's generation does not match the live generation
/// for its index: the entity is dead, was never issued, or the index is
/// out of range.
#[derive(Clone, Copy, Debug, PartialEq, Eq, Structural)]
pub struct EntityDead;

/// The abstract state of a store's component data: for each registered
/// component type, the mapping from entity index to component value.
pub type ComponentTable<C> = Map<u64, Map<u32, C>>;

/// The component value a table holds for a type and an entity index, if
/// any.
pub open spec fn lookup<C>(t: ComponentTable<C>, tid: u64, i: u32) -> Option<C> {
    if t.contains_key(tid) && t[tid].contains_key(i) {
        Some(t[tid][i])
    } else {
        None
    }
}

/// The table after a component value is inserted for a type and an
/// entity index, registering the type if it was absent.
pub open spec fn store<C>(t: ComponentTable<C>, tid: u64, i: u32, v: C) -> ComponentTable<C> {
    let prior = if t.contains_key(tid) {
        t[tid]
    } else {
        Map::<u32, C>::empty()
    };
    t.insert(tid, prior.insert(i, v))
}

/// The table after the component of one type is removed from one entity
/// index; a table without that type is unchanged.
pub open spec fn drop_at<C>(t: ComponentTable<C>, tid: u64, i: u32) -> ComponentTable<C> {
    if t.contains_key(tid) {
        t.insert(tid, t[tid].remove(i))
    } else {
        t
    }
}

/// The table after one entity index is removed from every registered
/// type's mapping, as despawning does.
pub open spec fn purge<C>(t: ComponentTable<C>, i: u32) -> ComponentTable<C> {
    Map::new(|tid: u64| t.contains_key(tid), |tid: u64| t[tid].remove(i))
}

/// The table after a sequence of staged components is inserted for one
/// entity index, in staging order: a later value of the same type
/// overwrites an earlier one.
pub open spec fn store_all<C>(
    t: ComponentTable<C>,
    items: Seq<(ComponentTypeId, C)>,
    i: u32,
) -> ComponentTable<C>
    decreases items.len(),
{
    if items.len() == 0 {
        t
    } else {
        store_all(store(t, items[0].0.0, i, items[0].1), items.skip(1), i)
    }
}

/// The entity-component store: owns the identifier allocator and one
/// sparse-set storage per registered component type, created lazily on
/// the first insertion of that type.
///
/// The store performs no locking of its own; the caller serializes
/// mutable access.
pub struct Ecs<C> {
    pub entities: Entities,
    pub storage_index: HashMap<u64, usize>,
    pub storages: Vec<SparseSetStorage<C>>,
}

impl<C> Ecs<C> {
    /// The identifier is live in this store.
    pub open spec fn live(&self, e: EntityId) -> bool {
        self.entities.live(e)
    }

    /// The abstract component data of the store.
    pub open spec fn table(&self) -> ComponentTable<C> {
        Map::new(
            |tid: u64| self.storage_index@.contains_key(tid),
            |tid: u64| self.storages@[self.storage_index@[tid] as int].contents(),
        )
    }

    /// The number of dense slots the storage of one type holds: one per
    /// entity with a component of the type, and zero for a type never
    /// registered.
    pub open spec fn stored_count(&self, tid: u64) -> nat {
        if self.storage_index@.contains_key(tid) {
            self.storages@[self.storage_index@[tid] as int].dense@.len()
        } else {
            0
        }
    }

    /// Structural invariant: the allocator and every storage are well
    /// formed, the type index addresses distinct storages in range, and
    /// every entity index held by any storage belongs to a live
    /// identifier.
    pub open spec fn wf(&self) -> bool {
        &&& self.entities.wf()
        &&& forall|j: int| 0 <= j < self.storages@.len() ==> (#[trigger] self.storages@[j]).wf()
        &&& forall|tid: u64|
            #[trigger] self.storage_index@.contains_key(tid) ==> (self.storage_index@[tid] as int)
                < self.storages@.len()
        &&& forall|t1: u64, t2: u64|
            #![trigger self.storage_index@[t1], self.storage_index@[t2]]
            self.storage_index@.contains_key(t1) && self.storage_index@.contains_key(t2)
                && self.storage_index@[t1] == self.storage_index@[t2] ==> t1 == t2
        &&& forall|j: int, i: u32|
            0 <= j < self.storages@.len() && (#[trigger] self.storages@[j].contents().contains_key(
                i,
            )) ==> self.entities.index_alive(i)
    }

    /// Creates a new, empty store.
    pub fn new() -> (r: Ecs<C>)
        ensures
            r.wf(),
            r.table() == Map::<u64, Map<u32, C>>::empty(),
            forall|e: EntityId| !r.live(e),
            r.entities.slots@.len() == 0,
    {
        let r = Ecs {
            entities: Entities::new(),
            storage_index: HashMap::new(),
            storages: Vec::new(),
        };
        proof {
            assert(r.table() =~= Map::<u64, Map<u32, C>>::empty());
        }
        r
    }

    /// Gets the component of one type for an entity.
    ///
    /// Fails with `MissingEntity` when the entity is dead, and with
    /// `MissingComponent` when it is alive but holds no value of the
    /// type (including a type never registered by anyone).
    pub fn get(&self, entity: EntityId, type_id: ComponentTypeId) -> (r: Result<
        &C,
        ComponentError,
    >)
        requires
            self.wf(),
        ensures
            r is Ok <==> self.live(entity) && lookup(self.table(), type_id.0, entity.index)
                is Some,
            r matches Ok(c) ==> lookup(self.table(), type_id.0, entity.index) == Some(*c),
            !self.live(entity) ==> r == Err::<&C, ComponentError>(
                ComponentError::MissingEntity(EntityDead),
            ),
            self.live(entity) && lookup(self.table(), type_id.0, entity.index) is None ==> r
                == Err::<&C, ComponentError>(ComponentError::MissingComponent(type_id)),
    {
        match self.entities.check_generation(entity) {
            Err(dead) => Err(ComponentError::MissingEntity(dead)),
            Ok(()) => {
                match self.storage_index.get(&type_id.0) {
                    None => Err(ComponentError::MissingComponent(type_id)),
                    Some(j) => {
                        match self.storages[*j].get(entity.index) {
                            None => Err(ComponentError::MissingComponent(type_id)),
                            Some(c) => Ok(c),
                        }
                    },
                }
            },
        }
    }

    /// Inserts a component for an entity, overwriting any value of the
    /// same type the entity already holds, and registering the type's
    /// storage on its first ever insertion. Fails with `EntityDead` when
    /// the entity is dead, leaving the store unchanged.
    pub fn insert(&mut self, entity: EntityId, type_id: ComponentTypeId, value: C) -> (r: Result<
        (),
        EntityDead,
    >)
        requires
            old(self).wf(),
        ensures
            final(self).wf(),
            r is Ok <==> old(self).live(entity),
            r is Err ==> r == Err::<(), EntityDead>(EntityDead) && *final(self) == *old(self),
            r is Ok ==> final(self).table() == store(
                old(self).table(),
                type_id.0,
                entity.index,
                value,
            ) && final(self).entities == old(self).entities,
            r is Ok && lookup(old(self).table(), type_id.0, entity.index) is Some
                ==> final(self).stored_count(type_id.0) == old(self).stored_count(type_id.0),
            r is Ok && lookup(old(self).table(), type_id.0, entity.index) is None
                ==> final(self).stored_count(type_id.0) == old(self).stored_count(type_id.0) + 1,
    {
        match self.entities.check_generation(entity) {
            Err(_) => Err(EntityDead),
            Ok(()) => {
                let j: usize = match self.storage_index.get(&type_id.0) {
                    Some(j) => *j,
                    None => {
                        let j = self.storages.len();
                        self.storages.push(SparseSetStorage::new());
                        self.storage_index.insert(type_id.0, j);
                        j
                    },
                };
                self.storages[j].insert(entity.index, value);
                proof {
                    assert(final(self).table() =~= store(
                        old(self).table(),
                        type_id.0,
                        entity.index,
                        value,
                    ));
                }
                Ok(())
            },
        }
    }

    /// Removes the component of one type from an entity.
    ///
    /// Fails with `MissingEntity` when the entity is dead and with
    /// `MissingComponent` when it holds no value of the type; either
    /// failure leaves the store's data unchanged.
    pub fn remove(&mut self, entity: EntityId, type_id: ComponentTypeId) -> (r: Result<
        (),
        ComponentError,
    >)
        requires
            old(self).wf(),
        ensures
            final(self).wf(),
            r is Ok <==> old(self).live(entity) && lookup(
                old(self).table(),
                type_id.0,
                entity.index,
            ) is Some,
            !old(self).live(entity) ==> r == Err::<(), ComponentError>(
                ComponentError::MissingEntity(EntityDead),
            ),
            old(self).live(entity) && lookup(old(self).table(), type_id.0, entity.index)
                is None ==> r == Err::<(), ComponentError>(
                ComponentError::MissingComponent(type_id),
            ),
            r is Err ==> final(self).table() == old(self).table() && final(self).entities == old(
                self,
            ).entities,
            r is Ok ==> final(self).table() == drop_at(
                old(self).table(),
                type_id.0,
                entity.index,
            ) && final(self).entities == old(self).entities,
    {
        match self.entities.check_generation(entity) {
            Err(_) => Err(ComponentError::MissingEntity(EntityDead)),
            Ok(()) => {
                let j: usize = match self.storage_index.get(&type_id.0) {
                    None => {
                        return Err(ComponentError::MissingComponent(type_id));
                    },
                    Some(j) => *j,
                };
                if self.storages[j].remove(entity.index) {
                    proof {
                        assert(final(self).table() =~= drop_at(
                            old(self).table(),
                            type_id.0,
                            entity.index,
                        ));
                    }
                    Ok(())
                } else {
                    proof {
                        assert(final(self).table() =~= old(self).table());
                    }
                    Err(ComponentError::MissingComponent(type_id))
                }
            },
        }
    }

    /// Creates a new entity with no components.
    pub fn spawn_empty(&mut self) -> (e: EntityId)
        requires
            old(self).wf(),
            old(self).entities.slots@.len() < 0x1_0000_0000,
        ensures
            final(self).wf(),
            final(self).live(e),
            !old(self).live(e),
            !old(self).entities.index_alive(e.index),
            forall|f: EntityId| f != e ==> (final(self).live(f) <==> old(self).live(f)),
            final(self).table() == old(self).table(),
            forall|tid: u64| lookup(final(self).table(), tid, e.index) is None,
            (e.index as int) < old(self).entities.slots@.len() ==> e.generation == old(
                self,
            ).entities.slots@[e.index as int].generation,
            (e.index as int) == old(self).entities.slots@.len() ==> e.generation == 0,
            final(self).entities.slots@.len() <= old(self).entities.slots@.len() + 1,
            old(self).entities.free@.len() > 0 ==> e.index == old(self).entities.free@.last(),
            old(self).entities.free@.len() == 0 ==> (e.index as int) == old(
                self,
            ).entities.slots@.len(),
    {
        let e = self.entities.allocate();
        proof {
            assert forall|tid: u64| lookup(final(self).table(), tid, e.index) is None by {
                if final(self).table().contains_key(tid) {
                    let j = self.storage_index@[tid] as int;
                    assert(!self.storages@[j].contents().contains_key(e.index));
                }
            }
        }
        e
    }

    /// Creates a new entity holding every component of the given bundle,
    /// each inserted as its own typed insertion, in order.
    pub fn spawn_bundle(&mut self, bundle: Vec<(ComponentTypeId, C)>) -> (e: EntityId)
        requires
            old(self).wf(),
            old(self).entities.slots@.len() < 0x1_0000_0000,
        ensures
            final(self).wf(),
            final(self).live(e),
            !old(self).live(e),
            forall|f: EntityId| f != e ==> (final(self).live(f) <==> old(self).live(f)),
            final(self).table() == store_all(old(self).table(), bundle@, e.index),
            forall|tid: u64| lookup(old(self).table(), tid, e.index) is None,
            (e.index as int) < old(self).entities.slots@.len() ==> e.generation == old(
                self,
            ).entities.slots@[e.index as int].generation,
            (e.index as int) == old(self).entities.slots@.len() ==> e.generation == 0,
    {
        let e = self.spawn_empty();
        let ghost mid = *self;
        let mut rest = bundle;
        while rest.len() > 0
            invariant
                self.wf(),
                self.live(e),
                self.entities == mid.entities,
                store_all(old(self).table(), bundle@, e.index) == store_all(
                    self.table(),
                    rest@,
                    e.index,
                ),
            decreases rest@.len(),
        {
            let (type_id, value) = rest.remove(0);
            let r = self.insert(e, type_id, value);
            proof {
                assert(r is Ok);
            }
        }
        e
    }

    /// Creates a new entity and adds every staged component of the
    /// builder to it, in staging order; the builder is left reset and
    /// can be reused for a subsequent spawn.
    pub fn spawn_builder(&mut self, builder: &mut EntityBuilder<C>) -> (e: EntityId)
        requires
            old(self).wf(),
            old(self).entities.slots@.len() < 0x1_0000_0000,
        ensures
            final(self).wf(),
            final(self).live(e),
            !old(self).live(e),
            forall|f: EntityId| f != e ==> (final(self).live(f) <==> old(self).live(f)),
            final(self).table() == store_all(old(self).table(), old(builder).staged@, e.index),
            final(builder).staged@.len() == 0,
            forall|tid: u64| lookup(old(self).table(), tid, e.index) is None,
            (e.index as int) < old(self).entities.slots@.len() ==> e.generation == old(
                self,
            ).entities.slots@[e.index as int].generation,
            (e.index as int) == old(self).entities.slots@.len() ==> e.generation == 0,
    {
        let e = self.spawn_empty();
        let ghost mid = *self;
        while builder.staged.len() > 0
            invariant
                self.wf(),
                self.live(e),
                self.entities == mid.entities,
                store_all(old(self).table(), old(builder).staged@, e.index) == store_all(
                    self.table(),
                    builder.staged@,
                    e.index,
                ),
            decreases builder.staged@.len(),
        {
            let (type_id, value) = builder.staged.remove(0);
            let r = self.insert(e, type_id, value);
            proof {
                assert(r is Ok);
            }
        }
        builder.reset();
        e
    }

    /// Despawns an entity: retires its identifier, then removes its slot
    /// from every registered storage. Future access to the entity fails
    /// with `EntityDead`. The failure leaves the store unchanged.
    pub fn despawn(&mut self, entity: EntityId) -> (r: Result<(), EntityDead>)
        requires
            old(self).wf(),
        ensures
            final(self).wf(),
            r is Ok <==> old(self).live(entity),
            r is Err ==> r == Err::<(), EntityDead>(EntityDead) && *final(self) == *old(self),
            r is Ok ==> {
                &&& final(self).table() == purge(old(self).table(), entity.index)
                &&& !final(self).live(entity)
                &&& forall|f: EntityId|
                    final(self).live(f) <==> old(self).live(f) && f.index != entity.index
                &&& final(self).entities.slots@[entity.index as int].generation
                    == next_generation(entity.generation)
                &&& final(self).entities.slots@.len() == old(self).entities.slots@.len()
                &&& final(self).entities.free@ == old(self).entities.free@.push(entity.index)
            },
    {
        match self.entities.deallocate(entity) {
            Err(dead) => Err(dead),
            Ok(()) => {
                let ghost mid = *self;
                let n = self.storages.len();
                let mut j: usize = 0;
                while j < n
                    invariant
                        n == self.storages@.len(),
                        j <= n,
                        self.entities == mid.entities,
                        self.storage_index == mid.storage_index,
                        self.storages@.len() == mid.storages@.len(),
                        forall|k: int|
                            0 <= k < j ==> (#[trigger] self.storages@[k]).wf()
                                && self.storages@[k].contents()
                                == mid.storages@[k].contents().remove(entity.index),
                        forall|k: int| j <= k < n ==> self.storages@[k] == mid.storages@[k],
                        forall|k: int| 0 <= k < n ==> (#[trigger] self.storages@[k]).wf(),
                    decreases n - j,
                {
                    let _ = self.storages[j].remove(entity.index);
                    j += 1;
                }
                proof {
                    assert(final(self).table() =~= purge(old(self).table(), entity.index));
                    assert forall|k: int, i: u32|
                        0 <= k < final(self).storages@.len()
                            && (#[trigger] final(self).storages@[k].contents().contains_key(i))
                            implies final(self).entities.index_alive(i) by {
                        assert(mid.storages@[k].contents().contains_key(i));
                        assert(old(self).storages@[k].contents().contains_key(i));
                    }
                }
                Ok(())
            },
        }
    }

    /// The number of entities currently holding a component of the
    /// given type.
    pub fn component_count(&self, type_id: ComponentTypeId) -> (r: usize)
        requires
            self.wf(),
        ensures
            r == self.stored_count(type_id.0),
    {
        match self.storage_index.get(&type_id.0) {
            None => 0,
            Some(j) => self.storages[*j].len(),
        }
    }

    /// The number of distinct component types ever registered.
    pub fn registered_types(&self) -> (r: usize)
        requires
            self.wf(),
        ensures
            r == self.storages@.len(),
    {
        self.storages.len()
    }
}

impl<C> Default for Ecs<C> {
    /// An empty store, as [`Ecs::new`] creates it.
    fn default() -> (r: Ecs<C>)
        ensures
            r.wf(),
            r.table() == Map::<u64, Map<u32, C>>::empty(),
            forall|e: EntityId| !r.live(e),
            r.entities.slots@.len() == 0,
    {
        Ecs::new()
    }
}

/// A stored count is the size of the abstract per-type mapping: the
/// store keeps exactly one dense slot per entity holding the type, so an
/// overwrite never duplicates a slot and a removal never leaks one.
pub proof fn lemma_stored_count_is_table_size<C>(ecs: &Ecs<C>, tid: u64)
    requires
        ecs.wf(),
        ecs.table().contains_key(tid),
    ensures
        ecs.table()[tid].dom().finite(),
        ecs.stored_count(tid) == ecs.table()[tid].dom().len(),
{
    let j = ecs.storage_index@[tid] as int;
    ecs.storages@[j].lemma_dense_len_is_contents_size();
}

/// Inserting a component and then looking the same type and entity up
/// yields exactly the inserted value.
pub proof fn lemma_store_then_lookup<C>(t: ComponentTable<C>, tid: u64, i: u32, v: C)
    ensures
        lookup(store(t, tid, i, v), tid, i) == Some(v),
{
}

/// Inserting a component leaves the value of every other type/entity
/// pair untouched.
pub proof fn lemma_store_preserves_others<C>(
    t: ComponentTable<C>,
    tid: u64,
    i: u32,
    v: C,
    other_tid: u64,
    other_i: u32,
)
    requires
        other_tid != tid || other_i != i,
    ensures
        lookup(store(t, tid, i, v), other_tid, other_i) == lookup(t, other_tid, other_i),
{
}

/// Two insertions of the same type for the same entity collapse to the
/// second: an overwrite creates no duplicate slot.
pub proof fn lemma_store_overwrites<C>(t: ComponentTable<C>, tid: u64, i: u32, v1: C, v2: C)
    ensures
        store(store(t, tid, i, v1), tid, i, v2) == store(t, tid, i, v2),
{
    assert(store(store(t, tid, i, v1), tid, i, v2) =~~= store(t, tid, i, v2));
}

/// After a removal, the removed type/entity pair looks up to nothing —
/// so a second removal of the same pair must fail.
pub proof fn lemma_drop_then_lookup<C>(t: ComponentTable<C>, tid: u64, i: u32)
    ensures
        lookup(drop_at(t, tid, i), tid, i) is None,
{
}

/// Removing one component leaves the value of every other type/entity
/// pair untouched, whatever order removals interleave in.
pub proof fn lemma_drop_preserves_others<C>(
    t: ComponentTable<C>,
    tid: u64,
    i: u32,
    other_tid: u64,
    other_i: u32,
)
    requires
        other_tid != tid || other_i != i,
    ensures
        lookup(drop_at(t, tid, i), other_tid, other_i) == lookup(t, other_tid, other_i),
{
}

/// Despawning clears an entity's components of every type and touches no
/// other entity's components.
pub proof fn lemma_purge_clears<C>(t: ComponentTable<C>, i: u32, tid: u64, other_i: u32)
    requires
        other_i != i,
    ensures
        lookup(purge(t, i), tid, i) is None,
        lookup(purge(t, i), tid, other_i) == lookup(t, tid, other_i),
{
}

} // verus!
