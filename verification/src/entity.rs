//! Generation-checked entity identifiers and their allocator.

use vstd::prelude::*;

use crate::ecs::EntityDead;

verus! {

/// A lightweight entity identifier: an index into the allocator's slot
/// table plus the generation at which that index was issued.
///
/// At most one live identifier exists for a given index at any time; a
/// reused index differs from its predecessors in `generation`.
#[derive(Clone, Copy, Debug, PartialEq, Eq, Hash, Structural)]
pub struct EntityId {
    pub index: u32,
    pub generation: u32,
}

impl EntityId {
    /// The slot index of this identifier.
    pub fn index(&self) -> (r: u32)
        ensures
            r == self.index,
    {
        self.index
    }

    /// The generation at which this identifier was issued.
    pub fn generation(&self) -> (r: u32)
        ensures
            r == self.generation,
    {
        self.generation
    }
}

/// The generation that an index carries after one more deallocation.
///
/// Counters are fixed-width and wrap silently: after `2^32`
/// deallocate/reuse cycles on one index a stale identifier could alias a
/// live one. This bounded risk is an accepted policy of the design.
pub open spec fn next_generation(g: u32) -> u32 {
    if g == 0xFFFF_FFFFu32 {
        0u32
    } else {
        (g + 1) as u32
    }
}

/// One slot of the allocator's table: the current generation for the
/// index, and whether an identifier of that generation is currently live.
#[derive(Clone, Copy, Debug, PartialEq, Eq, Structural)]
pub struct Slot {
    pub generation: u32,
    pub alive: bool,
}

/// Issues and recycles generation-checked entity identifiers.
///
/// A growable table records, per index, the current generation and
/// whether the index is live; a free list holds the indices available
/// for reuse. Deallocation — not reuse — increments the generation, which
/// is what invalidates every previously issued identifier for the index.
pub struct Entities {
    pub slots: Vec<Slot>,
    pub free: Vec<u32>,
}

impl Entities {
    /// The identifier is currently live: its index is in range, the slot
    /// is live, and the generations match.
    pub open spec fn live(&self, e: EntityId) -> bool {
        &&& (e.index as int) < self.slots@.len()
        &&& self.slots@[e.index as int].alive
        &&& self.slots@[e.index as int].generation == e.generation
    }

    /// Some live identifier carries this index.
    pub open spec fn index_alive(&self, i: u32) -> bool {
        (i as int) < self.slots@.len() && self.slots@[i as int].alive
    }

    /// Structural invariant: free-list entries are distinct in-range
    /// indices of dead slots, and the slot table never outgrows the
    /// width of an index.
    pub open spec fn wf(&self) -> bool {
        &&& self.slots@.len() <= 0x1_0000_0000
        &&& forall|k: int|
            0 <= k < self.free@.len() ==> (#[trigger] self.free@[k] as int) < self.slots@.len()
                && !self.slots@[self.free@[k] as int].alive
        &&& forall|k: int, l: int|
            0 <= k < l < self.free@.len() ==> self.free@[k] != self.free@[l]
    }

    /// Creates an allocator with no issued identifiers.
    pub fn new() -> (r: Entities)
        ensures
            r.wf(),
            r.slots@.len() == 0,
            r.free@.len() == 0,
            forall|e: EntityId| !r.live(e),
    {
        Entities { slots: Vec::new(), free: Vec::new() }
    }

    /// Issues a fresh identifier: pops an index from the free list
    /// (reusing it at the generation recorded when it was freed) or
    /// appends a new index at generation zero. Never fails.
    pub fn allocate(&mut self) -> (e: EntityId)
        requires
            old(self).wf(),
            old(self).slots@.len() < 0x1_0000_0000,
        ensures
            final(self).wf(),
            final(self).live(e),
            !old(self).index_alive(e.index),
            forall|f: EntityId| f != e ==> (final(self).live(f) <==> old(self).live(f)),
            if old(self).free@.len() > 0 {
                &&& e.index == old(self).free@.last()
                &&& e.generation == old(self).slots@[e.index as int].generation
                &&& final(self).free@ == old(self).free@.drop_last()
                &&& final(self).slots@ == old(self).slots@.update(
                    e.index as int,
                    Slot { generation: e.generation, alive: true },
                )
            } else {
                &&& (e.index as int) == old(self).slots@.len()
                &&& e.generation == 0
                &&& final(self).free@ == old(self).free@
                &&& final(self).slots@ == old(self).slots@.push(
                    Slot { generation: 0, alive: true },
                )
            },
    {
        match self.free.pop() {
            Some(index) => {
                let generation = self.slots[index as usize].generation;
                self.slots[index as usize] = Slot { generation, alive: true };
                EntityId { index, generation }
            },
            None => {
                let index = self.slots.len() as u32;
                self.slots.push(Slot { generation: 0, alive: true });
                EntityId { index, generation: 0 }
            },
        }
    }

    /// Retires a live identifier: on success the slot's generation is
    /// advanced and the index joins the free list, so the identifier and
    /// all copies of it are invalidated. Fails with `EntityDead` when the
    /// identifier is not live.
    pub fn deallocate(&mut self, e: EntityId) -> (r: Result<(), EntityDead>)
        requires
            old(self).wf(),
        ensures
            final(self).wf(),
            r is Ok <==> old(self).live(e),
            r is Err ==> r == Err::<(), EntityDead>(EntityDead) && *final(self) == *old(self),
            r is Ok ==> {
                &&& final(self).slots@ == old(self).slots@.update(
                    e.index as int,
                    Slot { generation: next_generation(e.generation), alive: false },
                )
                &&& final(self).free@ == old(self).free@.push(e.index)
                &&& !final(self).index_alive(e.index)
                &&& forall|f: EntityId|
                    final(self).live(f) <==> old(self).live(f) && f.index != e.index
            },
    {
        if (e.index as usize) < self.slots.len() {
            let slot = self.slots[e.index as usize];
            if slot.alive && slot.generation == e.generation {
                let bumped = if e.generation == 0xFFFF_FFFFu32 {
                    0u32
                } else {
                    e.generation + 1
                };
                self.slots[e.index as usize] = Slot { generation: bumped, alive: false };
                self.free.push(e.index);
                proof {
                    assert forall|f: EntityId|
                        final(self).live(f) <==> old(self).live(f) && f.index != e.index by {
                        if f.index != e.index && (f.index as int) < old(self).slots@.len() {
                            assert(final(self).slots@[f.index as int]
                                == old(self).slots@[f.index as int]);
                        }
                    }
                }
                Ok(())
            } else {
                Err(EntityDead)
            }
        } else {
            Err(EntityDead)
        }
    }

    /// Read-only liveness probe with the same failure condition as
    /// [`Entities::deallocate`]; every component operation consults it
    /// before touching storage.
    pub fn check_generation(&self, e: EntityId) -> (r: Result<(), EntityDead>)
        ensures
            r is Ok <==> self.live(e),
            r is Err ==> r == Err::<(), EntityDead>(EntityDead),
    {
        if (e.index as usize) < self.slots.len() {
            let slot = self.slots[e.index as usize];
            if slot.alive && slot.generation == e.generation {
                Ok(())
            } else {
                Err(EntityDead)
            }
        } else {
            Err(EntityDead)
        }
    }
}

/// A deallocated generation differs from the one it replaces: advancing
/// a generation counter, even at the wrap point, never returns the same
/// value, so a reused index never re-issues a retired identifier.
pub proof fn lemma_next_generation_changes(g: u32)
    ensures
        next_generation(g) != g,
{
}

/// Generation non-aliasing: an identifier issued for an index after its
/// previous holder was deallocated — so at the generation the
/// deallocation advanced the slot to — differs from that previous
/// holder, and the two never compare equal.
pub proof fn lemma_reused_index_fresh_generation(retired: EntityId, reissued: EntityId)
    requires
        reissued.index == retired.index,
        reissued.generation == next_generation(retired.generation),
    ensures
        reissued.generation != retired.generation,
        reissued != retired,
{
}

} // verus!
