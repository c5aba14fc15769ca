//! Sparse-set storage for the components of one type.

use vstd::prelude::*;

verus! {

/// Densely packed storage of one component type, indexed by entity index.
///
/// A sparse array maps an entity index to a slot of the dense array, or
/// to nothing; the dense array packs the component values; a parallel
/// array of owners maps each dense slot back to the entity index that
/// occupies it, so the sparse array can be patched after a swap-removal.
pub struct SparseSetStorage<C> {
    pub sparse: Vec<Option<usize>>,
    pub dense: Vec<C>,
    pub owners: Vec<u32>,
}

impl<C> SparseSetStorage<C> {
    /// The mapping this storage represents: entity index to component
    /// value, read off the sparse and dense arrays.
    pub open spec fn contents(&self) -> Map<u32, C> {
        Map::new(
            |i: u32| (i as int) < self.sparse@.len() && self.sparse@[i as int] is Some,
            |i: u32| self.dense@[self.sparse@[i as int]->Some_0 as int],
        )
    }

    /// Structural invariant: dense values and owners run in parallel,
    /// and the occupied sparse slots and the dense slots point at one
    /// another bijectively.
    pub open spec fn wf(&self) -> bool {
        &&& self.dense@.len() == self.owners@.len()
        &&& self.sparse@.len() <= 0x1_0000_0000
        &&& forall|k: int|
            0 <= k < self.owners@.len() ==> (#[trigger] self.owners@[k] as int)
                < self.sparse@.len() && self.sparse@[self.owners@[k] as int] is Some
                && (self.sparse@[self.owners@[k] as int]->Some_0 as int) == k
        &&& forall|i: int|
            0 <= i < self.sparse@.len() && (#[trigger] self.sparse@[i]) is Some ==> {
                &&& (self.sparse@[i]->Some_0 as int) < self.dense@.len()
                &&& self.owners@[self.sparse@[i]->Some_0 as int] == i as u32
            }
    }

    /// Creates an empty storage.
    pub fn new() -> (r: SparseSetStorage<C>)
        ensures
            r.wf(),
            r.contents() == Map::<u32, C>::empty(),
            r.dense@.len() == 0,
    {
        let r = SparseSetStorage { sparse: Vec::new(), dense: Vec::new(), owners: Vec::new() };
        proof {
            assert(r.contents() =~= Map::<u32, C>::empty());
        }
        r
    }

    /// The component for the given entity index, if the index occupies a
    /// slot.
    pub fn get(&self, index: u32) -> (r: Option<&C>)
        requires
            self.wf(),
        ensures
            r is Some <==> self.contents().contains_key(index),
            r matches Some(c) ==> self.contents()[index] == *c,
    {
        if (index as usize) < self.sparse.len() {
            match self.sparse[index as usize] {
                Some(slot) => Some(&self.dense[slot]),
                None => None,
            }
        } else {
            None
        }
    }

    /// Inserts a component for the given entity index. An index that
    /// already occupies a slot has its dense value overwritten in place
    /// — no duplicate slot, no change to the dense length; otherwise the
    /// value is appended to a fresh dense slot.
    pub fn insert(&mut self, index: u32, value: C)
        requires
            old(self).wf(),
        ensures
            final(self).wf(),
            final(self).contents() == old(self).contents().insert(index, value),
            old(self).contents().contains_key(index) ==> final(self).dense@.len() == old(
                self,
            ).dense@.len(),
            !old(self).contents().contains_key(index) ==> final(self).dense@.len() == old(
                self,
            ).dense@.len() + 1,
    {
        while self.sparse.len() <= index as usize
            invariant
                old(self).wf(),
                self.dense == old(self).dense,
                self.owners == old(self).owners,
                self.sparse@.len() >= old(self).sparse@.len(),
                self.sparse@.len() <= 0x1_0000_0000,
                forall|i: int|
                    0 <= i < old(self).sparse@.len() ==> self.sparse@[i] == old(self).sparse@[i],
                forall|i: int|
                    old(self).sparse@.len() <= i < self.sparse@.len() ==> self.sparse@[i]
                        is None,
            decreases index as int + 1 - self.sparse@.len(),
        {
            self.sparse.push(None);
        }
        proof {
            assert(self.wf());
            assert(self.contents() =~= old(self).contents());
        }
        let ghost grown = *self;
        match self.sparse[index as usize] {
            Some(slot) => {
                self.dense[slot] = value;
                proof {
                    assert(final(self).wf());
                    assert(final(self).contents() =~= old(self).contents().insert(index, value));
                }
            },
            None => {
                let slot = self.dense.len();
                self.sparse[index as usize] = Some(slot);
                self.dense.push(value);
                self.owners.push(index);
                proof {
                    assert forall|k: int| 0 <= k < final(self).owners@.len() implies
                        (#[trigger] final(self).owners@[k] as int) < final(self).sparse@.len()
                            && final(self).sparse@[final(self).owners@[k] as int] is Some
                            && (final(self).sparse@[final(self).owners@[k] as int]->Some_0 as int)
                            == k by {
                        if k < grown.owners@.len() {
                            assert(grown.owners@[k] == final(self).owners@[k]);
                            assert(grown.owners@[k] != index);
                        }
                    }
                    assert(final(self).wf());
                    assert(final(self).contents() =~= old(self).contents().insert(index, value));
                }
            },
        }
    }

    /// Removes the component for the given entity index, returning
    /// whether one was present. The last dense value and its owner are
    /// swapped into the vacated slot — pure truncation when the vacated
    /// slot is already last — keeping the dense array contiguous.
    pub fn remove(&mut self, index: u32) -> (r: bool)
        requires
            old(self).wf(),
        ensures
            final(self).wf(),
            r <==> old(self).contents().contains_key(index),
            final(self).contents() == old(self).contents().remove(index),
            r ==> final(self).dense@.len() == old(self).dense@.len() - 1,
            !r ==> *final(self) == *old(self),
    {
        if (index as usize) >= self.sparse.len() {
            proof {
                assert(final(self).contents() =~= old(self).contents().remove(index));
            }
            return false;
        }
        match self.sparse[index as usize] {
            None => {
                proof {
                    assert(final(self).contents() =~= old(self).contents().remove(index));
                }
                false
            },
            Some(slot) => {
                let moved_owner = self.owners[self.owners.len() - 1];
                let _ = self.dense.swap_remove(slot);
                let _ = self.owners.swap_remove(slot);
                if slot < self.dense.len() {
                    // A value was relocated into the vacated slot: patch
                    // the sparse entry of its owning index.
                    self.sparse[moved_owner as usize] = Some(slot);
                }
                self.sparse[index as usize] = None;
                proof {
                    assert(final(self).wf()) by {
                        assert forall|k: int| 0 <= k < final(self).owners@.len() implies
                            (#[trigger] final(self).owners@[k] as int) < final(self).sparse@.len()
                                && final(self).sparse@[final(self).owners@[k] as int] is Some
                                && (final(self).sparse@[final(self).owners@[k] as int]->Some_0
                                as int) == k by {
                            if k != slot {
                                assert(final(self).owners@[k] == old(self).owners@[k]);
                                assert(old(self).owners@[k] != index);
                                assert(old(self).owners@[k] != moved_owner || k
                                    == old(self).owners@.len() - 1);
                            }
                        }
                    }
                    assert(final(self).contents() =~= old(self).contents().remove(index));
                }
                true
            },
        }
    }

    /// The dense array holds exactly one slot per stored component: its
    /// length is the cardinality of the mapping this storage represents,
    /// so overwrites and swap-removals never duplicate or leak a slot.
    pub proof fn lemma_dense_len_is_contents_size(&self)
        requires
            self.wf(),
        ensures
            self.contents().dom().finite(),
            self.contents().dom().len() == self.dense@.len(),
    {
        assert(self.owners@.no_duplicates()) by {
            assert forall|k: int, l: int|
                0 <= k < self.owners@.len() && 0 <= l < self.owners@.len() && k != l
                    implies self.owners@[k] != self.owners@[l] by {
                assert((self.sparse@[self.owners@[k] as int]->Some_0 as int) == k);
                assert((self.sparse@[self.owners@[l] as int]->Some_0 as int) == l);
            }
        }
        self.owners@.unique_seq_to_set();
        assert(self.contents().dom() =~= self.owners@.to_set()) by {
            assert forall|i: u32| self.contents().dom().contains(i)
                implies self.owners@.to_set().contains(i) by {
                let s = self.sparse@[i as int]->Some_0;
                assert(self.owners@[s as int] == i);
                assert(self.owners@.contains(i));
            }
            assert forall|i: u32| self.owners@.to_set().contains(i)
                implies self.contents().dom().contains(i) by {
                let k = choose|k: int| 0 <= k < self.owners@.len() && self.owners@[k] == i;
                assert(self.sparse@[self.owners@[k] as int] is Some);
            }
        }
    }

    /// The number of components currently stored.
    pub fn len(&self) -> (r: usize)
        requires
            self.wf(),
        ensures
            r == self.dense@.len(),
    {
        self.dense.len()
    }
}

} // verus!
