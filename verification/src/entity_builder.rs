//! Reusable staging of components ahead of a single spawn.

use vstd::prelude::*;

use crate::component::ComponentTypeId;

verus! {

/// An ordered, reusable staging sequence of components.
///
/// The caller stages `(type identifier, value)` pairs; a spawn through
/// the store drains them in staging order and leaves the builder reset,
/// so it can be reused for a subsequent spawn.
pub struct EntityBuilder<C> {
    pub staged: Vec<(ComponentTypeId, C)>,
}

impl<C> EntityBuilder<C> {
    /// Creates an empty builder.
    pub fn new() -> (r: EntityBuilder<C>)
        ensures
            r.staged@.len() == 0,
    {
        EntityBuilder { staged: Vec::new() }
    }

    /// Stages one component, after everything staged so far.
    pub fn stage(&mut self, type_id: ComponentTypeId, value: C)
        ensures
            final(self).staged@ == old(self).staged@.push((type_id, value)),
    {
        self.staged.push((type_id, value));
    }

    /// The number of components currently staged.
    pub fn staged_len(&self) -> (r: usize)
        ensures
            r == self.staged@.len(),
    {
        self.staged.len()
    }

    /// Discards everything staged, readying the builder for reuse.
    pub fn reset(&mut self)
        ensures
            final(self).staged@.len() == 0,
    {
        self.staged.clear();
    }
}

impl<C> Default for EntityBuilder<C> {
    /// An empty builder, as [`EntityBuilder::new`] creates it.
    fn default() -> (r: EntityBuilder<C>)
        ensures
            r.staged@.len() == 0,
    {
        EntityBuilder::new()
    }
}

} // verus!
