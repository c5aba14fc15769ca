//! Identification of component types.

use vstd::prelude::*;

verus! {

/// A process-wide stable identifier for a component type.
///
/// The store keys its per-type storages by this value. Two identifiers
/// are equal exactly when their raw values are equal; callers must hand
/// out one distinct raw value per distinct component type.
#[derive(Clone, Copy, Debug, PartialEq, Eq, Hash, Structural)]
pub struct ComponentTypeId(pub u64);

impl ComponentTypeId {
    /// Wraps a raw identifier value.
    pub fn new(raw: u64) -> (r: ComponentTypeId)
        ensures
            r.0 == raw,
    {
        ComponentTypeId(raw)
    }

    /// The raw identifier value.
    pub fn raw(&self) -> (r: u64)
        ensures
            r == self.0,
    {
        self.0
    }
}

} // verus!
