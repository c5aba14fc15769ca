//! An entity-component storage engine.
//!
//! The crate associates typed component values with lightweight,
//! generation-checked entity identifiers. Attach, detach and lookup are
//! constant-time; freed identifier slots are reused safely, with a
//! generation counter distinguishing a reused index from its stale
//! predecessors. Per-type storage is kept densely packed by swap-removal.
//!
//! The [`ecs::Ecs`] orchestrator owns the allocator and one sparse-set
//! storage per component type; [`world`] holds the integer coordinate
//! types that the surrounding block-world glue shares with the engine.

pub mod component;
pub mod ecs;
pub mod entity;
pub mod entity_builder;
pub mod storage;
pub mod world;
