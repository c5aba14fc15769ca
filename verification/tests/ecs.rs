use quill_ecs::component::ComponentTypeId;
use quill_ecs::ecs::{ComponentError, Ecs, EntityDead};
use quill_ecs::entity_builder::EntityBuilder;

#[derive(Debug, Clone, Copy, PartialEq)]
enum TestComponent {
    Position(f64, f64, f64),
    Health(i32),
    Label(u64),
}

fn position_id() -> ComponentTypeId {
    ComponentTypeId::new(1)
}

fn health_id() -> ComponentTypeId {
    ComponentTypeId::new(2)
}

fn label_id() -> ComponentTypeId {
    ComponentTypeId::new(3)
}

#[test]
fn fresh_entity_has_no_components() {
    let mut ecs: Ecs<TestComponent> = Ecs::new();
    let e = ecs.spawn_empty();
    // No type was ever registered.
    assert!(matches!(
        ecs.get(e, position_id()),
        Err(ComponentError::MissingComponent(_))
    ));
    // A type registered by another entity is still missing on e.
    let other = ecs.spawn_empty();
    ecs.insert(other, health_id(), TestComponent::Health(5)).unwrap();
    assert!(matches!(
        ecs.get(e, health_id()),
        Err(ComponentError::MissingComponent(_))
    ));
}

#[test]
fn insert_then_get_returns_value() {
    let mut ecs: Ecs<TestComponent> = Ecs::new();
    let e = ecs.spawn_empty();
    let v = TestComponent::Health(42);
    ecs.insert(e, health_id(), v).unwrap();
    assert_eq!(ecs.get(e, health_id()), Ok(&v));
}

#[test]
fn second_insert_overwrites_without_duplicate() {
    let mut ecs: Ecs<TestComponent> = Ecs::new();
    let e = ecs.spawn_empty();
    ecs.insert(e, health_id(), TestComponent::Health(1)).unwrap();
    let before: usize = ecs.component_count(health_id());
    ecs.insert(e, health_id(), TestComponent::Health(2)).unwrap();
    assert_eq!(ecs.get(e, health_id()), Ok(&TestComponent::Health(2)));
    // Overwrite created no duplicate slot: the dense length is unchanged.
    assert_eq!(ecs.component_count(health_id()), before);
    assert_eq!(before, 1usize);
}

#[test]
fn remove_succeeds_once_then_reports_missing() {
    let mut ecs: Ecs<TestComponent> = Ecs::new();
    let e = ecs.spawn_empty();
    ecs.insert(e, health_id(), TestComponent::Health(7)).unwrap();
    assert_eq!(ecs.remove(e, health_id()), Ok(()));
    assert_eq!(
        ecs.remove(e, health_id()),
        Err(ComponentError::MissingComponent(health_id()))
    );
}

#[test]
fn despawned_entity_is_dead_for_every_operation() {
    let mut ecs: Ecs<TestComponent> = Ecs::new();
    let e = ecs.spawn_empty();
    ecs.insert(e, health_id(), TestComponent::Health(3)).unwrap();
    assert_eq!(ecs.despawn(e), Ok(()));
    assert_eq!(
        ecs.get(e, health_id()),
        Err(ComponentError::MissingEntity(EntityDead))
    );
    assert_eq!(ecs.insert(e, health_id(), TestComponent::Health(4)), Err(EntityDead));
    assert_eq!(
        ecs.remove(e, health_id()),
        Err(ComponentError::MissingEntity(EntityDead))
    );
    assert_eq!(ecs.despawn(e), Err(EntityDead));
}

#[test]
fn reused_index_carries_new_generation() {
    let mut ecs: Ecs<TestComponent> = Ecs::new();
    let e1 = ecs.spawn_empty();
    ecs.despawn(e1).unwrap();
    let e2 = ecs.spawn_empty();
    assert_eq!(e2.index(), e1.index());
    assert_ne!(e2.generation(), e1.generation());
    // The stale identifier stays dead even though its index is alive
    // again as e2.
    assert_eq!(
        ecs.get(e1, health_id()),
        Err(ComponentError::MissingEntity(EntityDead))
    );
    assert_eq!(
        ecs.get(e2, health_id()),
        Err(ComponentError::MissingComponent(health_id()))
    );
}

#[test]
fn survivors_keep_their_values_under_interleaved_removal() {
    let mut ecs: Ecs<TestComponent> = Ecs::new();
    let n: usize = 64;
    let mut entities = Vec::new();
    for k in 0..n {
        let e = ecs.spawn_empty();
        ecs.insert(e, label_id(), TestComponent::Label(k as u64)).unwrap();
        entities.push(e);
    }
    // Pick a pseudo-random subset and visit it in a scrambled order.
    let mut doomed = Vec::new();
    let mut state: u64 = 0x2545_F491_4F6C_DD1D;
    for k in 0..n {
        state = state.wrapping_mul(6364136223846793005).wrapping_add(1442695040888963407);
        if state >> 63 == 1 {
            doomed.push(k);
        }
    }
    // Scramble the removal order deterministically.
    let mut order = doomed.clone();
    let len: usize = order.len();
    assert!(len > 0);
    for k in 0..len {
        state = state.wrapping_mul(6364136223846793005).wrapping_add(1442695040888963407);
        let j: usize = (state % (len as u64)) as usize;
        order.swap(k, j);
    }
    for &k in &order {
        assert_eq!(ecs.remove(entities[k], label_id()), Ok(()));
    }
    // Every survivor still holds exactly the value it was given.
    for k in 0..n {
        if doomed.contains(&k) {
            assert!(matches!(
                ecs.get(entities[k], label_id()),
                Err(ComponentError::MissingComponent(_))
            ));
        } else {
            assert_eq!(
                ecs.get(entities[k], label_id()),
                Ok(&TestComponent::Label(k as u64))
            );
        }
    }
}

#[test]
fn position_lifecycle_scenario() {
    let mut ecs: Ecs<TestComponent> = Ecs::new();
    let a = ecs.spawn_empty();
    ecs.insert(a, position_id(), TestComponent::Position(1.0, 2.0, 3.0)).unwrap();
    assert_eq!(
        ecs.get(a, position_id()),
        Ok(&TestComponent::Position(1.0, 2.0, 3.0))
    );
    ecs.despawn(a).unwrap();
    assert_eq!(
        ecs.get(a, position_id()),
        Err(ComponentError::MissingEntity(EntityDead))
    );
    let b = ecs.spawn_empty();
    assert_eq!(b.index(), a.index());
    assert!(b.generation() > a.generation());
    // B starts without a position and takes one independently of A's
    // former value.
    assert!(matches!(
        ecs.get(b, position_id()),
        Err(ComponentError::MissingComponent(_))
    ));
    ecs.insert(b, position_id(), TestComponent::Position(9.0, 8.0, 7.0)).unwrap();
    assert_eq!(
        ecs.get(b, position_id()),
        Ok(&TestComponent::Position(9.0, 8.0, 7.0))
    );
    assert_eq!(
        ecs.get(a, position_id()),
        Err(ComponentError::MissingEntity(EntityDead))
    );
}

#[test]
fn bundle_spawn_holds_exactly_the_bundled_components() {
    let mut ecs: Ecs<TestComponent> = Ecs::new();
    let bundle = vec![
        (position_id(), TestComponent::Position(0.0, 0.0, 0.0)),
        (health_id(), TestComponent::Health(20)),
    ];
    let e = ecs.spawn_bundle(bundle);
    assert_eq!(
        ecs.get(e, position_id()),
        Ok(&TestComponent::Position(0.0, 0.0, 0.0))
    );
    assert_eq!(ecs.get(e, health_id()), Ok(&TestComponent::Health(20)));
    assert!(matches!(
        ecs.get(e, label_id()),
        Err(ComponentError::MissingComponent(_))
    ));
}

#[test]
fn builder_spawn_drains_in_order_and_resets() {
    let mut ecs: Ecs<TestComponent> = Ecs::new();
    let mut builder: EntityBuilder<TestComponent> = EntityBuilder::new();
    builder.stage(health_id(), TestComponent::Health(1));
    // A later staged value of the same type overwrites the earlier one.
    builder.stage(health_id(), TestComponent::Health(2));
    builder.stage(label_id(), TestComponent::Label(5));
    let e = ecs.spawn_builder(&mut builder);
    assert_eq!(ecs.get(e, health_id()), Ok(&TestComponent::Health(2)));
    assert_eq!(ecs.get(e, label_id()), Ok(&TestComponent::Label(5)));
    assert_eq!(ecs.component_count(health_id()), 1usize);
    // The builder was reset and can be reused.
    assert_eq!(builder.staged_len(), 0usize);
    builder.stage(health_id(), TestComponent::Health(9));
    let f = ecs.spawn_builder(&mut builder);
    assert_eq!(ecs.get(f, health_id()), Ok(&TestComponent::Health(9)));
    assert_eq!(ecs.get(e, health_id()), Ok(&TestComponent::Health(2)));
}

#[test]
fn despawn_sweeps_every_registered_storage() {
    let mut ecs: Ecs<TestComponent> = Ecs::new();
    let e = ecs.spawn_empty();
    ecs.insert(e, position_id(), TestComponent::Position(4.0, 5.0, 6.0)).unwrap();
    ecs.insert(e, health_id(), TestComponent::Health(10)).unwrap();
    assert_eq!(ecs.registered_types(), 2usize);
    assert_eq!(ecs.component_count(position_id()), 1usize);
    ecs.despawn(e).unwrap();
    assert_eq!(ecs.component_count(position_id()), 0usize);
    assert_eq!(ecs.component_count(health_id()), 0usize);
    // Storages stay registered; only the entity's slots are gone.
    assert_eq!(ecs.registered_types(), 2usize);
}
