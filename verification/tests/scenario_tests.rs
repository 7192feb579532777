use qoecs::ECSEntityCreateConflictResolution;
use qoecs::ECSError;
use qoecs::archetype::Archetype2;
use qoecs::archetype::Bundle2;
use qoecs::archetype::EntityView2;
use qoecs::ident::EntityId;
use qoecs::resources::ArrayResource;
use qoecs::resources::MapResource;
use qoecs::resources::OptionalResource;
use qoecs::resources::PlainResource;

#[derive(PartialEq, Clone, Debug)]
pub struct Position {
    x: i64,
    y: i64,
}

#[derive(PartialEq, Clone, Debug)]
pub struct Velocity {
    dx: i64,
    dy: i64,
}

#[test]
fn plain_resource_fresh_and_overwrite() {
    let mut step: PlainResource<u64> = PlainResource::new(0);
    assert_eq!(step.get(), &0);
    step.write(7);
    assert_eq!(step.get(), &7);
    step.write(7);
    assert_eq!(step.get(), &7);
}

#[test]
fn fixed_array_scenario() {
    let mut seq_res: ArrayResource<u64, 10> = ArrayResource::new(0);
    for i in 0..10 {
        assert_eq!(seq_res.get(i).unwrap(), &0);
    }

    assert!(seq_res.write(100, 0).is_ok());
    assert_eq!(seq_res.get(0).unwrap(), &100);
    for i in 1..10 {
        assert_eq!(seq_res.get(i).unwrap(), &0);
    }

    match seq_res.write(100, 42) {
        Err(ECSError::ArrayResourceWriteOutOfBoundsError) => (),
        _ => panic!("an out-of-bounds write must fail"),
    }
    assert_eq!(seq_res.get(0).unwrap(), &100);
    for i in 1..10 {
        assert_eq!(seq_res.get(i).unwrap(), &0);
    }

    seq_res.clear();
    for i in 0..10 {
        assert_eq!(seq_res.get(i).unwrap(), &0);
    }
}

#[test]
fn map_resource_upsert_returns_previous() {
    let mut scores: MapResource<u64> = MapResource::new();
    assert_eq!(scores.write(3, 30), None);
    assert_eq!(scores.write(3, 33), Some(30));
    assert_eq!(scores.get(3), Some(&33));
    assert_eq!(scores.get(4), None);
    scores.clear();
    assert_eq!(scores.get(3), None);
    assert_eq!(scores.write(3, 35), None);
}

#[test]
fn optional_resource_lifecycle() {
    let mut slot: OptionalResource<u64> = OptionalResource::new();
    assert_eq!(slot.get(), None);
    slot.write(5);
    assert_eq!(slot.get(), Some(&5));
    slot.clear();
    assert_eq!(slot.get(), None);
}

#[test]
fn mob_archetype_scenario() {
    let mut mobs: Archetype2<Position, Velocity> = Archetype2::new();
    let id = EntityId::new(0);
    assert!(!mobs.has(&id));

    let p = Position { x: 1, y: 2 };
    let v = Velocity { dx: 3, dy: 4 };
    let created = mobs
        .create(
            id,
            Bundle2 { c1: Some(p.clone()), c2: Some(v.clone()) },
            ECSEntityCreateConflictResolution::Error,
        )
        .unwrap();
    assert!(mobs.has(&created));

    match mobs.get_entity(&created) {
        Some(EntityView2 { c1, c2 }) => {
            assert_eq!(c1, Some(&p));
            assert_eq!(c2, Some(&v));
        },
        None => panic!("the entity must be registered"),
    }

    match mobs.create(
        id,
        Bundle2 { c1: Some(p.clone()), c2: Some(v.clone()) },
        ECSEntityCreateConflictResolution::Error,
    ) {
        Err(ECSError::EntityIdInUseError) => (),
        _ => panic!("a duplicate creation under the Error policy must fail"),
    }
    assert_eq!(mobs.get_c1(&created), Some(&p));
    assert_eq!(mobs.get_c2(&created), Some(&v));
}

#[test]
fn replace_partial_update_scenario() {
    let mut mobs: Archetype2<Position, Velocity> = Archetype2::new();
    let id = EntityId::new(0);
    let p = Position { x: 1, y: 2 };
    let v = Velocity { dx: 3, dy: 4 };

    mobs.create(
        id,
        Bundle2 { c1: Some(p.clone()), c2: None },
        ECSEntityCreateConflictResolution::Error,
    )
    .unwrap();
    assert_eq!(mobs.get_c1(&id), Some(&p));
    assert_eq!(mobs.get_c2(&id), None);

    let replaced = mobs
        .create(
            id,
            Bundle2 { c1: None, c2: Some(v.clone()) },
            ECSEntityCreateConflictResolution::Replace,
        )
        .unwrap();
    assert_eq!(replaced, id);

    match mobs.get_entity(&id) {
        Some(view) => {
            assert_eq!(view.c1, Some(&p));
            assert_eq!(view.c2, Some(&v));
        },
        None => panic!("the entity must still be registered"),
    }
}

#[test]
fn ignore_policy_preserves_components() {
    let mut mobs: Archetype2<Position, Velocity> = Archetype2::new();
    let id = EntityId::new(0);
    let p = Position { x: 1, y: 2 };

    mobs.create(
        id,
        Bundle2 { c1: Some(p.clone()), c2: None },
        ECSEntityCreateConflictResolution::Error,
    )
    .unwrap();

    let other = Position { x: 9, y: 9 };
    let returned = mobs
        .create(
            id,
            Bundle2 { c1: Some(other), c2: Some(Velocity { dx: 8, dy: 8 }) },
            ECSEntityCreateConflictResolution::Ignore,
        )
        .unwrap();
    assert_eq!(returned, id);
    assert_eq!(mobs.get_c1(&id), Some(&p));
    assert_eq!(mobs.get_c2(&id), None);
}

#[test]
fn get_entity_on_unregistered_id_is_none() {
    let mut mobs: Archetype2<Position, Velocity> = Archetype2::new();
    let id = EntityId::new(3);
    assert!(mobs.get_entity(&id).is_none());
    mobs.create(
        EntityId::new(4),
        Bundle2 { c1: None, c2: None },
        ECSEntityCreateConflictResolution::Error,
    )
    .unwrap();
    assert!(mobs.get_entity(&id).is_none());
}

#[test]
fn phantom_component_bypasses_registry() {
    let mut mobs: Archetype2<Position, Velocity> = Archetype2::new();
    let id = EntityId::new(7);
    let p = Position { x: 5, y: 6 };

    mobs.add_c1(&id, p.clone());
    assert!(!mobs.has(&id));
    assert!(mobs.get_entity(&id).is_none());
    assert_eq!(mobs.get_c1(&id), Some(&p));
}

#[test]
fn entity_id_equality_and_order() {
    let a = EntityId::new(5);
    let b = EntityId::new(5);
    let c = EntityId::new(6);
    assert_eq!(a, b);
    assert_ne!(a, c);
    assert!(a < c);
    assert!(c > a);

    let invalid = EntityId::new_invalidated(5);
    assert_eq!(a, invalid);

    let mut reissued = EntityId::new(5);
    reissued.invalidate();
    reissued.revalidate();
    assert_ne!(a, reissued);
    assert!(!(a < reissued) && !(reissued < a));
}

#[test]
fn entity_id_lifecycle() {
    let mut id = EntityId::new(2);
    assert!(id.is_valid());
    assert_eq!(id.get_id(), &2);

    id.invalidate();
    assert!(!id.is_valid());
    assert_eq!(id.get_id(), &2);

    id.revalidate();
    assert!(id.is_valid());
    assert_eq!(id.get_id(), &2);

    let dead = EntityId::new_invalidated(2);
    assert!(!dead.is_valid());
}

#[test]
fn canonical_id_returned_for_existing_index() {
    let mut mobs: Archetype2<Position, Velocity> = Archetype2::new();
    let mut reissued = EntityId::new(0);
    reissued.invalidate();
    reissued.revalidate();

    mobs.create(
        reissued,
        Bundle2 { c1: None, c2: None },
        ECSEntityCreateConflictResolution::Error,
    )
    .unwrap();

    let stored = mobs
        .create(
            EntityId::new(0),
            Bundle2 { c1: None, c2: None },
            ECSEntityCreateConflictResolution::Ignore,
        )
        .unwrap();
    assert_eq!(stored, reissued);
    assert_ne!(stored, EntityId::new(0));
}
