use qoecs::ECSEntityCreateConflictResolution;
use qoecs::ECSError;
use qoecs::archetype3::Archetype3;
use qoecs::archetype3::Bundle3;
use qoecs::archetype3::EntityView3;
use qoecs::ident::EntityId;
use qoecs::resources::ArrayResource;
use qoecs::resources::MapResource;
use qoecs::resources::OptionalResource;
use qoecs::resources::PlainResource;

#[derive(PartialEq, Clone, Debug)]
pub struct PositionComponent {
    x: f64,
    y: f64,
}

#[derive(PartialEq, Clone, Debug)]
pub struct VelocityComponent {
    vector: (f64, f64),
}

#[test]
fn required_resource_test() {
    let mut time: PlainResource<u64> = PlainResource::new(0);
    assert_eq!(time.get(), &0);

    time.write(100);
    assert_eq!(time.get(), &100);

    time.write(200);
    assert_eq!(time.get(), &200);
}

#[test]
fn array_resource_test() -> Result<(), ECSError> {
    let mut seq_res: ArrayResource<u64, 10> = ArrayResource::new(0);
    for i in 0..10 {
        assert_eq!(seq_res.get(i)?, &0);
    }

    seq_res.write(100, 0)?;
    assert_eq!(seq_res.get(0)?, &100);
    for i in 1..10 {
        assert_eq!(seq_res.get(i)?, &0);
    }

    for i in 1..10 {
        seq_res.write(i, i as usize)?;
    }
    for i in 1..10 {
        assert_eq!(seq_res.get(i)?, &(i as u64));
    }

    seq_res.clear();
    for i in 0..10 {
        assert_eq!(seq_res.get(i)?, &0);
    }
    Ok(())
}

#[test]
fn map_resource_test() -> Result<(), ECSError> {
    let mut name_conv: MapResource<String> = MapResource::new();
    for i in 0..100 {
        assert_eq!(name_conv.get(i), None);
    }

    assert_eq!(name_conv.write(0, "A".to_owned()), None);
    assert_eq!(name_conv.write(0, "B".to_owned()), Some("A".to_owned()));
    assert_eq!(name_conv.write(0, "C".to_owned()), Some("B".to_owned()));
    assert_eq!(name_conv.write(0, "A".to_owned()), Some("C".to_owned()));
    for i in 1..100 {
        assert_eq!(name_conv.get(i), None);
        name_conv.write(i, "A".to_owned());
    }
    for i in 0..100 {
        assert_eq!(name_conv.get(i), Some(&"A".to_owned()));
    }
    for i in 100..110 {
        assert_eq!(name_conv.get(i), None);
    }

    name_conv.clear();
    for i in 0..100 {
        assert_eq!(name_conv.get(i), None);
    }

    Ok(())
}

#[test]
fn array_resource_outofbound_test() {
    let mut seq_res: ArrayResource<u64, 10> = ArrayResource::new(0);
    match seq_res.write(42, 42) {
        Err(ECSError::ArrayResourceWriteOutOfBoundsError) => (),
        _ => panic!("Should return Out of Bound Error"),
    };
    match seq_res.get(42) {
        Err(ECSError::ArrayResourceWriteOutOfBoundsError) => (),
        _ => panic!("Should return Out of Bound Error"),
    };
}

#[test]
fn optional_resource_test() {
    let mut gravity: OptionalResource<f32> = OptionalResource::new();
    assert_eq!(gravity.get(), None);

    gravity.write(0.42);
    assert!(match gravity.get() {
        Some(v) => (v - 0.42) < 0.00001,
        None => false,
    });

    gravity.clear();
    assert_eq!(gravity.get(), None);
}

#[test]
fn archtype_test() {
    let mut mobs: Archetype3<PositionComponent, PositionComponent, VelocityComponent> =
        Archetype3::new();
    assert!(!mobs.has(&EntityId::new(0)));

    let mob_pos = Some(PositionComponent { x: 0., y: 0. });
    let mob_clone_pos: Option<PositionComponent> = None;
    let mob_vel = Some(VelocityComponent { vector: (1., 0.) });

    let mob = Bundle3 {
        c1: mob_pos.clone(),
        c2: mob_clone_pos.clone(),
        c3: mob_vel.clone(),
    };
    let mob_id = mobs
        .create(EntityId::new(0), mob, ECSEntityCreateConflictResolution::Error)
        .unwrap();

    let mob = Bundle3 {
        c1: mob_pos.clone(),
        c2: mob_clone_pos.clone(),
        c3: mob_vel.clone(),
    };
    if let Ok(_) = mobs.create(mob_id, mob, ECSEntityCreateConflictResolution::Error) {
        panic!("Should error on duplicate entity.")
    }

    assert_eq!(mob_pos.as_ref(), mobs.get_c1(&mob_id));
    assert_eq!(mob_clone_pos.as_ref(), mobs.get_c2(&mob_id));
    assert_eq!(mob_vel.as_ref(), mobs.get_c3(&mob_id));

    if let Some(EntityView3 {
        c1: pos_view,
        c2: clone_pos_view,
        c3: vel_view,
    }) = mobs.get_entity(&mob_id)
    {
        assert_eq!(mob_pos.as_ref(), pos_view);
        assert_eq!(mob_clone_pos.as_ref(), clone_pos_view);
        assert_eq!(mob_vel.as_ref(), vel_view);
    } else {
        panic!("Entity should exists.")
    }
}
