use planet_server::messages::Vec3;
use planet_server::origin::{LocalVector, Quaternion};
use planet_server::physics::{
    find_reading, BodyReading, BodyState, ColliderHandle, ForcePolicy, PhysicsWorld,
    RigidBodyHandle, WaterVolume, AIR_DAMPING, BUOYANCY_PULL, GRAVITY_STRENGTH, WATER_DRAG,
};

fn pool() -> WaterVolume {
    WaterVolume {
        collider: ColliderHandle { index: 1, generation: 0 },
        center: LocalVector::new(15_000, 35_000, 0),
        size: Vec3 { x: 10_000, y: 3_000, z: 10_000 },
    }
}

fn world_with_pool() -> PhysicsWorld {
    let mut world = PhysicsWorld::new();
    world.water_volumes.push(pool());
    world
}

#[test]
fn new_world_has_the_planet_below_and_no_water() {
    let world = PhysicsWorld::new();
    assert_eq!(world.gravity, LocalVector::new(0, -250_000, 0));
    assert!(world.water_volumes.is_empty());
    assert!(!world.is_position_in_water(&LocalVector::new(0, 0, 0)));
}

#[test]
fn a_point_inside_the_box_is_in_water() {
    let world = world_with_pool();
    assert!(world.is_position_in_water(&LocalVector::new(15_000, 35_000, 0)));
    assert!(world.is_position_in_water(&LocalVector::new(11_000, 34_000, -4_000)));
}

#[test]
fn the_faces_of_the_box_are_in_water() {
    let world = world_with_pool();
    assert!(world.is_position_in_water(&LocalVector::new(10_000, 35_000, 0)));
    assert!(world.is_position_in_water(&LocalVector::new(20_000, 36_500, 5_000)));
    assert!(world.is_position_in_water(&LocalVector::new(15_000, 33_500, -5_000)));
}

#[test]
fn a_point_just_outside_the_box_is_not_in_water() {
    let world = world_with_pool();
    assert!(!world.is_position_in_water(&LocalVector::new(9_999, 35_000, 0)));
    assert!(!world.is_position_in_water(&LocalVector::new(15_000, 36_501, 0)));
    assert!(!world.is_position_in_water(&LocalVector::new(15_000, 35_000, 5_001)));
}

#[test]
fn a_box_of_odd_size_reaches_half_a_millimetre_short() {
    let volume = WaterVolume {
        collider: ColliderHandle { index: 2, generation: 0 },
        center: LocalVector::new(0, 0, 0),
        size: Vec3 { x: 3, y: 3, z: 3 },
    };
    assert!(volume.contains(&LocalVector::new(1, 1, -1)));
    assert!(!volume.contains(&LocalVector::new(2, 0, 0)));
}

#[test]
fn any_of_several_volumes_counts() {
    let mut world = world_with_pool();
    world.water_volumes.push(WaterVolume {
        collider: ColliderHandle { index: 3, generation: 0 },
        center: LocalVector::new(-100_000, 0, 0),
        size: Vec3 { x: 2_000, y: 2_000, z: 2_000 },
    });
    assert!(world.is_position_in_water(&LocalVector::new(-100_500, 500, 0)));
    assert!(world.is_position_in_water(&LocalVector::new(15_000, 35_000, 0)));
    assert!(!world.is_position_in_water(&LocalVector::new(0, 0, 0)));
}

#[test]
fn forces_in_water_are_buoyancy_and_drag() {
    let world = world_with_pool();
    let policy = world.forces_at(&LocalVector::new(15_000, 35_000, 0));
    assert_eq!(policy, ForcePolicy { radial_pull: -7_500, drag: 3_000 });
    assert_eq!(policy.radial_pull, BUOYANCY_PULL);
    assert_eq!(policy.drag, WATER_DRAG);
    assert!(policy.radial_pull < 0);
}

#[test]
fn forces_out_of_water_are_gravity_and_damping() {
    let world = world_with_pool();
    let policy = world.forces_at(&LocalVector::new(0, 80_000, 0));
    assert_eq!(policy, ForcePolicy { radial_pull: 25_000, drag: 20 });
    assert_eq!(policy.radial_pull, GRAVITY_STRENGTH);
    assert_eq!(policy.drag, AIR_DAMPING);
}

#[test]
fn buoyancy_is_three_tenths_of_gravity() {
    assert_eq!(BUOYANCY_PULL * 10, -3 * GRAVITY_STRENGTH);
}

fn reading(index: u32, x: i32) -> BodyReading {
    BodyReading {
        body: RigidBodyHandle { index, generation: 0 },
        state: BodyState {
            position: LocalVector::new(x, 0, 0),
            rotation: Quaternion::identity(),
            velocity: LocalVector::zeros(),
        },
        angular_velocity: LocalVector::zeros(),
    }
}

#[test]
fn find_reading_takes_the_first_of_a_body() {
    let readings = vec![reading(1, 10), reading(2, 20), reading(1, 30)];
    let found = find_reading(&readings, RigidBodyHandle { index: 1, generation: 0 });
    assert_eq!(found, Some(reading(1, 10)));
    let found = find_reading(&readings, RigidBodyHandle { index: 2, generation: 0 });
    assert_eq!(found, Some(reading(2, 20)));
}

#[test]
fn find_reading_tells_generations_apart() {
    let readings = vec![reading(1, 10)];
    assert_eq!(find_reading(&readings, RigidBodyHandle { index: 1, generation: 1 }), None);
    assert_eq!(find_reading(&Vec::new(), RigidBodyHandle { index: 1, generation: 0 }), None);
}
