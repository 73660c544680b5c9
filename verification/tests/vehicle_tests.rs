use planet_server::origin::{LocalVector, Quaternion, WorldVector};
use planet_server::physics::{BodyReading, BodyState, ColliderHandle, RigidBodyHandle};
use planet_server::vehicles::{
    max_health_of, respawn_delay_of, vehicle_kind, Vehicle, VehicleKind, VehicleManager,
};

fn car_at_spawn() -> (VehicleManager, String) {
    let mut m = VehicleManager::new();
    let id = m.spawn_vehicle_with_id(
        "car_1".to_string(),
        "car".to_string(),
        WorldVector::new(-40_000, 32_000, -40_000),
        None,
        None,
        1_000,
    );
    (m, id)
}

fn well_formed(v: &Vehicle) -> bool {
    v.max_health > 0
        && v.health <= v.max_health
        && (v.is_destroyed == (v.health == 0))
        && (v.is_destroyed == v.respawn_time.is_some())
        && (!v.is_destroyed || v.pilot_id.is_none())
}

#[test]
fn kinds_are_read_from_their_names() {
    assert_eq!(vehicle_kind("spaceship"), Some(VehicleKind::Spaceship));
    assert_eq!(vehicle_kind("helicopter"), Some(VehicleKind::Helicopter));
    assert_eq!(vehicle_kind("plane"), Some(VehicleKind::Plane));
    assert_eq!(vehicle_kind("car"), Some(VehicleKind::Car));
    assert_eq!(vehicle_kind("Car"), None);
    assert_eq!(vehicle_kind("boat"), None);
    assert_eq!(vehicle_kind(""), None);
}

#[test]
fn full_health_by_kind() {
    assert_eq!(max_health_of(Some(VehicleKind::Spaceship)), 500_000);
    assert_eq!(max_health_of(Some(VehicleKind::Helicopter)), 300_000);
    assert_eq!(max_health_of(Some(VehicleKind::Plane)), 400_000);
    assert_eq!(max_health_of(Some(VehicleKind::Car)), 200_000);
    assert_eq!(max_health_of(None), 100_000);
}

#[test]
fn respawn_delay_by_kind() {
    assert_eq!(respawn_delay_of(Some(VehicleKind::Spaceship)), 180_000);
    assert_eq!(respawn_delay_of(Some(VehicleKind::Helicopter)), 150_000);
    assert_eq!(respawn_delay_of(Some(VehicleKind::Plane)), 150_000);
    assert_eq!(respawn_delay_of(Some(VehicleKind::Car)), 90_000);
    assert_eq!(respawn_delay_of(None), 120_000);
}

#[test]
fn a_spawned_vehicle_stands_at_rest_in_full_health() {
    let (m, id) = car_at_spawn();
    assert_eq!(id, "car_1");
    let v = m.get_vehicle("car_1").unwrap();
    assert_eq!(v.id, "car_1");
    assert_eq!(v.vehicle_type, "car");
    assert_eq!(v.world_origin, WorldVector::new(-40_000, 32_000, -40_000));
    assert_eq!(v.spawn_origin, WorldVector::new(-40_000, 32_000, -40_000));
    assert_eq!(v.position, LocalVector::zeros());
    assert_eq!(v.get_world_position(), WorldVector::new(-40_000, 32_000, -40_000));
    assert_eq!(v.rotation, Quaternion::identity());
    assert_eq!(v.health, 200_000);
    assert_eq!(v.max_health, 200_000);
    assert_eq!(v.pilot_id, None);
    assert!(!v.is_destroyed);
    assert_eq!(v.last_update, 1_000);
    assert!(well_formed(&v));
    assert!(m.get_vehicle("car_2").is_none());
}

#[test]
fn a_spawned_vehicle_takes_the_rotation_it_is_given() {
    let mut m = VehicleManager::new();
    let q = Quaternion { i: 0, j: 707, k: 0, w: 707 };
    m.spawn_vehicle_with_id("h".to_string(), "helicopter".to_string(), WorldVector::zeros(), Some(q), Some(5), 0);
    let v = m.get_vehicle("h").unwrap();
    assert_eq!(v.rotation, q);
    assert_eq!(v.health, 300_000);
    assert_eq!(v.pilot_id, Some(5));
}

#[test]
fn damage_comes_off_health() {
    let (mut m, _) = car_at_spawn();
    let v = m.damage_vehicle("car_1", 50_000, 2_000).unwrap();
    assert_eq!(v.health, 150_000);
    assert!(!v.is_destroyed);
    assert_eq!(v.respawn_time, None);
    assert_eq!(m.get_vehicle("car_1").unwrap().health, 150_000);
    assert!(m.damage_vehicle("car_2", 1, 2_000).is_none());
}

#[test]
fn full_damage_destroys_ejects_and_sets_the_respawn() {
    let (mut m, _) = car_at_spawn();
    assert!(m.enter("car_1", 7));
    let v = m.damage_vehicle("car_1", 200_000, 10_000).unwrap();
    assert!(v.is_destroyed);
    assert_eq!(v.health, 0);
    assert_eq!(v.pilot_id, None);
    assert_eq!(v.respawn_time, Some(100_000));
    assert!(well_formed(&v));
    assert!(m.damage_vehicle("car_1", 1, 10_001).is_none());
    assert!(!m.enter("car_1", 8));
}

#[test]
fn the_respawn_comes_exactly_when_the_delay_has_passed() {
    let (mut m, _) = car_at_spawn();
    m.update_from_physics(
        "car_1",
        LocalVector::new(1, 2, 3),
        Quaternion { i: 1000, j: 0, k: 0, w: 0 },
        LocalVector::new(9, 9, 9),
        LocalVector::new(8, 8, 8),
        9_000,
    );
    m.set_handles("car_1", Some(RigidBodyHandle { index: 1, generation: 0 }), Some(ColliderHandle { index: 2, generation: 0 }));
    m.damage_vehicle("car_1", 250_000, 10_000);
    assert!(m.check_respawns(99_999).is_empty());
    assert!(m.get_vehicle("car_1").unwrap().is_destroyed);
    let respawns = m.check_respawns(100_000);
    assert_eq!(respawns.len(), 1);
    assert_eq!(respawns[0].id, "car_1");
    assert_eq!(respawns[0].vehicle_type, "car");
    assert_eq!(respawns[0].world_position, WorldVector::new(-40_000, 32_000, -40_000));
    assert_eq!(respawns[0].health, 200_000);
    assert_eq!(respawns[0].old_body, Some(RigidBodyHandle { index: 1, generation: 0 }));
    let v = m.get_vehicle("car_1").unwrap();
    assert!(!v.is_destroyed);
    assert_eq!(v.health, 200_000);
    assert_eq!(v.respawn_time, None);
    assert_eq!(v.world_origin, WorldVector::new(-40_000, 32_000, -40_000));
    assert_eq!(v.position, LocalVector::zeros());
    assert_eq!(v.velocity, LocalVector::zeros());
    assert_eq!(v.angular_velocity, LocalVector::zeros());
    assert_eq!(v.body_handle, None);
    assert!(well_formed(&v));
    assert!(m.check_respawns(100_001).is_empty());
}

#[test]
fn entering_and_leaving() {
    let (mut m, _) = car_at_spawn();
    assert!(!m.enter("car_2", 7));
    assert!(m.enter("car_1", 7));
    assert_eq!(m.get_vehicle("car_1").unwrap().pilot_id, Some(7));
    assert!(!m.exit("car_1", 8));
    assert!(m.exit("car_1", 7));
    assert_eq!(m.get_vehicle("car_1").unwrap().pilot_id, None);
    assert!(!m.exit("car_1", 7));
    assert!(!m.exit("car_2", 7));
}

#[test]
fn read_back_takes_the_reading_of_the_body() {
    let (mut m, _) = car_at_spawn();
    let handle = RigidBodyHandle { index: 4, generation: 2 };
    m.set_handles("car_1", Some(handle), None);
    let readings = vec![BodyReading {
        body: handle,
        state: BodyState {
            position: LocalVector::new(-39_000, 31_000, -40_000),
            rotation: Quaternion { i: 0, j: 0, k: 1000, w: 0 },
            velocity: LocalVector::new(1_000, 0, 0),
        },
        angular_velocity: LocalVector::new(0, 500, 0),
    }];
    m.read_back_all(&readings, 2_000);
    let v = m.get_vehicle("car_1").unwrap();
    assert_eq!(v.world_origin, WorldVector::new(-39_000, 31_000, -40_000));
    assert_eq!(v.position, LocalVector::zeros());
    assert_eq!(v.velocity, LocalVector::new(1_000, 0, 0));
    assert_eq!(v.angular_velocity, LocalVector::new(0, 500, 0));
    assert_eq!(v.last_update, 2_000);
    assert_eq!(v.spawn_origin, WorldVector::new(-40_000, 32_000, -40_000));
    assert_eq!(m.iter().len(), 1);
}

#[test]
fn a_vehicle_copy_is_equal_in_every_field() {
    let (mut m, _) = car_at_spawn();
    m.enter("car_1", 3);
    let v = m.get_vehicle("car_1").unwrap();
    assert_eq!(format!("{:?}", v), format!("{:?}", v.duplicate()));
}
