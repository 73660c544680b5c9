use planet_server::level::{property_number, property_text, Level};
use planet_server::messages::{LevelObject, Position, Rotation, ServerMessage};
use planet_server::spawns::{PlayerSpawnPoint, SpawnManager, SpawnedItem, WeaponSpawnPoint};
use serde_json::Value;

fn json(text: &str) -> Value {
    serde_json::from_str(text).unwrap()
}

fn object(id: Option<&str>, object_type: &str, x: i32, properties: Option<&str>) -> LevelObject {
    LevelObject {
        id: id.map(|s| s.to_string()),
        object_type: object_type.to_string(),
        position: Position { x, y: 32_000, z: 0 },
        rotation: None,
        scale: None,
        physics: None,
        properties: properties.map(json),
        terrain_data: None,
    }
}

fn small_level() -> Level {
    Level {
        objects: vec![
            object(None, "platform", 0, None),
            object(Some("spawn_a"), "player_spawn", 1_000, None),
            object(Some("car_spawn"), "vehicle_spawn", 2_000, Some(r#"{"vehicle_type":"car","respawn_time":90}"#)),
            object(Some("pistol_spawn"), "weapon_spawn", 3_000, Some(r#"{"weapon_type":"pistol","respawn_time":30}"#)),
            object(Some("rifle_spawn"), "weapon_spawn", 4_000, Some(r#"{"weapon_type":"rifle"}"#)),
            object(Some("no_type"), "weapon_spawn", 5_000, Some(r#"{"respawn_time":30}"#)),
            object(Some("no_props"), "vehicle_spawn", 6_000, None),
            object(None, "player_spawn", 7_000, None),
            object(Some("plane_spawn"), "vehicle_spawn", 8_000, Some(r#"{"vehicle_type":"plane"}"#)),
        ],
    }
}

#[test]
fn properties_are_read_by_kind() {
    let props = json(r#"{"vehicle_type":"car","respawn_time":90,"neg":-1,"frac":1.5,"flag":true}"#);
    assert_eq!(property_text(&props, "vehicle_type"), Some("car".to_string()));
    assert_eq!(property_text(&props, "respawn_time"), None);
    assert_eq!(property_text(&props, "missing"), None);
    assert_eq!(property_number(&props, "respawn_time"), Some(90));
    assert_eq!(property_number(&props, "vehicle_type"), None);
    assert_eq!(property_number(&props, "neg"), None);
    assert_eq!(property_number(&props, "frac"), None);
    assert_eq!(property_number(&props, "flag"), None);
    assert_eq!(property_number(&props, "missing"), None);
    assert_eq!(property_text(&json("[1,2]"), "0"), None);
    assert_eq!(property_number(&json("7"), "x"), None);
}

#[test]
fn new_pools_are_empty() {
    let m = SpawnManager::new();
    assert!(m.spawn_points.is_empty());
    assert!(m.vehicle_spawns.is_empty());
    assert!(m.weapon_spawns.is_empty());
    assert!(m.spawned_vehicles.is_empty());
    assert!(m.spawned_weapons.is_empty());
    assert!(m.get_random_player_spawn().is_none());
    assert!(m.player_spawn_for(3).is_none());
}

#[test]
fn the_level_seeds_the_pools() {
    let mut m = SpawnManager::new();
    let frames = m.initialize_from_level(&small_level());
    assert_eq!(m.spawn_points.len(), 1);
    assert_eq!(m.spawn_points[0].id, "spawn_a");
    assert_eq!(m.spawn_points[0].position, Position { x: 1_000, y: 32_000, z: 0 });
    assert_eq!(m.spawn_points[0].rotation, Rotation { x: 0, y: 0, z: 0, w: 1000 });

    assert_eq!(m.vehicle_spawns.len(), 2);
    assert_eq!(m.vehicle_spawns[0].id, "car_spawn");
    assert_eq!(m.vehicle_spawns[0].vehicle_type, "car");
    assert_eq!(m.vehicle_spawns[0].respawn_time, 90_000);
    assert!(!m.vehicle_spawns[0].occupied);
    assert_eq!(m.vehicle_spawns[1].id, "plane_spawn");
    assert_eq!(m.vehicle_spawns[1].respawn_time, 120_000);

    assert_eq!(m.weapon_spawns.len(), 2);
    assert_eq!(m.weapon_spawns[0].id, "pistol_spawn");
    assert_eq!(m.weapon_spawns[0].weapon_type, "pistol");
    assert_eq!(m.weapon_spawns[0].respawn_time, 30_000);
    assert_eq!(m.weapon_spawns[1].id, "rifle_spawn");
    assert_eq!(m.weapon_spawns[1].respawn_time, 30_000);

    assert_eq!(m.spawned_vehicles.len(), 2);
    assert_eq!(m.spawned_weapons.len(), 2);
    let car = &m.spawned_vehicles[0];
    assert_eq!(car.spawn_point_id, "car_spawn");
    assert!(car.item_id.starts_with("car_spawn_"));
    assert_eq!(car.item_id.len(), "car_spawn_".len() + 36);
    assert!(planet_server::ids::participant_from_text(&car.item_id["car_spawn_".len()..]).is_some());
    assert!(!car.picked_up);
    assert_eq!(car.last_pickup_time, None);

    assert_eq!(frames.len(), 4);
    match &frames[0] {
        ServerMessage::VehicleSpawned { vehicle_id, vehicle_type, position, rotation } => {
            assert_eq!(vehicle_id, &m.spawned_vehicles[0].item_id);
            assert_eq!(vehicle_type, "car");
            assert_eq!(*position, Position { x: 2_000, y: 32_000, z: 0 });
            assert_eq!(*rotation, Rotation { x: 0, y: 0, z: 0, w: 1000 });
        }
        other => panic!("unexpected {:?}", other),
    }
    match &frames[1] {
        ServerMessage::WeaponSpawn { weapon_id, weapon_type, position } => {
            assert_eq!(weapon_id, &m.spawned_weapons[0].item_id);
            assert_eq!(weapon_type, "pistol");
            assert_eq!(*position, Position { x: 3_000, y: 32_000, z: 0 });
        }
        other => panic!("unexpected {:?}", other),
    }
    assert!(matches!(&frames[2], ServerMessage::WeaponSpawn { weapon_type, .. } if weapon_type == "rifle"));
    assert!(matches!(&frames[3], ServerMessage::VehicleSpawned { vehicle_type, .. } if vehicle_type == "plane"));
}

#[test]
fn register_takes_the_rotation_of_the_object() {
    let mut m = SpawnManager::new();
    let mut obj = object(Some("s"), "player_spawn", 0, None);
    obj.rotation = Some(Rotation { x: 0, y: 707, z: 0, w: 707 });
    assert!(m.register(&obj).is_none());
    assert_eq!(m.spawn_points[0].rotation, Rotation { x: 0, y: 707, z: 0, w: 707 });
    assert!(m.register(&object(Some("w"), "wall", 0, Some(r#"{"weapon_type":"pistol"}"#))).is_none());
    assert!(m.weapon_spawns.is_empty());
}

#[test]
fn seed_takes_what_it_is_told_of_the_object() {
    let mut m = SpawnManager::new();
    let obj = object(Some("car_spawn"), "vehicle_spawn", 2_000, None);
    let frame = m.seed(&obj, Some("car".to_string()), Some(90), "car_spawn_1".to_string());
    match frame {
        Some(ServerMessage::VehicleSpawned { vehicle_id, vehicle_type, position, rotation }) => {
            assert_eq!(vehicle_id, "car_spawn_1");
            assert_eq!(vehicle_type, "car");
            assert_eq!(position, Position { x: 2_000, y: 32_000, z: 0 });
            assert_eq!(rotation, Rotation { x: 0, y: 0, z: 0, w: 1000 });
        }
        other => panic!("unexpected {:?}", other),
    }
    assert_eq!(m.vehicle_spawns.len(), 1);
    assert_eq!(m.vehicle_spawns[0].respawn_time, 90_000);
    assert_eq!(m.spawned_vehicles.len(), 1);
    assert_eq!(m.spawned_vehicles[0].item_id, "car_spawn_1");
    assert_eq!(m.spawned_vehicles[0].spawn_point_id, "car_spawn");

    assert!(m.seed(&obj, None, Some(90), "car_spawn_2".to_string()).is_none());
    assert_eq!(m.vehicle_spawns.len(), 1);

    let again = m.seed(&obj, Some("plane".to_string()), None, "car_spawn_1".to_string());
    assert!(again.is_some());
    assert_eq!(m.vehicle_spawns.len(), 2);
    assert_eq!(m.vehicle_spawns[1].respawn_time, 120_000);
    assert_eq!(m.spawned_vehicles.len(), 1);

    let weapon = object(Some("w"), "weapon_spawn", 0, None);
    let frame = m.seed(&weapon, Some("sniper".to_string()), None, "w_1".to_string());
    assert!(matches!(frame, Some(ServerMessage::WeaponSpawn { weapon_id, weapon_type, .. }) if weapon_id == "w_1" && weapon_type == "sniper"));
    assert_eq!(m.weapon_spawns[0].respawn_time, 30_000);

    let nameless = object(None, "weapon_spawn", 0, None);
    assert!(m.seed(&nameless, Some("sniper".to_string()), None, "x".to_string()).is_none());
    let spawn = object(Some("p"), "player_spawn", 7, None);
    assert!(m.seed(&spawn, Some("ignored".to_string()), Some(1), "x".to_string()).is_none());
    assert_eq!(m.spawn_points.len(), 1);
    assert_eq!(m.weapon_spawns.len(), 1);
}

#[test]
fn a_huge_respawn_time_saturates() {
    let mut m = SpawnManager::new();
    m.register(&object(Some("w"), "weapon_spawn", 0, Some(r#"{"weapon_type":"pistol","respawn_time":18446744073709551615}"#)));
    assert_eq!(m.weapon_spawns[0].respawn_time, u64::MAX);
}

#[test]
fn the_draw_picks_the_spawn_point() {
    let mut m = SpawnManager::new();
    for (i, id) in ["a", "b", "c"].iter().enumerate() {
        m.spawn_points.push(PlayerSpawnPoint {
            id: id.to_string(),
            position: Position { x: i as i32, y: 0, z: 0 },
            rotation: Rotation { x: 0, y: 0, z: 0, w: 1000 },
        });
    }
    assert_eq!(m.player_spawn_for(0).unwrap().id, "a");
    assert_eq!(m.player_spawn_for(1).unwrap().id, "b");
    assert_eq!(m.player_spawn_for(5).unwrap().id, "c");
    assert_eq!(m.player_spawn_for(usize::MAX).unwrap().id, ["a", "b", "c"][usize::MAX % 3]);
    let drawn = m.get_random_player_spawn().unwrap();
    assert!(["a", "b", "c"].contains(&drawn.id.as_str()));
}

fn pools_with_pistol() -> SpawnManager {
    let mut m = SpawnManager::new();
    m.weapon_spawns.push(WeaponSpawnPoint {
        id: "pistol_spawn".to_string(),
        weapon_type: "pistol".to_string(),
        position: Position { x: 3_000, y: 32_000, z: 0 },
        respawn_time: 30_000,
        occupied: false,
    });
    m.spawned_weapons.push(SpawnedItem {
        spawn_point_id: "pistol_spawn".to_string(),
        item_id: "pistol_1".to_string(),
        picked_up: false,
        last_pickup_time: None,
    });
    m
}

#[test]
fn an_item_is_picked_up_once() {
    let mut m = pools_with_pistol();
    assert!(!m.pickup_item("pistol_2", 1_000));
    assert!(m.pickup_item("pistol_1", 1_000));
    assert!(m.spawned_weapons[0].picked_up);
    assert_eq!(m.spawned_weapons[0].last_pickup_time, Some(1_000));
    assert!(m.weapon_spawns[0].occupied);
    assert!(!m.pickup_item("pistol_1", 2_000));
    assert_eq!(m.spawned_weapons[0].last_pickup_time, Some(1_000));
}

#[test]
fn a_vehicle_item_is_picked_up_when_no_weapon_answers() {
    let mut m = SpawnManager::new();
    m.initialize_from_level(&small_level());
    let car = m.spawned_vehicles[0].item_id.clone();
    assert!(m.pickup_item(&car, 500));
    assert!(m.spawned_vehicles[0].picked_up);
    assert!(m.vehicle_spawns[0].occupied);
    assert!(!m.vehicle_spawns[1].occupied);
    assert!(!m.spawned_weapons[0].picked_up);
}

#[test]
fn a_weapon_comes_back_when_its_time_has_passed() {
    let mut m = pools_with_pistol();
    m.pickup_item("pistol_1", 1_000);
    assert!(m.check_respawns(30_999).is_empty());
    assert!(m.spawned_weapons[0].picked_up);
    let frames = m.check_respawns(31_000);
    assert_eq!(frames.len(), 1);
    match &frames[0] {
        ServerMessage::WeaponSpawn { weapon_id, weapon_type, position } => {
            assert_eq!(weapon_id, "pistol_1");
            assert_eq!(weapon_type, "pistol");
            assert_eq!(*position, Position { x: 3_000, y: 32_000, z: 0 });
        }
        other => panic!("unexpected {:?}", other),
    }
    assert!(!m.spawned_weapons[0].picked_up);
    assert_eq!(m.spawned_weapons[0].last_pickup_time, None);
    assert!(!m.weapon_spawns[0].occupied);
    assert!(m.check_respawns(31_001).is_empty());
    assert!(m.pickup_item("pistol_1", 40_000));
}

#[test]
fn a_weapon_without_a_known_spawn_point_stays_taken() {
    let mut m = pools_with_pistol();
    m.spawned_weapons[0].spawn_point_id = "gone".to_string();
    assert!(m.pickup_item("pistol_1", 1_000));
    assert!(!m.weapon_spawns[0].occupied);
    assert!(m.check_respawns(u64::MAX).is_empty());
    assert!(m.spawned_weapons[0].picked_up);
}

#[test]
fn update_changes_nothing() {
    let mut m = pools_with_pistol();
    m.pickup_item("pistol_1", 1_000);
    m.update(1_000_000);
    assert!(m.spawned_weapons[0].picked_up);
    assert_eq!(m.weapon_spawns.len(), 1);
}
