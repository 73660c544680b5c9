use planet_server::game_state::{updates_due, platforms_due, AppState};
use planet_server::level::Level;
use planet_server::messages::{
    ClientMessage, LevelObject, Outbound, Position, Recipients, Rotation, ServerMessage, Vec3,
    Velocity,
};
use planet_server::origin::{LocalVector, Quaternion, WorldVector};
use planet_server::physics::{
    BodyReading, BodyState, ColliderHandle, PhysicsCommand, RigidBodyHandle, WaterVolume,
};
use planet_server::projectiles::Projectile;
use planet_server::router::{damage_of, random_spin, spin_part};
use planet_server::session::{plan_rock, plan_rock_from, RockPlan};

const A: u128 = 0xa;
const B: u128 = 0xb;
const A_TEXT: &str = "00000000-0000-0000-0000-00000000000a";
const B_TEXT: &str = "00000000-0000-0000-0000-00000000000b";

fn body(index: u32) -> RigidBodyHandle {
    RigidBodyHandle { index, generation: 0 }
}

fn collider(index: u32) -> ColliderHandle {
    ColliderHandle { index, generation: 0 }
}

fn level_object(id: &str, object_type: &str, properties: Option<&str>) -> LevelObject {
    LevelObject {
        id: Some(id.to_string()),
        object_type: object_type.to_string(),
        position: Position { x: -40_000, y: 32_000, z: -40_000 },
        rotation: None,
        scale: Some(Vec3 { x: 1_000, y: 1_000, z: 1_000 }),
        physics: None,
        properties: properties.map(|p| serde_json::from_str(p).unwrap()),
        terrain_data: None,
    }
}

fn empty_world() -> AppState {
    AppState::new(Level { objects: Vec::new() })
}

fn join(state: &mut AppState, id: u128, index: u32, now: u64) -> Vec<Outbound> {
    let plan = RockPlan { position: WorldVector::new(0, 100_000, 0), scale: 1_000 };
    state
        .connect(id, body(index), collider(index), plan, body(index + 100), collider(index + 100), now)
        .into_frames()
}

fn world_with_two() -> AppState {
    let mut state = empty_world();
    state.players.add_player(A, LocalVector::new(0, 80_000, 0), 0);
    state.players.add_player(B, LocalVector::new(0, 80_000, 0), 0);
    state.dynamic_objects.spawn_object(
        "rock_1",
        "rock".to_string(),
        WorldVector::new(5_000, 32_000, 0),
        Some(body(50)),
        Some(collider(50)),
        1_000,
        0,
    );
    state
}

#[test]
fn join_and_initial_state() {
    let mut state = AppState::new(Level {
        objects: vec![level_object("platform_1", "platform", None)],
    });
    let plan = plan_rock();
    assert_eq!(plan.position.y, 100_000);
    assert!((-10_000..=10_000).contains(&plan.position.x));
    assert!((-10_000..=10_000).contains(&plan.position.z));
    assert!((800..=1_200).contains(&plan.scale));
    let greeting = state.connect(A, body(1), collider(1), plan, body(2), collider(2), 1_000);
    let rock_id = greeting.rock_id.clone();
    assert!(rock_id.starts_with("rock_"));
    assert!(greeting.vehicles.is_empty());
    assert!(greeting.weapons.is_empty());
    assert!(greeting.objects.is_none());
    assert!(greeting.joined.is_empty());
    let frames = greeting.into_frames();
    assert_eq!(frames.len(), 4);
    assert_eq!(frames[0].to, Recipients::One(A));
    match &frames[0].message {
        ServerMessage::Welcome { player_id, spawn_position } => {
            assert_eq!(player_id, A_TEXT);
            assert_eq!(*spawn_position, Position { x: 0, y: 80_000, z: 0 });
        }
        other => panic!("unexpected {:?}", other),
    }
    assert_eq!(frames[1].to, Recipients::One(A));
    match &frames[1].message {
        ServerMessage::LevelData { objects } => {
            assert_eq!(objects.len(), 1);
            assert_eq!(objects[0].id.as_deref(), Some("platform_1"));
            assert_eq!(objects[0].object_type, "platform");
            assert_eq!(objects[0].position, Position { x: -40_000, y: 32_000, z: -40_000 });
            assert_eq!(objects[0].scale, Some(Vec3 { x: 1_000, y: 1_000, z: 1_000 }));
        }
        other => panic!("unexpected {:?}", other),
    }
    assert_eq!(frames[2].to, Recipients::One(A));
    assert!(matches!(&frames[2].message, ServerMessage::PlayersList { players } if players.is_empty()));
    assert_eq!(frames[3].to, Recipients::One(A));
    match &frames[3].message {
        ServerMessage::DynamicObjectSpawn { object_id, object_type, position, scale, .. } => {
            assert_eq!(object_id, &rock_id);
            assert_eq!(object_type, "rock");
            assert_eq!(position.y, 100_000);
            assert_eq!(position.x as i64, plan.position.x);
            assert_eq!(position.z as i64, plan.position.z);
            assert_eq!(*scale, plan.scale);
        }
        other => panic!("unexpected {:?}", other),
    }
    let p = state.players.get_player(A).unwrap();
    assert_eq!(p.position, LocalVector::new(0, 80_000, 0));
    assert_eq!(p.body_handle, Some(body(1)));
    assert_eq!(p.collider_handle, Some(collider(1)));
    assert_eq!(p.health, 100_000);
    let rock = state.dynamic_objects.get_object(&rock_id).unwrap();
    assert_eq!(rock.world_origin, plan.position);
    assert_eq!(rock.body_handle, Some(body(2)));
    assert_eq!(rock.created_at, 1_000);
}

#[test]
fn rock_plans_follow_the_draws() {
    assert_eq!(
        plan_rock_from(0, 20_000, 0),
        RockPlan { position: WorldVector::new(-10_000, 100_000, 10_000), scale: 800 }
    );
    assert_eq!(
        plan_rock_from(10_000, 20_001, 400),
        RockPlan { position: WorldVector::new(0, 100_000, -10_000), scale: 1_200 }
    );
    assert_eq!(plan_rock_from(u32::MAX, u32::MAX, u32::MAX).scale, 800 + (u32::MAX % 401) as i32);
}

#[test]
fn a_second_participant_is_shown_the_first() {
    let mut state = AppState::new(Level {
        objects: vec![
            level_object("car_spawn", "vehicle_spawn", Some(r#"{"vehicle_type":"car","respawn_time":90}"#)),
            level_object("pistol_spawn", "weapon_spawn", Some(r#"{"weapon_type":"pistol"}"#)),
        ],
    });
    let level = Level {
        objects: vec![
            level_object("car_spawn", "vehicle_spawn", Some(r#"{"vehicle_type":"car","respawn_time":90}"#)),
            level_object("pistol_spawn", "weapon_spawn", Some(r#"{"weapon_type":"pistol"}"#)),
        ],
    };
    state.spawn_manager.initialize_from_level(&level);
    state.vehicles.spawn_vehicle_with_id(
        "car_1".to_string(),
        "car".to_string(),
        WorldVector::new(-40_000, 32_000, -40_000),
        None,
        None,
        0,
    );
    state.dynamic_objects.spawn_object(
        "level_dynamic_platform_1",
        "dynamic_platform".to_string(),
        WorldVector::new(15_000, 44_500, 0),
        None,
        None,
        1_000,
        0,
    );
    join(&mut state, A, 1, 0);
    let greeting = {
        let plan = RockPlan { position: WorldVector::new(1, 100_000, 2), scale: 900 };
        state.connect(B, body(2), collider(2), plan, body(102), collider(102), 5_000)
    };
    assert_eq!(greeting.vehicles.len(), 1);
    match &greeting.vehicles[0].message {
        ServerMessage::VehicleSpawned { vehicle_id, vehicle_type, position, .. } => {
            assert_eq!(vehicle_id, "car_1");
            assert_eq!(vehicle_type, "car");
            assert_eq!(*position, Position { x: -40_000, y: 32_000, z: -40_000 });
        }
        other => panic!("unexpected {:?}", other),
    }
    assert_eq!(greeting.weapons.len(), 1);
    assert!(matches!(&greeting.weapons[0].message, ServerMessage::WeaponSpawn { weapon_type, .. } if weapon_type == "pistol"));
    match &greeting.players.message {
        ServerMessage::PlayersList { players } => {
            assert_eq!(players.len(), 1);
            assert_eq!(players[0].id, A_TEXT);
            assert_eq!(players[0].position, Position { x: 0, y: 80_000, z: 0 });
        }
        other => panic!("unexpected {:?}", other),
    }
    match &greeting.objects.as_ref().expect("the first rock is listed").message {
        ServerMessage::DynamicObjectsList { objects } => {
            assert_eq!(objects.len(), 1);
            assert!(objects[0].id.starts_with("rock_"));
        }
        other => panic!("unexpected {:?}", other),
    }
    assert_eq!(greeting.rock.len(), 2);
    assert_eq!(greeting.joined.len(), 1);
    assert_eq!(greeting.joined[0].to, Recipients::One(A));
    match &greeting.joined[0].message {
        ServerMessage::PlayerJoined { player_id, position } => {
            assert_eq!(player_id, B_TEXT);
            assert_eq!(*position, Position { x: 0, y: 80_000, z: 0 });
        }
        other => panic!("unexpected {:?}", other),
    }
    let count = greeting.vehicles.len() + greeting.weapons.len() + greeting.rock.len() + greeting.joined.len();
    assert_eq!(greeting.into_frames().len(), count + 4);
}

#[test]
fn two_player_view_consistency() {
    let mut state = empty_world();
    join(&mut state, A, 1, 0);
    join(&mut state, B, 2, 5_000);
    let still = Rotation { x: 0, y: 0, z: 0, w: 1000 };
    let r = state.player_update(A, Position { x: 100_000, y: 0, z: 0 }, still, Velocity { x: 0, y: 0, z: 0 }, true);
    assert_eq!(r.frames.len(), 1);
    assert_eq!(r.frames[0].to, Recipients::One(B));
    match &r.frames[0].message {
        ServerMessage::PlayerState { player_id, position, is_grounded, is_swimming, .. } => {
            assert_eq!(player_id, A_TEXT);
            assert_eq!(*position, Position { x: 100_000, y: 0, z: 0 });
            assert!(*is_grounded);
            assert!(!*is_swimming);
        }
        other => panic!("unexpected {:?}", other),
    }
    assert_eq!(state.players.get_player(A).unwrap().world_origin, WorldVector::zeros());
    assert_eq!(r.commands.len(), 1);
    match &r.commands[0] {
        PhysicsCommand::SetState { body: b, state: s } => {
            assert_eq!(*b, body(1));
            assert_eq!(s.position, LocalVector::new(100_000, 0, 0));
        }
        other => panic!("unexpected {:?}", other),
    }

    let r = state.player_update(A, Position { x: 1_100_000, y: 0, z: 0 }, still, Velocity { x: 0, y: 0, z: 0 }, true);
    assert_eq!(r.frames.len(), 2);
    assert_eq!(r.frames[0].to, Recipients::One(A));
    match &r.frames[0].message {
        ServerMessage::OriginUpdate { origin } => {
            assert_eq!(*origin, Position { x: 1_100_000, y: 0, z: 0 })
        }
        other => panic!("unexpected {:?}", other),
    }
    assert_eq!(r.frames[1].to, Recipients::One(B));
    match &r.frames[1].message {
        ServerMessage::PlayerState { position, .. } => {
            assert_eq!(*position, Position { x: 1_100_000, y: 0, z: 0 })
        }
        other => panic!("unexpected {:?}", other),
    }
    let a = state.players.get_player(A).unwrap();
    assert_eq!(a.world_origin, WorldVector::new(1_100_000, 0, 0));
    assert_eq!(a.position, LocalVector::zeros());

    let r = state.player_update(B, Position { x: 0, y: 0, z: 0 }, still, Velocity { x: 0, y: 0, z: 0 }, false);
    assert_eq!(r.frames.len(), 1);
    assert_eq!(r.frames[0].to, Recipients::One(A));
    match &r.frames[0].message {
        ServerMessage::PlayerState { position, .. } => {
            assert_eq!(*position, Position { x: -1_100_000, y: 0, z: 0 })
        }
        other => panic!("unexpected {:?}", other),
    }
}

#[test]
fn swimming_is_decided_by_the_water() {
    let mut state = world_with_two();
    state.physics.water_volumes.push(WaterVolume {
        collider: collider(9),
        center: LocalVector::new(15_000, 35_000, 0),
        size: Vec3 { x: 10_000, y: 3_000, z: 10_000 },
    });
    let still = Rotation { x: 0, y: 0, z: 0, w: 1000 };
    let msg = ClientMessage::PlayerUpdate {
        position: Position { x: 15_000, y: 35_000, z: 0 },
        rotation: still,
        velocity: Velocity { x: 0, y: 0, z: 0 },
        is_grounded: false,
        is_swimming: false,
    };
    let r = state.handle_client_message(A, msg, 0);
    assert!(state.players.get_player(A).unwrap().is_swimming);
    assert!(matches!(&r.frames[0].message, ServerMessage::PlayerState { is_swimming, .. } if *is_swimming));
    let msg = ClientMessage::PlayerUpdate {
        position: Position { x: 0, y: 80_000, z: 0 },
        rotation: still,
        velocity: Velocity { x: 0, y: 0, z: 0 },
        is_grounded: false,
        is_swimming: true,
    };
    state.handle_client_message(A, msg, 0);
    assert!(!state.players.get_player(A).unwrap().is_swimming);
    assert!(state.player_update(0xc, Position { x: 0, y: 0, z: 0 }, still, Velocity { x: 0, y: 0, z: 0 }, true).frames.is_empty());
}

#[test]
fn push_contention() {
    let mut state = world_with_two();
    let force = Velocity { x: 1_000, y: 200, z: 0 };
    let point = Position { x: 0, y: 0, z: 500 };
    let first = state.push_object(A, "rock_1", force, point, 1_000);
    assert_eq!(first.frames.len(), 1);
    assert_eq!(first.frames[0].to, Recipients::One(A));
    match &first.frames[0].message {
        ServerMessage::ObjectOwnershipGranted { object_id, player_id, duration_ms } => {
            assert_eq!(object_id, "rock_1");
            assert_eq!(player_id, A_TEXT);
            assert_eq!(*duration_ms, 5_000);
        }
        other => panic!("unexpected {:?}", other),
    }
    assert_eq!(first.commands.len(), 1);
    match &first.commands[0] {
        PhysicsCommand::Push { body: b, force: f, point: p, lift } => {
            assert_eq!(*b, body(50));
            assert_eq!(*f, LocalVector::new(1_000, 200, 0));
            assert_eq!(*p, LocalVector::new(0, 0, 500));
            assert!(*lift);
        }
        other => panic!("unexpected {:?}", other),
    }
    let second = state.push_object(B, "rock_1", force, point, 1_000);
    assert!(second.frames.is_empty());
    assert!(second.commands.is_empty());
    assert!(state.dynamic_objects.check_ownership("rock_1", A, 1_000));
    assert!(!state.dynamic_objects.check_ownership("rock_1", B, 1_000));

    let again = state.push_object(A, "rock_1", Velocity { x: 0, y: 100, z: 0 }, point, 2_000);
    assert!(again.frames.is_empty());
    assert_eq!(again.commands.len(), 1);
    assert!(matches!(&again.commands[0], PhysicsCommand::Push { lift, .. } if !*lift));
    assert_eq!(state.dynamic_objects.get_object("rock_1").unwrap().owner.unwrap().expires_at, 6_000);

    let late = state.push_object(B, "rock_1", force, point, 6_000);
    assert_eq!(late.frames.len(), 1);
    assert_eq!(late.commands.len(), 1);
    assert!(state.dynamic_objects.check_ownership("rock_1", B, 6_000));

    let nothing = state.push_object(A, "rock_9", force, point, 1_000);
    assert!(nothing.frames.is_empty() && nothing.commands.is_empty());
}

#[test]
fn a_grabbed_object_is_not_pushed_by_others() {
    let mut state = world_with_two();
    state.grab_object(A, "rock_1", Position { x: 0, y: 0, z: 0 }, 1_000);
    let r = state.push_object(B, "rock_1", Velocity { x: 1, y: 0, z: 0 }, Position { x: 0, y: 0, z: 0 }, 40_000);
    assert!(r.frames.is_empty() && r.commands.is_empty());
    assert!(state.dynamic_objects.get_object("rock_1").unwrap().is_owned_by(A));
}

#[test]
fn grab_throw_cycle() {
    let mut state = world_with_two();
    let r = state.handle_client_message(
        A,
        ClientMessage::GrabObject { object_id: "rock_1".to_string(), grab_point: Position { x: 0, y: 0, z: 0 } },
        1_000,
    );
    assert_eq!(r.frames.len(), 1);
    assert_eq!(r.frames[0].to, Recipients::All);
    match &r.frames[0].message {
        ServerMessage::ObjectGrabbed { object_id, player_id, grab_offset } => {
            assert_eq!(object_id, "rock_1");
            assert_eq!(player_id, A_TEXT);
            assert_eq!(*grab_offset, Position { x: 0, y: 0, z: 0 });
        }
        other => panic!("unexpected {:?}", other),
    }
    assert_eq!(r.commands.len(), 1);
    assert!(matches!(&r.commands[0], PhysicsCommand::SetBodyKinematic { body: b } if *b == body(50)));
    let o = state.dynamic_objects.get_object("rock_1").unwrap();
    assert!(o.is_kinematic_ghost);
    assert_eq!(o.owner.unwrap().expires_at, 31_000);

    for (i, x) in [5_000, 6_000, 7_000].iter().enumerate() {
        let target = Position { x: *x, y: 32_000 + 1_000 * i as i32, z: 0 };
        let r = state.handle_client_message(
            A,
            ClientMessage::MoveGrabbedObject { object_id: "rock_1".to_string(), target_position: target },
            2_000,
        );
        assert_eq!(r.frames.len(), 1);
        assert_eq!(r.frames[0].to, Recipients::AllExcept(A));
        assert!(matches!(&r.frames[0].message, ServerMessage::ObjectMoved { position, .. } if *position == target));
        assert_eq!(r.commands.len(), 1);
        match &r.commands[0] {
            PhysicsCommand::SetNextKinematicTranslation { body: b, target: t } => {
                assert_eq!(*b, body(50));
                assert_eq!(*t, LocalVector::new(target.x, target.y, target.z));
            }
            other => panic!("unexpected {:?}", other),
        }
    }
    assert_eq!(state.dynamic_objects.get_object("rock_1").unwrap().position, LocalVector::new(7_000, 34_000, 0));

    let r = state.handle_client_message(
        A,
        ClientMessage::ThrowObject {
            object_id: "rock_1".to_string(),
            throw_force: Velocity { x: 10_000, y: 5_000, z: 0 },
            release_point: Position { x: 7_000, y: 34_000, z: 0 },
        },
        3_000,
    );
    assert_eq!(r.commands.len(), 3);
    assert!(matches!(&r.commands[0], PhysicsCommand::SetBodyDynamic { body: b } if *b == body(50)));
    assert!(matches!(&r.commands[1], PhysicsCommand::SetLinearVelocity { velocity, .. } if *velocity == LocalVector::new(10_000, 5_000, 0)));
    let spin = match &r.commands[2] {
        PhysicsCommand::SetAngularVelocity { velocity, .. } => *velocity,
        other => panic!("unexpected {:?}", other),
    };
    assert!(spin.x.abs() <= 2_500 && spin.y.abs() <= 2_500 && spin.z.abs() <= 2_500);
    assert_eq!(r.frames.len(), 1);
    assert_eq!(r.frames[0].to, Recipients::All);
    match &r.frames[0].message {
        ServerMessage::ObjectThrown { object_id, player_id, position, velocity, angular_velocity } => {
            assert_eq!(object_id, "rock_1");
            assert_eq!(player_id, A_TEXT);
            assert_eq!(*position, Position { x: 7_000, y: 34_000, z: 0 });
            assert_eq!(*velocity, Velocity { x: 10_000, y: 5_000, z: 0 });
            assert_eq!(*angular_velocity, Velocity { x: spin.x, y: spin.y, z: spin.z });
        }
        other => panic!("unexpected {:?}", other),
    }
    let o = state.dynamic_objects.get_object("rock_1").unwrap();
    assert!(!o.is_grabbed());
    assert!(!o.is_kinematic_ghost);
}

#[test]
fn a_grab_offset_is_taken_off_the_target() {
    let mut state = world_with_two();
    state.grab_object(A, "rock_1", Position { x: 100, y: -50, z: 0 }, 0);
    let r = state.move_grabbed_object(A, "rock_1", Position { x: 5_000, y: 32_000, z: 0 }, 1);
    assert!(matches!(&r.commands[0], PhysicsCommand::SetNextKinematicTranslation { target, .. } if *target == LocalVector::new(4_900, 32_050, 0)));
    let r = state.move_grabbed_object(B, "rock_1", Position { x: 0, y: 0, z: 0 }, 2);
    assert!(r.frames.is_empty() && r.commands.is_empty());
}

#[test]
fn failed_grabs_are_told_to_the_grabber_alone() {
    let mut state = world_with_two();
    let r = state.grab_object(A, "rock_9", Position { x: 0, y: 0, z: 0 }, 0);
    assert_eq!(r.frames.len(), 1);
    assert_eq!(r.frames[0].to, Recipients::One(A));
    assert!(matches!(&r.frames[0].message, ServerMessage::GrabFailed { object_id, reason } if object_id == "rock_9" && reason == "Object not found"));
    state.grab_object(A, "rock_1", Position { x: 0, y: 0, z: 0 }, 0);
    let r = state.grab_object(B, "rock_1", Position { x: 0, y: 0, z: 0 }, 1);
    assert_eq!(r.frames[0].to, Recipients::One(B));
    assert!(matches!(&r.frames[0].message, ServerMessage::GrabFailed { reason, .. } if reason == "already grabbed"));
    assert!(r.commands.is_empty());
    assert!(state.dynamic_objects.get_object("rock_1").unwrap().is_grabbed_by(A));
}

#[test]
fn a_release_hands_the_body_back() {
    let mut state = world_with_two();
    state.grab_object(A, "rock_1", Position { x: 0, y: 0, z: 0 }, 0);
    let none = state.release_object_with(B, "rock_1", LocalVector::zeros());
    assert!(none.frames.is_empty() && none.commands.is_empty());
    let r = state.release_object_with(A, "rock_1", LocalVector::new(1, -2, 3));
    assert_eq!(r.commands.len(), 2);
    assert!(matches!(&r.commands[0], PhysicsCommand::SetBodyDynamic { .. }));
    assert!(matches!(&r.commands[1], PhysicsCommand::SetAngularVelocity { velocity, .. } if *velocity == LocalVector::new(1, -2, 3)));
    assert_eq!(r.frames[0].to, Recipients::All);
    match &r.frames[0].message {
        ServerMessage::ObjectReleased { object_id, player_id, position, velocity } => {
            assert_eq!(object_id, "rock_1");
            assert_eq!(player_id, A_TEXT);
            assert_eq!(*position, Position { x: 0, y: 0, z: 0 });
            assert!(velocity.is_none());
        }
        other => panic!("unexpected {:?}", other),
    }
    let o = state.dynamic_objects.get_object("rock_1").unwrap();
    assert!(o.is_owned_by(A));
    assert!(!o.is_grabbed());
    let r = state.handle_client_message(A, ClientMessage::ReleaseObject { object_id: "rock_1".to_string() }, 5);
    assert!(r.frames.is_empty());
}

#[test]
fn spins_stay_within_their_bounds() {
    assert_eq!(spin_part(0), -2_500);
    assert_eq!(spin_part(5_000), 2_500);
    assert_eq!(spin_part(5_001), -2_500);
    assert_eq!(spin_part(2_500), 0);
    for _ in 0..32 {
        let s = random_spin();
        assert!(s.x.abs() <= 2_500 && s.y.abs() <= 2_500 && s.z.abs() <= 2_500);
    }
}

#[test]
fn vehicle_destruction_and_respawn() {
    let mut state = world_with_two();
    state.vehicles.spawn_vehicle_with_id(
        "car_1".to_string(),
        "car".to_string(),
        WorldVector::new(-40_000, 32_000, -40_000),
        None,
        None,
        0,
    );
    let r = state.enter_vehicle(A, "car_1".to_string());
    assert_eq!(r.frames.len(), 1);
    assert_eq!(r.frames[0].to, Recipients::AllExcept(A));
    assert!(matches!(&r.frames[0].message, ServerMessage::PlayerEnteredVehicle { player_id, vehicle_id } if player_id == A_TEXT && vehicle_id == "car_1"));
    assert_eq!(state.players.get_player(A).unwrap().current_vehicle_id.as_deref(), Some("car_1"));
    state.vehicles.set_handles("car_1", Some(body(60)), Some(collider(60)));
    let now = 10_000;
    let r = state.damage_vehicle("car_1", 50_000, Some(B), now - 1);
    assert_eq!(r.frames.len(), 1);
    assert_eq!(r.frames[0].to, Recipients::All);
    match &r.frames[0].message {
        ServerMessage::VehicleDamaged { vehicle_id, damage, health, attacker_id } => {
            assert_eq!(vehicle_id, "car_1");
            assert_eq!(*damage, 50_000);
            assert_eq!(*health, 150_000);
            assert_eq!(attacker_id.as_deref(), Some(B_TEXT));
        }
        other => panic!("unexpected {:?}", other),
    }
    assert_eq!(state.vehicles.get_vehicle("car_1").unwrap().pilot_id, Some(A));
    let r = state.damage_vehicle("car_1", 150_000, None, now);
    assert_eq!(r.frames.len(), 2);
    assert!(matches!(&r.frames[0].message, ServerMessage::VehicleDamaged { health, attacker_id, .. } if *health == 0 && attacker_id.is_none()));
    assert!(matches!(&r.frames[1].message, ServerMessage::VehicleDestroyed { vehicle_id, destroyer_id } if vehicle_id == "car_1" && destroyer_id.is_none()));
    let v = state.vehicles.get_vehicle("car_1").unwrap();
    assert!(v.is_destroyed);
    assert_eq!(v.pilot_id, None);
    assert_eq!(v.respawn_time, Some(now + 90_000));
    assert_eq!(state.players.get_player(A).unwrap().current_vehicle_id, None);
    assert!(state.damage_vehicle("car_1", 1, None, now).frames.is_empty());
    assert!(state.damage_vehicle("car_9", 1, None, now).frames.is_empty());
    let early = state.respawn_vehicles(now + 89_999);
    assert!(early.frames.is_empty() && early.commands.is_empty());
    let r = state.respawn_vehicles(now + 90_000);
    assert_eq!(r.frames.len(), 1);
    assert_eq!(r.frames[0].to, Recipients::All);
    match &r.frames[0].message {
        ServerMessage::VehicleSpawned { vehicle_id, vehicle_type, position, rotation } => {
            assert_eq!(vehicle_id, "car_1");
            assert_eq!(vehicle_type, "car");
            assert_eq!(*position, Position { x: -40_000, y: 32_000, z: -40_000 });
            assert_eq!(*rotation, Rotation { x: 0, y: 0, z: 0, w: 1000 });
        }
        other => panic!("unexpected {:?}", other),
    }
    assert_eq!(r.commands.len(), 2);
    assert!(matches!(&r.commands[0], PhysicsCommand::RemoveBody { body: b } if *b == body(60)));
    match &r.commands[1] {
        PhysicsCommand::CreateVehicleBody { vehicle_id, vehicle_type, position } => {
            assert_eq!(vehicle_id, "car_1");
            assert_eq!(vehicle_type, "car");
            assert_eq!(*position, WorldVector::new(-40_000, 32_000, -40_000));
        }
        other => panic!("unexpected {:?}", other),
    }
    assert_eq!(state.vehicles.get_vehicle("car_1").unwrap().health, 200_000);
    assert!(state.respawn_vehicles(now + 90_001).frames.is_empty());
}

#[test]
fn a_car_destroyed_at_once_comes_back_after_ninety_seconds() {
    let mut state = world_with_two();
    state.vehicles.spawn_vehicle_with_id(
        "car_1".to_string(),
        "car".to_string(),
        WorldVector::new(-40_000, 32_000, -40_000),
        None,
        None,
        0,
    );
    assert_eq!(state.vehicles.get_vehicle("car_1").unwrap().health, 200_000);
    let r = state.damage_vehicle("car_1", 200_000, Some(A), 1_000);
    assert_eq!(r.frames.len(), 2);
    let v = state.vehicles.get_vehicle("car_1").unwrap();
    assert!(v.is_destroyed);
    assert_eq!(v.respawn_time, Some(91_000));
    assert!(state.respawn_vehicles(90_999).frames.is_empty());
    let r = state.respawn_vehicles(91_000);
    assert_eq!(r.frames.len(), 1);
    assert_eq!(r.commands.len(), 1);
    assert_eq!(state.vehicles.get_vehicle("car_1").unwrap().health, 200_000);
}

#[test]
fn entering_needs_a_vehicle_that_stands() {
    let mut state = world_with_two();
    assert!(state.enter_vehicle(A, "car_1".to_string()).frames.is_empty());
    state.vehicles.spawn_vehicle_with_id("car_1".to_string(), "car".to_string(), WorldVector::zeros(), None, None, 0);
    assert!(state.enter_vehicle(0xc, "car_1".to_string()).frames.is_empty());
    state.vehicles.damage_vehicle("car_1", 999_999, 0);
    assert!(state.enter_vehicle(A, "car_1".to_string()).frames.is_empty());
    assert_eq!(state.players.get_player(A).unwrap().current_vehicle_id, None);
}

#[test]
fn leaving_a_vehicle_puts_the_body_at_the_exit() {
    let mut state = empty_world();
    join(&mut state, A, 1, 0);
    state.vehicles.spawn_vehicle_with_id("car_1".to_string(), "car".to_string(), WorldVector::zeros(), None, None, 0);
    assert!(state.exit_vehicle(A, None).frames.is_empty());
    state.enter_vehicle(A, "car_1".to_string());
    let r = state.exit_vehicle(A, Some(Position { x: 1, y: 2, z: 3 }));
    assert_eq!(r.frames.len(), 1);
    assert_eq!(r.frames[0].to, Recipients::AllExcept(A));
    match &r.frames[0].message {
        ServerMessage::PlayerExitedVehicle { player_id, vehicle_id, exit_position } => {
            assert_eq!(player_id, A_TEXT);
            assert_eq!(vehicle_id, "car_1");
            assert_eq!(*exit_position, Position { x: 1, y: 2, z: 3 });
        }
        other => panic!("unexpected {:?}", other),
    }
    assert_eq!(r.commands.len(), 1);
    assert!(matches!(&r.commands[0], PhysicsCommand::Teleport { body: b, position } if *b == body(1) && *position == LocalVector::new(1, 2, 3)));
    assert_eq!(state.vehicles.get_vehicle("car_1").unwrap().pilot_id, None);
    assert_eq!(state.players.get_player(A).unwrap().current_vehicle_id, None);
    state.enter_vehicle(A, "car_1".to_string());
    let r = state.handle_client_message(A, ClientMessage::ExitVehicle { exit_position: None }, 0);
    assert!(matches!(&r.commands[0], PhysicsCommand::Teleport { position, .. } if *position == LocalVector::zeros()));
}

#[test]
fn disconnect_mid_grab() {
    let mut state = empty_world();
    join(&mut state, A, 1, 0);
    join(&mut state, B, 2, 0);
    state.dynamic_objects.spawn_object("rock_1", "rock".to_string(), WorldVector::zeros(), Some(body(50)), None, 1_000, 0);
    state.dynamic_objects.spawn_object("rock_2", "rock".to_string(), WorldVector::zeros(), None, None, 1_000, 0);
    state.grab_object(A, "rock_1", Position { x: 0, y: 0, z: 0 }, 1_000);
    state.push_object(A, "rock_2", Velocity { x: 1, y: 0, z: 0 }, Position { x: 0, y: 0, z: 0 }, 1_000);
    let r = state.disconnect(A);
    assert_eq!(r.frames.len(), 1);
    assert_eq!(r.frames[0].to, Recipients::All);
    assert!(matches!(&r.frames[0].message, ServerMessage::PlayerLeft { player_id } if player_id == A_TEXT));
    assert_eq!(r.commands.len(), 2);
    assert!(matches!(&r.commands[0], PhysicsCommand::SetBodyDynamic { body: b } if *b == body(50)));
    assert!(matches!(&r.commands[1], PhysicsCommand::RemoveBody { body: b } if *b == body(1)));
    let rock = state.dynamic_objects.get_object("rock_1").unwrap();
    assert_eq!(rock.grabbed_by, None);
    assert_eq!(rock.owner, None);
    assert!(!rock.is_kinematic_ghost);
    assert_eq!(state.dynamic_objects.get_object("rock_2").unwrap().owner, None);
    assert!(state.players.get_player(A).is_none());
    assert!(state.players.get_player(B).is_some());
    for o in state.dynamic_objects.iter() {
        assert!(!o.is_grabbed_by(A) && !o.is_owned_by(A));
    }
    let again = state.disconnect(A);
    assert_eq!(again.frames.len(), 1);
    assert!(again.commands.is_empty());
}

#[test]
fn weapon_damage_by_type() {
    assert_eq!(damage_of("pistol"), 25_000);
    assert_eq!(damage_of("rifle"), 35_000);
    assert_eq!(damage_of("shotgun"), 80_000);
    assert_eq!(damage_of("sniper"), 120_000);
    assert_eq!(damage_of("grenadeLauncher"), 150_000);
    assert_eq!(damage_of("rocketLauncher"), 200_000);
    assert_eq!(damage_of("spoon"), 10_000);
    assert_eq!(damage_of(""), 10_000);
}

fn fire(state: &mut AppState, shooter: u128, weapon: &str, hit: Option<&str>, now: u64) -> Vec<Outbound> {
    state
        .fire_weapon(
            shooter,
            weapon.to_string(),
            Position { x: 1, y: 2, z: 3 },
            Velocity { x: 0, y: 0, z: -1_000 },
            hit.map(|s| s.to_string()),
            now,
        )
        .frames
}

#[test]
fn a_hit_damages_and_a_kill_is_told() {
    let mut state = world_with_two();
    let frames = fire(&mut state, A, "shotgun", Some(B_TEXT), 1_000);
    assert_eq!(frames.len(), 2);
    assert_eq!(frames[0].to, Recipients::All);
    match &frames[0].message {
        ServerMessage::PlayerDamaged { player_id, damage, damage_type, attacker_id, health, armor } => {
            assert_eq!(player_id, B_TEXT);
            assert_eq!(*damage, 80_000);
            assert_eq!(damage_type.as_deref(), Some("shotgun"));
            assert_eq!(attacker_id.as_deref(), Some(A_TEXT));
            assert_eq!(*health, 20_000);
            assert_eq!(*armor, 0);
        }
        other => panic!("unexpected {:?}", other),
    }
    assert_eq!(frames[1].to, Recipients::AllExcept(A));
    match &frames[1].message {
        ServerMessage::WeaponFire { player_id, weapon_type, origin, direction, projectile_id } => {
            assert_eq!(player_id, A_TEXT);
            assert_eq!(weapon_type, "shotgun");
            assert_eq!(*origin, Position { x: 1, y: 2, z: 3 });
            assert_eq!(*direction, Velocity { x: 0, y: 0, z: -1_000 });
            assert!(projectile_id.is_none());
        }
        other => panic!("unexpected {:?}", other),
    }
    let frames = fire(&mut state, A, "pistol", Some(B_TEXT), 2_000);
    assert_eq!(frames.len(), 3);
    assert!(matches!(&frames[0].message, ServerMessage::PlayerDamaged { health, .. } if *health == 0));
    match &frames[1].message {
        ServerMessage::PlayerKilled { player_id, killer_id, weapon_type } => {
            assert_eq!(player_id, B_TEXT);
            assert_eq!(killer_id.as_deref(), Some(A_TEXT));
            assert_eq!(weapon_type.as_deref(), Some("pistol"));
        }
        other => panic!("unexpected {:?}", other),
    }
    let b = state.players.get_player(B).unwrap();
    assert!(b.is_dead);
    assert_eq!(b.respawn_time, Some(7_000));
    assert!(fire(&mut state, B, "pistol", Some(A_TEXT), 3_000).is_empty());
    assert_eq!(state.players.get_player(A).unwrap().health, 100_000);
}

#[test]
fn a_shot_that_hits_nobody_known_is_only_told() {
    let mut state = world_with_two();
    assert_eq!(fire(&mut state, A, "rifle", None, 0).len(), 1);
    assert_eq!(fire(&mut state, A, "rifle", Some(A_TEXT), 0).len(), 1);
    assert_eq!(fire(&mut state, A, "rifle", Some("nobody"), 0).len(), 1);
    assert_eq!(fire(&mut state, A, "rifle", Some("00000000-0000-0000-0000-00000000000c"), 0).len(), 1);
    assert_eq!(state.players.get_player(A).unwrap().health, 100_000);
    assert_eq!(state.players.get_player(B).unwrap().health, 100_000);
}

#[test]
fn a_pickup_heals_arms_and_is_told() {
    let mut state = world_with_two();
    for id in ["health_pack_1", "armor_vest_1", "pistol_1"] {
        state.spawn_manager.spawned_weapons.push(planet_server::spawns::SpawnedItem {
            spawn_point_id: "nowhere".to_string(),
            item_id: id.to_string(),
            picked_up: false,
            last_pickup_time: None,
        });
    }
    state.players.damage_player(A, 70_000, 0);
    let r = state.pickup_item(A, "health_pack_1".to_string(), 1_000);
    assert_eq!(r.frames.len(), 2);
    assert_eq!(r.frames[0].to, Recipients::All);
    assert!(matches!(&r.frames[0].message, ServerMessage::ItemPickedUp { item_id, player_id } if item_id == "health_pack_1" && player_id == A_TEXT));
    assert_eq!(r.frames[1].to, Recipients::One(A));
    assert!(matches!(&r.frames[1].message, ServerMessage::PlayerHealth { health, armor, .. } if *health == 80_000 && *armor == 0));
    let r = state.pickup_item(A, "armor_vest_1".to_string(), 1_000);
    assert!(matches!(&r.frames[1].message, ServerMessage::PlayerHealth { health, armor, .. } if *health == 80_000 && *armor == 50_000));
    let r = state.pickup_item(A, "pistol_1".to_string(), 1_000);
    assert!(matches!(&r.frames[1].message, ServerMessage::PlayerHealth { health, armor, .. } if *health == 80_000 && *armor == 50_000));
    assert!(state.pickup_item(A, "pistol_1".to_string(), 1_001).frames.is_empty());
    assert!(state.pickup_item(A, "unknown".to_string(), 1_001).frames.is_empty());
    assert!(state.pickup_item(0xc, "unknown".to_string(), 1_001).frames.is_empty());
}

#[test]
fn the_dead_pick_up_nothing() {
    let mut state = world_with_two();
    state.spawn_manager.spawned_weapons.push(planet_server::spawns::SpawnedItem {
        spawn_point_id: "nowhere".to_string(),
        item_id: "health_1".to_string(),
        picked_up: false,
        last_pickup_time: None,
    });
    state.players.damage_player(A, 100_000, 0);
    let r = state.handle_client_message(A, ClientMessage::PickupItem { item_id: "health_1".to_string() }, 10);
    assert!(r.frames.is_empty());
    assert!(!state.spawn_manager.spawned_weapons[0].picked_up);
    assert_eq!(state.players.get_player(A).unwrap().health, 0);
}

#[test]
fn the_dead_come_back_when_due() {
    let mut state = empty_world();
    join(&mut state, A, 1, 0);
    join(&mut state, B, 2, 0);
    state.players.damage_player(A, 100_000, 1_000);
    let r = state.handle_client_message(A, ClientMessage::RequestRespawn, 2_000);
    assert!(r.frames.is_empty());
    assert_eq!(state.players.get_player(A).unwrap().respawn_time, Some(6_000));
    assert!(state.respawn_players(5_999).frames.is_empty());
    let r = state.respawn_players(6_000);
    assert_eq!(r.frames.len(), 1);
    assert_eq!(r.frames[0].to, Recipients::All);
    match &r.frames[0].message {
        ServerMessage::PlayerRespawned { player_id, position, health } => {
            assert_eq!(player_id, A_TEXT);
            assert_eq!(*position, Position { x: 0, y: 80_000, z: 0 });
            assert_eq!(*health, 100_000);
        }
        other => panic!("unexpected {:?}", other),
    }
    assert_eq!(r.commands.len(), 1);
    assert!(matches!(&r.commands[0], PhysicsCommand::Teleport { body: b, position } if *b == body(1) && *position == LocalVector::new(0, 80_000, 0)));
    let a = state.players.get_player(A).unwrap();
    assert!(!a.is_dead);
    assert_eq!(a.health, 100_000);
    assert!(state.respawn_players(7_000).frames.is_empty());
}

#[test]
fn unhandled_frames_change_nothing() {
    let mut state = world_with_two();
    let r = state.handle_client_message(A, ClientMessage::ReloadWeapon, 0);
    assert!(r.frames.is_empty() && r.commands.is_empty());
    let r = state.handle_client_message(
        A,
        ClientMessage::DynamicObjectUpdate {
            object_id: "rock_1".to_string(),
            position: Position { x: 9, y: 9, z: 9 },
            rotation: Rotation { x: 0, y: 0, z: 0, w: 1000 },
            velocity: Velocity { x: 9, y: 9, z: 9 },
        },
        0,
    );
    assert!(r.frames.is_empty() && r.commands.is_empty());
    assert_eq!(state.dynamic_objects.get_object("rock_1").unwrap().world_origin, WorldVector::new(5_000, 32_000, 0));
}

#[test]
fn before_the_step_leases_run_out_and_old_objects_go() {
    let mut state = world_with_two();
    state.dynamic_objects.spawn_object("young", "rock".to_string(), WorldVector::zeros(), None, None, 1_000, 170_000);
    state.grab_object(A, "rock_1", Position { x: 0, y: 0, z: 0 }, 1_000);
    let prep = state.before_step(30_999);
    assert!(prep.leases.frames.is_empty() && prep.evicted.frames.is_empty());
    let prep = state.before_step(31_000);
    assert_eq!(prep.leases.frames.len(), 1);
    assert_eq!(prep.leases.frames[0].to, Recipients::All);
    assert!(matches!(&prep.leases.frames[0].message, ServerMessage::ObjectOwnershipRevoked { object_id } if object_id == "rock_1"));
    assert_eq!(prep.leases.commands.len(), 1);
    assert!(matches!(&prep.leases.commands[0], PhysicsCommand::SetBodyDynamic { body: b } if *b == body(50)));
    assert!(!state.dynamic_objects.get_object("rock_1").unwrap().is_grabbed());
    let prep = state.before_step(180_001);
    assert_eq!(prep.evicted.frames.len(), 1);
    assert!(matches!(&prep.evicted.frames[0].message, ServerMessage::DynamicObjectRemove { object_id } if object_id == "rock_1"));
    assert_eq!(prep.evicted.commands.len(), 1);
    assert!(matches!(&prep.evicted.commands[0], PhysicsCommand::RemoveBody { body: b } if *b == body(50)));
    assert!(state.dynamic_objects.get_object("rock_1").is_none());
    assert!(state.dynamic_objects.get_object("young").is_some());
}

fn reading(index: u32, x: i32) -> BodyReading {
    BodyReading {
        body: body(index),
        state: BodyState {
            position: LocalVector::new(x, 32_000, 0),
            rotation: Quaternion::identity(),
            velocity: LocalVector::new(1, 0, 0),
        },
        angular_velocity: LocalVector::zeros(),
    }
}

#[test]
fn after_the_step_state_goes_out_every_second_tick() {
    let mut state = world_with_two();
    let mut b = state.players.get_player(B).unwrap();
    b.world_origin = WorldVector::new(1_000, 0, 0);
    state.players.put_player(B, b);
    state.vehicles.spawn_vehicle_with_id("car_1".to_string(), "car".to_string(), WorldVector::new(0, 32_000, 0), None, Some(A), 0);
    state.projectiles.launch(
        "p1",
        Projectile {
            id: "p1".to_string(),
            kind: "rocket".to_string(),
            owner_id: A,
            position: LocalVector::new(1, 2, 3),
            velocity: LocalVector::zeros(),
            rotation: Quaternion::identity(),
            damage: 0,
            explosion_radius: None,
            body_handle: None,
            created_at: 0,
            lifetime: 1_000,
            is_homing: false,
            target_id: None,
        },
    );
    assert!(state.after_step(&vec![reading(50, 6_000)], 16).is_empty());
    let report = state.finish_tick(16, 1);
    assert!(report.object_updates.is_empty());
    assert!(report.vehicle_updates.is_empty());
    assert!(report.projectile_updates.is_empty());
    assert_eq!(state.dynamic_objects.get_object("rock_1").unwrap().world_origin, WorldVector::new(6_000, 32_000, 0));

    assert!(state.after_step(&vec![reading(50, 7_000)], 32).is_empty());
    let report = state.finish_tick(32, 2);
    assert_eq!(report.object_updates.len(), 1);
    let mut group: Vec<&Outbound> = report.object_updates[0].iter().collect();
    group.sort_by_key(|f| match f.to {
        Recipients::One(id) => id,
        _ => 0,
    });
    assert_eq!(group.len(), 2);
    assert_eq!(group[0].to, Recipients::One(A));
    match &group[0].message {
        ServerMessage::DynamicObjectUpdate { object_id, position, velocity, .. } => {
            assert_eq!(object_id, "rock_1");
            assert_eq!(*position, Position { x: 7_000, y: 32_000, z: 0 });
            assert_eq!(*velocity, Velocity { x: 1, y: 0, z: 0 });
        }
        other => panic!("unexpected {:?}", other),
    }
    assert_eq!(group[1].to, Recipients::One(B));
    assert!(matches!(&group[1].message, ServerMessage::DynamicObjectUpdate { position, .. } if *position == Position { x: 6_000, y: 32_000, z: 0 }));
    assert_eq!(report.vehicle_updates.len(), 1);
    assert_eq!(report.vehicle_updates[0].len(), 2);
    for f in &report.vehicle_updates[0] {
        match &f.message {
            ServerMessage::VehicleUpdate { vehicle_id, health, pilot_id, position, .. } => {
                assert_eq!(vehicle_id, "car_1");
                assert_eq!(*health, 200_000);
                assert_eq!(pilot_id.as_deref(), Some(A_TEXT));
                let expected = if f.to == Recipients::One(B) { -1_000 } else { 0 };
                assert_eq!(position.x, expected);
            }
            other => panic!("unexpected {:?}", other),
        }
    }
    assert_eq!(report.projectile_updates.len(), 1);
    assert_eq!(report.projectile_updates[0].to, Recipients::All);
    assert!(matches!(&report.projectile_updates[0].message, ServerMessage::ProjectileUpdate { projectile_id, position, .. } if projectile_id == "p1" && *position == Position { x: 1, y: 2, z: 3 }));
    assert!(report.fizzled.is_empty());

    assert!(state.after_step(&Vec::new(), 1_001).is_empty());
    let report = state.finish_tick(1_001, 3);
    assert_eq!(report.fizzled.len(), 1);
    assert_eq!(report.fizzled[0].to, Recipients::All);
    match &report.fizzled[0].message {
        ServerMessage::ProjectileImpact { projectile_id, position, explosion_radius, damage } => {
            assert_eq!(projectile_id, "p1");
            assert_eq!(*position, Position { x: 0, y: 0, z: 0 });
            assert!(explosion_radius.is_none());
            assert_eq!(*damage, 0);
        }
        other => panic!("unexpected {:?}", other),
    }
    assert!(state.projectiles.get_projectile("p1").is_none());
}

#[test]
fn cadences() {
    assert!(updates_due(0));
    assert!(!updates_due(1));
    assert!(updates_due(2));
    assert!(platforms_due(0));
    assert!(!platforms_due(1));
    assert!(!platforms_due(2));
    assert!(platforms_due(3));
    assert!(updates_due(u64::MAX - 1));
}

#[test]
fn platform_frames_name_the_platforms_by_place() {
    let frames = AppState::platform_frames(&vec![LocalVector::new(1, 2, 3), LocalVector::new(4, 5, 6)]);
    assert_eq!(frames.len(), 2);
    assert_eq!(frames[0].to, Recipients::All);
    assert!(matches!(&frames[0].message, ServerMessage::PlatformUpdate { platform_id, position } if platform_id == "moving_platform_0" && *position == Position { x: 1, y: 2, z: 3 }));
    assert!(matches!(&frames[1].message, ServerMessage::PlatformUpdate { platform_id, position } if platform_id == "moving_platform_1" && *position == Position { x: 4, y: 5, z: 6 }));
}

#[test]
fn homing_tasks_find_their_targets() {
    let mut state = world_with_two();
    let mut b = state.players.get_player(B).unwrap();
    b.position = LocalVector::new(7, 8, 9);
    state.players.put_player(B, b);
    state.vehicles.spawn_vehicle_with_id("car_1".to_string(), "car".to_string(), WorldVector::zeros(), None, None, 0);
    let seeker = |id: &str, target: Option<&str>, homing: bool| Projectile {
        id: id.to_string(),
        kind: "missile".to_string(),
        owner_id: A,
        position: LocalVector::new(1, 1, 1),
        velocity: LocalVector::new(0, 0, -1),
        rotation: Quaternion::identity(),
        damage: 1,
        explosion_radius: None,
        body_handle: Some(body(77)),
        created_at: 0,
        lifetime: 1_000,
        is_homing: homing,
        target_id: target.map(|t| t.to_string()),
    };
    state.projectiles.launch("at_car", seeker("at_car", Some("car_1"), true));
    state.projectiles.launch("at_b", seeker("at_b", Some(B_TEXT), true));
    state.projectiles.launch("at_none", seeker("at_none", Some("ghost"), true));
    state.projectiles.launch("dumb", seeker("dumb", Some("car_1"), false));
    state.projectiles.launch("aimless", seeker("aimless", None, true));
    let mut tasks = state.homing_tasks();
    tasks.sort_by(|x, y| x.projectile_id.cmp(&y.projectile_id));
    assert_eq!(tasks.len(), 2);
    assert_eq!(tasks[0].projectile_id, "at_b");
    assert_eq!(tasks[0].target_position, LocalVector::new(7, 8, 9));
    assert_eq!(tasks[0].body_handle, Some(body(77)));
    assert_eq!(tasks[0].position, LocalVector::new(1, 1, 1));
    assert_eq!(tasks[1].projectile_id, "at_car");
    assert_eq!(tasks[1].target_position, LocalVector::zeros());
    assert_eq!(state.target_position("ghost"), None);
    assert_eq!(state.target_position_of("ghost", Some(B)), Some(LocalVector::new(7, 8, 9)));
    assert_eq!(state.target_position_of("car_1", Some(B)), Some(LocalVector::zeros()));
    assert_eq!(state.target_position_of("ghost", Some(0xc)), None);
    assert_eq!(state.target_position_of("ghost", None), None);
}

#[test]
fn a_shot_is_settled_by_the_participant_it_is_known_to_have_hit() {
    let mut state = world_with_two();
    let shot = |state: &mut AppState, hit: Option<&str>, hit_id: Option<u128>| {
        state
            .fire_weapon_at(
                A,
                "rifle".to_string(),
                Position { x: 0, y: 0, z: 0 },
                Velocity { x: 0, y: 0, z: 0 },
                hit.map(|s| s.to_string()),
                hit_id,
                0,
            )
            .frames
    };
    assert_eq!(shot(&mut state, Some("whoever"), Some(B)).len(), 2);
    assert_eq!(state.players.get_player(B).unwrap().health, 65_000);
    assert_eq!(shot(&mut state, None, Some(B)).len(), 1);
    assert_eq!(shot(&mut state, Some("whoever"), None).len(), 1);
    assert_eq!(shot(&mut state, Some("whoever"), Some(A)).len(), 1);
    assert_eq!(shot(&mut state, Some("whoever"), Some(0xc)).len(), 1);
    assert_eq!(state.players.get_player(B).unwrap().health, 65_000);
    assert_eq!(state.players.get_player(A).unwrap().health, 100_000);
}

#[test]
fn recentering_in_the_tick_tells_only_who_moved() {
    let mut state = world_with_two();
    let mut a = state.players.get_player(A).unwrap();
    a.position = LocalVector::new(0, 0, -1_500_000);
    state.players.put_player(A, a);
    let frames = state.recenter_anchors();
    assert_eq!(frames.len(), 1);
    assert_eq!(frames[0].to, Recipients::One(A));
    assert!(matches!(&frames[0].message, ServerMessage::OriginUpdate { origin } if *origin == Position { x: 0, y: 0, z: -1_500_000 }));
    assert!(state.recenter_anchors().is_empty());
}

#[test]
fn weapons_come_back_in_the_tick() {
    let mut state = world_with_two();
    let level = Level {
        objects: vec![level_object("pistol_spawn", "weapon_spawn", Some(r#"{"weapon_type":"pistol","respawn_time":30}"#))],
    };
    state.spawn_manager.initialize_from_level(&level);
    let id = state.spawn_manager.spawned_weapons[0].item_id.clone();
    assert_eq!(state.pickup_item(A, id.clone(), 1_000).frames.len(), 2);
    assert!(state.respawn_weapons(30_999).is_empty());
    let frames = state.respawn_weapons(31_000);
    assert_eq!(frames.len(), 1);
    assert_eq!(frames[0].to, Recipients::All);
    assert!(matches!(&frames[0].message, ServerMessage::WeaponSpawn { weapon_id, weapon_type, .. } if *weapon_id == id && weapon_type == "pistol"));
}

#[test]
fn vehicles_are_placed_at_their_spawn_points() {
    let level = Level {
        objects: vec![level_object("car_spawn", "vehicle_spawn", Some(r#"{"vehicle_type":"car","respawn_time":90}"#))],
    };
    let mut state = empty_world();
    state.spawn_manager.initialize_from_level(&level);
    let id = state.spawn_manager.spawned_vehicles[0].item_id.clone();
    let r = state.place_vehicle(0, 500);
    assert_eq!(r.frames.len(), 1);
    assert_eq!(r.frames[0].to, Recipients::All);
    match &r.frames[0].message {
        ServerMessage::VehicleSpawned { vehicle_id, vehicle_type, position, rotation } => {
            assert_eq!(*vehicle_id, id);
            assert_eq!(vehicle_type, "car");
            assert_eq!(*position, Position { x: -40_000, y: 32_000, z: -40_000 });
            assert_eq!(*rotation, Rotation { x: 0, y: 0, z: 0, w: 1000 });
        }
        other => panic!("unexpected {:?}", other),
    }
    assert_eq!(r.commands.len(), 1);
    match &r.commands[0] {
        PhysicsCommand::CreateVehicleBody { vehicle_id, vehicle_type, position } => {
            assert_eq!(*vehicle_id, id);
            assert_eq!(vehicle_type, "car");
            assert_eq!(*position, WorldVector::new(-40_000, 32_000, -40_000));
        }
        other => panic!("unexpected {:?}", other),
    }
    let v = state.vehicles.get_vehicle(&id).unwrap();
    assert_eq!(v.health, 200_000);
    assert_eq!(v.spawn_origin, WorldVector::new(-40_000, 32_000, -40_000));
    assert_eq!(v.last_update, 500);
    let none = state.place_vehicle(1, 500);
    assert!(none.frames.is_empty() && none.commands.is_empty());
    state.spawn_manager.vehicle_spawns.clear();
    let none = state.place_vehicle(0, 600);
    assert!(none.frames.is_empty() && none.commands.is_empty());
}
