use planet_server::messages::{Outbound, Position, Recipients, Rotation, ServerMessage, Velocity};
use planet_server::origin::{LocalVector, Quaternion, WorldVector};
use planet_server::player::{Player, PlayerManager, DEFAULT_MAX_HEALTH, MAX_ARMOR};

fn fresh(id: u128) -> Player {
    Player::new(id, LocalVector::new(0, 80_000, 0), 1_000)
}

fn well_formed(p: &Player) -> bool {
    p.max_health > 0
        && p.health <= p.max_health
        && (p.is_dead == (p.health == 0))
        && (p.respawn_time.is_none() || p.is_dead)
}

#[test]
fn a_new_participant_is_alive_and_in_full_health() {
    let p = fresh(7);
    assert_eq!(p.id, 7);
    assert_eq!(p.health, 100_000);
    assert_eq!(p.max_health, DEFAULT_MAX_HEALTH);
    assert_eq!(p.armor, 0);
    assert_eq!(p.max_armor, MAX_ARMOR);
    assert!(!p.is_dead);
    assert_eq!(p.respawn_time, None);
    assert_eq!(p.world_origin, WorldVector::zeros());
    assert_eq!(p.rotation, Quaternion::identity());
    assert_eq!(p.last_damage_time, 1_000);
    assert!(well_formed(&p));
}

#[test]
fn damage_without_armor_comes_off_health() {
    let mut p = fresh(1);
    let dead = p.take_damage(25_000, 2_000);
    assert!(!dead);
    assert_eq!(p.health, 75_000);
    assert_eq!(p.armor, 0);
    assert_eq!(p.last_damage_time, 2_000);
    assert!(well_formed(&p));
}

#[test]
fn armor_takes_half_of_the_damage() {
    let mut p = fresh(1);
    p.add_armor(50_000);
    let dead = p.take_damage(35_000, 2_000);
    assert!(!dead);
    assert_eq!(p.armor, 32_500);
    assert_eq!(p.health, 82_500);
}

#[test]
fn armor_takes_no_more_than_it_has() {
    let mut p = fresh(1);
    p.add_armor(10_000);
    p.take_damage(80_000, 2_000);
    assert_eq!(p.armor, 0);
    assert_eq!(p.health, 30_000);
}

#[test]
fn odd_damage_is_halved_downwards() {
    let mut p = fresh(1);
    p.add_armor(50_000);
    p.take_damage(3, 2_000);
    assert_eq!(p.armor, 49_999);
    assert_eq!(p.health, 99_998);
}

#[test]
fn damage_to_zero_kills_and_sets_the_respawn() {
    let mut p = fresh(1);
    let dead = p.take_damage(100_000, 2_000);
    assert!(dead);
    assert_eq!(p.health, 0);
    assert!(p.is_dead);
    assert_eq!(p.respawn_time, Some(7_000));
    assert!(well_formed(&p));
}

#[test]
fn damage_beyond_health_stops_at_zero() {
    let mut p = fresh(1);
    assert!(p.take_damage(u32::MAX, 2_000));
    assert_eq!(p.health, 0);
    assert!(well_formed(&p));
}

#[test]
fn the_respawn_time_saturates() {
    let mut p = fresh(1);
    p.take_damage(200_000, u64::MAX - 10);
    assert_eq!(p.respawn_time, Some(u64::MAX));
}

#[test]
fn no_damage_leaves_the_living_alive() {
    let mut p = fresh(1);
    assert!(!p.take_damage(0, 2_000));
    assert_eq!(p.health, 100_000);
    assert!(!p.is_dead);
}

#[test]
fn heal_stops_at_full_health() {
    let mut p = fresh(1);
    p.take_damage(60_000, 2_000);
    p.heal(50_000);
    assert_eq!(p.health, 90_000);
    p.heal(50_000);
    assert_eq!(p.health, 100_000);
    p.heal(u32::MAX);
    assert_eq!(p.health, 100_000);
    assert!(well_formed(&p));
}

#[test]
fn the_dead_are_not_healed() {
    let mut p = fresh(1);
    p.take_damage(100_000, 2_000);
    p.heal(50_000);
    assert_eq!(p.health, 0);
    assert!(p.is_dead);
    assert!(well_formed(&p));
}

#[test]
fn armor_stops_at_its_limit() {
    let mut p = fresh(1);
    p.add_armor(50_000);
    assert_eq!(p.armor, 50_000);
    p.add_armor(70_000);
    assert_eq!(p.armor, 100_000);
    p.add_armor(u32::MAX);
    assert_eq!(p.armor, 100_000);
}

#[test]
fn respawn_restores_the_participant() {
    let mut p = fresh(1);
    p.add_armor(20_000);
    p.velocity = LocalVector::new(1, 2, 3);
    p.current_vehicle_id = Some("car_1".to_string());
    p.take_damage(500_000, 2_000);
    p.respawn(LocalVector::new(5_000, 80_000, -5_000));
    assert_eq!(p.health, 100_000);
    assert_eq!(p.armor, 0);
    assert!(!p.is_dead);
    assert_eq!(p.respawn_time, None);
    assert_eq!(p.position, LocalVector::new(5_000, 80_000, -5_000));
    assert_eq!(p.velocity, LocalVector::zeros());
    assert_eq!(p.current_vehicle_id, None);
    assert!(well_formed(&p));
}

#[test]
fn request_respawn_is_taken_only_from_the_dead_who_do_not_wait() {
    let mut p = fresh(1);
    assert!(!p.request_respawn(3_000));
    assert_eq!(p.respawn_time, None);
    p.take_damage(100_000, 2_000);
    assert!(!p.request_respawn(3_000));
    assert_eq!(p.respawn_time, Some(7_000));
    p.respawn_time = None;
    assert!(p.request_respawn(3_000));
    assert_eq!(p.respawn_time, Some(3_000));
}

#[test]
fn respawn_is_due_from_its_time_on() {
    let mut p = fresh(1);
    assert!(!p.respawn_due(u64::MAX));
    p.take_damage(100_000, 2_000);
    assert!(!p.respawn_due(6_999));
    assert!(p.respawn_due(7_000));
    assert!(p.respawn_due(7_001));
}

#[test]
fn world_position_is_anchor_plus_local() {
    let mut p = fresh(1);
    p.world_origin = WorldVector::new(1_100_000, 0, 0);
    p.position = LocalVector::new(100, 200, 300);
    assert_eq!(p.get_world_position(), WorldVector::new(1_100_100, 200, 300));
}

#[test]
fn recenter_keeps_the_world_position() {
    let mut p = fresh(1);
    p.position = LocalVector::new(1_100_000, 0, 0);
    let before = p.get_world_position();
    assert!(p.recenter());
    assert_eq!(p.world_origin, WorldVector::new(1_100_000, 0, 0));
    assert_eq!(p.position, LocalVector::zeros());
    assert_eq!(p.get_world_position(), before);
    assert!(!p.recenter());
}

#[test]
fn a_participant_copy_is_equal_in_every_field() {
    let mut p = fresh(9);
    p.current_weapon = Some("rifle".to_string());
    p.current_vehicle_id = Some("car".to_string());
    p.take_damage(10_000, 5);
    let q = p.duplicate();
    assert_eq!(format!("{:?}", p), format!("{:?}", q));
}

#[test]
fn manager_adds_gets_and_removes() {
    let mut m = PlayerManager::new();
    assert!(m.ids().is_empty());
    m.add_player(1, LocalVector::new(0, 80_000, 0), 10);
    m.add_player(2, LocalVector::new(1, 2, 3), 20);
    let mut ids = m.ids();
    ids.sort();
    assert_eq!(ids, vec![1, 2]);
    assert_eq!(m.get_player(2).unwrap().position, LocalVector::new(1, 2, 3));
    assert!(m.get_player(3).is_none());
    m.remove_player(1);
    assert!(m.get_player(1).is_none());
    assert_eq!(m.ids(), vec![2]);
    assert_eq!(m.iter().len(), 1);
}

#[test]
fn put_player_replaces_only_who_is_there() {
    let mut m = PlayerManager::new();
    m.add_player(1, LocalVector::zeros(), 0);
    let mut p = m.get_player(1).unwrap();
    p.armor = 5;
    assert!(m.put_player(1, p.duplicate()));
    assert_eq!(m.get_player(1).unwrap().armor, 5);
    assert!(!m.put_player(2, p));
    assert!(m.get_player(2).is_none());
}

#[test]
fn damage_player_reports_death() {
    let mut m = PlayerManager::new();
    m.add_player(1, LocalVector::zeros(), 0);
    assert!(!m.damage_player(1, 99_999, 100));
    assert_eq!(m.get_player(1).unwrap().health, 1);
    assert!(m.damage_player(1, 1, 200));
    let p = m.get_player(1).unwrap();
    assert!(p.is_dead);
    assert_eq!(p.respawn_time, Some(5_200));
    assert!(!m.damage_player(42, 10, 300));
}

#[test]
fn heal_and_armor_through_the_manager() {
    let mut m = PlayerManager::new();
    m.add_player(1, LocalVector::zeros(), 0);
    m.damage_player(1, 30_000, 1);
    m.heal_player(1, 10_000);
    m.add_armor(1, 25_000);
    let p = m.get_player(1).unwrap();
    assert_eq!(p.health, 80_000);
    assert_eq!(p.armor, 25_000);
    m.heal_player(9, 1);
    m.add_armor(9, 1);
    assert!(m.get_player(9).is_none());
}

#[test]
fn respawn_player_through_the_manager() {
    let mut m = PlayerManager::new();
    m.add_player(1, LocalVector::zeros(), 0);
    m.damage_player(1, 100_000, 1);
    m.respawn_player(1, LocalVector::new(0, 80_000, 0));
    let p = m.get_player(1).unwrap();
    assert!(!p.is_dead);
    assert_eq!(p.health, 100_000);
    assert_eq!(p.position, LocalVector::new(0, 80_000, 0));
}

#[test]
fn others_are_listed_relative_to_the_requester() {
    let mut m = PlayerManager::new();
    m.add_player(1, LocalVector::new(100_000, 0, 0), 0);
    m.add_player(2, LocalVector::new(0, 0, 0), 0);
    let mut b = m.get_player(2).unwrap();
    b.world_origin = WorldVector::new(40_000, 0, -10_000);
    m.put_player(2, b);
    let listed = m.get_all_players_except(2);
    assert_eq!(listed.len(), 1);
    assert_eq!(listed[0].id, "00000000-0000-0000-0000-000000000001");
    assert_eq!(listed[0].position, Position { x: 60_000, y: 0, z: 10_000 });
    assert_eq!(listed[0].rotation, Some(Rotation { x: 0, y: 0, z: 0, w: 1000 }));
    assert_eq!(listed[0].velocity, Some(Velocity { x: 0, y: 0, z: 0 }));
    assert_eq!(listed[0].is_grounded, Some(false));
    assert_eq!(listed[0].is_swimming, Some(false));
}

#[test]
fn without_the_requester_local_positions_are_listed() {
    let mut m = PlayerManager::new();
    m.add_player(1, LocalVector::new(100_000, 5, 6), 0);
    let listed = m.get_all_players_except(99);
    assert_eq!(listed.len(), 1);
    assert_eq!(listed[0].position, Position { x: 100_000, y: 5, z: 6 });
}

fn state_of(id: u128, position: Position) -> ServerMessage {
    ServerMessage::PlayerState {
        player_id: planet_server::ids::participant_text(id),
        position,
        rotation: Rotation { x: 0, y: 0, z: 0, w: 1000 },
        velocity: Velocity { x: 1, y: 2, z: 3 },
        is_grounded: true,
        is_swimming: false,
    }
}

fn position_in(frame: &Outbound) -> Position {
    match &frame.message {
        ServerMessage::PlayerState { position, .. } => *position,
        ServerMessage::PlayerJoined { position, .. } => *position,
        other => panic!("no position in {:?}", other),
    }
}

#[test]
fn a_state_frame_goes_to_each_other_participant_in_its_own_frame() {
    let mut m = PlayerManager::new();
    m.add_player(1, LocalVector::new(100_000, 0, 0), 0);
    m.add_player(2, LocalVector::zeros(), 0);
    m.add_player(3, LocalVector::zeros(), 0);
    let mut c = m.get_player(3).unwrap();
    c.world_origin = WorldVector::new(1_000, 2_000, 3_000);
    m.put_player(3, c);
    let mut frames = m.broadcast_except(1, state_of(1, Position { x: 100_000, y: 0, z: 0 }));
    frames.sort_by_key(|f| match f.to {
        Recipients::One(id) => id,
        _ => 0,
    });
    assert_eq!(frames.len(), 2);
    assert_eq!(frames[0].to, Recipients::One(2));
    assert_eq!(position_in(&frames[0]), Position { x: 100_000, y: 0, z: 0 });
    assert_eq!(frames[1].to, Recipients::One(3));
    assert_eq!(position_in(&frames[1]), Position { x: 99_000, y: -2_000, z: -3_000 });
    match &frames[1].message {
        ServerMessage::PlayerState { player_id, velocity, is_grounded, is_swimming, .. } => {
            assert_eq!(player_id, "00000000-0000-0000-0000-000000000001");
            assert_eq!(*velocity, Velocity { x: 1, y: 2, z: 3 });
            assert!(*is_grounded);
            assert!(!*is_swimming);
        }
        other => panic!("unexpected {:?}", other),
    }
}

#[test]
fn a_state_frame_uses_where_the_sender_is_not_what_the_frame_says() {
    let mut m = PlayerManager::new();
    m.add_player(1, LocalVector::new(0, 0, 0), 0);
    m.add_player(2, LocalVector::zeros(), 0);
    let mut a = m.get_player(1).unwrap();
    a.world_origin = WorldVector::new(1_100_000, 0, 0);
    m.put_player(1, a);
    let frames = m.broadcast_except(1, state_of(1, Position { x: 7, y: 7, z: 7 }));
    assert_eq!(frames.len(), 1);
    assert_eq!(position_in(&frames[0]), Position { x: 1_100_000, y: 0, z: 0 });
}

#[test]
fn a_state_frame_of_an_unknown_sender_is_read_as_a_world_position() {
    let mut m = PlayerManager::new();
    m.add_player(2, LocalVector::zeros(), 0);
    let mut b = m.get_player(2).unwrap();
    b.world_origin = WorldVector::new(10, 20, 30);
    m.put_player(2, b);
    let frames = m.broadcast_except(1, state_of(1, Position { x: 100, y: 200, z: 300 }));
    assert_eq!(frames.len(), 1);
    assert_eq!(position_in(&frames[0]), Position { x: 90, y: 180, z: 270 });
}

#[test]
fn a_joined_frame_is_translated_too() {
    let mut m = PlayerManager::new();
    m.add_player(1, LocalVector::new(0, 80_000, 0), 0);
    m.add_player(2, LocalVector::zeros(), 0);
    let mut b = m.get_player(2).unwrap();
    b.world_origin = WorldVector::new(0, 30_000, 0);
    m.put_player(2, b);
    let frames = m.broadcast_except(
        1,
        ServerMessage::PlayerJoined {
            player_id: planet_server::ids::participant_text(1),
            position: Position { x: 0, y: 80_000, z: 0 },
        },
    );
    assert_eq!(frames.len(), 1);
    assert_eq!(frames[0].to, Recipients::One(2));
    assert_eq!(position_in(&frames[0]), Position { x: 0, y: 50_000, z: 0 });
}

#[test]
fn any_other_frame_goes_out_once_to_all_but_the_sender() {
    let mut m = PlayerManager::new();
    m.add_player(1, LocalVector::zeros(), 0);
    m.add_player(2, LocalVector::zeros(), 0);
    let frames = m.broadcast_except(
        1,
        ServerMessage::PlayerLeft { player_id: "x".to_string() },
    );
    assert_eq!(frames.len(), 1);
    assert_eq!(frames[0].to, Recipients::AllExcept(1));
    assert!(matches!(&frames[0].message, ServerMessage::PlayerLeft { player_id } if player_id == "x"));
}

#[test]
fn send_to_addresses_one() {
    let m = PlayerManager::new();
    let frame = m.send_to(4, ServerMessage::PlayerLeft { player_id: "x".to_string() });
    assert_eq!(frame.to, Recipients::One(4));
    assert!(matches!(&frame.message, ServerMessage::PlayerLeft { player_id } if player_id == "x"));
}

#[test]
fn set_handles_records_the_body() {
    let mut m = PlayerManager::new();
    m.add_player(1, LocalVector::zeros(), 0);
    let body = planet_server::physics::RigidBodyHandle { index: 3, generation: 1 };
    let collider = planet_server::physics::ColliderHandle { index: 4, generation: 2 };
    m.set_handles(1, Some(body), Some(collider));
    m.set_handles(2, Some(body), Some(collider));
    let p = m.get_player(1).unwrap();
    assert_eq!(p.body_handle, Some(body));
    assert_eq!(p.collider_handle, Some(collider));
    assert_eq!(p.health, 100_000);
    assert!(m.get_player(2).is_none());
}

#[test]
fn broadcast_to_all_addresses_everyone() {
    let m = PlayerManager::new();
    let frame = m.broadcast_to_all(ServerMessage::PlayerLeft { player_id: "x".to_string() });
    assert_eq!(frame.to, Recipients::All);
    assert!(frame.to.reaches(5));
    assert!(Recipients::AllExcept(5).reaches(4));
    assert!(!Recipients::AllExcept(5).reaches(5));
    assert!(Recipients::One(5).reaches(5));
    assert!(!Recipients::One(5).reaches(4));
}

#[test]
fn recenter_player_tells_only_the_participant_concerned() {
    let mut m = PlayerManager::new();
    m.add_player(1, LocalVector::new(1_100_000, 0, 0), 0);
    m.add_player(2, LocalVector::new(500_000, 0, 0), 0);
    let frame = m.recenter_player(1).expect("the anchor moves");
    assert_eq!(frame.to, Recipients::One(1));
    match frame.message {
        ServerMessage::OriginUpdate { origin } => {
            assert_eq!(origin, Position { x: 1_100_000, y: 0, z: 0 })
        }
        other => panic!("unexpected {:?}", other),
    }
    assert!(m.recenter_player(2).is_none());
    assert!(m.recenter_player(3).is_none());
    let a = m.get_player(1).unwrap();
    assert_eq!(a.world_origin, WorldVector::new(1_100_000, 0, 0));
    assert_eq!(a.position, LocalVector::zeros());
}

#[test]
fn recenter_all_moves_every_far_anchor() {
    let mut m = PlayerManager::new();
    m.add_player(1, LocalVector::new(0, 0, 2_000_000), 0);
    m.add_player(2, LocalVector::new(500_000, 0, 0), 0);
    m.add_player(3, LocalVector::new(-1_000_001, 0, 0), 0);
    let mut frames = m.recenter_all();
    frames.sort_by_key(|f| match f.to {
        Recipients::One(id) => id,
        _ => 0,
    });
    assert_eq!(frames.len(), 2);
    assert_eq!(frames[0].to, Recipients::One(1));
    assert_eq!(frames[1].to, Recipients::One(3));
    assert_eq!(m.get_player(2).unwrap().position, LocalVector::new(500_000, 0, 0));
    assert_eq!(m.get_player(3).unwrap().world_origin, WorldVector::new(-1_000_001, 0, 0));
}
