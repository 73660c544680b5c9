//! The world as a whole and the phases of a tick.
//!
//! A tick expires leases and evicts old objects before the physics step; after the step it
//! reads the bodies back and recenters anchors; then, once homing projectiles have been
//! steered, it lets projectiles run out, brings back what is due, and broadcasts. Each phase
//! changes the world and returns what is to be sent and what the physics engine is to do.

use crate::dynamic_objects::{
    body_names, names_body, outlived_keys, past_due_keys, DynamicObject, DynamicObjectManager,
    ObjectBody,
};
use crate::ids::decimal_text;
use crate::ids::id_text;
use crate::ids::number_text;
use crate::ids::parse_id;
use crate::ids::uuid_parsed;
use crate::ids::uuid_text;
use crate::level::Level;
use crate::messages::{
    to_all, to_everyone, Outbound, Position, Recipients, Rotation, ServerMessage, Velocity,
};
use crate::origin::{local_of, to_local, world_of, LocalVector, Quaternion, WorldVector};
use crate::physics::{
    BodyReading, PhysicsCommand, PhysicsWorld, RigidBodyHandle, WaterVolume,
};
use crate::player::{
    due_players, far_keys, is_spawn_point_of, origin_update, Player, PlayerManager, Respawn,
};
use crate::projectiles::{expired_keys, Projectile, ProjectileManager};
use crate::spawns::{
    find_vehicle_spawn, freed_by, returned, vehicle_spawn_names, weapon_due, weapon_frames,
    PlayerSpawnPoint, Pools, SpawnManager, SpawnedItem, VehicleSpawnPoint, WeaponSpawnPoint,
};
use crate::store::{
    lemma_picks_all, lemma_picks_none, lemma_picks_skip, lemma_picks_take, lists_keys, picks,
    views,
};
use crate::text::slot_of;
use crate::vehicles::{
    due_keys, is_new_vehicle, respawn_names, tells_respawn, Vehicle, VehicleManager,
    VehicleRespawn,
};
use vstd::prelude::*;
use vstd::string::StringExecFns;

verus! {

/// How long a dynamic object stays in the world, in milliseconds.
pub const OBJECT_LIFETIME_MS: u64 = 180_000;

/// The world: every manager, the level, and the library's part of the physics bridge.
pub struct AppState {
    pub players: PlayerManager,
    pub physics: PhysicsWorld,
    pub dynamic_objects: DynamicObjectManager,
    pub vehicles: VehicleManager,
    pub projectiles: ProjectileManager,
    pub level: Level,
    pub spawn_manager: SpawnManager,
}

/// What a phase of the tick, or the handling of a message, asks for: frames to queue and
/// commands for the physics engine, each in the order in which they are to be carried out.
pub struct Reaction {
    pub frames: Vec<Outbound>,
    pub commands: Vec<PhysicsCommand>,
}

/// The world as plain values.
pub struct WorldView {
    pub players: Map<u128, Player>,
    pub objects: Map<Seq<char>, DynamicObject>,
    pub vehicles: Map<Seq<char>, Vehicle>,
    pub projectiles: Map<Seq<char>, Projectile>,
    pub pools: Pools,
    pub water: Seq<WaterVolume>,
}

impl View for AppState {
    type V = WorldView;

    open spec fn view(&self) -> WorldView {
        WorldView {
            players: self.players@,
            objects: self.dynamic_objects@,
            vehicles: self.vehicles@,
            projectiles: self.projectiles@,
            pools: self.spawn_manager.pools(),
            water: self.physics.water_volumes@,
        }
    }
}

/// The frame that tells everyone that the lease on an object has been revoked.
pub open spec fn revoked_frame(b: ObjectBody) -> Outbound {
    Outbound {
        to: Recipients::All,
        message: ServerMessage::ObjectOwnershipRevoked { object_id: b.id },
    }
}

/// The frame that tells everyone that an object has left the world.
pub open spec fn removed_frame(b: ObjectBody) -> Outbound {
    Outbound { to: Recipients::All, message: ServerMessage::DynamicObjectRemove { object_id: b.id } }
}

/// The commands that hand back to the simulation the bodies of those among the first `n` of
/// `list` that were grabbed.
pub open spec fn dynamic_commands(list: Seq<ObjectBody>, n: int) -> Seq<PhysicsCommand>
    decreases n,
{
    if n <= 0 {
        Seq::empty()
    } else if list[n - 1].was_grabbed && list[n - 1].body_handle is Some {
        dynamic_commands(list, n - 1).push(
            PhysicsCommand::SetBodyDynamic { body: list[n - 1].body_handle->0 },
        )
    } else {
        dynamic_commands(list, n - 1)
    }
}

/// The commands that remove the bodies of the first `n` of `list`, as far as they have one.
pub open spec fn removal_commands(list: Seq<ObjectBody>, n: int) -> Seq<PhysicsCommand>
    decreases n,
{
    if n <= 0 {
        Seq::empty()
    } else if list[n - 1].body_handle is Some {
        removal_commands(list, n - 1).push(
            PhysicsCommand::RemoveBody { body: list[n - 1].body_handle->0 },
        )
    } else {
        removal_commands(list, n - 1)
    }
}

/// The frame that tells everyone that a projectile has run out without hitting anything.
pub open spec fn fizzled_frame(id: String) -> Outbound {
    Outbound {
        to: Recipients::All,
        message: ServerMessage::ProjectileImpact {
            projectile_id: id,
            position: Position { x: 0, y: 0, z: 0 },
            explosion_radius: None,
            damage: 0,
        },
    }
}

/// `frame` tells everyone that the vehicle of `respawn` stands again.
pub open spec fn is_respawn_frame(frame: Outbound, respawn: VehicleRespawn) -> bool {
    let p = local_of(respawn.world_position, WorldVector { x: 0, y: 0, z: 0 });
    &&& frame.to == Recipients::All
    &&& frame.message == ServerMessage::VehicleSpawned {
        vehicle_id: respawn.id,
        vehicle_type: respawn.vehicle_type,
        position: Position { x: p.x, y: p.y, z: p.z },
        rotation: Rotation { x: 0, y: 0, z: 0, w: 1000 },
    }
}

/// The command that has the engine make a body for the vehicle of `respawn`.
pub open spec fn body_command(respawn: VehicleRespawn) -> PhysicsCommand {
    PhysicsCommand::CreateVehicleBody {
        vehicle_id: respawn.id,
        vehicle_type: respawn.vehicle_type,
        position: respawn.world_position,
    }
}

/// The commands that give each of the first `n` of `respawns` a new body: the body that the
/// vehicle has had is removed, if it has had one, and a new one is made.
pub open spec fn rebody_commands(respawns: Seq<VehicleRespawn>, n: int) -> Seq<PhysicsCommand>
    decreases n,
{
    if n <= 0 {
        Seq::empty()
    } else if respawns[n - 1].old_body is Some {
        rebody_commands(respawns, n - 1).push(
            PhysicsCommand::RemoveBody { body: respawns[n - 1].old_body->0 },
        ).push(body_command(respawns[n - 1]))
    } else {
        rebody_commands(respawns, n - 1).push(body_command(respawns[n - 1]))
    }
}

/// `frame` tells everyone that the participant of `back` is in the world again.
pub open spec fn is_back_frame(frame: Outbound, back: Respawn) -> bool {
    &&& frame.to == Recipients::All
    &&& match frame.message {
        ServerMessage::PlayerRespawned { player_id, position, health } => {
            &&& player_id@ == uuid_text(back.id)
            &&& position == (Position { x: back.position.x, y: back.position.y, z: back.position.z })
            &&& health == back.health
        },
        _ => false,
    }
}

/// The commands that place at their spawn points the bodies of the first `n` of `back`, as
/// far as they have one.
pub open spec fn teleport_commands(back: Seq<Respawn>, n: int) -> Seq<PhysicsCommand>
    decreases n,
{
    if n <= 0 {
        Seq::empty()
    } else if back[n - 1].body_handle is Some {
        teleport_commands(back, n - 1).push(
            PhysicsCommand::Teleport {
                body: back[n - 1].body_handle->0,
                position: back[n - 1].position,
            },
        )
    } else {
        teleport_commands(back, n - 1)
    }
}


/// The world after the leases that have run out at `now` have been revoked.
pub open spec fn leases_swept(w: WorldView, now: u64) -> WorldView {
    WorldView { objects: w.objects.map_values(|o: DynamicObject| o.swept(now)), ..w }
}

/// What the expiry of leases does: see `AppState::expire_leases`.
pub open spec fn leases_expired(
    w: WorldView,
    after: WorldView,
    frames: Seq<Outbound>,
    commands: Seq<PhysicsCommand>,
    now: u64,
) -> bool {
    after == leases_swept(w, now) && exists|revoked: Seq<ObjectBody>| #[trigger]
        tells_of_revoked(revoked, w, frames, commands, now)
}

/// `revoked` names the objects of `w` whose lease has run out at `now`; `frames` tell
/// everyone of each, and `commands` hand back to the simulation the bodies of those that
/// were grabbed.
pub open spec fn tells_of_revoked(
    revoked: Seq<ObjectBody>,
    w: WorldView,
    frames: Seq<Outbound>,
    commands: Seq<PhysicsCommand>,
    now: u64,
) -> bool {
    &&& lists_keys(body_names(revoked), past_due_keys(w.objects, now))
    &&& forall|i: int| 0 <= i < revoked.len() ==> names_body(#[trigger] revoked[i], w.objects)
    &&& frames == revoked.map_values(|b: ObjectBody| revoked_frame(b))
    &&& commands == dynamic_commands(revoked, revoked.len() as int)
}

/// The world after the objects that have outlived their lifetime at `now` have been removed.
pub open spec fn objects_evicted(w: WorldView, now: u64) -> WorldView {
    WorldView {
        objects: w.objects.remove_keys(outlived_keys(w.objects, OBJECT_LIFETIME_MS, now)),
        ..w
    }
}

/// What the eviction of old objects does: see `AppState::evict_expired_objects`.
pub open spec fn objects_expired(
    w: WorldView,
    after: WorldView,
    frames: Seq<Outbound>,
    commands: Seq<PhysicsCommand>,
    now: u64,
) -> bool {
    after == objects_evicted(w, now) && exists|gone: Seq<ObjectBody>| #[trigger]
        tells_of_gone(gone, w, frames, commands, now)
}

/// `gone` names the objects of `w` that have outlived their lifetime at `now`; `frames` tell
/// everyone of each, and `commands` remove their bodies.
pub open spec fn tells_of_gone(
    gone: Seq<ObjectBody>,
    w: WorldView,
    frames: Seq<Outbound>,
    commands: Seq<PhysicsCommand>,
    now: u64,
) -> bool {
    &&& lists_keys(body_names(gone), outlived_keys(w.objects, OBJECT_LIFETIME_MS, now))
    &&& forall|i: int| 0 <= i < gone.len() ==> names_body(#[trigger] gone[i], w.objects)
    &&& frames == gone.map_values(|b: ObjectBody| removed_frame(b))
    &&& commands == removal_commands(gone, gone.len() as int)
}

/// The world after what the engine reports in `readings` has been taken over.
pub open spec fn bodies_read(w: WorldView, readings: Seq<BodyReading>, now: u64) -> WorldView {
    WorldView {
        objects: w.objects.map_values(|o: DynamicObject| o.after_readings(readings)),
        vehicles: w.vehicles.map_values(|v: Vehicle| v.after_readings(readings, now)),
        projectiles: w.projectiles.map_values(|p: Projectile| p.after_readings(readings)),
        ..w
    }
}

/// The world after the anchors of the participants have been recentered.
pub open spec fn anchors_recentered(w: WorldView) -> WorldView {
    WorldView { players: w.players.map_values(|p: Player| p.recentered()), ..w }
}

/// What the recentering of anchors does: see `AppState::recenter_anchors`.
pub open spec fn anchors_moved(w: WorldView, after: WorldView, frames: Seq<Outbound>) -> bool {
    after == anchors_recentered(w) && exists|keys: Seq<u128>| #[trigger]
        tells_of_anchors(keys, w, frames)
}

/// `keys` are the participants of `w` whose local offset has grown too long, and `frames`
/// tell each of them, and nobody else, of its new anchor.
pub open spec fn tells_of_anchors(keys: Seq<u128>, w: WorldView, frames: Seq<Outbound>) -> bool {
    &&& lists_keys(keys, far_keys(w.players))
    &&& keys.len() == frames.len()
    &&& forall|i: int|
        0 <= i < frames.len() ==> #[trigger] frames[i] == origin_update(
            keys[i],
            w.players[keys[i]].recentered().world_origin,
        )
}

/// The world after the projectiles that have run out at `now` have been removed.
pub open spec fn projectiles_swept(w: WorldView, now: u64) -> WorldView {
    WorldView { projectiles: w.projectiles.remove_keys(expired_keys(w.projectiles, now)), ..w }
}

/// What the running out of projectiles does: see `AppState::expire_projectiles`.
pub open spec fn projectiles_expired(
    w: WorldView,
    after: WorldView,
    frames: Seq<Outbound>,
    now: u64,
) -> bool {
    after == projectiles_swept(w, now) && exists|gone: Seq<String>| #[trigger]
        tells_of_fizzled(gone, w, frames, now)
}

/// `gone` names the projectiles of `w` that have run out at `now`, and `frames` tell
/// everyone of each.
pub open spec fn tells_of_fizzled(
    gone: Seq<String>,
    w: WorldView,
    frames: Seq<Outbound>,
    now: u64,
) -> bool {
    &&& lists_keys(views(gone), expired_keys(w.projectiles, now))
    &&& frames == gone.map_values(|id: String| fizzled_frame(id))
}

/// The weapons of `pools` after those that are due at `now` lie at their spawn points again.
pub open spec fn weapons_returned(pools: Pools, now: u64) -> Seq<SpawnedItem> {
    Seq::new(
        pools.spawned_weapons.len(),
        |k: int|
            if weapon_due(pools.spawned_weapons[k], pools.weapon_spawns, now) {
                returned(pools.spawned_weapons[k])
            } else {
                pools.spawned_weapons[k]
            },
    )
}

/// The weapon spawn points of `pools` after those whose weapon is due at `now` are free again.
pub open spec fn weapon_spawns_freed(pools: Pools, now: u64) -> Seq<WeaponSpawnPoint> {
    Seq::new(
        pools.weapon_spawns.len(),
        |j: int|
            WeaponSpawnPoint {
                occupied: pools.weapon_spawns[j].occupied && !freed_by(
                    pools.spawned_weapons,
                    pools.weapon_spawns,
                    now,
                    pools.spawned_weapons.len() as int,
                    j,
                ),
                ..pools.weapon_spawns[j]
            },
    )
}

/// The world after the weapons that are due at `now` lie at their spawn points again.
pub open spec fn weapons_swept(w: WorldView, now: u64) -> WorldView {
    WorldView {
        pools: Pools {
            spawned_weapons: weapons_returned(w.pools, now),
            weapon_spawns: weapon_spawns_freed(w.pools, now),
            ..w.pools
        },
        ..w
    }
}

/// What the respawning of weapons does: see `AppState::respawn_weapons`.
pub open spec fn weapons_respawned(
    w: WorldView,
    after: WorldView,
    frames: Seq<Outbound>,
    now: u64,
) -> bool {
    after == weapons_swept(w, now) && frames == to_everyone(
        weapon_frames(
            w.pools.spawned_weapons,
            w.pools.weapon_spawns,
            now,
            w.pools.spawned_weapons.len() as int,
        ),
    )
}

/// The world after the vehicles whose respawn is due at `now` stand again.
pub open spec fn vehicles_swept(w: WorldView, now: u64) -> WorldView {
    WorldView { vehicles: w.vehicles.map_values(|v: Vehicle| v.swept(now)), ..w }
}

/// What the respawning of vehicles does: see `AppState::respawn_vehicles`.
pub open spec fn vehicles_respawned(
    w: WorldView,
    after: WorldView,
    frames: Seq<Outbound>,
    commands: Seq<PhysicsCommand>,
    now: u64,
) -> bool {
    after == vehicles_swept(w, now) && exists|respawns: Seq<VehicleRespawn>| #[trigger]
        tells_of_vehicles(respawns, w, frames, commands, now)
}

/// `respawns` names the vehicles of `w` whose respawn is due at `now`, each with its type,
/// the place where it was first spawned, its full health and the body it has had; `frames`
/// tell everyone of each, and `commands` have the engine give each a new body.
pub open spec fn tells_of_vehicles(
    respawns: Seq<VehicleRespawn>,
    w: WorldView,
    frames: Seq<Outbound>,
    commands: Seq<PhysicsCommand>,
    now: u64,
) -> bool {
    &&& lists_keys(respawn_names(respawns), due_keys(w.vehicles, now))
    &&& respawns.len() == frames.len()
    &&& forall|i: int|
        0 <= i < respawns.len() ==> tells_respawn(
            #[trigger] respawns[i],
            w.vehicles[respawns[i].id@],
        ) && is_respawn_frame(frames[i], respawns[i])
    &&& commands == rebody_commands(respawns, respawns.len() as int)
}

/// What the respawning of participants does: see `AppState::respawn_players`.
pub open spec fn players_respawned(
    w: WorldView,
    after: WorldView,
    frames: Seq<Outbound>,
    commands: Seq<PhysicsCommand>,
    now: u64,
) -> bool {
    &&& after.objects == w.objects
    &&& after.vehicles == w.vehicles
    &&& after.projectiles == w.projectiles
    &&& after.pools == w.pools
    &&& after.water == w.water
    &&& after.players.dom() == w.players.dom()
    &&& forall|k: u128| #[trigger]
        w.players.contains_key(k) && !w.players[k].due(now) ==> after.players[k] == w.players[k]
    &&& exists|keys: Seq<u128>, back: Seq<Respawn>| #[trigger]
        tells_of_back(keys, back, w, after, frames, commands, now)
}

/// `keys` are the participants of `w` whose respawn is due at `now`, and `back` says where
/// each has come back: at a place where participants enter the world, in full health.
/// `frames` tell everyone of each, and `commands` place their bodies.
pub open spec fn tells_of_back(
    keys: Seq<u128>,
    back: Seq<Respawn>,
    w: WorldView,
    after: WorldView,
    frames: Seq<Outbound>,
    commands: Seq<PhysicsCommand>,
    now: u64,
) -> bool {
    &&& lists_keys(keys, due_players(w.players, now))
    &&& keys.len() == back.len()
    &&& back.len() == frames.len()
    &&& forall|i: int|
        0 <= i < back.len() ==> (#[trigger] back[i]).id == keys[i] && after.players[keys[i]]
            == w.players[keys[i]].respawned(back[i].position) && back[i].body_handle
            == w.players[keys[i]].body_handle && back[i].health == w.players[keys[i]].max_health
            && is_spawn_point_of(w.pools.spawn_points, back[i].position) && is_back_frame(
            frames[i],
            back[i],
        )
    &&& commands == teleport_commands(back, back.len() as int)
}

impl AppState {
    /// Every participant and vehicle is well formed, and every object's grab and lease agree.
    pub open spec fn wf(&self) -> bool {
        &&& self.players.wf()
        &&& self.vehicles.wf()
        &&& self.dynamic_objects.coherent()
    }

    /// An empty world around `level`.
    pub fn new(level: Level) -> (r: AppState)
        ensures
            r@.players =~= Map::empty(),
            r@.objects =~= Map::empty(),
            r@.vehicles =~= Map::empty(),
            r@.projectiles =~= Map::empty(),
            r@.pools.spawn_points.len() == 0,
            r@.pools.vehicle_spawns.len() == 0,
            r@.pools.weapon_spawns.len() == 0,
            r@.pools.spawned_vehicles.len() == 0,
            r@.pools.spawned_weapons.len() == 0,
            r@.water.len() == 0,
            r.level.objects@ == level.objects@,
            r.wf(),
    {
        AppState {
            players: PlayerManager::new(),
            physics: PhysicsWorld::new(),
            dynamic_objects: DynamicObjectManager::new(),
            vehicles: VehicleManager::new(),
            projectiles: ProjectileManager::new(),
            level,
            spawn_manager: SpawnManager::new(),
        }
    }

    /// Revokes every lease that has run out at `now`, and the grab that came with it. Everyone
    /// is told of each revoked lease, and the body of each object that was grabbed is handed
    /// back to the simulation. Afterwards no object carries a lease that has run out.
    pub fn expire_leases(&mut self, now: u64) -> (r: Reaction)
        ensures
            leases_expired(old(self)@, final(self)@, r.frames@, r.commands@, now),
            final(self).dynamic_objects.leases_current(now),
            old(self).wf() ==> final(self).wf(),
    {
        let revoked = self.dynamic_objects.update_ownership(now);
        let mut frames: Vec<Outbound> = Vec::new();
        let mut commands: Vec<PhysicsCommand> = Vec::new();
        let mut i: usize = 0;
        while i < revoked.len()
            invariant
                0 <= i <= revoked.len(),
                frames@ == revoked@.take(i as int).map_values(|b: ObjectBody| revoked_frame(b)),
                commands@ == dynamic_commands(revoked@, i as int),
            decreases revoked.len() - i,
        {
            frames.push(
                Outbound {
                    to: Recipients::All,
                    message: ServerMessage::ObjectOwnershipRevoked {
                        object_id: revoked[i].id.clone(),
                    },
                },
            );
            if revoked[i].was_grabbed {
                match revoked[i].body_handle {
                    Some(body) => {
                        commands.push(PhysicsCommand::SetBodyDynamic { body });
                    },
                    None => {},
                }
            }
            proof {
                assert(frames@ =~= revoked@.take(i as int + 1).map_values(
                    |b: ObjectBody| revoked_frame(b),
                ));
            }
            i += 1;
        }
        proof {
            assert(revoked@.take(revoked@.len() as int) =~= revoked@);
            assert(tells_of_revoked(revoked@, old(self)@, frames@, commands@, now));
        }
        Reaction { frames, commands }
    }

    /// Removes every dynamic object that has been in the world for longer than three
    /// minutes at `now`. Everyone is told of each, and its body is removed.
    pub fn evict_expired_objects(&mut self, now: u64) -> (r: Reaction)
        ensures
            objects_expired(old(self)@, final(self)@, r.frames@, r.commands@, now),
            old(self).wf() ==> final(self).wf(),
    {
        let gone = self.dynamic_objects.remove_expired_objects(OBJECT_LIFETIME_MS, now);
        let mut frames: Vec<Outbound> = Vec::new();
        let mut commands: Vec<PhysicsCommand> = Vec::new();
        let mut i: usize = 0;
        while i < gone.len()
            invariant
                0 <= i <= gone.len(),
                frames@ == gone@.take(i as int).map_values(|b: ObjectBody| removed_frame(b)),
                commands@ == removal_commands(gone@, i as int),
            decreases gone.len() - i,
        {
            frames.push(
                Outbound {
                    to: Recipients::All,
                    message: ServerMessage::DynamicObjectRemove { object_id: gone[i].id.clone() },
                },
            );
            match gone[i].body_handle {
                Some(body) => {
                    commands.push(PhysicsCommand::RemoveBody { body });
                },
                None => {},
            }
            proof {
                assert(frames@ =~= gone@.take(i as int + 1).map_values(
                    |b: ObjectBody| removed_frame(b),
                ));
            }
            i += 1;
        }
        proof {
            assert(gone@.take(gone@.len() as int) =~= gone@);
            assert(tells_of_gone(gone@, old(self)@, frames@, commands@, now));
        }
        Reaction { frames, commands }
    }

    /// Takes over what the engine reports after a step of every object, vehicle and
    /// projectile whose body is among `readings`.
    pub fn read_back(&mut self, readings: &Vec<BodyReading>, now: u64)
        ensures
            final(self)@ == bodies_read(old(self)@, readings@, now),
            old(self).wf() ==> final(self).wf(),
    {
        self.dynamic_objects.read_back_all(readings);
        self.vehicles.read_back_all(readings, now);
        self.projectiles.read_back_all(readings);
    }

    /// Recenters the anchor of every participant whose local offset has grown longer than
    /// one thousand metres. Each of them, and nobody else, is told of its new anchor.
    pub fn recenter_anchors(&mut self) -> (frames: Vec<Outbound>)
        ensures
            anchors_moved(old(self)@, final(self)@, frames@),
            old(self).wf() ==> final(self).wf(),
    {
        let frames = self.players.recenter_all();
        proof {
            let keys = choose|keys: Seq<u128>|
                lists_keys(keys, far_keys(old(self)@.players)) && keys.len() == frames@.len()
                    && forall|i: int|
                    0 <= i < frames@.len() ==> #[trigger] frames@[i] == origin_update(
                        keys[i],
                        old(self)@.players[keys[i]].recentered().world_origin,
                    );
            assert(tells_of_anchors(keys, old(self)@, frames@));
        }
        frames
    }

    /// Removes every projectile that has outlived its lifetime at `now`. Everyone is told of
    /// each that it has run out, with no damage done.
    pub fn expire_projectiles(&mut self, now: u64) -> (frames: Vec<Outbound>)
        ensures
            projectiles_expired(old(self)@, final(self)@, frames@, now),
            old(self).wf() ==> final(self).wf(),
    {
        let gone = self.projectiles.remove_expired(now);
        let mut frames: Vec<Outbound> = Vec::new();
        let mut i: usize = 0;
        while i < gone.len()
            invariant
                0 <= i <= gone.len(),
                frames@ == gone@.take(i as int).map_values(|id: String| fizzled_frame(id)),
            decreases gone.len() - i,
        {
            frames.push(
                Outbound {
                    to: Recipients::All,
                    message: ServerMessage::ProjectileImpact {
                        projectile_id: gone[i].clone(),
                        position: Position { x: 0, y: 0, z: 0 },
                        explosion_radius: None,
                        damage: 0,
                    },
                },
            );
            proof {
                assert(frames@ =~= gone@.take(i as int + 1).map_values(
                    |id: String| fizzled_frame(id),
                ));
            }
            i += 1;
        }
        proof {
            assert(gone@.take(gone@.len() as int) =~= gone@);
            assert(tells_of_fizzled(gone@, old(self)@, frames@, now));
        }
        frames
    }

    /// Lets every taken weapon whose respawn time has passed at `now` lie at its spawn point
    /// again, and tells everyone of each.
    pub fn respawn_weapons(&mut self, now: u64) -> (frames: Vec<Outbound>)
        ensures
            weapons_respawned(old(self)@, final(self)@, frames@, now),
            old(self).wf() ==> final(self).wf(),
    {
        let messages = self.spawn_manager.check_respawns(now);
        let frames = to_all(messages);
        proof {
            assert(self@.pools.spawned_weapons =~= weapons_returned(old(self)@.pools, now));
            assert(self@.pools.weapon_spawns =~= weapon_spawns_freed(old(self)@.pools, now));
        }
        frames
    }

    /// Stands every vehicle whose respawn is due at `now` again where it was first spawned.
    /// Everyone is told of each, and the engine is to remove the body that each has had and
    /// to make it a new one.
    pub fn respawn_vehicles(&mut self, now: u64) -> (r: Reaction)
        ensures
            vehicles_respawned(old(self)@, final(self)@, r.frames@, r.commands@, now),
            old(self).wf() ==> final(self).wf(),
    {
        let respawns = self.vehicles.check_respawns(now);
        let mut frames: Vec<Outbound> = Vec::new();
        let mut commands: Vec<PhysicsCommand> = Vec::new();
        let mut i: usize = 0;
        while i < respawns.len()
            invariant
                0 <= i <= respawns.len(),
                frames@.len() == i,
                forall|j: int| 0 <= j < i ==> is_respawn_frame(#[trigger] frames@[j], respawns@[j]),
                commands@ == rebody_commands(respawns@, i as int),
            decreases respawns.len() - i,
        {
            let p = to_local(&respawns[i].world_position, &WorldVector::zeros());
            frames.push(
                Outbound {
                    to: Recipients::All,
                    message: ServerMessage::VehicleSpawned {
                        vehicle_id: respawns[i].id.clone(),
                        vehicle_type: respawns[i].vehicle_type.clone(),
                        position: Position { x: p.x, y: p.y, z: p.z },
                        rotation: Rotation { x: 0, y: 0, z: 0, w: 1000 },
                    },
                },
            );
            match respawns[i].old_body {
                Some(body) => {
                    commands.push(PhysicsCommand::RemoveBody { body });
                },
                None => {},
            }
            commands.push(
                PhysicsCommand::CreateVehicleBody {
                    vehicle_id: respawns[i].id.clone(),
                    vehicle_type: respawns[i].vehicle_type.clone(),
                    position: respawns[i].world_position,
                },
            );
            i += 1;
        }
        proof {
            assert(tells_of_vehicles(respawns@, old(self)@, frames@, commands@, now));
        }
        Reaction { frames, commands }
    }

    /// Brings every dead participant whose respawn is due at `now` back into the world, at a
    /// spawn point drawn at random or at the default place. Everyone is told of each, and
    /// each body is placed where its participant came back.
    pub fn respawn_players(&mut self, now: u64) -> (r: Reaction)
        ensures
            players_respawned(old(self)@, final(self)@, r.frames@, r.commands@, now),
            old(self).wf() ==> final(self).wf(),
    {
        let back = self.players.respawn_due_players(&self.spawn_manager, now);
        let mut frames: Vec<Outbound> = Vec::new();
        let mut commands: Vec<PhysicsCommand> = Vec::new();
        let mut i: usize = 0;
        while i < back.len()
            invariant
                0 <= i <= back.len(),
                frames@.len() == i,
                forall|j: int| 0 <= j < i ==> is_back_frame(#[trigger] frames@[j], back@[j]),
                commands@ == teleport_commands(back@, i as int),
            decreases back.len() - i,
        {
            frames.push(
                Outbound {
                    to: Recipients::All,
                    message: ServerMessage::PlayerRespawned {
                        player_id: id_text(back[i].id),
                        position: Position::from_vector(&back[i].position),
                        health: back[i].health,
                    },
                },
            );
            match back[i].body_handle {
                Some(body) => {
                    commands.push(PhysicsCommand::Teleport { body, position: back[i].position });
                },
                None => {},
            }
            i += 1;
        }
        proof {
            let keys = choose|keys: Seq<u128>|
                lists_keys(keys, due_players(old(self)@.players, now)) && keys.len() == back@.len()
                    && forall|i: int|
                    0 <= i < back@.len() ==> (#[trigger] back@[i]).id == keys[i]
                        && self.players@[keys[i]] == old(self)@.players[keys[i]].respawned(
                        back@[i].position,
                    ) && back@[i].body_handle == old(self)@.players[keys[i]].body_handle
                        && back@[i].health == old(self)@.players[keys[i]].max_health
                        && is_spawn_point_of(self.spawn_manager.spawn_points@, back@[i].position);
            assert(tells_of_back(keys, back@, old(self)@, self@, frames@, commands@, now));
        }
        Reaction { frames, commands }
    }
}

/// How many ticks pass between two broadcasts of the state of objects, vehicles and
/// projectiles: they go out at half the rate of the tick.
pub const UPDATE_PERIOD: u64 = 2;

/// How many ticks pass between two broadcasts of the state of the moving platforms: they go
/// out at a third of the rate of the tick.
pub const PLATFORM_PERIOD: u64 = 3;

/// Whether the state of objects, vehicles and projectiles is broadcast in tick `tick`.
pub fn updates_due(tick: u64) -> (r: bool)
    ensures
        r == (tick % UPDATE_PERIOD == 0),
{
    tick % UPDATE_PERIOD == 0
}

/// Whether the state of the moving platforms is broadcast in tick `tick`.
pub fn platforms_due(tick: u64) -> (r: bool)
    ensures
        r == (tick % PLATFORM_PERIOD == 0),
{
    tick % PLATFORM_PERIOD == 0
}

/// The frame that tells the participant `receiver`, anchored at `anchor`, the state of the
/// object `o`.
pub open spec fn object_update(o: DynamicObject, receiver: u128, anchor: WorldVector) -> Outbound {
    Outbound {
        to: Recipients::One(receiver),
        message: ServerMessage::DynamicObjectUpdate {
            object_id: o.id,
            position: o.position_for(anchor),
            rotation: Rotation { x: o.rotation.i, y: o.rotation.j, z: o.rotation.k, w: o.rotation.w },
            velocity: Velocity { x: o.velocity.x, y: o.velocity.y, z: o.velocity.z },
        },
    }
}

/// `frames` tell every participant of `players` the state of the object `o` once, each as
/// seen from its own anchor.
pub open spec fn tells_of_object(
    frames: Seq<Outbound>,
    players: Map<u128, Player>,
    o: DynamicObject,
) -> bool {
    exists|keys: Seq<u128>| #[trigger] tells_of_object_to(frames, keys, players, o)
}

/// `frames` tell the participants under `keys`, which are all the participants of `players`,
/// the state of the object `o`, in that order.
pub open spec fn tells_of_object_to(
    frames: Seq<Outbound>,
    keys: Seq<u128>,
    players: Map<u128, Player>,
    o: DynamicObject,
) -> bool {
    &&& lists_keys(keys, players.dom())
    &&& frames.len() == keys.len()
    &&& forall|i: int|
        0 <= i < keys.len() ==> frames[i] == object_update(
            o,
            #[trigger] keys[i],
            players[keys[i]].world_origin,
        )
}

/// The keys of the objects that have a body.
pub open spec fn bodied_keys(m: Map<Seq<char>, DynamicObject>) -> Set<Seq<char>> {
    Set::new(|k: Seq<char>| m.contains_key(k) && m[k].body_handle is Some)
}

/// `groups` hold, for each object of `w` that has a body, the frames that tell every
/// participant its state.
pub open spec fn tells_of_objects(groups: Seq<Vec<Outbound>>, w: WorldView) -> bool {
    exists|keys: Seq<Seq<char>>| #[trigger] tells_of_objects_under(groups, keys, w)
}

/// `groups` hold, for each of the objects under `keys`, which are all the objects of `w`
/// that have a body, the frames that tell every participant its state, in that order.
pub open spec fn tells_of_objects_under(
    groups: Seq<Vec<Outbound>>,
    keys: Seq<Seq<char>>,
    w: WorldView,
) -> bool {
    &&& lists_keys(keys, bodied_keys(w.objects))
    &&& groups.len() == keys.len()
    &&& forall|i: int|
        0 <= i < keys.len() ==> tells_of_object(groups[i]@, w.players, w.objects[#[trigger] keys[i]])
}

/// `frame` tells the participant `receiver`, anchored at `anchor`, the state of the vehicle
/// `v`.
pub open spec fn is_vehicle_update(
    frame: Outbound,
    v: Vehicle,
    receiver: u128,
    anchor: WorldVector,
) -> bool {
    let seen = local_of(world_of(v.world_origin, v.position), anchor);
    &&& frame.to == Recipients::One(receiver)
    &&& match frame.message {
        ServerMessage::VehicleUpdate {
            vehicle_id,
            position,
            rotation,
            velocity,
            angular_velocity,
            health,
            pilot_id,
        } => {
            &&& vehicle_id == v.id
            &&& position == (Position { x: seen.x, y: seen.y, z: seen.z })
            &&& rotation == (Rotation {
                x: v.rotation.i,
                y: v.rotation.j,
                z: v.rotation.k,
                w: v.rotation.w,
            })
            &&& velocity == (Velocity { x: v.velocity.x, y: v.velocity.y, z: v.velocity.z })
            &&& angular_velocity == (Velocity {
                x: v.angular_velocity.x,
                y: v.angular_velocity.y,
                z: v.angular_velocity.z,
            })
            &&& health == v.health
            &&& pilot_id is Some <==> v.pilot_id is Some
            &&& pilot_id is Some ==> pilot_id->0@ == uuid_text(v.pilot_id->0)
        },
        _ => false,
    }
}

/// `frames` tell every participant of `players` the state of the vehicle `v` once, each as
/// seen from its own anchor.
pub open spec fn tells_of_vehicle(
    frames: Seq<Outbound>,
    players: Map<u128, Player>,
    v: Vehicle,
) -> bool {
    exists|keys: Seq<u128>| #[trigger] tells_of_vehicle_to(frames, keys, players, v)
}

/// `frames` tell the participants under `keys`, which are all the participants of `players`,
/// the state of the vehicle `v`, in that order.
pub open spec fn tells_of_vehicle_to(
    frames: Seq<Outbound>,
    keys: Seq<u128>,
    players: Map<u128, Player>,
    v: Vehicle,
) -> bool {
    &&& lists_keys(keys, players.dom())
    &&& frames.len() == keys.len()
    &&& forall|i: int|
        0 <= i < keys.len() ==> is_vehicle_update(
            frames[i],
            v,
            #[trigger] keys[i],
            players[keys[i]].world_origin,
        )
}

/// `groups` hold, for each vehicle of `w`, the frames that tell every participant its state.
pub open spec fn tells_of_all_vehicles(groups: Seq<Vec<Outbound>>, w: WorldView) -> bool {
    exists|keys: Seq<Seq<char>>| #[trigger] tells_of_vehicles_under(groups, keys, w)
}

/// `groups` hold, for each of the vehicles under `keys`, which are all the vehicles of `w`,
/// the frames that tell every participant its state, in that order.
pub open spec fn tells_of_vehicles_under(
    groups: Seq<Vec<Outbound>>,
    keys: Seq<Seq<char>>,
    w: WorldView,
) -> bool {
    &&& lists_keys(keys, w.vehicles.dom())
    &&& groups.len() == keys.len()
    &&& forall|i: int|
        0 <= i < keys.len() ==> tells_of_vehicle(
            groups[i]@,
            w.players,
            w.vehicles[#[trigger] keys[i]],
        )
}

/// The frame that tells everyone the state of the projectile `p`.
pub open spec fn projectile_update(p: Projectile) -> Outbound {
    Outbound {
        to: Recipients::All,
        message: ServerMessage::ProjectileUpdate {
            projectile_id: p.id,
            position: Position { x: p.position.x, y: p.position.y, z: p.position.z },
            velocity: Velocity { x: p.velocity.x, y: p.velocity.y, z: p.velocity.z },
            rotation: Rotation { x: p.rotation.i, y: p.rotation.j, z: p.rotation.k, w: p.rotation.w },
        },
    }
}

/// `frames` tell everyone the state of each projectile of `w` once.
pub open spec fn tells_of_projectiles(frames: Seq<Outbound>, w: WorldView) -> bool {
    exists|keys: Seq<Seq<char>>| #[trigger] tells_of_projectiles_under(frames, keys, w)
}

/// `frames` tell everyone the state of the projectiles under `keys`, which are all the
/// projectiles of `w`, in that order.
pub open spec fn tells_of_projectiles_under(
    frames: Seq<Outbound>,
    keys: Seq<Seq<char>>,
    w: WorldView,
) -> bool {
    &&& lists_keys(keys, w.projectiles.dom())
    &&& frames.len() == keys.len()
    &&& forall|i: int|
        0 <= i < keys.len() ==> frames[i] == projectile_update(w.projectiles[#[trigger] keys[i]])
}

impl AppState {
    /// The frames that tell every participant the state of the object `o`, each as seen from
    /// its own anchor.
    pub fn object_update_frames(&self, o: &DynamicObject) -> (frames: Vec<Outbound>)
        ensures
            tells_of_object(frames@, self@.players, *o),
    {
        let ids = self.players.ids();
        let world = o.get_world_position();
        let mut frames: Vec<Outbound> = Vec::new();
        let mut i: usize = 0;
        while i < ids.len()
            invariant
                0 <= i <= ids.len(),
                lists_keys(ids@, self.players@.dom()),
                world == world_of(o.world_origin, o.position),
                frames@.len() == i,
                forall|j: int|
                    0 <= j < i ==> #[trigger] frames@[j] == object_update(
                        *o,
                        ids@[j],
                        self.players@[ids@[j]].world_origin,
                    ),
            decreases ids.len() - i,
        {
            proof {
                assert(self.players@.dom().contains(ids@[i as int]));
            }
            let mut anchor = WorldVector::zeros();
            match self.players.get_player(ids[i]) {
                Some(p) => {
                    anchor = p.world_origin;
                },
                None => {},
            }
            let seen = to_local(&world, &anchor);
            frames.push(
                Outbound {
                    to: Recipients::One(ids[i]),
                    message: ServerMessage::DynamicObjectUpdate {
                        object_id: o.id.clone(),
                        position: Position { x: seen.x, y: seen.y, z: seen.z },
                        rotation: Rotation::from_quaternion(&o.rotation),
                        velocity: Velocity::from_vector(&o.velocity),
                    },
                },
            );
            i += 1;
        }
        proof {
            assert(self@.players == self.players@);
            assert(tells_of_object_to(frames@, ids@, self@.players, *o));
        }
        frames
    }

    /// For each object that has a body, the frames that tell every participant its state.
    pub fn object_updates(&self) -> (groups: Vec<Vec<Outbound>>)
        ensures
            tells_of_objects(groups@, self@),
    {
        let list = self.dynamic_objects.iter();
        let ghost keys = choose|keys: Seq<Seq<char>>|
            lists_keys(keys, self.dynamic_objects@.dom()) && keys.len() == list@.len() && forall|
                i: int,
            |
                0 <= i < list@.len() ==> #[trigger] list@[i] == self.dynamic_objects@[keys[i]];
        let ghost want = bodied_keys(self.dynamic_objects@);
        let ghost mut picked: Seq<Seq<char>> = Seq::empty();
        let mut groups: Vec<Vec<Outbound>> = Vec::new();
        let mut i: usize = 0;
        proof {
            lemma_picks_none(keys, want);
        }
        while i < list.len()
            invariant
                0 <= i <= list.len(),
                keys.len() == list@.len(),
                want == bodied_keys(self.dynamic_objects@),
                lists_keys(keys, self.dynamic_objects@.dom()),
                forall|j: int| 0 <= j < list@.len() ==> #[trigger] list@[j] == self.dynamic_objects@[keys[j]],
                picks(picked, keys, i as int, want),
                picked.len() == groups@.len(),
                forall|j: int|
                    0 <= j < picked.len() ==> tells_of_object(
                        groups@[j]@,
                        self@.players,
                        self.dynamic_objects@[#[trigger] picked[j]],
                    ),
            decreases list.len() - i,
        {
            proof {
                assert(list@[i as int] == self.dynamic_objects@[keys[i as int]]);
                assert(self.dynamic_objects@.dom().contains(keys[i as int]));
            }
            if list[i].body_handle.is_some() {
                let group = self.object_update_frames(&list[i]);
                groups.push(group);
                proof {
                    lemma_picks_take(picked, keys, i as int, want);
                    picked = picked.push(keys[i as int]);
                }
            } else {
                proof {
                    lemma_picks_skip(picked, keys, i as int, want);
                }
            }
            i += 1;
        }
        proof {
            lemma_picks_all(picked, keys, self.dynamic_objects@.dom(), want);
            assert(want.intersect(self.dynamic_objects@.dom()) =~= want);
            assert(self@.objects == self.dynamic_objects@);
            assert(tells_of_objects_under(groups@, picked, self@));
        }
        groups
    }

    /// The frames that tell every participant the state of the vehicle `v`, each as seen
    /// from its own anchor.
    pub fn vehicle_update_frames(&self, v: &Vehicle) -> (frames: Vec<Outbound>)
        ensures
            tells_of_vehicle(frames@, self@.players, *v),
    {
        let ids = self.players.ids();
        let world = v.get_world_position();
        let mut frames: Vec<Outbound> = Vec::new();
        let mut i: usize = 0;
        while i < ids.len()
            invariant
                0 <= i <= ids.len(),
                lists_keys(ids@, self.players@.dom()),
                world == world_of(v.world_origin, v.position),
                frames@.len() == i,
                forall|j: int|
                    0 <= j < i ==> is_vehicle_update(
                        #[trigger] frames@[j],
                        *v,
                        ids@[j],
                        self.players@[ids@[j]].world_origin,
                    ),
            decreases ids.len() - i,
        {
            proof {
                assert(self.players@.dom().contains(ids@[i as int]));
            }
            let mut anchor = WorldVector::zeros();
            match self.players.get_player(ids[i]) {
                Some(p) => {
                    anchor = p.world_origin;
                },
                None => {},
            }
            let seen = to_local(&world, &anchor);
            frames.push(
                Outbound {
                    to: Recipients::One(ids[i]),
                    message: ServerMessage::VehicleUpdate {
                        vehicle_id: v.id.clone(),
                        position: Position { x: seen.x, y: seen.y, z: seen.z },
                        rotation: Rotation::from_quaternion(&v.rotation),
                        velocity: Velocity::from_vector(&v.velocity),
                        angular_velocity: Velocity::from_vector(&v.angular_velocity),
                        health: v.health,
                        pilot_id: match v.pilot_id {
                            Some(p) => Some(id_text(p)),
                            None => None,
                        },
                    },
                },
            );
            i += 1;
        }
        proof {
            assert(self@.players == self.players@);
            assert(tells_of_vehicle_to(frames@, ids@, self@.players, *v));
        }
        frames
    }

    /// For each vehicle, the frames that tell every participant its state.
    pub fn vehicle_updates(&self) -> (groups: Vec<Vec<Outbound>>)
        ensures
            tells_of_all_vehicles(groups@, self@),
    {
        let list = self.vehicles.iter();
        let ghost keys = choose|keys: Seq<Seq<char>>|
            lists_keys(keys, self.vehicles@.dom()) && keys.len() == list@.len() && forall|i: int|
                0 <= i < list@.len() ==> #[trigger] list@[i] == self.vehicles@[keys[i]];
        let mut groups: Vec<Vec<Outbound>> = Vec::new();
        let mut i: usize = 0;
        while i < list.len()
            invariant
                0 <= i <= list.len(),
                keys.len() == list@.len(),
                forall|j: int| 0 <= j < list@.len() ==> #[trigger] list@[j] == self.vehicles@[keys[j]],
                groups@.len() == i,
                forall|j: int|
                    0 <= j < i ==> tells_of_vehicle(
                        (#[trigger] groups@[j])@,
                        self@.players,
                        self.vehicles@[keys[j]],
                    ),
            decreases list.len() - i,
        {
            proof {
                assert(list@[i as int] == self.vehicles@[keys[i as int]]);
            }
            let group = self.vehicle_update_frames(&list[i]);
            groups.push(group);
            i += 1;
        }
        proof {
            assert(self@.vehicles == self.vehicles@);
            assert(tells_of_vehicles_under(groups@, keys, self@));
        }
        groups
    }

    /// The frames that tell everyone the state of each projectile.
    pub fn projectile_updates(&self) -> (frames: Vec<Outbound>)
        ensures
            tells_of_projectiles(frames@, self@),
    {
        let ids = self.projectiles.ids();
        let ghost keys = views(ids@);
        let mut frames: Vec<Outbound> = Vec::new();
        let mut i: usize = 0;
        while i < ids.len()
            invariant
                0 <= i <= ids.len(),
                keys == views(ids@),
                lists_keys(keys, self.projectiles@.dom()),
                frames@.len() == i,
                forall|j: int|
                    0 <= j < i ==> #[trigger] frames@[j] == projectile_update(
                        self.projectiles@[keys[j]],
                    ),
            decreases ids.len() - i,
        {
            proof {
                assert(keys[i as int] == ids@[i as int]@);
                assert(self.projectiles@.dom().contains(keys[i as int]));
            }
            match self.projectiles.get_projectile(ids[i].as_str()) {
                Some(p) => {
                    frames.push(
                        Outbound {
                            to: Recipients::All,
                            message: ServerMessage::ProjectileUpdate {
                                position: Position::from_vector(&p.position),
                                velocity: Velocity::from_vector(&p.velocity),
                                rotation: Rotation::from_quaternion(&p.rotation),
                                projectile_id: p.id,
                            },
                        },
                    );
                },
                None => {},
            }
            i += 1;
        }
        proof {
            assert(self@.projectiles == self.projectiles@);
            assert(tells_of_projectiles_under(frames@, keys, self@));
        }
        frames
    }
}

/// What the phases before the physics step ask for.
pub struct Preparation {
    /// From the expiry of leases.
    pub leases: Reaction,
    /// From the eviction of old objects.
    pub evicted: Reaction,
}

/// What the closing phases of a tick ask for, by phase.
pub struct TickReport {
    /// Tells of the projectiles that have run out.
    pub fizzled: Vec<Outbound>,
    /// Tells of the weapons that lie at their spawn points again.
    pub weapons: Vec<Outbound>,
    /// From the respawning of vehicles.
    pub vehicles: Reaction,
    /// From the respawning of participants.
    pub players: Reaction,
    /// Tells of the state of the objects that have a body, in the ticks in which it goes out.
    pub object_updates: Vec<Vec<Outbound>>,
    /// Tells of the state of the vehicles, in the ticks in which it goes out.
    pub vehicle_updates: Vec<Vec<Outbound>>,
    /// Tells of the state of the projectiles, in the ticks in which it goes out.
    pub projectile_updates: Vec<Outbound>,
}

/// What the phases right after the physics step do: see `AppState::after_step`.
pub open spec fn stepped(
    w: WorldView,
    after: WorldView,
    frames: Seq<Outbound>,
    readings: Seq<BodyReading>,
    now: u64,
) -> bool {
    anchors_moved(bodies_read(w, readings, now), after, frames)
}

/// What the closing phases of a tick do: see `AppState::finish_tick`.
pub open spec fn finished(
    w: WorldView,
    after: WorldView,
    report: TickReport,
    now: u64,
    tick: u64,
) -> bool {
    let w1 = projectiles_swept(w, now);
    let w2 = weapons_swept(w1, now);
    let w3 = vehicles_swept(w2, now);
    &&& projectiles_expired(w, w1, report.fizzled@, now)
    &&& weapons_respawned(w1, w2, report.weapons@, now)
    &&& vehicles_respawned(w2, w3, report.vehicles.frames@, report.vehicles.commands@, now)
    &&& players_respawned(w3, after, report.players.frames@, report.players.commands@, now)
    &&& tick % UPDATE_PERIOD == 0 ==> tells_of_objects(report.object_updates@, after)
        && tells_of_all_vehicles(report.vehicle_updates@, after) && tells_of_projectiles(
        report.projectile_updates@,
        after,
    )
    &&& tick % UPDATE_PERIOD != 0 ==> report.object_updates@.len() == 0
        && report.vehicle_updates@.len() == 0 && report.projectile_updates@.len() == 0
}

/// The name under which the moving platform at place `i` goes out.
pub open spec fn platform_name(i: usize) -> Seq<char> {
    "moving_platform_"@ + decimal_text(i)
}

/// `frame` tells everyone that the moving platform at place `i` is at `position`.
pub open spec fn is_platform_frame(frame: Outbound, i: usize, position: LocalVector) -> bool {
    &&& frame.to == Recipients::All
    &&& match frame.message {
        ServerMessage::PlatformUpdate { platform_id, position: p } => {
            platform_id@ == platform_name(i) && p == (Position {
                x: position.x,
                y: position.y,
                z: position.z,
            })
        },
        _ => false,
    }
}

/// A projectile that steers towards a target, with where it is and where the target is.
#[derive(Debug, Clone)]
pub struct HomingTask {
    pub projectile_id: String,
    pub body_handle: Option<RigidBodyHandle>,
    pub position: LocalVector,
    pub velocity: LocalVector,
    pub target_position: LocalVector,
}

/// Where the target named `target` is, which names the participant `named` if it names one:
/// where the vehicle of that name is, or else where that participant is.
pub open spec fn target_place_of(w: WorldView, target: Seq<char>, named: Option<u128>) -> Option<
    LocalVector,
> {
    if w.vehicles.contains_key(target) {
        Some(w.vehicles[target].position)
    } else if named is Some && w.players.contains_key(named->0) {
        Some(w.players[named->0].position)
    } else {
        None
    }
}

/// Where the target named `target` is: the vehicle of that name, or else the participant of
/// that name.
pub open spec fn target_place(w: WorldView, target: Seq<char>) -> Option<LocalVector> {
    target_place_of(w, target, uuid_parsed(target))
}

/// The keys of the projectiles that steer towards a target whose place is known.
pub open spec fn homing_keys(w: WorldView) -> Set<Seq<char>> {
    Set::new(
        |k: Seq<char>|
            w.projectiles.contains_key(k) && w.projectiles[k].seeks() && target_place(
                w,
                w.projectiles[k].target_id->0@,
            ) is Some,
    )
}

/// The identifiers that a list of tasks names.
pub open spec fn task_names(tasks: Seq<HomingTask>) -> Seq<Seq<char>> {
    tasks.map_values(|t: HomingTask| t.projectile_id@)
}

/// `task` says of the projectile that it names where it is, how it moves, and where its
/// target is.
pub open spec fn describes(task: HomingTask, w: WorldView) -> bool {
    let p = w.projectiles[task.projectile_id@];
    &&& task.body_handle == p.body_handle
    &&& task.position == p.position
    &&& task.velocity == p.velocity
    &&& Some(task.target_position) == target_place(w, p.target_id->0@)
}

/// `tasks` name the projectiles of `w` that steer towards a target whose place is known,
/// each once, and describe each.
pub open spec fn tasks_of(tasks: Seq<HomingTask>, w: WorldView) -> bool {
    &&& lists_keys(task_names(tasks), homing_keys(w))
    &&& forall|i: int| 0 <= i < tasks.len() ==> describes(#[trigger] tasks[i], w)
}

impl AppState {
    /// The phases of a tick that come before the physics step: leases that have run out at
    /// `now` are revoked, then objects that have outlived their lifetime are removed.
    /// Afterwards no object carries a lease that has run out.
    pub fn before_step(&mut self, now: u64) -> (r: Preparation)
        ensures
            leases_expired(
                old(self)@,
                leases_swept(old(self)@, now),
                r.leases.frames@,
                r.leases.commands@,
                now,
            ),
            objects_expired(
                leases_swept(old(self)@, now),
                final(self)@,
                r.evicted.frames@,
                r.evicted.commands@,
                now,
            ),
            final(self).dynamic_objects.leases_current(now),
            old(self).wf() ==> final(self).wf(),
    {
        let leases = self.expire_leases(now);
        let ghost swept = self.dynamic_objects@;
        let evicted = self.evict_expired_objects(now);
        proof {
            assert forall|k: Seq<char>| #[trigger]
                self.dynamic_objects@.contains_key(k) implies self.dynamic_objects@[k].lease_current(
                now,
            ) by {
                assert(swept.contains_key(k));
            }
        }
        Preparation { leases, evicted }
    }

    /// The phases of a tick that come right after the physics step, of which the engine
    /// reports `readings`: the bodies are read back, and the anchors of the participants are
    /// recentered. Each participant whose anchor has moved, and nobody else, is told so.
    pub fn after_step(&mut self, readings: &Vec<BodyReading>, now: u64) -> (frames: Vec<Outbound>)
        ensures
            stepped(old(self)@, final(self)@, frames@, readings@, now),
            old(self).wf() ==> final(self).wf(),
    {
        self.read_back(readings, now);
        self.recenter_anchors()
    }

    /// The closing phases of a tick, after homing projectiles have been steered: projectiles
    /// run out, weapons, vehicles and participants come back, and, in every second tick, the
    /// state of objects, vehicles and projectiles is broadcast.
    pub fn finish_tick(&mut self, now: u64, tick: u64) -> (report: TickReport)
        ensures
            finished(old(self)@, final(self)@, report, now, tick),
            old(self).wf() ==> final(self).wf(),
    {
        let fizzled = self.expire_projectiles(now);
        let weapons = self.respawn_weapons(now);
        let vehicles = self.respawn_vehicles(now);
        let players = self.respawn_players(now);
        let mut object_updates: Vec<Vec<Outbound>> = Vec::new();
        let mut vehicle_updates: Vec<Vec<Outbound>> = Vec::new();
        let mut projectile_updates: Vec<Outbound> = Vec::new();
        if updates_due(tick) {
            object_updates = self.object_updates();
            vehicle_updates = self.vehicle_updates();
            projectile_updates = self.projectile_updates();
        }
        TickReport {
            fizzled,
            weapons,
            vehicles,
            players,
            object_updates,
            vehicle_updates,
            projectile_updates,
        }
    }

    /// The frames that tell everyone where the moving platforms are, of which the engine
    /// reports `positions`, in order.
    pub fn platform_frames(positions: &Vec<LocalVector>) -> (frames: Vec<Outbound>)
        ensures
            frames@.len() == positions@.len(),
            forall|i: int|
                0 <= i < positions@.len() ==> is_platform_frame(
                    #[trigger] frames@[i],
                    i as usize,
                    positions@[i],
                ),
    {
        let mut frames: Vec<Outbound> = Vec::new();
        let mut i: usize = 0;
        while i < positions.len()
            invariant
                0 <= i <= positions@.len(),
                frames@.len() == i,
                forall|j: int|
                    0 <= j < i ==> is_platform_frame(#[trigger] frames@[j], j as usize, positions@[j]),
            decreases positions@.len() - i,
        {
            frames.push(
                Outbound {
                    to: Recipients::All,
                    message: ServerMessage::PlatformUpdate {
                        platform_id: String::from_str("moving_platform_").concat(
                            number_text(i).as_str(),
                        ),
                        position: Position::from_vector(&positions[i]),
                    },
                },
            );
            i += 1;
        }
        frames
    }

    /// Where the target named `target` is, if it is known.
    pub fn target_position(&self, target: &str) -> (r: Option<LocalVector>)
        ensures
            r == target_place(self@, target@),
    {
        self.target_position_of(target, parse_id(target))
    }

    /// Where the target named `target` is, which names the participant `named` if it names
    /// one: where the vehicle of that name is, or else where that participant is.
    pub fn target_position_of(&self, target: &str, named: Option<u128>) -> (r: Option<LocalVector>)
        ensures
            r == target_place_of(self@, target@, named),
    {
        match self.vehicles.get_vehicle(target) {
            Some(v) => Some(v.position),
            None => {
                match named {
                    Some(id) => {
                        match self.players.get_player(id) {
                            Some(p) => Some(p.position),
                            None => None,
                        }
                    },
                    None => None,
                }
            },
        }
    }

    /// The projectiles that steer towards a target whose place is known, each with where it
    /// is and where its target is, in no particular order.
    pub fn homing_tasks(&self) -> (tasks: Vec<HomingTask>)
        ensures
            tasks_of(tasks@, self@),
    {
        let ids = self.projectiles.ids();
        let ghost keys = views(ids@);
        let ghost want = homing_keys(self@);
        let mut tasks: Vec<HomingTask> = Vec::new();
        let mut i: usize = 0;
        proof {
            lemma_picks_none(keys, want);
            assert(task_names(tasks@) =~= Seq::<Seq<char>>::empty());
            assert(self@.projectiles == self.projectiles@);
        }
        while i < ids.len()
            invariant
                0 <= i <= ids.len(),
                keys == views(ids@),
                want == homing_keys(self@),
                self@.projectiles == self.projectiles@,
                lists_keys(keys, self.projectiles@.dom()),
                picks(task_names(tasks@), keys, i as int, want),
                forall|j: int| 0 <= j < tasks@.len() ==> describes(#[trigger] tasks@[j], self@),
            decreases ids.len() - i,
        {
            let id = &ids[i];
            proof {
                assert(keys[i as int] == id@);
                assert(self.projectiles@.dom().contains(keys[i as int]));
            }
            let ghost picked = task_names(tasks@);
            let mut task: Option<HomingTask> = None;
            match self.projectiles.get_projectile(id.as_str()) {
                Some(p) => {
                    if p.is_homing {
                        match &p.target_id {
                            Some(target) => {
                                match self.target_position(target.as_str()) {
                                    Some(target_position) => {
                                        task = Some(
                                            HomingTask {
                                                projectile_id: id.clone(),
                                                body_handle: p.body_handle,
                                                position: p.position,
                                                velocity: p.velocity,
                                                target_position,
                                            },
                                        );
                                    },
                                    None => {},
                                }
                            },
                            None => {},
                        }
                    }
                },
                None => {},
            }
            match task {
                Some(t) => {
                    tasks.push(t);
                    proof {
                        lemma_picks_take(picked, keys, i as int, want);
                        assert(task_names(tasks@) =~= picked.push(keys[i as int]));
                    }
                },
                None => {
                    proof {
                        lemma_picks_skip(picked, keys, i as int, want);
                    }
                },
            }
            i += 1;
        }
        proof {
            lemma_picks_all(task_names(tasks@), keys, self.projectiles@.dom(), want);
            assert(want.intersect(self.projectiles@.dom()) =~= want);
        }
        tasks
    }
}

/// The spawn point of the vehicle item at place `i` of `pools`, if the item is there and its
/// spawn point is known.
pub open spec fn spawn_of_item(pools: Pools, i: int) -> Option<VehicleSpawnPoint> {
    if 0 <= i < pools.spawned_vehicles.len() && slot_of(
        vehicle_spawn_names(pools.vehicle_spawns),
        pools.spawned_vehicles[i].spawn_point_id@,
    ) is Some {
        Some(
            pools.vehicle_spawns[slot_of(
                vehicle_spawn_names(pools.vehicle_spawns),
                pools.spawned_vehicles[i].spawn_point_id@,
            )->0],
        )
    } else {
        None
    }
}

/// What the placing of a vehicle does: see `AppState::place_vehicle`.
pub open spec fn vehicle_placed(
    w: WorldView,
    after: WorldView,
    frames: Seq<Outbound>,
    commands: Seq<PhysicsCommand>,
    i: int,
    now: u64,
) -> bool {
    match spawn_of_item(w.pools, i) {
        None => after == w && frames.len() == 0 && commands.len() == 0,
        Some(spawn) => {
            let item = w.pools.spawned_vehicles[i];
            let at = WorldVector {
                x: spawn.position.x as i64,
                y: spawn.position.y as i64,
                z: spawn.position.z as i64,
            };
            &&& after.players == w.players
            &&& after.objects == w.objects
            &&& after.projectiles == w.projectiles
            &&& after.pools == w.pools
            &&& after.water == w.water
            &&& after.vehicles.dom() == w.vehicles.dom().insert(item.item_id@)
            &&& is_new_vehicle(
                after.vehicles[item.item_id@],
                item.item_id@,
                spawn.vehicle_type@,
                at,
                Some(
                    Quaternion {
                        i: spawn.rotation.x,
                        j: spawn.rotation.y,
                        k: spawn.rotation.z,
                        w: spawn.rotation.w,
                    },
                ),
                None,
                now,
            )
            &&& forall|k: Seq<char>|
                k != item.item_id@ && #[trigger] w.vehicles.contains_key(k) ==> after.vehicles[k]
                    == w.vehicles[k]
            &&& frames =~= seq![
                Outbound {
                    to: Recipients::All,
                    message: ServerMessage::VehicleSpawned {
                        vehicle_id: item.item_id,
                        vehicle_type: spawn.vehicle_type,
                        position: spawn.position,
                        rotation: spawn.rotation,
                    },
                },
            ]
            &&& commands =~= seq![
                PhysicsCommand::CreateVehicleBody {
                    vehicle_id: item.item_id,
                    vehicle_type: spawn.vehicle_type,
                    position: at,
                },
            ]
        },
    }
}

impl AppState {
    /// Stands the vehicle that the spawn pools hold at place `i` at its spawn point, if there
    /// is such an item and its spawn point is known: the vehicle is in the world under the
    /// name of the item, everyone is told, and the engine is to make it a body.
    pub fn place_vehicle(&mut self, i: usize, now: u64) -> (r: Reaction)
        ensures
            vehicle_placed(old(self)@, final(self)@, r.frames@, r.commands@, i as int, now),
            old(self).wf() ==> final(self).wf(),
    {
        let mut frames: Vec<Outbound> = Vec::new();
        let mut commands: Vec<PhysicsCommand> = Vec::new();
        if i >= self.spawn_manager.spawned_vehicles.len() {
            return Reaction { frames, commands };
        }
        let j = match find_vehicle_spawn(
            &self.spawn_manager.vehicle_spawns,
            self.spawn_manager.spawned_vehicles[i].spawn_point_id.as_str(),
        ) {
            Some(j) => j,
            None => {
                return Reaction { frames, commands };
            },
        };
        let position = self.spawn_manager.vehicle_spawns[j].position;
        let rotation = self.spawn_manager.vehicle_spawns[j].rotation;
        let at = WorldVector { x: position.x as i64, y: position.y as i64, z: position.z as i64 };
        self.vehicles.spawn_vehicle_with_id(
            self.spawn_manager.spawned_vehicles[i].item_id.clone(),
            self.spawn_manager.vehicle_spawns[j].vehicle_type.clone(),
            at,
            Some(rotation.to_quaternion()),
            None,
            now,
        );
        frames.push(
            Outbound {
                to: Recipients::All,
                message: ServerMessage::VehicleSpawned {
                    vehicle_id: self.spawn_manager.spawned_vehicles[i].item_id.clone(),
                    vehicle_type: self.spawn_manager.vehicle_spawns[j].vehicle_type.clone(),
                    position,
                    rotation,
                },
            },
        );
        commands.push(
            PhysicsCommand::CreateVehicleBody {
                vehicle_id: self.spawn_manager.spawned_vehicles[i].item_id.clone(),
                vehicle_type: self.spawn_manager.vehicle_spawns[j].vehicle_type.clone(),
                position: at,
            },
        );
        Reaction { frames, commands }
    }
}

} // verus!
