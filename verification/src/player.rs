//! Participants: their health and respawn state, and the registry that fans frames out to
//! their sessions.
//!
//! Health, armor and damage are thousandths of a point. A participant is dead exactly when
//! its health is zero, and only a dead participant waits for a respawn.

use crate::ids::id_text;
use crate::ids::uuid_text;
use crate::messages::{
    Outbound, PlayerInfo, Position, Recipients, Rotation, ServerMessage, Velocity,
};
use crate::origin::{
    local_of, needs_recenter, recenter_if_needed, recentered_anchor, recentered_local, to_local,
    world_of, world_position, LocalVector, Quaternion, WorldVector,
};
use crate::spawns::{PlayerSpawnPoint, SpawnManager};
use crate::physics::{in_water, ColliderHandle, PhysicsWorld, RigidBodyHandle};
use crate::clock::{deadline, deadline_after};
use crate::store::{
    lemma_listed_all, lemma_not_listed_before, lemma_picks_all, lemma_picks_none,
    lemma_picks_skip, lemma_picks_take, listed_before, lists_keys, picks,
};
use dashmap::DashMap;
use vstd::prelude::*;

verus! {

/// The health a participant starts with, in thousandths of a point.
pub const DEFAULT_MAX_HEALTH: u32 = 100_000;

/// The most armor a participant can carry, in thousandths of a point.
pub const MAX_ARMOR: u32 = 100_000;

/// How long a participant stays dead before respawning, in milliseconds.
pub const RESPAWN_DELAY_MS: u64 = 5_000;

/// A connected participant.
#[derive(Debug, Clone)]
pub struct Player {
    pub id: u128,
    pub position: LocalVector,
    pub rotation: Quaternion,
    pub velocity: LocalVector,
    pub is_grounded: bool,
    pub is_swimming: bool,
    pub world_origin: WorldVector,
    pub body_handle: Option<RigidBodyHandle>,
    pub collider_handle: Option<ColliderHandle>,
    pub current_vehicle_id: Option<String>,
    pub relative_position: Option<LocalVector>,
    pub relative_rotation: Option<Quaternion>,
    pub aim_rotation: Option<Quaternion>,
    pub health: u32,
    pub armor: u32,
    pub max_health: u32,
    pub max_armor: u32,
    pub is_dead: bool,
    pub last_damage_time: u64,
    pub respawn_time: Option<u64>,
    pub current_weapon: Option<String>,
}

/// What armor takes of `damage`: half of it, as far as the armor goes.
pub open spec fn absorbed(damage: u32, armor: u32) -> u32 {
    if damage / 2 <= armor {
        damage / 2
    } else {
        armor
    }
}

/// The health left of `health` after `damage` met `armor`.
pub open spec fn health_after(health: u32, armor: u32, damage: u32) -> u32 {
    let taken = damage - absorbed(damage, armor);
    if taken >= health {
        0
    } else {
        (health - taken) as u32
    }
}

/// `health` raised by `amount`, but not over `max_health`.
pub open spec fn healed(health: u32, amount: u32, max_health: u32) -> u32 {
    if health + amount >= max_health {
        max_health
    } else {
        (health + amount) as u32
    }
}

impl Player {
    /// Health is within its bounds, the participant is dead exactly when health is zero, and
    /// a respawn is awaited only by the dead.
    pub open spec fn wf(self) -> bool {
        &&& 0 < self.max_health
        &&& self.health <= self.max_health
        &&& self.is_dead <==> self.health == 0
        &&& self.respawn_time is Some ==> self.is_dead
    }

    /// The participant after taking `damage` at `now`.
    pub open spec fn damaged(self, damage: u32, now: u64) -> Player {
        let health = health_after(self.health, self.armor, damage);
        Player {
            armor: (self.armor - absorbed(damage, self.armor)) as u32,
            health,
            last_damage_time: now,
            is_dead: self.is_dead || health == 0,
            respawn_time: if health == 0 {
                Some(deadline(now, RESPAWN_DELAY_MS))
            } else {
                self.respawn_time
            },
            ..self
        }
    }

    /// The participant back in the world at `spawn_position`, in full health.
    pub open spec fn respawned(self, spawn_position: LocalVector) -> Player {
        Player {
            health: self.max_health,
            armor: 0,
            is_dead: false,
            respawn_time: None,
            position: spawn_position,
            velocity: LocalVector { x: 0, y: 0, z: 0 },
            current_vehicle_id: None,
            relative_position: None,
            relative_rotation: None,
            ..self
        }
    }

    /// The participant healed by `amount`; the dead are not healed.
    pub open spec fn with_heal(self, amount: u32) -> Player {
        if self.is_dead {
            self
        } else {
            Player { health: healed(self.health, amount, self.max_health), ..self }
        }
    }

    /// The participant with `amount` more armor, up to the most that can be carried.
    pub open spec fn with_armor(self, amount: u32) -> Player {
        Player { armor: healed(self.armor, amount, MAX_ARMOR), ..self }
    }

    /// The participant with its anchor recentered where its local offset has grown too long.
    pub open spec fn recentered(self) -> Player {
        Player {
            world_origin: recentered_anchor(self.world_origin, self.position),
            position: recentered_local(self.position),
            ..self
        }
    }

    /// Whether the participant is dead and its respawn is due at `now`.
    pub open spec fn due(self, now: u64) -> bool {
        self.is_dead && self.respawn_time is Some && now >= self.respawn_time->0
    }

    /// Where an observer anchored at `origin` sees the participant.
    pub open spec fn position_for(self, origin: WorldVector) -> Position {
        let p = local_of(world_of(self.world_origin, self.position), origin);
        Position { x: p.x, y: p.y, z: p.z }
    }

    /// A participant who has just joined at `position`: alive, in full health, anchored at
    /// the world's origin.
    pub open spec fn joined(id: u128, position: LocalVector, now: u64) -> Player {
        Player {
            id,
            position,
            rotation: Quaternion { i: 0, j: 0, k: 0, w: 1000 },
            velocity: LocalVector { x: 0, y: 0, z: 0 },
            is_grounded: false,
            is_swimming: false,
            world_origin: WorldVector { x: 0, y: 0, z: 0 },
            body_handle: None,
            collider_handle: None,
            current_vehicle_id: None,
            relative_position: None,
            relative_rotation: None,
            aim_rotation: None,
            health: DEFAULT_MAX_HEALTH,
            armor: 0,
            max_health: DEFAULT_MAX_HEALTH,
            max_armor: MAX_ARMOR,
            is_dead: false,
            last_damage_time: now,
            respawn_time: None,
            current_weapon: None,
        }
    }

    /// A participant who has just joined at `position`.
    pub fn new(id: u128, position: LocalVector, now: u64) -> (r: Player)
        ensures
            r == Player::joined(id, position, now),
            r.wf(),
    {
        Player {
            id,
            position,
            rotation: Quaternion::identity(),
            velocity: LocalVector::zeros(),
            is_grounded: false,
            is_swimming: false,
            world_origin: WorldVector::zeros(),
            body_handle: None,
            collider_handle: None,
            current_vehicle_id: None,
            relative_position: None,
            relative_rotation: None,
            aim_rotation: None,
            health: DEFAULT_MAX_HEALTH,
            armor: 0,
            max_health: DEFAULT_MAX_HEALTH,
            max_armor: MAX_ARMOR,
            is_dead: false,
            last_damage_time: now,
            respawn_time: None,
            current_weapon: None,
        }
    }

    /// A copy of the participant.
    pub fn duplicate(&self) -> (r: Player)
        ensures
            r == *self,
    {
        Player {
            id: self.id,
            position: self.position,
            rotation: self.rotation,
            velocity: self.velocity,
            is_grounded: self.is_grounded,
            is_swimming: self.is_swimming,
            world_origin: self.world_origin,
            body_handle: self.body_handle,
            collider_handle: self.collider_handle,
            current_vehicle_id: match &self.current_vehicle_id {
                Some(s) => Some(s.clone()),
                None => None,
            },
            relative_position: self.relative_position,
            relative_rotation: self.relative_rotation,
            aim_rotation: self.aim_rotation,
            health: self.health,
            armor: self.armor,
            max_health: self.max_health,
            max_armor: self.max_armor,
            is_dead: self.is_dead,
            last_damage_time: self.last_damage_time,
            respawn_time: self.respawn_time,
            current_weapon: match &self.current_weapon {
                Some(s) => Some(s.clone()),
                None => None,
            },
        }
    }

    /// Sets whether the participant swims from where its body is, if the engine knows the
    /// body, and returns whether it swims.
    pub fn check_swimming(&mut self, physics: &PhysicsWorld, body_position: Option<LocalVector>) -> (r:
        bool)
        ensures
            r == final(self).is_swimming,
            *final(self) == (Player {
                is_swimming: if old(self).body_handle is Some && body_position is Some {
                    in_water(physics.water_volumes@, body_position->0)
                } else {
                    old(self).is_swimming
                },
                ..*old(self)
            }),
    {
        if self.body_handle.is_some() {
            match body_position {
                Some(pos) => {
                    self.is_swimming = physics.is_position_in_water(&pos);
                },
                None => {},
            }
        }
        self.is_swimming
    }

    /// The participant's position in the world frame.
    pub fn get_world_position(&self) -> (r: WorldVector)
        ensures
            r == world_of(self.world_origin, self.position),
    {
        world_position(&self.world_origin, &self.position)
    }

    /// Brings the participant back into the world at `spawn_position`, in full health.
    pub fn respawn(&mut self, spawn_position: LocalVector)
        ensures
            *final(self) == old(self).respawned(spawn_position),
            old(self).max_health > 0 ==> final(self).wf(),
    {
        self.health = self.max_health;
        self.armor = 0;
        self.is_dead = false;
        self.respawn_time = None;
        self.position = spawn_position;
        self.velocity = LocalVector::zeros();
        self.current_vehicle_id = None;
        self.relative_position = None;
        self.relative_rotation = None;
    }

    /// Heals the participant by `amount`, up to full health; the dead are not healed.
    pub fn heal(&mut self, amount: u32)
        ensures
            *final(self) == old(self).with_heal(amount),
            old(self).wf() ==> final(self).wf(),
    {
        if !self.is_dead {
            self.health = raise(self.health, amount, self.max_health);
        }
    }

    /// Gives the participant `amount` more armor, up to the most that can be carried.
    pub fn add_armor(&mut self, amount: u32)
        ensures
            *final(self) == old(self).with_armor(amount),
            old(self).wf() ==> final(self).wf(),
    {
        self.armor = raise(self.armor, amount, MAX_ARMOR);
    }

    /// Takes `damage` at `now`: armor takes half of it as far as it goes, health the rest.
    /// At zero health the participant is dead and respawns five seconds later. Says whether
    /// the participant is dead.
    pub fn take_damage(&mut self, damage: u32, now: u64) -> (dead: bool)
        ensures
            *final(self) == old(self).damaged(damage, now),
            dead == final(self).is_dead,
            old(self).wf() ==> final(self).wf(),
            old(self).wf() ==> (dead <==> damage - absorbed(damage, old(self).armor) >= old(
                self,
            ).health),
    {
        let half = damage / 2;
        let armor_absorbed = if half <= self.armor {
            half
        } else {
            self.armor
        };
        self.armor = self.armor - armor_absorbed;
        let actual_damage = damage - armor_absorbed;
        self.health = if actual_damage >= self.health {
            0
        } else {
            self.health - actual_damage
        };
        self.last_damage_time = now;
        if self.health == 0 {
            self.is_dead = true;
            self.respawn_time = Some(deadline_after(now, RESPAWN_DELAY_MS));
        }
        self.is_dead
    }

    /// Asks for a respawn at `now`: a dead participant who is not yet waiting for one waits
    /// from now on. Says whether the request was taken.
    pub fn request_respawn(&mut self, now: u64) -> (taken: bool)
        ensures
            taken == (old(self).is_dead && old(self).respawn_time is None),
            taken ==> *final(self) == (Player { respawn_time: Some(now), ..*old(self) }),
            !taken ==> *final(self) == *old(self),
            old(self).wf() ==> final(self).wf(),
    {
        if self.is_dead && self.respawn_time.is_none() {
            self.respawn_time = Some(now);
            true
        } else {
            false
        }
    }

    /// Recenters the participant's anchor where its local offset has grown longer than one
    /// thousand metres, and says whether the anchor moved. The participant's place in the
    /// world stays what it was.
    pub fn recenter(&mut self) -> (moved: bool)
        ensures
            moved == needs_recenter(old(self).position),
            *final(self) == old(self).recentered(),
            world_of(final(self).world_origin, final(self).position) == world_of(
                old(self).world_origin,
                old(self).position,
            ),
            old(self).wf() ==> final(self).wf(),
    {
        let mut anchor = self.world_origin;
        let mut local = self.position;
        let moved = recenter_if_needed(&mut anchor, &mut local);
        self.world_origin = anchor;
        self.position = local;
        moved
    }

    /// Whether the participant is dead and its respawn is due at `now`.
    pub fn respawn_due(&self, now: u64) -> (r: bool)
        ensures
            r == self.due(now),
    {
        self.is_dead && match self.respawn_time {
            Some(t) => now >= t,
            None => false,
        }
    }
}

/// Health stays within its bounds, and a participant is dead exactly when its health is
/// zero, through everything that is done to a participant: damage, healing, armor, a request
/// to respawn, a respawn, and the recentering of its anchor.
pub proof fn lemma_health_bounds(
    p: Player,
    damage: u32,
    amount: u32,
    spawn_position: LocalVector,
    now: u64,
)
    requires
        p.wf(),
    ensures
        p.damaged(damage, now).wf(),
        p.with_heal(amount).wf(),
        p.with_armor(amount).wf(),
        p.respawned(spawn_position).wf(),
        p.recentered().wf(),
        p.is_dead ==> (Player { respawn_time: Some(now), ..p }).wf(),
        0 <= p.health <= p.max_health,
        p.is_dead <==> p.health == 0,
{
}

fn raise(value: u32, amount: u32, limit: u32) -> (r: u32)
    ensures
        r == healed(value, amount, limit),
{
    if amount >= limit || value >= limit - amount {
        limit
    } else {
        value + amount
    }
}

/// The participants that a map of participants holds, by identifier.
pub uninterp spec fn player_entries(m: &DashMap<u128, Player>) -> Map<u128, Player>;

/// `DashMap::new`: a map that holds nothing.
#[verifier::external_body]
fn players_new() -> (m: DashMap<u128, Player>)
    ensures
        player_entries(&m).dom() =~= Set::empty(),
{
    DashMap::new()
}

/// `DashMap::insert`: afterwards the map holds `value` under `key`, in place of what it held
/// there; every other entry stays.
#[verifier::external_body]
fn players_insert(m: &mut DashMap<u128, Player>, key: u128, value: Player)
    ensures
        player_entries(final(m)) == player_entries(old(m)).insert(key, value),
{
    m.insert(key, value);
}

/// `DashMap::get`: a copy of what the map holds under `key`, if it holds anything there.
#[verifier::external_body]
fn players_get(m: &DashMap<u128, Player>, key: u128) -> (r: Option<Player>)
    ensures
        r is Some <==> player_entries(m).contains_key(key),
        r is Some ==> r->0 == player_entries(m)[key],
{
    m.get(&key).map(|e| e.value().duplicate())
}

/// `DashMap::remove`: afterwards the map holds nothing under `key`; every other entry stays.
/// What it held there is returned.
#[verifier::external_body]
fn players_remove(m: &mut DashMap<u128, Player>, key: u128) -> (r: Option<Player>)
    ensures
        player_entries(final(m)) == player_entries(old(m)).remove(key),
        r is Some <==> player_entries(old(m)).contains_key(key),
        r is Some ==> r->0 == player_entries(old(m))[key],
{
    m.remove(&key).map(|e| e.1)
}

/// `DashMap::iter`, keys only: every key of the map once, in no particular order.
#[verifier::external_body]
fn players_keys(m: &DashMap<u128, Player>) -> (r: Vec<u128>)
    ensures
        lists_keys(r@, player_entries(m).dom()),
{
    m.iter().map(|e| *e.key()).collect()
}

/// The connected participants, by identifier.
pub struct PlayerManager {
    pub players: DashMap<u128, Player>,
}

impl View for PlayerManager {
    type V = Map<u128, Player>;

    open spec fn view(&self) -> Map<u128, Player> {
        player_entries(&self.players)
    }
}

/// `info` is what an observer is told of `player`: its identifier as text, its state, and
/// its position as seen from `origin`, or its own local position where there is no observer.
pub open spec fn is_info_of(info: PlayerInfo, player: Player, origin: Option<WorldVector>) -> bool {
    &&& info.id@ == uuid_text(player.id)
    &&& info.position == (match origin {
        Some(o) => player.position_for(o),
        None => Position { x: player.position.x, y: player.position.y, z: player.position.z },
    })
    &&& info.rotation == Some(
        Rotation {
            x: player.rotation.i,
            y: player.rotation.j,
            z: player.rotation.k,
            w: player.rotation.w,
        },
    )
    &&& info.velocity == Some(
        Velocity { x: player.velocity.x, y: player.velocity.y, z: player.velocity.z },
    )
    &&& info.is_grounded == Some(player.is_grounded)
    &&& info.is_swimming == Some(player.is_swimming)
}

/// The anchor of the participant under `id`, if there is one.
pub open spec fn anchor_of(m: Map<u128, Player>, id: u128) -> Option<WorldVector> {
    if m.contains_key(id) {
        Some(m[id].world_origin)
    } else {
        None
    }
}

/// The world position that a frame about participant `sender` speaks of: where the
/// participant is, or, if it is not known, the frame's own position read as a world position.
pub open spec fn sender_world(
    m: Map<u128, Player>,
    sender: u128,
    position: Position,
) -> WorldVector {
    if m.contains_key(sender) {
        world_of(m[sender].world_origin, m[sender].position)
    } else {
        WorldVector { x: position.x as i64, y: position.y as i64, z: position.z as i64 }
    }
}

/// The height at which participants enter the world where no spawn point is known, in
/// millimetres.
pub const DEFAULT_SPAWN_HEIGHT: i32 = 80_000;

/// A participant who has come back into the world.
#[derive(Clone, Copy, Debug, PartialEq, Eq, Structural)]
pub struct Respawn {
    pub id: u128,
    pub position: LocalVector,
    pub body_handle: Option<RigidBodyHandle>,
    pub health: u32,
}

/// Whether `position` is a place where participants enter the world: one of `spawn_points`,
/// or the default place where there is none.
pub open spec fn is_spawn_point_of(
    spawn_points: Seq<PlayerSpawnPoint>,
    position: LocalVector,
) -> bool {
    if spawn_points.len() == 0 {
        position == (LocalVector { x: 0, y: DEFAULT_SPAWN_HEIGHT, z: 0 })
    } else {
        exists|i: int|
            0 <= i < spawn_points.len() && position == (LocalVector {
                x: (#[trigger] spawn_points[i]).position.x,
                y: spawn_points[i].position.y,
                z: spawn_points[i].position.z,
            })
    }
}

/// The frame that tells participant `id` that its anchor is now `anchor`.
pub open spec fn origin_update(id: u128, anchor: WorldVector) -> Outbound {
    let p = local_of(anchor, WorldVector { x: 0, y: 0, z: 0 });
    Outbound {
        to: Recipients::One(id),
        message: ServerMessage::OriginUpdate { origin: Position { x: p.x, y: p.y, z: p.z } },
    }
}

/// The participants whose local offset has grown too long.
pub open spec fn far_keys(m: Map<u128, Player>) -> Set<u128> {
    Set::new(|k: u128| m.contains_key(k) && needs_recenter(m[k].position))
}

/// The participants who are dead and whose respawn is due at `now`.
pub open spec fn due_players(m: Map<u128, Player>, now: u64) -> Set<u128> {
    Set::new(|k: u128| m.contains_key(k) && m[k].due(now))
}

/// Where a participant sees a point of the world.
#[derive(Clone, Copy, Debug, PartialEq, Eq, Structural)]
pub struct Sighting {
    pub receiver: u128,
    pub position: Position,
}

/// How the participant `receiver`, registered under `id`, sees the world position `world`.
pub open spec fn sighting_by(id: u128, receiver: Player, world: WorldVector) -> Sighting {
    let p = local_of(world, receiver.world_origin);
    Sighting { receiver: id, position: Position { x: p.x, y: p.y, z: p.z } }
}

/// `frame` tells the participant `receiver` of a position `world`, as seen from the
/// receiver's own anchor.
pub open spec fn addressed(
    frame: Outbound,
    receiver: Player,
    id: u128,
    world: WorldVector,
) -> bool {
    let p = local_of(world, receiver.world_origin);
    &&& frame.to == Recipients::One(id)
    &&& frame_position(frame.message) == Some(Position { x: p.x, y: p.y, z: p.z })
}

/// The position that a frame about a participant's whereabouts carries.
pub open spec fn frame_position(message: ServerMessage) -> Option<Position> {
    match message {
        ServerMessage::PlayerState { position, .. } => Some(position),
        ServerMessage::PlayerJoined { position, .. } => Some(position),
        _ => None,
    }
}

/// Two frames say the same of a participant but for the position they give.
pub open spec fn same_but_position(a: ServerMessage, b: ServerMessage) -> bool {
    match (a, b) {
        (
            ServerMessage::PlayerState {
                player_id: ia,
                rotation: ra,
                velocity: va,
                is_grounded: ga,
                is_swimming: sa,
                ..
            },
            ServerMessage::PlayerState {
                player_id: ib,
                rotation: rb,
                velocity: vb,
                is_grounded: gb,
                is_swimming: sb,
                ..
            },
        ) => ia@ == ib@ && ra == rb && va == vb && ga == gb && sa == sb,
        (
            ServerMessage::PlayerJoined { player_id: ia, .. },
            ServerMessage::PlayerJoined { player_id: ib, .. },
        ) => ia@ == ib@,
        _ => false,
    }
}

impl PlayerManager {
    /// Every participant is well formed.
    pub open spec fn wf(&self) -> bool {
        forall|k: u128| #[trigger] self@.contains_key(k) ==> self@[k].wf()
    }

    /// A registry without participants.
    pub fn new() -> (r: PlayerManager)
        ensures
            r@ =~= Map::empty(),
            r.wf(),
    {
        PlayerManager { players: players_new() }
    }

    /// Registers a participant who has just joined at `position`.
    pub fn add_player(&mut self, id: u128, position: LocalVector, now: u64)
        ensures
            final(self)@ == old(self)@.insert(id, Player::joined(id, position, now)),
            old(self).wf() ==> final(self).wf(),
    {
        let player = Player::new(id, position, now);
        players_insert(&mut self.players, id, player);
        proof {
            if old(self).wf() {
                assert forall|k: u128| #[trigger] self@.contains_key(k) implies self@[k].wf() by {
                    if k != id {
                        assert(old(self)@.contains_key(k));
                    }
                }
            }
        }
    }

    /// Strikes the participant under `id` from the registry.
    pub fn remove_player(&mut self, id: u128)
        ensures
            final(self)@ == old(self)@.remove(id),
            old(self).wf() ==> final(self).wf(),
    {
        players_remove(&mut self.players, id);
        proof {
            if old(self).wf() {
                assert forall|k: u128| #[trigger] self@.contains_key(k) implies self@[k].wf() by {
                    assert(old(self)@.contains_key(k));
                }
            }
        }
    }

    /// A copy of the participant under `id`, if there is one.
    pub fn get_player(&self, id: u128) -> (r: Option<Player>)
        ensures
            r is Some <==> self@.contains_key(id),
            r is Some ==> r->0 == self@[id],
    {
        players_get(&self.players, id)
    }

    /// Puts `player` in place of the participant under `id`, if there is one, and says
    /// whether there was.
    pub fn put_player(&mut self, id: u128, player: Player) -> (found: bool)
        ensures
            found == old(self)@.contains_key(id),
            found ==> final(self)@ == old(self)@.insert(id, player),
            !found ==> final(self)@ == old(self)@,
            old(self).wf() && player.wf() ==> final(self).wf(),
    {
        match players_get(&self.players, id) {
            Some(_) => {
                players_insert(&mut self.players, id, player);
                proof {
                    if old(self).wf() && player.wf() {
                        assert forall|k: u128| #[trigger] self@.contains_key(k) implies self@[k].wf() by {
                            if k != id {
                                assert(old(self)@.contains_key(k));
                            }
                        }
                    }
                }
                true
            },
            None => false,
        }
    }

    /// Records the body that the engine has made for the participant under `id`, if there is
    /// such a participant.
    pub fn set_handles(
        &mut self,
        id: u128,
        body_handle: Option<RigidBodyHandle>,
        collider_handle: Option<ColliderHandle>,
    )
        ensures
            old(self)@.contains_key(id) ==> final(self)@ == old(self)@.insert(
                id,
                Player { body_handle, collider_handle, ..old(self)@[id] },
            ),
            !old(self)@.contains_key(id) ==> final(self)@ == old(self)@,
            old(self).wf() ==> final(self).wf(),
    {
        match players_get(&self.players, id) {
            Some(mut player) => {
                proof {
                    assert(old(self)@.contains_key(id));
                }
                player.body_handle = body_handle;
                player.collider_handle = collider_handle;
                self.store(id, player);
            },
            None => {},
        }
    }

    /// The identifiers of the participants, in no particular order.
    pub fn ids(&self) -> (r: Vec<u128>)
        ensures
            lists_keys(r@, self@.dom()),
    {
        players_keys(&self.players)
    }

    /// A copy of every participant, in no particular order.
    pub fn iter(&self) -> (r: Vec<Player>)
        ensures
            exists|keys: Seq<u128>|
                lists_keys(keys, self@.dom()) && keys.len() == r@.len() && forall|i: int|
                    0 <= i < r@.len() ==> #[trigger] r@[i] == self@[keys[i]],
    {
        let ids = players_keys(&self.players);
        let mut r: Vec<Player> = Vec::new();
        let mut i: usize = 0;
        while i < ids.len()
            invariant
                0 <= i <= ids.len(),
                lists_keys(ids@, self@.dom()),
                r@.len() == i,
                forall|j: int| 0 <= j < i ==> #[trigger] r@[j] == self@[ids@[j]],
            decreases ids.len() - i,
        {
            proof {
                assert(self@.dom().contains(ids@[i as int]));
            }
            match players_get(&self.players, ids[i]) {
                Some(p) => {
                    r.push(p);
                },
                None => {},
            }
            i += 1;
        }
        r
    }

    /// What the participant `exclude_id` is told of every other participant, each seen from
    /// the anchor of `exclude_id`, in no particular order.
    pub fn get_all_players_except(&self, exclude_id: u128) -> (r: Vec<PlayerInfo>)
        ensures
            exists|keys: Seq<u128>|
                lists_keys(keys, self@.dom().remove(exclude_id)) && keys.len() == r@.len()
                    && forall|i: int|
                    0 <= i < r@.len() ==> is_info_of(
                        #[trigger] r@[i],
                        self@[keys[i]],
                        anchor_of(self@, exclude_id),
                    ),
    {
        let ids = players_keys(&self.players);
        let requester = players_get(&self.players, exclude_id);
        let ghost want = self@.dom().remove(exclude_id);
        let ghost mut picked: Seq<u128> = Seq::empty();
        let mut r: Vec<PlayerInfo> = Vec::new();
        let mut i: usize = 0;
        proof {
            lemma_picks_none(ids@, want);
        }
        while i < ids.len()
            invariant
                0 <= i <= ids.len(),
                lists_keys(ids@, self@.dom()),
                want == self@.dom().remove(exclude_id),
                requester is Some <==> self@.contains_key(exclude_id),
                requester is Some ==> requester->0 == self@[exclude_id],
                picks(picked, ids@, i as int, want),
                picked.len() == r@.len(),
                forall|j: int|
                    0 <= j < r@.len() ==> is_info_of(
                        #[trigger] r@[j],
                        self@[picked[j]],
                        anchor_of(self@, exclude_id),
                    ),
            decreases ids.len() - i,
        {
            let id = ids[i];
            proof {
                assert(self@.dom().contains(ids@[i as int]));
            }
            if id != exclude_id {
                match players_get(&self.players, id) {
                    Some(player) => {
                        let relative_pos = match &requester {
                            Some(req) => {
                                let world_pos = player.get_world_position();
                                to_local(&world_pos, &req.world_origin)
                            },
                            None => player.position,
                        };
                        r.push(
                            PlayerInfo {
                                id: id_text(player.id),
                                position: Position {
                                    x: relative_pos.x,
                                    y: relative_pos.y,
                                    z: relative_pos.z,
                                },
                                rotation: Some(Rotation::from_quaternion(&player.rotation)),
                                velocity: Some(Velocity::from_vector(&player.velocity)),
                                is_grounded: Some(player.is_grounded),
                                is_swimming: Some(player.is_swimming),
                            },
                        );
                        proof {
                            lemma_picks_take(picked, ids@, i as int, want);
                            picked = picked.push(id);
                        }
                    },
                    None => {},
                }
            } else {
                proof {
                    lemma_picks_skip(picked, ids@, i as int, want);
                }
            }
            i += 1;
        }
        proof {
            lemma_picks_all(picked, ids@, self@.dom(), want);
            assert(want.intersect(self@.dom()) =~= want);
        }
        r
    }

    /// Where each participant but `exclude_id` sees the world position `world`, in no
    /// particular order.
    pub fn sightings(&self, exclude_id: u128, world: &WorldVector) -> (r: Vec<Sighting>)
        ensures
            exists|keys: Seq<u128>|
                lists_keys(keys, self@.dom().remove(exclude_id)) && keys.len() == r@.len()
                    && forall|i: int|
                    0 <= i < r@.len() ==> #[trigger] r@[i] == sighting_by(
                        keys[i],
                        self@[keys[i]],
                        *world,
                    ),
    {
        let ids = players_keys(&self.players);
        let ghost want = self@.dom().remove(exclude_id);
        let ghost mut picked: Seq<u128> = Seq::empty();
        let mut r: Vec<Sighting> = Vec::new();
        let mut i: usize = 0;
        proof {
            lemma_picks_none(ids@, want);
        }
        while i < ids.len()
            invariant
                0 <= i <= ids.len(),
                lists_keys(ids@, self@.dom()),
                want == self@.dom().remove(exclude_id),
                picks(picked, ids@, i as int, want),
                picked.len() == r@.len(),
                forall|j: int|
                    0 <= j < r@.len() ==> #[trigger] r@[j] == sighting_by(
                        picked[j],
                        self@[picked[j]],
                        *world,
                    ),
            decreases ids.len() - i,
        {
            let id = ids[i];
            proof {
                assert(self@.dom().contains(ids@[i as int]));
            }
            if id != exclude_id {
                match players_get(&self.players, id) {
                    Some(receiver) => {
                        let p = to_local(world, &receiver.world_origin);
                        r.push(
                            Sighting { receiver: id, position: Position { x: p.x, y: p.y, z: p.z } },
                        );
                        proof {
                            lemma_picks_take(picked, ids@, i as int, want);
                            picked = picked.push(id);
                        }
                    },
                    None => {},
                }
            } else {
                proof {
                    lemma_picks_skip(picked, ids@, i as int, want);
                }
            }
            i += 1;
        }
        proof {
            lemma_picks_all(picked, ids@, self@.dom(), want);
            assert(want.intersect(self@.dom()) =~= want);
        }
        r
    }

    /// The frame `msg`, which is about participant `exclude_id`, as it goes to everyone
    /// else. A frame that tells where that participant is goes to each receiver with the
    /// position as seen from the receiver's own anchor; any other frame goes out as it is.
    pub fn broadcast_except(&self, exclude_id: u128, msg: ServerMessage) -> (r: Vec<Outbound>)
        ensures
            frame_position(msg) is None ==> r@.len() == 1 && r@[0].to == Recipients::AllExcept(
                exclude_id,
            ) && r@[0].message == msg,
            frame_position(msg) is Some ==> exists|keys: Seq<u128>|
                lists_keys(keys, self@.dom().remove(exclude_id)) && keys.len() == r@.len()
                    && forall|i: int|
                    0 <= i < r@.len() ==> addressed(
                        #[trigger] r@[i],
                        self@[keys[i]],
                        keys[i],
                        sender_world(self@, exclude_id, frame_position(msg)->0),
                    ) && same_but_position(r@[i].message, msg),
    {
        match msg {
            ServerMessage::PlayerState {
                player_id,
                position,
                rotation,
                velocity,
                is_grounded,
                is_swimming,
            } => {
                let world = self.world_of_sender(exclude_id, &position);
                let seen = self.sightings(exclude_id, &world);
                let mut r: Vec<Outbound> = Vec::new();
                let mut i: usize = 0;
                while i < seen.len()
                    invariant
                        0 <= i <= seen.len(),
                        r@.len() == i,
                        msg == (ServerMessage::PlayerState {
                            player_id,
                            position,
                            rotation,
                            velocity,
                            is_grounded,
                            is_swimming,
                        }),
                        forall|j: int|
                            0 <= j < i ==> (#[trigger] r@[j]).to == Recipients::One(
                                seen@[j].receiver,
                            ) && frame_position(r@[j].message) == Some(seen@[j].position)
                                && same_but_position(r@[j].message, msg),
                    decreases seen.len() - i,
                {
                    r.push(
                        Outbound {
                            to: Recipients::One(seen[i].receiver),
                            message: ServerMessage::PlayerState {
                                player_id: player_id.clone(),
                                position: seen[i].position,
                                rotation,
                                velocity,
                                is_grounded,
                                is_swimming,
                            },
                        },
                    );
                    i += 1;
                }
                r
            },
            ServerMessage::PlayerJoined { player_id, position } => {
                let world = self.world_of_sender(exclude_id, &position);
                let seen = self.sightings(exclude_id, &world);
                let mut r: Vec<Outbound> = Vec::new();
                let mut i: usize = 0;
                while i < seen.len()
                    invariant
                        0 <= i <= seen.len(),
                        r@.len() == i,
                        msg == (ServerMessage::PlayerJoined { player_id, position }),
                        forall|j: int|
                            0 <= j < i ==> (#[trigger] r@[j]).to == Recipients::One(
                                seen@[j].receiver,
                            ) && frame_position(r@[j].message) == Some(seen@[j].position)
                                && same_but_position(r@[j].message, msg),
                    decreases seen.len() - i,
                {
                    r.push(
                        Outbound {
                            to: Recipients::One(seen[i].receiver),
                            message: ServerMessage::PlayerJoined {
                                player_id: player_id.clone(),
                                position: seen[i].position,
                            },
                        },
                    );
                    i += 1;
                }
                r
            },
            other => {
                let mut r: Vec<Outbound> = Vec::new();
                r.push(Outbound { to: Recipients::AllExcept(exclude_id), message: other });
                r
            },
        }
    }

    /// The world position that a frame about participant `sender` speaks of.
    pub fn world_of_sender(&self, sender: u128, position: &Position) -> (r: WorldVector)
        ensures
            r == sender_world(self@, sender, *position),
    {
        match players_get(&self.players, sender) {
            Some(p) => p.get_world_position(),
            None => WorldVector { x: position.x as i64, y: position.y as i64, z: position.z as i64 },
        }
    }

    /// The frame `msg` as it goes to the session of participant `id` alone.
    pub fn send_to(&self, id: u128, msg: ServerMessage) -> (r: Outbound)
        ensures
            r.to == Recipients::One(id),
            r.message == msg,
    {
        Outbound { to: Recipients::One(id), message: msg }
    }

    /// The frame `msg` as it goes to every session.
    pub fn broadcast_to_all(&self, msg: ServerMessage) -> (r: Outbound)
        ensures
            r.to == Recipients::All,
            r.message == msg,
    {
        Outbound { to: Recipients::All, message: msg }
    }

    /// Brings the participant under `id` back into the world at `spawn_position`, if there
    /// is such a participant.
    pub fn respawn_player(&mut self, id: u128, spawn_position: LocalVector)
        ensures
            old(self)@.contains_key(id) ==> final(self)@ == old(self)@.insert(
                id,
                old(self)@[id].respawned(spawn_position),
            ),
            !old(self)@.contains_key(id) ==> final(self)@ == old(self)@,
            old(self).wf() ==> final(self).wf(),
    {
        match players_get(&self.players, id) {
            Some(mut player) => {
                proof {
                    assert(old(self)@.contains_key(id));
                }
                player.respawn(spawn_position);
                self.store(id, player);
            },
            None => {},
        }
    }

    /// Has the participant under `id` take `damage` at `now`, and says whether that
    /// participant is dead. Without such a participant nothing happens and nobody is dead.
    pub fn damage_player(&mut self, id: u128, damage: u32, now: u64) -> (dead: bool)
        ensures
            old(self)@.contains_key(id) ==> final(self)@ == old(self)@.insert(
                id,
                old(self)@[id].damaged(damage, now),
            ) && dead == old(self)@[id].damaged(damage, now).is_dead,
            !old(self)@.contains_key(id) ==> final(self)@ == old(self)@ && !dead,
            old(self).wf() ==> final(self).wf(),
    {
        match players_get(&self.players, id) {
            Some(mut player) => {
                proof {
                    assert(old(self)@.contains_key(id));
                }
                let dead = player.take_damage(damage, now);
                self.store(id, player);
                dead
            },
            None => false,
        }
    }

    /// Heals the participant under `id` by `amount`, if there is such a participant.
    pub fn heal_player(&mut self, id: u128, amount: u32)
        ensures
            old(self)@.contains_key(id) ==> final(self)@ == old(self)@.insert(
                id,
                old(self)@[id].with_heal(amount),
            ),
            !old(self)@.contains_key(id) ==> final(self)@ == old(self)@,
            old(self).wf() ==> final(self).wf(),
    {
        match players_get(&self.players, id) {
            Some(mut player) => {
                proof {
                    assert(old(self)@.contains_key(id));
                }
                player.heal(amount);
                self.store(id, player);
            },
            None => {},
        }
    }

    /// Gives the participant under `id` more armor, if there is such a participant.
    pub fn add_armor(&mut self, id: u128, amount: u32)
        ensures
            old(self)@.contains_key(id) ==> final(self)@ == old(self)@.insert(
                id,
                old(self)@[id].with_armor(amount),
            ),
            !old(self)@.contains_key(id) ==> final(self)@ == old(self)@,
            old(self).wf() ==> final(self).wf(),
    {
        match players_get(&self.players, id) {
            Some(mut player) => {
                proof {
                    assert(old(self)@.contains_key(id));
                }
                player.add_armor(amount);
                self.store(id, player);
            },
            None => {},
        }
    }

    /// Recenters the anchor of the participant under `id`, if there is such a participant
    /// and its local offset has grown too long, and returns the frame that tells that
    /// participant, and nobody else, of its new anchor.
    pub fn recenter_player(&mut self, id: u128) -> (frame: Option<Outbound>)
        ensures
            old(self)@.contains_key(id) ==> final(self)@ == old(self)@.insert(
                id,
                old(self)@[id].recentered(),
            ),
            !old(self)@.contains_key(id) ==> final(self)@ == old(self)@,
            frame is Some <==> old(self)@.contains_key(id) && needs_recenter(old(self)@[id].position),
            frame is Some ==> frame->0 == origin_update(id, old(self)@[id].recentered().world_origin),
            old(self).wf() ==> final(self).wf(),
    {
        match players_get(&self.players, id) {
            Some(mut player) => {
                proof {
                    assert(old(self)@.contains_key(id));
                }
                let moved = player.recenter();
                let anchor = player.world_origin;
                self.store(id, player);
                if moved {
                    let origin = to_local(&anchor, &WorldVector::zeros());
                    Some(
                        Outbound {
                            to: Recipients::One(id),
                            message: ServerMessage::OriginUpdate {
                                origin: Position { x: origin.x, y: origin.y, z: origin.z },
                            },
                        },
                    )
                } else {
                    None
                }
            },
            None => None,
        }
    }

    /// Recenters the anchor of every participant whose local offset has grown too long, and
    /// returns the frames that tell each of them, and nobody else, of its new anchor, in no
    /// particular order.
    pub fn recenter_all(&mut self) -> (frames: Vec<Outbound>)
        ensures
            final(self)@ == old(self)@.map_values(|p: Player| p.recentered()),
            exists|keys: Seq<u128>|
                lists_keys(keys, far_keys(old(self)@)) && keys.len() == frames@.len() && forall|
                    i: int,
                |
                    0 <= i < frames@.len() ==> #[trigger] frames@[i] == origin_update(
                        keys[i],
                        old(self)@[keys[i]].recentered().world_origin,
                    ),
            old(self).wf() ==> final(self).wf(),
    {
        let ids = players_keys(&self.players);
        let ghost before = self@;
        let ghost want = far_keys(before);
        let ghost mut picked: Seq<u128> = Seq::empty();
        let mut frames: Vec<Outbound> = Vec::new();
        let mut i: usize = 0;
        proof {
            lemma_picks_none(ids@, want);
            lemma_listed_all(ids@, before.dom());
        }
        while i < ids.len()
            invariant
                0 <= i <= ids.len(),
                before == old(self)@,
                want == far_keys(before),
                lists_keys(ids@, before.dom()),
                self@.dom() =~= before.dom(),
                forall|k: u128| #[trigger]
                    before.contains_key(k) ==> self@[k] == (if listed_before(ids@, i as int, k) {
                        before[k].recentered()
                    } else {
                        before[k]
                    }),
                picks(picked, ids@, i as int, want),
                picked.len() == frames@.len(),
                forall|j: int|
                    0 <= j < frames@.len() ==> #[trigger] frames@[j] == origin_update(
                        picked[j],
                        before[picked[j]].recentered().world_origin,
                    ),
                old(self).wf() ==> self.wf(),
            decreases ids.len() - i,
        {
            let id = ids[i];
            proof {
                lemma_not_listed_before(ids@, before.dom(), i as int);
                assert(before.contains_key(id));
            }
            match self.recenter_player(id) {
                Some(frame) => {
                    frames.push(frame);
                    proof {
                        lemma_picks_take(picked, ids@, i as int, want);
                        picked = picked.push(id);
                    }
                },
                None => {
                    proof {
                        lemma_picks_skip(picked, ids@, i as int, want);
                    }
                },
            }
            i += 1;
        }
        proof {
            lemma_picks_all(picked, ids@, before.dom(), want);
            assert(want.intersect(before.dom()) =~= want);
            lemma_listed_all(ids@, before.dom());
            assert(self@ =~= before.map_values(|p: Player| p.recentered()));
        }
        frames
    }

    /// Brings every dead participant whose respawn is due at `now` back into the world, each
    /// at a spawn point drawn at random from `spawns`, or at the default place where there is
    /// no spawn point, and returns who came back where, in no particular order.
    pub fn respawn_due_players(&mut self, spawns: &SpawnManager, now: u64) -> (back: Vec<Respawn>)
        ensures
            final(self)@.dom() == old(self)@.dom(),
            forall|k: u128| #[trigger]
                old(self)@.contains_key(k) && !old(self)@[k].due(now) ==> final(self)@[k] == old(
                    self,
                )@[k],
            exists|keys: Seq<u128>|
                lists_keys(keys, due_players(old(self)@, now)) && keys.len() == back@.len()
                    && forall|i: int|
                    0 <= i < back@.len() ==> (#[trigger] back@[i]).id == keys[i] && final(self)@[keys[i]]
                        == old(self)@[keys[i]].respawned(back@[i].position) && back@[i].body_handle
                        == old(self)@[keys[i]].body_handle && back@[i].health == old(
                        self,
                    )@[keys[i]].max_health && is_spawn_point_of(spawns.spawn_points@, back@[i].position),
            old(self).wf() ==> final(self).wf(),
    {
        let ids = players_keys(&self.players);
        let ghost before = self@;
        let ghost want = due_players(before, now);
        let ghost mut picked: Seq<u128> = Seq::empty();
        let mut back: Vec<Respawn> = Vec::new();
        let mut i: usize = 0;
        proof {
            lemma_picks_none(ids@, want);
            lemma_listed_all(ids@, before.dom());
        }
        while i < ids.len()
            invariant
                0 <= i <= ids.len(),
                before == old(self)@,
                want == due_players(before, now),
                lists_keys(ids@, before.dom()),
                self@.dom() =~= before.dom(),
                forall|k: u128| #[trigger]
                    before.contains_key(k) && !(listed_before(ids@, i as int, k) && before[k].due(
                        now,
                    )) ==> self@[k] == before[k],
                picks(picked, ids@, i as int, want),
                picked.len() == back@.len(),
                forall|j: int|
                    0 <= j < back@.len() ==> (#[trigger] back@[j]).id == picked[j]
                        && self@[picked[j]] == before[picked[j]].respawned(back@[j].position)
                        && back@[j].body_handle == before[picked[j]].body_handle && back@[j].health
                        == before[picked[j]].max_health && is_spawn_point_of(
                        spawns.spawn_points@,
                        back@[j].position,
                    ),
                old(self).wf() ==> self.wf(),
            decreases ids.len() - i,
        {
            let id = ids[i];
            proof {
                lemma_not_listed_before(ids@, before.dom(), i as int);
                assert(before.contains_key(id));
            }
            let ghost here = self@;
            let mut came_back = false;
            match players_get(&self.players, id) {
                Some(mut player) => {
                    if player.respawn_due(now) {
                        let position = match spawns.get_random_player_spawn() {
                            Some(sp) => sp.position.to_vector(),
                            None => LocalVector { x: 0, y: DEFAULT_SPAWN_HEIGHT, z: 0 },
                        };
                        back.push(
                            Respawn {
                                id,
                                position,
                                body_handle: player.body_handle,
                                health: player.max_health,
                            },
                        );
                        proof {
                            if old(self).wf() {
                                assert(here.contains_key(id));
                            }
                        }
                        player.respawn(position);
                        self.store(id, player);
                        came_back = true;
                    }
                },
                None => {},
            }
            proof {
                if came_back {
                    lemma_picks_take(picked, ids@, i as int, want);
                    picked = picked.push(id);
                    assert forall|j: int| 0 <= j < back@.len() - 1 implies picked[j] != id by {
                        assert(listed_before(ids@, i as int, picked[j]));
                    }
                } else {
                    lemma_picks_skip(picked, ids@, i as int, want);
                }
            }
            i += 1;
        }
        proof {
            lemma_picks_all(picked, ids@, before.dom(), want);
            assert(want.intersect(before.dom()) =~= want);
            lemma_listed_all(ids@, before.dom());
        }
        back
    }

    /// Puts `player` under `id`.
    fn store(&mut self, id: u128, player: Player)
        ensures
            final(self)@ == old(self)@.insert(id, player),
            old(self).wf() && player.wf() ==> final(self).wf(),
    {
        players_insert(&mut self.players, id, player);
        proof {
            if old(self).wf() && player.wf() {
                assert forall|k: u128| #[trigger] self@.contains_key(k) implies self@[k].wf() by {
                    if k != id {
                        assert(old(self)@.contains_key(k));
                    }
                }
            }
        }
    }
}

} // verus!
