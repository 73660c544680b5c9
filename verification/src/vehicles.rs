//! Vehicles: their health, their destruction, and the clock that brings them back.
//!
//! Health and damage are thousandths of a point; times are milliseconds. A destroyed vehicle
//! stays in the world until its respawn time has come, and then stands again at the place
//! where it was first spawned.

use crate::origin::{world_of, world_position, LocalVector, Quaternion, WorldVector};
use crate::physics::{find_reading, reading_of, BodyReading, ColliderHandle, RigidBodyHandle};
use crate::clock::{deadline, deadline_after};
use crate::store::{
    lemma_listed_all, lemma_not_listed_before, lemma_picks_all, lemma_picks_none,
    lemma_picks_skip, lemma_picks_take, listed_before, lists_keys, picks, views,
};
use crate::text::same_text;
use dashmap::DashMap;
use vstd::prelude::*;
use vstd::string::StringExecFns;

verus! {

/// The kinds of vehicle that the world knows.
#[derive(Clone, Copy, Debug, PartialEq, Eq, Structural)]
pub enum VehicleKind {
    Spaceship,
    Helicopter,
    Plane,
    Car,
}

/// The kind that `text` names, if it names one.
pub open spec fn kind_named(text: Seq<char>) -> Option<VehicleKind> {
    if text == "spaceship"@ {
        Some(VehicleKind::Spaceship)
    } else if text == "helicopter"@ {
        Some(VehicleKind::Helicopter)
    } else if text == "plane"@ {
        Some(VehicleKind::Plane)
    } else if text == "car"@ {
        Some(VehicleKind::Car)
    } else {
        None
    }
}

/// The full health of a vehicle of the given kind, in thousandths of a point; a vehicle of
/// no known kind has a hundred points.
pub open spec fn full_health(kind: Option<VehicleKind>) -> u32 {
    match kind {
        Some(VehicleKind::Spaceship) => 500_000,
        Some(VehicleKind::Helicopter) => 300_000,
        Some(VehicleKind::Plane) => 400_000,
        Some(VehicleKind::Car) => 200_000,
        None => 100_000,
    }
}

/// How long a destroyed vehicle of the given kind stays destroyed, in milliseconds; a
/// vehicle of no known kind stays so for two minutes.
pub open spec fn respawn_delay(kind: Option<VehicleKind>) -> u64 {
    match kind {
        Some(VehicleKind::Spaceship) => 180_000,
        Some(VehicleKind::Helicopter) => 150_000,
        Some(VehicleKind::Plane) => 150_000,
        Some(VehicleKind::Car) => 90_000,
        None => 120_000,
    }
}

/// The kind that `text` names, if it names one.
pub fn vehicle_kind(text: &str) -> (r: Option<VehicleKind>)
    ensures
        r == kind_named(text@),
{
    if same_text(text, "spaceship") {
        Some(VehicleKind::Spaceship)
    } else if same_text(text, "helicopter") {
        Some(VehicleKind::Helicopter)
    } else if same_text(text, "plane") {
        Some(VehicleKind::Plane)
    } else if same_text(text, "car") {
        Some(VehicleKind::Car)
    } else {
        None
    }
}

/// The full health of a vehicle of the given kind.
pub fn max_health_of(kind: Option<VehicleKind>) -> (r: u32)
    ensures
        r == full_health(kind),
        r > 0,
{
    match kind {
        Some(VehicleKind::Spaceship) => 500_000,
        Some(VehicleKind::Helicopter) => 300_000,
        Some(VehicleKind::Plane) => 400_000,
        Some(VehicleKind::Car) => 200_000,
        None => 100_000,
    }
}

/// How long a destroyed vehicle of the given kind stays destroyed.
pub fn respawn_delay_of(kind: Option<VehicleKind>) -> (r: u64)
    ensures
        r == respawn_delay(kind),
        90_000 <= r <= 180_000,
{
    match kind {
        Some(VehicleKind::Spaceship) => 180_000,
        Some(VehicleKind::Helicopter) => 150_000,
        Some(VehicleKind::Plane) => 150_000,
        Some(VehicleKind::Car) => 90_000,
        None => 120_000,
    }
}

/// A vehicle.
#[derive(Debug, Clone)]
pub struct Vehicle {
    pub id: String,
    pub vehicle_type: String,
    pub world_origin: WorldVector,
    pub position: LocalVector,
    pub rotation: Quaternion,
    pub velocity: LocalVector,
    pub angular_velocity: LocalVector,
    pub health: u32,
    pub max_health: u32,
    pub armor: u32,
    pub pilot_id: Option<u128>,
    pub body_handle: Option<RigidBodyHandle>,
    pub collider_handle: Option<ColliderHandle>,
    pub is_destroyed: bool,
    pub respawn_time: Option<u64>,
    pub last_update: u64,
    /// Where the vehicle was first spawned, and where it stands again after a respawn.
    pub spawn_origin: WorldVector,
}

/// What is left of `health` after `damage`.
pub open spec fn remaining(health: u32, damage: u32) -> u32 {
    if damage >= health {
        0
    } else {
        (health - damage) as u32
    }
}

impl Vehicle {
    /// Health is within its bounds, the vehicle is destroyed exactly when its health is
    /// zero, a destroyed vehicle has no pilot, and exactly the destroyed await a respawn.
    pub open spec fn wf(self) -> bool {
        &&& 0 < self.max_health
        &&& self.health <= self.max_health
        &&& self.is_destroyed <==> self.health == 0
        &&& self.is_destroyed <==> self.respawn_time is Some
        &&& self.is_destroyed ==> self.pilot_id is None
    }

    /// Whether the vehicle is destroyed and its respawn is due at `now`.
    pub open spec fn respawn_due(self, now: u64) -> bool {
        self.is_destroyed && self.respawn_time is Some && now >= self.respawn_time->0
    }

    /// The vehicle after taking `damage` at `now`. A vehicle that is already destroyed takes
    /// none. At zero health the vehicle is destroyed, its pilot is out, and its respawn is set
    /// for the delay of its kind from `now`.
    pub open spec fn damaged(self, damage: u32, now: u64) -> Vehicle {
        if self.is_destroyed {
            self
        } else if remaining(self.health, damage) == 0 {
            Vehicle {
                health: 0,
                is_destroyed: true,
                respawn_time: Some(deadline(now, respawn_delay(kind_named(self.vehicle_type@)))),
                pilot_id: None,
                last_update: now,
                ..self
            }
        } else {
            Vehicle { health: remaining(self.health, damage), last_update: now, ..self }
        }
    }

    /// The vehicle standing again where it was first spawned, in full health and at rest.
    pub open spec fn respawned(self) -> Vehicle {
        Vehicle {
            health: self.max_health,
            is_destroyed: false,
            respawn_time: None,
            velocity: LocalVector { x: 0, y: 0, z: 0 },
            angular_velocity: LocalVector { x: 0, y: 0, z: 0 },
            world_origin: self.spawn_origin,
            position: LocalVector { x: 0, y: 0, z: 0 },
            rotation: Quaternion { i: 0, j: 0, k: 0, w: 1000 },
            body_handle: None,
            collider_handle: None,
            ..self
        }
    }

    /// The vehicle after a sweep at `now`: respawned if its respawn is due.
    pub open spec fn swept(self, now: u64) -> Vehicle {
        if self.respawn_due(now) {
            self.respawned()
        } else {
            self
        }
    }

    /// The vehicle as the physics engine reports it: anchored at the reported position, with
    /// no local offset.
    pub open spec fn read_back(
        self,
        position: LocalVector,
        rotation: Quaternion,
        velocity: LocalVector,
        angular_velocity: LocalVector,
        now: u64,
    ) -> Vehicle {
        Vehicle {
            world_origin: WorldVector {
                x: position.x as i64,
                y: position.y as i64,
                z: position.z as i64,
            },
            position: LocalVector { x: 0, y: 0, z: 0 },
            rotation,
            velocity,
            angular_velocity,
            last_update: now,
            ..self
        }
    }

    /// The vehicle after a step of which the engine reports `readings`: as the first reading
    /// of its body says, or as it was where it has no body or the body was not reported.
    pub open spec fn after_readings(self, readings: Seq<BodyReading>, now: u64) -> Vehicle {
        if self.body_handle is Some && reading_of(readings, self.body_handle->0) is Some {
            let r = reading_of(readings, self.body_handle->0)->0;
            self.read_back(
                r.state.position,
                r.state.rotation,
                r.state.velocity,
                r.angular_velocity,
                now,
            )
        } else {
            self
        }
    }

    /// A copy of the vehicle.
    pub fn duplicate(&self) -> (r: Vehicle)
        ensures
            r == *self,
    {
        Vehicle {
            id: self.id.clone(),
            vehicle_type: self.vehicle_type.clone(),
            world_origin: self.world_origin,
            position: self.position,
            rotation: self.rotation,
            velocity: self.velocity,
            angular_velocity: self.angular_velocity,
            health: self.health,
            max_health: self.max_health,
            armor: self.armor,
            pilot_id: self.pilot_id,
            body_handle: self.body_handle,
            collider_handle: self.collider_handle,
            is_destroyed: self.is_destroyed,
            respawn_time: self.respawn_time,
            last_update: self.last_update,
            spawn_origin: self.spawn_origin,
        }
    }

    /// Stands the vehicle again where it was first spawned, in full health and at rest. Its
    /// old body is forgotten: the engine is to make a new one.
    pub fn respawn(&mut self)
        ensures
            *final(self) == old(self).respawned(),
            old(self).max_health > 0 ==> final(self).wf(),
    {
        self.health = self.max_health;
        self.is_destroyed = false;
        self.respawn_time = None;
        self.velocity = LocalVector::zeros();
        self.angular_velocity = LocalVector::zeros();
        self.world_origin = self.spawn_origin;
        self.position = LocalVector::zeros();
        self.rotation = Quaternion::identity();
        self.body_handle = None;
        self.collider_handle = None;
    }

    /// The vehicle's position in the world frame.
    pub fn get_world_position(&self) -> (r: WorldVector)
        ensures
            r == world_of(self.world_origin, self.position),
    {
        world_position(&self.world_origin, &self.position)
    }

    /// Takes `damage` at `now` and says whether this destroyed the vehicle.
    pub fn take_damage(&mut self, damage: u32, now: u64) -> (destroyed: bool)
        ensures
            *final(self) == old(self).damaged(damage, now),
            destroyed == (!old(self).is_destroyed && damage >= old(self).health),
            old(self).wf() ==> final(self).wf(),
    {
        if self.is_destroyed {
            return false;
        }
        self.last_update = now;
        if damage >= self.health {
            let kind = vehicle_kind(self.vehicle_type.as_str());
            self.health = 0;
            self.is_destroyed = true;
            self.respawn_time = Some(deadline_after(now, respawn_delay_of(kind)));
            self.pilot_id = None;
            true
        } else {
            self.health = self.health - damage;
            false
        }
    }

    /// Whether the vehicle is destroyed and its respawn is due at `now`.
    pub fn is_respawn_due(&self, now: u64) -> (r: bool)
        ensures
            r == self.respawn_due(now),
    {
        self.is_destroyed && match self.respawn_time {
            Some(t) => now >= t,
            None => false,
        }
    }
}

/// A vehicle destroyed at `t` is due for respawn from the moment that lies the delay of its
/// kind after `t`, and not before.
pub proof fn lemma_respawn_timing(v: Vehicle, damage: u32, t: u64, now: u64)
    requires
        v.wf(),
        !v.is_destroyed,
        damage >= v.health,
        t + respawn_delay(kind_named(v.vehicle_type@)) <= u64::MAX,
    ensures
        v.damaged(damage, t).is_destroyed,
        v.damaged(damage, t).respawn_due(now) <==> now >= t + respawn_delay(
            kind_named(v.vehicle_type@),
        ),
        v.damaged(damage, t).respawn_due(now) ==> v.damaged(damage, t).swept(now).health
            == v.max_health && !v.damaged(damage, t).swept(now).is_destroyed && v.damaged(
            damage,
            t,
        ).swept(now).world_origin == v.spawn_origin,
{
}

/// The vehicles that a map of vehicles holds, by the characters of their identifier.
pub uninterp spec fn vehicle_entries(m: &DashMap<String, Vehicle>) -> Map<Seq<char>, Vehicle>;

/// `DashMap::new`: a map that holds nothing.
#[verifier::external_body]
fn vehicles_new() -> (m: DashMap<String, Vehicle>)
    ensures
        vehicle_entries(&m).dom() =~= Set::empty(),
{
    DashMap::new()
}

/// `DashMap::insert`: afterwards the map holds `value` under `key`, in place of what it held
/// there; every other entry stays.
#[verifier::external_body]
fn vehicles_insert(m: &mut DashMap<String, Vehicle>, key: String, value: Vehicle)
    ensures
        vehicle_entries(final(m)) == vehicle_entries(old(m)).insert(key@, value),
{
    m.insert(key, value);
}

/// `DashMap::get`: a copy of what the map holds under `key`, if it holds anything there.
#[verifier::external_body]
fn vehicles_get(m: &DashMap<String, Vehicle>, key: &str) -> (r: Option<Vehicle>)
    ensures
        r is Some <==> vehicle_entries(m).contains_key(key@),
        r is Some ==> r->0 == vehicle_entries(m)[key@],
{
    m.get(key).map(|e| e.value().duplicate())
}

/// `DashMap::iter`, keys only: every key of the map once, in no particular order.
#[verifier::external_body]
fn vehicles_keys(m: &DashMap<String, Vehicle>) -> (r: Vec<String>)
    ensures
        lists_keys(views(r@), vehicle_entries(m).dom()),
{
    m.iter().map(|e| e.key().clone()).collect()
}

/// The vehicles of the world, by identifier.
pub struct VehicleManager {
    pub vehicles: DashMap<String, Vehicle>,
}

impl View for VehicleManager {
    type V = Map<Seq<char>, Vehicle>;

    open spec fn view(&self) -> Map<Seq<char>, Vehicle> {
        vehicle_entries(&self.vehicles)
    }
}

/// A vehicle that stands again: what the engine and the clients have to be told of it.
#[derive(Debug, Clone)]
pub struct VehicleRespawn {
    pub id: String,
    pub vehicle_type: String,
    pub world_position: WorldVector,
    pub health: u32,
    /// The body that the vehicle had when it was destroyed, which is to go.
    pub old_body: Option<RigidBodyHandle>,
}

/// `r` says of the vehicle `v`, whose respawn is due, its type, the place where it was first
/// spawned, its full health and the body it has had.
pub open spec fn tells_respawn(r: VehicleRespawn, v: Vehicle) -> bool {
    &&& r.vehicle_type == v.vehicle_type
    &&& r.world_position == v.spawn_origin
    &&& r.health == v.max_health
    &&& r.old_body == v.body_handle
}

/// The identifiers that a list of respawns names.
pub open spec fn respawn_names(list: Seq<VehicleRespawn>) -> Seq<Seq<char>> {
    list.map_values(|r: VehicleRespawn| r.id@)
}

/// The keys of the vehicles whose respawn is due at `now`.
pub open spec fn due_keys(m: Map<Seq<char>, Vehicle>, now: u64) -> Set<Seq<char>> {
    Set::new(|k: Seq<char>| m.contains_key(k) && m[k].respawn_due(now))
}

/// `v` is a vehicle as it is first spawned: at rest at `world_position`, in the full health
/// of its kind.
pub open spec fn is_new_vehicle(
    v: Vehicle,
    id: Seq<char>,
    vehicle_type: Seq<char>,
    world_position: WorldVector,
    rotation: Option<Quaternion>,
    pilot_id: Option<u128>,
    now: u64,
) -> bool {
    &&& v.id@ == id
    &&& v.vehicle_type@ == vehicle_type
    &&& v.world_origin == world_position
    &&& v.spawn_origin == world_position
    &&& v.position == (LocalVector { x: 0, y: 0, z: 0 })
    &&& v.rotation == (match rotation {
        Some(q) => q,
        None => Quaternion { i: 0, j: 0, k: 0, w: 1000 },
    })
    &&& v.velocity == (LocalVector { x: 0, y: 0, z: 0 })
    &&& v.angular_velocity == (LocalVector { x: 0, y: 0, z: 0 })
    &&& v.health == full_health(kind_named(vehicle_type))
    &&& v.max_health == full_health(kind_named(vehicle_type))
    &&& v.armor == 0
    &&& v.pilot_id == pilot_id
    &&& v.body_handle is None
    &&& v.collider_handle is None
    &&& !v.is_destroyed
    &&& v.respawn_time is None
    &&& v.last_update == now
}

impl VehicleManager {
    /// Every vehicle is well formed.
    pub open spec fn wf(&self) -> bool {
        forall|k: Seq<char>| #[trigger] self@.contains_key(k) ==> self@[k].wf()
    }

    /// A manager without vehicles.
    pub fn new() -> (r: VehicleManager)
        ensures
            r@ =~= Map::empty(),
            r.wf(),
    {
        VehicleManager { vehicles: vehicles_new() }
    }

    /// Puts `vehicle` under `key`.
    fn store(&mut self, key: &str, vehicle: Vehicle)
        ensures
            final(self)@ == old(self)@.insert(key@, vehicle),
            old(self).wf() && vehicle.wf() ==> final(self).wf(),
    {
        vehicles_insert(&mut self.vehicles, String::from_str(key), vehicle);
        proof {
            if old(self).wf() && vehicle.wf() {
                assert forall|k: Seq<char>| #[trigger] self@.contains_key(k) implies self@[k].wf() by {
                    if k != key@ {
                        assert(old(self)@.contains_key(k));
                    }
                }
            }
        }
    }

    /// Spawns a vehicle of type `vehicle_type` under `vehicle_id` at `world_position`, in
    /// place of any that was there, and returns the identifier.
    pub fn spawn_vehicle_with_id(
        &mut self,
        vehicle_id: String,
        vehicle_type: String,
        world_position: WorldVector,
        rotation: Option<Quaternion>,
        pilot_id: Option<u128>,
        now: u64,
    ) -> (id: String)
        ensures
            id@ == vehicle_id@,
            final(self)@.dom() == old(self)@.dom().insert(vehicle_id@),
            is_new_vehicle(
                final(self)@[vehicle_id@],
                vehicle_id@,
                vehicle_type@,
                world_position,
                rotation,
                pilot_id,
                now,
            ),
            forall|k: Seq<char>|
                k != vehicle_id@ && old(self)@.contains_key(k) ==> final(self)@[k] == old(
                    self,
                )@[k],
            old(self).wf() ==> final(self).wf(),
    {
        let rotation = match rotation {
            Some(q) => q,
            None => Quaternion::identity(),
        };
        let health = max_health_of(vehicle_kind(vehicle_type.as_str()));
        let vehicle = Vehicle {
            id: vehicle_id.clone(),
            vehicle_type,
            position: LocalVector::zeros(),
            world_origin: world_position,
            spawn_origin: world_position,
            rotation,
            velocity: LocalVector::zeros(),
            angular_velocity: LocalVector::zeros(),
            health,
            max_health: health,
            armor: 0,
            pilot_id,
            is_destroyed: false,
            respawn_time: None,
            body_handle: None,
            collider_handle: None,
            last_update: now,
        };
        self.store(vehicle_id.as_str(), vehicle);
        vehicle_id
    }

    /// A copy of the vehicle under `vehicle_id`, if there is one.
    pub fn get_vehicle(&self, vehicle_id: &str) -> (r: Option<Vehicle>)
        ensures
            r is Some <==> self@.contains_key(vehicle_id@),
            r is Some ==> r->0 == self@[vehicle_id@],
    {
        vehicles_get(&self.vehicles, vehicle_id)
    }

    /// Records the body that the engine has made for the vehicle under `vehicle_id`, if there
    /// is such a vehicle.
    pub fn set_handles(
        &mut self,
        vehicle_id: &str,
        body_handle: Option<RigidBodyHandle>,
        collider_handle: Option<ColliderHandle>,
    )
        ensures
            old(self)@.contains_key(vehicle_id@) ==> final(self)@ == old(self)@.insert(
                vehicle_id@,
                Vehicle { body_handle, collider_handle, ..old(self)@[vehicle_id@] },
            ),
            !old(self)@.contains_key(vehicle_id@) ==> final(self)@ == old(self)@,
            old(self).wf() ==> final(self).wf(),
    {
        match vehicles_get(&self.vehicles, vehicle_id) {
            Some(mut vehicle) => {
                proof {
                    assert(old(self)@.contains_key(vehicle_id@));
                }
                vehicle.body_handle = body_handle;
                vehicle.collider_handle = collider_handle;
                self.store(vehicle_id, vehicle);
            },
            None => {},
        }
    }

    /// Takes over what the physics engine reports of the vehicle under `vehicle_id`, if there
    /// is such a vehicle.
    pub fn update_from_physics(
        &mut self,
        vehicle_id: &str,
        position: LocalVector,
        rotation: Quaternion,
        velocity: LocalVector,
        angular_velocity: LocalVector,
        now: u64,
    )
        ensures
            old(self)@.contains_key(vehicle_id@) ==> final(self)@ == old(self)@.insert(
                vehicle_id@,
                old(self)@[vehicle_id@].read_back(
                    position,
                    rotation,
                    velocity,
                    angular_velocity,
                    now,
                ),
            ),
            !old(self)@.contains_key(vehicle_id@) ==> final(self)@ == old(self)@,
            old(self).wf() ==> final(self).wf(),
    {
        match vehicles_get(&self.vehicles, vehicle_id) {
            Some(mut vehicle) => {
                proof {
                    assert(old(self)@.contains_key(vehicle_id@));
                }
                vehicle.world_origin = WorldVector {
                    x: position.x as i64,
                    y: position.y as i64,
                    z: position.z as i64,
                };
                vehicle.position = LocalVector::zeros();
                vehicle.rotation = rotation;
                vehicle.velocity = velocity;
                vehicle.angular_velocity = angular_velocity;
                vehicle.last_update = now;
                self.store(vehicle_id, vehicle);
            },
            None => {},
        }
    }

    /// Has the vehicle under `vehicle_id` take `damage` at `now`. Returns the vehicle as it
    /// then is, if there is such a vehicle and it was not destroyed before.
    pub fn damage_vehicle(&mut self, vehicle_id: &str, damage: u32, now: u64) -> (r: Option<Vehicle>)
        ensures
            r is Some <==> old(self)@.contains_key(vehicle_id@) && !old(
                self,
            )@[vehicle_id@].is_destroyed,
            r is Some ==> r->0 == old(self)@[vehicle_id@].damaged(damage, now) && final(self)@
                == old(self)@.insert(vehicle_id@, r->0),
            r is None ==> final(self)@ == old(self)@,
            old(self).wf() ==> final(self).wf(),
    {
        match vehicles_get(&self.vehicles, vehicle_id) {
            Some(mut vehicle) => {
                proof {
                    assert(old(self)@.contains_key(vehicle_id@));
                }
                if vehicle.is_destroyed {
                    None
                } else {
                    vehicle.take_damage(damage, now);
                    let copy = vehicle.duplicate();
                    self.store(vehicle_id, vehicle);
                    Some(copy)
                }
            },
            None => None,
        }
    }

    /// Seats `participant` as pilot of the vehicle under `vehicle_id`, if there is such a
    /// vehicle and it is not destroyed, and says whether it did.
    pub fn enter(&mut self, vehicle_id: &str, participant: u128) -> (ok: bool)
        ensures
            ok == (old(self)@.contains_key(vehicle_id@) && !old(
                self,
            )@[vehicle_id@].is_destroyed),
            ok ==> final(self)@ == old(self)@.insert(
                vehicle_id@,
                Vehicle { pilot_id: Some(participant), ..old(self)@[vehicle_id@] },
            ),
            !ok ==> final(self)@ == old(self)@,
            old(self).wf() ==> final(self).wf(),
    {
        match vehicles_get(&self.vehicles, vehicle_id) {
            Some(mut vehicle) => {
                proof {
                    assert(old(self)@.contains_key(vehicle_id@));
                }
                if vehicle.is_destroyed {
                    false
                } else {
                    vehicle.pilot_id = Some(participant);
                    self.store(vehicle_id, vehicle);
                    true
                }
            },
            None => false,
        }
    }

    /// Unseats `participant` from the vehicle under `vehicle_id`, if that participant is its
    /// pilot, and says whether it did.
    pub fn exit(&mut self, vehicle_id: &str, participant: u128) -> (ok: bool)
        ensures
            ok == (old(self)@.contains_key(vehicle_id@) && old(self)@[vehicle_id@].pilot_id
                == Some(participant)),
            ok ==> final(self)@ == old(self)@.insert(
                vehicle_id@,
                Vehicle { pilot_id: None, ..old(self)@[vehicle_id@] },
            ),
            !ok ==> final(self)@ == old(self)@,
            old(self).wf() ==> final(self).wf(),
    {
        match vehicles_get(&self.vehicles, vehicle_id) {
            Some(mut vehicle) => {
                proof {
                    assert(old(self)@.contains_key(vehicle_id@));
                }
                let seated = match vehicle.pilot_id {
                    Some(p) => p == participant,
                    None => false,
                };
                if seated {
                    vehicle.pilot_id = None;
                    self.store(vehicle_id, vehicle);
                    true
                } else {
                    false
                }
            },
            None => false,
        }
    }

    /// Respawns every vehicle whose respawn is due at `now`, and returns what has to be told
    /// of each, in no particular order.
    pub fn check_respawns(&mut self, now: u64) -> (respawns: Vec<VehicleRespawn>)
        ensures
            final(self)@ == old(self)@.map_values(|v: Vehicle| v.swept(now)),
            lists_keys(respawn_names(respawns@), due_keys(old(self)@, now)),
            forall|i: int|
                0 <= i < respawns@.len() ==> tells_respawn(
                    #[trigger] respawns@[i],
                    old(self)@[respawns@[i].id@],
                ),
            forall|k: Seq<char>| #[trigger] final(self)@.contains_key(k) ==> !final(self)@[k].respawn_due(now),
            old(self).wf() ==> final(self).wf(),
    {
        let ids = vehicles_keys(&self.vehicles);
        let ghost before = self@;
        let ghost keys = views(ids@);
        let ghost want = due_keys(before, now);
        let mut respawns: Vec<VehicleRespawn> = Vec::new();
        let mut i: usize = 0;
        proof {
            lemma_picks_none(keys, want);
            lemma_listed_all(keys, before.dom());
            assert(respawn_names(respawns@) =~= Seq::<Seq<char>>::empty());
        }
        while i < ids.len()
            invariant
                0 <= i <= ids.len(),
                keys == views(ids@),
                before == old(self)@,
                want == due_keys(before, now),
                lists_keys(keys, before.dom()),
                self@.dom() =~= before.dom(),
                forall|k: Seq<char>| #[trigger]
                    before.contains_key(k) ==> self@[k] == (if listed_before(keys, i as int, k) {
                        before[k].swept(now)
                    } else {
                        before[k]
                    }),
                picks(respawn_names(respawns@), keys, i as int, want),
                forall|j: int|
                    0 <= j < respawns@.len() ==> tells_respawn(
                        #[trigger] respawns@[j],
                        before[respawns@[j].id@],
                    ),
            decreases ids.len() - i,
        {
            let id = &ids[i];
            proof {
                lemma_not_listed_before(keys, before.dom(), i as int);
                assert(keys[i as int] == id@);
                assert(before.contains_key(id@));
            }
            let ghost picked = respawn_names(respawns@);
            match vehicles_get(&self.vehicles, id.as_str()) {
                Some(mut vehicle) => {
                    if vehicle.is_respawn_due(now) {
                        respawns.push(
                            VehicleRespawn {
                                id: id.clone(),
                                vehicle_type: vehicle.vehicle_type.clone(),
                                world_position: vehicle.spawn_origin,
                                health: vehicle.max_health,
                                old_body: vehicle.body_handle,
                            },
                        );
                        vehicle.respawn();
                        vehicles_insert(&mut self.vehicles, id.clone(), vehicle);
                        proof {
                            lemma_picks_take(picked, keys, i as int, want);
                            assert(respawn_names(respawns@) =~= picked.push(keys[i as int]));
                        }
                    } else {
                        proof {
                            lemma_picks_skip(picked, keys, i as int, want);
                        }
                    }
                },
                None => {},
            }
            i += 1;
        }
        proof {
            lemma_picks_all(respawn_names(respawns@), keys, before.dom(), want);
            assert(want.intersect(before.dom()) =~= want);
            lemma_listed_all(keys, before.dom());
            assert(self@ =~= before.map_values(|v: Vehicle| v.swept(now)));
            if old(self).wf() {
                assert forall|k: Seq<char>| #[trigger] self@.contains_key(k) implies self@[k].wf() by {
                    assert(before.contains_key(k));
                }
            }
        }
        respawns
    }

    /// Takes over what the engine reports after a step, for every vehicle whose body is
    /// among `readings`.
    pub fn read_back_all(&mut self, readings: &Vec<BodyReading>, now: u64)
        ensures
            final(self)@ == old(self)@.map_values(|v: Vehicle| v.after_readings(readings@, now)),
            old(self).wf() ==> final(self).wf(),
    {
        let ids = vehicles_keys(&self.vehicles);
        let ghost before = self@;
        let ghost keys = views(ids@);
        let mut i: usize = 0;
        proof {
            lemma_listed_all(keys, before.dom());
        }
        while i < ids.len()
            invariant
                0 <= i <= ids.len(),
                keys == views(ids@),
                before == old(self)@,
                lists_keys(keys, before.dom()),
                self@.dom() =~= before.dom(),
                forall|k: Seq<char>| #[trigger]
                    before.contains_key(k) ==> self@[k] == (if listed_before(keys, i as int, k) {
                        before[k].after_readings(readings@, now)
                    } else {
                        before[k]
                    }),
            decreases ids.len() - i,
        {
            let id = &ids[i];
            proof {
                lemma_not_listed_before(keys, before.dom(), i as int);
                assert(keys[i as int] == id@);
                assert(before.contains_key(id@));
            }
            match vehicles_get(&self.vehicles, id.as_str()) {
                Some(mut vehicle) => {
                    match vehicle.body_handle {
                        Some(handle) => {
                            match find_reading(readings, handle) {
                                Some(r) => {
                                    vehicle.world_origin = WorldVector {
                                        x: r.state.position.x as i64,
                                        y: r.state.position.y as i64,
                                        z: r.state.position.z as i64,
                                    };
                                    vehicle.position = LocalVector::zeros();
                                    vehicle.rotation = r.state.rotation;
                                    vehicle.velocity = r.state.velocity;
                                    vehicle.angular_velocity = r.angular_velocity;
                                    vehicle.last_update = now;
                                    vehicles_insert(&mut self.vehicles, id.clone(), vehicle);
                                },
                                None => {},
                            }
                        },
                        None => {},
                    }
                },
                None => {},
            }
            i += 1;
        }
        proof {
            lemma_listed_all(keys, before.dom());
            assert(self@ =~= before.map_values(|v: Vehicle| v.after_readings(readings@, now)));
            if old(self).wf() {
                assert forall|k: Seq<char>| #[trigger] self@.contains_key(k) implies self@[k].wf() by {
                    assert(before.contains_key(k));
                }
            }
        }
    }

    /// A copy of every vehicle, in no particular order.
    pub fn iter(&self) -> (r: Vec<Vehicle>)
        ensures
            exists|keys: Seq<Seq<char>>|
                lists_keys(keys, self@.dom()) && keys.len() == r@.len() && forall|i: int|
                    0 <= i < r@.len() ==> #[trigger] r@[i] == self@[keys[i]],
    {
        let ids = vehicles_keys(&self.vehicles);
        let ghost keys = views(ids@);
        let mut r: Vec<Vehicle> = Vec::new();
        let mut i: usize = 0;
        while i < ids.len()
            invariant
                0 <= i <= ids.len(),
                keys == views(ids@),
                lists_keys(keys, self@.dom()),
                r@.len() == i,
                forall|j: int| 0 <= j < i ==> #[trigger] r@[j] == self@[keys[j]],
            decreases ids.len() - i,
        {
            proof {
                assert(keys[i as int] == ids@[i as int]@);
                assert(self@.dom().contains(keys[i as int]));
            }
            match vehicles_get(&self.vehicles, ids[i].as_str()) {
                Some(v) => {
                    r.push(v);
                },
                None => {},
            }
            i += 1;
        }
        r
    }
}

} // verus!
