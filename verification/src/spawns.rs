//! Spawn pools: where participants, vehicles and weapons enter the world, what has been
//! taken from where, and when it comes back.
//!
//! An item that lies at its spawn point is available; picked up, it is taken until the
//! respawn time of its spawn point has passed, and then lies there again. Times are
//! milliseconds.

use crate::ids::fresh_id;
use crate::ids::id_text;
use crate::ids::uuid_text;
use crate::level::{number_property, property_number, property_text, text_property, Level};
use crate::messages::{LevelObject, Position, Rotation, ServerMessage};
use crate::chance::random_draw;
use crate::clock::{elapsed, elapsed_since};
use crate::text::{
    is_first, lemma_slot_found, lemma_slot_missing, lemma_slot_valid, same_text, slot_of,
};
use vstd::prelude::*;
use vstd::string::StringExecFns;

verus! {

/// How long a vehicle spawn point waits before respawning, where the level does not say:
/// two minutes.
pub const DEFAULT_VEHICLE_RESPAWN_S: u64 = 120;

/// How long a weapon spawn point waits before respawning, where the level does not say:
/// thirty seconds.
pub const DEFAULT_WEAPON_RESPAWN_S: u64 = 30;

/// A place where participants enter the world.
#[derive(Debug, Clone)]
pub struct PlayerSpawnPoint {
    pub id: String,
    pub position: Position,
    pub rotation: Rotation,
}

/// A place where a vehicle stands.
#[derive(Debug, Clone)]
pub struct VehicleSpawnPoint {
    pub id: String,
    pub position: Position,
    pub rotation: Rotation,
    pub vehicle_type: String,
    pub respawn_time: u64,
    pub occupied: bool,
}

/// A place where a weapon lies.
#[derive(Debug, Clone)]
pub struct WeaponSpawnPoint {
    pub id: String,
    pub weapon_type: String,
    pub position: Position,
    pub respawn_time: u64,
    pub occupied: bool,
}

/// An item that a spawn point has brought into the world.
#[derive(Debug, Clone)]
pub struct SpawnedItem {
    pub spawn_point_id: String,
    pub item_id: String,
    pub picked_up: bool,
    pub last_pickup_time: Option<u64>,
}

/// The three spawn pools and the items they have brought into the world.
pub struct SpawnManager {
    pub spawn_points: Vec<PlayerSpawnPoint>,
    pub vehicle_spawns: Vec<VehicleSpawnPoint>,
    pub weapon_spawns: Vec<WeaponSpawnPoint>,
    pub spawned_vehicles: Vec<SpawnedItem>,
    pub spawned_weapons: Vec<SpawnedItem>,
}

/// The identifiers of a list of items.
pub open spec fn item_names(items: Seq<SpawnedItem>) -> Seq<Seq<char>> {
    items.map_values(|i: SpawnedItem| i.item_id@)
}

/// The identifiers of a list of weapon spawn points.
pub open spec fn weapon_spawn_names(spawns: Seq<WeaponSpawnPoint>) -> Seq<Seq<char>> {
    spawns.map_values(|s: WeaponSpawnPoint| s.id@)
}

/// The identifiers of a list of vehicle spawn points.
pub open spec fn vehicle_spawn_names(spawns: Seq<VehicleSpawnPoint>) -> Seq<Seq<char>> {
    spawns.map_values(|s: VehicleSpawnPoint| s.id@)
}

/// The place of the item under `id` in `items`, if it lies there to be picked up.
pub open spec fn available(items: Seq<SpawnedItem>, id: Seq<char>) -> Option<int> {
    match slot_of(item_names(items), id) {
        Some(i) => if items[i].picked_up {
            None
        } else {
            Some(i)
        },
        None => None,
    }
}

/// The item picked up at `now`.
pub open spec fn taken(item: SpawnedItem, now: u64) -> SpawnedItem {
    SpawnedItem { picked_up: true, last_pickup_time: Some(now), ..item }
}

/// The item lying at its spawn point again.
pub open spec fn returned(item: SpawnedItem) -> SpawnedItem {
    SpawnedItem { picked_up: false, last_pickup_time: None, ..item }
}

/// The weapon spawn points with the one under `name`, if there is one, marked as `occupied`.
pub open spec fn weapon_spawns_marked(
    spawns: Seq<WeaponSpawnPoint>,
    name: Seq<char>,
    occupied: bool,
) -> Seq<WeaponSpawnPoint> {
    match slot_of(weapon_spawn_names(spawns), name) {
        Some(j) => spawns.update(j, WeaponSpawnPoint { occupied, ..spawns[j] }),
        None => spawns,
    }
}

/// The vehicle spawn points with the one under `name`, if there is one, marked as `occupied`.
pub open spec fn vehicle_spawns_marked(
    spawns: Seq<VehicleSpawnPoint>,
    name: Seq<char>,
    occupied: bool,
) -> Seq<VehicleSpawnPoint> {
    match slot_of(vehicle_spawn_names(spawns), name) {
        Some(j) => spawns.update(j, VehicleSpawnPoint { occupied, ..spawns[j] }),
        None => spawns,
    }
}

/// Whether a taken weapon is due to lie at its spawn point again at `now`: it was picked up,
/// its spawn point is known, and the respawn time of that spawn point has passed since.
pub open spec fn weapon_due(item: SpawnedItem, spawns: Seq<WeaponSpawnPoint>, now: u64) -> bool {
    &&& item.picked_up
    &&& item.last_pickup_time is Some
    &&& slot_of(weapon_spawn_names(spawns), item.spawn_point_id@) is Some
    &&& elapsed(item.last_pickup_time->0, now) >= spawns[slot_of(
        weapon_spawn_names(spawns),
        item.spawn_point_id@,
    )->0].respawn_time
}

/// The frame that announces that the weapon `item` lies at its spawn point again.
pub open spec fn weapon_frame(item: SpawnedItem, spawns: Seq<WeaponSpawnPoint>) -> ServerMessage {
    let spawn = spawns[slot_of(weapon_spawn_names(spawns), item.spawn_point_id@)->0];
    ServerMessage::WeaponSpawn {
        weapon_id: item.item_id,
        weapon_type: spawn.weapon_type,
        position: spawn.position,
    }
}

/// The frames for the weapons among the first `n` of `items` that are due at `now`, in the
/// order of the items.
pub open spec fn weapon_frames(
    items: Seq<SpawnedItem>,
    spawns: Seq<WeaponSpawnPoint>,
    now: u64,
    n: int,
) -> Seq<ServerMessage>
    decreases n,
{
    if n <= 0 {
        Seq::empty()
    } else if weapon_due(items[n - 1], spawns, now) {
        weapon_frames(items, spawns, now, n - 1).push(weapon_frame(items[n - 1], spawns))
    } else {
        weapon_frames(items, spawns, now, n - 1)
    }
}

/// Whether one of the first `n` of `items` is due at `now` and belongs to the spawn point at
/// place `j`.
pub open spec fn freed_by(
    items: Seq<SpawnedItem>,
    spawns: Seq<WeaponSpawnPoint>,
    now: u64,
    n: int,
    j: int,
) -> bool {
    exists|i: int|
        0 <= i < n && i < items.len() && weapon_due(#[trigger] items[i], spawns, now) && slot_of(
            weapon_spawn_names(spawns),
            items[i].spawn_point_id@,
        ) == Some(j)
}

fn find_item(items: &Vec<SpawnedItem>, id: &str) -> (r: Option<usize>)
    ensures
        r is Some <==> slot_of(item_names(items@), id@) is Some,
        r is Some ==> r->0 as int == slot_of(item_names(items@), id@)->0 && r->0 < items@.len(),
{
    let ghost names = item_names(items@);
    let mut i: usize = 0;
    while i < items.len()
        invariant
            0 <= i <= items@.len(),
            names == item_names(items@),
            forall|j: int| 0 <= j < i ==> names[j] != id@,
        decreases items@.len() - i,
    {
        proof {
            assert(names[i as int] == items@[i as int].item_id@);
        }
        if same_text(items[i].item_id.as_str(), id) {
            proof {
                assert(is_first(names, id@, i as int));
                lemma_slot_found(names, id@, i as int);
            }
            return Some(i);
        }
        i += 1;
    }
    proof {
        lemma_slot_missing(names, id@);
    }
    None
}

pub(crate) fn find_weapon_spawn(spawns: &Vec<WeaponSpawnPoint>, id: &str) -> (r: Option<usize>)
    ensures
        r is Some <==> slot_of(weapon_spawn_names(spawns@), id@) is Some,
        r is Some ==> r->0 as int == slot_of(weapon_spawn_names(spawns@), id@)->0 && r->0
            < spawns@.len(),
{
    let ghost names = weapon_spawn_names(spawns@);
    let mut i: usize = 0;
    while i < spawns.len()
        invariant
            0 <= i <= spawns@.len(),
            names == weapon_spawn_names(spawns@),
            forall|j: int| 0 <= j < i ==> names[j] != id@,
        decreases spawns@.len() - i,
    {
        proof {
            assert(names[i as int] == spawns@[i as int].id@);
        }
        if same_text(spawns[i].id.as_str(), id) {
            proof {
                assert(is_first(names, id@, i as int));
                lemma_slot_found(names, id@, i as int);
            }
            return Some(i);
        }
        i += 1;
    }
    proof {
        lemma_slot_missing(names, id@);
    }
    None
}

pub(crate) fn find_vehicle_spawn(spawns: &Vec<VehicleSpawnPoint>, id: &str) -> (r: Option<usize>)
    ensures
        r is Some <==> slot_of(vehicle_spawn_names(spawns@), id@) is Some,
        r is Some ==> r->0 as int == slot_of(vehicle_spawn_names(spawns@), id@)->0 && r->0
            < spawns@.len(),
{
    let ghost names = vehicle_spawn_names(spawns@);
    let mut i: usize = 0;
    while i < spawns.len()
        invariant
            0 <= i <= spawns@.len(),
            names == vehicle_spawn_names(spawns@),
            forall|j: int| 0 <= j < i ==> names[j] != id@,
        decreases spawns@.len() - i,
    {
        proof {
            assert(names[i as int] == spawns@[i as int].id@);
        }
        if same_text(spawns[i].id.as_str(), id) {
            proof {
                assert(is_first(names, id@, i as int));
                lemma_slot_found(names, id@, i as int);
            }
            return Some(i);
        }
        i += 1;
    }
    proof {
        lemma_slot_missing(names, id@);
    }
    None
}

fn mark_weapon_spawn(spawns: &mut Vec<WeaponSpawnPoint>, name: &str, occupied: bool)
    ensures
        final(spawns)@ == weapon_spawns_marked(old(spawns)@, name@, occupied),
{
    match find_weapon_spawn(spawns, name) {
        Some(j) => {
            let marked = WeaponSpawnPoint {
                id: spawns[j].id.clone(),
                weapon_type: spawns[j].weapon_type.clone(),
                position: spawns[j].position,
                respawn_time: spawns[j].respawn_time,
                occupied,
            };
            spawns.set(j, marked);
        },
        None => {},
    }
}

fn mark_vehicle_spawn(spawns: &mut Vec<VehicleSpawnPoint>, name: &str, occupied: bool)
    ensures
        final(spawns)@ == vehicle_spawns_marked(old(spawns)@, name@, occupied),
{
    match find_vehicle_spawn(spawns, name) {
        Some(j) => {
            let marked = VehicleSpawnPoint {
                id: spawns[j].id.clone(),
                position: spawns[j].position,
                rotation: spawns[j].rotation,
                vehicle_type: spawns[j].vehicle_type.clone(),
                respawn_time: spawns[j].respawn_time,
                occupied,
            };
            spawns.set(j, marked);
        },
        None => {},
    }
}

fn take_item(items: &mut Vec<SpawnedItem>, i: usize, now: u64) -> (spawn_point_id: String)
    requires
        i < old(items)@.len(),
    ensures
        final(items)@ == old(items)@.update(i as int, taken(old(items)@[i as int], now)),
        spawn_point_id == old(items)@[i as int].spawn_point_id,
{
    let spawn_point_id = items[i].spawn_point_id.clone();
    let item = SpawnedItem {
        spawn_point_id: items[i].spawn_point_id.clone(),
        item_id: items[i].item_id.clone(),
        picked_up: true,
        last_pickup_time: Some(now),
    };
    items.set(i, item);
    spawn_point_id
}

impl SpawnManager {
    /// Pools without spawn points and without items.
    pub fn new() -> (r: SpawnManager)
        ensures
            r.spawn_points@.len() == 0,
            r.vehicle_spawns@.len() == 0,
            r.weapon_spawns@.len() == 0,
            r.spawned_vehicles@.len() == 0,
            r.spawned_weapons@.len() == 0,
    {
        SpawnManager {
            spawn_points: Vec::new(),
            vehicle_spawns: Vec::new(),
            weapon_spawns: Vec::new(),
            spawned_vehicles: Vec::new(),
            spawned_weapons: Vec::new(),
        }
    }

    /// The spawn point for participants that the draw `draw` falls on, if there is any.
    pub fn player_spawn_for(&self, draw: usize) -> (r: Option<&PlayerSpawnPoint>)
        ensures
            r is Some <==> self.spawn_points@.len() > 0,
            r is Some ==> *r->0 == self.spawn_points@[draw as int % self.spawn_points@.len() as int],
    {
        if self.spawn_points.len() == 0 {
            None
        } else {
            let index = draw % self.spawn_points.len();
            Some(&self.spawn_points[index])
        }
    }

    /// One of the spawn points for participants, drawn at random, if there is any.
    pub fn get_random_player_spawn(&self) -> (r: Option<&PlayerSpawnPoint>)
        ensures
            r is Some <==> self.spawn_points@.len() > 0,
            r is Some ==> exists|i: int|
                0 <= i < self.spawn_points@.len() && *r->0 == #[trigger] self.spawn_points@[i],
    {
        let draw = random_draw() as usize;
        let r = self.player_spawn_for(draw);
        proof {
            if r is Some {
                let i = draw as int % self.spawn_points@.len() as int;
                assert(0 <= i < self.spawn_points@.len() && *r->0 == self.spawn_points@[i]);
            }
        }
        r
    }

    /// Picks up the item under `item_id` at `now`, if it lies at its spawn point: a weapon
    /// first, a vehicle otherwise. Its spawn point is then occupied. Says whether an item
    /// was picked up.
    pub fn pickup_item(&mut self, item_id: &str, now: u64) -> (ok: bool)
        ensures
            ok == old(self).pools().offers(item_id@),
            final(self).pools() == old(self).pools().after_pickup(item_id@, now),
    {
        match find_item(&self.spawned_weapons, item_id) {
            Some(i) => {
                if !self.spawned_weapons[i].picked_up {
                    let spawn_point_id = take_item(&mut self.spawned_weapons, i, now);
                    mark_weapon_spawn(&mut self.weapon_spawns, spawn_point_id.as_str(), true);
                    return true;
                }
            },
            None => {},
        }
        match find_item(&self.spawned_vehicles, item_id) {
            Some(i) => {
                if !self.spawned_vehicles[i].picked_up {
                    let spawn_point_id = take_item(&mut self.spawned_vehicles, i, now);
                    mark_vehicle_spawn(&mut self.vehicle_spawns, spawn_point_id.as_str(), true);
                    return true;
                }
            },
            None => {},
        }
        false
    }

    /// The passing of time changes nothing by itself: what is due is settled by
    /// `check_respawns`.
    pub fn update(&mut self, delta: u64)
        ensures
            final(self).spawn_points@ == old(self).spawn_points@,
            final(self).vehicle_spawns@ == old(self).vehicle_spawns@,
            final(self).weapon_spawns@ == old(self).weapon_spawns@,
            final(self).spawned_vehicles@ == old(self).spawned_vehicles@,
            final(self).spawned_weapons@ == old(self).spawned_weapons@,
    {
    }

    /// Lets every taken weapon whose respawn time has passed at `now` lie at its spawn point
    /// again, frees that spawn point, and returns the frames that announce the weapons, in
    /// the order of the items.
    pub fn check_respawns(&mut self, now: u64) -> (frames: Vec<ServerMessage>)
        ensures
            frames@ == weapon_frames(
                old(self).spawned_weapons@,
                old(self).weapon_spawns@,
                now,
                old(self).spawned_weapons@.len() as int,
            ),
            final(self).spawned_weapons@.len() == old(self).spawned_weapons@.len(),
            forall|k: int|
                0 <= k < old(self).spawned_weapons@.len() ==> #[trigger] final(self).spawned_weapons@[k]
                    == (if weapon_due(
                    old(self).spawned_weapons@[k],
                    old(self).weapon_spawns@,
                    now,
                ) {
                    returned(old(self).spawned_weapons@[k])
                } else {
                    old(self).spawned_weapons@[k]
                }),
            final(self).weapon_spawns@.len() == old(self).weapon_spawns@.len(),
            forall|j: int|
                0 <= j < old(self).weapon_spawns@.len() ==> #[trigger] final(self).weapon_spawns@[j]
                    == (WeaponSpawnPoint {
                    occupied: old(self).weapon_spawns@[j].occupied && !freed_by(
                        old(self).spawned_weapons@,
                        old(self).weapon_spawns@,
                        now,
                        old(self).spawned_weapons@.len() as int,
                        j,
                    ),
                    ..old(self).weapon_spawns@[j]
                }),
            final(self).spawn_points@ == old(self).spawn_points@,
            final(self).vehicle_spawns@ == old(self).vehicle_spawns@,
            final(self).spawned_vehicles@ == old(self).spawned_vehicles@,
    {
        let ghost items0 = self.spawned_weapons@;
        let ghost spawns0 = self.weapon_spawns@;
        let mut frames: Vec<ServerMessage> = Vec::new();
        let mut i: usize = 0;
        while i < self.spawned_weapons.len()
            invariant
                0 <= i <= items0.len(),
                items0 == old(self).spawned_weapons@,
                spawns0 == old(self).weapon_spawns@,
                self.spawned_weapons@.len() == items0.len(),
                self.weapon_spawns@.len() == spawns0.len(),
                self.spawn_points@ == old(self).spawn_points@,
                self.vehicle_spawns@ == old(self).vehicle_spawns@,
                self.spawned_vehicles@ == old(self).spawned_vehicles@,
                forall|k: int|
                    0 <= k < items0.len() ==> #[trigger] self.spawned_weapons@[k] == (if k < i
                        && weapon_due(items0[k], spawns0, now) {
                        returned(items0[k])
                    } else {
                        items0[k]
                    }),
                forall|j: int|
                    0 <= j < spawns0.len() ==> #[trigger] self.weapon_spawns@[j]
                        == (WeaponSpawnPoint {
                        occupied: spawns0[j].occupied && !freed_by(items0, spawns0, now, i as int, j),
                        ..spawns0[j]
                    }),
                frames@ == weapon_frames(items0, spawns0, now, i as int),
            decreases items0.len() - i,
        {
            let ghost spawns_now = self.weapon_spawns@;
            proof {
                assert(weapon_spawn_names(spawns_now) =~= weapon_spawn_names(spawns0));
                assert(self.spawned_weapons@[i as int] == items0[i as int]);
            }
            let mut due: Option<usize> = None;
            if self.spawned_weapons[i].picked_up {
                match self.spawned_weapons[i].last_pickup_time {
                    Some(t) => {
                        match find_weapon_spawn(
                            &self.weapon_spawns,
                            self.spawned_weapons[i].spawn_point_id.as_str(),
                        ) {
                            Some(j) => {
                                proof {
                                    assert(self.weapon_spawns@[j as int].respawn_time
                                        == spawns0[j as int].respawn_time);
                                }
                                if elapsed_since(t, now) >= self.weapon_spawns[j].respawn_time {
                                    due = Some(j);
                                }
                            },
                            None => {},
                        }
                    },
                    None => {},
                }
            }
            proof {
                assert(due is Some <==> weapon_due(items0[i as int], spawns0, now));
            }
            match due {
                Some(j) => {
                    let item = SpawnedItem {
                        spawn_point_id: self.spawned_weapons[i].spawn_point_id.clone(),
                        item_id: self.spawned_weapons[i].item_id.clone(),
                        picked_up: false,
                        last_pickup_time: None,
                    };
                    frames.push(
                        ServerMessage::WeaponSpawn {
                            weapon_id: self.spawned_weapons[i].item_id.clone(),
                            weapon_type: self.weapon_spawns[j].weapon_type.clone(),
                            position: self.weapon_spawns[j].position,
                        },
                    );
                    let freed = WeaponSpawnPoint {
                        id: self.weapon_spawns[j].id.clone(),
                        weapon_type: self.weapon_spawns[j].weapon_type.clone(),
                        position: self.weapon_spawns[j].position,
                        respawn_time: self.weapon_spawns[j].respawn_time,
                        occupied: false,
                    };
                    self.spawned_weapons.set(i, item);
                    self.weapon_spawns.set(j, freed);
                    proof {
                        assert forall|m: int| 0 <= m < spawns0.len() implies #[trigger] self.weapon_spawns@[m]
                            == (WeaponSpawnPoint {
                            occupied: spawns0[m].occupied && !freed_by(
                                items0,
                                spawns0,
                                now,
                                i as int + 1,
                                m,
                            ),
                            ..spawns0[m]
                        }) by {
                            if m == j as int {
                                assert(weapon_due(items0[i as int], spawns0, now));
                                assert(freed_by(items0, spawns0, now, i as int + 1, m));
                            } else {
                                if freed_by(items0, spawns0, now, i as int + 1, m) {
                                    let w = choose|w: int|
                                        0 <= w < i as int + 1 && w < items0.len() && weapon_due(
                                            #[trigger] items0[w],
                                            spawns0,
                                            now,
                                        ) && slot_of(
                                            weapon_spawn_names(spawns0),
                                            items0[w].spawn_point_id@,
                                        ) == Some(m);
                                    assert(w != i as int);
                                    assert(freed_by(items0, spawns0, now, i as int, m));
                                }
                                if freed_by(items0, spawns0, now, i as int, m) {
                                    let w = choose|w: int|
                                        0 <= w < i as int && w < items0.len() && weapon_due(
                                            #[trigger] items0[w],
                                            spawns0,
                                            now,
                                        ) && slot_of(
                                            weapon_spawn_names(spawns0),
                                            items0[w].spawn_point_id@,
                                        ) == Some(m);
                                    assert(freed_by(items0, spawns0, now, i as int + 1, m));
                                }
                            }
                        }
                    }
                },
                None => {
                    proof {
                        assert forall|m: int| 0 <= m < spawns0.len() implies freed_by(
                            items0,
                            spawns0,
                            now,
                            i as int + 1,
                            m,
                        ) == freed_by(items0, spawns0, now, i as int, m) by {
                            if freed_by(items0, spawns0, now, i as int + 1, m) {
                                let w = choose|w: int|
                                    0 <= w < i as int + 1 && w < items0.len() && weapon_due(
                                        #[trigger] items0[w],
                                        spawns0,
                                        now,
                                    ) && slot_of(
                                        weapon_spawn_names(spawns0),
                                        items0[w].spawn_point_id@,
                                    ) == Some(m);
                                assert(w != i as int);
                                assert(freed_by(items0, spawns0, now, i as int, m));
                            }
                            if freed_by(items0, spawns0, now, i as int, m) {
                                let w = choose|w: int|
                                    0 <= w < i as int && w < items0.len() && weapon_due(
                                        #[trigger] items0[w],
                                        spawns0,
                                        now,
                                    ) && slot_of(
                                        weapon_spawn_names(spawns0),
                                        items0[w].spawn_point_id@,
                                    ) == Some(m);
                                assert(freed_by(items0, spawns0, now, i as int + 1, m));
                            }
                        }
                    }
                },
            }
            i += 1;
        }
        frames
    }

    /// The pools as plain sequences.
    pub open spec fn pools(&self) -> Pools {
        Pools {
            spawn_points: self.spawn_points@,
            vehicle_spawns: self.vehicle_spawns@,
            weapon_spawns: self.weapon_spawns@,
            spawned_vehicles: self.spawned_vehicles@,
            spawned_weapons: self.spawned_weapons@,
        }
    }

    /// Seeds the pools from one object of the level, and returns the frame that announces
    /// the item that the object brings into the world, if it brings one. What the object
    /// spawns and how long its respawn takes is read from its properties; the item is named
    /// after the spawn point and a number drawn at random.
    pub fn register(&mut self, obj: &LevelObject) -> (frame: Option<ServerMessage>)
        ensures
            seeded_by(old(self).pools(), *obj, final(self).pools(), frame),
    {
        let spawned_type = match &obj.properties {
            Some(props) => {
                if same_text(obj.object_type.as_str(), "vehicle_spawn") {
                    property_text(props, "vehicle_type")
                } else if same_text(obj.object_type.as_str(), "weapon_spawn") {
                    property_text(props, "weapon_type")
                } else {
                    None
                }
            },
            None => None,
        };
        let respawn_seconds = match &obj.properties {
            Some(props) => property_number(props, "respawn_time"),
            None => None,
        };
        let n = fresh_id();
        let item_id = match &obj.id {
            Some(id) => id.clone().concat("_").concat(id_text(n).as_str()),
            None => String::new(),
        };
        proof {
            if obj.id is Some {
                assert(item_id@ == item_name(obj.id->0@, n));
            }
        }
        let frame = self.seed(obj, spawned_type, respawn_seconds, item_id);
        proof {
            assert(seeded_as(old(self).pools(), *obj, n, self.pools(), frame));
        }
        frame
    }

    /// Seeds the pools from one object of the level, which spawns things of type
    /// `spawned_type` and takes `respawn_seconds` to respawn them, as far as it says so, and
    /// returns the frame that announces the item that the object brings into the world under
    /// the name `item_id`, if it brings one.
    pub fn seed(
        &mut self,
        obj: &LevelObject,
        spawned_type: Option<String>,
        respawn_seconds: Option<u64>,
        item_id: String,
    ) -> (frame: Option<ServerMessage>)
        ensures
            seeded_with(
                old(self).pools(),
                *obj,
                match spawned_type {
                    Some(t) => Some(t@),
                    None => None,
                },
                respawn_seconds,
                item_id@,
                final(self).pools(),
                frame,
            ),
    {
        let id = match &obj.id {
            Some(id) => id,
            None => {
                return None;
            },
        };
        let rotation = match obj.rotation {
            Some(r) => r,
            None => Rotation { x: 0, y: 0, z: 0, w: 1000 },
        };
        if same_text(obj.object_type.as_str(), "player_spawn") {
            self.spawn_points.push(
                PlayerSpawnPoint { id: id.clone(), position: obj.position, rotation },
            );
            return None;
        }
        let is_vehicle = same_text(obj.object_type.as_str(), "vehicle_spawn");
        let is_weapon = same_text(obj.object_type.as_str(), "weapon_spawn");
        if !is_vehicle && !is_weapon {
            return None;
        }
        let spawned_type = match spawned_type {
            Some(t) => t,
            None => {
                return None;
            },
        };
        if is_vehicle {
            let seconds = match respawn_seconds {
                Some(n) => n,
                None => DEFAULT_VEHICLE_RESPAWN_S,
            };
            self.vehicle_spawns.push(
                VehicleSpawnPoint {
                    id: id.clone(),
                    vehicle_type: spawned_type.clone(),
                    position: obj.position,
                    rotation,
                    respawn_time: to_millis(seconds),
                    occupied: false,
                },
            );
            put_item(
                &mut self.spawned_vehicles,
                SpawnedItem {
                    spawn_point_id: id.clone(),
                    item_id: item_id.clone(),
                    picked_up: false,
                    last_pickup_time: None,
                },
            );
            let frame = ServerMessage::VehicleSpawned {
                vehicle_id: item_id,
                vehicle_type: spawned_type,
                position: obj.position,
                rotation,
            };
            proof {
                assert(self.vehicle_spawns@.drop_last() =~= old(self).vehicle_spawns@);
            }
            Some(frame)
        } else {
            let seconds = match respawn_seconds {
                Some(n) => n,
                None => DEFAULT_WEAPON_RESPAWN_S,
            };
            self.weapon_spawns.push(
                WeaponSpawnPoint {
                    id: id.clone(),
                    weapon_type: spawned_type.clone(),
                    position: obj.position,
                    respawn_time: to_millis(seconds),
                    occupied: false,
                },
            );
            put_item(
                &mut self.spawned_weapons,
                SpawnedItem {
                    spawn_point_id: id.clone(),
                    item_id: item_id.clone(),
                    picked_up: false,
                    last_pickup_time: None,
                },
            );
            let frame = ServerMessage::WeaponSpawn {
                weapon_id: item_id,
                weapon_type: spawned_type,
                position: obj.position,
            };
            proof {
                assert(self.weapon_spawns@.drop_last() =~= old(self).weapon_spawns@);
            }
            Some(frame)
        }
    }

    /// Seeds the pools from every object of the level, in order, and returns the frames that
    /// announce the items brought into the world, in that order.
    pub fn initialize_from_level(&mut self, level: &Level) -> (frames: Vec<ServerMessage>)
        ensures
            exists|trace: Seq<Pools>, announced: Seq<Option<ServerMessage>>|
                #![auto]
                trace.len() == level.objects@.len() + 1 && announced.len() == level.objects@.len()
                    && trace[0] == old(self).pools() && trace[level.objects@.len() as int]
                    == final(self).pools() && (forall|i: int|
                    0 <= i < level.objects@.len() ==> seeded_by(
                        trace[i],
                        level.objects@[i],
                        trace[i + 1],
                        announced[i],
                    )) && frames@ == announcements(announced, announced.len() as int),
    {
        let mut frames: Vec<ServerMessage> = Vec::new();
        let ghost mut trace: Seq<Pools> = seq![self.pools()];
        let ghost mut announced: Seq<Option<ServerMessage>> = Seq::empty();
        let mut i: usize = 0;
        while i < level.objects.len()
            invariant
                0 <= i <= level.objects@.len(),
                trace.len() == i + 1,
                announced.len() == i,
                trace[0] == old(self).pools(),
                trace[i as int] == self.pools(),
                forall|k: int|
                    0 <= k < i ==> seeded_by(
                        #[trigger] trace[k],
                        level.objects@[k],
                        trace[k + 1],
                        announced[k],
                    ),
                frames@ == announcements(announced, announced.len() as int),
            decreases level.objects@.len() - i,
        {
            let frame = self.register(&level.objects[i]);
            proof {
                let ghost prev = announced;
                announced = announced.push(frame);
                trace = trace.push(self.pools());
                lemma_announcements_prefix(prev, announced, prev.len() as int);
            }
            match frame {
                Some(f) => {
                    frames.push(f);
                },
                None => {},
            }
            i += 1;
        }
        frames
    }
}

/// The pools of a spawn manager, as plain sequences.
pub struct Pools {
    pub spawn_points: Seq<PlayerSpawnPoint>,
    pub vehicle_spawns: Seq<VehicleSpawnPoint>,
    pub weapon_spawns: Seq<WeaponSpawnPoint>,
    pub spawned_vehicles: Seq<SpawnedItem>,
    pub spawned_weapons: Seq<SpawnedItem>,
}

impl Pools {
    /// The pools after the item under `item_id` has been picked up at `now`, if it lay at
    /// its spawn point: a weapon first, a vehicle otherwise. The spawn point of the item is
    /// then occupied.
    pub open spec fn after_pickup(self, item_id: Seq<char>, now: u64) -> Pools {
        if available(self.spawned_weapons, item_id) is Some {
            let i = available(self.spawned_weapons, item_id)->0;
            Pools {
                spawned_weapons: self.spawned_weapons.update(
                    i,
                    taken(self.spawned_weapons[i], now),
                ),
                weapon_spawns: weapon_spawns_marked(
                    self.weapon_spawns,
                    self.spawned_weapons[i].spawn_point_id@,
                    true,
                ),
                ..self
            }
        } else if available(self.spawned_vehicles, item_id) is Some {
            let i = available(self.spawned_vehicles, item_id)->0;
            Pools {
                spawned_vehicles: self.spawned_vehicles.update(
                    i,
                    taken(self.spawned_vehicles[i], now),
                ),
                vehicle_spawns: vehicle_spawns_marked(
                    self.vehicle_spawns,
                    self.spawned_vehicles[i].spawn_point_id@,
                    true,
                ),
                ..self
            }
        } else {
            self
        }
    }

    /// Whether the item under `item_id` lies at its spawn point to be picked up.
    pub open spec fn offers(self, item_id: Seq<char>) -> bool {
        available(self.spawned_weapons, item_id) is Some || available(
            self.spawned_vehicles,
            item_id,
        ) is Some
    }
}

/// The frames among the first `n` of `announced`, in order.
pub open spec fn announcements(announced: Seq<Option<ServerMessage>>, n: int) -> Seq<ServerMessage>
    decreases n,
{
    if n <= 0 {
        Seq::empty()
    } else {
        match announced[n - 1] {
            Some(f) => announcements(announced, n - 1).push(f),
            None => announcements(announced, n - 1),
        }
    }
}

/// The frames among the first `n` announcements do not depend on what follows them.
pub proof fn lemma_announcements_prefix(
    a: Seq<Option<ServerMessage>>,
    b: Seq<Option<ServerMessage>>,
    n: int,
)
    requires
        0 <= n <= a.len() <= b.len(),
        forall|i: int| 0 <= i < n ==> a[i] == b[i],
    ensures
        announcements(a, n) == announcements(b, n),
    decreases n,
{
    if n > 0 {
        lemma_announcements_prefix(a, b, n - 1);
    }
}

/// A respawn time given in seconds, in milliseconds, held to the range of a time.
pub open spec fn millis(seconds: u64) -> u64 {
    if seconds * 1000 > u64::MAX {
        u64::MAX
    } else {
        (seconds * 1000) as u64
    }
}

fn to_millis(seconds: u64) -> (r: u64)
    ensures
        r == millis(seconds),
{
    if seconds > u64::MAX / 1000 {
        u64::MAX
    } else {
        seconds * 1000
    }
}

/// The identifier of the item of the spawn point `spawn_id` that carries the number `n`.
pub open spec fn item_name(spawn_id: Seq<char>, n: u128) -> Seq<char> {
    spawn_id + "_"@ + uuid_text(n)
}

/// The place at which an item named `name` is put into `items`: the place of the item of
/// that name, or the end.
pub open spec fn place_for(items: Seq<SpawnedItem>, name: Seq<char>) -> int {
    match slot_of(item_names(items), name) {
        Some(i) => i,
        None => items.len() as int,
    }
}

/// `after` is `before` with a new item of the spawn point `spawn_id` put under `name`.
pub open spec fn item_added(
    before: Seq<SpawnedItem>,
    after: Seq<SpawnedItem>,
    spawn_id: Seq<char>,
    name: Seq<char>,
) -> bool {
    let at = place_for(before, name);
    &&& 0 <= at <= before.len()
    &&& after.len() == (if at == before.len() {
        before.len() + 1
    } else {
        before.len()
    })
    &&& after[at].spawn_point_id@ == spawn_id
    &&& after[at].item_id@ == name
    &&& !after[at].picked_up
    &&& after[at].last_pickup_time is None
    &&& forall|k: int| 0 <= k < before.len() && k != at ==> after[k] == before[k]
}

fn put_item(items: &mut Vec<SpawnedItem>, item: SpawnedItem)
    requires
        !item.picked_up,
        item.last_pickup_time is None,
    ensures
        item_added(old(items)@, final(items)@, item.spawn_point_id@, item.item_id@),
{
    proof {
        lemma_slot_valid(item_names(items@), item.item_id@);
    }
    match find_item(items, item.item_id.as_str()) {
        Some(i) => {
            items.set(i, item);
        },
        None => {
            items.push(item);
        },
    }
}

/// What kind of spawn point a level object describes, if it describes one.
pub enum SpawnCategory {
    Player,
    Vehicle,
    Weapon,
}

/// The kind of spawn point that `obj` describes when it spawns things of type `spawned_type`,
/// as far as it says so: it must carry an identifier, and a spawn point for vehicles or
/// weapons must say what it spawns.
pub open spec fn category_of(obj: LevelObject, spawned_type: Option<Seq<char>>) -> Option<
    SpawnCategory,
> {
    if obj.id is None {
        None
    } else if obj.object_type@ == "player_spawn"@ {
        Some(SpawnCategory::Player)
    } else if obj.object_type@ == "vehicle_spawn"@ && spawned_type is Some {
        Some(SpawnCategory::Vehicle)
    } else if obj.object_type@ == "weapon_spawn"@ && spawned_type is Some {
        Some(SpawnCategory::Weapon)
    } else {
        None
    }
}

/// The type of what `obj` spawns, as its properties say: the vehicle type of a spawn point
/// for vehicles, the weapon type of a spawn point for weapons.
pub open spec fn spawned_type_of(obj: LevelObject) -> Option<Seq<char>> {
    if obj.properties is None {
        None
    } else if obj.object_type@ == "vehicle_spawn"@ {
        text_property(&obj.properties->0, "vehicle_type"@)
    } else if obj.object_type@ == "weapon_spawn"@ {
        text_property(&obj.properties->0, "weapon_type"@)
    } else {
        None
    }
}

/// How many seconds `obj` takes to respawn what it spawns, as far as its properties say.
pub open spec fn respawn_seconds_of(obj: LevelObject) -> Option<u64> {
    if obj.properties is None {
        None
    } else {
        number_property(&obj.properties->0, "respawn_time"@)
    }
}

/// The rotation that a level object is given, or none at all.
pub open spec fn rotation_of(obj: LevelObject) -> Rotation {
    match obj.rotation {
        Some(r) => r,
        None => Rotation { x: 0, y: 0, z: 0, w: 1000 },
    }
}

/// The respawn time of `seconds`, or of `default` seconds where none is given, in
/// milliseconds.
pub open spec fn respawn_time_of(seconds: Option<u64>, default: u64) -> u64 {
    match seconds {
        Some(n) => millis(n),
        None => millis(default),
    }
}

/// `after` is what the pools `before` become when seeded from `obj`, which spawns things of
/// type `spawned_type` and takes `respawn_seconds` to respawn them, and `frame` is what is
/// announced of it. A spawn point for participants joins its pool. A spawn point for
/// vehicles or weapons joins its pool, unoccupied, and brings one item into the world under
/// the name `item`; the frame announces that item. Any other object changes nothing.
pub open spec fn seeded_with(
    before: Pools,
    obj: LevelObject,
    spawned_type: Option<Seq<char>>,
    respawn_seconds: Option<u64>,
    item: Seq<char>,
    after: Pools,
    frame: Option<ServerMessage>,
) -> bool {
    match category_of(obj, spawned_type) {
        None => after == before && frame is None,
        Some(SpawnCategory::Player) => {
            &&& after == (Pools {
                spawn_points: before.spawn_points.push(
                    PlayerSpawnPoint {
                        id: obj.id->0,
                        position: obj.position,
                        rotation: rotation_of(obj),
                    },
                ),
                ..before
            })
            &&& frame is None
        },
        Some(SpawnCategory::Vehicle) => {
            &&& after.spawn_points == before.spawn_points
            &&& after.weapon_spawns == before.weapon_spawns
            &&& after.spawned_weapons == before.spawned_weapons
            &&& after.vehicle_spawns.len() == before.vehicle_spawns.len() + 1
            &&& after.vehicle_spawns.drop_last() == before.vehicle_spawns
            &&& after.vehicle_spawns.last().id == obj.id->0
            &&& after.vehicle_spawns.last().vehicle_type@ == spawned_type->0
            &&& after.vehicle_spawns.last().position == obj.position
            &&& after.vehicle_spawns.last().rotation == rotation_of(obj)
            &&& after.vehicle_spawns.last().respawn_time == respawn_time_of(
                respawn_seconds,
                DEFAULT_VEHICLE_RESPAWN_S,
            )
            &&& !after.vehicle_spawns.last().occupied
            &&& item_added(before.spawned_vehicles, after.spawned_vehicles, obj.id->0@, item)
            &&& frame is Some
            &&& is_vehicle_frame(frame->0, item, spawned_type->0, obj.position, rotation_of(obj))
        },
        Some(SpawnCategory::Weapon) => {
            &&& after.spawn_points == before.spawn_points
            &&& after.vehicle_spawns == before.vehicle_spawns
            &&& after.spawned_vehicles == before.spawned_vehicles
            &&& after.weapon_spawns.len() == before.weapon_spawns.len() + 1
            &&& after.weapon_spawns.drop_last() == before.weapon_spawns
            &&& after.weapon_spawns.last().id == obj.id->0
            &&& after.weapon_spawns.last().weapon_type@ == spawned_type->0
            &&& after.weapon_spawns.last().position == obj.position
            &&& after.weapon_spawns.last().respawn_time == respawn_time_of(
                respawn_seconds,
                DEFAULT_WEAPON_RESPAWN_S,
            )
            &&& !after.weapon_spawns.last().occupied
            &&& item_added(before.spawned_weapons, after.spawned_weapons, obj.id->0@, item)
            &&& frame is Some
            &&& is_weapon_frame(frame->0, item, spawned_type->0, obj.position)
        },
    }
}

/// `after` is what the pools `before` become when seeded from `obj` as its properties say,
/// with the item that it brings into the world named after the spawn point and the number
/// `n`; `frame` is what is announced of it.
pub open spec fn seeded_as(
    before: Pools,
    obj: LevelObject,
    n: u128,
    after: Pools,
    frame: Option<ServerMessage>,
) -> bool {
    seeded_with(
        before,
        obj,
        spawned_type_of(obj),
        respawn_seconds_of(obj),
        if obj.id is Some {
            item_name(obj.id->0@, n)
        } else {
            Seq::empty()
        },
        after,
        frame,
    )
}

/// `after` is what the pools `before` become when seeded from `obj` as its properties say,
/// with the item that it brings into the world named after the spawn point and some number;
/// `frame` is what is announced of it.
pub open spec fn seeded_by(
    before: Pools,
    obj: LevelObject,
    after: Pools,
    frame: Option<ServerMessage>,
) -> bool {
    exists|n: u128| #[trigger] seeded_as(before, obj, n, after, frame)
}

/// `frame` announces a vehicle of type `vehicle_type` under `name`, standing at `position`.
pub open spec fn is_vehicle_frame(
    frame: ServerMessage,
    name: Seq<char>,
    vehicle_type: Seq<char>,
    position: Position,
    rotation: Rotation,
) -> bool {
    match frame {
        ServerMessage::VehicleSpawned { vehicle_id, vehicle_type: t, position: p, rotation: r } => {
            vehicle_id@ == name && t@ == vehicle_type && p == position && r == rotation
        },
        _ => false,
    }
}

/// `frame` announces a weapon of type `weapon_type` under `name`, lying at `position`.
pub open spec fn is_weapon_frame(
    frame: ServerMessage,
    name: Seq<char>,
    weapon_type: Seq<char>,
    position: Position,
) -> bool {
    match frame {
        ServerMessage::WeaponSpawn { weapon_id, weapon_type: t, position: p } => {
            weapon_id@ == name && t@ == weapon_type && p == position
        },
        _ => false,
    }
}

} // verus!
