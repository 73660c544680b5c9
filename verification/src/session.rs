//! The beginning of a session: the participant joins the world and is shown what is in it.

use crate::dynamic_objects::{is_fresh_object, rock_name, DynamicObject};
use crate::game_state::{AppState, WorldView};
use crate::ids::id_text;
use crate::ids::uuid_text;
use crate::messages::{
    copy_objects, mirror_all, DynamicObjectInfo, Outbound, PlayerInfo, Position, Recipients,
    Rotation, ServerMessage,
};
use crate::origin::{local_of, to_local, world_of, LocalVector, WorldVector};
use crate::physics::{ColliderHandle, RigidBodyHandle};
use crate::player::{
    addressed, anchor_of, is_info_of, same_but_position, sender_world, Player,
    DEFAULT_SPAWN_HEIGHT,
};
use crate::spawns::{find_weapon_spawn, weapon_spawn_names, SpawnedItem, WeaponSpawnPoint};
use crate::chance::random_draw;
use crate::store::lists_keys;
use crate::text::{begins_with, slot_of, starts_with_text};
use crate::vehicles::Vehicle;
use vstd::prelude::*;

verus! {

/// The height at which a rock enters the world when a participant joins, in millimetres.
pub const ROCK_HEIGHT: i64 = 100_000;

/// How far from the axis through the spawn place a rock may enter the world, in millimetres.
pub const ROCK_SPREAD: i64 = 10_000;

/// The smallest scale of a rock, in thousandths.
pub const ROCK_SCALE_MIN: i32 = 800;

/// The largest scale of a rock, in thousandths.
pub const ROCK_SCALE_MAX: i32 = 1_200;

/// Where a rock is to enter the world, and how large.
#[derive(Clone, Copy, Debug, PartialEq, Eq, Structural)]
pub struct RockPlan {
    pub position: WorldVector,
    pub scale: i32,
}

/// Whether a rock may enter the world as `plan` says: at the height of rocks, within the
/// spread around the axis through the spawn place, and of a scale between the smallest and
/// the largest.
pub open spec fn is_rock_plan(plan: RockPlan) -> bool {
    &&& -ROCK_SPREAD <= plan.position.x <= ROCK_SPREAD
    &&& plan.position.y == ROCK_HEIGHT
    &&& -ROCK_SPREAD <= plan.position.z <= ROCK_SPREAD
    &&& ROCK_SCALE_MIN <= plan.scale <= ROCK_SCALE_MAX
}

/// The plan that three draws stand for.
pub fn plan_rock_from(draw_x: u32, draw_z: u32, draw_scale: u32) -> (plan: RockPlan)
    ensures
        plan.position.x == draw_x % 20_001 - ROCK_SPREAD,
        plan.position.y == ROCK_HEIGHT,
        plan.position.z == draw_z % 20_001 - ROCK_SPREAD,
        plan.scale == ROCK_SCALE_MIN + draw_scale % 401,
        is_rock_plan(plan),
{
    let x: u32 = draw_x % 20_001;
    let z: u32 = draw_z % 20_001;
    let s: u32 = draw_scale % 401;
    RockPlan {
        position: WorldVector { x: x as i64 - ROCK_SPREAD, y: ROCK_HEIGHT, z: z as i64 - ROCK_SPREAD },
        scale: ROCK_SCALE_MIN + s as i32,
    }
}

/// A plan for a rock, drawn at random.
pub fn plan_rock() -> (plan: RockPlan)
    ensures
        is_rock_plan(plan),
{
    plan_rock_from(random_draw(), random_draw(), random_draw())
}

/// What a newcomer and the others are sent when a participant joins, by what it is about.
pub struct Greeting {
    /// Tells the newcomer who it is and where it enters the world.
    pub welcome: Outbound,
    /// Shows the newcomer the static level.
    pub level: Outbound,
    /// Shows the newcomer each vehicle.
    pub vehicles: Vec<Outbound>,
    /// Shows the newcomer each weapon that lies at its spawn point.
    pub weapons: Vec<Outbound>,
    /// Lists the other participants to the newcomer.
    pub players: Outbound,
    /// Lists the dynamic objects to the newcomer, if there are any to list.
    pub objects: Option<Outbound>,
    /// Shows every participant the rock that enters the world with the newcomer.
    pub rock: Vec<Outbound>,
    /// Tells the others of the newcomer.
    pub joined: Vec<Outbound>,
    /// The identifier of the rock that enters the world with the newcomer.
    pub rock_id: String,
}

impl Greeting {
    /// The frames of the greeting in the order in which they go out.
    pub open spec fn in_order(self) -> Seq<Outbound> {
        seq![self.welcome, self.level] + self.vehicles@ + self.weapons@ + seq![self.players] + (
        match self.objects {
            Some(f) => seq![f],
            None => Seq::empty(),
        }) + self.rock@ + self.joined@
    }

    /// The frames of the greeting in the order in which they go out.
    pub fn into_frames(self) -> (frames: Vec<Outbound>)
        ensures
            frames@ == self.in_order(),
    {
        let ghost whole = self.in_order();
        let Greeting { welcome, level, vehicles, weapons, players, objects, rock, joined, rock_id: _ } =
            self;
        let mut vehicles = vehicles;
        let mut weapons = weapons;
        let mut rock = rock;
        let mut joined = joined;
        let mut frames: Vec<Outbound> = Vec::new();
        frames.push(welcome);
        frames.push(level);
        frames.append(&mut vehicles);
        frames.append(&mut weapons);
        frames.push(players);
        match objects {
            Some(f) => {
                frames.push(f);
            },
            None => {},
        }
        frames.append(&mut rock);
        frames.append(&mut joined);
        proof {
            assert(frames@ =~= whole);
        }
        frames
    }
}

/// `frame` tells the newcomer `player_id`, and nobody else, who it is and that it enters the
/// world at the spawn place.
pub open spec fn is_welcome_frame(frame: Outbound, player_id: u128) -> bool {
    &&& frame.to == Recipients::One(player_id)
    &&& match frame.message {
        ServerMessage::Welcome { player_id: p, spawn_position } => {
            p@ == uuid_text(player_id) && spawn_position == (Position {
                x: 0,
                y: DEFAULT_SPAWN_HEIGHT,
                z: 0,
            })
        },
        _ => false,
    }
}

/// `frame` shows the newcomer `player_id`, and nobody else, the level `objects`.
pub open spec fn is_level_frame(frame: Outbound, player_id: u128, objects: Seq<
    crate::messages::LevelObject,
>) -> bool {
    &&& frame.to == Recipients::One(player_id)
    &&& match frame.message {
        ServerMessage::LevelData { objects: shown } => mirror_all(shown@, objects),
        _ => false,
    }
}

/// `frame` shows the participant `player_id`, and nobody else, the vehicle `v` as seen from
/// `anchor`.
pub open spec fn is_vehicle_shown(
    frame: Outbound,
    player_id: u128,
    v: Vehicle,
    anchor: WorldVector,
) -> bool {
    let seen = local_of(world_of(v.world_origin, v.position), anchor);
    &&& frame.to == Recipients::One(player_id)
    &&& frame.message == ServerMessage::VehicleSpawned {
        vehicle_id: v.id,
        vehicle_type: v.vehicle_type,
        position: Position { x: seen.x, y: seen.y, z: seen.z },
        rotation: Rotation { x: v.rotation.i, y: v.rotation.j, z: v.rotation.k, w: v.rotation.w },
    }
}

/// `frames` show the participant `player_id` each vehicle of `vehicles` once, as seen from
/// `anchor`.
pub open spec fn shows_vehicles(
    frames: Seq<Outbound>,
    player_id: u128,
    vehicles: Map<Seq<char>, Vehicle>,
    anchor: WorldVector,
) -> bool {
    exists|keys: Seq<Seq<char>>| #[trigger] shows_vehicles_of(frames, keys, player_id, vehicles, anchor)
}

/// `frames` show the participant `player_id` the vehicles under `keys`, which are all the
/// vehicles of `vehicles`, in that order.
pub open spec fn shows_vehicles_of(
    frames: Seq<Outbound>,
    keys: Seq<Seq<char>>,
    player_id: u128,
    vehicles: Map<Seq<char>, Vehicle>,
    anchor: WorldVector,
) -> bool {
    &&& lists_keys(keys, vehicles.dom())
    &&& frames.len() == keys.len()
    &&& forall|i: int|
        0 <= i < keys.len() ==> is_vehicle_shown(frames[i], player_id, vehicles[#[trigger] keys[i]], anchor)
}

/// Whether a weapon lies at its spawn point to be shown: it has not been picked up, and its
/// spawn point is known.
pub open spec fn weapon_lies(item: SpawnedItem, spawns: Seq<WeaponSpawnPoint>) -> bool {
    !item.picked_up && slot_of(weapon_spawn_names(spawns), item.spawn_point_id@) is Some
}

/// The frame that shows `player_id`, and nobody else, the weapon `item` at its spawn point.
pub open spec fn weapon_shown(
    item: SpawnedItem,
    spawns: Seq<WeaponSpawnPoint>,
    player_id: u128,
) -> Outbound {
    let spawn = spawns[slot_of(weapon_spawn_names(spawns), item.spawn_point_id@)->0];
    Outbound {
        to: Recipients::One(player_id),
        message: ServerMessage::WeaponSpawn {
            weapon_id: item.item_id,
            weapon_type: spawn.weapon_type,
            position: spawn.position,
        },
    }
}

/// The frames that show `player_id` those of the first `n` of `items` that lie at their
/// spawn points, in the order of the items.
pub open spec fn weapons_shown(
    items: Seq<SpawnedItem>,
    spawns: Seq<WeaponSpawnPoint>,
    player_id: u128,
    n: int,
) -> Seq<Outbound>
    decreases n,
{
    if n <= 0 {
        Seq::empty()
    } else if weapon_lies(items[n - 1], spawns) {
        weapons_shown(items, spawns, player_id, n - 1).push(
            weapon_shown(items[n - 1], spawns, player_id),
        )
    } else {
        weapons_shown(items, spawns, player_id, n - 1)
    }
}

/// `frame` lists to the newcomer `player_id`, and to nobody else, every other participant of
/// `players`, each as seen from the newcomer's anchor.
pub open spec fn is_players_frame(
    frame: Outbound,
    player_id: u128,
    players: Map<u128, Player>,
) -> bool {
    &&& frame.to == Recipients::One(player_id)
    &&& match frame.message {
        ServerMessage::PlayersList { players: listed } => lists_players(
            listed@,
            player_id,
            players,
        ),
        _ => false,
    }
}

/// `listed` tells of every participant of `players` but `player_id` once, each as seen from
/// the anchor of `player_id`.
pub open spec fn lists_players(
    listed: Seq<PlayerInfo>,
    player_id: u128,
    players: Map<u128, Player>,
) -> bool {
    exists|keys: Seq<u128>| #[trigger] lists_players_of(listed, keys, player_id, players)
}

/// `listed` tells of the participants under `keys`, which are all the participants of
/// `players` but `player_id`, in that order.
pub open spec fn lists_players_of(
    listed: Seq<PlayerInfo>,
    keys: Seq<u128>,
    player_id: u128,
    players: Map<u128, Player>,
) -> bool {
    &&& lists_keys(keys, players.dom().remove(player_id))
    &&& keys.len() == listed.len()
    &&& forall|i: int|
        0 <= i < listed.len() ==> is_info_of(
            #[trigger] listed[i],
            players[keys[i]],
            anchor_of(players, player_id),
        )
}

/// Whether a dynamic object is listed to a newcomer: the dynamic platforms of the level are
/// not, because the level shows them already.
pub open spec fn is_listed(info: DynamicObjectInfo) -> bool {
    !begins_with(info.id@, "level_dynamic_platform_"@)
}

/// Those of the first `n` of `infos` that are listed to a newcomer, in order.
pub open spec fn listed_infos(infos: Seq<DynamicObjectInfo>, n: int) -> Seq<DynamicObjectInfo>
    decreases n,
{
    if n <= 0 {
        Seq::empty()
    } else if is_listed(infos[n - 1]) {
        listed_infos(infos, n - 1).push(infos[n - 1])
    } else {
        listed_infos(infos, n - 1)
    }
}

/// `frame` shows the participant `receiver`, and nobody else, the object `o` as seen from
/// the receiver's anchor.
pub open spec fn is_object_shown(
    frame: Outbound,
    receiver: u128,
    anchor: WorldVector,
    o: DynamicObject,
) -> bool {
    frame.to == Recipients::One(receiver) && frame.message == o.spawn_frame_for(anchor)
}

/// `frames` show every participant of `players` the object `o` once, each as seen from its
/// own anchor.
pub open spec fn shows_object(
    frames: Seq<Outbound>,
    players: Map<u128, Player>,
    o: DynamicObject,
) -> bool {
    exists|keys: Seq<u128>| #[trigger] shows_object_to(frames, keys, players, o)
}

/// `frames` show the participants under `keys`, which are all the participants of `players`,
/// the object `o`, in that order.
pub open spec fn shows_object_to(
    frames: Seq<Outbound>,
    keys: Seq<u128>,
    players: Map<u128, Player>,
    o: DynamicObject,
) -> bool {
    &&& lists_keys(keys, players.dom())
    &&& frames.len() == keys.len()
    &&& forall|i: int|
        0 <= i < keys.len() ==> is_object_shown(
            frames[i],
            #[trigger] keys[i],
            players[keys[i]].world_origin,
            o,
        )
}

/// `frames` tell every participant of `players` but `player_id` that `player_id` has joined
/// at `world`, each with the position as seen from its own anchor.
pub open spec fn tells_of_join(
    frames: Seq<Outbound>,
    player_id: u128,
    players: Map<u128, Player>,
    world: WorldVector,
) -> bool {
    exists|keys: Seq<u128>| #[trigger] tells_of_join_to(frames, keys, player_id, players, world)
}

/// `frames` tell the participants under `keys`, which are all the participants of `players`
/// but `player_id`, that `player_id` has joined at `world`, in that order.
pub open spec fn tells_of_join_to(
    frames: Seq<Outbound>,
    keys: Seq<u128>,
    player_id: u128,
    players: Map<u128, Player>,
    world: WorldVector,
) -> bool {
    &&& lists_keys(keys, players.dom().remove(player_id))
    &&& frames.len() == keys.len()
    &&& forall|i: int|
        0 <= i < keys.len() ==> is_joined_frame(
            frames[i],
            #[trigger] keys[i],
            players[keys[i]].world_origin,
            player_id,
            world,
        )
}

/// `frame` tells the participant `receiver`, and nobody else, that `player_id` has joined
/// at `world`, as seen from the receiver's anchor.
pub open spec fn is_joined_frame(
    frame: Outbound,
    receiver: u128,
    anchor: WorldVector,
    player_id: u128,
    world: WorldVector,
) -> bool {
    let seen = local_of(world, anchor);
    &&& frame.to == Recipients::One(receiver)
    &&& match frame.message {
        ServerMessage::PlayerJoined { player_id: p, position } => {
            p@ == uuid_text(player_id) && position == (Position { x: seen.x, y: seen.y, z: seen.z })
        },
        _ => false,
    }
}

/// `frame` lists to the newcomer `player_id` the dynamic objects of `objects` that are
/// listed to newcomers, each as seen from `anchor`; there is no frame where there is nothing
/// to list.
pub open spec fn lists_objects(
    frame: Option<Outbound>,
    player_id: u128,
    objects: Map<Seq<char>, DynamicObject>,
    anchor: WorldVector,
) -> bool {
    exists|infos: Seq<DynamicObjectInfo>, keys: Seq<Seq<char>>| #[trigger]
        lists_objects_of(frame, infos, keys, player_id, objects, anchor)
}

/// `infos` tell of the objects under `keys`, which are all of `objects`, and `frame` lists
/// those of them that are listed to newcomers.
pub open spec fn lists_objects_of(
    frame: Option<Outbound>,
    infos: Seq<DynamicObjectInfo>,
    keys: Seq<Seq<char>>,
    player_id: u128,
    objects: Map<Seq<char>, DynamicObject>,
    anchor: WorldVector,
) -> bool {
    let listed = listed_infos(infos, infos.len() as int);
    &&& lists_keys(keys, objects.dom())
    &&& keys.len() == infos.len()
    &&& forall|i: int| 0 <= i < infos.len() ==> #[trigger] infos[i] == objects[keys[i]].info_for(anchor)
    &&& frame is Some <==> listed.len() > 0
    &&& frame is Some ==> frame->0.to == Recipients::One(player_id) && match frame->0.message {
        ServerMessage::DynamicObjectsList { objects: shown } => shown@ == listed,
        _ => false,
    }
}

/// What the joining of a participant does: see `AppState::connect`.
pub open spec fn connect_outcome(
    w: WorldView,
    after: WorldView,
    g: Greeting,
    level: Seq<crate::messages::LevelObject>,
    player_id: u128,
    body_handle: RigidBodyHandle,
    collider_handle: ColliderHandle,
    plan: RockPlan,
    rock_body: RigidBodyHandle,
    rock_collider: ColliderHandle,
    now: u64,
) -> bool {
    let spawn = LocalVector { x: 0, y: DEFAULT_SPAWN_HEIGHT, z: 0 };
    let newcomer = Player {
        body_handle: Some(body_handle),
        collider_handle: Some(collider_handle),
        ..Player::joined(player_id, spawn, now)
    };
    let anchor = WorldVector { x: 0, y: 0, z: 0 };
    let players = w.players.insert(player_id, newcomer);
    &&& after.players == players
    &&& after.vehicles == w.vehicles
    &&& after.projectiles == w.projectiles
    &&& after.pools == w.pools
    &&& after.water == w.water
    &&& names_a_rock(g.rock_id@)
    &&& after.objects.dom() == w.objects.dom().insert(g.rock_id@)
    &&& is_fresh_object(
        after.objects[g.rock_id@],
        g.rock_id@,
        "rock"@,
        plan.position,
        plan.scale,
        Some(rock_body),
        Some(rock_collider),
        now,
    )
    &&& forall|k: Seq<char>|
        k != g.rock_id@ && #[trigger] w.objects.contains_key(k) ==> after.objects[k] == w.objects[k]
    &&& is_welcome_frame(g.welcome, player_id)
    &&& is_level_frame(g.level, player_id, level)
    &&& shows_vehicles(g.vehicles@, player_id, w.vehicles, anchor)
    &&& g.weapons@ == weapons_shown(
        w.pools.spawned_weapons,
        w.pools.weapon_spawns,
        player_id,
        w.pools.spawned_weapons.len() as int,
    )
    &&& is_players_frame(g.players, player_id, players)
    &&& lists_objects(g.objects, player_id, w.objects, anchor)
    &&& shows_object(g.rock@, players, after.objects[g.rock_id@])
    &&& tells_of_join(g.joined@, player_id, players, world_of(anchor, spawn))
}

/// Whether `name` is the identifier of a rock.
pub open spec fn names_a_rock(name: Seq<char>) -> bool {
    exists|n: u128| name == #[trigger] rock_name(n)
}

impl AppState {
    /// The frames that show the participant `player_id` each vehicle, as seen from `anchor`.
    pub fn vehicle_frames_for(&self, player_id: u128, anchor: &WorldVector) -> (frames: Vec<Outbound>)
        ensures
            shows_vehicles(frames@, player_id, self@.vehicles, *anchor),
    {
        let list = self.vehicles.iter();
        let ghost keys = choose|keys: Seq<Seq<char>>|
            lists_keys(keys, self.vehicles@.dom()) && keys.len() == list@.len() && forall|i: int|
                0 <= i < list@.len() ==> #[trigger] list@[i] == self.vehicles@[keys[i]];
        let mut frames: Vec<Outbound> = Vec::new();
        let mut i: usize = 0;
        while i < list.len()
            invariant
                0 <= i <= list.len(),
                keys.len() == list@.len(),
                forall|j: int| 0 <= j < list@.len() ==> #[trigger] list@[j] == self.vehicles@[keys[j]],
                frames@.len() == i,
                forall|j: int|
                    0 <= j < i ==> is_vehicle_shown(
                        #[trigger] frames@[j],
                        player_id,
                        self.vehicles@[keys[j]],
                        *anchor,
                    ),
            decreases list.len() - i,
        {
            let v = &list[i];
            let seen = to_local(&v.get_world_position(), anchor);
            frames.push(
                Outbound {
                    to: Recipients::One(player_id),
                    message: ServerMessage::VehicleSpawned {
                        vehicle_id: v.id.clone(),
                        vehicle_type: v.vehicle_type.clone(),
                        position: Position { x: seen.x, y: seen.y, z: seen.z },
                        rotation: Rotation::from_quaternion(&v.rotation),
                    },
                },
            );
            proof {
                assert(list@[i as int] == self.vehicles@[keys[i as int]]);
            }
            i += 1;
        }
        proof {
            assert(self@.vehicles == self.vehicles@);
            assert(shows_vehicles_of(frames@, keys, player_id, self@.vehicles, *anchor));
        }
        frames
    }

    /// The frames that show the participant `player_id` each weapon that lies at its spawn
    /// point, in the order of the items.
    pub fn weapon_frames_for(&self, player_id: u128) -> (frames: Vec<Outbound>)
        ensures
            frames@ == weapons_shown(
                self@.pools.spawned_weapons,
                self@.pools.weapon_spawns,
                player_id,
                self@.pools.spawned_weapons.len() as int,
            ),
    {
        let items = &self.spawn_manager.spawned_weapons;
        let spawns = &self.spawn_manager.weapon_spawns;
        let mut frames: Vec<Outbound> = Vec::new();
        let mut i: usize = 0;
        while i < items.len()
            invariant
                0 <= i <= items@.len(),
                frames@ == weapons_shown(items@, spawns@, player_id, i as int),
            decreases items@.len() - i,
        {
            if !items[i].picked_up {
                match find_weapon_spawn(spawns, items[i].spawn_point_id.as_str()) {
                    Some(j) => {
                        frames.push(
                            Outbound {
                                to: Recipients::One(player_id),
                                message: ServerMessage::WeaponSpawn {
                                    weapon_id: items[i].item_id.clone(),
                                    weapon_type: spawns[j].weapon_type.clone(),
                                    position: spawns[j].position,
                                },
                            },
                        );
                    },
                    None => {},
                }
            }
            i += 1;
        }
        frames
    }

    /// The frame that lists to the participant `player_id` the dynamic objects that are
    /// listed to newcomers, as seen from `anchor`, if there are any.
    pub fn objects_frame_for(&self, player_id: u128, anchor: &WorldVector) -> (frame: Option<Outbound>)
        ensures
            lists_objects(frame, player_id, self@.objects, *anchor),
    {
        let infos = self.dynamic_objects.get_all_objects_relative_to(anchor);
        let ghost keys = choose|keys: Seq<Seq<char>>|
            lists_keys(keys, self.dynamic_objects@.dom()) && keys.len() == infos@.len() && forall|
                i: int,
            |
                0 <= i < infos@.len() ==> #[trigger] infos@[i] == self.dynamic_objects@[keys[i]].info_for(
                    *anchor,
                );
        let mut listed: Vec<DynamicObjectInfo> = Vec::new();
        let mut i: usize = 0;
        while i < infos.len()
            invariant
                0 <= i <= infos.len(),
                listed@ == listed_infos(infos@, i as int),
            decreases infos.len() - i,
        {
            if !starts_with_text(infos[i].id.as_str(), "level_dynamic_platform_") {
                listed.push(
                    DynamicObjectInfo {
                        id: infos[i].id.clone(),
                        object_type: infos[i].object_type.clone(),
                        position: infos[i].position,
                        rotation: infos[i].rotation,
                        scale: infos[i].scale,
                    },
                );
            }
            i += 1;
        }
        let frame = if listed.len() > 0 {
            Some(
                Outbound {
                    to: Recipients::One(player_id),
                    message: ServerMessage::DynamicObjectsList { objects: listed },
                },
            )
        } else {
            None
        };
        proof {
            assert(self@.objects == self.dynamic_objects@);
            assert(lists_objects_of(frame, infos@, keys, player_id, self@.objects, *anchor));
        }
        frame
    }

    /// The frames that show every participant the object under `object_id`, each as seen
    /// from its own anchor; none where there is no such object.
    pub fn object_frames(&self, object_id: &str) -> (frames: Vec<Outbound>)
        ensures
            self@.objects.contains_key(object_id@) ==> shows_object(
                frames@,
                self@.players,
                self@.objects[object_id@],
            ),
            !self@.objects.contains_key(object_id@) ==> frames@.len() == 0,
    {
        let mut frames: Vec<Outbound> = Vec::new();
        if self.dynamic_objects.get_object(object_id).is_none() {
            return frames;
        }
        let ids = self.players.ids();
        let mut i: usize = 0;
        while i < ids.len()
            invariant
                0 <= i <= ids.len(),
                self@.objects.contains_key(object_id@),
                lists_keys(ids@, self.players@.dom()),
                frames@.len() == i,
                forall|j: int|
                    0 <= j < i ==> is_object_shown(
                        #[trigger] frames@[j],
                        ids@[j],
                        self.players@[ids@[j]].world_origin,
                        self.dynamic_objects@[object_id@],
                    ),
            decreases ids.len() - i,
        {
            proof {
                assert(self.players@.dom().contains(ids@[i as int]));
            }
            let mut anchor = WorldVector::zeros();
            match self.players.get_player(ids[i]) {
                Some(p) => {
                    anchor = p.world_origin;
                },
                None => {},
            }
            match self.dynamic_objects.get_spawn_message(object_id, &anchor) {
                Some(message) => {
                    frames.push(Outbound { to: Recipients::One(ids[i]), message });
                },
                None => {},
            }
            i += 1;
        }
        proof {
            assert(self@.players == self.players@);
            assert(self@.objects == self.dynamic_objects@);
            assert(shows_object_to(frames@, ids@, self@.players, self@.objects[object_id@]));
        }
        frames
    }

    /// Participant `player_id`, whose body the engine has made, joins the world at the spawn
    /// place. It is told who it is and shown the level, the vehicles, the weapons that lie at
    /// their spawn points, the other participants and the dynamic objects. With it a rock
    /// enters the world as `plan` says, with the body that the engine has made for it, and
    /// every participant is shown the rock. Everyone else is told of the newcomer.
    pub fn connect(
        &mut self,
        player_id: u128,
        body_handle: RigidBodyHandle,
        collider_handle: ColliderHandle,
        plan: RockPlan,
        rock_body: RigidBodyHandle,
        rock_collider: ColliderHandle,
        now: u64,
    ) -> (g: Greeting)
        ensures
            connect_outcome(
                old(self)@,
                final(self)@,
                g,
                old(self).level.objects@,
                player_id,
                body_handle,
                collider_handle,
                plan,
                rock_body,
                rock_collider,
                now,
            ),
            final(self).level.objects@ == old(self).level.objects@,
            old(self).wf() ==> final(self).wf(),
    {
        let spawn = LocalVector { x: 0, y: DEFAULT_SPAWN_HEIGHT, z: 0 };
        let anchor = WorldVector::zeros();
        let welcome = Outbound {
            to: Recipients::One(player_id),
            message: ServerMessage::Welcome {
                player_id: id_text(player_id),
                spawn_position: Position::from_vector(&spawn),
            },
        };
        self.players.add_player(player_id, spawn, now);
        self.players.set_handles(player_id, Some(body_handle), Some(collider_handle));
        proof {
            assert(self.players@ =~= old(self)@.players.insert(
                player_id,
                Player {
                    body_handle: Some(body_handle),
                    collider_handle: Some(collider_handle),
                    ..Player::joined(player_id, spawn, now)
                },
            ));
        }
        let level = Outbound {
            to: Recipients::One(player_id),
            message: ServerMessage::LevelData { objects: copy_objects(&self.level.objects) },
        };
        let vehicles = self.vehicle_frames_for(player_id, &anchor);
        let weapons = self.weapon_frames_for(player_id);
        let listed = self.players.get_all_players_except(player_id);
        proof {
            let keys = choose|keys: Seq<u128>|
                lists_keys(keys, self.players@.dom().remove(player_id)) && keys.len() == listed@.len()
                    && forall|i: int|
                    0 <= i < listed@.len() ==> is_info_of(
                        #[trigger] listed@[i],
                        self.players@[keys[i]],
                        anchor_of(self.players@, player_id),
                    );
            assert(lists_players_of(listed@, keys, player_id, self.players@));
        }
        let players = Outbound {
            to: Recipients::One(player_id),
            message: ServerMessage::PlayersList { players: listed },
        };
        let objects = self.objects_frame_for(player_id, &anchor);
        let rock_id = self.dynamic_objects.spawn_rock_with_physics(
            plan.position,
            rock_body,
            rock_collider,
            plan.scale,
            now,
        );
        proof {
            assert(names_a_rock(rock_id@));
            assert(self@.objects.contains_key(rock_id@));
        }
        let rock = self.object_frames(rock_id.as_str());
        let joined = self.players.broadcast_except(
            player_id,
            ServerMessage::PlayerJoined {
                player_id: id_text(player_id),
                position: Position::from_vector(&spawn),
            },
        );
        proof {
            let keys = choose|keys: Seq<u128>|
                lists_keys(keys, self.players@.dom().remove(player_id)) && keys.len() == joined@.len()
                    && forall|i: int|
                    0 <= i < joined@.len() ==> addressed(
                        #[trigger] joined@[i],
                        self.players@[keys[i]],
                        keys[i],
                        sender_world(self.players@, player_id, Position { x: spawn.x, y: spawn.y, z: spawn.z }),
                    ) && (exists|text: String|
                        text@ == uuid_text(player_id) && same_but_position(
                            joined@[i].message,
                            ServerMessage::PlayerJoined {
                                player_id: text,
                                position: Position { x: spawn.x, y: spawn.y, z: spawn.z },
                            },
                        ));
            assert(tells_of_join_to(
                joined@,
                keys,
                player_id,
                self.players@,
                world_of(anchor, spawn),
            ));
        }
        Greeting { welcome, level, vehicles, weapons, players, objects, rock, joined, rock_id }
    }
}

} // verus!
