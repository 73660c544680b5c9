//! The frames exchanged with clients, as values.
//!
//! Every quantity that a client reads as a decimal number is held here as a whole number of
//! thousandths: millimetres for lengths, thousandths of a point for health and damage.

use crate::origin::{LocalVector, Quaternion};
use serde_json::Value;
use vstd::prelude::*;

verus! {

/// The JSON value of the `serde_json` crate. Nothing inside it is visible to proofs: what is
/// read of it is read through the functions of the level module.
#[verifier::external_type_specification]
#[verifier::external_body]
pub struct ExValue(Value);

/// `Clone::clone` of `serde_json::Value`: the copy is the value copied.
pub assume_specification[ <Value as Clone>::clone ](v: &Value) -> (r: Value)
    ensures
        r == *v,
;

/// A position in the local frame of whoever sends or receives it, in millimetres.
#[derive(Clone, Copy, Debug, PartialEq, Eq, Structural)]
pub struct Position {
    pub x: i32,
    pub y: i32,
    pub z: i32,
}

/// A rotation as a quaternion whose components are thousandths.
#[derive(Clone, Copy, Debug, PartialEq, Eq, Structural)]
pub struct Rotation {
    pub x: i32,
    pub y: i32,
    pub z: i32,
    pub w: i32,
}

/// A velocity, force or direction, in thousandths of its unit.
#[derive(Clone, Copy, Debug, PartialEq, Eq, Structural)]
pub struct Velocity {
    pub x: i32,
    pub y: i32,
    pub z: i32,
}

/// What a client sends. Lengths are millimetres in the sender's local frame; other
/// quantities are thousandths of their unit.
#[derive(Clone, Debug)]
pub enum ClientMessage {
    PlayerUpdate {
        position: Position,
        rotation: Rotation,
        velocity: Velocity,
        is_grounded: bool,
        is_swimming: bool,
    },
    PlayerAction {
        action: String,
        data: Value,
    },
    DynamicObjectUpdate {
        object_id: String,
        position: Position,
        rotation: Rotation,
        velocity: Velocity,
    },
    PushObject {
        object_id: String,
        force: Velocity,
        point: Position,
    },
    PickupWeapon {
        weapon_id: String,
    },
    DropWeapon {
        weapon_type: String,
        position: Position,
    },
    FireWeapon {
        weapon_type: String,
        origin: Position,
        direction: Velocity,
        hit_point: Option<Position>,
        hit_player_id: Option<String>,
        hit_object_id: Option<String>,
    },
    ReloadWeapon,
    SwitchWeapon {
        slot: u8,
    },
    PickupItem {
        item_id: String,
    },
    RequestRespawn,
    VehicleUpdate {
        vehicle_id: String,
        position: Position,
        rotation: Rotation,
        velocity: Velocity,
        angular_velocity: Velocity,
        controls: VehicleControls,
    },
    FireVehicleWeapon {
        vehicle_id: String,
        weapon_index: u8,
        target_position: Option<Position>,
        target_id: Option<String>,
    },
    DeployCountermeasure {
        vehicle_id: String,
    },
    LockOnTarget {
        vehicle_id: String,
        target_id: Option<String>,
    },
    EnterVehicle {
        vehicle_id: String,
    },
    ExitVehicle {
        exit_position: Option<Position>,
    },
    GrabObject {
        object_id: String,
        grab_point: Position,
    },
    MoveGrabbedObject {
        object_id: String,
        target_position: Position,
    },
    ThrowObject {
        object_id: String,
        throw_force: Velocity,
        release_point: Position,
    },
    ReleaseObject {
        object_id: String,
    },
}

/// What the server sends. Positions are millimetres in the receiver's local frame; health,
/// damage, scale and the like are thousandths of their unit.
#[derive(Clone, Debug)]
pub enum ServerMessage {
    Welcome {
        player_id: String,
        spawn_position: Position,
    },
    PlayerId {
        id: String,
    },
    PlayerJoined {
        player_id: String,
        position: Position,
    },
    PlayerLeft {
        player_id: String,
    },
    PlayerState {
        player_id: String,
        position: Position,
        rotation: Rotation,
        velocity: Velocity,
        is_grounded: bool,
        is_swimming: bool,
    },
    PlayersList {
        players: Vec<PlayerInfo>,
    },
    OriginUpdate {
        origin: Position,
    },
    DynamicObjectSpawn {
        object_id: String,
        object_type: String,
        position: Position,
        rotation: Rotation,
        scale: i32,
    },
    DynamicObjectUpdate {
        object_id: String,
        position: Position,
        rotation: Rotation,
        velocity: Velocity,
    },
    DynamicObjectRemove {
        object_id: String,
    },
    DynamicObjectsList {
        objects: Vec<DynamicObjectInfo>,
    },
    LevelData {
        objects: Vec<LevelObject>,
    },
    ObjectOwnershipGranted {
        object_id: String,
        player_id: String,
        duration_ms: u64,
    },
    ObjectOwnershipRevoked {
        object_id: String,
    },
    PlatformUpdate {
        platform_id: String,
        position: Position,
    },
    WeaponSpawn {
        weapon_id: String,
        weapon_type: String,
        position: Position,
    },
    WeaponPickup {
        player_id: String,
        weapon_id: String,
        weapon_type: String,
    },
    WeaponDrop {
        player_id: String,
        weapon_id: String,
        position: Position,
    },
    WeaponFire {
        player_id: String,
        weapon_type: String,
        origin: Position,
        direction: Velocity,
        projectile_id: Option<String>,
    },
    ProjectileSpawned {
        projectile_id: String,
        projectile_type: String,
        position: Position,
        velocity: Velocity,
        rotation: Rotation,
        owner_id: String,
    },
    ProjectileUpdate {
        projectile_id: String,
        position: Position,
        velocity: Velocity,
        rotation: Rotation,
    },
    ProjectileImpact {
        projectile_id: String,
        position: Position,
        explosion_radius: Option<u32>,
        damage: u32,
    },
    CountermeasureDeployed {
        vehicle_id: String,
        countermeasure_type: String,
        position: Position,
        velocity: Velocity,
    },
    VehicleUpdate {
        vehicle_id: String,
        position: Position,
        rotation: Rotation,
        velocity: Velocity,
        angular_velocity: Velocity,
        health: u32,
        pilot_id: Option<String>,
    },
    VehicleDamaged {
        vehicle_id: String,
        damage: u32,
        health: u32,
        attacker_id: Option<String>,
    },
    PlayerHealthUpdate {
        player_id: String,
        health: u32,
        max_health: u32,
        armor: u32,
    },
    PlayerHealth {
        player_id: String,
        health: u32,
        armor: u32,
    },
    PlayerDamaged {
        player_id: String,
        damage: u32,
        damage_type: Option<String>,
        attacker_id: Option<String>,
        health: u32,
        armor: u32,
    },
    PlayerKilled {
        player_id: String,
        killer_id: Option<String>,
        weapon_type: Option<String>,
    },
    PlayerRespawned {
        player_id: String,
        position: Position,
        health: u32,
    },
    ExplosionCreated {
        position: Position,
        explosion_type: String,
        radius: u32,
        damage: u32,
    },
    LockOnUpdate {
        player_id: String,
        lock_data: LockOnData,
    },
    CountermeasureDeploy {
        player_id: String,
        vehicle_id: String,
        countermeasure_type: String,
        position: Position,
        velocity: Velocity,
    },
    PlayerEnteredVehicle {
        player_id: String,
        vehicle_id: String,
    },
    PlayerExitedVehicle {
        player_id: String,
        vehicle_id: String,
        exit_position: Position,
    },
    VehiclePlayerState {
        player_id: String,
        vehicle_id: String,
        relative_position: Position,
        relative_rotation: Rotation,
        aim_rotation: Rotation,
        is_grounded: bool,
    },
    ObjectGrabbed {
        object_id: String,
        player_id: String,
        grab_offset: Position,
    },
    ObjectMoved {
        object_id: String,
        position: Position,
        rotation: Rotation,
    },
    ObjectThrown {
        object_id: String,
        player_id: String,
        position: Position,
        velocity: Velocity,
        angular_velocity: Velocity,
    },
    ObjectReleased {
        object_id: String,
        player_id: String,
        position: Position,
        velocity: Option<Velocity>,
    },
    GrabFailed {
        object_id: String,
        reason: String,
    },
    ItemSpawned {
        item_id: String,
        item_type: String,
        position: Position,
        properties: Option<Value>,
    },
    ItemPickedUp {
        item_id: String,
        player_id: String,
    },
    ItemRespawned {
        item_id: String,
    },
    VehicleSpawned {
        vehicle_id: String,
        vehicle_type: String,
        position: Position,
        rotation: Rotation,
    },
    VehicleDestroyed {
        vehicle_id: String,
        destroyer_id: Option<String>,
    },
}

/// One participant as listed to a newcomer.
#[derive(Clone, Debug)]
pub struct PlayerInfo {
    pub id: String,
    pub position: Position,
    pub rotation: Option<Rotation>,
    pub velocity: Option<Velocity>,
    pub is_grounded: Option<bool>,
    pub is_swimming: Option<bool>,
}

/// One dynamic object as listed to a newcomer.
#[derive(Clone, Debug)]
pub struct DynamicObjectInfo {
    pub id: String,
    pub object_type: String,
    pub position: Position,
    pub rotation: Rotation,
    pub scale: i32,
}

/// One object of the static level.
#[derive(Clone, Debug)]
pub struct LevelObject {
    pub id: Option<String>,
    pub object_type: String,
    pub position: Position,
    pub rotation: Option<Rotation>,
    pub scale: Option<Vec3>,
    pub physics: Option<String>,
    pub properties: Option<Value>,
    pub terrain_data: Option<TerrainData>,
}

/// A terrain mesh: flattened vertex coordinates and triangle indices.
#[derive(Clone, Debug)]
pub struct TerrainData {
    pub vertices: Vec<i32>,
    pub indices: Vec<u32>,
}

/// A size or extent along the three axes, in millimetres.
#[derive(Clone, Copy, Debug, PartialEq, Eq, Structural)]
pub struct Vec3 {
    pub x: i32,
    pub y: i32,
    pub z: i32,
}

/// The state of a target lock.
#[derive(Clone, Debug)]
pub struct LockOnData {
    pub has_target: bool,
    pub target_id: Option<String>,
    pub is_locked: bool,
    pub lock_progress: i32,
}

/// The control inputs of a vehicle, in thousandths.
#[derive(Clone, Copy, Debug, PartialEq, Eq, Structural)]
pub struct VehicleControls {
    pub throttle: i32,
    pub pitch: i32,
    pub yaw: i32,
    pub roll: i32,
    pub brake: bool,
    pub boost: bool,
}

/// The sessions that a frame goes to.
#[derive(Clone, Copy, Debug, PartialEq, Eq, Structural)]
pub enum Recipients {
    /// The session of one participant.
    One(u128),
    /// Every connected session.
    All,
    /// Every connected session but that of one participant.
    AllExcept(u128),
}

/// A frame together with the sessions it is queued for.
#[derive(Clone, Debug)]
pub struct Outbound {
    pub to: Recipients,
    pub message: ServerMessage,
}

impl Recipients {
    /// Whether the session of participant `id` is among the recipients.
    pub open spec fn includes(self, id: u128) -> bool {
        match self {
            Recipients::One(p) => p == id,
            Recipients::All => true,
            Recipients::AllExcept(p) => p != id,
        }
    }

    /// Whether the session of participant `id` is among the recipients.
    pub fn reaches(&self, id: u128) -> (r: bool)
        ensures
            r == self.includes(id),
    {
        match self {
            Recipients::One(p) => *p == id,
            Recipients::All => true,
            Recipients::AllExcept(p) => *p != id,
        }
    }
}

impl Position {
    /// The position with the coordinates of `v`.
    pub fn from_vector(v: &LocalVector) -> (r: Position)
        ensures
            r == (Position { x: v.x, y: v.y, z: v.z }),
    {
        Position { x: v.x, y: v.y, z: v.z }
    }

    /// The vector with the coordinates of this position.
    pub fn to_vector(&self) -> (r: LocalVector)
        ensures
            r == (LocalVector { x: self.x, y: self.y, z: self.z }),
    {
        LocalVector { x: self.x, y: self.y, z: self.z }
    }
}

impl Velocity {
    /// The velocity with the components of `v`.
    pub fn from_vector(v: &LocalVector) -> (r: Velocity)
        ensures
            r == (Velocity { x: v.x, y: v.y, z: v.z }),
    {
        Velocity { x: v.x, y: v.y, z: v.z }
    }

    /// The vector with the components of this velocity.
    pub fn to_vector(&self) -> (r: LocalVector)
        ensures
            r == (LocalVector { x: self.x, y: self.y, z: self.z }),
    {
        LocalVector { x: self.x, y: self.y, z: self.z }
    }
}

impl Rotation {
    /// The rotation with the components of `q`.
    pub fn from_quaternion(q: &Quaternion) -> (r: Rotation)
        ensures
            r == (Rotation { x: q.i, y: q.j, z: q.k, w: q.w }),
    {
        Rotation { x: q.i, y: q.j, z: q.k, w: q.w }
    }

    /// The quaternion with the components of this rotation.
    pub fn to_quaternion(&self) -> (r: Quaternion)
        ensures
            r == (Quaternion { i: self.x, j: self.y, k: self.z, w: self.w }),
    {
        Quaternion { i: self.x, j: self.y, k: self.z, w: self.w }
    }
}

/// `copy` says of a level object all that `model` says.
pub open spec fn mirrors(copy: LevelObject, model: LevelObject) -> bool {
    &&& copy.id == model.id
    &&& copy.object_type == model.object_type
    &&& copy.position == model.position
    &&& copy.rotation == model.rotation
    &&& copy.scale == model.scale
    &&& copy.physics == model.physics
    &&& copy.properties == model.properties
    &&& copy.terrain_data is Some <==> model.terrain_data is Some
    &&& copy.terrain_data is Some ==> copy.terrain_data->0.vertices@
        == model.terrain_data->0.vertices@ && copy.terrain_data->0.indices@
        == model.terrain_data->0.indices@
}

/// `copies` says of each level object all that `models` says of it, in the same order.
pub open spec fn mirror_all(copies: Seq<LevelObject>, models: Seq<LevelObject>) -> bool {
    &&& copies.len() == models.len()
    &&& forall|i: int| 0 <= i < copies.len() ==> mirrors(#[trigger] copies[i], models[i])
}

fn copy_text(text: &Option<String>) -> (r: Option<String>)
    ensures
        r == *text,
{
    match text {
        Some(s) => Some(s.clone()),
        None => None,
    }
}

impl TerrainData {
    /// A copy of the mesh.
    pub fn duplicate(&self) -> (r: TerrainData)
        ensures
            r.vertices@ == self.vertices@,
            r.indices@ == self.indices@,
    {
        let mut vertices: Vec<i32> = Vec::new();
        let mut i: usize = 0;
        while i < self.vertices.len()
            invariant
                0 <= i <= self.vertices@.len(),
                vertices@ == self.vertices@.take(i as int),
            decreases self.vertices@.len() - i,
        {
            vertices.push(self.vertices[i]);
            proof {
                assert(vertices@ =~= self.vertices@.take(i as int + 1));
            }
            i += 1;
        }
        let mut indices: Vec<u32> = Vec::new();
        let mut j: usize = 0;
        while j < self.indices.len()
            invariant
                0 <= j <= self.indices@.len(),
                indices@ == self.indices@.take(j as int),
                vertices@ == self.vertices@.take(self.vertices@.len() as int),
            decreases self.indices@.len() - j,
        {
            indices.push(self.indices[j]);
            proof {
                assert(indices@ =~= self.indices@.take(j as int + 1));
            }
            j += 1;
        }
        proof {
            assert(self.vertices@.take(self.vertices@.len() as int) =~= self.vertices@);
            assert(self.indices@.take(self.indices@.len() as int) =~= self.indices@);
        }
        TerrainData { vertices, indices }
    }
}

impl LevelObject {
    /// A copy of the object.
    pub fn duplicate(&self) -> (r: LevelObject)
        ensures
            mirrors(r, *self),
    {
        LevelObject {
            id: copy_text(&self.id),
            object_type: self.object_type.clone(),
            position: self.position,
            rotation: self.rotation,
            scale: self.scale,
            physics: copy_text(&self.physics),
            properties: match &self.properties {
                Some(v) => Some(v.clone()),
                None => None,
            },
            terrain_data: match &self.terrain_data {
                Some(t) => Some(t.duplicate()),
                None => None,
            },
        }
    }
}

/// A copy of each of `objects`, in the same order.
pub fn copy_objects(objects: &Vec<LevelObject>) -> (r: Vec<LevelObject>)
    ensures
        mirror_all(r@, objects@),
{
    let mut r: Vec<LevelObject> = Vec::new();
    let mut i: usize = 0;
    while i < objects.len()
        invariant
            0 <= i <= objects@.len(),
            r@.len() == i,
            forall|j: int| 0 <= j < i ==> mirrors(#[trigger] r@[j], objects@[j]),
        decreases objects@.len() - i,
    {
        r.push(objects[i].duplicate());
        i += 1;
    }
    r
}

/// The frames that go to everyone, one for each of `messages`, in order.
pub open spec fn to_everyone(messages: Seq<ServerMessage>) -> Seq<Outbound> {
    messages.map_values(|m: ServerMessage| Outbound { to: Recipients::All, message: m })
}

/// The frames that go to everyone, one for each of `messages`, in order.
pub fn to_all(messages: Vec<ServerMessage>) -> (frames: Vec<Outbound>)
    ensures
        frames@ == to_everyone(messages@),
{
    let ghost all = messages@;
    let mut rest = messages;
    let mut stack: Vec<ServerMessage> = Vec::new();
    while rest.len() > 0
        invariant
            stack@.len() + rest@.len() == all.len(),
            forall|k: int| 0 <= k < rest@.len() ==> rest@[k] == all[k],
            forall|k: int| 0 <= k < stack@.len() ==> #[trigger] stack@[k] == all[all.len() - 1 - k],
        decreases rest@.len(),
    {
        match rest.pop() {
            Some(m) => {
                stack.push(m);
            },
            None => {},
        }
    }
    let mut frames: Vec<Outbound> = Vec::new();
    while stack.len() > 0
        invariant
            frames@.len() + stack@.len() == all.len(),
            forall|k: int| 0 <= k < stack@.len() ==> #[trigger] stack@[k] == all[all.len() - 1 - k],
            forall|k: int|
                0 <= k < frames@.len() ==> #[trigger] frames@[k] == (Outbound {
                    to: Recipients::All,
                    message: all[k],
                }),
        decreases stack@.len(),
    {
        match stack.pop() {
            Some(m) => {
                frames.push(Outbound { to: Recipients::All, message: m });
            },
            None => {},
        }
    }
    proof {
        assert(frames@ =~= to_everyone(all));
    }
    frames
}

} // verus!
