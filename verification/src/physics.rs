//! The server's side of the physics bridge: handles, water volumes, the force policy, and
//! the commands that the tick phase hands to the engine.

use crate::messages::Vec3;
use crate::origin::{LocalVector, Quaternion, WorldVector};
use vstd::prelude::*;

verus! {

/// The handle of a rigid body in the physics engine, by its index and generation.
#[derive(Clone, Copy, Debug, PartialEq, Eq, Structural)]
pub struct RigidBodyHandle {
    pub index: u32,
    pub generation: u32,
}

/// The handle of a collider in the physics engine, by its index and generation.
#[derive(Clone, Copy, Debug, PartialEq, Eq, Structural)]
pub struct ColliderHandle {
    pub index: u32,
    pub generation: u32,
}

/// What the physics engine reports of a body after a step, in thousandths.
#[derive(Clone, Copy, Debug, PartialEq, Eq, Structural)]
pub struct BodyState {
    pub position: LocalVector,
    pub rotation: Quaternion,
    pub velocity: LocalVector,
}

/// An axis-aligned box of water: where its sensor sits, its centre and its full extent.
#[derive(Clone, Copy, Debug, PartialEq, Eq, Structural)]
pub struct WaterVolume {
    pub collider: ColliderHandle,
    pub center: LocalVector,
    pub size: Vec3,
}

/// Whether `pos` lies between `center - size / 2` and `center + size / 2`, ends included.
pub open spec fn within_extent(pos: int, center: int, size: int) -> bool {
    -size <= 2 * (pos - center) <= size
}

/// Whether `pos` lies inside `volume`, its faces included.
pub open spec fn in_volume(volume: WaterVolume, pos: LocalVector) -> bool {
    &&& within_extent(pos.x as int, volume.center.x as int, volume.size.x as int)
    &&& within_extent(pos.y as int, volume.center.y as int, volume.size.y as int)
    &&& within_extent(pos.z as int, volume.center.z as int, volume.size.z as int)
}

/// Whether `pos` lies inside one of `volumes`.
pub open spec fn in_water(volumes: Seq<WaterVolume>, pos: LocalVector) -> bool {
    exists|i: int| 0 <= i < volumes.len() && in_volume(#[trigger] volumes[i], pos)
}

fn inside_extent(pos: i32, center: i32, size: i32) -> (r: bool)
    ensures
        r == within_extent(pos as int, center as int, size as int),
{
    let d: i64 = 2 * (pos as i64 - center as i64);
    -(size as i64) <= d && d <= size as i64
}

impl WaterVolume {
    /// Whether `pos` lies inside the volume, its faces included.
    pub fn contains(&self, pos: &LocalVector) -> (r: bool)
        ensures
            r == in_volume(*self, *pos),
    {
        inside_extent(pos.x, self.center.x, self.size.x) && inside_extent(
            pos.y,
            self.center.y,
            self.size.y,
        ) && inside_extent(pos.z, self.center.z, self.size.z)
    }
}

/// The height of the planet's centre, in millimetres.
pub const PLANET_CENTER_Y: i32 = -250_000;

/// How strongly the planet pulls, in thousandths of a metre per second squared.
pub const GRAVITY_STRENGTH: i32 = 25_000;

/// The pull that a body in water is given along the direction to the planet's centre, in
/// thousandths of a metre per second squared: three tenths of gravity, away from the centre.
pub const BUOYANCY_PULL: i32 = -7_500;

/// The drag on a body in water, in thousandths of its velocity.
pub const WATER_DRAG: i32 = 3_000;

/// The damping of a body out of water, in thousandths of its velocity.
pub const AIR_DAMPING: i32 = 20;

/// The forces that a dynamic body is given before a step, for the engine to apply: a pull
/// of `radial_pull` times the body's mass along the unit direction from the body to the
/// planet's centre, and a drag of `drag` times the body's velocity against its motion. Both
/// are thousandths.
#[derive(Clone, Copy, Debug, PartialEq, Eq, Structural)]
pub struct ForcePolicy {
    pub radial_pull: i32,
    pub drag: i32,
}

/// The forces for a body by whether it is in water: buoyancy and water drag in water,
/// gravity and mild damping out of it.
pub open spec fn force_policy(submerged: bool) -> ForcePolicy {
    if submerged {
        ForcePolicy { radial_pull: BUOYANCY_PULL, drag: WATER_DRAG }
    } else {
        ForcePolicy { radial_pull: GRAVITY_STRENGTH, drag: AIR_DAMPING }
    }
}

/// The library's part of the physics world: what it has to know of the engine's bodies to
/// decide on forces and to report on water.
pub struct PhysicsWorld {
    /// The planet's centre, which attracts every dynamic body.
    pub gravity: LocalVector,
    pub water_volumes: Vec<WaterVolume>,
    pub dynamic_platforms: Vec<RigidBodyHandle>,
}

impl PhysicsWorld {
    /// A world without water, attracted to a planet centred 250 metres below the origin.
    pub fn new() -> (r: PhysicsWorld)
        ensures
            r.gravity == (LocalVector { x: 0, y: PLANET_CENTER_Y, z: 0 }),
            r.water_volumes@.len() == 0,
            r.dynamic_platforms@.len() == 0,
    {
        PhysicsWorld {
            gravity: LocalVector { x: 0, y: PLANET_CENTER_Y, z: 0 },
            water_volumes: Vec::new(),
            dynamic_platforms: Vec::new(),
        }
    }

    /// Whether `pos` lies inside one of the water volumes.
    pub fn is_position_in_water(&self, pos: &LocalVector) -> (r: bool)
        ensures
            r == in_water(self.water_volumes@, *pos),
    {
        let mut i: usize = 0;
        while i < self.water_volumes.len()
            invariant
                0 <= i <= self.water_volumes@.len(),
                forall|j: int| 0 <= j < i ==> !in_volume(#[trigger] self.water_volumes@[j], *pos),
            decreases self.water_volumes@.len() - i,
        {
            if self.water_volumes[i].contains(pos) {
                return true;
            }
            i += 1;
        }
        false
    }

    /// The forces that a dynamic body at `pos` is given before a step.
    pub fn forces_at(&self, pos: &LocalVector) -> (r: ForcePolicy)
        ensures
            r == force_policy(in_water(self.water_volumes@, *pos)),
            in_water(self.water_volumes@, *pos) ==> r.radial_pull < 0,
    {
        if self.is_position_in_water(pos) {
            ForcePolicy { radial_pull: BUOYANCY_PULL, drag: WATER_DRAG }
        } else {
            ForcePolicy { radial_pull: GRAVITY_STRENGTH, drag: AIR_DAMPING }
        }
    }
}

/// The product of a pull along the direction `to_center` with the direction away from the
/// centre: the sign of the pull's upward part.
pub open spec fn upward_part(pull: int, mass: int, to_center: LocalVector) -> int {
    (pull * mass * to_center.x) * (-to_center.x) + (pull * mass * to_center.y) * (-to_center.y)
        + (pull * mass * to_center.z) * (-to_center.z)
}

/// In water the force that is not drag points up: for a body of positive mass that is not at
/// the planet's centre, the pull it is given has a positive part along the direction away
/// from the centre.
pub proof fn lemma_buoyancy_points_up(mass: int, to_center: LocalVector)
    requires
        mass > 0,
        to_center != (LocalVector { x: 0, y: 0, z: 0 }),
    ensures
        upward_part(force_policy(true).radial_pull as int, mass, to_center) > 0,
{
    let x = to_center.x as int;
    let y = to_center.y as int;
    let z = to_center.z as int;
    let c = 7500 * mass;
    assert(x * x + y * y + z * z > 0) by (nonlinear_arith)
        requires
            x != 0 || y != 0 || z != 0,
    ;
    assert((-7500 * mass * x) * (-x) + (-7500 * mass * y) * (-y) + (-7500 * mass * z) * (-z) == c
        * (x * x + y * y + z * z)) by (nonlinear_arith)
        requires
            c == 7500 * mass,
    ;
    assert(c * (x * x + y * y + z * z) > 0) by (nonlinear_arith)
        requires
            c > 0,
            x * x + y * y + z * z > 0,
    ;
}

/// By how much a push is scaled, besides by the mass of the body, in thousandths.
pub const PUSH_SCALE: i32 = 50_000;

/// By how much the upward part of a push is scaled for the lift that comes with it, besides
/// by the mass of the body, in thousandths.
pub const LIFT_SCALE: i32 = 10_000;

/// What the tick phase asks of the physics engine. Lengths are millimetres, velocities
/// millimetres per second.
#[derive(Debug, Clone)]
pub enum PhysicsCommand {
    /// Put the body under kinematic, position-based control.
    SetBodyKinematic { body: RigidBodyHandle },
    /// Hand the body back to the simulation.
    SetBodyDynamic { body: RigidBodyHandle },
    /// Move a kinematic body to `target` over the next step.
    SetNextKinematicTranslation { body: RigidBodyHandle, target: LocalVector },
    /// Place the body at `position`, at rest.
    Teleport { body: RigidBodyHandle, position: LocalVector },
    /// Set the body's position, rotation and linear velocity.
    SetState { body: RigidBodyHandle, state: BodyState },
    /// Set the body's linear velocity.
    SetLinearVelocity { body: RigidBodyHandle, velocity: LocalVector },
    /// Set the body's angular velocity, in thousandths of a radian per second.
    SetAngularVelocity { body: RigidBodyHandle, velocity: LocalVector },
    /// Wake the body and push it: `force`, scaled by the body's mass and by `PUSH_SCALE`,
    /// applied at `point` in the body's own frame; with `lift`, an upward impulse besides, of
    /// the upward part of `force` scaled by the body's mass and by `LIFT_SCALE`.
    Push { body: RigidBodyHandle, force: LocalVector, point: LocalVector, lift: bool },
    /// Remove the body and what is attached to it.
    RemoveBody { body: RigidBodyHandle },
    /// Make a body for the vehicle under `vehicle_id`, of the shape and damping of its type,
    /// at rest at `position`.
    CreateVehicleBody { vehicle_id: String, vehicle_type: String, position: WorldVector },
}

/// What the engine reports of one body after a step.
#[derive(Clone, Copy, Debug, PartialEq, Eq, Structural)]
pub struct BodyReading {
    pub body: RigidBodyHandle,
    pub state: BodyState,
    /// In thousandths of a radian per second.
    pub angular_velocity: LocalVector,
}

/// Whether the first `n` readings hold none of `body`.
pub open spec fn unread(readings: Seq<BodyReading>, body: RigidBodyHandle, n: int) -> bool {
    forall|j: int| 0 <= j < n && j < readings.len() ==> (#[trigger] readings[j]).body != body
}

/// The first reading of `body` among `readings`, if there is one.
pub open spec fn reading_of(readings: Seq<BodyReading>, body: RigidBodyHandle) -> Option<
    BodyReading,
> {
    if exists|i: int| 0 <= i < readings.len() && readings[i].body == body && unread(readings, body, i) {
        Some(
            readings[choose|i: int|
                0 <= i < readings.len() && readings[i].body == body && unread(readings, body, i)],
        )
    } else {
        None
    }
}

/// The first reading of `body` among `readings`, if there is one.
pub fn find_reading(readings: &Vec<BodyReading>, body: RigidBodyHandle) -> (r: Option<BodyReading>)
    ensures
        r == reading_of(readings@, body),
{
    let mut i: usize = 0;
    while i < readings.len()
        invariant
            0 <= i <= readings@.len(),
            unread(readings@, body, i as int),
        decreases readings@.len() - i,
    {
        if readings[i].body == body {
            proof {
                let c = choose|c: int|
                    0 <= c < readings@.len() && readings@[c].body == body && unread(
                        readings@,
                        body,
                        c,
                    );
                assert(0 <= i < readings@.len() && readings@[i as int].body == body && unread(
                    readings@,
                    body,
                    i as int,
                ));
                if c < i {
                    assert(readings@[c].body != body);
                } else if i < c {
                    assert(readings@[i as int].body != body);
                }
            }
            return Some(readings[i]);
        }
        i += 1;
    }
    proof {
        if exists|c: int|
            0 <= c < readings@.len() && readings@[c].body == body && unread(readings@, body, c) {
            let c = choose|c: int|
                0 <= c < readings@.len() && readings@[c].body == body && unread(readings@, body, c);
            assert(readings@[c].body != body);
        }
    }
    None
}

} // verus!
