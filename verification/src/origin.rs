//! Floating origin: a 64-bit world frame and the 32-bit local frames of its observers.
//!
//! Every length is a whole number of millimetres. An entity carries an anchor in the world
//! frame and a local offset from it; its world position is their sum, held to the range of
//! the world frame. What an observer is sent is a world position taken relative to the
//! observer's own anchor, held to the range of a local frame.

use vstd::prelude::*;

verus! {

/// Squared length, in square millimetres, beyond which a local offset is absorbed by its anchor:
/// the square of one thousand metres.
pub const RECENTER_THRESHOLD_SQ: u128 = 1_000_000_000_000;

/// A point or displacement in the world frame, in millimetres.
#[derive(Clone, Copy, Debug, PartialEq, Eq, Structural)]
pub struct WorldVector {
    pub x: i64,
    pub y: i64,
    pub z: i64,
}

/// A point or displacement in a local frame, in millimetres (or thousandths of another unit).
#[derive(Clone, Copy, Debug, PartialEq, Eq, Structural)]
pub struct LocalVector {
    pub x: i32,
    pub y: i32,
    pub z: i32,
}

/// A rotation as a quaternion whose components are thousandths.
#[derive(Clone, Copy, Debug, PartialEq, Eq, Structural)]
pub struct Quaternion {
    pub i: i32,
    pub j: i32,
    pub k: i32,
    pub w: i32,
}

/// `v` held to the range of a world coordinate.
pub open spec fn clamp_world(v: int) -> int {
    if v < i64::MIN {
        i64::MIN as int
    } else if v > i64::MAX {
        i64::MAX as int
    } else {
        v
    }
}

/// `v` held to the range of a local coordinate.
pub open spec fn clamp_local(v: int) -> int {
    if v < i32::MIN {
        i32::MIN as int
    } else if v > i32::MAX {
        i32::MAX as int
    } else {
        v
    }
}

/// The world coordinate of an anchor coordinate and a local offset.
pub open spec fn world_coord(anchor: int, local: int) -> int {
    clamp_world(anchor + local)
}

/// The local coordinate under which an observer anchored at `anchor` sees `world`.
pub open spec fn local_coord(world: int, anchor: int) -> int {
    clamp_local(world - anchor)
}

/// The world position of an anchor and a local offset.
pub open spec fn world_of(anchor: WorldVector, local: LocalVector) -> WorldVector {
    WorldVector {
        x: world_coord(anchor.x as int, local.x as int) as i64,
        y: world_coord(anchor.y as int, local.y as int) as i64,
        z: world_coord(anchor.z as int, local.z as int) as i64,
    }
}

/// The local position under which an observer anchored at `anchor` sees `world`.
pub open spec fn local_of(world: WorldVector, anchor: WorldVector) -> LocalVector {
    LocalVector {
        x: local_coord(world.x as int, anchor.x as int) as i32,
        y: local_coord(world.y as int, anchor.y as int) as i32,
        z: local_coord(world.z as int, anchor.z as int) as i32,
    }
}

/// The squared length of a local offset.
pub open spec fn length_sq(v: LocalVector) -> int {
    v.x * v.x + v.y * v.y + v.z * v.z
}

/// Whether a local offset has left the range within which it is kept: its length exceeds
/// one thousand metres.
pub open spec fn needs_recenter(local: LocalVector) -> bool {
    length_sq(local) > RECENTER_THRESHOLD_SQ as int
}

/// The anchor of an entity after recentering has been considered.
pub open spec fn recentered_anchor(anchor: WorldVector, local: LocalVector) -> WorldVector {
    if needs_recenter(local) {
        world_of(anchor, local)
    } else {
        anchor
    }
}

/// The local offset of an entity after recentering has been considered.
pub open spec fn recentered_local(local: LocalVector) -> LocalVector {
    if needs_recenter(local) {
        LocalVector { x: 0, y: 0, z: 0 }
    } else {
        local
    }
}

impl WorldVector {
    pub fn new(x: i64, y: i64, z: i64) -> (r: WorldVector)
        ensures
            r == (WorldVector { x, y, z }),
    {
        WorldVector { x, y, z }
    }

    pub fn zeros() -> (r: WorldVector)
        ensures
            r == (WorldVector { x: 0, y: 0, z: 0 }),
    {
        WorldVector { x: 0, y: 0, z: 0 }
    }
}

impl LocalVector {
    pub fn new(x: i32, y: i32, z: i32) -> (r: LocalVector)
        ensures
            r == (LocalVector { x, y, z }),
    {
        LocalVector { x, y, z }
    }

    pub fn zeros() -> (r: LocalVector)
        ensures
            r == (LocalVector { x: 0, y: 0, z: 0 }),
    {
        LocalVector { x: 0, y: 0, z: 0 }
    }

    /// The difference of two local vectors, each component held to the local range.
    pub fn saturating_sub(&self, other: &LocalVector) -> (r: LocalVector)
        ensures
            r.x == clamp_local(self.x - other.x),
            r.y == clamp_local(self.y - other.y),
            r.z == clamp_local(self.z - other.z),
    {
        LocalVector {
            x: sub_local(self.x, other.x),
            y: sub_local(self.y, other.y),
            z: sub_local(self.z, other.z),
        }
    }
}

impl Quaternion {
    /// The rotation that turns nothing.
    pub fn identity() -> (r: Quaternion)
        ensures
            r == (Quaternion { i: 0, j: 0, k: 0, w: 1000 }),
    {
        Quaternion { i: 0, j: 0, k: 0, w: 1000 }
    }
}

fn sub_local(a: i32, b: i32) -> (r: i32)
    ensures
        r == clamp_local(a - b),
{
    let d: i64 = a as i64 - b as i64;
    if d < i32::MIN as i64 {
        i32::MIN
    } else if d > i32::MAX as i64 {
        i32::MAX
    } else {
        d as i32
    }
}

fn add_world(anchor: i64, local: i32) -> (r: i64)
    ensures
        r == world_coord(anchor as int, local as int),
{
    let s: i128 = anchor as i128 + local as i128;
    if s < i64::MIN as i128 {
        i64::MIN
    } else if s > i64::MAX as i128 {
        i64::MAX
    } else {
        s as i64
    }
}

fn sub_world(world: i64, anchor: i64) -> (r: i32)
    ensures
        r == local_coord(world as int, anchor as int),
{
    let d: i128 = world as i128 - anchor as i128;
    if d < i32::MIN as i128 {
        i32::MIN
    } else if d > i32::MAX as i128 {
        i32::MAX
    } else {
        d as i32
    }
}

/// The world position of an entity anchored at `anchor` with local offset `local`.
pub fn world_position(anchor: &WorldVector, local: &LocalVector) -> (r: WorldVector)
    ensures
        r == world_of(*anchor, *local),
{
    WorldVector {
        x: add_world(anchor.x, local.x),
        y: add_world(anchor.y, local.y),
        z: add_world(anchor.z, local.z),
    }
}

/// The position of `world_pos` in the local frame of an observer anchored at `receiver_origin`.
pub fn to_local(world_pos: &WorldVector, receiver_origin: &WorldVector) -> (r: LocalVector)
    ensures
        r == local_of(*world_pos, *receiver_origin),
{
    LocalVector {
        x: sub_world(world_pos.x, receiver_origin.x),
        y: sub_world(world_pos.y, receiver_origin.y),
        z: sub_world(world_pos.z, receiver_origin.z),
    }
}

/// What an observer anchored at `receiver_origin` is sent for an entity anchored at
/// `sender_origin` with local offset `sender_local`.
pub fn translate(
    sender_origin: &WorldVector,
    sender_local: &LocalVector,
    receiver_origin: &WorldVector,
) -> (r: LocalVector)
    ensures
        r == local_of(world_of(*sender_origin, *sender_local), *receiver_origin),
{
    let world = world_position(sender_origin, sender_local);
    to_local(&world, receiver_origin)
}

/// Whether the length of `local` exceeds one thousand metres.
pub fn exceeds_recenter_threshold(local: &LocalVector) -> (r: bool)
    ensures
        r == needs_recenter(*local),
{
    let x: i128 = local.x as i128;
    let y: i128 = local.y as i128;
    let z: i128 = local.z as i128;
    assert(x * x <= 0x4000_0000_0000_0000 && y * y <= 0x4000_0000_0000_0000 && z * z
        <= 0x4000_0000_0000_0000 && x * x >= 0 && y * y >= 0 && z * z >= 0) by (nonlinear_arith)
        requires
            -0x8000_0000 <= x <= 0x7fff_ffff,
            -0x8000_0000 <= y <= 0x7fff_ffff,
            -0x8000_0000 <= z <= 0x7fff_ffff,
    ;
    let sq: i128 = x * x + y * y + z * z;
    sq > 1_000_000_000_000
}

/// Absorbs the local offset into the anchor when its length exceeds one thousand metres, and
/// says whether the anchor moved.
pub fn recenter_if_needed(anchor: &mut WorldVector, local: &mut LocalVector) -> (moved: bool)
    ensures
        moved == needs_recenter(*old(local)),
        *final(anchor) == recentered_anchor(*old(anchor), *old(local)),
        *final(local) == recentered_local(*old(local)),
        world_of(*final(anchor), *final(local)) == world_of(*old(anchor), *old(local)),
{
    if exceeds_recenter_threshold(local) {
        let world = world_position(anchor, local);
        *anchor = world;
        *local = LocalVector { x: 0, y: 0, z: 0 };
        true
    } else {
        false
    }
}

/// An observer sees exactly the true offset between an entity and itself, whenever the
/// entity's world position lies within the world frame and that offset lies within a local
/// frame.
pub proof fn lemma_translation_exact(a: WorldVector, p: LocalVector, b: WorldVector)
    requires
        i64::MIN <= a.x + p.x <= i64::MAX,
        i64::MIN <= a.y + p.y <= i64::MAX,
        i64::MIN <= a.z + p.z <= i64::MAX,
        i32::MIN <= a.x + p.x - b.x <= i32::MAX,
        i32::MIN <= a.y + p.y - b.y <= i32::MAX,
        i32::MIN <= a.z + p.z - b.z <= i32::MAX,
    ensures
        local_of(world_of(a, p), b).x == a.x + p.x - b.x,
        local_of(world_of(a, p), b).y == a.y + p.y - b.y,
        local_of(world_of(a, p), b).z == a.z + p.z - b.z,
{
}

/// Recentering leaves the world position of an entity where it was.
pub proof fn lemma_recenter_keeps_world_position(anchor: WorldVector, local: LocalVector)
    ensures
        world_of(recentered_anchor(anchor, local), recentered_local(local)) == world_of(
            anchor,
            local,
        ),
{
}

/// Recentering is unseen by every other observer: what an observer anchored at `observer` is
/// sent for the entity is the same before and after.
pub proof fn lemma_recenter_unseen(anchor: WorldVector, local: LocalVector, observer: WorldVector)
    ensures
        local_of(world_of(recentered_anchor(anchor, local), recentered_local(local)), observer)
            == local_of(world_of(anchor, local), observer),
{
    lemma_recenter_keeps_world_position(anchor, local);
}

} // verus!
