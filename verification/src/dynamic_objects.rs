//! Server-owned movable bodies, the leases that grant authority over them, and grabs.
//!
//! A lease is a timed authorisation held by one participant; a grab is a lease together with
//! kinematic control of the body. An object is never grabbed by one participant while
//! another holds its lease.

use crate::ids::fresh_id;
use crate::ids::id_text;
use crate::ids::uuid_text;
use crate::messages::{DynamicObjectInfo, Position, Rotation, ServerMessage};
use crate::origin::{
    local_of, to_local, world_of, world_position, LocalVector, Quaternion, WorldVector,
};
use crate::physics::{find_reading, reading_of, BodyReading, ColliderHandle, RigidBodyHandle};
use crate::clock::{deadline, deadline_after, elapsed, elapsed_since};
use crate::store::{
    lemma_listed_all, lemma_not_listed_before, lemma_picks_all, lemma_picks_none,
    lemma_picks_skip, lemma_picks_take, listed_before, lists_keys, picks, views,
};
use dashmap::DashMap;
use vstd::prelude::*;
use vstd::string::StringExecFns;

verus! {

/// How long the lease that comes with a grab lasts, in milliseconds.
pub const GRAB_LEASE_MS: u64 = 30_000;

/// A timed authorisation to act on an object.
#[derive(Clone, Copy, Debug, PartialEq, Eq, Structural)]
pub struct Lease {
    /// The participant who holds it.
    pub participant: u128,
    /// The time at which it runs out, in milliseconds.
    pub expires_at: u64,
}

/// Kinematic control of an object by a participant.
#[derive(Clone, Copy, Debug, PartialEq, Eq, Structural)]
pub struct Grab {
    /// The participant who holds the object.
    pub participant: u128,
    /// The time at which it was taken, in milliseconds.
    pub since: u64,
}

/// A server-owned movable body.
#[derive(Debug, Clone)]
pub struct DynamicObject {
    pub id: String,
    pub object_type: String,
    pub world_origin: WorldVector,
    pub position: LocalVector,
    pub rotation: Quaternion,
    pub velocity: LocalVector,
    /// Thousandths of the unit size.
    pub scale: i32,
    pub body_handle: Option<RigidBodyHandle>,
    pub collider_handle: Option<ColliderHandle>,
    /// The lease on the object, if anyone holds one.
    pub owner: Option<Lease>,
    pub last_update: u64,
    pub created_at: u64,
    /// The grab, if anyone holds the object.
    pub grabbed_by: Option<Grab>,
    /// Where on the object it was taken, from its centre.
    pub grab_offset: Option<LocalVector>,
    /// Whether the body is under kinematic control.
    pub is_kinematic_ghost: bool,
    pub original_body_type: Option<String>,
}

/// Whether `lease` is held by `player_id` and has not run out at `now`.
pub open spec fn lease_held(lease: Option<Lease>, player_id: u128, now: u64) -> bool {
    lease is Some && lease->0.participant == player_id && now < lease->0.expires_at
}

/// Whether `lease` is held by someone other than `player_id` and has not run out at `now`.
pub open spec fn lease_blocks(lease: Option<Lease>, player_id: u128, now: u64) -> bool {
    lease is Some && lease->0.participant != player_id && now < lease->0.expires_at
}

/// Whether `lease` has run out at `now`.
pub open spec fn lease_past_due(lease: Option<Lease>, now: u64) -> bool {
    lease is Some && now >= lease->0.expires_at
}

impl DynamicObject {
    /// Grab and lease agree: a grabbed object is leased to the participant who grabbed it,
    /// it carries a grab offset, and it is under kinematic control exactly while grabbed.
    pub open spec fn coherent(self) -> bool {
        &&& self.grabbed_by is Some ==> self.owner is Some && self.owner->0.participant
            == self.grabbed_by->0.participant
        &&& self.grabbed_by is Some <==> self.grab_offset is Some
        &&& self.grabbed_by is Some <==> self.is_kinematic_ghost
    }

    /// The lease, if there is one, has not run out at `now`.
    pub open spec fn lease_current(self, now: u64) -> bool {
        self.owner is Some ==> now < self.owner->0.expires_at
    }

    /// Whether `player_id` may grab the object at `now`: it is free, and nobody else holds a
    /// lease on it that is still running.
    pub open spec fn grabbable_by(self, player_id: u128, now: u64) -> bool {
        self.grabbed_by is None && !lease_blocks(self.owner, player_id, now)
    }

    /// The object with the lease given to `player_id` for `duration` from `now`.
    pub open spec fn granted(self, player_id: u128, duration: u64, now: u64) -> DynamicObject {
        DynamicObject { owner: Some(Lease { participant: player_id, expires_at: deadline(now, duration) }), ..self }
    }

    /// The object after `player_id` has grabbed it at `now` by the point `offset`.
    pub open spec fn grabbed(
        self,
        player_id: u128,
        offset: LocalVector,
        now: u64,
    ) -> DynamicObject {
        DynamicObject {
            grabbed_by: Some(Grab { participant: player_id, since: now }),
            grab_offset: Some(offset),
            is_kinematic_ghost: true,
            owner: Some(Lease { participant: player_id, expires_at: deadline(now, GRAB_LEASE_MS) }),
            ..self
        }
    }

    /// The object let go of; its lease is left as it is.
    pub open spec fn released(self) -> DynamicObject {
        DynamicObject {
            grabbed_by: None,
            grab_offset: None,
            is_kinematic_ghost: false,
            original_body_type: None,
            ..self
        }
    }

    /// The object without lease and without grab.
    pub open spec fn revoked(self) -> DynamicObject {
        DynamicObject { owner: None, ..self.released() }
    }

    /// The object after a sweep at `now`: a lease that has run out is revoked, and the grab
    /// with it.
    pub open spec fn swept(self, now: u64) -> DynamicObject {
        if lease_past_due(self.owner, now) {
            self.revoked()
        } else {
            self
        }
    }

    /// The object after participant `player_id` has gone: neither leased to nor grabbed by
    /// that participant.
    pub open spec fn without_participant(self, player_id: u128) -> DynamicObject {
        let o = if self.grabbed_by is Some && self.grabbed_by->0.participant == player_id {
            self.released()
        } else {
            self
        };
        if o.owner is Some && o.owner->0.participant == player_id {
            DynamicObject { owner: None, ..o }
        } else {
            o
        }
    }

    /// The object moved so that the point it is held by lies at `target`.
    pub open spec fn moved_to(self, target: LocalVector, now: u64) -> DynamicObject {
        DynamicObject {
            position: LocalVector {
                x: crate::origin::clamp_local(target.x - self.grab_offset->0.x) as i32,
                y: crate::origin::clamp_local(target.y - self.grab_offset->0.y) as i32,
                z: crate::origin::clamp_local(target.z - self.grab_offset->0.z) as i32,
            },
            last_update: now,
            ..self
        }
    }

    /// The object as the physics engine reports it: anchored at the reported position, with
    /// no local offset.
    pub open spec fn read_back(
        self,
        world_position: LocalVector,
        rotation: Quaternion,
        velocity: LocalVector,
    ) -> DynamicObject {
        DynamicObject {
            world_origin: WorldVector {
                x: world_position.x as i64,
                y: world_position.y as i64,
                z: world_position.z as i64,
            },
            position: LocalVector { x: 0, y: 0, z: 0 },
            rotation,
            velocity,
            ..self
        }
    }

    /// The object after a step of which the engine reports `readings`: as the first reading
    /// of its body says, or as it was where it has no body or the body was not reported.
    pub open spec fn after_readings(self, readings: Seq<BodyReading>) -> DynamicObject {
        if self.body_handle is Some && reading_of(readings, self.body_handle->0) is Some {
            let r = reading_of(readings, self.body_handle->0)->0;
            self.read_back(r.state.position, r.state.rotation, r.state.velocity)
        } else {
            self
        }
    }

    /// What a newcomer anchored at `relative_to` is told of the object.
    pub open spec fn info_for(self, relative_to: WorldVector) -> DynamicObjectInfo {
        DynamicObjectInfo {
            id: self.id,
            object_type: self.object_type,
            position: self.position_for(relative_to),
            rotation: Rotation {
                x: self.rotation.i,
                y: self.rotation.j,
                z: self.rotation.k,
                w: self.rotation.w,
            },
            scale: self.scale,
        }
    }

    /// Where an observer anchored at `origin` sees the object.
    pub open spec fn position_for(self, origin: WorldVector) -> Position {
        let p = local_of(world_of(self.world_origin, self.position), origin);
        Position { x: p.x, y: p.y, z: p.z }
    }

    /// The frame that announces the object to an observer anchored at `relative_to`.
    pub open spec fn spawn_frame_for(self, relative_to: WorldVector) -> ServerMessage {
        ServerMessage::DynamicObjectSpawn {
            object_id: self.id,
            object_type: self.object_type,
            position: self.position_for(relative_to),
            rotation: Rotation {
                x: self.rotation.i,
                y: self.rotation.j,
                z: self.rotation.k,
                w: self.rotation.w,
            },
            scale: self.scale,
        }
    }

    /// A free, unleased object at rest at `world_origin`, created at `now`.
    pub open spec fn fresh(
        id: String,
        object_type: String,
        world_origin: WorldVector,
        scale: i32,
        body_handle: Option<RigidBodyHandle>,
        collider_handle: Option<ColliderHandle>,
        now: u64,
    ) -> DynamicObject {
        DynamicObject {
            id,
            object_type,
            world_origin,
            position: LocalVector { x: 0, y: 0, z: 0 },
            rotation: Quaternion { i: 0, j: 0, k: 0, w: 1000 },
            velocity: LocalVector { x: 0, y: 0, z: 0 },
            scale,
            body_handle,
            collider_handle,
            owner: None,
            last_update: now,
            created_at: now,
            grabbed_by: None,
            grab_offset: None,
            is_kinematic_ghost: false,
            original_body_type: None,
        }
    }

    /// Creates a free, unleased object without a body, at rest at `world_origin`.
    pub fn new(id: String, object_type: String, world_origin: WorldVector, scale: i32, now: u64) -> (r:
        DynamicObject)
        ensures
            r == DynamicObject::fresh(id, object_type, world_origin, scale, None, None, now),
            r.coherent(),
    {
        DynamicObject {
            id,
            object_type,
            world_origin,
            position: LocalVector::zeros(),
            rotation: Quaternion::identity(),
            velocity: LocalVector::zeros(),
            scale,
            body_handle: None,
            collider_handle: None,
            owner: None,
            last_update: now,
            created_at: now,
            grabbed_by: None,
            grab_offset: None,
            is_kinematic_ghost: false,
            original_body_type: None,
        }
    }

    /// A copy of the object.
    pub fn duplicate(&self) -> (r: DynamicObject)
        ensures
            r == *self,
    {
        DynamicObject {
            id: self.id.clone(),
            object_type: self.object_type.clone(),
            world_origin: self.world_origin,
            position: self.position,
            rotation: self.rotation,
            velocity: self.velocity,
            scale: self.scale,
            body_handle: self.body_handle,
            collider_handle: self.collider_handle,
            owner: self.owner,
            last_update: self.last_update,
            created_at: self.created_at,
            grabbed_by: self.grabbed_by,
            grab_offset: self.grab_offset,
            is_kinematic_ghost: self.is_kinematic_ghost,
            original_body_type: match &self.original_body_type {
                Some(s) => Some(s.clone()),
                None => None,
            },
        }
    }

    /// The object's position in the world frame.
    pub fn get_world_position(&self) -> (r: WorldVector)
        ensures
            r == world_of(self.world_origin, self.position),
    {
        world_position(&self.world_origin, &self.position)
    }

    /// Where an observer anchored at `player_origin` sees the object.
    pub fn get_position_relative_to(&self, player_origin: &WorldVector) -> (r: Position)
        ensures
            r == self.position_for(*player_origin),
    {
        let world_pos = self.get_world_position();
        let relative = to_local(&world_pos, player_origin);
        Position { x: relative.x, y: relative.y, z: relative.z }
    }

    /// What a newcomer anchored at `relative_to` is told of the object.
    pub fn to_info(&self, relative_to: &WorldVector) -> (r: DynamicObjectInfo)
        ensures
            r == self.info_for(*relative_to),
    {
        DynamicObjectInfo {
            id: self.id.clone(),
            object_type: self.object_type.clone(),
            position: self.get_position_relative_to(relative_to),
            rotation: Rotation {
                x: self.rotation.i,
                y: self.rotation.j,
                z: self.rotation.k,
                w: self.rotation.w,
            },
            scale: self.scale,
        }
    }

    /// Whether the lease names `player_id`, run out or not.
    pub fn is_owned_by(&self, player_id: u128) -> (r: bool)
        ensures
            r == (self.owner is Some && self.owner->0.participant == player_id),
    {
        match &self.owner {
            Some(lease) => lease.participant == player_id,
            None => false,
        }
    }

    /// Whether `player_id` holds the lease and it has not run out at `now`.
    pub fn check_ownership(&self, player_id: u128, now: u64) -> (r: bool)
        ensures
            r == lease_held(self.owner, player_id, now),
    {
        match &self.owner {
            Some(lease) => lease.participant == player_id && now < lease.expires_at,
            None => false,
        }
    }

    /// Gives the lease to `player_id` for `duration` milliseconds from `now`, whoever held it.
    /// Grab and lease stay in agreement unless someone else has the object grabbed.
    pub fn grant_ownership(&mut self, player_id: u128, duration: u64, now: u64)
        ensures
            *final(self) == old(self).granted(player_id, duration, now),
            old(self).coherent() && (old(self).grabbed_by is None || old(self).grabbed_by->0.participant
                == player_id) ==> final(self).coherent(),
    {
        self.owner = Some(Lease { participant: player_id, expires_at: deadline_after(now, duration) });
    }

    /// Whether the object has existed for longer than `lifetime` milliseconds at `now`.
    pub fn is_expired(&self, lifetime: u64, now: u64) -> (r: bool)
        ensures
            r == (elapsed(self.created_at, now) > lifetime),
    {
        elapsed_since(self.created_at, now) > lifetime
    }

    /// Lets `player_id` grab the object by the point `grab_offset`, if it is free and nobody
    /// else holds a running lease on it; with the grab comes a lease of thirty seconds.
    pub fn grab(&mut self, player_id: u128, grab_offset: LocalVector, now: u64) -> (ok: bool)
        ensures
            ok == old(self).grabbable_by(player_id, now),
            ok ==> *final(self) == old(self).grabbed(player_id, grab_offset, now),
            !ok ==> *final(self) == *old(self),
            old(self).coherent() ==> final(self).coherent(),
    {
        if self.grabbed_by.is_some() {
            return false;
        }
        match &self.owner {
            Some(lease) => {
                if lease.participant != player_id && now < lease.expires_at {
                    return false;
                }
            },
            None => {},
        }
        self.grabbed_by = Some(Grab { participant: player_id, since: now });
        self.grab_offset = Some(grab_offset);
        self.is_kinematic_ghost = true;
        self.owner = Some(Lease { participant: player_id, expires_at: deadline_after(now, GRAB_LEASE_MS) });
        true
    }

    /// Lets go of the object; its lease is left as it is.
    pub fn release(&mut self)
        ensures
            *final(self) == old(self).released(),
            final(self).grabbed_by is None,
            old(self).coherent() ==> final(self).coherent(),
    {
        self.grabbed_by = None;
        self.grab_offset = None;
        self.is_kinematic_ghost = false;
        self.original_body_type = None;
    }

    /// Takes lease and grab away.
    pub fn revoke(&mut self)
        ensures
            *final(self) == old(self).revoked(),
            old(self).coherent() ==> final(self).coherent(),
    {
        self.owner = None;
        self.release();
    }

    pub fn is_grabbed(&self) -> (r: bool)
        ensures
            r == (self.grabbed_by is Some),
    {
        self.grabbed_by.is_some()
    }

    pub fn is_grabbed_by(&self, player_id: u128) -> (r: bool)
        ensures
            r == (self.grabbed_by is Some && self.grabbed_by->0.participant == player_id),
    {
        match &self.grabbed_by {
            Some(grab) => grab.participant == player_id,
            None => false,
        }
    }

    /// For how many milliseconds the object has been held at `now`, if it is held.
    pub fn get_grab_duration(&self, now: u64) -> (r: Option<u64>)
        ensures
            r == (match self.grabbed_by {
                Some(grab) => Some(elapsed(grab.since, now)),
                None => None,
            }),
    {
        match &self.grabbed_by {
            Some(grab) => Some(elapsed_since(grab.since, now)),
            None => None,
        }
    }
}

/// Grab and lease stay in agreement through everything that is done to an object: through a
/// grab, a release, a revocation, a sweep of leases that have run out, the departure of a
/// participant, a move, and what the physics engine reports; and through a grant of the
/// lease, unless someone other than the new holder has the object grabbed.
pub proof fn lemma_grab_lease_coherence(
    o: DynamicObject,
    player_id: u128,
    offset: LocalVector,
    target: LocalVector,
    rotation: Quaternion,
    velocity: LocalVector,
    duration: u64,
    now: u64,
)
    requires
        o.coherent(),
    ensures
        o.grabbable_by(player_id, now) ==> o.grabbed(player_id, offset, now).coherent(),
        o.released().coherent(),
        o.revoked().coherent(),
        o.swept(now).coherent(),
        o.without_participant(player_id).coherent(),
        o.moved_to(target, now).coherent(),
        o.read_back(target, rotation, velocity).coherent(),
        o.grabbed_by is None || o.grabbed_by->0.participant == player_id ==> o.granted(
            player_id,
            duration,
            now,
        ).coherent(),
        o.grabbed_by is Some ==> o.owner is Some && o.owner->0.participant
            == o.grabbed_by->0.participant,
{
}

/// After a sweep at `now`, an object carries no lease that has run out: the lease that it
/// carries, if any, ends after `now`.
pub proof fn lemma_sweep_leaves_live_leases(o: DynamicObject, now: u64)
    ensures
        o.swept(now).lease_current(now),
        o.swept(now).owner is Some ==> o.swept(now).owner->0.expires_at > now,
{
}

/// After a participant has gone, an object is neither grabbed by it nor leased to it.
pub proof fn lemma_departure_frees(o: DynamicObject, player_id: u128)
    requires
        o.coherent(),
    ensures
        !(o.without_participant(player_id).grabbed_by is Some && o.without_participant(
            player_id,
        ).grabbed_by->0.participant == player_id),
        !(o.without_participant(player_id).owner is Some && o.without_participant(
            player_id,
        ).owner->0.participant == player_id),
{
}

/// The objects that a map of dynamic objects holds, by the characters of their identifier.
pub uninterp spec fn object_entries(m: &DashMap<String, DynamicObject>) -> Map<
    Seq<char>,
    DynamicObject,
>;

/// `DashMap::new`: a map that holds nothing.
#[verifier::external_body]
fn objects_new() -> (m: DashMap<String, DynamicObject>)
    ensures
        object_entries(&m).dom() =~= Set::empty(),
{
    DashMap::new()
}

/// `DashMap::insert`: afterwards the map holds `value` under `key`, in place of what it held
/// there; every other entry stays.
#[verifier::external_body]
fn objects_insert(m: &mut DashMap<String, DynamicObject>, key: String, value: DynamicObject)
    ensures
        object_entries(final(m)) == object_entries(old(m)).insert(key@, value),
{
    m.insert(key, value);
}

/// `DashMap::get`: a copy of what the map holds under `key`, if it holds anything there.
#[verifier::external_body]
fn objects_get(m: &DashMap<String, DynamicObject>, key: &str) -> (r: Option<DynamicObject>)
    ensures
        r is Some <==> object_entries(m).contains_key(key@),
        r is Some ==> r->0 == object_entries(m)[key@],
{
    m.get(key).map(|e| e.value().duplicate())
}

/// `DashMap::remove`: afterwards the map holds nothing under `key`; every other entry stays.
/// What it held there is returned.
#[verifier::external_body]
fn objects_remove(m: &mut DashMap<String, DynamicObject>, key: &str) -> (r: Option<DynamicObject>)
    ensures
        object_entries(final(m)) == object_entries(old(m)).remove(key@),
        r is Some <==> object_entries(old(m)).contains_key(key@),
        r is Some ==> r->0 == object_entries(old(m))[key@],
{
    m.remove(key).map(|e| e.1)
}

/// `DashMap::iter`, keys only: every key of the map once, in no particular order.
#[verifier::external_body]
fn objects_keys(m: &DashMap<String, DynamicObject>) -> (r: Vec<String>)
    ensures
        lists_keys(views(r@), object_entries(m).dom()),
{
    m.iter().map(|e| e.key().clone()).collect()
}

/// The dynamic objects of the world, by identifier.
pub struct DynamicObjectManager {
    pub objects: DashMap<String, DynamicObject>,
}

impl View for DynamicObjectManager {
    type V = Map<Seq<char>, DynamicObject>;

    open spec fn view(&self) -> Map<Seq<char>, DynamicObject> {
        object_entries(&self.objects)
    }
}

/// An object named together with its body, for what the physics engine has to do about it.
#[derive(Debug, Clone)]
pub struct ObjectBody {
    pub id: String,
    pub body_handle: Option<RigidBodyHandle>,
    /// Whether the object was grabbed when it was named here.
    pub was_grabbed: bool,
}

/// `o` is a free, unleased object at rest at `world_origin`, created at `now`.
pub open spec fn is_fresh_object(
    o: DynamicObject,
    id: Seq<char>,
    object_type: Seq<char>,
    world_origin: WorldVector,
    scale: i32,
    body_handle: Option<RigidBodyHandle>,
    collider_handle: Option<ColliderHandle>,
    now: u64,
) -> bool {
    &&& o.id@ == id
    &&& o.object_type@ == object_type
    &&& o.world_origin == world_origin
    &&& o.position == (LocalVector { x: 0, y: 0, z: 0 })
    &&& o.rotation == (Quaternion { i: 0, j: 0, k: 0, w: 1000 })
    &&& o.velocity == (LocalVector { x: 0, y: 0, z: 0 })
    &&& o.scale == scale
    &&& o.body_handle == body_handle
    &&& o.collider_handle == collider_handle
    &&& o.owner is None
    &&& o.last_update == now
    &&& o.created_at == now
    &&& o.grabbed_by is None
    &&& o.grab_offset is None
    &&& !o.is_kinematic_ghost
    &&& o.original_body_type is None
}

/// The identifier of a rock: the word `rock_` and the text of a participant-style identifier.
pub open spec fn rock_name(n: u128) -> Seq<char> {
    "rock_"@ + uuid_text(n)
}

impl DynamicObjectManager {
    /// Every object's grab and lease agree.
    pub open spec fn coherent(&self) -> bool {
        forall|k: Seq<char>| #[trigger] self@.contains_key(k) ==> self@[k].coherent()
    }

    /// No object carries a lease that has run out at `now`.
    pub open spec fn leases_current(&self, now: u64) -> bool {
        forall|k: Seq<char>| #[trigger] self@.contains_key(k) ==> self@[k].lease_current(now)
    }

    /// A manager without objects.
    pub fn new() -> (r: DynamicObjectManager)
        ensures
            r@ =~= Map::empty(),
            r.coherent(),
    {
        DynamicObjectManager { objects: objects_new() }
    }

    /// Puts a free, unleased object under `id`, in place of any that was there.
    pub fn spawn_object(
        &mut self,
        id: &str,
        object_type: String,
        world_position: WorldVector,
        body_handle: Option<RigidBodyHandle>,
        collider_handle: Option<ColliderHandle>,
        scale: i32,
        now: u64,
    )
        ensures
            final(self)@.dom() == old(self)@.dom().insert(id@),
            is_fresh_object(
                final(self)@[id@],
                id@,
                object_type@,
                world_position,
                scale,
                body_handle,
                collider_handle,
                now,
            ),
            forall|k: Seq<char>| k != id@ && old(self)@.contains_key(k) ==> final(self)@[k] == old(
                self,
            )@[k],
            old(self).coherent() ==> final(self).coherent(),
    {
        let mut object = DynamicObject::new(
            String::from_str(id),
            object_type,
            world_position,
            scale,
            now,
        );
        object.body_handle = body_handle;
        object.collider_handle = collider_handle;
        assert(object.coherent());
        objects_insert(&mut self.objects, String::from_str(id), object);
        proof {
            if old(self).coherent() {
                assert forall|k: Seq<char>| #[trigger] self@.contains_key(k) implies self@[k].coherent() by {
                    if k != id@ {
                        assert(old(self)@.contains_key(k));
                    }
                }
            }
        }
    }

    /// Puts a rock with the given body under a new identifier, and returns the identifier.
    pub fn spawn_rock_with_physics(
        &mut self,
        world_position: WorldVector,
        body_handle: RigidBodyHandle,
        collider_handle: ColliderHandle,
        scale: i32,
        now: u64,
    ) -> (id: String)
        ensures
            exists|n: u128| id@ == rock_name(n),
            final(self)@.dom() == old(self)@.dom().insert(id@),
            is_fresh_object(
                final(self)@[id@],
                id@,
                "rock"@,
                world_position,
                scale,
                Some(body_handle),
                Some(collider_handle),
                now,
            ),
            forall|k: Seq<char>| k != id@ && old(self)@.contains_key(k) ==> final(self)@[k] == old(
                self,
            )@[k],
            old(self).coherent() ==> final(self).coherent(),
    {
        let n = fresh_id();
        let text = id_text(n);
        let id = String::from_str("rock_").concat(text.as_str());
        assert(id@ == rock_name(n));
        self.spawn_object(
            id.as_str(),
            String::from_str("rock"),
            world_position,
            Some(body_handle),
            Some(collider_handle),
            scale,
            now,
        );
        id
    }

    /// Takes over what the physics engine reports of the object under `id`: the object is
    /// anchored at the reported position, with no local offset. Says whether there is such
    /// an object.
    pub fn update_from_physics_world_position(
        &mut self,
        id: &str,
        world_position: LocalVector,
        rotation: Quaternion,
        velocity: LocalVector,
    ) -> (found: bool)
        ensures
            found == old(self)@.contains_key(id@),
            found ==> final(self)@ == old(self)@.insert(
                id@,
                old(self)@[id@].read_back(world_position, rotation, velocity),
            ),
            !found ==> final(self)@ == old(self)@,
            old(self).coherent() ==> final(self).coherent(),
    {
        match objects_get(&self.objects, id) {
            Some(mut object) => {
                object.world_origin = WorldVector {
                    x: world_position.x as i64,
                    y: world_position.y as i64,
                    z: world_position.z as i64,
                };
                object.position = LocalVector::zeros();
                object.rotation = rotation;
                object.velocity = velocity;
                objects_insert(&mut self.objects, String::from_str(id), object);
                true
            },
            None => false,
        }
    }

    /// The frame that announces the object under `id` to an observer anchored at
    /// `relative_to`, if there is such an object.
    pub fn get_spawn_message(&self, id: &str, relative_to: &WorldVector) -> (r: Option<
        ServerMessage,
    >)
        ensures
            r is Some <==> self@.contains_key(id@),
            r is Some ==> r->0 == self@[id@].spawn_frame_for(*relative_to),
    {
        match objects_get(&self.objects, id) {
            Some(obj) => Some(
                ServerMessage::DynamicObjectSpawn {
                    position: obj.get_position_relative_to(relative_to),
                    rotation: Rotation {
                        x: obj.rotation.i,
                        y: obj.rotation.j,
                        z: obj.rotation.k,
                        w: obj.rotation.w,
                    },
                    scale: obj.scale,
                    object_id: obj.id,
                    object_type: obj.object_type,
                },
            ),
            None => None,
        }
    }

    /// Whether `player_id` holds a lease on the object under `object_id` that has not run
    /// out at `now`.
    pub fn check_ownership(&self, object_id: &str, player_id: u128, now: u64) -> (r: bool)
        ensures
            r == (self@.contains_key(object_id@) && lease_held(
                self@[object_id@].owner,
                player_id,
                now,
            )),
    {
        match objects_get(&self.objects, object_id) {
            Some(obj) => obj.check_ownership(player_id, now),
            None => false,
        }
    }

    /// Takes lease and grab away from the object under `object_id`, if there is one.
    pub fn revoke_ownership(&mut self, object_id: &str)
        ensures
            old(self)@.contains_key(object_id@) ==> final(self)@ == old(self)@.insert(
                object_id@,
                old(self)@[object_id@].revoked(),
            ),
            !old(self)@.contains_key(object_id@) ==> final(self)@ == old(self)@,
            old(self).coherent() ==> final(self).coherent(),
    {
        match objects_get(&self.objects, object_id) {
            Some(mut obj) => {
                obj.revoke();
                objects_insert(&mut self.objects, String::from_str(object_id), obj);
            },
            None => {},
        }
    }

    /// Gives the lease on the object under `object_id` to `player_id` for `duration`
    /// milliseconds from `now`, if there is such an object.
    pub fn grant_ownership(&mut self, object_id: &str, player_id: u128, duration: u64, now: u64)
        ensures
            old(self)@.contains_key(object_id@) ==> final(self)@ == old(self)@.insert(
                object_id@,
                old(self)@[object_id@].granted(player_id, duration, now),
            ),
            !old(self)@.contains_key(object_id@) ==> final(self)@ == old(self)@,
    {
        match objects_get(&self.objects, object_id) {
            Some(mut obj) => {
                obj.grant_ownership(player_id, duration, now);
                objects_insert(&mut self.objects, String::from_str(object_id), obj);
            },
            None => {},
        }
    }

    /// A copy of the object under `id`, if there is one.
    pub fn get_object(&self, id: &str) -> (r: Option<DynamicObject>)
        ensures
            r is Some <==> self@.contains_key(id@),
            r is Some ==> r->0 == self@[id@],
    {
        objects_get(&self.objects, id)
    }

    /// Lets `player_id` grab the object under `object_id`, if there is one, it is free, and
    /// nobody else holds a running lease on it.
    pub fn grab_object(
        &mut self,
        object_id: &str,
        player_id: u128,
        grab_offset: LocalVector,
        now: u64,
    ) -> (ok: bool)
        ensures
            ok == (old(self)@.contains_key(object_id@) && old(self)@[object_id@].grabbable_by(
                player_id,
                now,
            )),
            ok ==> final(self)@ == old(self)@.insert(
                object_id@,
                old(self)@[object_id@].grabbed(player_id, grab_offset, now),
            ),
            !ok ==> final(self)@ == old(self)@,
            old(self).coherent() ==> final(self).coherent(),
    {
        match objects_get(&self.objects, object_id) {
            Some(mut obj) => {
                if obj.grab(player_id, grab_offset, now) {
                    objects_insert(&mut self.objects, String::from_str(object_id), obj);
                    true
                } else {
                    false
                }
            },
            None => false,
        }
    }

    /// Lets go of the object under `object_id`, if `player_id` has it grabbed.
    pub fn release_object(&mut self, object_id: &str, player_id: u128) -> (ok: bool)
        ensures
            ok == (old(self)@.contains_key(object_id@) && old(self)@[object_id@].grabbed_by is Some
                && old(self)@[object_id@].grabbed_by->0.participant == player_id),
            ok ==> final(self)@ == old(self)@.insert(
                object_id@,
                old(self)@[object_id@].released(),
            ),
            !ok ==> final(self)@ == old(self)@,
            old(self).coherent() ==> final(self).coherent(),
    {
        match objects_get(&self.objects, object_id) {
            Some(mut obj) => {
                if obj.is_grabbed_by(player_id) {
                    obj.release();
                    objects_insert(&mut self.objects, String::from_str(object_id), obj);
                    true
                } else {
                    false
                }
            },
            None => false,
        }
    }

    /// Moves the object under `object_id` so that the point it is held by lies at
    /// `target_position`, if `player_id` has it grabbed.
    pub fn move_grabbed_object(
        &mut self,
        object_id: &str,
        player_id: u128,
        target_position: LocalVector,
        now: u64,
    ) -> (ok: bool)
        ensures
            ok == (old(self)@.contains_key(object_id@) && old(self)@[object_id@].grabbed_by is Some
                && old(self)@[object_id@].grabbed_by->0.participant == player_id && old(
                self,
            )@[object_id@].grab_offset is Some),
            ok ==> final(self)@ == old(self)@.insert(
                object_id@,
                old(self)@[object_id@].moved_to(target_position, now),
            ),
            !ok ==> final(self)@ == old(self)@,
            old(self).coherent() ==> final(self).coherent(),
    {
        match objects_get(&self.objects, object_id) {
            Some(mut obj) => {
                if obj.is_grabbed_by(player_id) {
                    match obj.grab_offset {
                        Some(grab_offset) => {
                            obj.position = target_position.saturating_sub(&grab_offset);
                            obj.last_update = now;
                            objects_insert(&mut self.objects, String::from_str(object_id), obj);
                            true
                        },
                        None => false,
                    }
                } else {
                    false
                }
            },
            None => false,
        }
    }

    /// Revokes every lease that has run out at `now`, and the grab that came with it, and
    /// returns the identifiers of the objects concerned.
    pub fn update_ownership(&mut self, now: u64) -> (revoked: Vec<ObjectBody>)
        ensures
            final(self)@ == old(self)@.map_values(|o: DynamicObject| o.swept(now)),
            lists_keys(body_names(revoked@), past_due_keys(old(self)@, now)),
            forall|i: int|
                0 <= i < revoked@.len() ==> names_body(#[trigger] revoked@[i], old(self)@),
            final(self).leases_current(now),
            old(self).coherent() ==> final(self).coherent(),
    {
        let ids = objects_keys(&self.objects);
        let ghost before = self@;
        let ghost keys = views(ids@);
        let ghost want = past_due_keys(before, now);
        let mut revoked: Vec<ObjectBody> = Vec::new();
        let mut i: usize = 0;
        proof {
            lemma_picks_none(keys, want);
            lemma_listed_all(keys, before.dom());
            assert(body_names(revoked@) =~= Seq::<Seq<char>>::empty());
        }
        while i < ids.len()
            invariant
                0 <= i <= ids.len(),
                keys == views(ids@),
                before == old(self)@,
                want == past_due_keys(before, now),
                lists_keys(keys, before.dom()),
                self@.dom() =~= before.dom(),
                forall|k: Seq<char>| #[trigger]
                    before.contains_key(k) ==> self@[k] == (if listed_before(keys, i as int, k) {
                        before[k].swept(now)
                    } else {
                        before[k]
                    }),
                picks(body_names(revoked@), keys, i as int, want),
                forall|j: int| 0 <= j < revoked@.len() ==> names_body(#[trigger] revoked@[j], before),
            decreases ids.len() - i,
        {
            let id = &ids[i];
            proof {
                lemma_not_listed_before(keys, before.dom(), i as int);
                assert(keys[i as int] == id@);
                assert(before.contains_key(id@));
            }
            let ghost picked = body_names(revoked@);
            match objects_get(&self.objects, id.as_str()) {
                Some(mut obj) => {
                    let past_due = match &obj.owner {
                        Some(lease) => now >= lease.expires_at,
                        None => false,
                    };
                    if past_due {
                        revoked.push(
                            ObjectBody {
                                id: id.clone(),
                                body_handle: obj.body_handle,
                                was_grabbed: obj.is_grabbed(),
                            },
                        );
                        obj.revoke();
                        objects_insert(&mut self.objects, id.clone(), obj);
                        proof {
                            lemma_picks_take(picked, keys, i as int, want);
                            assert(body_names(revoked@) =~= picked.push(keys[i as int]));
                        }
                    } else {
                        proof {
                            lemma_picks_skip(picked, keys, i as int, want);
                        }
                    }
                },
                None => {},
            }
            i += 1;
        }
        proof {
            lemma_picks_all(body_names(revoked@), keys, before.dom(), want);
            assert(want.intersect(before.dom()) =~= want);
            lemma_listed_all(keys, before.dom());
            assert(self@ =~= before.map_values(|o: DynamicObject| o.swept(now)));
        }
        revoked
    }

    /// A copy of every object, in no particular order.
    pub fn iter(&self) -> (r: Vec<DynamicObject>)
        ensures
            exists|keys: Seq<Seq<char>>|
                lists_keys(keys, self@.dom()) && keys.len() == r@.len() && forall|i: int|
                    0 <= i < r@.len() ==> #[trigger] r@[i] == self@[keys[i]],
    {
        let ids = objects_keys(&self.objects);
        let ghost keys = views(ids@);
        let mut r: Vec<DynamicObject> = Vec::new();
        let mut i: usize = 0;
        while i < ids.len()
            invariant
                0 <= i <= ids.len(),
                keys == views(ids@),
                lists_keys(keys, self@.dom()),
                r@.len() == i,
                forall|j: int| 0 <= j < i ==> #[trigger] r@[j] == self@[keys[j]],
            decreases ids.len() - i,
        {
            proof {
                assert(keys[i as int] == ids@[i as int]@);
                assert(self@.dom().contains(keys[i as int]));
            }
            match objects_get(&self.objects, ids[i].as_str()) {
                Some(obj) => {
                    r.push(obj);
                },
                None => {},
            }
            i += 1;
        }
        r
    }

    /// What a newcomer anchored at `origin` is told of every object, in no particular order.
    pub fn get_all_objects_relative_to(&self, origin: &WorldVector) -> (r: Vec<DynamicObjectInfo>)
        ensures
            exists|keys: Seq<Seq<char>>|
                lists_keys(keys, self@.dom()) && keys.len() == r@.len() && forall|i: int|
                    0 <= i < r@.len() ==> #[trigger] r@[i] == self@[keys[i]].info_for(*origin),
    {
        let ids = objects_keys(&self.objects);
        let ghost keys = views(ids@);
        let mut r: Vec<DynamicObjectInfo> = Vec::new();
        let mut i: usize = 0;
        while i < ids.len()
            invariant
                0 <= i <= ids.len(),
                keys == views(ids@),
                lists_keys(keys, self@.dom()),
                r@.len() == i,
                forall|j: int| 0 <= j < i ==> #[trigger] r@[j] == self@[keys[j]].info_for(*origin),
            decreases ids.len() - i,
        {
            proof {
                assert(keys[i as int] == ids@[i as int]@);
                assert(self@.dom().contains(keys[i as int]));
            }
            match objects_get(&self.objects, ids[i].as_str()) {
                Some(obj) => {
                    r.push(obj.to_info(origin));
                },
                None => {},
            }
            i += 1;
        }
        r
    }

    /// Removes every object that has existed for longer than `lifetime` milliseconds at
    /// `now`, and returns them with their bodies, in no particular order.
    pub fn remove_expired_objects(&mut self, lifetime: u64, now: u64) -> (expired: Vec<ObjectBody>)
        ensures
            final(self)@ == old(self)@.remove_keys(outlived_keys(old(self)@, lifetime, now)),
            lists_keys(body_names(expired@), outlived_keys(old(self)@, lifetime, now)),
            forall|i: int|
                0 <= i < expired@.len() ==> names_body(#[trigger] expired@[i], old(self)@),
            old(self).coherent() ==> final(self).coherent(),
    {
        let ids = objects_keys(&self.objects);
        let ghost before = self@;
        let ghost keys = views(ids@);
        let ghost want = outlived_keys(before, lifetime, now);
        let mut expired: Vec<ObjectBody> = Vec::new();
        let mut i: usize = 0;
        proof {
            lemma_picks_none(keys, want);
            lemma_listed_all(keys, before.dom());
            assert(body_names(expired@) =~= Seq::<Seq<char>>::empty());
        }
        while i < ids.len()
            invariant
                0 <= i <= ids.len(),
                keys == views(ids@),
                before == old(self)@,
                want == outlived_keys(before, lifetime, now),
                lists_keys(keys, before.dom()),
                forall|k: Seq<char>|
                    self@.contains_key(k) <==> #[trigger] before.contains_key(k) && !(
                    listed_before(keys, i as int, k) && want.contains(k)),
                forall|k: Seq<char>| #[trigger] self@.contains_key(k) ==> self@[k] == before[k],
                picks(body_names(expired@), keys, i as int, want),
                forall|j: int| 0 <= j < expired@.len() ==> names_body(#[trigger] expired@[j], before),
            decreases ids.len() - i,
        {
            let id = &ids[i];
            proof {
                lemma_not_listed_before(keys, before.dom(), i as int);
                assert(keys[i as int] == id@);
                assert(before.contains_key(id@));
            }
            let ghost picked = body_names(expired@);
            match objects_get(&self.objects, id.as_str()) {
                Some(obj) => {
                    if obj.is_expired(lifetime, now) {
                        objects_remove(&mut self.objects, id.as_str());
                        expired.push(
                            ObjectBody {
                                id: id.clone(),
                                body_handle: obj.body_handle,
                                was_grabbed: obj.is_grabbed(),
                            },
                        );
                        proof {
                            lemma_picks_take(picked, keys, i as int, want);
                            assert(body_names(expired@) =~= picked.push(keys[i as int]));
                        }
                    } else {
                        proof {
                            lemma_picks_skip(picked, keys, i as int, want);
                        }
                    }
                },
                None => {},
            }
            i += 1;
        }
        proof {
            lemma_picks_all(body_names(expired@), keys, before.dom(), want);
            assert(want.intersect(before.dom()) =~= want);
            lemma_listed_all(keys, before.dom());
            assert(self@ =~= before.remove_keys(want));
        }
        expired
    }

    /// The identifiers of the objects that `player_id` has grabbed, in no particular order.
    pub fn get_grabbed_objects_by_player(&self, player_id: u128) -> (r: Vec<String>)
        ensures
            lists_keys(views(r@), grabbed_keys(self@, player_id)),
    {
        let ids = objects_keys(&self.objects);
        let ghost keys = views(ids@);
        let ghost want = grabbed_keys(self@, player_id);
        let mut r: Vec<String> = Vec::new();
        let mut i: usize = 0;
        proof {
            lemma_picks_none(keys, want);
            assert(views(r@) =~= Seq::<Seq<char>>::empty());
        }
        while i < ids.len()
            invariant
                0 <= i <= ids.len(),
                keys == views(ids@),
                want == grabbed_keys(self@, player_id),
                lists_keys(keys, self@.dom()),
                picks(views(r@), keys, i as int, want),
            decreases ids.len() - i,
        {
            let id = &ids[i];
            proof {
                assert(keys[i as int] == id@);
                assert(self@.dom().contains(keys[i as int]));
            }
            let ghost picked = views(r@);
            let mut held = false;
            match objects_get(&self.objects, id.as_str()) {
                Some(obj) => {
                    held = obj.is_grabbed_by(player_id);
                },
                None => {},
            }
            if held {
                r.push(id.clone());
                proof {
                    lemma_picks_take(picked, keys, i as int, want);
                    assert(views(r@) =~= picked.push(keys[i as int]));
                }
            } else {
                proof {
                    lemma_picks_skip(picked, keys, i as int, want);
                }
            }
            i += 1;
        }
        proof {
            lemma_picks_all(views(r@), keys, self@.dom(), want);
            assert(want.intersect(self@.dom()) =~= want);
        }
        r
    }

    /// Lets go of everything that `player_id` has grabbed and ends every lease that
    /// `player_id` holds. Returns the objects that were let go of, with their bodies, in no
    /// particular order.
    pub fn force_release_all_by_player(&mut self, player_id: u128) -> (released: Vec<ObjectBody>)
        ensures
            final(self)@ == old(self)@.map_values(
                |o: DynamicObject| o.without_participant(player_id),
            ),
            lists_keys(body_names(released@), grabbed_keys(old(self)@, player_id)),
            forall|i: int|
                0 <= i < released@.len() ==> names_body(#[trigger] released@[i], old(self)@),
            final(self).free_of(player_id),
            old(self).coherent() ==> final(self).coherent(),
    {
        let ids = objects_keys(&self.objects);
        let ghost before = self@;
        let ghost keys = views(ids@);
        let ghost want = grabbed_keys(before, player_id);
        let mut released: Vec<ObjectBody> = Vec::new();
        let mut i: usize = 0;
        proof {
            lemma_picks_none(keys, want);
            lemma_listed_all(keys, before.dom());
            assert(body_names(released@) =~= Seq::<Seq<char>>::empty());
        }
        while i < ids.len()
            invariant
                0 <= i <= ids.len(),
                keys == views(ids@),
                before == old(self)@,
                want == grabbed_keys(before, player_id),
                lists_keys(keys, before.dom()),
                self@.dom() =~= before.dom(),
                forall|k: Seq<char>| #[trigger]
                    before.contains_key(k) ==> self@[k] == (if listed_before(keys, i as int, k) {
                        before[k].without_participant(player_id)
                    } else {
                        before[k]
                    }),
                picks(body_names(released@), keys, i as int, want),
                forall|j: int|
                    0 <= j < released@.len() ==> names_body(#[trigger] released@[j], before),
            decreases ids.len() - i,
        {
            let id = &ids[i];
            proof {
                lemma_not_listed_before(keys, before.dom(), i as int);
                assert(keys[i as int] == id@);
                assert(before.contains_key(id@));
            }
            let ghost picked = body_names(released@);
            match objects_get(&self.objects, id.as_str()) {
                Some(mut obj) => {
                    let was_held = obj.is_grabbed_by(player_id);
                    let was_leased = obj.is_owned_by(player_id);
                    if was_held {
                        released.push(
                            ObjectBody {
                                id: id.clone(),
                                body_handle: obj.body_handle,
                                was_grabbed: true,
                            },
                        );
                        obj.release();
                        proof {
                            lemma_picks_take(picked, keys, i as int, want);
                            assert(body_names(released@) =~= picked.push(keys[i as int]));
                        }
                    } else {
                        proof {
                            lemma_picks_skip(picked, keys, i as int, want);
                        }
                    }
                    if was_leased {
                        obj.owner = None;
                    }
                    if was_held || was_leased {
                        objects_insert(&mut self.objects, id.clone(), obj);
                    }
                },
                None => {},
            }
            i += 1;
        }
        proof {
            lemma_picks_all(body_names(released@), keys, before.dom(), want);
            assert(want.intersect(before.dom()) =~= want);
            lemma_listed_all(keys, before.dom());
            assert(self@ =~= before.map_values(
                |o: DynamicObject| o.without_participant(player_id),
            ));
        }
        released
    }

    /// Takes over what the engine reports after a step, for every object whose body is
    /// among `readings`.
    pub fn read_back_all(&mut self, readings: &Vec<BodyReading>)
        ensures
            final(self)@ == old(self)@.map_values(
                |o: DynamicObject| o.after_readings(readings@),
            ),
            old(self).coherent() ==> final(self).coherent(),
    {
        let ids = objects_keys(&self.objects);
        let ghost before = self@;
        let ghost keys = views(ids@);
        let mut i: usize = 0;
        proof {
            lemma_listed_all(keys, before.dom());
        }
        while i < ids.len()
            invariant
                0 <= i <= ids.len(),
                keys == views(ids@),
                before == old(self)@,
                lists_keys(keys, before.dom()),
                self@.dom() =~= before.dom(),
                forall|k: Seq<char>| #[trigger]
                    before.contains_key(k) ==> self@[k] == (if listed_before(keys, i as int, k) {
                        before[k].after_readings(readings@)
                    } else {
                        before[k]
                    }),
            decreases ids.len() - i,
        {
            let id = &ids[i];
            proof {
                lemma_not_listed_before(keys, before.dom(), i as int);
                assert(keys[i as int] == id@);
                assert(before.contains_key(id@));
            }
            match objects_get(&self.objects, id.as_str()) {
                Some(mut obj) => {
                    match obj.body_handle {
                        Some(handle) => {
                            match find_reading(readings, handle) {
                                Some(r) => {
                                    obj.world_origin = WorldVector {
                                        x: r.state.position.x as i64,
                                        y: r.state.position.y as i64,
                                        z: r.state.position.z as i64,
                                    };
                                    obj.position = LocalVector::zeros();
                                    obj.rotation = r.state.rotation;
                                    obj.velocity = r.state.velocity;
                                    objects_insert(&mut self.objects, id.clone(), obj);
                                },
                                None => {},
                            }
                        },
                        None => {},
                    }
                },
                None => {},
            }
            i += 1;
        }
        proof {
            lemma_listed_all(keys, before.dom());
            assert(self@ =~= before.map_values(|o: DynamicObject| o.after_readings(readings@)));
        }
    }

    /// No object is grabbed by `player_id` or leased to `player_id`.
    pub open spec fn free_of(&self, player_id: u128) -> bool {
        forall|k: Seq<char>| #[trigger]
            self@.contains_key(k) ==> !(self@[k].grabbed_by is Some
                && self@[k].grabbed_by->0.participant == player_id) && !(self@[k].owner is Some
                && self@[k].owner->0.participant == player_id)
    }
}

/// `b` names an object of `m` with the body it has there and says whether it is grabbed there.
pub open spec fn names_body(b: ObjectBody, m: Map<Seq<char>, DynamicObject>) -> bool {
    &&& m.contains_key(b.id@)
    &&& b.body_handle == m[b.id@].body_handle
    &&& b.was_grabbed == (m[b.id@].grabbed_by is Some)
}

/// The identifiers that a list of objects with bodies names.
pub open spec fn body_names(list: Seq<ObjectBody>) -> Seq<Seq<char>> {
    list.map_values(|b: ObjectBody| b.id@)
}

/// The keys of the objects that have existed for longer than `lifetime` at `now`.
pub open spec fn outlived_keys(m: Map<Seq<char>, DynamicObject>, lifetime: u64, now: u64) -> Set<
    Seq<char>,
> {
    Set::new(|k: Seq<char>| m.contains_key(k) && elapsed(m[k].created_at, now) > lifetime)
}

/// The keys of the objects that `player_id` has grabbed.
pub open spec fn grabbed_keys(m: Map<Seq<char>, DynamicObject>, player_id: u128) -> Set<Seq<char>> {
    Set::new(
        |k: Seq<char>|
            m.contains_key(k) && m[k].grabbed_by is Some && m[k].grabbed_by->0.participant
                == player_id,
    )
}

/// The keys of the objects whose lease has run out at `now`.
pub open spec fn past_due_keys(m: Map<Seq<char>, DynamicObject>, now: u64) -> Set<Seq<char>> {
    Set::new(|k: Seq<char>| m.contains_key(k) && lease_past_due(m[k].owner, now))
}

} // verus!
