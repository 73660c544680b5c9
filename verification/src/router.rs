//! What the world does on each kind of frame that a client sends.
//!
//! Every handler changes the world and returns the frames to queue and the commands for the
//! physics engine. Nothing here touches the engine or a session: the commands take effect in
//! the next tick's physics phase.

use crate::dynamic_objects::{lease_blocks, lease_held, DynamicObject};
use crate::game_state::{AppState, Reaction, WorldView};
use crate::ids::id_text;
use crate::ids::parse_id;
use crate::ids::uuid_parsed;
use crate::ids::uuid_text;
use crate::dynamic_objects::{body_names, grabbed_keys, names_body, ObjectBody};
use crate::game_state::dynamic_commands;
use crate::messages::{
    ClientMessage, Outbound, Position, Recipients, Rotation, ServerMessage, Velocity,
};
use crate::origin::{
    local_of, needs_recenter, to_local, world_of, LocalVector, Quaternion, WorldVector,
};
use crate::physics::{in_water, BodyState, PhysicsCommand, RigidBodyHandle};
use crate::player::{addressed, origin_update, sender_world, Player};
use crate::chance::random_draw;
use crate::store::lists_keys;
use crate::text::{contains_text, has_part, same_text};
use crate::vehicles::Vehicle;
use vstd::prelude::*;
use vstd::string::StringExecFns;

verus! {

/// How long the lease that comes with a push lasts, in milliseconds.
pub const PUSH_LEASE_MS: u64 = 5_000;

/// The upward part of a push, in thousandths, above which the push also lifts.
pub const LIFT_THRESHOLD: i32 = 100;

/// The most that a released or thrown object is set spinning about each axis, in thousandths
/// of a radian per second.
pub const MAX_SPIN: i32 = 2_500;

/// Whether `player_id` may push the object at `now`: it holds a running lease on it, or the
/// object is free and nobody else holds a running lease on it.
pub open spec fn push_allowed(o: DynamicObject, player_id: u128, now: u64) -> bool {
    lease_held(o.owner, player_id, now) || (o.grabbed_by is None && !lease_blocks(
        o.owner,
        player_id,
        now,
    ))
}

/// Whether a push by `player_id` at `now` comes with a new lease: the push is allowed and
/// `player_id` does not hold a running lease yet.
pub open spec fn push_grants(o: DynamicObject, player_id: u128, now: u64) -> bool {
    push_allowed(o, player_id, now) && !lease_held(o.owner, player_id, now)
}

/// While one participant holds a running lease on an object, no other participant may grab
/// or push it; and what a participant has grabbed, nobody else may push, however the lease
/// stands.
pub proof fn lemma_lease_excludes(o: DynamicObject, holder: u128, other: u128, now: u64)
    requires
        holder != other,
    ensures
        lease_held(o.owner, holder, now) ==> !o.grabbable_by(other, now) && !push_allowed(
            o,
            other,
            now,
        ),
        o.coherent() && o.grabbed_by is Some && o.grabbed_by->0.participant == holder
            ==> !push_allowed(o, other, now) && !o.grabbable_by(other, now),
{
}

/// The commands `commands` for the body `body`, or none where there is no body.
pub open spec fn for_body(
    body: Option<RigidBodyHandle>,
    commands: spec_fn(RigidBodyHandle) -> Seq<PhysicsCommand>,
) -> Seq<PhysicsCommand> {
    match body {
        Some(b) => commands(b),
        None => Seq::empty(),
    }
}

/// `frame` tells `player_id`, and nobody else, that it has been given a lease on the object.
pub open spec fn is_granted_frame(frame: Outbound, object_id: Seq<char>, player_id: u128) -> bool {
    &&& frame.to == Recipients::One(player_id)
    &&& match frame.message {
        ServerMessage::ObjectOwnershipGranted { object_id: o, player_id: p, duration_ms } => {
            o@ == object_id && p@ == uuid_text(player_id) && duration_ms == PUSH_LEASE_MS
        },
        _ => false,
    }
}

/// `frame` tells `player_id`, and nobody else, that its grab has failed for `reason`.
pub open spec fn is_failed_frame(
    frame: Outbound,
    object_id: Seq<char>,
    player_id: u128,
    reason: Seq<char>,
) -> bool {
    &&& frame.to == Recipients::One(player_id)
    &&& match frame.message {
        ServerMessage::GrabFailed { object_id: o, reason: r } => o@ == object_id && r@ == reason,
        _ => false,
    }
}

/// `frame` tells everyone that `player_id` has grabbed the object by `offset`.
pub open spec fn is_grabbed_frame(
    frame: Outbound,
    object_id: Seq<char>,
    player_id: u128,
    offset: Position,
) -> bool {
    &&& frame.to == Recipients::All
    &&& match frame.message {
        ServerMessage::ObjectGrabbed { object_id: o, player_id: p, grab_offset } => {
            o@ == object_id && p@ == uuid_text(player_id) && grab_offset == offset
        },
        _ => false,
    }
}

/// `frame` tells everyone but `player_id` that the object is held at `position`.
pub open spec fn is_moved_frame(
    frame: Outbound,
    object_id: Seq<char>,
    player_id: u128,
    position: Position,
) -> bool {
    &&& frame.to == Recipients::AllExcept(player_id)
    &&& match frame.message {
        ServerMessage::ObjectMoved { object_id: o, position: p, rotation } => {
            o@ == object_id && p == position && rotation == (Rotation {
                x: 0,
                y: 0,
                z: 0,
                w: 1000,
            })
        },
        _ => false,
    }
}

/// `frame` tells everyone that `player_id` has let go of the object.
pub open spec fn is_released_frame(frame: Outbound, object_id: Seq<char>, player_id: u128) -> bool {
    &&& frame.to == Recipients::All
    &&& match frame.message {
        ServerMessage::ObjectReleased { object_id: o, player_id: p, position, velocity } => {
            o@ == object_id && p@ == uuid_text(player_id) && position == (Position {
                x: 0,
                y: 0,
                z: 0,
            }) && velocity is None
        },
        _ => false,
    }
}

/// `frame` tells everyone that `player_id` has thrown the object from `position` with
/// `velocity`, spinning with `spin`.
pub open spec fn is_thrown_frame(
    frame: Outbound,
    object_id: Seq<char>,
    player_id: u128,
    position: Position,
    velocity: Velocity,
    spin: LocalVector,
) -> bool {
    &&& frame.to == Recipients::All
    &&& match frame.message {
        ServerMessage::ObjectThrown {
            object_id: o,
            player_id: p,
            position: at,
            velocity: v,
            angular_velocity,
        } => {
            o@ == object_id && p@ == uuid_text(player_id) && at == position && v == velocity
                && angular_velocity == (Velocity { x: spin.x, y: spin.y, z: spin.z })
        },
        _ => false,
    }
}

/// Whether `player_id` has the object under `object_id` grabbed.
pub open spec fn holds(w: WorldView, object_id: Seq<char>, player_id: u128) -> bool {
    w.objects.contains_key(object_id) && w.objects[object_id].grabbed_by is Some
        && w.objects[object_id].grabbed_by->0.participant == player_id
}

/// Whether each part of `spin` is within the most that an object is set spinning.
pub open spec fn is_spin(spin: LocalVector) -> bool {
    &&& -MAX_SPIN <= spin.x <= MAX_SPIN
    &&& -MAX_SPIN <= spin.y <= MAX_SPIN
    &&& -MAX_SPIN <= spin.z <= MAX_SPIN
}

/// What a push does: see `AppState::push_object`.
pub open spec fn push_outcome(
    w: WorldView,
    after: WorldView,
    frames: Seq<Outbound>,
    commands: Seq<PhysicsCommand>,
    player_id: u128,
    object_id: Seq<char>,
    force: Velocity,
    point: Position,
    now: u64,
) -> bool {
        let known = w.objects.contains_key(object_id);
        let o = w.objects[object_id];
        let allowed = known && push_allowed(o, player_id, now);
        let grants = known && push_grants(o, player_id, now);
        &&& after == (if grants {
            WorldView {
                objects: w.objects.insert(
                    object_id,
                    o.granted(player_id, PUSH_LEASE_MS, now),
                ),
                ..w
            }
        } else {
            w
        })
        &&& frames.len() == (if grants {
            1nat
        } else {
            0nat
        })
        &&& grants ==> is_granted_frame(frames[0], object_id, player_id)
        &&& commands =~= (if allowed {
            for_body(
                o.body_handle,
                |b: RigidBodyHandle|
                    seq![
                        PhysicsCommand::Push {
                            body: b,
                            force: LocalVector { x: force.x, y: force.y, z: force.z },
                            point: LocalVector { x: point.x, y: point.y, z: point.z },
                            lift: force.y > LIFT_THRESHOLD,
                        },
                    ],
            )
        } else {
            Seq::empty()
        })
}

/// What a grab does: see `AppState::grab_object`.
pub open spec fn grab_outcome(
    w: WorldView,
    after: WorldView,
    frames: Seq<Outbound>,
    commands: Seq<PhysicsCommand>,
    player_id: u128,
    object_id: Seq<char>,
    grab_point: Position,
    now: u64,
) -> bool {
        let known = w.objects.contains_key(object_id);
        let o = w.objects[object_id];
        let ok = known && o.grabbable_by(player_id, now);
        let offset = LocalVector { x: grab_point.x, y: grab_point.y, z: grab_point.z };
        &&& after == (if ok {
            WorldView {
                objects: w.objects.insert(object_id, o.grabbed(player_id, offset, now)),
                ..w
            }
        } else {
            w
        })
        &&& frames.len() == 1
        &&& ok ==> is_grabbed_frame(frames[0], object_id, player_id, grab_point)
        &&& !known ==> is_failed_frame(
            frames[0],
            object_id,
            player_id,
            "Object not found"@,
        )
        &&& known && !ok ==> is_failed_frame(
            frames[0],
            object_id,
            player_id,
            "already grabbed"@,
        )
        &&& commands =~= (if ok {
            for_body(
                o.body_handle,
                |b: RigidBodyHandle| seq![PhysicsCommand::SetBodyKinematic { body: b }],
            )
        } else {
            Seq::empty()
        })
}

/// What the move of a grabbed object does: see `AppState::move_grabbed_object`.
pub open spec fn move_outcome(
    w: WorldView,
    after: WorldView,
    frames: Seq<Outbound>,
    commands: Seq<PhysicsCommand>,
    player_id: u128,
    object_id: Seq<char>,
    target_position: Position,
    now: u64,
) -> bool {
        let o = w.objects[object_id];
        let ok = holds(w, object_id, player_id) && o.grab_offset is Some;
        let target = LocalVector {
            x: target_position.x,
            y: target_position.y,
            z: target_position.z,
        };
        &&& after == (if ok {
            WorldView { objects: w.objects.insert(object_id, o.moved_to(target, now)), ..w }
        } else {
            w
        })
        &&& frames.len() == (if ok {
            1nat
        } else {
            0nat
        })
        &&& ok ==> is_moved_frame(frames[0], object_id, player_id, target_position)
        &&& commands =~= (if ok {
            for_body(
                o.body_handle,
                |b: RigidBodyHandle|
                    seq![
                        PhysicsCommand::SetNextKinematicTranslation {
                            body: b,
                            target: o.moved_to(target, now).position,
                        },
                    ],
            )
        } else {
            Seq::empty()
        })
}

/// What a release does: see `AppState::release_object_with`.
pub open spec fn release_outcome(
    w: WorldView,
    after: WorldView,
    frames: Seq<Outbound>,
    commands: Seq<PhysicsCommand>,
    player_id: u128,
    object_id: Seq<char>,
    spin: LocalVector,
) -> bool {
        let o = w.objects[object_id];
        let ok = holds(w, object_id, player_id);
        &&& after == (if ok {
            WorldView { objects: w.objects.insert(object_id, o.released()), ..w }
        } else {
            w
        })
        &&& frames.len() == (if ok {
            1nat
        } else {
            0nat
        })
        &&& ok ==> is_released_frame(frames[0], object_id, player_id)
        &&& commands =~= (if ok {
            for_body(
                o.body_handle,
                |b: RigidBodyHandle|
                    seq![
                        PhysicsCommand::SetBodyDynamic { body: b },
                        PhysicsCommand::SetAngularVelocity { body: b, velocity: spin },
                    ],
            )
        } else {
            Seq::empty()
        })
}

/// What a throw does: see `AppState::throw_object_with`.
pub open spec fn throw_outcome(
    w: WorldView,
    after: WorldView,
    frames: Seq<Outbound>,
    commands: Seq<PhysicsCommand>,
    player_id: u128,
    object_id: Seq<char>,
    throw_force: Velocity,
    release_point: Position,
    spin: LocalVector,
) -> bool {
        let o = w.objects[object_id];
        let ok = holds(w, object_id, player_id);
        &&& after == (if ok {
            WorldView { objects: w.objects.insert(object_id, o.released()), ..w }
        } else {
            w
        })
        &&& frames.len() == (if ok {
            1nat
        } else {
            0nat
        })
        &&& ok ==> is_thrown_frame(
            frames[0],
            object_id,
            player_id,
            release_point,
            throw_force,
            spin,
        )
        &&& commands =~= (if ok {
            for_body(
                o.body_handle,
                |b: RigidBodyHandle|
                    seq![
                        PhysicsCommand::SetBodyDynamic { body: b },
                        PhysicsCommand::SetLinearVelocity {
                            body: b,
                            velocity: LocalVector {
                                x: throw_force.x,
                                y: throw_force.y,
                                z: throw_force.z,
                            },
                        },
                        PhysicsCommand::SetAngularVelocity { body: b, velocity: spin },
                    ],
            )
        } else {
            Seq::empty()
        })
}

/// The spin about one axis that the draw `draw` stands for.
pub fn spin_part(draw: u32) -> (r: i32)
    ensures
        r == draw % 5001 - MAX_SPIN,
        -MAX_SPIN <= r <= MAX_SPIN,
{
    let m: u32 = draw % 5001;
    m as i32 - MAX_SPIN
}

/// A spin drawn at random, within the most that an object is set spinning.
pub fn random_spin() -> (r: LocalVector)
    ensures
        is_spin(r),
{
    let x = spin_part(random_draw());
    let y = spin_part(random_draw());
    let z = spin_part(random_draw());
    LocalVector { x, y, z }
}

impl Reaction {
    /// Nothing to send and nothing to do.
    pub fn none() -> (r: Reaction)
        ensures
            r.frames@.len() == 0,
            r.commands@.len() == 0,
    {
        Reaction { frames: Vec::new(), commands: Vec::new() }
    }
}

impl AppState {
    /// Participant `player_id` pushes the object under `object_id` with `force` at the point
    /// `point` of the object. The push is carried out if the participant holds a running
    /// lease on the object, or if the object is free and nobody else holds one; in the
    /// second case the participant is first given a lease of five seconds and told so. A
    /// push on an object that is not there, or that someone else has authority over, is
    /// dropped.
    pub fn push_object(
        &mut self,
        player_id: u128,
        object_id: &str,
        force: Velocity,
        point: Position,
        now: u64,
    ) -> (r: Reaction)
        ensures
            push_outcome(
                old(self)@,
                final(self)@,
                r.frames@,
                r.commands@,
                player_id,
                object_id@,
                force,
                point,
                now,
            ),
            old(self).wf() ==> final(self).wf(),
    {
        let mut r = Reaction::none();
        let object = match self.dynamic_objects.get_object(object_id) {
            Some(o) => o,
            None => {
                return r;
            },
        };
        let is_owner = object.check_ownership(player_id, now);
        if !is_owner {
            let blocked = match &object.owner {
                Some(lease) => lease.participant != player_id && now < lease.expires_at,
                None => false,
            };
            if object.is_grabbed() || blocked {
                return r;
            }
            self.dynamic_objects.grant_ownership(object_id, player_id, PUSH_LEASE_MS, now);
            proof {
                assert(self.dynamic_objects.coherent() || !old(self).wf()) by {
                    if old(self).wf() {
                        assert forall|k: Seq<char>| #[trigger]
                            self.dynamic_objects@.contains_key(k) implies self.dynamic_objects@[k].coherent() by {
                            if k != object_id@ {
                                assert(old(self).dynamic_objects@.contains_key(k));
                            } else {
                                assert(old(self).dynamic_objects@.contains_key(object_id@));
                            }
                        }
                    }
                }
            }
            r.frames.push(
                Outbound {
                    to: Recipients::One(player_id),
                    message: ServerMessage::ObjectOwnershipGranted {
                        object_id: String::from_str(object_id),
                        player_id: id_text(player_id),
                        duration_ms: PUSH_LEASE_MS,
                    },
                },
            );
        }
        match object.body_handle {
            Some(body) => {
                r.commands.push(
                    PhysicsCommand::Push {
                        body,
                        force: force.to_vector(),
                        point: point.to_vector(),
                        lift: force.y > LIFT_THRESHOLD,
                    },
                );
                proof {
                    assert(r.commands@ =~= seq![
                        PhysicsCommand::Push {
                            body,
                            force: LocalVector { x: force.x, y: force.y, z: force.z },
                            point: LocalVector { x: point.x, y: point.y, z: point.z },
                            lift: force.y > LIFT_THRESHOLD,
                        },
                    ]);
                }
            },
            None => {},
        }
        r
    }

    /// Participant `player_id` grabs the object under `object_id` by the point
    /// `grab_point`. The grab succeeds if the object is free and nobody else holds a running
    /// lease on it: the object is then grabbed and leased to the participant for thirty
    /// seconds, its body comes under kinematic control, and everyone is told. Otherwise the
    /// participant alone is told that the grab failed, and why.
    pub fn grab_object(&mut self, player_id: u128, object_id: &str, grab_point: Position, now: u64) -> (r:
        Reaction)
        ensures
            grab_outcome(
                old(self)@,
                final(self)@,
                r.frames@,
                r.commands@,
                player_id,
                object_id@,
                grab_point,
                now,
            ),
            old(self).wf() ==> final(self).wf(),
    {
        let mut r = Reaction::none();
        let object = match self.dynamic_objects.get_object(object_id) {
            Some(o) => o,
            None => {
                r.frames.push(
                    Outbound {
                        to: Recipients::One(player_id),
                        message: ServerMessage::GrabFailed {
                            object_id: String::from_str(object_id),
                            reason: String::from_str("Object not found"),
                        },
                    },
                );
                return r;
            },
        };
        if self.dynamic_objects.grab_object(object_id, player_id, grab_point.to_vector(), now) {
            match object.body_handle {
                Some(body) => {
                    r.commands.push(PhysicsCommand::SetBodyKinematic { body });
                    proof {
                        assert(r.commands@ =~= seq![PhysicsCommand::SetBodyKinematic { body }]);
                    }
                },
                None => {},
            }
            r.frames.push(
                Outbound {
                    to: Recipients::All,
                    message: ServerMessage::ObjectGrabbed {
                        object_id: String::from_str(object_id),
                        player_id: id_text(player_id),
                        grab_offset: grab_point,
                    },
                },
            );
        } else {
            r.frames.push(
                Outbound {
                    to: Recipients::One(player_id),
                    message: ServerMessage::GrabFailed {
                        object_id: String::from_str(object_id),
                        reason: String::from_str("already grabbed"),
                    },
                },
            );
        }
        r
    }

    /// Participant `player_id` moves the object under `object_id`, which it has grabbed, so
    /// that the point it is held by comes to lie at `target_position`. The body is sent
    /// there over the next step, and everyone else is told. The move of an object that the
    /// participant does not hold is dropped.
    pub fn move_grabbed_object(
        &mut self,
        player_id: u128,
        object_id: &str,
        target_position: Position,
        now: u64,
    ) -> (r: Reaction)
        ensures
            move_outcome(
                old(self)@,
                final(self)@,
                r.frames@,
                r.commands@,
                player_id,
                object_id@,
                target_position,
                now,
            ),
            old(self).wf() ==> final(self).wf(),
    {
        let mut r = Reaction::none();
        if self.dynamic_objects.move_grabbed_object(
            object_id,
            player_id,
            target_position.to_vector(),
            now,
        ) {
            match self.dynamic_objects.get_object(object_id) {
                Some(object) => {
                    match object.body_handle {
                        Some(body) => {
                            r.commands.push(
                                PhysicsCommand::SetNextKinematicTranslation {
                                    body,
                                    target: object.position,
                                },
                            );
                            proof {
                                assert(r.commands@ =~= seq![
                                    PhysicsCommand::SetNextKinematicTranslation {
                                        body,
                                        target: object.position,
                                    },
                                ]);
                            }
                        },
                        None => {},
                    }
                },
                None => {},
            }
            r.frames.push(
                Outbound {
                    to: Recipients::AllExcept(player_id),
                    message: ServerMessage::ObjectMoved {
                        object_id: String::from_str(object_id),
                        position: target_position,
                        rotation: Rotation { x: 0, y: 0, z: 0, w: 1000 },
                    },
                },
            );
        }
        r
    }

    /// Participant `player_id` lets go of the object under `object_id`, which it has
    /// grabbed. The body is handed back to the simulation, set spinning with `spin`, and
    /// everyone is told. The lease stays. The release of an object that the participant does
    /// not hold is dropped.
    pub fn release_object_with(&mut self, player_id: u128, object_id: &str, spin: LocalVector) -> (r:
        Reaction)
        ensures
            release_outcome(
                old(self)@,
                final(self)@,
                r.frames@,
                r.commands@,
                player_id,
                object_id@,
                spin,
            ),
            old(self).wf() ==> final(self).wf(),
    {
        let mut r = Reaction::none();
        let object = self.dynamic_objects.get_object(object_id);
        if self.dynamic_objects.release_object(object_id, player_id) {
            match object {
                Some(object) => {
                    match object.body_handle {
                        Some(body) => {
                            r.commands.push(PhysicsCommand::SetBodyDynamic { body });
                            r.commands.push(
                                PhysicsCommand::SetAngularVelocity { body, velocity: spin },
                            );
                            proof {
                                assert(r.commands@ =~= seq![
                                    PhysicsCommand::SetBodyDynamic { body },
                                    PhysicsCommand::SetAngularVelocity { body, velocity: spin },
                                ]);
                            }
                        },
                        None => {},
                    }
                },
                None => {},
            }
            r.frames.push(
                Outbound {
                    to: Recipients::All,
                    message: ServerMessage::ObjectReleased {
                        object_id: String::from_str(object_id),
                        player_id: id_text(player_id),
                        position: Position { x: 0, y: 0, z: 0 },
                        velocity: None,
                    },
                },
            );
        }
        r
    }

    /// Participant `player_id` throws the object under `object_id`, which it has grabbed,
    /// from `release_point` with the velocity `throw_force`. The body is handed back to the
    /// simulation with that velocity, set spinning with `spin`, and everyone is told. The
    /// lease stays. The throw of an object that the participant does not hold is dropped.
    pub fn throw_object_with(
        &mut self,
        player_id: u128,
        object_id: &str,
        throw_force: Velocity,
        release_point: Position,
        spin: LocalVector,
    ) -> (r: Reaction)
        ensures
            throw_outcome(
                old(self)@,
                final(self)@,
                r.frames@,
                r.commands@,
                player_id,
                object_id@,
                throw_force,
                release_point,
                spin,
            ),
            old(self).wf() ==> final(self).wf(),
    {
        let mut r = Reaction::none();
        let object = self.dynamic_objects.get_object(object_id);
        if self.dynamic_objects.release_object(object_id, player_id) {
            match object {
                Some(object) => {
                    match object.body_handle {
                        Some(body) => {
                            r.commands.push(PhysicsCommand::SetBodyDynamic { body });
                            r.commands.push(
                                PhysicsCommand::SetLinearVelocity {
                                    body,
                                    velocity: throw_force.to_vector(),
                                },
                            );
                            r.commands.push(
                                PhysicsCommand::SetAngularVelocity { body, velocity: spin },
                            );
                            proof {
                                assert(r.commands@ =~= seq![
                                    PhysicsCommand::SetBodyDynamic { body },
                                    PhysicsCommand::SetLinearVelocity {
                                        body,
                                        velocity: LocalVector {
                                            x: throw_force.x,
                                            y: throw_force.y,
                                            z: throw_force.z,
                                        },
                                    },
                                    PhysicsCommand::SetAngularVelocity { body, velocity: spin },
                                ]);
                            }
                        },
                        None => {},
                    }
                },
                None => {},
            }
            r.frames.push(
                Outbound {
                    to: Recipients::All,
                    message: ServerMessage::ObjectThrown {
                        object_id: String::from_str(object_id),
                        player_id: id_text(player_id),
                        position: release_point,
                        velocity: throw_force,
                        angular_velocity: Velocity::from_vector(&spin),
                    },
                },
            );
        }
        r
    }
}

/// How much a pickup of health heals, in thousandths of a point.
pub const HEALTH_PICKUP: u32 = 50_000;

/// How much armor a pickup of armor gives, in thousandths of a point.
pub const ARMOR_PICKUP: u32 = 50_000;

/// The damage that a hit with a weapon of type `weapon_type` does, in thousandths of a point.
pub open spec fn weapon_damage(weapon_type: Seq<char>) -> u32 {
    if weapon_type == "pistol"@ {
        25_000
    } else if weapon_type == "rifle"@ {
        35_000
    } else if weapon_type == "shotgun"@ {
        80_000
    } else if weapon_type == "sniper"@ {
        120_000
    } else if weapon_type == "grenadeLauncher"@ {
        150_000
    } else if weapon_type == "rocketLauncher"@ {
        200_000
    } else {
        10_000
    }
}

/// The damage that a hit with a weapon of type `weapon_type` does.
pub fn damage_of(weapon_type: &str) -> (r: u32)
    ensures
        r == weapon_damage(weapon_type@),
{
    if same_text(weapon_type, "pistol") {
        25_000
    } else if same_text(weapon_type, "rifle") {
        35_000
    } else if same_text(weapon_type, "shotgun") {
        80_000
    } else if same_text(weapon_type, "sniper") {
        120_000
    } else if same_text(weapon_type, "grenadeLauncher") {
        150_000
    } else if same_text(weapon_type, "rocketLauncher") {
        200_000
    } else {
        10_000
    }
}

/// The participant that a shot by `shooter` has hit: the one that the frame names as `hit`
/// and that is known under `hit_id`, if that is a participant other than the shooter.
pub open spec fn shot_target(
    w: WorldView,
    shooter: u128,
    hit: Option<Seq<char>>,
    hit_id: Option<u128>,
) -> Option<u128> {
    if hit is Some && hit_id is Some && hit_id->0 != shooter && w.players.contains_key(hit_id->0) {
        hit_id
    } else {
        None
    }
}

/// The participant that the text `hit` names, if it names one.
pub open spec fn named_participant(hit: Option<Seq<char>>) -> Option<u128> {
    match hit {
        Some(t) => uuid_parsed(t),
        None => None,
    }
}

/// `frame` tells everyone that the participant named `victim` has taken `damage` from a
/// weapon of type `weapon_type` in the hands of `shooter`, and what health and armor it has
/// left.
pub open spec fn is_damaged_frame(
    frame: Outbound,
    victim: Seq<char>,
    damage: u32,
    weapon_type: Seq<char>,
    shooter: u128,
    health: u32,
    armor: u32,
) -> bool {
    &&& frame.to == Recipients::All
    &&& match frame.message {
        ServerMessage::PlayerDamaged {
            player_id,
            damage: d,
            damage_type,
            attacker_id,
            health: h,
            armor: a,
        } => {
            &&& player_id@ == victim
            &&& d == damage
            &&& damage_type is Some && damage_type->0@ == weapon_type
            &&& attacker_id is Some && attacker_id->0@ == uuid_text(shooter)
            &&& h == health
            &&& a == armor
        },
        _ => false,
    }
}

/// `frame` tells everyone that the participant named `victim` has been killed by `shooter`
/// with a weapon of type `weapon_type`.
pub open spec fn is_killed_frame(
    frame: Outbound,
    victim: Seq<char>,
    weapon_type: Seq<char>,
    shooter: u128,
) -> bool {
    &&& frame.to == Recipients::All
    &&& match frame.message {
        ServerMessage::PlayerKilled { player_id, killer_id, weapon_type: t } => {
            &&& player_id@ == victim
            &&& killer_id is Some && killer_id->0@ == uuid_text(shooter)
            &&& t is Some && t->0@ == weapon_type
        },
        _ => false,
    }
}

/// `frame` tells everyone but `shooter` that `shooter` has fired.
pub open spec fn is_fire_frame(
    frame: Outbound,
    shooter: u128,
    weapon_type: Seq<char>,
    origin: Position,
    direction: Velocity,
) -> bool {
    &&& frame.to == Recipients::AllExcept(shooter)
    &&& match frame.message {
        ServerMessage::WeaponFire { player_id, weapon_type: t, origin: o, direction: d, projectile_id } => {
            &&& player_id@ == uuid_text(shooter)
            &&& t@ == weapon_type
            &&& o == origin
            &&& d == direction
            &&& projectile_id is None
        },
        _ => false,
    }
}

/// What a shot does: see `AppState::fire_weapon_at`.
pub open spec fn fire_outcome(
    w: WorldView,
    after: WorldView,
    frames: Seq<Outbound>,
    commands: Seq<PhysicsCommand>,
    player_id: u128,
    weapon_type: Seq<char>,
    origin: Position,
    direction: Velocity,
    hit: Option<Seq<char>>,
    hit_id: Option<u128>,
    now: u64,
) -> bool {
    let silenced = w.players.contains_key(player_id) && w.players[player_id].is_dead;
    let target = shot_target(w, player_id, hit, hit_id);
    let damage = weapon_damage(weapon_type);
    let victim = w.players[target->0].damaged(damage, now);
    &&& commands.len() == 0
    &&& silenced ==> after == w && frames.len() == 0
    &&& !silenced && target is None ==> after == w && frames.len() == 1
    &&& !silenced && target is Some ==> after == (WorldView {
        players: w.players.insert(target->0, victim),
        ..w
    }) && frames.len() == (if victim.is_dead {
        3nat
    } else {
        2nat
    }) && is_damaged_frame(
        frames[0],
        hit->0,
        damage,
        weapon_type,
        player_id,
        victim.health,
        victim.armor,
    ) && (victim.is_dead ==> is_killed_frame(frames[1], hit->0, weapon_type, player_id))
    &&& !silenced ==> is_fire_frame(frames.last(), player_id, weapon_type, origin, direction)
}

/// `frame` tells everyone that `player_id` has picked up the item.
pub open spec fn is_picked_frame(frame: Outbound, item_id: Seq<char>, player_id: u128) -> bool {
    &&& frame.to == Recipients::All
    &&& match frame.message {
        ServerMessage::ItemPickedUp { item_id: i, player_id: p } => {
            i@ == item_id && p@ == uuid_text(player_id)
        },
        _ => false,
    }
}

/// `frame` tells `player_id`, and nobody else, what health and armor it has.
pub open spec fn is_health_frame(
    frame: Outbound,
    player_id: u128,
    health: u32,
    armor: u32,
) -> bool {
    &&& frame.to == Recipients::One(player_id)
    &&& match frame.message {
        ServerMessage::PlayerHealth { player_id: p, health: h, armor: a } => {
            p@ == uuid_text(player_id) && h == health && a == armor
        },
        _ => false,
    }
}

/// The participant after picking up the item named `item_id`: healed by an item of health,
/// armored by an item of armor, else as before.
pub open spec fn after_item(p: Player, item_id: Seq<char>) -> Player {
    if has_part(item_id, "health"@) {
        p.with_heal(HEALTH_PICKUP)
    } else if has_part(item_id, "armor"@) {
        p.with_armor(ARMOR_PICKUP)
    } else {
        p
    }
}

/// What a pickup does: see `AppState::pickup_item`.
pub open spec fn pickup_outcome(
    w: WorldView,
    after: WorldView,
    frames: Seq<Outbound>,
    commands: Seq<PhysicsCommand>,
    player_id: u128,
    item_id: Seq<char>,
    now: u64,
) -> bool {
    let alive = w.players.contains_key(player_id) && !w.players[player_id].is_dead;
    let got = alive && w.pools.offers(item_id);
    let p = after_item(w.players[player_id], item_id);
    &&& commands.len() == 0
    &&& !got ==> after == w && frames.len() == 0
    &&& got ==> after == (WorldView {
        pools: w.pools.after_pickup(item_id, now),
        players: w.players.insert(player_id, p),
        ..w
    }) && frames.len() == 2 && is_picked_frame(frames[0], item_id, player_id) && is_health_frame(
        frames[1],
        player_id,
        p.health,
        p.armor,
    )
}

/// What a request to respawn does: see `AppState::request_respawn`.
pub open spec fn respawn_request_outcome(
    w: WorldView,
    after: WorldView,
    frames: Seq<Outbound>,
    commands: Seq<PhysicsCommand>,
    player_id: u128,
    now: u64,
) -> bool {
    let taken = w.players.contains_key(player_id) && w.players[player_id].is_dead
        && w.players[player_id].respawn_time is None;
    &&& commands.len() == 0
    &&& frames.len() == 0
    &&& after == (if taken {
        WorldView {
            players: w.players.insert(
                player_id,
                Player { respawn_time: Some(now), ..w.players[player_id] },
            ),
            ..w
        }
    } else {
        w
    })
}

/// `frame` tells everyone but `player_id` that `player_id` has entered the vehicle.
pub open spec fn is_entered_frame(frame: Outbound, player_id: u128, vehicle_id: Seq<char>) -> bool {
    &&& frame.to == Recipients::AllExcept(player_id)
    &&& match frame.message {
        ServerMessage::PlayerEnteredVehicle { player_id: p, vehicle_id: v } => {
            p@ == uuid_text(player_id) && v@ == vehicle_id
        },
        _ => false,
    }
}

/// `frame` tells everyone but `player_id` that `player_id` has left the vehicle at
/// `exit_position`.
pub open spec fn is_exited_frame(
    frame: Outbound,
    player_id: u128,
    vehicle_id: Seq<char>,
    exit_position: Position,
) -> bool {
    &&& frame.to == Recipients::AllExcept(player_id)
    &&& match frame.message {
        ServerMessage::PlayerExitedVehicle { player_id: p, vehicle_id: v, exit_position: at } => {
            p@ == uuid_text(player_id) && v@ == vehicle_id && at == exit_position
        },
        _ => false,
    }
}

/// What entering a vehicle does: see `AppState::enter_vehicle`.
pub open spec fn enter_outcome(
    w: WorldView,
    after: WorldView,
    frames: Seq<Outbound>,
    commands: Seq<PhysicsCommand>,
    player_id: u128,
    vehicle_id: String,
) -> bool {
    let ok = w.players.contains_key(player_id) && w.vehicles.contains_key(vehicle_id@)
        && !w.vehicles[vehicle_id@].is_destroyed;
    &&& commands.len() == 0
    &&& !ok ==> after == w && frames.len() == 0
    &&& ok ==> after == (WorldView {
        players: w.players.insert(
            player_id,
            Player { current_vehicle_id: Some(vehicle_id), ..w.players[player_id] },
        ),
        vehicles: w.vehicles.insert(
            vehicle_id@,
            Vehicle { pilot_id: Some(player_id), ..w.vehicles[vehicle_id@] },
        ),
        ..w
    }) && frames.len() == 1 && is_entered_frame(frames[0], player_id, vehicle_id@)
}

/// The text of the participant `id`, if there is one.
pub open spec fn text_of(id: Option<u128>) -> Option<Seq<char>> {
    match id {
        Some(p) => Some(uuid_text(p)),
        None => None,
    }
}

/// The characters of `text`, if there is one.
pub open spec fn chars_of(text: Option<String>) -> Option<Seq<char>> {
    match text {
        Some(t) => Some(t@),
        None => None,
    }
}

/// `frame` tells everyone that the vehicle has taken `damage` from `attacker`, and what
/// health it has left.
pub open spec fn is_vehicle_damaged_frame(
    frame: Outbound,
    vehicle_id: Seq<char>,
    damage: u32,
    health: u32,
    attacker: Option<u128>,
) -> bool {
    &&& frame.to == Recipients::All
    &&& match frame.message {
        ServerMessage::VehicleDamaged { vehicle_id: v, damage: d, health: h, attacker_id } => {
            v@ == vehicle_id && d == damage && h == health && chars_of(attacker_id) == text_of(
                attacker,
            )
        },
        _ => false,
    }
}

/// `frame` tells everyone that the vehicle has been destroyed by `attacker`.
pub open spec fn is_vehicle_destroyed_frame(
    frame: Outbound,
    vehicle_id: Seq<char>,
    attacker: Option<u128>,
) -> bool {
    &&& frame.to == Recipients::All
    &&& match frame.message {
        ServerMessage::VehicleDestroyed { vehicle_id: v, destroyer_id } => {
            v@ == vehicle_id && chars_of(destroyer_id) == text_of(attacker)
        },
        _ => false,
    }
}

/// What damage to a vehicle does: see `AppState::damage_vehicle`.
pub open spec fn vehicle_damage_outcome(
    w: WorldView,
    after: WorldView,
    frames: Seq<Outbound>,
    commands: Seq<PhysicsCommand>,
    vehicle_id: Seq<char>,
    damage: u32,
    attacker: Option<u128>,
    now: u64,
) -> bool {
    let hit = w.vehicles.contains_key(vehicle_id) && !w.vehicles[vehicle_id].is_destroyed;
    let v = w.vehicles[vehicle_id].damaged(damage, now);
    let pilot = w.vehicles[vehicle_id].pilot_id;
    let ejected = v.is_destroyed && pilot is Some && w.players.contains_key(pilot->0);
    &&& commands.len() == 0
    &&& !hit ==> after == w && frames.len() == 0
    &&& hit ==> after == (WorldView {
        vehicles: w.vehicles.insert(vehicle_id, v),
        players: if ejected {
            w.players.insert(
                pilot->0,
                Player { current_vehicle_id: None, ..w.players[pilot->0] },
            )
        } else {
            w.players
        },
        ..w
    }) && frames.len() == (if v.is_destroyed {
        2nat
    } else {
        1nat
    }) && is_vehicle_damaged_frame(frames[0], vehicle_id, damage, v.health, attacker) && (
    v.is_destroyed ==> is_vehicle_destroyed_frame(frames[1], vehicle_id, attacker))
}

/// The place where a participant is put on leaving a vehicle: the one it asks for, or the
/// origin of its frame.
pub open spec fn exit_place(exit_position: Option<Position>) -> Position {
    match exit_position {
        Some(p) => p,
        None => Position { x: 0, y: 0, z: 0 },
    }
}

/// What leaving a vehicle does: see `AppState::exit_vehicle`.
pub open spec fn exit_outcome(
    w: WorldView,
    after: WorldView,
    frames: Seq<Outbound>,
    commands: Seq<PhysicsCommand>,
    player_id: u128,
    exit_position: Option<Position>,
) -> bool {
    let seated = w.players.contains_key(player_id) && w.players[player_id].current_vehicle_id is Some;
    let p = w.players[player_id];
    let v = p.current_vehicle_id->0@;
    let piloting = w.vehicles.contains_key(v) && w.vehicles[v].pilot_id == Some(player_id);
    let place = exit_place(exit_position);
    &&& !seated ==> after == w && frames.len() == 0 && commands.len() == 0
    &&& seated ==> after == (WorldView {
        players: w.players.insert(player_id, Player { current_vehicle_id: None, ..p }),
        vehicles: if piloting {
            w.vehicles.insert(v, Vehicle { pilot_id: None, ..w.vehicles[v] })
        } else {
            w.vehicles
        },
        ..w
    }) && frames.len() == 1 && is_exited_frame(frames[0], player_id, v, place) && commands
        =~= for_body(
        p.body_handle,
        |b: RigidBodyHandle|
            seq![
                PhysicsCommand::Teleport {
                    body: b,
                    position: LocalVector { x: place.x, y: place.y, z: place.z },
                },
            ],
    )
}

impl AppState {
    /// Participant `player_id` fires a weapon of type `weapon_type`, and reports in `hit`
    /// whom it has hit. The participant that `hit` names is looked up, and the shot is
    /// settled as `fire_weapon_at` says.
    pub fn fire_weapon(
        &mut self,
        player_id: u128,
        weapon_type: String,
        origin: Position,
        direction: Velocity,
        hit_player_id: Option<String>,
        now: u64,
    ) -> (r: Reaction)
        ensures
            fire_outcome(
                old(self)@,
                final(self)@,
                r.frames@,
                r.commands@,
                player_id,
                weapon_type@,
                origin,
                direction,
                chars_of(hit_player_id),
                named_participant(chars_of(hit_player_id)),
                now,
            ),
            old(self).wf() ==> final(self).wf(),
    {
        let hit_id = match &hit_player_id {
            Some(text) => parse_id(text.as_str()),
            None => None,
        };
        self.fire_weapon_at(player_id, weapon_type, origin, direction, hit_player_id, hit_id, now)
    }

    /// Participant `player_id` fires a weapon of type `weapon_type`, and reports that it has
    /// hit the participant that the frame names as `hit_player_id` and that is known under
    /// `hit_id`. A shot by the dead is dropped. A hit on another participant who is known
    /// does the damage of the weapon: everyone is told of the damage, and of the kill if the
    /// participant hit is dead after it. Everyone else is told of the shot.
    pub fn fire_weapon_at(
        &mut self,
        player_id: u128,
        weapon_type: String,
        origin: Position,
        direction: Velocity,
        hit_player_id: Option<String>,
        hit_id: Option<u128>,
        now: u64,
    ) -> (r: Reaction)
        ensures
            fire_outcome(
                old(self)@,
                final(self)@,
                r.frames@,
                r.commands@,
                player_id,
                weapon_type@,
                origin,
                direction,
                chars_of(hit_player_id),
                hit_id,
                now,
            ),
            old(self).wf() ==> final(self).wf(),
    {
        let mut r = Reaction::none();
        match self.players.get_player(player_id) {
            Some(shooter) => {
                if shooter.is_dead {
                    return r;
                }
            },
            None => {},
        }
        let damage = damage_of(weapon_type.as_str());
        match hit_player_id {
            Some(hit_text) => {
                match hit_id {
                    Some(hit_id) => {
                        if hit_id != player_id {
                            let died = self.players.damage_player(hit_id, damage, now);
                            match self.players.get_player(hit_id) {
                                Some(victim) => {
                                    r.frames.push(
                                        Outbound {
                                            to: Recipients::All,
                                            message: ServerMessage::PlayerDamaged {
                                                player_id: hit_text.clone(),
                                                damage,
                                                damage_type: Some(weapon_type.clone()),
                                                attacker_id: Some(id_text(player_id)),
                                                health: victim.health,
                                                armor: victim.armor,
                                            },
                                        },
                                    );
                                    if died {
                                        r.frames.push(
                                            Outbound {
                                                to: Recipients::All,
                                                message: ServerMessage::PlayerKilled {
                                                    player_id: hit_text,
                                                    killer_id: Some(id_text(player_id)),
                                                    weapon_type: Some(weapon_type.clone()),
                                                },
                                            },
                                        );
                                    }
                                },
                                None => {},
                            }
                        }
                    },
                    None => {},
                }
            },
            None => {},
        }
        r.frames.push(
            Outbound {
                to: Recipients::AllExcept(player_id),
                message: ServerMessage::WeaponFire {
                    player_id: id_text(player_id),
                    weapon_type,
                    origin,
                    direction,
                    projectile_id: None,
                },
            },
        );
        r
    }

    /// Participant `player_id` picks up the item under `item_id`. A pickup by the dead, or by
    /// a participant who is not known, is dropped, and so is one of an item that does not
    /// lie at its spawn point. Otherwise the item is taken, an item of health heals and an
    /// item of armor armors the participant, everyone is told of the pickup, and the
    /// participant is told its health and armor.
    pub fn pickup_item(&mut self, player_id: u128, item_id: String, now: u64) -> (r: Reaction)
        ensures
            pickup_outcome(
                old(self)@,
                final(self)@,
                r.frames@,
                r.commands@,
                player_id,
                item_id@,
                now,
            ),
            old(self).wf() ==> final(self).wf(),
    {
        let mut r = Reaction::none();
        let mut player = match self.players.get_player(player_id) {
            Some(p) => p,
            None => {
                return r;
            },
        };
        if player.is_dead {
            return r;
        }
        proof {
            assert(old(self)@.players.contains_key(player_id));
            if old(self).wf() {
                assert(player.wf());
            }
        }
        if self.spawn_manager.pickup_item(item_id.as_str(), now) {
            if contains_text(item_id.as_str(), "health") {
                player.heal(HEALTH_PICKUP);
            } else if contains_text(item_id.as_str(), "armor") {
                player.add_armor(ARMOR_PICKUP);
            }
            let health = player.health;
            let armor = player.armor;
            self.players.put_player(player_id, player);
            r.frames.push(
                Outbound {
                    to: Recipients::All,
                    message: ServerMessage::ItemPickedUp { item_id, player_id: id_text(player_id) },
                },
            );
            r.frames.push(
                Outbound {
                    to: Recipients::One(player_id),
                    message: ServerMessage::PlayerHealth {
                        player_id: id_text(player_id),
                        health,
                        armor,
                    },
                },
            );
        }
        r
    }

    /// Participant `player_id` asks to respawn: if it is dead and not yet waiting for a
    /// respawn, its respawn is due from `now` on.
    pub fn request_respawn(&mut self, player_id: u128, now: u64) -> (r: Reaction)
        ensures
            respawn_request_outcome(
                old(self)@,
                final(self)@,
                r.frames@,
                r.commands@,
                player_id,
                now,
            ),
            old(self).wf() ==> final(self).wf(),
    {
        let r = Reaction::none();
        match self.players.get_player(player_id) {
            Some(mut player) => {
                proof {
                    assert(old(self)@.players.contains_key(player_id));
                    if old(self).wf() {
                        assert(player.wf());
                    }
                }
                if player.request_respawn(now) {
                    self.players.put_player(player_id, player);
                }
            },
            None => {},
        }
        r
    }

    /// Participant `player_id` enters the vehicle under `vehicle_id`, if the participant is
    /// known and the vehicle is there and not destroyed: the participant becomes its pilot,
    /// and everyone else is told.
    pub fn enter_vehicle(&mut self, player_id: u128, vehicle_id: String) -> (r: Reaction)
        ensures
            enter_outcome(old(self)@, final(self)@, r.frames@, r.commands@, player_id, vehicle_id),
            old(self).wf() ==> final(self).wf(),
    {
        let mut r = Reaction::none();
        let mut player = match self.players.get_player(player_id) {
            Some(p) => p,
            None => {
                return r;
            },
        };
        proof {
            assert(old(self)@.players.contains_key(player_id));
            if old(self).wf() {
                assert(player.wf());
            }
        }
        if self.vehicles.enter(vehicle_id.as_str(), player_id) {
            player.current_vehicle_id = Some(vehicle_id.clone());
            self.players.put_player(player_id, player);
            r.frames.push(
                Outbound {
                    to: Recipients::AllExcept(player_id),
                    message: ServerMessage::PlayerEnteredVehicle {
                        player_id: id_text(player_id),
                        vehicle_id,
                    },
                },
            );
        }
        r
    }

    /// The vehicle under `vehicle_id` takes `damage` at `now`, from `attacker` if from anyone.
    /// Damage to a vehicle that is not there or is destroyed already is dropped. Otherwise
    /// everyone is told of the damage. At zero health the vehicle is destroyed: its pilot is
    /// out of it, its respawn is set for the delay of its kind from `now`, and everyone is
    /// told.
    pub fn damage_vehicle(
        &mut self,
        vehicle_id: &str,
        damage: u32,
        attacker: Option<u128>,
        now: u64,
    ) -> (r: Reaction)
        ensures
            vehicle_damage_outcome(
                old(self)@,
                final(self)@,
                r.frames@,
                r.commands@,
                vehicle_id@,
                damage,
                attacker,
                now,
            ),
            old(self).wf() ==> final(self).wf(),
    {
        let mut r = Reaction::none();
        let before = match self.vehicles.get_vehicle(vehicle_id) {
            Some(v) => v,
            None => {
                return r;
            },
        };
        let after = match self.vehicles.damage_vehicle(vehicle_id, damage, now) {
            Some(v) => v,
            None => {
                return r;
            },
        };
        r.frames.push(
            Outbound {
                to: Recipients::All,
                message: ServerMessage::VehicleDamaged {
                    vehicle_id: String::from_str(vehicle_id),
                    damage,
                    health: after.health,
                    attacker_id: match attacker {
                        Some(a) => Some(id_text(a)),
                        None => None,
                    },
                },
            },
        );
        if after.is_destroyed {
            match before.pilot_id {
                Some(pilot) => {
                    match self.players.get_player(pilot) {
                        Some(mut p) => {
                            proof {
                                assert(old(self)@.players.contains_key(pilot));
                                if old(self).wf() {
                                    assert(p.wf());
                                }
                            }
                            p.current_vehicle_id = None;
                            self.players.put_player(pilot, p);
                        },
                        None => {},
                    }
                },
                None => {},
            }
            r.frames.push(
                Outbound {
                    to: Recipients::All,
                    message: ServerMessage::VehicleDestroyed {
                        vehicle_id: String::from_str(vehicle_id),
                        destroyer_id: match attacker {
                            Some(a) => Some(id_text(a)),
                            None => None,
                        },
                    },
                },
            );
        }
        r
    }

    /// Participant `player_id` leaves the vehicle it is in, if it is in one: it is no longer
    /// the pilot, its body is put at `exit_position`, or at the origin of its frame where it
    /// names none, and everyone else is told.
    pub fn exit_vehicle(&mut self, player_id: u128, exit_position: Option<Position>) -> (r: Reaction)
        ensures
            exit_outcome(
                old(self)@,
                final(self)@,
                r.frames@,
                r.commands@,
                player_id,
                exit_position,
            ),
            old(self).wf() ==> final(self).wf(),
    {
        let mut r = Reaction::none();
        let mut player = match self.players.get_player(player_id) {
            Some(p) => p,
            None => {
                return r;
            },
        };
        proof {
            assert(old(self)@.players.contains_key(player_id));
            if old(self).wf() {
                assert(player.wf());
            }
        }
        let vehicle_id = match &player.current_vehicle_id {
            Some(v) => v.clone(),
            None => {
                return r;
            },
        };
        let place = match exit_position {
            Some(p) => p,
            None => Position { x: 0, y: 0, z: 0 },
        };
        self.vehicles.exit(vehicle_id.as_str(), player_id);
        match player.body_handle {
            Some(body) => {
                r.commands.push(PhysicsCommand::Teleport { body, position: place.to_vector() });
                proof {
                    assert(r.commands@ =~= seq![
                        PhysicsCommand::Teleport {
                            body,
                            position: LocalVector { x: place.x, y: place.y, z: place.z },
                        },
                    ]);
                }
            },
            None => {},
        }
        player.current_vehicle_id = None;
        self.players.put_player(player_id, player);
        r.frames.push(
            Outbound {
                to: Recipients::AllExcept(player_id),
                message: ServerMessage::PlayerExitedVehicle {
                    player_id: id_text(player_id),
                    vehicle_id,
                    exit_position: place,
                },
            },
        );
        r
    }
}

/// Where the physics engine has a participant anchored at `anchor` with local offset
/// `position`: its world position, held to the range of the engine.
pub open spec fn engine_position(anchor: WorldVector, position: LocalVector) -> LocalVector {
    local_of(world_of(anchor, position), WorldVector { x: 0, y: 0, z: 0 })
}

/// The participant `p` after it has reported where it is and how it moves. Whether it swims
/// is not taken from the report: it swims exactly if it is in water.
pub open spec fn reported(
    p: Player,
    position: Position,
    rotation: Rotation,
    velocity: Velocity,
    is_grounded: bool,
    water: Seq<crate::physics::WaterVolume>,
) -> Player {
    let at = LocalVector { x: position.x, y: position.y, z: position.z };
    Player {
        position: at,
        rotation: Quaternion { i: rotation.x, j: rotation.y, k: rotation.z, w: rotation.w },
        velocity: LocalVector { x: velocity.x, y: velocity.y, z: velocity.z },
        is_grounded,
        is_swimming: in_water(water, engine_position(p.world_origin, at)),
        ..p
    }
}

/// `frame` tells the participant `receiver`, and nobody else, the state of participant
/// `about`, who is at `world`, as seen from the receiver's own anchor.
pub open spec fn is_state_frame(
    frame: Outbound,
    receiver: u128,
    receiver_anchor: WorldVector,
    about: u128,
    world: WorldVector,
    rotation: Rotation,
    velocity: Velocity,
    is_grounded: bool,
    is_swimming: bool,
) -> bool {
    let seen = local_of(world, receiver_anchor);
    &&& frame.to == Recipients::One(receiver)
    &&& match frame.message {
        ServerMessage::PlayerState {
            player_id,
            position,
            rotation: r,
            velocity: v,
            is_grounded: g,
            is_swimming: s,
        } => {
            &&& player_id@ == uuid_text(about)
            &&& position == (Position { x: seen.x, y: seen.y, z: seen.z })
            &&& r == rotation
            &&& v == velocity
            &&& g == is_grounded
            &&& s == is_swimming
        },
        _ => false,
    }
}

/// What a report of a participant's state does: see `AppState::player_update`.
pub open spec fn update_outcome(
    w: WorldView,
    after: WorldView,
    frames: Seq<Outbound>,
    commands: Seq<PhysicsCommand>,
    player_id: u128,
    position: Position,
    rotation: Rotation,
    velocity: Velocity,
    is_grounded: bool,
) -> bool {
    let known = w.players.contains_key(player_id);
    let u = reported(w.players[player_id], position, rotation, velocity, is_grounded, w.water);
    let lead: int = if needs_recenter(u.position) {
        1
    } else {
        0
    };
    &&& !known ==> after == w && frames.len() == 0 && commands.len() == 0
    &&& known ==> after == (WorldView { players: w.players.insert(player_id, u.recentered()), ..w })
        && commands =~= for_body(
        u.body_handle,
        |b: RigidBodyHandle|
            seq![
                PhysicsCommand::SetState {
                    body: b,
                    state: BodyState {
                        position: engine_position(u.world_origin, u.position),
                        rotation: u.rotation,
                        velocity: u.velocity,
                    },
                },
            ],
    ) && (lead == 1 ==> frames.len() >= 1 && frames[0] == origin_update(
        player_id,
        u.recentered().world_origin,
    )) && update_fan_out(u, lead, after, frames, player_id, rotation, velocity, is_grounded)
}

/// After the first `lead` of them, `frames` tell every participant but `player_id` the
/// state of `player_id`, who is now as `u` says.
pub open spec fn update_fan_out(
    u: Player,
    lead: int,
    after: WorldView,
    frames: Seq<Outbound>,
    player_id: u128,
    rotation: Rotation,
    velocity: Velocity,
    is_grounded: bool,
) -> bool {
    exists|keys: Seq<u128>| #[trigger]
        fans_out(
            frames,
            lead,
            keys,
            after.players,
            player_id,
            world_of(u.world_origin, u.position),
            rotation,
            velocity,
            is_grounded,
            u.is_swimming,
        )
}

/// After the first `lead` of them, `frames` tell each participant of `keys`, which are all
/// the participants of `players` but `about`, the state of `about`, who is at `world`.
pub open spec fn fans_out(
    frames: Seq<Outbound>,
    lead: int,
    keys: Seq<u128>,
    players: Map<u128, Player>,
    about: u128,
    world: WorldVector,
    rotation: Rotation,
    velocity: Velocity,
    is_grounded: bool,
    is_swimming: bool,
) -> bool {
    &&& lists_keys(keys, players.dom().remove(about))
    &&& frames.len() == lead + keys.len()
    &&& forall|i: int|
        0 <= i < keys.len() ==> is_state_frame(
            frames[lead + i],
            #[trigger] keys[i],
            players[keys[i]].world_origin,
            about,
            world,
            rotation,
            velocity,
            is_grounded,
            is_swimming,
        )
}

/// `frame` tells everyone that `player_id` has left.
pub open spec fn is_left_frame(frame: Outbound, player_id: u128) -> bool {
    &&& frame.to == Recipients::All
    &&& match frame.message {
        ServerMessage::PlayerLeft { player_id: p } => p@ == uuid_text(player_id),
        _ => false,
    }
}

/// What the end of a session does: see `AppState::disconnect`.
pub open spec fn disconnect_outcome(
    w: WorldView,
    after: WorldView,
    frames: Seq<Outbound>,
    commands: Seq<PhysicsCommand>,
    player_id: u128,
) -> bool {
    let p = w.players[player_id];
    let embodied = w.players.contains_key(player_id) && p.body_handle is Some
        && p.collider_handle is Some;
    &&& after == (WorldView {
        objects: w.objects.map_values(|o: DynamicObject| o.without_participant(player_id)),
        players: w.players.remove(player_id),
        ..w
    })
    &&& frames.len() == 1
    &&& is_left_frame(frames[0], player_id)
    &&& exists|released: Seq<ObjectBody>|
        lists_keys(body_names(released), grabbed_keys(w.objects, player_id)) && (forall|i: int|
            0 <= i < released.len() ==> names_body(#[trigger] released[i], w.objects)) && commands
            =~= dynamic_commands(released, released.len() as int) + (if embodied {
            seq![PhysicsCommand::RemoveBody { body: p.body_handle->0 }]
        } else {
            Seq::empty()
        })
}

/// What a frame from a client does, by its kind. A frame of a kind that is not named here
/// changes nothing and is not answered.
pub open spec fn handled(
    w: WorldView,
    after: WorldView,
    frames: Seq<Outbound>,
    commands: Seq<PhysicsCommand>,
    player_id: u128,
    msg: ClientMessage,
    now: u64,
) -> bool {
    match msg {
        ClientMessage::PlayerUpdate { position, rotation, velocity, is_grounded, .. } => {
            update_outcome(
                w,
                after,
                frames,
                commands,
                player_id,
                position,
                rotation,
                velocity,
                is_grounded,
            )
        },
        ClientMessage::PushObject { object_id, force, point } => push_outcome(
            w,
            after,
            frames,
            commands,
            player_id,
            object_id@,
            force,
            point,
            now,
        ),
        ClientMessage::GrabObject { object_id, grab_point } => grab_outcome(
            w,
            after,
            frames,
            commands,
            player_id,
            object_id@,
            grab_point,
            now,
        ),
        ClientMessage::MoveGrabbedObject { object_id, target_position } => move_outcome(
            w,
            after,
            frames,
            commands,
            player_id,
            object_id@,
            target_position,
            now,
        ),
        ClientMessage::ThrowObject { object_id, throw_force, release_point } => exists|
            spin: LocalVector,
        |
            is_spin(spin) && #[trigger] throw_outcome(
                w,
                after,
                frames,
                commands,
                player_id,
                object_id@,
                throw_force,
                release_point,
                spin,
            ),
        ClientMessage::ReleaseObject { object_id } => exists|spin: LocalVector|
            is_spin(spin) && #[trigger] release_outcome(
                w,
                after,
                frames,
                commands,
                player_id,
                object_id@,
                spin,
            ),
        ClientMessage::FireWeapon { weapon_type, origin, direction, hit_player_id, .. } => {
            fire_outcome(
                w,
                after,
                frames,
                commands,
                player_id,
                weapon_type@,
                origin,
                direction,
                chars_of(hit_player_id),
                named_participant(chars_of(hit_player_id)),
                now,
            )
        },
        ClientMessage::PickupItem { item_id } => pickup_outcome(
            w,
            after,
            frames,
            commands,
            player_id,
            item_id@,
            now,
        ),
        ClientMessage::RequestRespawn => respawn_request_outcome(
            w,
            after,
            frames,
            commands,
            player_id,
            now,
        ),
        ClientMessage::EnterVehicle { vehicle_id } => enter_outcome(
            w,
            after,
            frames,
            commands,
            player_id,
            vehicle_id,
        ),
        ClientMessage::ExitVehicle { exit_position } => exit_outcome(
            w,
            after,
            frames,
            commands,
            player_id,
            exit_position,
        ),
        _ => after == w && frames.len() == 0 && commands.len() == 0,
    }
}

impl AppState {
    /// Participant `player_id` reports where it is, in its own frame, and how it moves. The
    /// report is taken over, but whether the participant swims is decided here, by whether
    /// it is in water. Its body is set to the reported state. If its local offset has grown
    /// longer than one thousand metres, its anchor is recentered and it alone is told so.
    /// Every other participant is then told its state, each with the position as seen from
    /// its own anchor. The report of a participant who is not known is dropped.
    pub fn player_update(
        &mut self,
        player_id: u128,
        position: Position,
        rotation: Rotation,
        velocity: Velocity,
        is_grounded: bool,
    ) -> (r: Reaction)
        ensures
            update_outcome(
                old(self)@,
                final(self)@,
                r.frames@,
                r.commands@,
                player_id,
                position,
                rotation,
                velocity,
                is_grounded,
            ),
            old(self).wf() ==> final(self).wf(),
    {
        let mut r = Reaction::none();
        let mut player = match self.players.get_player(player_id) {
            Some(p) => p,
            None => {
                return r;
            },
        };
        proof {
            assert(old(self)@.players.contains_key(player_id));
            if old(self).wf() {
                assert(player.wf());
            }
        }
        player.position = position.to_vector();
        player.rotation = rotation.to_quaternion();
        player.velocity = velocity.to_vector();
        player.is_grounded = is_grounded;
        let world = player.get_world_position();
        let engine_pos = to_local(&world, &WorldVector::zeros());
        player.is_swimming = self.physics.is_position_in_water(&engine_pos);
        let is_swimming = player.is_swimming;
        match player.body_handle {
            Some(body) => {
                let command = PhysicsCommand::SetState {
                    body,
                    state: BodyState {
                        position: engine_pos,
                        rotation: player.rotation,
                        velocity: player.velocity,
                    },
                };
                r.commands.push(command);
                proof {
                    assert(r.commands@ =~= seq![command]);
                }
            },
            None => {},
        }
        let ghost u = player;
        self.players.put_player(player_id, player);
        match self.players.recenter_player(player_id) {
            Some(frame) => {
                r.frames.push(frame);
            },
            None => {},
        }
        let ghost lead = r.frames@.len() as int;
        let ghost head = r.frames@;
        proof {
            assert(self.players@ =~= old(self)@.players.insert(player_id, u.recentered()));
        }
        let state = ServerMessage::PlayerState {
            player_id: id_text(player_id),
            position,
            rotation,
            velocity,
            is_grounded,
            is_swimming,
        };
        let ghost template = state;
        let mut fan = self.players.broadcast_except(player_id, state);
        let ghost fanned = fan@;
        r.frames.append(&mut fan);
        proof {
            crate::origin::lemma_recenter_keeps_world_position(u.world_origin, u.position);
            let keys = choose|keys: Seq<u128>|
                lists_keys(keys, self.players@.dom().remove(player_id)) && keys.len()
                    == fanned.len() && forall|i: int|
                    0 <= i < fanned.len() ==> addressed(
                        #[trigger] fanned[i],
                        self.players@[keys[i]],
                        keys[i],
                        sender_world(self.players@, player_id, position),
                    ) && crate::player::same_but_position(fanned[i].message, template);
            assert(r.frames@ =~= head + fanned);
            assert forall|i: int| 0 <= i < keys.len() implies is_state_frame(
                r.frames@[lead + i],
                keys[i],
                self.players@[keys[i]].world_origin,
                player_id,
                world_of(u.world_origin, u.position),
                rotation,
                velocity,
                is_grounded,
                u.is_swimming,
            ) by {
                assert(r.frames@[lead + i] == fanned[i]);
                assert(addressed(
                    fanned[i],
                    self.players@[keys[i]],
                    keys[i],
                    sender_world(self.players@, player_id, position),
                ));
            }
            assert(self@.players == self.players@);
            assert(update_fan_out(
                u,
                lead,
                self@,
                r.frames@,
                player_id,
                rotation,
                velocity,
                is_grounded,
            )) by {
                assert(fans_out(
                    r.frames@,
                    lead,
                    keys,
                    self@.players,
                    player_id,
                    world_of(u.world_origin, u.position),
                    rotation,
                    velocity,
                    is_grounded,
                    u.is_swimming,
                ));
            }
        }
        r
    }

    /// The session of participant `player_id` has ended. Everything that the participant had
    /// grabbed is let go of, and its body handed back to the simulation; every lease of the
    /// participant ends; the participant's own body is removed; the participant is struck
    /// from the registry; and everyone is told that it has left.
    pub fn disconnect(&mut self, player_id: u128) -> (r: Reaction)
        ensures
            disconnect_outcome(old(self)@, final(self)@, r.frames@, r.commands@, player_id),
            final(self).dynamic_objects.free_of(player_id),
            old(self).wf() ==> final(self).wf(),
    {
        let mut r = Reaction::none();
        let released = self.dynamic_objects.force_release_all_by_player(player_id);
        let mut i: usize = 0;
        proof {
            assert forall|j: int| 0 <= j < released@.len() implies (#[trigger] released@[j]).was_grabbed by {
                assert(names_body(released@[j], old(self)@.objects));
                assert(body_names(released@)[j] == released@[j].id@);
                assert(grabbed_keys(old(self)@.objects, player_id).contains(
                    body_names(released@)[j],
                ));
            }
        }
        while i < released.len()
            invariant
                0 <= i <= released.len(),
                r.frames@.len() == 0,
                r.commands@ == dynamic_commands(released@, i as int),
                forall|j: int| 0 <= j < released@.len() ==> (#[trigger] released@[j]).was_grabbed,
            decreases released.len() - i,
        {
            match released[i].body_handle {
                Some(body) => {
                    r.commands.push(PhysicsCommand::SetBodyDynamic { body });
                },
                None => {},
            }
            i += 1;
        }
        match self.players.get_player(player_id) {
            Some(player) => {
                match (player.body_handle, player.collider_handle) {
                    (Some(body), Some(_)) => {
                        r.commands.push(PhysicsCommand::RemoveBody { body });
                    },
                    _ => {},
                }
            },
            None => {},
        }
        self.players.remove_player(player_id);
        r.frames.push(
            Outbound {
                to: Recipients::All,
                message: ServerMessage::PlayerLeft { player_id: id_text(player_id) },
            },
        );
        r
    }

    /// Takes the frame `msg` that participant `player_id` has sent at `now`, and does what
    /// its kind asks for.
    pub fn handle_client_message(&mut self, player_id: u128, msg: ClientMessage, now: u64) -> (r:
        Reaction)
        ensures
            handled(old(self)@, final(self)@, r.frames@, r.commands@, player_id, msg, now),
            old(self).wf() ==> final(self).wf(),
    {
        match msg {
            ClientMessage::PlayerUpdate { position, rotation, velocity, is_grounded, is_swimming: _ } => {
                self.player_update(player_id, position, rotation, velocity, is_grounded)
            },
            ClientMessage::PushObject { object_id, force, point } => {
                self.push_object(player_id, object_id.as_str(), force, point, now)
            },
            ClientMessage::GrabObject { object_id, grab_point } => {
                self.grab_object(player_id, object_id.as_str(), grab_point, now)
            },
            ClientMessage::MoveGrabbedObject { object_id, target_position } => {
                self.move_grabbed_object(player_id, object_id.as_str(), target_position, now)
            },
            ClientMessage::ThrowObject { object_id, throw_force, release_point } => {
                let spin = random_spin();
                self.throw_object_with(
                    player_id,
                    object_id.as_str(),
                    throw_force,
                    release_point,
                    spin,
                )
            },
            ClientMessage::ReleaseObject { object_id } => {
                let spin = random_spin();
                self.release_object_with(player_id, object_id.as_str(), spin)
            },
            ClientMessage::FireWeapon {
                weapon_type,
                origin,
                direction,
                hit_point: _,
                hit_player_id,
                hit_object_id: _,
            } => { self.fire_weapon(player_id, weapon_type, origin, direction, hit_player_id, now) },
            ClientMessage::PickupItem { item_id } => { self.pickup_item(player_id, item_id, now) },
            ClientMessage::RequestRespawn => { self.request_respawn(player_id, now) },
            ClientMessage::EnterVehicle { vehicle_id } => {
                self.enter_vehicle(player_id, vehicle_id)
            },
            ClientMessage::ExitVehicle { exit_position } => {
                self.exit_vehicle(player_id, exit_position)
            },
            _ => Reaction::none(),
        }
    }
}

} // verus!
