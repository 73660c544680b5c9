//! Projectiles in flight and the time they are given to live.

use crate::origin::{LocalVector, Quaternion};
use crate::physics::{find_reading, reading_of, BodyReading, RigidBodyHandle};
use crate::clock::{elapsed, elapsed_since};
use crate::store::{
    lemma_listed_all, lemma_not_listed_before, lemma_picks_all, lemma_picks_none,
    lemma_picks_skip, lemma_picks_take, listed_before, lists_keys, picks, views,
};
use dashmap::DashMap;
use vstd::prelude::*;
use vstd::string::StringExecFns;

verus! {

/// How fast a homing projectile may turn, in thousandths of a radian per second.
pub const TURN_RATE: u32 = 2_000;

/// A projectile in flight. Lengths are millimetres, damage is thousandths of a point, times
/// are milliseconds.
#[derive(Debug, Clone)]
pub struct Projectile {
    pub id: String,
    pub kind: String,
    pub owner_id: u128,
    pub position: LocalVector,
    pub velocity: LocalVector,
    pub rotation: Quaternion,
    pub damage: u32,
    pub explosion_radius: Option<u32>,
    pub body_handle: Option<RigidBodyHandle>,
    pub created_at: u64,
    pub lifetime: u64,
    pub is_homing: bool,
    pub target_id: Option<String>,
}

impl Projectile {
    /// Whether the projectile has outlived its lifetime at `now`.
    pub open spec fn expired(self, now: u64) -> bool {
        elapsed(self.created_at, now) > self.lifetime
    }

    /// Whether the projectile steers towards a target.
    pub open spec fn seeks(self) -> bool {
        self.is_homing && self.target_id is Some
    }

    /// The projectile as the physics engine reports it.
    pub open spec fn read_back(
        self,
        position: LocalVector,
        velocity: LocalVector,
        rotation: Quaternion,
    ) -> Projectile {
        Projectile { position, velocity, rotation, ..self }
    }

    /// The projectile after a step of which the engine reports `readings`: as the first
    /// reading of its body says, or as it was where it has no body or the body was not
    /// reported.
    pub open spec fn after_readings(self, readings: Seq<BodyReading>) -> Projectile {
        if self.body_handle is Some && reading_of(readings, self.body_handle->0) is Some {
            let r = reading_of(readings, self.body_handle->0)->0;
            self.read_back(r.state.position, r.state.velocity, r.state.rotation)
        } else {
            self
        }
    }

    /// A copy of the projectile.
    pub fn duplicate(&self) -> (r: Projectile)
        ensures
            r == *self,
    {
        Projectile {
            id: self.id.clone(),
            kind: self.kind.clone(),
            owner_id: self.owner_id,
            position: self.position,
            velocity: self.velocity,
            rotation: self.rotation,
            damage: self.damage,
            explosion_radius: self.explosion_radius,
            body_handle: self.body_handle,
            created_at: self.created_at,
            lifetime: self.lifetime,
            is_homing: self.is_homing,
            target_id: match &self.target_id {
                Some(s) => Some(s.clone()),
                None => None,
            },
        }
    }

    /// Whether the projectile has outlived its lifetime at `now`.
    pub fn is_expired(&self, now: u64) -> (r: bool)
        ensures
            r == self.expired(now),
    {
        elapsed_since(self.created_at, now) > self.lifetime
    }

    /// Whether the projectile steers towards a target.
    pub fn is_seeking(&self) -> (r: bool)
        ensures
            r == self.seeks(),
    {
        self.is_homing && self.target_id.is_some()
    }

    /// Takes over the velocity and rotation that steering has given the projectile, if it
    /// steers towards a target; any other projectile keeps its course.
    pub fn update_homing(&mut self, velocity: LocalVector, rotation: Quaternion)
        ensures
            old(self).seeks() ==> *final(self) == (Projectile { velocity, rotation, ..*old(self) }),
            !old(self).seeks() ==> *final(self) == *old(self),
    {
        if !self.is_homing || self.target_id.is_none() {
            return ;
        }
        self.velocity = velocity;
        self.rotation = rotation;
    }
}

/// The projectiles that a map of projectiles holds, by the characters of their identifier.
pub uninterp spec fn projectile_entries(m: &DashMap<String, Projectile>) -> Map<
    Seq<char>,
    Projectile,
>;

/// `DashMap::new`: a map that holds nothing.
#[verifier::external_body]
fn projectiles_new() -> (m: DashMap<String, Projectile>)
    ensures
        projectile_entries(&m).dom() =~= Set::empty(),
{
    DashMap::new()
}

/// `DashMap::insert`: afterwards the map holds `value` under `key`, in place of what it held
/// there; every other entry stays.
#[verifier::external_body]
fn projectiles_insert(m: &mut DashMap<String, Projectile>, key: String, value: Projectile)
    ensures
        projectile_entries(final(m)) == projectile_entries(old(m)).insert(key@, value),
{
    m.insert(key, value);
}

/// `DashMap::get`: a copy of what the map holds under `key`, if it holds anything there.
#[verifier::external_body]
fn projectiles_get(m: &DashMap<String, Projectile>, key: &str) -> (r: Option<Projectile>)
    ensures
        r is Some <==> projectile_entries(m).contains_key(key@),
        r is Some ==> r->0 == projectile_entries(m)[key@],
{
    m.get(key).map(|e| e.value().duplicate())
}

/// `DashMap::remove`: afterwards the map holds nothing under `key`; every other entry stays.
/// What it held there is returned.
#[verifier::external_body]
fn projectiles_remove(m: &mut DashMap<String, Projectile>, key: &str) -> (r: Option<Projectile>)
    ensures
        projectile_entries(final(m)) == projectile_entries(old(m)).remove(key@),
        r is Some <==> projectile_entries(old(m)).contains_key(key@),
        r is Some ==> r->0 == projectile_entries(old(m))[key@],
{
    m.remove(key).map(|e| e.1)
}

/// `DashMap::iter`, keys only: every key of the map once, in no particular order.
#[verifier::external_body]
fn projectiles_keys(m: &DashMap<String, Projectile>) -> (r: Vec<String>)
    ensures
        lists_keys(views(r@), projectile_entries(m).dom()),
{
    m.iter().map(|e| e.key().clone()).collect()
}

/// The projectiles in flight, by identifier.
pub struct ProjectileManager {
    pub projectiles: DashMap<String, Projectile>,
}

impl View for ProjectileManager {
    type V = Map<Seq<char>, Projectile>;

    open spec fn view(&self) -> Map<Seq<char>, Projectile> {
        projectile_entries(&self.projectiles)
    }
}

/// The keys of the projectiles that have outlived their lifetime at `now`.
pub open spec fn expired_keys(m: Map<Seq<char>, Projectile>, now: u64) -> Set<Seq<char>> {
    Set::new(|k: Seq<char>| m.contains_key(k) && m[k].expired(now))
}

impl ProjectileManager {
    /// A manager without projectiles.
    pub fn new() -> (r: ProjectileManager)
        ensures
            r@ =~= Map::empty(),
    {
        ProjectileManager { projectiles: projectiles_new() }
    }

    /// Puts `projectile` in flight under `id`, in place of any that flew under it.
    pub fn launch(&mut self, id: &str, projectile: Projectile)
        ensures
            final(self)@ == old(self)@.insert(id@, projectile),
    {
        projectiles_insert(&mut self.projectiles, String::from_str(id), projectile);
    }

    /// A copy of the projectile under `id`, if there is one.
    pub fn get_projectile(&self, id: &str) -> (r: Option<Projectile>)
        ensures
            r is Some <==> self@.contains_key(id@),
            r is Some ==> r->0 == self@[id@],
    {
        projectiles_get(&self.projectiles, id)
    }

    /// The identifiers of the projectiles, in no particular order.
    pub fn ids(&self) -> (r: Vec<String>)
        ensures
            lists_keys(views(r@), self@.dom()),
    {
        projectiles_keys(&self.projectiles)
    }

    /// Takes over what the physics engine reports of the projectile under `projectile_id`,
    /// if there is such a projectile.
    pub fn update_from_physics(
        &mut self,
        projectile_id: &str,
        position: LocalVector,
        velocity: LocalVector,
        rotation: Quaternion,
    )
        ensures
            old(self)@.contains_key(projectile_id@) ==> final(self)@ == old(self)@.insert(
                projectile_id@,
                old(self)@[projectile_id@].read_back(position, velocity, rotation),
            ),
            !old(self)@.contains_key(projectile_id@) ==> final(self)@ == old(self)@,
    {
        match projectiles_get(&self.projectiles, projectile_id) {
            Some(mut proj) => {
                proj.position = position;
                proj.velocity = velocity;
                proj.rotation = rotation;
                projectiles_insert(&mut self.projectiles, String::from_str(projectile_id), proj);
            },
            None => {},
        }
    }

    /// Takes over the velocity and rotation that steering has given the projectile under
    /// `projectile_id`, if there is such a projectile and it steers towards a target.
    pub fn steer(&mut self, projectile_id: &str, velocity: LocalVector, rotation: Quaternion)
        ensures
            old(self)@.contains_key(projectile_id@) && old(self)@[projectile_id@].seeks() ==> final(self)@
                == old(self)@.insert(
                projectile_id@,
                Projectile { velocity, rotation, ..old(self)@[projectile_id@] },
            ),
            !(old(self)@.contains_key(projectile_id@) && old(self)@[projectile_id@].seeks())
                ==> final(self)@ == old(self)@,
    {
        match projectiles_get(&self.projectiles, projectile_id) {
            Some(mut proj) => {
                if proj.is_seeking() {
                    proj.update_homing(velocity, rotation);
                    projectiles_insert(&mut self.projectiles, String::from_str(projectile_id), proj);
                }
            },
            None => {},
        }
    }

    /// Takes over what the engine reports after a step, for every projectile whose body is
    /// among `readings`.
    pub fn read_back_all(&mut self, readings: &Vec<BodyReading>)
        ensures
            final(self)@ == old(self)@.map_values(|p: Projectile| p.after_readings(readings@)),
    {
        let ids = projectiles_keys(&self.projectiles);
        let ghost before = self@;
        let ghost keys = views(ids@);
        let mut i: usize = 0;
        proof {
            lemma_listed_all(keys, before.dom());
        }
        while i < ids.len()
            invariant
                0 <= i <= ids.len(),
                keys == views(ids@),
                before == old(self)@,
                lists_keys(keys, before.dom()),
                self@.dom() =~= before.dom(),
                forall|k: Seq<char>| #[trigger]
                    before.contains_key(k) ==> self@[k] == (if listed_before(keys, i as int, k) {
                        before[k].after_readings(readings@)
                    } else {
                        before[k]
                    }),
            decreases ids.len() - i,
        {
            let id = &ids[i];
            proof {
                lemma_not_listed_before(keys, before.dom(), i as int);
                assert(keys[i as int] == id@);
                assert(before.contains_key(id@));
            }
            match projectiles_get(&self.projectiles, id.as_str()) {
                Some(mut proj) => {
                    match proj.body_handle {
                        Some(handle) => {
                            match find_reading(readings, handle) {
                                Some(r) => {
                                    proj.position = r.state.position;
                                    proj.velocity = r.state.velocity;
                                    proj.rotation = r.state.rotation;
                                    projectiles_insert(&mut self.projectiles, id.clone(), proj);
                                },
                                None => {},
                            }
                        },
                        None => {},
                    }
                },
                None => {},
            }
            i += 1;
        }
        proof {
            lemma_listed_all(keys, before.dom());
            assert(self@ =~= before.map_values(|p: Projectile| p.after_readings(readings@)));
        }
    }

    /// Removes every projectile that has outlived its lifetime at `now`, and returns their
    /// identifiers, in no particular order.
    pub fn remove_expired(&mut self, now: u64) -> (expired: Vec<String>)
        ensures
            final(self)@ == old(self)@.remove_keys(expired_keys(old(self)@, now)),
            lists_keys(views(expired@), expired_keys(old(self)@, now)),
    {
        let ids = projectiles_keys(&self.projectiles);
        let ghost before = self@;
        let ghost keys = views(ids@);
        let ghost want = expired_keys(before, now);
        let mut expired: Vec<String> = Vec::new();
        let mut i: usize = 0;
        proof {
            lemma_picks_none(keys, want);
            lemma_listed_all(keys, before.dom());
            assert(views(expired@) =~= Seq::<Seq<char>>::empty());
        }
        while i < ids.len()
            invariant
                0 <= i <= ids.len(),
                keys == views(ids@),
                before == old(self)@,
                want == expired_keys(before, now),
                lists_keys(keys, before.dom()),
                forall|k: Seq<char>|
                    self@.contains_key(k) <==> #[trigger] before.contains_key(k) && !(
                    listed_before(keys, i as int, k) && want.contains(k)),
                forall|k: Seq<char>| #[trigger] self@.contains_key(k) ==> self@[k] == before[k],
                picks(views(expired@), keys, i as int, want),
            decreases ids.len() - i,
        {
            let id = &ids[i];
            proof {
                lemma_not_listed_before(keys, before.dom(), i as int);
                assert(keys[i as int] == id@);
                assert(before.contains_key(id@));
            }
            let ghost picked = views(expired@);
            match projectiles_get(&self.projectiles, id.as_str()) {
                Some(proj) => {
                    if proj.is_expired(now) {
                        projectiles_remove(&mut self.projectiles, id.as_str());
                        expired.push(id.clone());
                        proof {
                            lemma_picks_take(picked, keys, i as int, want);
                            assert(views(expired@) =~= picked.push(keys[i as int]));
                        }
                    } else {
                        proof {
                            lemma_picks_skip(picked, keys, i as int, want);
                        }
                    }
                },
                None => {},
            }
            i += 1;
        }
        proof {
            lemma_picks_all(views(expired@), keys, before.dom(), want);
            assert(want.intersect(before.dom()) =~= want);
            lemma_listed_all(keys, before.dom());
            assert(self@ =~= before.remove_keys(want));
        }
        expired
    }
}

} // verus!
