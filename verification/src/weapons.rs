//! Weapons that lie in the world to be picked up.

use crate::origin::LocalVector;
use crate::text::{is_first, lemma_slot_found, lemma_slot_missing, same_text, slot_of};
use vstd::prelude::*;

verus! {

/// A weapon lying in the world.
#[derive(Debug, Clone)]
pub struct WeaponPickup {
    pub id: String,
    pub weapon_type: String,
    pub position: LocalVector,
    pub picked_up_by: Option<u128>,
    pub pickup_time: Option<u64>,
}

/// The weapons lying in the world, each under its own identifier.
pub struct WeaponManager {
    pub weapon_pickups: Vec<WeaponPickup>,
}

/// The identifiers of a list of weapons.
pub open spec fn pickup_names(list: Seq<WeaponPickup>) -> Seq<Seq<char>> {
    list.map_values(|w: WeaponPickup| w.id@)
}

impl View for WeaponManager {
    type V = Seq<WeaponPickup>;

    open spec fn view(&self) -> Seq<WeaponPickup> {
        self.weapon_pickups@
    }
}

impl WeaponManager {
    /// The place of the weapon under `id`, if there is one.
    pub open spec fn slot(&self, id: Seq<char>) -> Option<int> {
        slot_of(pickup_names(self@), id)
    }

    /// A manager without weapons.
    pub fn new() -> (r: WeaponManager)
        ensures
            r@.len() == 0,
    {
        WeaponManager { weapon_pickups: Vec::new() }
    }

    /// The place of the weapon under `id`, if there is one.
    pub fn find(&self, id: &str) -> (r: Option<usize>)
        ensures
            r is Some <==> self.slot(id@) is Some,
            r is Some ==> r->0 as int == self.slot(id@)->0 && r->0 < self@.len() && self@[r->0 as int].id@
                == id@,
    {
        let ghost names = pickup_names(self@);
        let mut i: usize = 0;
        while i < self.weapon_pickups.len()
            invariant
                0 <= i <= self.weapon_pickups@.len(),
                names == pickup_names(self@),
                forall|j: int| 0 <= j < i ==> names[j] != id@,
            decreases self.weapon_pickups@.len() - i,
        {
            if same_text(self.weapon_pickups[i].id.as_str(), id) {
                proof {
                    assert(names[i as int] == self@[i as int].id@);
                    assert(is_first(names, id@, i as int));
                    lemma_slot_found(names, id@, i as int);
                }
                return Some(i);
            }
            proof {
                assert(names[i as int] == self@[i as int].id@);
            }
            i += 1;
        }
        proof {
            lemma_slot_missing(names, id@);
        }
        None
    }

    /// Lays a weapon of type `weapon_type` at `position` under `id`, in place of any that lay
    /// under that identifier.
    pub fn spawn_weapon(&mut self, id: String, weapon_type: String, position: LocalVector)
        ensures
            match old(self).slot(id@) {
                Some(i) => final(self)@ == old(self)@.update(
                    i,
                    WeaponPickup { id, weapon_type, position, picked_up_by: None, pickup_time: None },
                ),
                None => final(self)@ == old(self)@.push(
                    WeaponPickup { id, weapon_type, position, picked_up_by: None, pickup_time: None },
                ),
            },
    {
        let pickup = WeaponPickup { id, weapon_type, position, picked_up_by: None, pickup_time: None };
        match self.find(pickup.id.as_str()) {
            Some(i) => {
                self.weapon_pickups.set(i, pickup);
            },
            None => {
                self.weapon_pickups.push(pickup);
            },
        }
    }

    /// Hands the weapon under `weapon_id` to `player_id` at `now`, if it lies there and
    /// nobody has picked it up, and returns its type.
    pub fn pickup_weapon(&mut self, weapon_id: &str, player_id: u128, now: u64) -> (r: Option<String>)
        ensures
            r is Some <==> old(self).slot(weapon_id@) is Some && old(self)@[old(self).slot(
                weapon_id@,
            )->0].picked_up_by is None,
            r is Some ==> r->0 == old(self)@[old(self).slot(weapon_id@)->0].weapon_type && final(self)@
                == old(self)@.update(
                old(self).slot(weapon_id@)->0,
                WeaponPickup {
                    picked_up_by: Some(player_id),
                    pickup_time: Some(now),
                    ..old(self)@[old(self).slot(weapon_id@)->0]
                },
            ),
            r is None ==> final(self)@ == old(self)@,
    {
        match self.find(weapon_id) {
            Some(i) => {
                if self.weapon_pickups[i].picked_up_by.is_none() {
                    let weapon_type = self.weapon_pickups[i].weapon_type.clone();
                    let taken = WeaponPickup {
                        id: self.weapon_pickups[i].id.clone(),
                        weapon_type: self.weapon_pickups[i].weapon_type.clone(),
                        position: self.weapon_pickups[i].position,
                        picked_up_by: Some(player_id),
                        pickup_time: Some(now),
                    };
                    self.weapon_pickups.set(i, taken);
                    Some(weapon_type)
                } else {
                    None
                }
            },
            None => None,
        }
    }
}

} // verus!
