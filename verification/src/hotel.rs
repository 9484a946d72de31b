//! An in-memory room registry: the single-threaded collaborator that keeps
//! guests by room number. No concurrency and no I/O — a plain map with
//! checked arithmetic on the length of a stay.

use std::collections::HashMap;

use vstd::prelude::*;

verus! {

broadcast use vstd::std_specs::hash::group_hash_axioms;

/// The abstract value of a [`Guest`].
pub ghost struct GuestModel {
    pub name: Seq<char>,
    pub nights: u32,
}

/// A guest: a name and the number of nights booked.
#[derive(Debug, Clone, PartialEq, Eq)]
pub struct Guest {
    pub name: String,
    pub nights: u32,
}

impl View for Guest {
    type V = GuestModel;

    open spec fn view(&self) -> GuestModel {
        GuestModel { name: self.name@, nights: self.nights }
    }
}

/// Rooms keyed by room number, each holding at most one guest.
pub struct Hotel {
    rooms: HashMap<u32, Guest>,
}

impl Hotel {
    /// The registry as a map from room number to guest.
    pub closed spec fn rooms_map(&self) -> Map<u32, Guest> {
        self.rooms@
    }

    /// An empty registry.
    pub fn new() -> (h: Hotel)
        ensures
            h.rooms_map() == Map::<u32, Guest>::empty(),
    {
        let h = Hotel { rooms: HashMap::new() };
        proof {
            assert(h.rooms_map() =~= Map::<u32, Guest>::empty());
        }
        h
    }

    /// Take ownership of the guest and register them under the room number,
    /// replacing whoever held the room before.
    pub fn check_in(&mut self, room_number: u32, guest: Guest)
        ensures
            final(self).rooms_map() == old(self).rooms_map().insert(room_number, guest),
    {
        self.rooms.insert(room_number, guest);
    }

    /// View the guest in a room, if the room is occupied.
    pub fn peek_guest(&self, room: u32) -> (r: Option<&Guest>)
        ensures
            match r {
                Some(g) => self.rooms_map().contains_key(room) && *g == self.rooms_map()[room],
                None => !self.rooms_map().contains_key(room),
            },
    {
        self.rooms.get(&room)
    }

    /// Lengthen an occupied room's stay by `extra_nights` and return the
    /// updated guest; an empty room yields nothing and changes nothing.
    pub fn extend_stay(&mut self, room: u32, extra_nights: u32) -> (r: Option<&Guest>)
        requires
            old(self).rooms_map().contains_key(room) ==> old(self).rooms_map()[room]@.nights
                + extra_nights <= u32::MAX,
        ensures
            old(self).rooms_map().contains_key(room) ==> {
                &&& (r matches Some(g) && g@.name == old(self).rooms_map()[room]@.name && g@.nights
                    == old(self).rooms_map()[room]@.nights + extra_nights)
                &&& final(self).rooms_map().dom() == old(self).rooms_map().dom()
                &&& final(self).rooms_map()[room]@.name == old(self).rooms_map()[room]@.name
                &&& final(self).rooms_map()[room]@.nights == old(self).rooms_map()[room]@.nights
                    + extra_nights
                &&& forall|k: u32|
                    final(self).rooms_map().dom().contains(k) && k != room
                        ==> #[trigger] final(self).rooms_map()[k] == old(self).rooms_map()[k]
            },
            !old(self).rooms_map().contains_key(room) ==> {
                &&& r is None
                &&& final(self).rooms_map() == old(self).rooms_map()
            },
    {
        let updated = match self.rooms.get(&room) {
            Some(guest) => Guest { name: guest.name.clone(), nights: guest.nights + extra_nights },
            None => {
                return None;
            },
        };
        self.rooms.insert(room, updated);
        proof {
            assert(self.rooms_map().dom() =~= old(self).rooms_map().dom());
        }
        self.rooms.get(&room)
    }

    /// The name of the guest in a room, if the room is occupied.
    pub fn guest_report(&self, room: u32) -> (r: Option<&str>)
        ensures
            match r {
                Some(name) => self.rooms_map().contains_key(room) && name@
                    == self.rooms_map()[room]@.name,
                None => !self.rooms_map().contains_key(room),
            },
    {
        match self.rooms.get(&room) {
            Some(guest) => Some(guest.name.as_str()),
            None => None,
        }
    }
}

} // verus!
