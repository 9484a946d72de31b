//! The session manager: accepts new connections, allocates each a session
//! with a fresh bounded queue and a fresh identity, tracks the live
//! sessions, and removes a session from its tracking set once it reaches
//! `Terminated`.
//!
//! Sessions are independent: the manager hands a session out for its two
//! flows to drive (`checkout`) and takes it back (`checkin`), so no two
//! sessions ever share state through it.

use std::collections::HashMap;

use vstd::prelude::*;

use crate::session::{Session, SessionState};

verus! {

broadcast use vstd::std_specs::hash::group_hash_axioms;

/// Tracks every live session by its identity and allocates fresh
/// identities.
pub struct SessionManager {
    sessions: HashMap<u64, Session>,
    next_id: u64,
}

impl SessionManager {
    /// The identities of the tracked sessions.
    pub closed spec fn tracked_ids(&self) -> Set<u64> {
        self.sessions@.dom()
    }

    /// The tracked session with a given identity.
    pub closed spec fn session_at(&self, id: u64) -> Session {
        self.sessions@[id]
    }

    /// The next identity to hand out.
    pub closed spec fn next(&self) -> u64 {
        self.next_id
    }

    /// Well-formedness: every tracked session is well formed, registered
    /// under its own identity, and its identity is older than the next one
    /// to hand out — so a fresh identity never collides.
    pub closed spec fn wf(&self) -> bool {
        forall|id: u64|
            self.sessions@.dom().contains(id) ==> {
                &&& (#[trigger] self.sessions@[id]).wf()
                &&& self.sessions@[id].session_id() == id
                &&& id < self.next_id
            }
    }

    /// A manager tracking no sessions.
    pub fn new() -> (m: SessionManager)
        ensures
            m.wf(),
            m.tracked_ids() == Set::<u64>::empty(),
            m.next() == 0,
    {
        let m = SessionManager { sessions: HashMap::new(), next_id: 0 };
        proof {
            assert(m.tracked_ids() =~= Set::<u64>::empty());
        }
        m
    }

    /// Accept one connection: allocate a session with a fresh identity, a
    /// fresh queue of the given capacity and the given relayer label, track
    /// it, and return its identity. The new session starts `Active` and
    /// empty; every previously tracked session is untouched.
    pub fn accept(&mut self, label: String, capacity: usize) -> (id: u64)
        requires
            old(self).wf(),
            capacity >= 1,
            old(self).next() < u64::MAX,
        ensures
            final(self).wf(),
            !old(self).tracked_ids().contains(id),
            final(self).tracked_ids() == old(self).tracked_ids().insert(id),
            final(self).next() == old(self).next() + 1,
            final(self).session_at(id).wf(),
            final(self).session_at(id).session_id() == id,
            final(self).session_at(id).label_model() == label@,
            final(self).session_at(id).cap() == capacity,
            final(self).session_at(id).state() == SessionState::Active,
            final(self).session_at(id).buffered().len() == 0,
            forall|other: u64|
                old(self).tracked_ids().contains(other) ==> #[trigger] final(self).session_at(other)
                    == old(self).session_at(other),
    {
        let id = self.next_id;
        let session = Session::new(id, label, capacity);
        self.sessions.insert(id, session);
        self.next_id = self.next_id + 1;
        proof {
            assert(self.tracked_ids() =~= old(self).tracked_ids().insert(id));
        }
        id
    }

    /// Hand a tracked session out for its flows to drive, removing it from
    /// the tracking set while it is out. An unknown identity yields nothing
    /// and changes nothing.
    pub fn checkout(&mut self, id: u64) -> (r: Option<Session>)
        requires
            old(self).wf(),
        ensures
            final(self).wf(),
            final(self).next() == old(self).next(),
            old(self).tracked_ids().contains(id) ==> {
                &&& (r matches Some(s) && s == old(self).session_at(id))
                &&& final(self).tracked_ids() == old(self).tracked_ids().remove(id)
            },
            !old(self).tracked_ids().contains(id) ==> {
                &&& r is None
                &&& final(self).tracked_ids() == old(self).tracked_ids()
            },
            forall|other: u64|
                final(self).tracked_ids().contains(other) ==> #[trigger] final(self).session_at(
                    other,
                ) == old(self).session_at(other),
    {
        let r = self.sessions.remove(&id);
        proof {
            if old(self).tracked_ids().contains(id) {
                assert(self.tracked_ids() =~= old(self).tracked_ids().remove(id));
            } else {
                assert(self.tracked_ids() =~= old(self).tracked_ids());
            }
        }
        r
    }

    /// Take a session back under tracking after its flows have run. The
    /// session must be one this manager handed out: registered under its own
    /// identity, allocated before the next one to hand out.
    pub fn checkin(&mut self, session: Session)
        requires
            old(self).wf(),
            session.wf(),
            session.session_id() < old(self).next(),
        ensures
            final(self).wf(),
            final(self).next() == old(self).next(),
            final(self).tracked_ids() == old(self).tracked_ids().insert(session.session_id()),
            final(self).session_at(session.session_id()) == session,
            forall|other: u64|
                old(self).tracked_ids().contains(other) && other != session.session_id()
                    ==> #[trigger] final(self).session_at(other) == old(self).session_at(other),
    {
        let id = session.id();
        self.sessions.insert(id, session);
        proof {
            assert(self.tracked_ids() =~= old(self).tracked_ids().insert(id));
        }
    }

    /// Drop a session that has reached the end of its life: remove it from
    /// the tracking set and release it, provided it is tracked and
    /// `Terminated`. Returns whether anything was removed; a session in any
    /// earlier phase stays tracked and untouched.
    pub fn retire(&mut self, id: u64) -> (removed: bool)
        requires
            old(self).wf(),
        ensures
            final(self).wf(),
            final(self).next() == old(self).next(),
            removed == (old(self).tracked_ids().contains(id) && old(self).session_at(id).state()
                == SessionState::Terminated),
            removed ==> final(self).tracked_ids() == old(self).tracked_ids().remove(id),
            !removed ==> final(self).tracked_ids() == old(self).tracked_ids(),
            forall|other: u64|
                final(self).tracked_ids().contains(other) ==> #[trigger] final(self).session_at(
                    other,
                ) == old(self).session_at(other),
    {
        let terminated = match self.sessions.get(&id) {
            Some(s) => s.current_state() == SessionState::Terminated,
            None => false,
        };
        if terminated {
            self.sessions.remove(&id);
            proof {
                assert(self.tracked_ids() =~= old(self).tracked_ids().remove(id));
            }
            true
        } else {
            proof {
                assert(self.tracked_ids() =~= old(self).tracked_ids());
            }
            false
        }
    }

    /// Whether a session with this identity is currently tracked.
    pub fn is_tracked(&self, id: u64) -> (r: bool)
        ensures
            r == self.tracked_ids().contains(id),
    {
        self.sessions.contains_key(&id)
    }

    /// The identity the next accepted session will get.
    pub fn next_identity(&self) -> (r: u64)
        ensures
            r == self.next(),
    {
        self.next_id
    }

    /// How many sessions are currently tracked.
    pub fn session_count(&self) -> (n: usize)
        ensures
            n == self.tracked_ids().len(),
    {
        self.sessions.len()
    }
}

} // verus!
