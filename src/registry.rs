use vstd::prelude::*;
use std::collections::HashMap;
use crate::badge::MAX_SESSION_ID;
use crate::bundle::CapBundle;
use crate::cap::CapHandle;
use crate::error::CapError;
use crate::session::SessionCaps;

verus! {

broadcast use vstd::std_specs::hash::group_hash_axioms;

/// The sessions of a server, keyed by session id.
///
/// Ids are handed out in increasing order from 1, so every id in use lies
/// below `next_session_id`.
pub struct SessionRegistry {
    pub sessions: HashMap<u64, SessionCaps>,
    pub next_session_id: u64,
}

impl SessionRegistry {
    /// Each session is well formed and stored under its own id, and every id
    /// in use was handed out already.
    pub open spec fn wf(&self) -> bool {
        &&& 1 <= self.next_session_id <= MAX_SESSION_ID + 1
        &&& forall|id: u64| #[trigger]
            self.sessions@.contains_key(id) ==> {
                &&& self.sessions@[id].wf()
                &&& self.sessions@[id].session_id == id
                &&& 1 <= id < self.next_session_id
            }
    }

    /// Whether a session with id `id` is registered.
    pub open spec fn has(&self, id: u64) -> bool {
        self.sessions@.contains_key(id)
    }

    /// An empty registry; the first session will get id 1.
    pub fn new() -> (r: SessionRegistry)
        ensures
            r.wf(),
            r.sessions@ == Map::<u64, SessionCaps>::empty(),
            r.next_session_id == 1,
    {
        SessionRegistry { sessions: HashMap::new(), next_session_id: 1 }
    }

    /// Whether session `id` is registered.
    pub fn contains(&self, id: u64) -> (r: bool)
        requires
            self.wf(),
        ensures
            r == self.has(id),
    {
        self.sessions.contains_key(&id)
    }

    /// The session with id `id`, if it is registered.
    pub fn session(&self, id: u64) -> (r: Option<&SessionCaps>)
        requires
            self.wf(),
        ensures
            r is None <==> !self.has(id),
            r matches Some(s) ==> *s == self.sessions@[id],
    {
        self.sessions.get(&id)
    }

    /// Registers a new session rooted at `root_cap` under the next free id,
    /// and returns that id; `TransferFailed` where the ids are used up.
    pub fn open_session(
        &mut self,
        root_cap: CapHandle,
        max_depth: usize,
        max_derivations: usize,
        created_at_ms: u128,
    ) -> (r: Result<u64, CapError>)
        requires
            old(self).wf(),
        ensures
            final(self).wf(),
            old(self).next_session_id > MAX_SESSION_ID ==> r == Err::<u64, CapError>(
                CapError::TransferFailed,
            ) && *final(self) == *old(self),
            old(self).next_session_id <= MAX_SESSION_ID ==> r == Ok::<u64, CapError>(
                old(self).next_session_id,
            ) && final(self).opened_from(
                *old(self),
                root_cap,
                max_depth,
                max_derivations,
                created_at_ms,
            ),
    {
        if self.next_session_id > MAX_SESSION_ID {
            return Err(CapError::TransferFailed);
        }
        let id = self.next_session_id;
        let s = SessionCaps::new(id, root_cap, max_depth, max_derivations, created_at_ms);
        self.sessions.insert(id, s);
        self.next_session_id = id + 1;
        proof {
            assert(!old(self).has(id));
            assert(self.sessions@.remove(id) =~= old(self).sessions@);
            assert forall|k: u64| #[trigger] self.sessions@.contains_key(k) implies {
                &&& self.sessions@[k].wf()
                &&& self.sessions@[k].session_id == k
                &&& 1 <= k < self.next_session_id
            } by {
                if k != id {
                    assert(old(self).sessions@.contains_key(k));
                }
            }
        }
        Ok(id)
    }

    /// `self` is `before` with a fresh session added under the next id.
    pub open spec fn opened_from(
        &self,
        before: SessionRegistry,
        root_cap: CapHandle,
        max_depth: usize,
        max_derivations: usize,
        created_at_ms: u128,
    ) -> bool {
        let id = before.next_session_id;
        let s = self.sessions@[id];
        &&& !before.has(id)
        &&& self.next_session_id == id + 1
        &&& self.has(id)
        &&& self.sessions@.remove(id) == before.sessions@
        &&& s.session_id == id
        &&& s.root_cap == root_cap
        &&& s.max_depth == max_depth
        &&& s.max_derivations == max_derivations
        &&& s.derivation_count == 0
        &&& !s.revoked
        &&& s.derived_caps@.len() == 0
        &&& s.bundles@.len() == 0
        &&& s.created_at_ms == created_at_ms
    }

    /// Adds `bundle` to the bookkeeping of session `id`; `TransferFailed`
    /// where no such session is registered.
    pub fn grant_bundle(&mut self, id: u64, bundle: CapBundle) -> (r: Result<(), CapError>)
        requires
            old(self).wf(),
        ensures
            final(self).wf(),
            !old(self).has(id) ==> r == Err::<(), CapError>(CapError::TransferFailed)
                && *final(self) == *old(self),
            old(self).has(id) ==> r is Ok && final(self).granted_from(*old(self), id, bundle),
    {
        if !self.sessions.contains_key(&id) {
            return Err(CapError::TransferFailed);
        }
        match self.sessions.remove(&id) {
            None => Err(CapError::TransferFailed),
            Some(s) => {
                let mut s = s;
                s.record_bundle(bundle);
                self.sessions.insert(id, s);
                proof {
                    assert(self.sessions@.remove(id) =~= old(self).sessions@.remove(id));
                    assert forall|k: u64| #[trigger] self.sessions@.contains_key(k) implies {
                        &&& self.sessions@[k].wf()
                        &&& self.sessions@[k].session_id == k
                        &&& 1 <= k < self.next_session_id
                    } by {
                        if k != id {
                            assert(old(self).sessions@.contains_key(k));
                        }
                    }
                }
                Ok(())
            },
        }
    }

    /// `self` is `before` with `bundle` added to the bundles of session `id`.
    pub open spec fn granted_from(&self, before: SessionRegistry, id: u64, bundle: CapBundle) -> bool {
        let s = self.sessions@[id];
        let t = before.sessions@[id];
        &&& self.next_session_id == before.next_session_id
        &&& self.has(id)
        &&& self.sessions@.remove(id) == before.sessions@.remove(id)
        &&& s.bundles@ == t.bundles@.push(bundle)
        &&& s.quota() == t.quota()
        &&& s.session_id == id
        &&& s.root_cap == t.root_cap
        &&& s.derived_caps == t.derived_caps
    }
}

} // verus!
