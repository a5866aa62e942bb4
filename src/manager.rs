//! The session registry: each session id owns one connected backend.

use crate::storage::StorageError;
use crate::text::text_eq;
use vstd::prelude::*;

verus! {

/// Relies on uuid's `Uuid::new_v4` and its hyphenated `to_string`: a random
/// identifier; nothing is promised of its value.
#[verifier::external_body]
fn fresh_session_id() -> (r: String) {
    uuid::Uuid::new_v4().to_string()
}

/// Session ids and the backends they own, at most one backend per id, and
/// the session created last while it lasts.
#[derive(Debug)]
pub struct StorageManager<B> {
    sessions: Vec<(String, B)>,
    active: Option<String>,
}

/// No two of `sessions` share an id.
pub open spec fn ids_unique<B>(sessions: Seq<(String, B)>) -> bool {
    forall|i: int, j: int|
        0 <= i < sessions.len() && 0 <= j < sessions.len() && i != j ==> #[trigger] sessions[i].0@
            != #[trigger] sessions[j].0@
}

impl<B> StorageManager<B> {
    /// The sessions, in registration order.
    pub closed spec fn entries(&self) -> Seq<(String, B)> {
        self.sessions@
    }

    /// The session created last, unless it has been disconnected.
    pub closed spec fn active_id(&self) -> Option<Seq<char>> {
        match self.active {
            Some(a) => Some(a@),
            None => None,
        }
    }

    #[verifier::type_invariant]
    spec fn unique_ids(&self) -> bool {
        &&& ids_unique(self.sessions@)
        &&& self.active matches Some(a) ==> exists|i: int|
            0 <= i < self.sessions@.len() && #[trigger] self.sessions@[i].0@ == a@
    }

    /// Session `id` exists.
    pub open spec fn holds(&self, id: Seq<char>) -> bool {
        exists|i: int| 0 <= i < self.entries().len() && #[trigger] self.entries()[i].0@ == id
    }

    /// An empty registry.
    pub fn new() -> (r: Self)
        ensures
            r.entries().len() == 0,
            r.active_id() is None,
    {
        StorageManager { sessions: Vec::new(), active: None }
    }

    fn position(&self, id: &str) -> (r: Option<usize>)
        ensures
            r is Some <==> self.holds(id@),
            r matches Some(i) ==> i < self.entries().len() && self.entries()[i as int].0@ == id@,
    {
        let mut i: usize = 0;
        while i < self.sessions.len()
            invariant
                i <= self.entries().len(),
                forall|k: int| 0 <= k < i ==> #[trigger] self.entries()[k].0@ != id@,
            decreases self.entries().len() - i,
        {
            if text_eq(self.sessions[i].0.as_str(), id) {
                return Some(i);
            }
            i = i + 1;
        }
        None
    }

    /// Whether session `id` exists.
    pub fn session_exists(&self, id: &str) -> (r: bool)
        ensures
            r == self.holds(id@),
    {
        self.position(id).is_some()
    }

    /// The backend of session `id`.
    pub fn get_session_client(&self, id: &str) -> (r: Option<&B>)
        ensures
            r is Some <==> self.holds(id@),
            r matches Some(b) ==> exists|i: int|
                0 <= i < self.entries().len() && #[trigger] self.entries()[i].0@ == id@ && *b
                    == self.entries()[i].1,
    {
        match self.position(id) {
            Some(i) => Some(&self.sessions[i].1),
            None => None,
        }
    }

    /// Stores `backend` under `id`, unless `id` is taken: then nothing changes
    /// and the backend is handed back.
    pub fn insert(&mut self, id: String, backend: B) -> (r: Result<(), B>)
        ensures
            r is Ok <==> !old(self).holds(id@),
            r is Ok ==> final(self).entries() == old(self).entries().push((id, backend)),
            r matches Err(b) ==> b == backend && final(self).entries() == old(self).entries(),
            final(self).active_id() == old(self).active_id(),
    {
        proof {
            use_type_invariant(&*self);
        }
        if self.position(id.as_str()).is_some() {
            return Err(backend);
        }
        let mut active: Option<String> = None;
        core::mem::swap(&mut self.active, &mut active);
        let mut v: Vec<(String, B)> = Vec::new();
        core::mem::swap(&mut self.sessions, &mut v);
        v.push((id, backend));
        core::mem::swap(&mut self.sessions, &mut v);
        proof {
            if active is Some {
                let a = active->0;
                let i = choose|i: int| 0 <= i < old(self).entries().len() && #[trigger] old(self).entries()[i].0@ == a@;
                assert(self.sessions@[i] == old(self).entries()[i]);
            }
        }
        core::mem::swap(&mut self.active, &mut active);
        Ok(())
    }

    /// Registers `backend` under a freshly drawn random id and returns the id.
    /// Should the id already be taken, nothing changes and the backend is
    /// handed back.
    pub fn create_client(&mut self, backend: B) -> (r: Result<String, B>)
        ensures
            r matches Ok(id) ==> !old(self).holds(id@) && final(self).entries().len() == old(self).entries().len() + 1 && final(self).entries().last().0@ == id@
                && final(self).entries().last().1 == backend && final(self).entries().drop_last()
                == old(self).entries(),
            r matches Err(b) ==> b == backend && final(self).entries() == old(self).entries(),
            r matches Ok(id) ==> final(self).active_id() == Some(id@),
            r is Err ==> final(self).active_id() == old(self).active_id(),
    {
        let id = fresh_session_id();
        let key = id.clone();
        match self.insert(key, backend) {
            Ok(()) => {
                proof {
                    use_type_invariant(&*self);
                }
                assert(self.entries().drop_last() =~= old(self).entries());
                let mut active = Some(id.clone());
                proof {
                    assert(self.sessions@[self.sessions@.len() - 1].0@ == id@);
                }
                core::mem::swap(&mut self.active, &mut active);
                Ok(id)
            },
            Err(b) => Err(b),
        }
    }

    /// Removes session `id` and hands back its backend; removing an absent
    /// session changes nothing.
    pub fn disconnect(&mut self, id: &str) -> (r: Option<B>)
        ensures
            !final(self).holds(id@),
            r is Some <==> old(self).holds(id@),
            r is None ==> final(self).entries() == old(self).entries(),
            r matches Some(b) ==> exists|i: int|
                0 <= i < old(self).entries().len() && #[trigger] old(self).entries()[i].0@ == id@
                    && b == old(self).entries()[i].1 && final(self).entries() == old(self).entries().remove(i),
            final(self).active_id() == (if old(self).active_id() == Some(id@) {
                None
            } else {
                old(self).active_id()
            }),
    {
        proof {
            use_type_invariant(&*self);
        }
        match self.position(id) {
            Some(i) => {
                let mut active: Option<String> = None;
                core::mem::swap(&mut self.active, &mut active);
                let mut v: Vec<(String, B)> = Vec::new();
                core::mem::swap(&mut self.sessions, &mut v);
                let (_, b) = v.remove(i);
                proof {
                    let o = old(self).entries();
                    assert forall|k: int, l: int|
                        0 <= k < v@.len() && 0 <= l < v@.len() && k != l implies #[trigger] v@[k].0@
                        != #[trigger] v@[l].0@ by {
                        let k2 = if k < i { k } else { k + 1 };
                        let l2 = if l < i { l } else { l + 1 };
                        assert(v@[k] == o[k2] && v@[l] == o[l2]);
                    }
                }
                core::mem::swap(&mut self.sessions, &mut v);
                let keep = match &active {
                    Some(a) => !text_eq(a.as_str(), id),
                    None => false,
                };
                if keep {
                    proof {
                        let a = active->0;
                        let o = old(self).entries();
                        let j = choose|j: int| 0 <= j < o.len() && #[trigger] o[j].0@ == a@;
                        assert(j != i);
                        let j2 = if j < i { j } else { j - 1 };
                        assert(self.sessions@[j2] == o[j]);
                    }
                    core::mem::swap(&mut self.active, &mut active);
                }
                proof {
                    let o = old(self).entries();
                    assert forall|k: int| 0 <= k < final(self).entries().len() implies #[trigger] final(self).entries()[k].0@ != id@ by {
                        if k < i {
                            assert(final(self).entries()[k] == o[k]);
                        } else {
                            assert(final(self).entries()[k] == o[k + 1]);
                        }
                    }
                }
                Some(b)
            },
            None => None,
        }
    }

    /// The session created last, unless it has been disconnected.
    pub fn get_active_client(&self) -> (r: Result<String, StorageError>)
        ensures
            r is Ok <==> self.active_id() is Some,
            r matches Ok(id) ==> self.active_id() == Some(id@) && self.holds(id@),
            r is Err ==> r matches Err(StorageError::NotConnected),
    {
        proof {
            use_type_invariant(self);
        }
        match &self.active {
            Some(a) => {
                proof {
                    let i = choose|i: int| 0 <= i < self.sessions@.len() && #[trigger] self.sessions@[i].0@ == a@;
                    assert(self.entries()[i].0@ == a@);
                }
                Ok(a.clone())
            },
            None => Err(StorageError::NotConnected),
        }
    }

    /// Removes every session and hands back their backends, in registration
    /// order.
    pub fn disconnect_all(&mut self) -> (r: Vec<(String, B)>)
        ensures
            r@ == old(self).entries(),
            final(self).entries().len() == 0,
            final(self).active_id() is None,
    {
        proof {
            use_type_invariant(&*self);
        }
        let mut active: Option<String> = None;
        core::mem::swap(&mut self.active, &mut active);
        let mut v: Vec<(String, B)> = Vec::new();
        core::mem::swap(&mut self.sessions, &mut v);
        v
    }

    /// The ids of all sessions, in registration order.
    pub fn list_sessions(&self) -> (r: Vec<String>)
        ensures
            r@.len() == self.entries().len(),
            forall|k: int| 0 <= k < r@.len() ==> #[trigger] r@[k]@ == self.entries()[k].0@,
            ids_unique(self.entries()),
    {
        proof {
            use_type_invariant(self);
        }
        let mut ids: Vec<String> = Vec::new();
        let mut i: usize = 0;
        while i < self.sessions.len()
            invariant
                i <= self.entries().len(),
                ids@.len() == i,
                forall|k: int| 0 <= k < i ==> #[trigger] ids@[k]@ == self.entries()[k].0@,
            decreases self.entries().len() - i,
        {
            ids.push(self.sessions[i].0.clone());
            i = i + 1;
        }
        ids
    }
}

} // verus!
