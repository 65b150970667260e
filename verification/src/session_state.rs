//! Typed sessions over an id-keyed session store.
//!
//! A session is created anonymous, becomes authenticated only through the
//! login path (renew, then insert of the identity), and is destroyed by an
//! explicit logout. Renewal rotates the session identifier while keeping the
//! rest of the session state, which defeats fixation: an identifier seen
//! before authentication is dead after it.

use vstd::prelude::*;

use crate::authentication::UserId;

verus! {

/// One live session: its identifier and the identity stored in it, if any.
pub struct SessionEntry {
    pub id: u64,
    pub user_id: Option<UserId>,
}

/// The session store: live sessions keyed by identifier, and the counter
/// from which fresh identifiers are issued.
pub struct SessionStore {
    next_id: u64,
    entries: Vec<SessionEntry>,
}

/// A session read failure; the typed layer reports it only on corrupted
/// stored session data, which this store's typed entries cannot produce.
#[derive(Clone, Copy, Debug, PartialEq, Eq, Structural)]
pub struct SessionGetError;

/// A session write failure; the typed layer reports it only on a
/// serialization error, which this store's typed entries cannot produce.
#[derive(Clone, Copy, Debug, PartialEq, Eq, Structural)]
pub struct SessionInsertError;

/// Whether two stores hold the same session (and the same identity in it)
/// under one identifier.
pub open spec fn sessions_agree_on(a: SessionStore, b: SessionStore, id: u64) -> bool {
    &&& a.contains_session(id) == b.contains_session(id)
    &&& a.spec_user_of(id) == b.spec_user_of(id)
}

impl SessionStore {
    /// The live sessions.
    pub closed spec fn spec_entries(self) -> Seq<SessionEntry> {
        self.entries@
    }

    /// The counter from which fresh identifiers are issued.
    pub closed spec fn spec_next_id(self) -> u64 {
        self.next_id
    }

    /// Well-formedness: identifiers are unique and below the issue counter.
    pub open spec fn wf(self) -> bool {
        &&& forall|i: int, j: int|
            0 <= i < j < self.spec_entries().len() ==> #[trigger] self.spec_entries()[i].id
                != #[trigger] self.spec_entries()[j].id
        &&& forall|i: int|
            0 <= i < self.spec_entries().len() ==> #[trigger] self.spec_entries()[i].id
                < self.spec_next_id()
    }

    /// Whether a session with the identifier is live.
    pub open spec fn contains_session(self, id: u64) -> bool {
        exists|i: int|
            0 <= i < self.spec_entries().len() && #[trigger] self.spec_entries()[i].id == id
    }

    /// The index of the live session with the identifier.
    pub open spec fn index_of_session(self, id: u64) -> int {
        choose|i: int|
            0 <= i < self.spec_entries().len() && #[trigger] self.spec_entries()[i].id == id
    }

    /// The identity stored under the identifier: nothing when the session is
    /// not live or is anonymous.
    pub open spec fn spec_user_of(self, id: u64) -> Option<UserId> {
        if self.contains_session(id) {
            self.spec_entries()[self.index_of_session(id)].user_id
        } else {
            Option::None
        }
    }

    /// In a well-formed store, any index holding an identifier is the index
    /// the id-keyed accessors speak of.
    pub proof fn lemma_session_index(self, i: int)
        requires
            self.wf(),
            0 <= i < self.spec_entries().len(),
        ensures
            self.contains_session(self.spec_entries()[i].id),
            self.index_of_session(self.spec_entries()[i].id) == i,
            self.spec_user_of(self.spec_entries()[i].id) == self.spec_entries()[i].user_id,
    {
        let id = self.spec_entries()[i].id;
        assert(self.contains_session(id));
        let j = self.index_of_session(id);
        if j < i {
            assert(self.spec_entries()[j].id != self.spec_entries()[i].id);
        } else if i < j {
            assert(self.spec_entries()[i].id != self.spec_entries()[j].id);
        }
    }

    /// Creates a store with no live session; identifiers are issued from
    /// zero.
    pub fn new() -> (r: SessionStore)
        ensures
            r.wf(),
            r.spec_entries().len() == 0,
            r.spec_next_id() == 0,
            forall|id: u64| !(#[trigger] r.contains_session(id)),
    {
        SessionStore { next_id: 0, entries: Vec::new() }
    }

    /// Starts a fresh anonymous session, as the first request of a visit
    /// does.
    pub fn start_session(&mut self) -> (r: TypedSession)
        requires
            old(self).wf(),
            old(self).spec_next_id() < u64::MAX,
        ensures
            final(self).wf(),
            !old(self).contains_session(r.spec_id()),
            final(self).contains_session(r.spec_id()),
            final(self).spec_user_of(r.spec_id()) is None,
            forall|id: u64|
                id != r.spec_id() ==> #[trigger] sessions_agree_on(*old(self), *final(self), id),
            old(self).spec_next_id() <= final(self).spec_next_id() <= old(self).spec_next_id()
                + 1,
    {
        let id = self.next_id;
        self.next_id = self.next_id + 1;
        self.entries.push(SessionEntry { id, user_id: None });
        proof {
            let n = old(self).spec_entries().len() as int;
            assert(final(self).spec_entries()[n].id == id);
            assert forall|other: u64| other != id implies #[trigger] sessions_agree_on(
                *old(self),
                *final(self),
                other,
            ) by {
                if old(self).contains_session(other) {
                    let k = old(self).index_of_session(other);
                    assert(final(self).spec_entries()[k].id == other);
                    final(self).lemma_session_index(k);
                    old(self).lemma_session_index(k);
                }
                if final(self).contains_session(other) {
                    let k = final(self).index_of_session(other);
                    assert(k != n);
                    assert(old(self).spec_entries()[k].id == other);
                    final(self).lemma_session_index(k);
                    old(self).lemma_session_index(k);
                }
            }
            final(self).lemma_session_index(n);
        }
        TypedSession { session_id: id }
    }

    /// Removes the session with the identifier, handing back the identity it
    /// stored, if it was live at all.
    fn take_session(&mut self, id: u64) -> (r: Option<UserId>)
        requires
            old(self).wf(),
        ensures
            final(self).wf(),
            r == old(self).spec_user_of(id),
            !final(self).contains_session(id),
            forall|other: u64|
                other != id ==> #[trigger] sessions_agree_on(*old(self), *final(self), other),
            final(self).spec_next_id() == old(self).spec_next_id(),
    {
        let n = self.entries.len();
        let mut i: usize = 0;
        while i < n
            invariant
                0 <= i <= n,
                n == self.spec_entries().len(),
                self.wf(),
                self == old(self),
                forall|j: int| 0 <= j < i ==> #[trigger] self.spec_entries()[j].id != id,
            decreases n - i,
        {
            if self.entries[i].id == id {
                proof {
                    self.lemma_session_index(i as int);
                }
                let entry = self.entries.swap_remove(i);
                proof {
                    let last = n - 1;
                    assert forall|a: int, b: int|
                        0 <= a < b < self.spec_entries().len() implies self.spec_entries()[a].id
                        != self.spec_entries()[b].id by {
                        let oa: int = if a == i { last as int } else { a };
                        let ob: int = if b == i { last as int } else { b };
                        assert(self.spec_entries()[a] == old(self).spec_entries()[oa]);
                        assert(self.spec_entries()[b] == old(self).spec_entries()[ob]);
                    }
                    assert(self.wf());
                    assert(!self.contains_session(id)) by {
                        if self.contains_session(id) {
                            let k = self.index_of_session(id);
                            let ok: int = if k == i { last as int } else { k };
                            assert(old(self).spec_entries()[ok].id == id);
                            old(self).lemma_session_index(ok);
                        }
                    }
                    assert forall|other: u64| other != id implies #[trigger] sessions_agree_on(
                        *old(self),
                        *final(self),
                        other,
                    ) by {
                        if old(self).contains_session(other) {
                            let k = old(self).index_of_session(other);
                            assert(old(self).spec_entries()[k].id == other);
                            let nk: int = if k == last { i as int } else { k };
                            assert(k != i);
                            if k == last {
                                assert(self.spec_entries()[nk] == old(self).spec_entries()[k]);
                            } else {
                                assert(self.spec_entries()[nk] == old(self).spec_entries()[k]);
                            }
                            self.lemma_session_index(nk);
                            old(self).lemma_session_index(k);
                        }
                        if final(self).contains_session(other) {
                            let k = self.index_of_session(other);
                            let ok: int = if k == i { last as int } else { k };
                            assert(old(self).spec_entries()[ok].id == other);
                            old(self).lemma_session_index(ok);
                            self.lemma_session_index(k);
                        }
                    }
                }
                return entry.user_id;
            }
            i += 1;
        }
        proof {
            assert(!old(self).contains_session(id));
        }
        None
    }
}

/// A session that is no longer live — as after `log_out` purges it — yields
/// no identity, however its old cookie is replayed.
pub proof fn lemma_purged_session_has_no_identity(sessions: SessionStore, session_id: u64)
    requires
        !sessions.contains_session(session_id),
    ensures
        sessions.spec_user_of(session_id) is None,
{
}

/// Representation of a user's session: the typed handle that a request's
/// cookie identifies.
pub struct TypedSession {
    session_id: u64,
}

impl TypedSession {
    /// The session identifier the handle carries.
    pub closed spec fn spec_id(self) -> u64 {
        self.session_id
    }

    /// The session identifier, as the cookie carries it.
    pub fn session_id(&self) -> (r: u64)
        ensures
            r == self.spec_id(),
    {
        self.session_id
    }

    /// Derives the typed handle from the identifier a request's cookie
    /// carries.
    pub fn from_cookie(session_id: u64) -> (r: TypedSession)
        ensures
            r.spec_id() == session_id,
    {
        TypedSession { session_id }
    }

    /// Renews the session identifier, assigning the existing session state
    /// to a fresh identifier and retiring the old one.
    pub fn renew(&mut self, sessions: &mut SessionStore)
        requires
            old(sessions).wf(),
            old(sessions).spec_next_id() < u64::MAX - 1,
        ensures
            final(sessions).wf(),
            final(self).spec_id() != old(self).spec_id(),
            !old(sessions).contains_session(final(self).spec_id()),
            final(sessions).contains_session(final(self).spec_id()),
            final(sessions).spec_user_of(final(self).spec_id()) == old(sessions).spec_user_of(
                old(self).spec_id(),
            ),
            !final(sessions).contains_session(old(self).spec_id()),
            forall|id: u64|
                id != old(self).spec_id() && id != final(self).spec_id()
                    ==> #[trigger] sessions_agree_on(*old(sessions), *final(sessions), id),
            old(sessions).spec_next_id() <= final(sessions).spec_next_id() <= old(
                sessions,
            ).spec_next_id() + 2,
    {
        let user = sessions.take_session(self.session_id);
        let ghost mid = *sessions;
        let mut new_id = sessions.next_id;
        sessions.next_id = sessions.next_id + 1;
        if new_id == self.session_id {
            new_id = sessions.next_id;
            sessions.next_id = sessions.next_id + 1;
        }
        sessions.entries.push(SessionEntry { id: new_id, user_id: user });
        proof {
            let n = mid.spec_entries().len() as int;
            assert(mid.spec_next_id() <= new_id);
            assert forall|a: int, b: int|
                0 <= a < b < final(sessions).spec_entries().len() implies final(
                sessions
            ).spec_entries()[a].id != final(sessions).spec_entries()[b].id by {
                if b == n {
                    assert(mid.spec_entries()[a].id < mid.spec_next_id());
                } else {
                    assert(mid.spec_entries()[a].id != mid.spec_entries()[b].id);
                }
            }
            assert(final(sessions).wf());
            assert(final(sessions).spec_entries()[n].id == new_id);
            final(sessions).lemma_session_index(n);
            assert(!old(sessions).contains_session(new_id)) by {
                if old(sessions).contains_session(new_id) {
                    let k = old(sessions).index_of_session(new_id);
                    assert(old(sessions).spec_entries()[k].id < old(sessions).spec_next_id());
                }
            }
            assert forall|other: u64| other != new_id implies sessions_agree_on(
                mid,
                *final(sessions),
                other,
            ) by {
                if mid.contains_session(other) {
                    let k = mid.index_of_session(other);
                    assert(final(sessions).spec_entries()[k].id == other);
                    final(sessions).lemma_session_index(k);
                    mid.lemma_session_index(k);
                }
                if final(sessions).contains_session(other) {
                    let k = final(sessions).index_of_session(other);
                    assert(k != n);
                    assert(mid.spec_entries()[k].id == other);
                    final(sessions).lemma_session_index(k);
                    mid.lemma_session_index(k);
                }
            }
            assert(!final(sessions).contains_session(old(self).spec_id())) by {
                assert(sessions_agree_on(mid, *final(sessions), old(self).spec_id()));
            }
            assert forall|id: u64|
                id != old(self).spec_id() && id != new_id implies #[trigger] sessions_agree_on(
                *old(sessions),
                *final(sessions),
                id,
            ) by {
                assert(sessions_agree_on(*old(sessions), mid, id));
                assert(sessions_agree_on(mid, *final(sessions), id));
            }
        }
        self.session_id = new_id;
    }

    /// Inserts the identity into the session, marking it authenticated.
    pub fn insert_user_id(&self, sessions: &mut SessionStore, user_id: UserId) -> (r: Result<
        (),
        SessionInsertError,
    >)
        requires
            old(sessions).wf(),
            old(sessions).contains_session(self.spec_id()),
        ensures
            r is Ok,
            final(sessions).wf(),
            final(sessions).contains_session(self.spec_id()),
            final(sessions).spec_user_of(self.spec_id()) == Option::Some(user_id),
            forall|id: u64|
                id != self.spec_id() ==> #[trigger] sessions_agree_on(
                    *old(sessions),
                    *final(sessions),
                    id,
                ),
            final(sessions).spec_next_id() == old(sessions).spec_next_id(),
    {
        let n = sessions.entries.len();
        let mut i: usize = 0;
        while i < n
            invariant
                0 <= i <= n,
                n == sessions.spec_entries().len(),
                sessions.wf(),
                sessions == old(sessions),
                old(sessions).contains_session(self.spec_id()),
                forall|j: int| 0 <= j < i ==> #[trigger] sessions.spec_entries()[j].id
                    != self.spec_id(),
            decreases n - i,
        {
            if sessions.entries[i].id == self.session_id {
                proof {
                    sessions.lemma_session_index(i as int);
                }
                sessions.entries[i] = SessionEntry {
                    id: self.session_id,
                    user_id: Some(user_id),
                };
                proof {
                    assert forall|a: int, b: int|
                        0 <= a < b < sessions.spec_entries().len() implies sessions.spec_entries()[a].id
                        != sessions.spec_entries()[b].id by {
                        assert(old(sessions).spec_entries()[a].id != old(
                            sessions,
                        ).spec_entries()[b].id);
                    }
                    sessions.lemma_session_index(i as int);
                    assert forall|id: u64| id != self.spec_id() implies #[trigger] sessions_agree_on(
                        *old(sessions),
                        *final(sessions),
                        id,
                    ) by {
                        if old(sessions).contains_session(id) {
                            let k = old(sessions).index_of_session(id);
                            assert(k != i);
                            assert(final(sessions).spec_entries()[k].id == id);
                            final(sessions).lemma_session_index(k);
                            old(sessions).lemma_session_index(k);
                        }
                        if final(sessions).contains_session(id) {
                            let k = final(sessions).index_of_session(id);
                            assert(k != i);
                            assert(old(sessions).spec_entries()[k].id == id);
                            final(sessions).lemma_session_index(k);
                            old(sessions).lemma_session_index(k);
                        }
                    }
                }
                return Ok(());
            }
            i += 1;
        }
        proof {
            assert(!old(sessions).contains_session(self.spec_id()));
        }
        Ok(())
    }

    /// Returns the identity stored in the session, if any; a session that is
    /// not live yields no identity.
    pub fn get_user_id(&self, sessions: &SessionStore) -> (r: Result<
        Option<UserId>,
        SessionGetError,
    >)
        requires
            sessions.wf(),
        ensures
            r == Result::<Option<UserId>, SessionGetError>::Ok(sessions.spec_user_of(
                self.spec_id(),
            )),
    {
        let n = sessions.entries.len();
        let mut i: usize = 0;
        while i < n
            invariant
                0 <= i <= n,
                n == sessions.spec_entries().len(),
                sessions.wf(),
                forall|j: int| 0 <= j < i ==> #[trigger] sessions.spec_entries()[j].id
                    != self.spec_id(),
            decreases n - i,
        {
            if sessions.entries[i].id == self.session_id {
                proof {
                    sessions.lemma_session_index(i as int);
                }
                return Ok(sessions.entries[i].user_id);
            }
            i += 1;
        }
        proof {
            assert(!sessions.contains_session(self.spec_id()));
        }
        Ok(None)
    }

    /// Irreversibly purges the session, client- and server-side; the handle
    /// is consumed and cannot be reused.
    pub fn log_out(self, sessions: &mut SessionStore)
        requires
            old(sessions).wf(),
        ensures
            final(sessions).wf(),
            !final(sessions).contains_session(self.spec_id()),
            final(sessions).spec_user_of(self.spec_id()) is None,
            forall|id: u64|
                id != self.spec_id() ==> #[trigger] sessions_agree_on(
                    *old(sessions),
                    *final(sessions),
                    id,
                ),
            final(sessions).spec_next_id() == old(sessions).spec_next_id(),
    {
        let _ = sessions.take_session(self.session_id);
    }
}

} // verus!
