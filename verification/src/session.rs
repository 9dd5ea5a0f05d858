//! The storage identity: one session record per known user, keyed by
//! username, with a pointer to the current user. Every mutation here is
//! followed by a durable write on the unverified edge before the caller
//! proceeds, so the persisted view never diverges from this one beyond
//! the operation in flight.

use vstd::prelude::*;

use crate::error::AuthError;

verus! {

/// The credential bundle of one storage identity.
pub struct Session {
    pub username: String,
    pub access_token: String,
    pub refresh_token: String,
    /// Seconds-since-epoch instant at which the access token stops
    /// working; the session counts as expired from this instant on.
    pub expiration_timestamp: u64,
    pub root_path: String,
}

impl Session {
    /// Whether the access token has expired at instant `now`. A pure
    /// timestamp comparison: no call leaves this process.
    pub open spec fn spec_expired(self, now: u64) -> bool {
        self.expiration_timestamp <= now
    }

    /// Executable form of `spec_expired`.
    pub fn is_expired(&self, now: u64) -> (r: bool)
        ensures
            r == self.spec_expired(now),
    {
        self.expiration_timestamp <= now
    }
}

/// The set of known users and the pointer to the current one.
pub struct SessionStore {
    users: Vec<Session>,
    current: usize,
}

impl SessionStore {
    /// The known users' sessions, in the order they were first added.
    pub closed spec fn users(self) -> Seq<Session> {
        self.users@
    }

    /// Index of the current user; meaningful only while users exist.
    pub closed spec fn current_idx(self) -> int {
        self.current as int
    }

    /// Whether any user is known (and hence one is current).
    pub open spec fn has_current(self) -> bool {
        self.users().len() > 0
    }

    /// The current user's session.
    pub open spec fn current_session(self) -> Session {
        self.users()[self.current_idx()]
    }

    /// Store validity: usernames are distinct and the current pointer is
    /// in range whenever users exist.
    pub open spec fn wf(self) -> bool {
        &&& forall|i: int, j: int|
            0 <= i < j < self.users().len() ==> (#[trigger] self.users()[i]).username@ != (
            #[trigger] self.users()[j]).username@
        &&& (self.users().len() > 0 ==> 0 <= self.current_idx() < self.users().len())
        &&& (self.users().len() == 0 ==> self.current_idx() == 0)
    }

    /// Whether a user of that name is known.
    pub open spec fn contains_user(self, name: Seq<char>) -> bool {
        exists|i: int|
            0 <= i < self.users().len() && (#[trigger] self.users()[i]).username@ == name
    }

    /// Index of the user of that name.
    pub open spec fn idx_of_user(self, name: Seq<char>) -> int {
        choose|i: int|
            0 <= i < self.users().len() && (#[trigger] self.users()[i]).username@ == name
    }

    /// An empty store: no users, nobody current.
    pub fn new() -> (r: SessionStore)
        ensures
            r.wf(),
            r.users() == Seq::<Session>::empty(),
            !r.has_current(),
    {
        SessionStore { users: Vec::new(), current: 0 }
    }

    /// Index of the user of that name, if known.
    fn find(&self, name: &String) -> (r: Option<usize>)
        requires
            self.wf(),
        ensures
            match r {
                Some(k) => self.contains_user(name@) && k as int == self.idx_of_user(name@) && k
                    < self.users().len() && self.users()[k as int].username@ == name@,
                None => !self.contains_user(name@),
            },
    {
        let n = self.users.len();
        let mut i: usize = 0;
        while i < n
            invariant
                self.wf(),
                n == self.users().len(),
                i <= n,
                forall|k: int| 0 <= k < i ==> (#[trigger] self.users()[k]).username@ != name@,
            decreases n - i,
        {
            if self.users[i].username == *name {
                proof {
                    let c = self.idx_of_user(name@);
                    assert(self.contains_user(name@));
                    assert(0 <= c < self.users().len() && self.users()[c].username@ == name@);
                    let ii = i as int;
                    if c != ii {
                        if c < ii {
                            assert(self.users()[c].username@ != self.users()[ii].username@);
                        } else {
                            assert(self.users()[ii].username@ != self.users()[c].username@);
                        }
                    }
                }
                return Some(i);
            }
            i += 1;
        }
        None
    }

    /// Stores the session under its username — overwriting the user's
    /// existing record in place, or adding a new user — and makes that
    /// user current.
    pub fn upsert_current(&mut self, s: Session)
        requires
            old(self).wf(),
        ensures
            final(self).wf(),
            final(self).has_current(),
            final(self).current_session() == s,
            old(self).contains_user(s.username@) ==> final(self).users() == old(
                self,
            ).users().update(old(self).idx_of_user(s.username@), s) && final(self).current_idx()
                == old(self).idx_of_user(s.username@),
            !old(self).contains_user(s.username@) ==> final(self).users() == old(
                self,
            ).users().push(s) && final(self).current_idx() == old(self).users().len(),
    {
        let ghost name = s.username@;
        match self.find(&s.username) {
            Some(k) => {
                self.users[k] = s;
                self.current = k;
                proof {
                    let before = old(self).users();
                    let after = self.users();
                    assert forall|i: int, j: int|
                        0 <= i < j < after.len() implies (#[trigger] after[i]).username@ != (
                    #[trigger] after[j]).username@ by {
                        assert(before[i].username@ != before[j].username@);
                        assert(after[i] == if i == k as int {
                            s
                        } else {
                            before[i]
                        });
                        assert(after[j] == if j == k as int {
                            s
                        } else {
                            before[j]
                        });
                        assert(before[k as int].username@ == s.username@);
                    }
                    assert(self.wf());
                }
            },
            None => {
                self.users.push(s);
                let last = self.users.len() - 1;
                self.current = last;
                proof {
                    let before = old(self).users();
                    let after = self.users();
                    assert forall|i: int, j: int|
                        0 <= i < j < after.len() implies (#[trigger] after[i]).username@ != (
                    #[trigger] after[j]).username@ by {
                        if j == before.len() as int {
                            assert(after[i] == before[i]);
                            if before[i].username@ == name {
                                assert(old(self).contains_user(name));
                            }
                        } else {
                            assert(after[i] == before[i]);
                            assert(after[j] == before[j]);
                        }
                    }
                    assert(self.wf());
                }
            },
        }
    }

    /// How many users are known.
    pub fn user_count(&self) -> (r: usize)
        ensures
            r == self.users().len(),
    {
        self.users.len()
    }

    /// The session at a position in the user list, for the persistence
    /// edge to write every known user out.
    pub fn user_at(&self, i: usize) -> (r: &Session)
        requires
            i < self.users().len(),
        ensures
            *r == self.users()[i as int],
    {
        &self.users[i]
    }

    /// The current user's session, if any user is known.
    pub fn get_current(&self) -> (r: Option<&Session>)
        requires
            self.wf(),
        ensures
            match r {
                Some(s) => self.has_current() && *s == self.current_session(),
                None => !self.has_current(),
            },
    {
        if self.users.len() == 0 {
            None
        } else {
            Some(&self.users[self.current])
        }
    }

    /// Replaces the current user's tokens and expiry in place, leaving
    /// the username, root path and every other user untouched.
    pub fn update_current_tokens(
        &mut self,
        access_token: String,
        refresh_token: String,
        expiration_timestamp: u64,
    )
        requires
            old(self).wf(),
            old(self).has_current(),
        ensures
            final(self).wf(),
            final(self).has_current(),
            final(self).current_idx() == old(self).current_idx(),
            final(self).users() == old(self).users().update(
                old(self).current_idx(),
                (Session { access_token, refresh_token, expiration_timestamp, ..old(
                    self,
                ).current_session() }),
            ),
    {
        let k = self.current;
        let m = &mut self.users[k];
        m.access_token = access_token;
        m.refresh_token = refresh_token;
        m.expiration_timestamp = expiration_timestamp;
        proof {
            let before = old(self).users();
            let after = self.users();
            assert forall|i: int, j: int|
                0 <= i < j < after.len() implies (#[trigger] after[i]).username@ != (
            #[trigger] after[j]).username@ by {
                assert(before[i].username@ != before[j].username@);
                if i == k as int {
                    assert(after[i].username@ == before[i].username@);
                    assert(after[j] == before[j]);
                } else if j == k as int {
                    assert(after[i] == before[i]);
                    assert(after[j].username@ == before[j].username@);
                } else {
                    assert(after[i] == before[i]);
                    assert(after[j] == before[j]);
                }
            }
            assert(self.wf());
        }
    }

    /// Points the current-user marker at the named user.
    pub fn set_current(&mut self, username: &String) -> (r: Result<(), AuthError>)
        requires
            old(self).wf(),
        ensures
            final(self).wf(),
            final(self).users() == old(self).users(),
            r.is_ok() <==> old(self).contains_user(username@),
            match r {
                Ok(()) => final(self).current_idx() == old(self).idx_of_user(username@) && final(self).current_session().username@ == username@,
                Err(e) => *final(self) == *old(self) && e == AuthError::UserNotFound,
            },
    {
        match self.find(username) {
            Some(k) => {
                self.current = k;
                Ok(())
            },
            None => Err(AuthError::UserNotFound),
        }
    }

    /// Removes the named user, or the current user if no name is given.
    /// Fails — changing nothing — when no user would remain to select as
    /// new current, or when the named user is unknown. When the removed
    /// user was current, the first remaining user becomes current;
    /// otherwise the current user stays current.
    pub fn remove_user(&mut self, username: Option<&String>) -> (r: Result<(), AuthError>)
        requires
            old(self).wf(),
        ensures
            final(self).wf(),
            match r {
                Ok(()) => {
                    &&& old(self).users().len() > 1
                    &&& {
                        let tidx = match username {
                            Some(name) => old(self).idx_of_user(name@),
                            None => old(self).current_idx(),
                        };
                        &&& (match username {
                            Some(name) => old(self).contains_user(name@),
                            None => true,
                        })
                        &&& final(self).users() == old(self).users().remove(tidx)
                        &&& final(self).has_current()
                        &&& (tidx == old(self).current_idx() ==> final(self).current_idx() == 0)
                        &&& (tidx != old(self).current_idx() ==> final(self).current_session()
                            == old(self).current_session())
                    }
                },
                Err(e) => {
                    &&& *final(self) == *old(self)
                    &&& e == match username {
                        Some(name) => if !old(self).contains_user(name@) {
                            AuthError::UserNotFound
                        } else {
                            AuthError::NoUserLeft
                        },
                        None => AuthError::NoUserLeft,
                    }
                    &&& (match username {
                        Some(name) => !old(self).contains_user(name@) || old(self).users().len()
                            <= 1,
                        None => old(self).users().len() <= 1,
                    })
                },
            },
    {
        let tidx: usize = match username {
            Some(name) => {
                match self.find(name) {
                    Some(k) => k,
                    None => {
                        return Err(AuthError::UserNotFound);
                    },
                }
            },
            None => {
                if self.users.len() == 0 {
                    return Err(AuthError::NoUserLeft);
                }
                self.current
            },
        };
        if self.users.len() <= 1 {
            return Err(AuthError::NoUserLeft);
        }
        let ghost before = self.users();
        let ghost oldcur = self.current_idx();
        let was_current = tidx == self.current;
        self.users.remove(tidx);
        if was_current {
            self.current = 0;
        } else if tidx < self.current {
            self.current = self.current - 1;
        }
        proof {
            let after = self.users();
            assert forall|i: int, j: int|
                0 <= i < j < after.len() implies (#[trigger] after[i]).username@ != (
            #[trigger] after[j]).username@ by {
                let bi = if i < tidx as int {
                    i
                } else {
                    i + 1
                };
                let bj = if j < tidx as int {
                    j
                } else {
                    j + 1
                };
                assert(after[i] == before[bi]);
                assert(after[j] == before[bj]);
            }
            if !was_current {
                assert(self.users()[self.current_idx()] == before[oldcur]);
            }
            assert(self.wf());
        }
        Ok(())
    }
}

} // verus!
