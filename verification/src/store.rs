//! The session store: persistence for user and session rows.
//!
//! `MemoryStore` is the ephemeral implementation of the store contract
//! (users keyed by unique email, sessions keyed by unique token, every
//! session owned by an existing user).  All four operations of the store
//! contract are verified against the model-level functions in this module;
//! the same functions also state how a whole login attempt changes the
//! store (`login_store`), which the laws of the crate are proved over.

use vstd::prelude::*;

use crate::records::{SessionModel, Session, StoreError, UserModel, User};

verus! {

/// Model of the whole store: the two tables.
#[verifier::ext_equal]
pub ghost struct StoreModel {
    pub users: Seq<UserModel>,
    pub sessions: Seq<SessionModel>,
}

/// Some user row carries this email.
pub open spec fn has_email(users: Seq<UserModel>, email: Seq<char>) -> bool {
    exists|i: int| 0 <= i < users.len() && users[i].email == email
}

/// The row index of the user with this email (meaningful when `has_email`).
pub open spec fn email_index(users: Seq<UserModel>, email: Seq<char>) -> int {
    choose|i: int| 0 <= i < users.len() && users[i].email == email
}

/// Some session row carries this token.
pub open spec fn has_token(sessions: Seq<SessionModel>, token: Seq<char>) -> bool {
    exists|i: int| 0 <= i < sessions.len() && sessions[i].session_token == token
}

/// The row index of the session with this token (meaningful when `has_token`).
pub open spec fn token_index(sessions: Seq<SessionModel>, token: Seq<char>) -> int {
    choose|i: int| 0 <= i < sessions.len() && sessions[i].session_token == token
}

/// What an exact-match user lookup returns: the id of the matching row.
pub open spec fn find_email(users: Seq<UserModel>, email: Seq<char>) -> Option<u64> {
    if has_email(users, email) {
        Some(users[email_index(users, email)].id)
    } else {
        None
    }
}

/// What a session-token lookup returns: the id of the owning user.
pub open spec fn token_user(s: StoreModel, token: Seq<char>) -> Option<u64> {
    if has_token(s.sessions, token) {
        Some(s.sessions[token_index(s.sessions, token)].user_id)
    } else {
        None
    }
}

/// The user table after an upsert: unchanged when the email is present,
/// otherwise extended by one fresh row.
pub open spec fn upsert_users(users: Seq<UserModel>, email: Seq<char>) -> Seq<UserModel> {
    if has_email(users, email) {
        users
    } else {
        users.push(UserModel { id: users.len() as u64, email })
    }
}

/// The id the upsert resolves the email to.
pub open spec fn upsert_id(users: Seq<UserModel>, email: Seq<char>) -> u64 {
    if has_email(users, email) {
        users[email_index(users, email)].id
    } else {
        users.len() as u64
    }
}

/// The session table after one session is created.
pub open spec fn append_session(
    sessions: Seq<SessionModel>,
    user_id: u64,
    session_token: Seq<char>,
    access_token: Seq<char>,
) -> Seq<SessionModel> {
    sessions.push(
        SessionModel {
            id: sessions.len() as u64,
            user_id,
            session_token,
            access_token,
        },
    )
}

/// How one successful callback changes the store: the user is upserted by
/// email and one session bound to the resolved id is appended.
pub open spec fn login_store(
    s: StoreModel,
    email: Seq<char>,
    session_token: Seq<char>,
    access_token: Seq<char>,
) -> StoreModel {
    StoreModel {
        users: upsert_users(s.users, email),
        sessions: append_session(s.sessions, upsert_id(s.users, email), session_token, access_token),
    }
}

/// Well-formedness of the user table: ids are the row indices and emails
/// are unique.
pub open spec fn users_wf(users: Seq<UserModel>) -> bool {
    &&& forall|i: int| 0 <= i < users.len() ==> (#[trigger] users[i]).id == i
    &&& forall|i: int, j: int|
        #![trigger users[i].email, users[j].email]
        0 <= i < users.len() && 0 <= j < users.len() && i != j ==> users[i].email != users[j].email
}

/// Well-formedness of the session table: ids are the row indices, tokens
/// are unique, and every row references an existing user.
pub open spec fn sessions_wf(sessions: Seq<SessionModel>, n_users: nat) -> bool {
    &&& forall|i: int| 0 <= i < sessions.len() ==> (#[trigger] sessions[i]).id == i
    &&& forall|i: int, j: int|
        #![trigger sessions[i].session_token, sessions[j].session_token]
        0 <= i < sessions.len() && 0 <= j < sessions.len() && i != j
            ==> sessions[i].session_token != sessions[j].session_token
    &&& forall|i: int| 0 <= i < sessions.len() ==> (#[trigger] sessions[i]).user_id < n_users
}

/// Well-formedness of the whole store.
pub open spec fn store_wf(s: StoreModel) -> bool {
    users_wf(s.users) && sessions_wf(s.sessions, s.users.len())
}

/// The ephemeral session store: both tables held in process memory.
pub struct MemoryStore {
    pub users: Vec<User>,
    pub sessions: Vec<Session>,
}

impl View for MemoryStore {
    type V = StoreModel;

    open spec fn view(&self) -> StoreModel {
        StoreModel {
            users: self.users@.map_values(|u: User| u@),
            sessions: self.sessions@.map_values(|s: Session| s@),
        }
    }
}

impl MemoryStore {
    /// The store invariant; every operation requires and preserves it.
    pub open spec fn wf(&self) -> bool {
        store_wf(self@)
    }

    /// An empty store.
    pub fn new() -> (s: MemoryStore)
        ensures
            s.wf(),
            s@.users.len() == 0,
            s@.sessions.len() == 0,
    {
        MemoryStore { users: Vec::new(), sessions: Vec::new() }
    }

    /// Exact-match lookup of a user by email; `None` when absent.
    pub fn find_user_by_email(&self, email: &String) -> (r: Option<u64>)
        requires
            self.wf(),
        ensures
            r == find_email(self@.users, email@),
    {
        let n = self.users.len();
        let mut i: usize = 0;
        while i < n
            invariant
                self.wf(),
                n == self.users.len(),
                0 <= i <= n,
                forall|j: int| 0 <= j < i ==> self@.users[j].email != email@,
            decreases n - i,
        {
            if self.users[i].email == *email {
                proof {
                    let m = self@.users;
                    assert(m[i as int].email == email@);
                    assert(has_email(m, email@));
                    let j = email_index(m, email@);
                    assert(0 <= j < m.len() && m[j].email == email@);
                    assert(j == i as int);
                }
                return Some(self.users[i].id);
            }
            i += 1;
        }
        proof {
            assert(!has_email(self@.users, email@));
        }
        None
    }

    /// Insert a new user row.  Fails with `ConstraintViolation`, changing
    /// nothing, exactly when the email is already taken.
    pub fn insert_user(&mut self, email: String) -> (r: Result<u64, StoreError>)
        requires
            old(self).wf(),
        ensures
            final(self).wf(),
            has_email(old(self)@.users, email@) ==> {
                &&& r == Err::<u64, StoreError>(StoreError::ConstraintViolation)
                &&& final(self)@ == old(self)@
            },
            !has_email(old(self)@.users, email@) ==> {
                &&& r == Ok::<u64, StoreError>(old(self)@.users.len() as u64)
                &&& final(self)@.users == upsert_users(old(self)@.users, email@)
                &&& final(self)@.sessions == old(self)@.sessions
            },
    {
        if self.find_user_by_email(&email).is_some() {
            return Err(StoreError::ConstraintViolation);
        }
        let id = self.users.len() as u64;
        let user = User { id, email };
        self.users.push(user);
        proof {
            let before = old(self)@.users;
            assert(self@.users =~= upsert_users(before, user@.email));
            assert(self@.sessions =~= old(self)@.sessions);
            assert forall|k: int| 0 <= k < self@.users.len() implies (#[trigger] self@.users[k]).id
                == k by {
                if k < before.len() {
                    assert(before[k].id == k);
                }
            }
        }
        Ok(id)
    }

    /// Insert a new session row owned by an existing user.  Fails with
    /// `ConstraintViolation`, changing nothing, exactly when the token is
    /// already taken.
    pub fn insert_session(
        &mut self,
        user_id: u64,
        session_token: String,
        access_token: String,
    ) -> (r: Result<u64, StoreError>)
        requires
            old(self).wf(),
            user_id < old(self)@.users.len(),
        ensures
            final(self).wf(),
            has_token(old(self)@.sessions, session_token@) ==> {
                &&& r == Err::<u64, StoreError>(StoreError::ConstraintViolation)
                &&& final(self)@ == old(self)@
            },
            !has_token(old(self)@.sessions, session_token@) ==> {
                &&& r == Ok::<u64, StoreError>(old(self)@.sessions.len() as u64)
                &&& final(self)@.sessions == append_session(
                    old(self)@.sessions,
                    user_id,
                    session_token@,
                    access_token@,
                )
                &&& final(self)@.users == old(self)@.users
            },
    {
        let n = self.sessions.len();
        let mut i: usize = 0;
        while i < n
            invariant
                old(self) == self,
                old(self).wf(),
                n == self.sessions.len(),
                0 <= i <= n,
                forall|j: int| 0 <= j < i ==> self@.sessions[j].session_token != session_token@,
            decreases n - i,
        {
            if self.sessions[i].session_token == session_token {
                proof {
                    assert(self@.sessions[i as int].session_token == session_token@);
                    assert(has_token(self@.sessions, session_token@));
                }
                return Err(StoreError::ConstraintViolation);
            }
            i += 1;
        }
        proof {
            assert(!has_token(self@.sessions, session_token@));
        }
        let id = self.sessions.len() as u64;
        let session = Session { id, user_id, session_token, access_token };
        self.sessions.push(session);
        proof {
            let before = old(self)@.sessions;
            assert(self@.sessions =~= append_session(
                before,
                user_id,
                session@.session_token,
                session@.access_token,
            ));
            assert(self@.users =~= old(self)@.users);
            assert forall|k: int| 0 <= k < self@.sessions.len() implies (
            #[trigger] self@.sessions[k]).id == k by {
                if k < before.len() {
                    assert(before[k].id == k);
                }
            }
        }
        Ok(id)
    }

    /// The single read path of every protected request: resolve a session
    /// token to the owning user's id; `None` when the token is unknown.
    pub fn find_user_by_session_token(&self, token: &String) -> (r: Option<u64>)
        requires
            self.wf(),
        ensures
            r == token_user(self@, token@),
            r matches Some(uid) ==> uid < self@.users.len(),
    {
        let n = self.sessions.len();
        let mut i: usize = 0;
        while i < n
            invariant
                self.wf(),
                n == self.sessions.len(),
                0 <= i <= n,
                forall|j: int| 0 <= j < i ==> self@.sessions[j].session_token != token@,
            decreases n - i,
        {
            if self.sessions[i].session_token == *token {
                proof {
                    let m = self@.sessions;
                    assert(m[i as int].session_token == token@);
                    assert(has_token(m, token@));
                    let j = token_index(m, token@);
                    assert(0 <= j < m.len() && m[j].session_token == token@);
                    assert(j == i as int);
                }
                return Some(self.sessions[i].user_id);
            }
            i += 1;
        }
        proof {
            assert(!has_token(self@.sessions, token@));
        }
        None
    }

    /// A copy of the user row with this id.
    pub fn get_user(&self, user_id: u64) -> (r: User)
        requires
            self.wf(),
            user_id < self@.users.len(),
        ensures
            r@ == self@.users[user_id as int],
    {
        let n = self.users.len();
        proof {
            assert(self@.users.len() == n);
            assert(user_id < n);
        }
        let u = &self.users[user_id as usize];
        let r = User { id: u.id, email: u.email.clone() };
        proof {
            assert(u@ == self@.users[user_id as int]);
            assert(r@ =~= self@.users[user_id as int]);
        }
        r
    }
}

} // verus!
