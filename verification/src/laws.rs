//! The store-level laws of the auth subsystem, stated over the model
//! transition `login_store` that every verified callback path ensures.
//!
//! Concurrent callbacks interleave their store operations, but the store
//! serializes them: each completed attempt changes the store exactly as
//! `login_store` says, so an interleaving of completions is a sequence of
//! `login_store` applications, which these laws quantify over.

use vstd::prelude::*;

use crate::store::{
    StoreModel, email_index, has_email, has_token, login_store, store_wf, token_index, token_user,
    upsert_id, upsert_users, users_wf,
};

verus! {

/// The user upsert resolves its email: the resolved id names a row that
/// carries exactly this email, and the table stays well-formed.
pub proof fn lemma_upsert_resolves(users: Seq<crate::records::UserModel>, email: Seq<char>)
    requires
        users_wf(users),
        users.len() <= u64::MAX,
    ensures
        users_wf(upsert_users(users, email)),
        upsert_id(users, email) < upsert_users(users, email).len(),
        upsert_users(users, email)[upsert_id(users, email) as int].email == email,
        users.len() <= upsert_users(users, email).len() <= users.len() + 1,
        forall|i: int|
            0 <= i < users.len() ==> #[trigger] upsert_users(users, email)[i] == users[i],
        has_email(upsert_users(users, email), email),
{
    if has_email(users, email) {
        let j = email_index(users, email);
        assert(0 <= j < users.len() && users[j].email == email);
        assert(users[j].id == j);
    } else {
        let grown = users.push(
            crate::records::UserModel { id: users.len() as u64, email },
        );
        assert(grown[users.len() as int].email == email);
        assert forall|i: int, k: int|
            #![trigger grown[i].email, grown[k].email]
            0 <= i < grown.len() && 0 <= k < grown.len() && i != k implies grown[i].email
            != grown[k].email by {
            if i < users.len() && k < users.len() {
                assert(users[i].email != users[k].email);
            } else if i < users.len() {
                assert(!(users[i].email == email));
            } else {
                assert(!(users[k].email == email));
            }
        }
        assert forall|i: int| 0 <= i < grown.len() implies (#[trigger] grown[i]).id == i by {
            if i < users.len() {
                assert(users[i].id == i);
            }
        }
    }
}

/// Law: logging in twice with the same email creates at most one user row
/// and resolves both attempts to the same user id, while each attempt
/// creates exactly one session row.  Repeated logins by one email never
/// produce duplicate users.
pub proof fn lemma_repeated_login_single_user(
    s: StoreModel,
    email: Seq<char>,
    t1: Seq<char>,
    a1: Seq<char>,
    t2: Seq<char>,
    a2: Seq<char>,
)
    requires
        users_wf(s.users),
        s.users.len() <= u64::MAX,
    ensures
        ({
            let s1 = login_store(s, email, t1, a1);
            let s2 = login_store(s1, email, t2, a2);
            &&& s2.users == s1.users
            &&& s1.users.len() <= s.users.len() + 1
            &&& upsert_id(s1.users, email) == upsert_id(s.users, email)
            &&& s2.sessions.len() == s.sessions.len() + 2
        }),
{
    let s1 = login_store(s, email, t1, a1);
    lemma_upsert_resolves(s.users, email);
    assert(has_email(s1.users, email));
    assert(upsert_users(s1.users, email) == s1.users);
    let j = email_index(s1.users, email);
    assert(0 <= j < s1.users.len() && s1.users[j].email == email);
    assert(s1.users[j].id == j);
    let u = upsert_id(s.users, email);
    assert(s1.users[u as int].email == email);
    if j != u as int {
        assert(s1.users[j].email != s1.users[u as int].email);
    }
    assert(upsert_id(s1.users, email) == u);
}

/// Law: two logins with different emails each get a session bound to a
/// user row carrying their own email: no cross-contamination between the
/// attempts, whichever order their completions took.
pub proof fn lemma_sessions_track_their_email(
    s: StoreModel,
    email1: Seq<char>,
    t1: Seq<char>,
    a1: Seq<char>,
    email2: Seq<char>,
    t2: Seq<char>,
    a2: Seq<char>,
)
    requires
        users_wf(s.users),
        s.users.len() < u64::MAX,
        email1 != email2,
    ensures
        ({
            let s1 = login_store(s, email1, t1, a1);
            let s2 = login_store(s1, email2, t2, a2);
            let first = s2.sessions[s.sessions.len() as int];
            let second = s2.sessions[s.sessions.len() as int + 1];
            &&& s2.sessions.len() == s.sessions.len() + 2
            &&& first.user_id < s2.users.len()
            &&& s2.users[first.user_id as int].email == email1
            &&& first.session_token == t1
            &&& second.user_id < s2.users.len()
            &&& s2.users[second.user_id as int].email == email2
            &&& second.session_token == t2
        }),
{
    let s1 = login_store(s, email1, t1, a1);
    let s2 = login_store(s1, email2, t2, a2);
    lemma_upsert_resolves(s.users, email1);
    lemma_upsert_resolves(s1.users, email2);
    let u1 = upsert_id(s.users, email1);
    assert(s1.users[u1 as int].email == email1);
    assert(s2.users[u1 as int] == s1.users[u1 as int]);
    assert(s2.sessions[s.sessions.len() as int] == s1.sessions[s.sessions.len() as int]);
}

/// Law: a session token that resolves to a user keeps resolving to that
/// same user after any later login completes, whatever email it is for:
/// later attempts (with their necessarily distinct fresh tokens) never
/// rebind an existing session.
pub proof fn lemma_session_resolution_stable(
    s: StoreModel,
    tok: Seq<char>,
    email: Seq<char>,
    t2: Seq<char>,
    a2: Seq<char>,
)
    requires
        store_wf(s),
        s.users.len() <= u64::MAX,
        has_token(s.sessions, tok),
        t2 != tok,
    ensures
        ({
            let s2 = login_store(s, email, t2, a2);
            &&& token_user(s2, tok) == token_user(s, tok)
            &&& token_user(s, tok) matches Some(uid) && uid < s.users.len() && s2.users[uid as int]
                == s.users[uid as int]
        }),
{
    let s2 = login_store(s, email, t2, a2);
    lemma_upsert_resolves(s.users, email);
    let i = token_index(s.sessions, tok);
    assert(0 <= i < s.sessions.len() && s.sessions[i].session_token == tok);
    assert(s2.sessions[i] == s.sessions[i]);
    assert(has_token(s2.sessions, tok));
    let j = token_index(s2.sessions, tok);
    assert(0 <= j < s2.sessions.len() && s2.sessions[j].session_token == tok);
    assert(j != s.sessions.len() as int);
    assert(s2.sessions[j] == s.sessions[j]);
    if j != i {
        assert(s.sessions[i].session_token != s.sessions[j].session_token);
    }
    let uid = s.sessions[i].user_id;
    assert(uid < s.users.len());
    assert(s2.users[uid as int] == s.users[uid as int]);
}

/// Law: the cookie issued by a completed login resolves to exactly the
/// user the attempt upserted: the token was fresh, so the new session is
/// the one row carrying it, and that row is bound to the resolved id,
/// whose row carries the attempt's email.
pub proof fn lemma_new_cookie_resolves(
    s: StoreModel,
    email: Seq<char>,
    tok: Seq<char>,
    access: Seq<char>,
)
    requires
        store_wf(s),
        s.users.len() <= u64::MAX,
        !has_token(s.sessions, tok),
    ensures
        ({
            let s2 = login_store(s, email, tok, access);
            &&& token_user(s2, tok) == Some(upsert_id(s.users, email))
            &&& upsert_id(s.users, email) < s2.users.len()
            &&& s2.users[upsert_id(s.users, email) as int].email == email
        }),
{
    let s2 = login_store(s, email, tok, access);
    lemma_upsert_resolves(s.users, email);
    assert(s2.sessions[s.sessions.len() as int].session_token == tok);
    assert(has_token(s2.sessions, tok));
    let j = token_index(s2.sessions, tok);
    assert(0 <= j < s2.sessions.len() && s2.sessions[j].session_token == tok);
    if j < s.sessions.len() {
        assert(s2.sessions[j] == s.sessions[j]);
        assert(has_token(s.sessions, tok));
    }
    assert(j == s.sessions.len() as int);
}

/// Law: a completed login leaves the store well-formed whenever its
/// session token was fresh, so every law above can be applied again to the
/// store it produced: the invariant survives any sequence of completions.
pub proof fn lemma_login_preserves_wf(
    s: StoreModel,
    email: Seq<char>,
    tok: Seq<char>,
    access: Seq<char>,
)
    requires
        store_wf(s),
        s.users.len() <= u64::MAX,
        s.sessions.len() <= u64::MAX,
        !has_token(s.sessions, tok),
    ensures
        store_wf(login_store(s, email, tok, access)),
{
    let s2 = login_store(s, email, tok, access);
    lemma_upsert_resolves(s.users, email);
    assert forall|i: int, k: int|
        #![trigger s2.sessions[i].session_token, s2.sessions[k].session_token]
        0 <= i < s2.sessions.len() && 0 <= k < s2.sessions.len() && i != k implies s2.sessions[i].session_token != s2.sessions[k].session_token by {
        if i < s.sessions.len() && k < s.sessions.len() {
            assert(s.sessions[i].session_token != s.sessions[k].session_token);
        } else if i < s.sessions.len() {
            assert(!(s.sessions[i].session_token == tok));
        } else {
            assert(!(s.sessions[k].session_token == tok));
        }
    }
    assert forall|i: int| 0 <= i < s2.sessions.len() implies (#[trigger] s2.sessions[i]).id
        == i by {
        if i < s.sessions.len() {
            assert(s.sessions[i].id == i);
        }
    }
    assert forall|i: int| 0 <= i < s2.sessions.len() implies (#[trigger] s2.sessions[i]).user_id
        < s2.users.len() by {
        if i < s.sessions.len() {
            assert(s.sessions[i].user_id < s.users.len());
        }
    }
}

} // verus!
