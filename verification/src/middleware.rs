//! The per-request authorization stage.
//!
//! On every request to a guarded route the middleware reads the session
//! cookie, resolves it through the store's single read path, and either
//! attaches the resolved user, lets the request through anonymously, or
//! rejects it — per the route's policy.  An unknown or stale token is not
//! an error: it is the same as having no cookie.  Only a store failure
//! (relational mode) is distinct, and surfaces as a 500.

use vstd::prelude::*;

use crate::records::User;
use crate::store::{MemoryStore, StoreModel, has_token, token_user};

verus! {

/// How a route treats an unauthenticated request.
#[derive(Clone, Copy, Debug, PartialEq, Eq, Structural)]
pub enum RoutePolicy {
    /// The route needs a verified session: reject anonymous requests
    /// with 401.
    RequireUser,
    /// The route wants best-effort identity: pass anonymous requests
    /// through with no user attached.
    AllowAnonymous,
}

/// What the store lookup of the cookie's token reported.  `NotFound` is
/// the normal answer for an unknown token; `StoreFailure` is a connection
/// or query error, which is never treated as "anonymous".
pub enum LookupOutcome {
    Found(User),
    NotFound,
    StoreFailure,
}

/// What the middleware decides for the request.
pub enum RequestDisposition {
    /// Invoke the next stage, with the resolved user attached if there is
    /// one.
    Proceed(Option<User>),
    /// Reject with 401; the request never reaches the handler.
    Unauthorized,
    /// Reject with 500: the store could not answer.
    ServerError,
}

impl RequestDisposition {
    /// The HTTP status code of a rejection; `None` when the request
    /// proceeds.
    pub fn status_code(&self) -> (code: Option<u16>)
        ensures
            self matches RequestDisposition::Proceed(_) <==> code is None,
            self matches RequestDisposition::Unauthorized ==> code == Some(401u16),
            self matches RequestDisposition::ServerError ==> code == Some(500u16),
    {
        match self {
            RequestDisposition::Proceed(_) => None,
            RequestDisposition::Unauthorized => Some(401),
            RequestDisposition::ServerError => Some(500),
        }
    }
}

/// The middleware decision given the cookie and, when a cookie was
/// present, the store's answer for its token (`lookup` is `None` exactly
/// when the request carried no session cookie).
pub fn authorize_request(policy: RoutePolicy, lookup: Option<LookupOutcome>) -> (d:
    RequestDisposition)
    ensures
        lookup matches Some(LookupOutcome::StoreFailure) ==> d matches
            RequestDisposition::ServerError,
        lookup matches Some(LookupOutcome::Found(u)) ==> d matches RequestDisposition::Proceed(
            att,
        ) && att == Some(u),
        (lookup is None || lookup matches Some(LookupOutcome::NotFound)) ==> {
            &&& (policy == RoutePolicy::RequireUser ==> d matches RequestDisposition::Unauthorized)
            &&& (policy == RoutePolicy::AllowAnonymous ==> (d matches RequestDisposition::Proceed(
                att,
            ) && att is None))
        },
{
    match lookup {
        Some(LookupOutcome::StoreFailure) => RequestDisposition::ServerError,
        Some(LookupOutcome::Found(u)) => RequestDisposition::Proceed(Some(u)),
        Some(LookupOutcome::NotFound) | None => match policy {
            RoutePolicy::RequireUser => RequestDisposition::Unauthorized,
            RoutePolicy::AllowAnonymous => RequestDisposition::Proceed(None),
        },
    }
}

/// What the cookie resolves to: the owning user's id, or nothing for a
/// missing cookie or unknown token.
pub open spec fn resolve_spec(s: StoreModel, cookie: Option<Seq<char>>) -> Option<u64> {
    match cookie {
        None => None,
        Some(t) => token_user(s, t),
    }
}

/// The whole middleware stage against the in-memory store: read the
/// cookie, resolve it, decide.  The store is in process memory, so the
/// `StoreFailure` arm cannot arise and no request ever sees a 500 here.
pub fn resolve_request(store: &MemoryStore, policy: RoutePolicy, cookie: Option<&String>) -> (d:
    RequestDisposition)
    requires
        store.wf(),
    ensures
        !(d matches RequestDisposition::ServerError),
        resolve_spec(store@, cookie_view(cookie)) matches Some(uid) ==> d matches
            RequestDisposition::Proceed(att) && att matches Some(u) && u@ == store@.users[uid as int],
        resolve_spec(store@, cookie_view(cookie)) is None ==> {
            &&& (policy == RoutePolicy::RequireUser ==> d matches RequestDisposition::Unauthorized)
            &&& (policy == RoutePolicy::AllowAnonymous ==> (d matches RequestDisposition::Proceed(
                att,
            ) && att is None))
        },
{
    let lookup: Option<LookupOutcome> = match cookie {
        None => None,
        Some(token) => match store.find_user_by_session_token(token) {
            Some(uid) => Some(LookupOutcome::Found(store.get_user(uid))),
            None => Some(LookupOutcome::NotFound),
        },
    };
    authorize_request(policy, lookup)
}

/// The cookie as a mathematical value.
pub open spec fn cookie_view(cookie: Option<&String>) -> Option<Seq<char>> {
    match cookie {
        None => None,
        Some(t) => Some(t@),
    }
}

/// Law: a request bearing a session token the store does not know is
/// treated exactly like a request with no cookie at all: the resolution
/// is anonymous either way, whatever the route's policy.
pub proof fn lemma_unknown_token_is_anonymous(s: StoreModel, tok: Seq<char>)
    requires
        !has_token(s.sessions, tok),
    ensures
        resolve_spec(s, Some(tok)) == resolve_spec(s, None::<Seq<char>>),
{
}

} // verus!
