//! The login-attempt state machine and the callback decision sequence.
//!
//! One login attempt moves through
//! `AwaitingCallback -> Exchanging -> FetchingUserInfo -> ResolvingUser
//! [-> InsertingUser [-> RetryingLookup]] -> CreatingSession -> Completed`,
//! or into `Failed` from any of them.  `flow_step` is the pure transition
//! function; a driver performs the returned action (a provider call or a
//! store operation), hands the result back as the next event, and stops on
//! `Completed` or `Failed`.  For the in-memory store the whole decision
//! sequence is also available in one verified call (`process_callback`).

use vstd::prelude::*;

use crate::records::AuthError;
use crate::store::{MemoryStore, has_token, login_store, upsert_id, upsert_users};
use crate::token::{is_token_text, random_token};
use crate::urls::{authorization_url, build_authorization_url};

verus! {

/// What the identity-provider client is configured with: the provider's
/// authorization endpoint, this client's id, the registered redirect URI,
/// and the scopes each login requests.
pub struct ProviderConfig {
    pub authorize_endpoint: String,
    pub client_id: String,
    pub redirect_uri: String,
    pub scopes: Vec<String>,
}

/// What `begin_login` issues: the fresh CSRF token to keep in the
/// pending-login context, and the URL to redirect the browser to.
pub struct LoginStart {
    pub csrf_state: String,
    pub authorize_url: String,
}

/// `login()`: issue a fresh CSRF token and build the authorization
/// redirect.  The `state` carried inside the URL is exactly the issued
/// token, so a callback can only pass the check of `verify_callback_state`
/// by echoing this attempt's own nonce.
pub fn begin_login(config: &ProviderConfig) -> (r: LoginStart)
    ensures
        r.csrf_state@.len() == 22,
        is_token_text(r.csrf_state@),
        r.authorize_url@ == authorization_url(
            config.authorize_endpoint@,
            config.client_id@,
            config.redirect_uri@,
            config.scopes.deep_view(),
            r.csrf_state@,
        ),
{
    let csrf_state = random_token();
    let authorize_url = build_authorization_url(
        config.authorize_endpoint.as_str(),
        config.client_id.as_str(),
        config.redirect_uri.as_str(),
        &config.scopes,
        csrf_state.as_str(),
    );
    LoginStart { csrf_state, authorize_url }
}

/// What a finished login hands back: the resolved user, the stored session
/// row, and the token to place in the cookie.
#[derive(Debug)]
pub struct LoginCompletion {
    pub user_id: u64,
    pub session_id: u64,
    pub session_token: String,
}

/// The state of one login attempt.
pub enum FlowState {
    /// `login()` has issued this CSRF token and redirected the browser.
    AwaitingCallback { csrf_state: String },
    /// The callback's `state` matched; the code is being exchanged.
    Exchanging,
    /// The provider's userinfo endpoint is being read.
    FetchingUserInfo { access_token: String },
    /// The user row for this email is being looked up.
    ResolvingUser { email: String, access_token: String },
    /// The email was absent; a fresh user row is being inserted.
    InsertingUser { email: String, access_token: String },
    /// The insert hit the unique-email constraint (a concurrent first
    /// login won); the row is being looked up again.
    RetryingLookup { email: String, access_token: String },
    /// The user is resolved; the session row is being created.
    CreatingSession { user_id: u64, access_token: String },
    /// The session row is durable; the cookie may be issued.
    Completed { user_id: u64, session_token: String },
    /// The attempt is over; no cookie is issued.
    Failed { error: AuthError },
}

/// What the driver observed: the callback request itself, or the result of
/// the action it was last asked to perform.
pub enum FlowEvent {
    CallbackRequest { code: String, state: String },
    ExchangeSucceeded { access_token: String },
    ExchangeFailed,
    UserInfoSucceeded { email: String },
    UserInfoFailed,
    LookupSucceeded { user_id: u64 },
    LookupMissed,
    InsertSucceeded { user_id: u64 },
    InsertConflicted,
    SessionCreated { session_token: String },
    StoreFailed,
}

/// What the driver must do next.  The payload of a store or provider call
/// is read from the state the step returned.
pub enum FlowAction {
    /// Exchange this authorization code at the provider's token endpoint.
    ExchangeCode { code: String },
    /// Read the userinfo endpoint with the access token of the state.
    FetchUserInfo,
    /// Look the email of the state up in the user table.
    LookUpUser,
    /// Insert a user row for the email of the state.
    InsertUser,
    /// Create a session row for the user id of the state, under a fresh
    /// session token.
    CreateSession,
    /// Set the cookie from the completed state and redirect.
    RedirectSignedIn,
    /// Respond 401; create nothing.
    RespondUnauthorized,
    /// Respond 5xx; create nothing further.
    RespondServerError,
}

/// The transition relation of one login attempt.  `None` means the event
/// is not one this state can answer; a driver that performs the actions in
/// order never sees it.
pub open spec fn step_spec(s: FlowState, e: FlowEvent) -> Option<(FlowState, FlowAction)> {
    match (s, e) {
        (
            FlowState::AwaitingCallback { csrf_state },
            FlowEvent::CallbackRequest { code, state },
        ) => if state@ == csrf_state@ {
            Some((FlowState::Exchanging, FlowAction::ExchangeCode { code }))
        } else {
            Some(
                (
                    FlowState::Failed { error: AuthError::CsrfMismatch },
                    FlowAction::RespondUnauthorized,
                ),
            )
        },
        (FlowState::Exchanging, FlowEvent::ExchangeSucceeded { access_token }) => Some(
            (FlowState::FetchingUserInfo { access_token }, FlowAction::FetchUserInfo),
        ),
        (FlowState::Exchanging, FlowEvent::ExchangeFailed) => Some(
            (
                FlowState::Failed { error: AuthError::ProviderExchangeFailed },
                FlowAction::RespondServerError,
            ),
        ),
        (
            FlowState::FetchingUserInfo { access_token },
            FlowEvent::UserInfoSucceeded { email },
        ) => Some((FlowState::ResolvingUser { email, access_token }, FlowAction::LookUpUser)),
        (FlowState::FetchingUserInfo { access_token }, FlowEvent::UserInfoFailed) => Some(
            (
                FlowState::Failed { error: AuthError::ProviderUserInfoFailed },
                FlowAction::RespondServerError,
            ),
        ),
        (
            FlowState::ResolvingUser { email, access_token },
            FlowEvent::LookupSucceeded { user_id },
        ) => Some((FlowState::CreatingSession { user_id, access_token }, FlowAction::CreateSession)),
        (FlowState::ResolvingUser { email, access_token }, FlowEvent::LookupMissed) => Some(
            (FlowState::InsertingUser { email, access_token }, FlowAction::InsertUser),
        ),
        (
            FlowState::InsertingUser { email, access_token },
            FlowEvent::InsertSucceeded { user_id },
        ) => Some((FlowState::CreatingSession { user_id, access_token }, FlowAction::CreateSession)),
        (FlowState::InsertingUser { email, access_token }, FlowEvent::InsertConflicted) => Some(
            (FlowState::RetryingLookup { email, access_token }, FlowAction::LookUpUser),
        ),
        (
            FlowState::RetryingLookup { email, access_token },
            FlowEvent::LookupSucceeded { user_id },
        ) => Some((FlowState::CreatingSession { user_id, access_token }, FlowAction::CreateSession)),
        (FlowState::RetryingLookup { email, access_token }, FlowEvent::LookupMissed) => Some(
            (
                FlowState::Failed { error: AuthError::StoreUnavailable },
                FlowAction::RespondServerError,
            ),
        ),
        (
            FlowState::CreatingSession { user_id, access_token },
            FlowEvent::SessionCreated { session_token },
        ) => Some((FlowState::Completed { user_id, session_token }, FlowAction::RedirectSignedIn)),
        (FlowState::ResolvingUser { email, access_token }, FlowEvent::StoreFailed) => Some(
            (
                FlowState::Failed { error: AuthError::StoreUnavailable },
                FlowAction::RespondServerError,
            ),
        ),
        (FlowState::InsertingUser { email, access_token }, FlowEvent::StoreFailed) => Some(
            (
                FlowState::Failed { error: AuthError::StoreUnavailable },
                FlowAction::RespondServerError,
            ),
        ),
        (FlowState::RetryingLookup { email, access_token }, FlowEvent::StoreFailed) => Some(
            (
                FlowState::Failed { error: AuthError::StoreUnavailable },
                FlowAction::RespondServerError,
            ),
        ),
        (FlowState::CreatingSession { user_id, access_token }, FlowEvent::StoreFailed) => Some(
            (
                FlowState::Failed { error: AuthError::StoreUnavailable },
                FlowAction::RespondServerError,
            ),
        ),
        _ => None,
    }
}

/// One step of a login attempt: exactly the transition relation.
pub fn flow_step(s: FlowState, e: FlowEvent) -> (r: Option<(FlowState, FlowAction)>)
    ensures
        r == step_spec(s, e),
{
    match (s, e) {
        (
            FlowState::AwaitingCallback { csrf_state },
            FlowEvent::CallbackRequest { code, state },
        ) => if state == csrf_state {
            Some((FlowState::Exchanging, FlowAction::ExchangeCode { code }))
        } else {
            Some(
                (
                    FlowState::Failed { error: AuthError::CsrfMismatch },
                    FlowAction::RespondUnauthorized,
                ),
            )
        },
        (FlowState::Exchanging, FlowEvent::ExchangeSucceeded { access_token }) => Some(
            (FlowState::FetchingUserInfo { access_token }, FlowAction::FetchUserInfo),
        ),
        (FlowState::Exchanging, FlowEvent::ExchangeFailed) => Some(
            (
                FlowState::Failed { error: AuthError::ProviderExchangeFailed },
                FlowAction::RespondServerError,
            ),
        ),
        (
            FlowState::FetchingUserInfo { access_token },
            FlowEvent::UserInfoSucceeded { email },
        ) => Some((FlowState::ResolvingUser { email, access_token }, FlowAction::LookUpUser)),
        (FlowState::FetchingUserInfo { access_token: _ }, FlowEvent::UserInfoFailed) => Some(
            (
                FlowState::Failed { error: AuthError::ProviderUserInfoFailed },
                FlowAction::RespondServerError,
            ),
        ),
        (
            FlowState::ResolvingUser { email: _, access_token },
            FlowEvent::LookupSucceeded { user_id },
        ) => Some((FlowState::CreatingSession { user_id, access_token }, FlowAction::CreateSession)),
        (FlowState::ResolvingUser { email, access_token }, FlowEvent::LookupMissed) => Some(
            (FlowState::InsertingUser { email, access_token }, FlowAction::InsertUser),
        ),
        (
            FlowState::InsertingUser { email: _, access_token },
            FlowEvent::InsertSucceeded { user_id },
        ) => Some((FlowState::CreatingSession { user_id, access_token }, FlowAction::CreateSession)),
        (FlowState::InsertingUser { email, access_token }, FlowEvent::InsertConflicted) => Some(
            (FlowState::RetryingLookup { email, access_token }, FlowAction::LookUpUser),
        ),
        (
            FlowState::RetryingLookup { email: _, access_token },
            FlowEvent::LookupSucceeded { user_id },
        ) => Some((FlowState::CreatingSession { user_id, access_token }, FlowAction::CreateSession)),
        (FlowState::RetryingLookup { email: _, access_token: _ }, FlowEvent::LookupMissed) => Some(
            (
                FlowState::Failed { error: AuthError::StoreUnavailable },
                FlowAction::RespondServerError,
            ),
        ),
        (
            FlowState::CreatingSession { user_id, access_token: _ },
            FlowEvent::SessionCreated { session_token },
        ) => Some((FlowState::Completed { user_id, session_token }, FlowAction::RedirectSignedIn)),
        (FlowState::ResolvingUser { email: _, access_token: _ }, FlowEvent::StoreFailed) => Some(
            (
                FlowState::Failed { error: AuthError::StoreUnavailable },
                FlowAction::RespondServerError,
            ),
        ),
        (FlowState::InsertingUser { email: _, access_token: _ }, FlowEvent::StoreFailed) => Some(
            (
                FlowState::Failed { error: AuthError::StoreUnavailable },
                FlowAction::RespondServerError,
            ),
        ),
        (FlowState::RetryingLookup { email: _, access_token: _ }, FlowEvent::StoreFailed) => Some(
            (
                FlowState::Failed { error: AuthError::StoreUnavailable },
                FlowAction::RespondServerError,
            ),
        ),
        (FlowState::CreatingSession { user_id: _, access_token: _ }, FlowEvent::StoreFailed) => Some(
            (
                FlowState::Failed { error: AuthError::StoreUnavailable },
                FlowAction::RespondServerError,
            ),
        ),
        (_, _) => None,
    }
}

/// Step 1 of the callback: the `state` query parameter must equal the CSRF
/// token issued at login initiation.  A missing token (no pending login)
/// counts as a mismatch.  The check consumes nothing: on failure the
/// attempt is simply over.
pub fn verify_callback_state(issued: Option<&String>, returned: &String) -> (r: Result<
    (),
    AuthError,
>)
    ensures
        r is Ok <==> (issued matches Some(t) && t@ == returned@),
        r matches Err(e) ==> e == AuthError::CsrfMismatch,
{
    match issued {
        Some(t) => {
            if *t == *returned {
                Ok(())
            } else {
                Err(AuthError::CsrfMismatch)
            }
        },
        None => Err(AuthError::CsrfMismatch),
    }
}

/// Steps 4 and 5 of the callback: upsert the user by email, then create
/// the session row under the given token.  The cookie value is returned
/// only after the row is in the store.  The one failure is a session-token
/// collision (`StoreUnavailable`, 5xx): the upsert alone is then visible,
/// which leaves no session reachable by any cookie.
pub fn finish_login(
    store: &mut MemoryStore,
    email: &String,
    access_token: &String,
    session_token: String,
) -> (r: Result<LoginCompletion, AuthError>)
    requires
        old(store).wf(),
    ensures
        final(store).wf(),
        final(store)@.users == upsert_users(old(store)@.users, email@),
        !has_token(old(store)@.sessions, session_token@) ==> {
            &&& r matches Ok(c)
            &&& c.user_id == upsert_id(old(store)@.users, email@)
            &&& c.session_id == old(store)@.sessions.len() as u64
            &&& c.session_token@ == session_token@
            &&& final(store)@ == login_store(old(store)@, email@, session_token@, access_token@)
        },
        has_token(old(store)@.sessions, session_token@) ==> {
            &&& r == Err::<LoginCompletion, AuthError>(AuthError::StoreUnavailable)
            &&& final(store)@.sessions == old(store)@.sessions
        },
{
    let user_id: u64 = match store.find_user_by_email(email) {
        Some(uid) => uid,
        None => match store.insert_user(email.clone()) {
            Ok(uid) => uid,
            Err(_) => {
                proof {
                    assert(false);
                }
                return Err(AuthError::StoreUnavailable);
            },
        },
    };
    proof {
        assert(user_id == upsert_id(old(store)@.users, email@));
        assert(store@.users == upsert_users(old(store)@.users, email@));
        assert(user_id < store@.users.len());
        assert(store@.sessions == old(store)@.sessions);
    }
    let token_copy = session_token.clone();
    match store.insert_session(user_id, session_token, access_token.clone()) {
        Ok(sid) => {
            proof {
                assert(store@ =~= login_store(old(store)@, email@, token_copy@, access_token@));
            }
            Ok(LoginCompletion { user_id, session_id: sid, session_token: token_copy })
        },
        Err(_) => Err(AuthError::StoreUnavailable),
    }
}

/// As `finish_login`, with the session token drawn fresh from the secure
/// random source.  Whatever token comes back: on success the store grew by
/// exactly that session, and the token was not in use before, so the new
/// cookie resolves to this user and no other.
pub fn finish_login_fresh(store: &mut MemoryStore, email: &String, access_token: &String) -> (r:
    Result<LoginCompletion, AuthError>)
    requires
        old(store).wf(),
    ensures
        final(store).wf(),
        final(store)@.users == upsert_users(old(store)@.users, email@),
        r matches Ok(c) ==> {
            &&& c.user_id == upsert_id(old(store)@.users, email@)
            &&& c.session_token@.len() == 22
            &&& is_token_text(c.session_token@)
            &&& !has_token(old(store)@.sessions, c.session_token@)
            &&& final(store)@ == login_store(
                old(store)@,
                email@,
                c.session_token@,
                access_token@,
            )
        },
        r matches Err(e) ==> {
            &&& e == AuthError::StoreUnavailable
            &&& final(store)@.sessions == old(store)@.sessions
        },
{
    let session_token = random_token();
    finish_login(store, email, access_token, session_token)
}

/// Whether the callback's `state` parameter matches the issued CSRF token.
pub open spec fn state_matches(issued: Option<&String>, returned: Seq<char>) -> bool {
    match issued {
        Some(t) => t@ == returned,
        None => false,
    }
}

/// The whole callback decision sequence, run against the in-memory store.
///
/// The provider's two answers stand as arguments: `exchange_outcome` is
/// what the authorization-code exchange returned (the access token) and
/// `userinfo_outcome` what the userinfo endpoint returned (the email);
/// `None` is a failure of that call.  A live driver obtains them step by
/// step by performing the actions of `flow_step`; this function is the
/// same decision sequence in one call, verified end to end: a mismatched
/// `state` writes nothing, a provider failure writes nothing, and a
/// success writes exactly one session and at most one user.
pub fn process_callback(
    store: &mut MemoryStore,
    issued_state: Option<&String>,
    returned_state: &String,
    exchange_outcome: Option<&String>,
    userinfo_outcome: Option<&String>,
    session_token: String,
) -> (r: Result<LoginCompletion, AuthError>)
    requires
        old(store).wf(),
    ensures
        final(store).wf(),
        !state_matches(issued_state, returned_state@) ==> {
            &&& r == Err::<LoginCompletion, AuthError>(AuthError::CsrfMismatch)
            &&& final(store)@ == old(store)@
        },
        state_matches(issued_state, returned_state@) && exchange_outcome is None ==> {
            &&& r == Err::<LoginCompletion, AuthError>(AuthError::ProviderExchangeFailed)
            &&& final(store)@ == old(store)@
        },
        state_matches(issued_state, returned_state@) && exchange_outcome is Some
            && userinfo_outcome is None ==> {
            &&& r == Err::<LoginCompletion, AuthError>(AuthError::ProviderUserInfoFailed)
            &&& final(store)@ == old(store)@
        },
        exchange_outcome matches Some(at) ==> (userinfo_outcome matches Some(email) ==> (
        state_matches(issued_state, returned_state@) ==> {
            &&& final(store)@.users == upsert_users(old(store)@.users, email@)
            &&& (!has_token(old(store)@.sessions, session_token@) ==> {
                &&& r matches Ok(c)
                &&& c.user_id == upsert_id(old(store)@.users, email@)
                &&& c.session_token@ == session_token@
                &&& final(store)@ == login_store(old(store)@, email@, session_token@, at@)
            })
            &&& (has_token(old(store)@.sessions, session_token@) ==> {
                &&& r == Err::<LoginCompletion, AuthError>(AuthError::StoreUnavailable)
                &&& final(store)@.sessions == old(store)@.sessions
            })
        })),
{
    if verify_callback_state(issued_state, returned_state).is_err() {
        return Err(AuthError::CsrfMismatch);
    }
    let access_token = match exchange_outcome {
        Some(at) => at,
        None => {
            return Err(AuthError::ProviderExchangeFailed);
        },
    };
    let email = match userinfo_outcome {
        Some(em) => em,
        None => {
            return Err(AuthError::ProviderUserInfoFailed);
        },
    };
    finish_login(store, email, access_token, session_token)
}

/// Law: a callback whose `state` differs from the issued CSRF token moves
/// the attempt to `Failed(CsrfMismatch)` and answers 401; no store or
/// provider action is issued.
pub proof fn lemma_csrf_mismatch_rejected(s: FlowState, e: FlowEvent)
    requires
        s matches FlowState::AwaitingCallback { csrf_state } && e matches FlowEvent::CallbackRequest {
            code,
            state,
        } && state@ != csrf_state@,
    ensures
        step_spec(s, e) == Some(
            (
                FlowState::Failed { error: AuthError::CsrfMismatch },
                FlowAction::RespondUnauthorized,
            ),
        ),
{
}

/// Law: a failed attempt is terminal.  No event advances it, so an attempt
/// that failed (in particular on a CSRF mismatch) never reaches a store
/// action: zero rows are written on its behalf.
pub proof fn lemma_failed_is_terminal(s: FlowState, e: FlowEvent)
    requires
        s matches FlowState::Failed { error },
    ensures
        step_spec(s, e) is None,
{
}

/// An action that writes a row when the driver performs it.
pub open spec fn mutating_action(a: FlowAction) -> bool {
    a matches FlowAction::InsertUser || a matches FlowAction::CreateSession
}

/// Whether a driver that starts in `s` and observes these events in order
/// is ever told to write a row.  The driver stops at the first event its
/// state cannot answer.
pub open spec fn trace_mutates(s: FlowState, events: Seq<FlowEvent>) -> bool
    decreases events.len(),
{
    if events.len() == 0 {
        false
    } else {
        match step_spec(s, events[0]) {
            None => false,
            Some((s2, a)) => mutating_action(a) || trace_mutates(s2, events.skip(1)),
        }
    }
}

/// Law: once an attempt has failed, no sequence of further events makes
/// the driver write anything.
pub proof fn lemma_failed_trace_never_writes(s: FlowState, events: Seq<FlowEvent>)
    requires
        s matches FlowState::Failed { error },
    ensures
        !trace_mutates(s, events),
{
    if events.len() > 0 {
        assert(step_spec(s, events[0]) is None);
    }
}

/// Law: a callback whose `state` differs from the issued CSRF token never
/// writes: whatever events follow, the driver of the attempt is not told
/// to insert a user or create a session.  Zero rows exist on behalf of a
/// mismatched callback.
pub proof fn lemma_mismatched_callback_never_writes(s: FlowState, events: Seq<FlowEvent>)
    requires
        s matches FlowState::AwaitingCallback { csrf_state },
        events.len() > 0,
        events[0] matches FlowEvent::CallbackRequest { code, state } && state@ != (
        s->AwaitingCallback_csrf_state)@,
    ensures
        !trace_mutates(s, events),
{
    let next = FlowState::Failed { error: AuthError::CsrfMismatch };
    assert(step_spec(s, events[0]) == Some((next, FlowAction::RespondUnauthorized)));
    lemma_failed_trace_never_writes(next, events.skip(1));
}

/// Law: the only way out of `AwaitingCallback` that is not a failure is a
/// callback whose `state` equals the issued CSRF token: the nonce is
/// checked on every attempt.
pub proof fn lemma_no_progress_without_csrf(s: FlowState, e: FlowEvent)
    requires
        s matches FlowState::AwaitingCallback { csrf_state },
        step_spec(s, e) matches Some((s2, a)) && !(s2 matches FlowState::Failed { error }),
    ensures
        e matches FlowEvent::CallbackRequest { code, state } && state@ == (s->AwaitingCallback_csrf_state)@,
{
}

} // verus!
