use review_auth::flow::{
    FlowAction, FlowEvent, FlowState, begin_login, finish_login, finish_login_fresh, flow_step,
    process_callback, verify_callback_state, LoginStart, ProviderConfig,
};
use review_auth::middleware::{
    authorize_request, resolve_request, LookupOutcome, RequestDisposition, RoutePolicy,
};
use review_auth::records::AuthError;
use review_auth::store::MemoryStore;

fn config() -> ProviderConfig {
    ProviderConfig {
        authorize_endpoint: "https://idp.example/authorize".to_string(),
        client_id: "my-client".to_string(),
        redirect_uri: "http://localhost:3000/callback".to_string(),
        scopes: vec![
            "openid".to_string(),
            "profile".to_string(),
            "email".to_string(),
        ],
    }
}

fn token_alphabet_ok(s: &str) -> bool {
    s.chars()
        .all(|c| c.is_ascii_alphanumeric() || c == '-' || c == '_')
}

#[test]
fn scenario_login_callback_protected_route() {
    // Login, provider returns a@x.com, callback succeeds, then a GET on a
    // protected route with the issued cookie resolves to that user.
    let mut store = MemoryStore::new();
    let issued = "csrf-token-1".to_string();
    let returned = "csrf-token-1".to_string();
    let access = "provider-access".to_string();
    let email = "a@x.com".to_string();
    let r = process_callback(
        &mut store,
        Some(&issued),
        &returned,
        Some(&access),
        Some(&email),
        "session-1".to_string(),
    );
    let completion = r.expect("matching state and healthy provider must succeed");
    assert_eq!(completion.user_id, 0);
    assert_eq!(completion.session_token, "session-1");
    assert_eq!(store.users.len(), 1);
    assert_eq!(store.users[0].email, "a@x.com");
    assert_eq!(store.sessions.len(), 1);
    assert_eq!(store.sessions[0].user_id, 0);
    assert_eq!(store.sessions[0].access_token, "provider-access");

    let cookie = "session-1".to_string();
    let d = resolve_request(&store, RoutePolicy::RequireUser, Some(&cookie));
    match d {
        RequestDisposition::Proceed(Some(user)) => {
            assert_eq!(user.id, 0);
            assert_eq!(user.email, "a@x.com");
        }
        _ => panic!("a valid cookie must attach the user"),
    }
}

#[test]
fn scenario_wrong_state_writes_nothing() {
    // callback with state="wrong": 401, no rows written.
    let mut store = MemoryStore::new();
    let issued = "csrf-token-1".to_string();
    let returned = "wrong".to_string();
    let access = "provider-access".to_string();
    let email = "a@x.com".to_string();
    let r = process_callback(
        &mut store,
        Some(&issued),
        &returned,
        Some(&access),
        Some(&email),
        "session-1".to_string(),
    );
    let err = r.expect_err("a mismatched state must fail");
    assert_eq!(err, AuthError::CsrfMismatch);
    assert_eq!(err.status_code(), 401);
    assert_eq!(store.users.len(), 0);
    assert_eq!(store.sessions.len(), 0);
}

#[test]
fn scenario_same_email_twice_one_user_two_sessions() {
    // Two browsers complete login with b@x.com: one users row, two
    // distinct sessions rows.
    let mut store = MemoryStore::new();
    let issued = "t".to_string();
    let email = "b@x.com".to_string();
    let access1 = "at-1".to_string();
    let access2 = "at-2".to_string();
    let r1 = process_callback(
        &mut store,
        Some(&issued),
        &issued,
        Some(&access1),
        Some(&email),
        "session-1".to_string(),
    )
    .expect("first login must succeed");
    let r2 = process_callback(
        &mut store,
        Some(&issued),
        &issued,
        Some(&access2),
        Some(&email),
        "session-2".to_string(),
    )
    .expect("second login must succeed");
    assert_eq!(store.users.len(), 1);
    assert_eq!(store.users[0].email, "b@x.com");
    assert_eq!(store.sessions.len(), 2);
    assert_eq!(r1.user_id, r2.user_id);
    assert_ne!(store.sessions[0].session_token, store.sessions[1].session_token);
    assert_eq!(store.sessions[0].user_id, 0);
    assert_eq!(store.sessions[1].user_id, 0);
}

#[test]
fn scenario_no_cookie_proceeds_or_rejects_per_policy() {
    // GET on a protected route with no cookie: anonymous pass-through or
    // 401 per route policy, never a server error.
    let store = MemoryStore::new();
    let d = resolve_request(&store, RoutePolicy::AllowAnonymous, None);
    assert!(matches!(d, RequestDisposition::Proceed(None)));
    assert!(d.status_code().is_none());
    let d = resolve_request(&store, RoutePolicy::RequireUser, None);
    assert!(matches!(d, RequestDisposition::Unauthorized));
    assert_eq!(d.status_code(), Some(401));
}

#[test]
fn unknown_token_treated_like_no_cookie() {
    let mut store = MemoryStore::new();
    let issued = "t".to_string();
    let access = "at".to_string();
    let email = "a@x.com".to_string();
    process_callback(
        &mut store,
        Some(&issued),
        &issued,
        Some(&access),
        Some(&email),
        "session-1".to_string(),
    )
    .expect("login must succeed");
    let garbage = "garbage-token".to_string();
    for policy in [RoutePolicy::RequireUser, RoutePolicy::AllowAnonymous] {
        let with_garbage = resolve_request(&store, policy, Some(&garbage));
        let without_cookie = resolve_request(&store, policy, None);
        match (with_garbage, without_cookie) {
            (RequestDisposition::Unauthorized, RequestDisposition::Unauthorized) => {}
            (RequestDisposition::Proceed(None), RequestDisposition::Proceed(None)) => {}
            _ => panic!("an unknown token must be handled exactly like no cookie"),
        }
    }
}

#[test]
fn valid_token_keeps_resolving_to_its_user() {
    // The session issued for a@x.com still resolves to a@x.com after
    // unrelated users and sessions appear.
    let mut store = MemoryStore::new();
    let issued = "t".to_string();
    let access = "at".to_string();
    let first = "a@x.com".to_string();
    process_callback(
        &mut store,
        Some(&issued),
        &issued,
        Some(&access),
        Some(&first),
        "session-1".to_string(),
    )
    .expect("login must succeed");
    for (n, email) in ["c@x.com", "d@x.com", "e@x.com"].iter().enumerate() {
        let email = email.to_string();
        process_callback(
            &mut store,
            Some(&issued),
            &issued,
            Some(&access),
            Some(&email),
            format!("session-{}", n + 2),
        )
        .expect("later login must succeed");
    }
    let cookie = "session-1".to_string();
    let d = resolve_request(&store, RoutePolicy::RequireUser, Some(&cookie));
    match d {
        RequestDisposition::Proceed(Some(user)) => assert_eq!(user.email, "a@x.com"),
        _ => panic!("the original session must still resolve"),
    }
}

#[test]
fn missing_pending_login_is_a_mismatch() {
    let mut store = MemoryStore::new();
    let returned = "anything".to_string();
    let access = "at".to_string();
    let email = "a@x.com".to_string();
    let r = process_callback(
        &mut store,
        None,
        &returned,
        Some(&access),
        Some(&email),
        "session-1".to_string(),
    );
    assert_eq!(r.expect_err("no pending login must fail"), AuthError::CsrfMismatch);
    assert_eq!(store.users.len(), 0);
    assert_eq!(store.sessions.len(), 0);
}

#[test]
fn provider_exchange_failure_writes_nothing() {
    let mut store = MemoryStore::new();
    let issued = "t".to_string();
    let email = "a@x.com".to_string();
    let r = process_callback(
        &mut store,
        Some(&issued),
        &issued,
        None,
        Some(&email),
        "session-1".to_string(),
    );
    let err = r.expect_err("a failed exchange must fail the attempt");
    assert_eq!(err, AuthError::ProviderExchangeFailed);
    assert_eq!(err.status_code(), 500);
    assert_eq!(store.users.len(), 0);
    assert_eq!(store.sessions.len(), 0);
}

#[test]
fn provider_userinfo_failure_writes_nothing() {
    let mut store = MemoryStore::new();
    let issued = "t".to_string();
    let access = "at".to_string();
    let r = process_callback(
        &mut store,
        Some(&issued),
        &issued,
        Some(&access),
        None,
        "session-1".to_string(),
    );
    let err = r.expect_err("a failed userinfo read must fail the attempt");
    assert_eq!(err, AuthError::ProviderUserInfoFailed);
    assert_eq!(err.status_code(), 500);
    assert_eq!(store.users.len(), 0);
    assert_eq!(store.sessions.len(), 0);
}

#[test]
fn session_token_collision_surfaces_as_store_error() {
    let mut store = MemoryStore::new();
    let issued = "t".to_string();
    let access = "at".to_string();
    let email = "a@x.com".to_string();
    process_callback(
        &mut store,
        Some(&issued),
        &issued,
        Some(&access),
        Some(&email),
        "session-1".to_string(),
    )
    .expect("first login must succeed");
    let other = "b@x.com".to_string();
    let r = process_callback(
        &mut store,
        Some(&issued),
        &issued,
        Some(&access),
        Some(&other),
        "session-1".to_string(),
    );
    let err = r.expect_err("a colliding session token must fail");
    assert_eq!(err, AuthError::StoreUnavailable);
    assert_eq!(err.status_code(), 500);
    // The upsert is visible, but no second session exists: no cookie can
    // reach a half-created session.
    assert_eq!(store.users.len(), 2);
    assert_eq!(store.sessions.len(), 1);
}

#[test]
fn verify_callback_state_is_an_exact_comparison() {
    let issued = "abc".to_string();
    let same = "abc".to_string();
    let close_but_wrong = "abC".to_string();
    assert!(verify_callback_state(Some(&issued), &same).is_ok());
    assert_eq!(
        verify_callback_state(Some(&issued), &close_but_wrong).expect_err("case differs"),
        AuthError::CsrfMismatch
    );
    assert_eq!(
        verify_callback_state(None, &same).expect_err("nothing issued"),
        AuthError::CsrfMismatch
    );
}

#[test]
fn flow_walks_the_happy_path() {
    let s = FlowState::AwaitingCallback { csrf_state: "nonce".to_string() };
    let e = FlowEvent::CallbackRequest { code: "the-code".to_string(), state: "nonce".to_string() };
    let (s, a) = flow_step(s, e).expect("expected event");
    match &a {
        FlowAction::ExchangeCode { code } => assert_eq!(code, "the-code"),
        _ => panic!("the first action must be the code exchange"),
    }
    let (s, a) = flow_step(s, FlowEvent::ExchangeSucceeded { access_token: "at".to_string() })
        .expect("expected event");
    assert!(matches!(a, FlowAction::FetchUserInfo));
    let (s, a) = flow_step(s, FlowEvent::UserInfoSucceeded { email: "a@x.com".to_string() })
        .expect("expected event");
    assert!(matches!(a, FlowAction::LookUpUser));
    let (s, a) = flow_step(s, FlowEvent::LookupMissed).expect("expected event");
    assert!(matches!(a, FlowAction::InsertUser));
    let (s, a) = flow_step(s, FlowEvent::InsertSucceeded { user_id: 7 }).expect("expected event");
    assert!(matches!(a, FlowAction::CreateSession));
    let (s, a) = flow_step(s, FlowEvent::SessionCreated { session_token: "st".to_string() })
        .expect("expected event");
    assert!(matches!(a, FlowAction::RedirectSignedIn));
    match s {
        FlowState::Completed { user_id, session_token } => {
            assert_eq!(user_id, 7);
            assert_eq!(session_token, "st");
        }
        _ => panic!("the attempt must be complete"),
    }
}

#[test]
fn flow_retries_lookup_after_insert_conflict() {
    let s = FlowState::ResolvingUser {
        email: "b@x.com".to_string(),
        access_token: "at".to_string(),
    };
    let (s, a) = flow_step(s, FlowEvent::LookupMissed).expect("expected event");
    assert!(matches!(a, FlowAction::InsertUser));
    // A concurrent first login for the same email won the insert race.
    let (s, a) = flow_step(s, FlowEvent::InsertConflicted).expect("expected event");
    assert!(matches!(a, FlowAction::LookUpUser));
    let (s, a) = flow_step(s, FlowEvent::LookupSucceeded { user_id: 3 }).expect("expected event");
    assert!(matches!(a, FlowAction::CreateSession));
    assert!(matches!(s, FlowState::CreatingSession { user_id: 3, .. }));
}

#[test]
fn flow_rejects_mismatched_state_and_halts() {
    let s = FlowState::AwaitingCallback { csrf_state: "nonce".to_string() };
    let e = FlowEvent::CallbackRequest { code: "c".to_string(), state: "other".to_string() };
    let (s, a) = flow_step(s, e).expect("expected event");
    assert!(matches!(a, FlowAction::RespondUnauthorized));
    assert!(matches!(s, FlowState::Failed { error: AuthError::CsrfMismatch }));
    // A failed attempt answers no further event.
    let r = flow_step(s, FlowEvent::LookupSucceeded { user_id: 0 });
    assert!(r.is_none());
}

#[test]
fn flow_store_failure_is_a_server_error() {
    let s = FlowState::CreatingSession { user_id: 0, access_token: "at".to_string() };
    let (s, a) = flow_step(s, FlowEvent::StoreFailed).expect("expected event");
    assert!(matches!(a, FlowAction::RespondServerError));
    assert!(matches!(s, FlowState::Failed { error: AuthError::StoreUnavailable }));
}

#[test]
fn begin_login_issues_fresh_state_inside_url() {
    let c = config();
    let LoginStart { csrf_state, authorize_url } = begin_login(&c);
    assert_eq!(csrf_state.len(), 22);
    assert!(token_alphabet_ok(&csrf_state));
    assert!(authorize_url.starts_with(
        "https://idp.example/authorize?response_type=code&client_id=my-client&redirect_uri=http%3A%2F%2Flocalhost%3A3000%2Fcallback&scope=openid%20profile%20email&state="
    ));
    assert!(authorize_url.ends_with(&format!("&state={}", csrf_state)));
    let again = begin_login(&c);
    assert_ne!(again.csrf_state, csrf_state, "each attempt gets its own nonce");
}

#[test]
fn finish_login_fresh_issues_a_22_char_token() {
    let mut store = MemoryStore::new();
    let email = "a@x.com".to_string();
    let access = "at".to_string();
    let c = finish_login_fresh(&mut store, &email, &access).expect("login must succeed");
    assert_eq!(c.session_token.len(), 22);
    assert!(token_alphabet_ok(&c.session_token));
    assert_eq!(store.sessions.len(), 1);
    assert_eq!(store.sessions[0].session_token, c.session_token);
    let d = resolve_request(&store, RoutePolicy::RequireUser, Some(&c.session_token));
    assert!(matches!(d, RequestDisposition::Proceed(Some(_))));
}

#[test]
fn finish_login_reuses_the_existing_user() {
    let mut store = MemoryStore::new();
    let email = "a@x.com".to_string();
    let access = "at".to_string();
    let c1 = finish_login(&mut store, &email, &access, "s1".to_string()).expect("must succeed");
    let c2 = finish_login(&mut store, &email, &access, "s2".to_string()).expect("must succeed");
    assert_eq!(c1.user_id, c2.user_id);
    assert_eq!(store.users.len(), 1);
    assert_eq!(store.sessions.len(), 2);
}

#[test]
fn store_failure_outcome_rejects_with_500() {
    let d = authorize_request(RoutePolicy::AllowAnonymous, Some(LookupOutcome::StoreFailure));
    assert!(matches!(d, RequestDisposition::ServerError));
    assert_eq!(d.status_code(), Some(500));
    let d = authorize_request(RoutePolicy::RequireUser, Some(LookupOutcome::StoreFailure));
    assert!(matches!(d, RequestDisposition::ServerError));
}

#[test]
fn not_found_follows_route_policy() {
    let d = authorize_request(RoutePolicy::RequireUser, Some(LookupOutcome::NotFound));
    assert!(matches!(d, RequestDisposition::Unauthorized));
    let d = authorize_request(RoutePolicy::AllowAnonymous, Some(LookupOutcome::NotFound));
    assert!(matches!(d, RequestDisposition::Proceed(None)));
}
