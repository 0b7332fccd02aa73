use review_auth::records::StoreError;
use review_auth::store::MemoryStore;

#[test]
fn empty_store_finds_nothing() {
    let store = MemoryStore::new();
    let email = "a@x.com".to_string();
    let token = "session-1".to_string();
    assert!(store.find_user_by_email(&email).is_none());
    assert!(store.find_user_by_session_token(&token).is_none());
}

#[test]
fn insert_user_assigns_row_ids_in_order() {
    let mut store = MemoryStore::new();
    let a = store.insert_user("a@x.com".to_string()).expect("fresh email");
    let b = store.insert_user("b@x.com".to_string()).expect("fresh email");
    assert_eq!(a, 0);
    assert_eq!(b, 1);
    let b_mail = "b@x.com".to_string();
    assert_eq!(store.find_user_by_email(&b_mail), Some(1));
    assert_eq!(store.get_user(1).email, "b@x.com");
}

#[test]
fn duplicate_email_is_a_constraint_violation() {
    let mut store = MemoryStore::new();
    store.insert_user("a@x.com".to_string()).expect("fresh email");
    let r = store.insert_user("a@x.com".to_string());
    assert_eq!(r.expect_err("emails are unique"), StoreError::ConstraintViolation);
    assert_eq!(store.users.len(), 1);
}

#[test]
fn duplicate_session_token_is_a_constraint_violation() {
    let mut store = MemoryStore::new();
    let uid = store.insert_user("a@x.com".to_string()).expect("fresh email");
    store
        .insert_session(uid, "tok".to_string(), "at-1".to_string())
        .expect("fresh token");
    let r = store.insert_session(uid, "tok".to_string(), "at-2".to_string());
    assert_eq!(r.expect_err("tokens are unique"), StoreError::ConstraintViolation);
    assert_eq!(store.sessions.len(), 1);
    assert_eq!(store.sessions[0].access_token, "at-1");
}

#[test]
fn token_lookup_joins_session_to_user() {
    let mut store = MemoryStore::new();
    let a = store.insert_user("a@x.com".to_string()).expect("fresh email");
    let b = store.insert_user("b@x.com".to_string()).expect("fresh email");
    store
        .insert_session(a, "tok-a".to_string(), "at".to_string())
        .expect("fresh token");
    store
        .insert_session(b, "tok-b".to_string(), "at".to_string())
        .expect("fresh token");
    let tok_a = "tok-a".to_string();
    let tok_b = "tok-b".to_string();
    let tok_c = "tok-c".to_string();
    assert_eq!(store.find_user_by_session_token(&tok_a), Some(a));
    assert_eq!(store.find_user_by_session_token(&tok_b), Some(b));
    assert_eq!(store.find_user_by_session_token(&tok_c), None);
}

#[test]
fn one_user_may_hold_many_sessions() {
    let mut store = MemoryStore::new();
    let uid = store.insert_user("a@x.com".to_string()).expect("fresh email");
    for n in 0..3 {
        store
            .insert_session(uid, format!("tok-{}", n), "at".to_string())
            .expect("fresh token");
    }
    assert_eq!(store.sessions.len(), 3);
    for n in 0..3 {
        assert_eq!(store.find_user_by_session_token(&format!("tok-{}", n)), Some(uid));
    }
}

#[test]
fn emails_are_case_sensitive() {
    let mut store = MemoryStore::new();
    store.insert_user("a@x.com".to_string()).expect("fresh email");
    store
        .insert_user("A@x.com".to_string())
        .expect("a differently-cased email is a different email");
    assert_eq!(store.users.len(), 2);
}
