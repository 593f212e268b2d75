use microblogs::errors::ServiceError;
use microblogs::store::Store;
use microblogs::tokens::{TOKEN_VALIDITY_SECONDS, current_unix_time, verify_token};
use microblogs::users::{AccessInfo, refresh_access, strip_bearer};

fn secret() -> String {
    "test-signing-secret".to_string()
}

fn register_alice(store: &mut Store, now: u64) -> AccessInfo {
    store
        .register_user(
            "alice".to_string(),
            "alice@example.org".to_string(),
            "Alice Doe".to_string(),
            "hi there".to_string(),
            &"hunter2pass".to_string(),
            &secret(),
            now,
        )
        .unwrap()
}

#[test]
fn register_then_login_succeeds() {
    let mut store = Store::new();
    let now: u64 = 1_700_000_000;
    let ai = register_alice(&mut store, now);
    assert_eq!(ai.username, "alice");
    assert_eq!(ai.real_name, "Alice Doe");
    assert!(!ai.token.is_empty());

    let login = store
        .login(&"alice".to_string(), &"hunter2pass".to_string(), &secret(), now)
        .unwrap();
    assert_eq!(login.username, "alice");
    assert_eq!(login.real_name, "Alice Doe");
}

#[test]
fn login_wrong_password_unauthenticated() {
    let mut store = Store::new();
    let now: u64 = 1_700_000_000;
    register_alice(&mut store, now);
    let r = store.login(&"alice".to_string(), &"wrong-pass".to_string(), &secret(), now);
    assert_eq!(r.unwrap_err(), ServiceError::Unauthenticated);
}

#[test]
fn login_unknown_user_unauthenticated() {
    let store = Store::new();
    let r = store.login(
        &"nobody".to_string(),
        &"whatever".to_string(),
        &secret(),
        1_700_000_000,
    );
    assert_eq!(r.unwrap_err(), ServiceError::Unauthenticated);
}

#[test]
fn login_deleted_user_unauthenticated() {
    let mut store = Store::new();
    let now: u64 = 1_700_000_000;
    register_alice(&mut store, now);
    store.soft_delete_user(&"alice".to_string()).unwrap();
    let r = store.login(&"alice".to_string(), &"hunter2pass".to_string(), &secret(), now);
    assert_eq!(r.unwrap_err(), ServiceError::Unauthenticated);
}

#[test]
fn register_duplicate_username_conflict() {
    let mut store = Store::new();
    let now: u64 = 1_700_000_000;
    register_alice(&mut store, now);
    let r = store.register_user(
        "alice".to_string(),
        "other@example.org".to_string(),
        "Another Alice".to_string(),
        String::new(),
        &"pw".to_string(),
        &secret(),
        now,
    );
    assert_eq!(r.unwrap_err(), ServiceError::Conflict);
    assert_eq!(store.users.len(), 1);
}

#[test]
fn authenticate_with_bearer_header() {
    let mut store = Store::new();
    let now: u64 = 1_700_000_000;
    let ai = register_alice(&mut store, now);
    let header = format!("Bearer {}", ai.token);
    let d = store.authenticate(Some(&header), None, &secret(), now).unwrap();
    assert_eq!(d.id, 1);
    assert_eq!(d.username, "alice");
    assert_eq!(d.real_name, "Alice Doe");
}

#[test]
fn authenticate_with_cookie() {
    let mut store = Store::new();
    let now: u64 = 1_700_000_000;
    let ai = register_alice(&mut store, now);
    let d = store.authenticate(None, Some(&ai.token), &secret(), now).unwrap();
    assert_eq!(d.username, "alice");
}

#[test]
fn authenticate_missing_credential() {
    let store = Store::new();
    let r = store.authenticate(None, None, &secret(), 1_700_000_000);
    assert_eq!(r.unwrap_err(), ServiceError::Unauthenticated);
}

#[test]
fn authenticate_header_without_bearer_marker() {
    let mut store = Store::new();
    let now: u64 = 1_700_000_000;
    let ai = register_alice(&mut store, now);
    // the raw token in the header, without "Bearer ": refused, and the
    // cookie is not consulted when a header is present
    let r = store.authenticate(Some(&ai.token), Some(&ai.token), &secret(), now);
    assert_eq!(r.unwrap_err(), ServiceError::Unauthenticated);
}

#[test]
fn authenticate_garbage_token() {
    let mut store = Store::new();
    let now: u64 = 1_700_000_000;
    register_alice(&mut store, now);
    let header = "Bearer not.a.token".to_string();
    let r = store.authenticate(Some(&header), None, &secret(), now);
    assert_eq!(r.unwrap_err(), ServiceError::Unauthenticated);
}

#[test]
fn authenticate_wrong_secret() {
    let mut store = Store::new();
    let now: u64 = 1_700_000_000;
    let ai = register_alice(&mut store, now);
    let header = format!("Bearer {}", ai.token);
    let other = "a-different-secret".to_string();
    let r = store.authenticate(Some(&header), None, &other, now);
    assert_eq!(r.unwrap_err(), ServiceError::Unauthenticated);
}

#[test]
fn authenticate_tampered_token() {
    let mut store = Store::new();
    let now: u64 = 1_700_000_000;
    let ai = register_alice(&mut store, now);
    let mut tampered = ai.token.clone();
    tampered.push('x');
    let header = format!("Bearer {}", tampered);
    let r = store.authenticate(Some(&header), None, &secret(), now);
    assert_eq!(r.unwrap_err(), ServiceError::Unauthenticated);
}

#[test]
fn authenticate_expired_token() {
    let mut store = Store::new();
    let now: u64 = 1_700_000_000;
    let ai = register_alice(&mut store, now);
    let header = format!("Bearer {}", ai.token);
    // still valid one second before the expiry instant
    let almost = now + TOKEN_VALIDITY_SECONDS - 1;
    assert!(store.authenticate(Some(&header), None, &secret(), almost).is_ok());
    // expired at the expiry instant itself
    let at_expiry = now + TOKEN_VALIDITY_SECONDS;
    let r = store.authenticate(Some(&header), None, &secret(), at_expiry);
    assert_eq!(r.unwrap_err(), ServiceError::Unauthenticated);
}

#[test]
fn deleted_user_token_rejected_before_expiry() {
    let mut store = Store::new();
    let now: u64 = 1_700_000_000;
    let ai = register_alice(&mut store, now);
    let header = format!("Bearer {}", ai.token);
    assert!(store.authenticate(Some(&header), None, &secret(), now + 10).is_ok());

    store.soft_delete_user(&"alice".to_string()).unwrap();

    // the credential stops working at once, long before its expiry
    let r = store.authenticate(Some(&header), None, &secret(), now + 10);
    assert_eq!(r.unwrap_err(), ServiceError::Unauthenticated);
}

#[test]
fn soft_delete_unknown_user_not_found() {
    let mut store = Store::new();
    let r = store.soft_delete_user(&"ghost".to_string());
    assert_eq!(r.unwrap_err(), ServiceError::NotFound);
}

#[test]
fn refresh_access_issues_usable_token() {
    let mut store = Store::new();
    let now: u64 = 1_700_000_000;
    let ai = register_alice(&mut store, now);
    let d = store.authenticate(None, Some(&ai.token), &secret(), now).unwrap();
    let later = now + 1000;
    let refreshed = refresh_access(&d, &secret(), later);
    assert_eq!(refreshed.username, "alice");
    // the fresh token outlives the old one
    let past_old = now + TOKEN_VALIDITY_SECONDS;
    let d2 = store
        .authenticate(None, Some(&refreshed.token), &secret(), past_old)
        .unwrap();
    assert_eq!(d2.username, "alice");
}

#[test]
fn verify_token_round_trip_subject() {
    let mut store = Store::new();
    let now: u64 = 1_700_000_000;
    let ai = register_alice(&mut store, now);
    let sub = verify_token(&ai.token, &secret(), now).unwrap();
    assert_eq!(sub, "alice");
}

#[test]
fn strip_bearer_extracts_token() {
    assert_eq!(strip_bearer(&"Bearer abc.def".to_string()), Some("abc.def".to_string()));
    assert_eq!(strip_bearer(&"Basic abc".to_string()), None);
    assert_eq!(strip_bearer(&"Bearer".to_string()), None);
    assert_eq!(strip_bearer(&"Bearer ".to_string()), Some(String::new()));
}

#[test]
fn current_unix_time_is_recent() {
    let t = current_unix_time();
    // after 2020-01-01 on any sane clock
    assert!(t > 1_577_836_800);
}
