use user_auth::{
    finish_login, finish_refresh, finish_register, finish_update, stored_record, StoreError, generate_jwt, generate_refresh_token,
    get_users, hash_password, login_user, parse_user_id, refresh_user, register_user,
    update_user, verify_password, AuthError, ErrorClass, Role, Session, SigningKeys,
    UpdateUser, User, UserLogin,
};

const NOW: i64 = 1_700_000_000;
const ALICE_ID: &str = "65a1b2c3d4e5f60718293a4b";

fn keys() -> SigningKeys {
    SigningKeys::new(b"access-secret".to_vec(), b"refresh-secret".to_vec()).unwrap()
}

fn new_user(username: &str, email: &str, password: &str, role: Role) -> User {
    User {
        id: None,
        username: username.to_string(),
        email: email.to_string(),
        password: password.to_string(),
        role,
        access_token: None,
        refresh_token: None,
        access_token_expires_at: None,
        refresh_token_expires_at: None,
    }
}

fn registered_alice() -> User {
    let mut stored =
        register_user(&new_user("alice", "a@x.com", "secret123", Role::User)).unwrap();
    stored.id = Some(ALICE_ID.to_string());
    stored
}

fn claims_of(token: &str, secret: &[u8]) -> serde_json::Value {
    let mut validation = jsonwebtoken::Validation::new(jsonwebtoken::Algorithm::HS256);
    validation.validate_exp = false;
    validation.required_spec_claims.clear();
    jsonwebtoken::decode::<serde_json::Value>(
        token,
        &jsonwebtoken::DecodingKey::from_secret(secret),
        &validation,
    )
    .unwrap()
    .claims
}

#[test]
fn role_names_are_lower_case() {
    assert_eq!(Role::Admin.as_str(), "admin");
    assert_eq!(Role::User.as_str(), "user");
}

#[test]
fn parse_user_id_accepts_24_hex_digits() {
    assert_eq!(parse_user_id(ALICE_ID).unwrap(), ALICE_ID);
    assert_eq!(
        parse_user_id("65A1B2C3D4E5F60718293A4B").unwrap(),
        "65a1b2c3d4e5f60718293a4b"
    );
}

#[test]
fn parse_user_id_rejects_malformed_text() {
    assert_eq!(parse_user_id("not-a-valid-id"), Err(AuthError::InvalidUserId));
    assert_eq!(parse_user_id(""), Err(AuthError::InvalidUserId));
    assert_eq!(parse_user_id("65a1b2c3d4e5f60718293a4"), Err(AuthError::InvalidUserId));
    assert_eq!(parse_user_id("65a1b2c3d4e5f60718293a4g"), Err(AuthError::InvalidUserId));
    assert_eq!(parse_user_id("65a1b2c3d4e5f60718293a4b00"), Err(AuthError::InvalidUserId));
}

#[test]
fn error_classes_and_statuses() {
    assert_eq!(AuthError::InvalidUserId.class(), ErrorClass::BadRequest);
    assert_eq!(AuthError::InvalidUserId.status(), 400);
    assert_eq!(AuthError::UnknownEmail.status(), 401);
    assert_eq!(AuthError::InvalidCredentials.status(), 401);
    assert_eq!(AuthError::UserNotFound.status(), 404);
    assert_eq!(AuthError::UpstreamUnavailable.status(), 503);
    assert_eq!(AuthError::SessionLost.status(), 500);
    assert_eq!(AuthError::InvalidCredentials.message(), "Invalid credentials");
}

#[test]
fn hash_round_trip_and_hides_plaintext() {
    let h = hash_password("secret123").unwrap();
    assert_ne!(h, "secret123");
    assert_eq!(h.len(), 60);
    assert!(h.starts_with("$2b$12$"));
    assert_eq!(verify_password("secret123", &h), Ok(true));
    assert_eq!(verify_password("wrong", &h), Ok(false));
}

#[test]
fn identical_passwords_hash_differently() {
    let a = hash_password("password123").unwrap();
    let b = hash_password("password123").unwrap();
    assert_ne!(a, b);
}

#[test]
fn verify_against_malformed_hash_is_an_error() {
    assert_eq!(
        verify_password("secret123", "secret123"),
        Err(AuthError::PasswordCheckFailed)
    );
}

#[test]
fn register_stores_hash_and_no_session() {
    let input = new_user("alice", "a@x.com", "secret123", Role::User);
    let stored = register_user(&input).unwrap();
    assert_eq!(stored.id, None);
    assert_eq!(stored.username, "alice");
    assert_eq!(stored.email, "a@x.com");
    assert_eq!(stored.role, Role::User);
    assert_ne!(stored.password, "secret123");
    assert_eq!(verify_password("secret123", &stored.password), Ok(true));
    assert!(stored.access_token.is_none() && stored.refresh_token.is_none());
    assert!(stored.access_token_expires_at.is_none());
    assert!(stored.refresh_token_expires_at.is_none());
}

#[test]
fn signing_keys_must_differ() {
    assert!(SigningKeys::new(b"same".to_vec(), b"same".to_vec()).is_none());
    assert!(SigningKeys::new(b"one".to_vec(), b"two".to_vec()).is_some());
}

#[test]
fn access_token_carries_claims() {
    let t = generate_jwt(&keys(), ALICE_ID, "alice", &Role::Admin, NOW, "jti-1").unwrap();
    assert_eq!(t.split('.').count(), 3);
    let c = claims_of(&t, b"access-secret");
    assert_eq!(c["sub"], ALICE_ID);
    assert_eq!(c["username"], "alice");
    assert_eq!(c["role"], "admin");
    assert_eq!(c["exp"], NOW + 900);
}

#[test]
fn refresh_token_carries_claims() {
    let t = generate_refresh_token(&keys(), ALICE_ID, "alice", &Role::User, NOW, "jti-1").unwrap();
    let c = claims_of(&t, b"refresh-secret");
    assert_eq!(c["sub"], ALICE_ID);
    assert_eq!(c["role"], "user");
    assert_eq!(c["exp"], NOW + 604800);
}

#[test]
fn token_kinds_use_distinct_secrets() {
    let k = keys();
    let a = generate_jwt(&k, ALICE_ID, "alice", &Role::User, NOW, "jti-1").unwrap();
    let r = generate_refresh_token(&k, ALICE_ID, "alice", &Role::User, NOW, "jti-1").unwrap();
    assert_ne!(a, r);
    let mut validation = jsonwebtoken::Validation::new(jsonwebtoken::Algorithm::HS256);
    validation.validate_exp = false;
    let forged = jsonwebtoken::decode::<serde_json::Value>(
        &a,
        &jsonwebtoken::DecodingKey::from_secret(b"refresh-secret"),
        &validation,
    );
    assert!(forged.is_err());
}

#[test]
fn login_scenario_register_then_login() {
    let stored = registered_alice();
    let login = UserLogin { email: "a@x.com".to_string(), password: "secret123".to_string() };
    let s = login_user(&Some(stored), &login, &keys(), NOW, "jti-1").unwrap();
    assert!(!s.access_token.is_empty() && !s.refresh_token.is_empty());
    assert_eq!(s.access_token_expires_at, NOW + 900);
    assert_eq!(s.refresh_token_expires_at, NOW + 604800);
    assert!(NOW < s.access_token_expires_at);
    assert!(s.access_token_expires_at < s.refresh_token_expires_at);
    assert_eq!(claims_of(&s.access_token, b"access-secret")["sub"], ALICE_ID);
}

#[test]
fn login_with_wrong_password_is_unauthorized() {
    let stored = registered_alice();
    let login = UserLogin { email: "a@x.com".to_string(), password: "wrong".to_string() };
    let r = login_user(&Some(stored.clone()), &login, &keys(), NOW, "jti-1");
    assert_eq!(r.as_ref().err(), Some(&AuthError::InvalidCredentials));
    assert_eq!(r.err().unwrap().status(), 401);
    assert!(stored.access_token.is_none() && stored.refresh_token.is_none());
}

#[test]
fn login_with_unknown_email_is_unauthorized() {
    let login = UserLogin { email: "b@x.com".to_string(), password: "secret123".to_string() };
    let r = login_user(&None, &login, &keys(), NOW, "jti-1");
    assert_eq!(r.err(), Some(AuthError::UnknownEmail));
}

#[test]
fn login_against_malformed_hash_is_internal_error() {
    let mut stored = registered_alice();
    stored.password = "plain".to_string();
    let login = UserLogin { email: "a@x.com".to_string(), password: "plain".to_string() };
    let r = login_user(&Some(stored), &login, &keys(), NOW, "jti-1");
    assert_eq!(r.err(), Some(AuthError::PasswordCheckFailed));
}

#[test]
fn login_of_record_without_identifier_is_store_fault() {
    let mut stored = registered_alice();
    stored.id = None;
    let login = UserLogin { email: "a@x.com".to_string(), password: "secret123".to_string() };
    let r = login_user(&Some(stored), &login, &keys(), NOW, "jti-1");
    assert_eq!(r.err(), Some(AuthError::MissingIdentifier));
}

#[test]
fn refresh_twice_gives_different_valid_pairs() {
    let stored = registered_alice();
    let k = keys();
    let s1 = refresh_user(&Some(stored.clone()), &k, NOW, "jti-1").unwrap();
    let s2 = refresh_user(&Some(stored), &k, NOW, "jti-2").unwrap();
    assert_ne!(s1.access_token, s2.access_token);
    assert_ne!(s1.refresh_token, s2.refresh_token);
    for s in [&s1, &s2] {
        assert!(NOW < s.access_token_expires_at);
        assert!(s.access_token_expires_at < s.refresh_token_expires_at);
    }
    assert_eq!(claims_of(&s2.refresh_token, b"refresh-secret")["jti"], "jti-2");
}

#[test]
fn refresh_rotation_keeps_record_well_formed() {
    let mut stored = registered_alice();
    let s = refresh_user(&Some(stored.clone()), &keys(), NOW, "jti-1").unwrap();
    stored.rotate_session(&s);
    assert_eq!(stored.access_token.as_deref(), Some(s.access_token.as_str()));
    assert!(stored.access_token_expires_at.unwrap() <= stored.refresh_token_expires_at.unwrap());
}

#[test]
fn refresh_of_missing_account_is_not_found() {
    let r = refresh_user(&None, &keys(), NOW, "jti-1");
    assert_eq!(r.err(), Some(AuthError::UserNotFound));
}

fn sample_session() -> Session {
    Session {
        access_token: "a".to_string(),
        refresh_token: "r".to_string(),
        access_token_expires_at: NOW + 900,
        refresh_token_expires_at: NOW + 604800,
    }
}

#[test]
fn finishing_a_login_checks_the_match_count() {
    let failed = finish_login(sample_session(), Err(StoreError::Other("connection reset".to_string())));
    let e = failed.err().unwrap();
    assert_eq!(e, AuthError::StoreFailed("connection reset".to_string()));
    assert_eq!(e.message(), "connection reset");
    assert_eq!(e.status(), 500);
    let dup = finish_login(sample_session(), Err(StoreError::DuplicateKey("E11000".to_string())));
    assert_eq!(dup.err(), Some(AuthError::StoreFailed("E11000".to_string())));
    assert_eq!(finish_login(sample_session(), Ok(0)).err(), Some(AuthError::SessionLost));
    assert_eq!(finish_login(sample_session(), Ok(1)).unwrap().access_token, "a");
}

#[test]
fn finishing_a_refresh_checks_the_match_count() {
    assert_eq!(
        finish_refresh(sample_session(), Err(StoreError::Other("down".to_string()))).err(),
        Some(AuthError::StoreFailed("down".to_string()))
    );
    let dup = finish_refresh(sample_session(), Err(StoreError::DuplicateKey("E11000".to_string())));
    assert_eq!(dup.err().unwrap().status(), 500);
    assert_eq!(finish_refresh(sample_session(), Ok(0)).err(), Some(AuthError::UserNotFound));
    assert_eq!(finish_refresh(sample_session(), Ok(1)).unwrap().refresh_token, "r");
}

#[test]
fn rotation_replaces_only_session_fields() {
    let mut u = registered_alice();
    let before = u.clone();
    u.rotate_session(&sample_session());
    assert_eq!(u.access_token.as_deref(), Some("a"));
    assert_eq!(u.refresh_token.as_deref(), Some("r"));
    assert_eq!(u.access_token_expires_at, Some(NOW + 900));
    assert_eq!(u.refresh_token_expires_at, Some(NOW + 604800));
    assert_eq!(u.id, before.id);
    assert_eq!(u.password, before.password);
    assert_eq!(u.email, before.email);
}

#[test]
fn listing_reduces_accounts() {
    let mut a = registered_alice();
    a.rotate_session(&sample_session());
    let b = new_user("bob", "b@x.com", "hash", Role::Admin);
    let list = get_users(&vec![a, b]);
    assert_eq!(list.len(), 2);
    assert_eq!(list[0].id.as_deref(), Some(ALICE_ID));
    assert_eq!(list[0].username, "alice");
    assert_eq!(list[0].role, Role::User);
    assert_eq!(list[1].id, None);
    assert_eq!(list[1].username, "bob");
    assert_eq!(list[1].role, Role::Admin);
    assert!(get_users(&Vec::new()).is_empty());
}

#[test]
fn update_validates_identifier() {
    let change = UpdateUser { name: "alicia".to_string() };
    let p = update_user(ALICE_ID, &change).unwrap();
    assert_eq!(p.id, ALICE_ID);
    assert_eq!(p.username, "alicia");
    assert_eq!(update_user("not-a-valid-id", &change).err(), Some(AuthError::InvalidUserId));
}

#[test]
fn finishing_an_update_checks_the_match_count() {
    assert_eq!(
        finish_update(Err(StoreError::Other("write failed".to_string()))),
        Err(AuthError::StoreFailed("write failed".to_string()))
    );
    let dup = finish_update(Err(StoreError::DuplicateKey("E11000 duplicate key".to_string())));
    assert_eq!(dup, Err(AuthError::StoreFailed("E11000 duplicate key".to_string())));
    assert_eq!(dup.err().unwrap().status(), 500);
    assert_eq!(finish_update(Ok(0)), Err(AuthError::UserNotFound));
    assert_eq!(finish_update(Ok(1)), Ok(()));
}

#[test]
fn finishing_a_registration_reports_conflicts() {
    assert_eq!(finish_register(Ok(ALICE_ID.to_string())), Ok(ALICE_ID.to_string()));
    let dup = finish_register(Err(StoreError::DuplicateKey("E11000".to_string()))).err().unwrap();
    assert_eq!(dup, AuthError::DuplicateAccount);
    assert_eq!(dup.class(), ErrorClass::Conflict);
    assert_eq!(dup.status(), 409);
    assert_eq!(
        finish_register(Err(StoreError::Other("disk full".to_string()))),
        Err(AuthError::StoreFailed("disk full".to_string()))
    );
}

#[test]
fn stored_record_takes_the_hash() {
    let input = new_user("alice", "a@x.com", "secret123", Role::Admin);
    let r = stored_record(&input, "$2b$12$hash".to_string());
    assert_eq!(r.password, "$2b$12$hash");
    assert_eq!(r.username, "alice");
    assert_eq!(r.email, "a@x.com");
    assert_eq!(r.role, Role::Admin);
    assert!(r.id.is_none() && r.access_token.is_none() && r.refresh_token_expires_at.is_none());
}

#[test]
fn register_then_login_with_original_test_values() {
    let mut stored =
        register_user(&new_user("Test User", "test@example.com", "password123", Role::User)).unwrap();
    stored.id = Some(ALICE_ID.to_string());
    let login = UserLogin {
        email: "test@example.com".to_string(),
        password: "password123".to_string(),
    };
    assert!(login_user(&Some(stored), &login, &keys(), NOW, "jti-1").is_ok());
}
