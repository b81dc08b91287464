use session_auth::auth::{
    generate_tokens_at, validate_session, validate_session_at, verify_access, verify_refresh,
    Session, SessionError,
};
use session_auth::config::AuthConfig;
use session_auth::db::{Database, User, UserDatabase};

fn settings() -> AuthConfig {
    AuthConfig::new("secret".to_string(), "handrolled-auth-api".to_string(), 300, 2_592_000)
        .unwrap()
}

fn store_with(id: &str, session_version: u64) -> Database {
    let mut db = Database::new();
    db.add_user(User {
        id: id.to_string(),
        username: "JJ".to_string(),
        password_hash: "unused".to_string(),
        session_version,
    });
    db
}

fn broken(token: &str) -> String {
    let mut broken = token.to_string();
    let last = broken.pop().unwrap();
    broken.push(if last == 'A' { 'B' } else { 'A' });
    broken
}

#[test]
fn valid_access_token_authenticates_without_rotation() {
    let config = settings();
    let db = store_with("12345", 3);
    let tokens = generate_tokens_at(&config, "12345", 3, 1_000).unwrap();
    let session =
        validate_session_at(&config, Some(&tokens.access_token), None, &db, 1_200).unwrap();
    assert_eq!(session, Session { user_id: "12345".to_string(), new_tokens: None });
}

#[test]
fn valid_access_token_needs_no_store_entry_and_no_refresh_token() {
    let config = settings();
    let empty = Database::new();
    let tokens = generate_tokens_at(&config, "ghost", 3, 1_000).unwrap();
    let session = validate_session_at(
        &config,
        Some(&tokens.access_token),
        Some("garbage"),
        &empty,
        1_300,
    )
    .unwrap();
    assert_eq!(session.user_id, "ghost");
    assert_eq!(session.new_tokens, None);
}

#[test]
fn expired_access_token_with_current_refresh_token_rotates() {
    let config = settings();
    let db = store_with("12345", 3);
    let old = generate_tokens_at(&config, "12345", 3, 1_000).unwrap();
    let session = validate_session_at(
        &config,
        Some(&old.access_token),
        Some(&old.refresh_token),
        &db,
        2_000,
    )
    .unwrap();
    assert_eq!(session.user_id, "12345");
    let fresh = session.new_tokens.unwrap();
    assert_ne!(fresh.access_token, old.access_token);
    assert_ne!(fresh.refresh_token, old.refresh_token);
    let access = verify_access(&config, &fresh.access_token, 2_000).unwrap();
    assert_eq!(access.sub, "12345");
    assert_eq!(access.exp, 2_300);
    let refresh = verify_refresh(&config, &fresh.refresh_token, 2_000).unwrap();
    assert_eq!(refresh.sub, "12345");
    assert_eq!(refresh.version, 3);
    assert_eq!(refresh.exp, 2_594_000);
    assert_eq!(fresh, generate_tokens_at(&config, "12345", 3, 2_000).unwrap());
}

#[test]
fn absent_access_token_with_current_refresh_token_rotates() {
    let config = settings();
    let db = store_with("12345", 3);
    let old = generate_tokens_at(&config, "12345", 3, 1_000).unwrap();
    let session =
        validate_session_at(&config, None, Some(&old.refresh_token), &db, 1_100).unwrap();
    assert_eq!(session.user_id, "12345");
    let fresh = session.new_tokens.unwrap();
    assert_eq!(verify_refresh(&config, &fresh.refresh_token, 1_100).unwrap().version, 3);
}

#[test]
fn rotated_tokens_resolve_again() {
    let config = settings();
    let db = store_with("12345", 3);
    let old = generate_tokens_at(&config, "12345", 3, 1_000).unwrap();
    let first = validate_session_at(&config, None, Some(&old.refresh_token), &db, 2_000)
        .unwrap()
        .new_tokens
        .unwrap();
    let again = validate_session_at(
        &config,
        Some(&first.access_token),
        Some(&first.refresh_token),
        &db,
        2_100,
    )
    .unwrap();
    assert_eq!(again, Session { user_id: "12345".to_string(), new_tokens: None });
}

#[test]
fn no_cookies_at_all_miss_the_refresh_token() {
    let config = settings();
    let db = store_with("12345", 3);
    assert_eq!(
        validate_session_at(&config, None, None, &db, 1_000),
        Err(SessionError::MissingRefreshToken)
    );
}

#[test]
fn expired_access_token_alone_misses_the_refresh_token() {
    let config = settings();
    let db = store_with("12345", 3);
    let old = generate_tokens_at(&config, "12345", 3, 1_000).unwrap();
    assert_eq!(
        validate_session_at(&config, Some(&old.access_token), None, &db, 1_301),
        Err(SessionError::MissingRefreshToken)
    );
}

#[test]
fn bumped_version_revokes_issued_refresh_tokens() {
    let config = settings();
    let mut db = store_with("12345", 3);
    let old = generate_tokens_at(&config, "12345", 3, 1_000).unwrap();
    assert!(validate_session_at(&config, None, Some(&old.refresh_token), &db, 1_400).is_ok());
    db.invalidate_user_sessions("12345");
    assert_eq!(db.get_user_by_id("12345").unwrap().session_version, 4);
    assert!(verify_refresh(&config, &old.refresh_token, 1_400).is_ok());
    assert_eq!(
        validate_session_at(&config, None, Some(&old.refresh_token), &db, 1_400),
        Err(SessionError::ManuallyInvalidatedRefreshToken)
    );
    assert_eq!(
        validate_session_at(
            &config,
            Some(&old.access_token),
            Some(&old.refresh_token),
            &db,
            1_400
        ),
        Err(SessionError::ManuallyInvalidatedRefreshToken)
    );
}

#[test]
fn revocation_leaves_unexpired_access_tokens_and_other_users_alone() {
    let config = settings();
    let mut db = store_with("12345", 3);
    db.add_user(User {
        id: "67890".to_string(),
        username: "KK".to_string(),
        password_hash: "unused".to_string(),
        session_version: 3,
    });
    let mine = generate_tokens_at(&config, "12345", 3, 1_000).unwrap();
    let theirs = generate_tokens_at(&config, "67890", 3, 1_000).unwrap();
    db.invalidate_user_sessions("12345");
    let still = validate_session_at(&config, Some(&mine.access_token), None, &db, 1_100).unwrap();
    assert_eq!(still.user_id, "12345");
    let other =
        validate_session_at(&config, None, Some(&theirs.refresh_token), &db, 1_100).unwrap();
    assert_eq!(other.user_id, "67890");
    assert!(other.new_tokens.is_some());
}

#[test]
fn refresh_token_from_a_later_version_is_refused_too() {
    let config = settings();
    let db = store_with("12345", 3);
    let newer = generate_tokens_at(&config, "12345", 4, 1_000).unwrap();
    assert_eq!(
        validate_session_at(&config, None, Some(&newer.refresh_token), &db, 1_000),
        Err(SessionError::ManuallyInvalidatedRefreshToken)
    );
}

#[test]
fn corrupted_access_token_is_final_despite_a_valid_refresh_token() {
    let config = settings();
    let db = store_with("12345", 3);
    let tokens = generate_tokens_at(&config, "12345", 3, 1_000).unwrap();
    let corrupted = broken(&tokens.access_token);
    assert!(verify_refresh(&config, &tokens.refresh_token, 1_100).is_ok());
    assert_eq!(
        validate_session_at(&config, Some(&corrupted), Some(&tokens.refresh_token), &db, 1_100),
        Err(SessionError::InvalidAccessToken)
    );
    assert_eq!(
        validate_session_at(&config, Some(&corrupted), Some(&tokens.refresh_token), &db, 9_000),
        Err(SessionError::InvalidAccessToken)
    );
    assert_eq!(
        validate_session_at(&config, Some(""), Some(&tokens.refresh_token), &db, 1_100),
        Err(SessionError::InvalidAccessToken)
    );
}

#[test]
fn access_token_of_another_issuer_is_final() {
    let config = settings();
    let foreign =
        AuthConfig::new("secret".to_string(), "someone-else".to_string(), 300, 2_592_000).unwrap();
    let db = store_with("12345", 3);
    let ours = generate_tokens_at(&config, "12345", 3, 1_000).unwrap();
    let theirs = generate_tokens_at(&foreign, "12345", 3, 1_000).unwrap();
    assert_eq!(
        validate_session_at(
            &config,
            Some(&theirs.access_token),
            Some(&ours.refresh_token),
            &db,
            1_100
        ),
        Err(SessionError::InvalidAccessToken)
    );
}

#[test]
fn invalid_refresh_tokens_are_refused() {
    let config = settings();
    let foreign =
        AuthConfig::new("other key".to_string(), "handrolled-auth-api".to_string(), 300, 2_592_000)
            .unwrap();
    let db = store_with("12345", 3);
    let ours = generate_tokens_at(&config, "12345", 3, 1_000).unwrap();
    let theirs = generate_tokens_at(&foreign, "12345", 3, 1_000).unwrap();
    let cases = vec![
        broken(&ours.refresh_token),
        theirs.refresh_token.clone(),
        ours.access_token.clone(),
        String::new(),
        "a.b.c".to_string(),
    ];
    for refresh in cases {
        assert_eq!(
            validate_session_at(&config, None, Some(&refresh), &db, 1_100),
            Err(SessionError::InvalidRefreshToken)
        );
    }
}

#[test]
fn expired_refresh_token_is_invalid() {
    let config = settings();
    let db = store_with("12345", 3);
    let old = generate_tokens_at(&config, "12345", 3, 1_000).unwrap();
    assert!(validate_session_at(&config, None, Some(&old.refresh_token), &db, 2_593_000).is_ok());
    assert_eq!(
        validate_session_at(&config, None, Some(&old.refresh_token), &db, 2_593_001),
        Err(SessionError::InvalidRefreshToken)
    );
}

#[test]
fn refresh_token_of_an_unknown_user_is_invalid() {
    let config = settings();
    let db = store_with("12345", 3);
    let ghost = generate_tokens_at(&config, "ghost", 3, 1_000).unwrap();
    assert_eq!(
        validate_session_at(&config, None, Some(&ghost.refresh_token), &db, 1_100),
        Err(SessionError::InvalidRefreshToken)
    );
}

#[test]
fn rotation_fails_internally_where_new_tokens_cannot_be_minted() {
    let config = settings();
    let db = store_with("12345", 3);
    let start = u64::MAX - 2_592_000;
    let old = generate_tokens_at(&config, "12345", 3, start).unwrap();
    assert_eq!(
        validate_session_at(&config, None, Some(&old.refresh_token), &db, start + 1),
        Err(SessionError::EncodingFailure)
    );
}

#[test]
fn resolving_by_the_clock_accepts_a_fresh_access_token() {
    let config = settings();
    let db = store_with("12345", 3);
    let now = std::time::SystemTime::now()
        .duration_since(std::time::UNIX_EPOCH)
        .unwrap()
        .as_secs();
    let tokens = generate_tokens_at(&config, "12345", 3, now).unwrap();
    let session = validate_session(&config, Some(&tokens.access_token), None, &db).unwrap();
    assert_eq!(session, Session { user_id: "12345".to_string(), new_tokens: None });
}

#[test]
fn resolving_by_the_clock_rotates_an_old_access_token() {
    let config = settings();
    let db = store_with("12345", 3);
    let now = std::time::SystemTime::now()
        .duration_since(std::time::UNIX_EPOCH)
        .unwrap()
        .as_secs();
    let old = generate_tokens_at(&config, "12345", 3, now - 1_000).unwrap();
    let session =
        validate_session(&config, Some(&old.access_token), Some(&old.refresh_token), &db).unwrap();
    assert_eq!(session.user_id, "12345");
    let fresh = session.new_tokens.unwrap();
    let claims = verify_refresh(&config, &fresh.refresh_token, now).unwrap();
    assert_eq!(claims.version, 3);
    assert!(claims.exp >= now + 2_592_000);
    assert_eq!(
        validate_session(&config, Some(&old.access_token), None, &db),
        Err(SessionError::MissingRefreshToken)
    );
}

#[test]
fn expired_access_token_of_another_issuer_never_rotates() {
    let config = settings();
    let foreign =
        AuthConfig::new("secret".to_string(), "someone-else".to_string(), 300, 2_592_000).unwrap();
    let db = store_with("12345", 3);
    let ours = generate_tokens_at(&config, "12345", 3, 1_000).unwrap();
    let theirs = generate_tokens_at(&foreign, "12345", 3, 1_000).unwrap();
    assert_eq!(
        validate_session_at(
            &config,
            Some(&theirs.access_token),
            Some(&ours.refresh_token),
            &db,
            2_000
        ),
        Err(SessionError::InvalidAccessToken)
    );
}
