use session_auth::db::{
    create_user, lanes_within_limit, setup_user, Database, User, UserDatabase,
};

fn user(id: &str, username: &str, session_version: u64) -> User {
    User {
        id: id.to_string(),
        username: username.to_string(),
        password_hash: "not a hash".to_string(),
        session_version,
    }
}

#[test]
fn empty_store_finds_nobody() {
    let db = Database::new();
    assert_eq!(db.get_user_by_id("12345"), None);
    assert_eq!(db.get_user_by_username("JJ"), None);
    assert_eq!(db.get_user_by_id(""), None);
}

#[test]
fn added_user_is_found_by_id_and_by_username() {
    let mut db = Database::new();
    db.add_user(user("12345", "JJ", 1));
    db.add_user(user("67890", "KK", 4));
    assert_eq!(db.get_user_by_id("12345"), Some(user("12345", "JJ", 1)));
    assert_eq!(db.get_user_by_username("JJ"), Some(user("12345", "JJ", 1)));
    assert_eq!(db.get_user_by_id("67890"), Some(user("67890", "KK", 4)));
    assert_eq!(db.get_user_by_username("KK"), Some(user("67890", "KK", 4)));
    assert_eq!(db.get_user_by_id("JJ"), None);
    assert_eq!(db.get_user_by_username("12345"), None);
    assert_eq!(db.get_user_by_id("1234"), None);
    assert_eq!(db.get_user_by_id("123456"), None);
}

#[test]
fn lookups_tell_casing_apart() {
    let mut db = Database::new();
    db.add_user(user("abc", "JJ", 1));
    assert_eq!(db.get_user_by_username("jj"), None);
    assert_eq!(db.get_user_by_id("ABC"), None);
}

#[test]
fn first_record_wins_among_equal_ids() {
    let mut db = Database::new();
    db.add_user(user("1", "first", 1));
    db.add_user(user("1", "second", 9));
    assert_eq!(db.get_user_by_id("1").unwrap().username, "first");
    db.invalidate_user_sessions("1");
    assert_eq!(db.get_user_by_username("first").unwrap().session_version, 2);
    assert_eq!(db.get_user_by_username("second").unwrap().session_version, 9);
}

#[test]
fn invalidating_raises_the_version_by_one() {
    let mut db = Database::new();
    db.add_user(user("12345", "JJ", 3));
    db.add_user(user("67890", "KK", 3));
    db.invalidate_user_sessions("12345");
    assert_eq!(db.get_user_by_id("12345"), Some(user("12345", "JJ", 4)));
    assert_eq!(db.get_user_by_id("67890"), Some(user("67890", "KK", 3)));
    db.invalidate_user_sessions("12345");
    assert_eq!(db.get_user_by_id("12345").unwrap().session_version, 5);
}

#[test]
fn invalidating_an_unknown_id_changes_nothing() {
    let mut db = Database::new();
    db.add_user(user("12345", "JJ", 3));
    db.invalidate_user_sessions("nobody");
    db.invalidate_user_sessions("JJ");
    assert_eq!(db.get_user_by_id("12345"), Some(user("12345", "JJ", 3)));
    let mut empty = Database::new();
    empty.invalidate_user_sessions("12345");
    assert_eq!(empty.get_user_by_id("12345"), None);
}

#[test]
fn version_never_wraps() {
    let mut db = Database::new();
    db.add_user(user("12345", "JJ", u64::MAX - 1));
    db.invalidate_user_sessions("12345");
    assert_eq!(db.get_user_by_id("12345").unwrap().session_version, u64::MAX);
    db.invalidate_user_sessions("12345");
    assert_eq!(db.get_user_by_id("12345").unwrap().session_version, u64::MAX);
}

#[test]
fn clone_keeps_every_field() {
    let stored = user("12345", "JJ", 3);
    assert_eq!(stored.clone(), stored);
}

#[test]
fn text_that_is_no_hash_accepts_no_password() {
    let stored = user("12345", "JJ", 1);
    assert!(!stored.check_password("not a hash"));
    assert!(!stored.check_password(""));
}

#[test]
fn well_formed_hash_rejects_other_passwords() {
    let stored = User {
        id: "1".to_string(),
        username: "u".to_string(),
        password_hash:
            "$argon2id$v=19$m=16,t=2,p=1$c29tZXNhbHQ$VGehHdLF3pYKP+i4p2v6HA8iZCLf9k1S8G/9Icu4eKw"
                .to_string(),
        session_version: 1,
    };
    assert!(!stored.check_password("wrong"));
    assert!(!stored.check_password(""));
}

#[test]
fn setup_creates_a_user_at_version_one_with_a_hash_of_the_password() {
    let mut db = Database::new();
    assert!(setup_user(&mut db, "12345", "JJ", "passw0rd"));
    let stored = db.get_user_by_username("JJ").unwrap();
    assert_eq!(stored.id, "12345");
    assert_eq!(stored.username, "JJ");
    assert_eq!(stored.session_version, 1);
    assert_ne!(stored.password_hash, "passw0rd");
    assert!(stored.password_hash.starts_with("$argon2id$"));
    assert!(stored.check_password("passw0rd"));
    assert!(!stored.check_password("passw0rD"));
    assert!(!stored.check_password(""));
    assert!(!stored.check_password(&stored.password_hash));
}

#[test]
fn two_hashes_of_one_password_differ_and_both_accept_it() {
    let mut db = Database::new();
    assert!(setup_user(&mut db, "1", "one", "same password"));
    assert!(setup_user(&mut db, "2", "two", "same password"));
    let one = db.get_user_by_id("1").unwrap();
    let two = db.get_user_by_id("2").unwrap();
    assert_ne!(one.password_hash, two.password_hash);
    assert!(one.check_password("same password"));
    assert!(two.check_password("same password"));
}

#[test]
fn user_is_created_from_a_hash_at_version_one() {
    let mut db = Database::new();
    db.add_user(user("1", "first", 7));
    assert!(create_user(&mut db, "12345", "JJ", Some("some hash".to_string())));
    assert_eq!(
        db.get_user_by_id("12345"),
        Some(User {
            id: "12345".to_string(),
            username: "JJ".to_string(),
            password_hash: "some hash".to_string(),
            session_version: 1,
        })
    );
    assert_eq!(db.get_user_by_username("JJ").unwrap().id, "12345");
    assert_eq!(db.get_user_by_id("1"), Some(user("1", "first", 7)));
}

#[test]
fn no_user_is_created_without_a_hash() {
    let mut db = Database::new();
    db.add_user(user("1", "first", 7));
    assert!(!create_user(&mut db, "12345", "JJ", None));
    assert_eq!(db.get_user_by_id("12345"), None);
    assert_eq!(db.get_user_by_username("JJ"), None);
    assert_eq!(db.get_user_by_id("1"), Some(user("1", "first", 7)));
}

fn with_hash(password_hash: &str) -> User {
    User {
        id: "1".to_string(),
        username: "u".to_string(),
        password_hash: password_hash.to_string(),
        session_version: 1,
    }
}

#[test]
fn hash_with_too_many_lanes_accepts_nothing() {
    let hashes = [
        "$argon2id$v=19$m=8,t=1,p=536870912$c29tZXNhbHQx$aGFzaGhhc2hoYXNoaGFzaA",
        "$argon2id$v=19$m=8,t=1,p=4294967295$c29tZXNhbHQx$aGFzaGhhc2hoYXNoaGFzaA",
        "$argon2id$v=19$m=8,t=1,p=16777216$c29tZXNhbHQx$aGFzaGhhc2hoYXNoaGFzaA",
        "$argon2id$v=19$m=8,t=1,p=1,p=536870912$c29tZXNhbHQx$aGFzaGhhc2hoYXNoaGFzaA",
        "$argon2id$v=19$p=1073741824,m=4294967295,t=1$c29tZXNhbHQx$aGFzaGhhc2hoYXNoaGFzaA",
    ];
    for hash in hashes {
        assert!(!lanes_within_limit(hash));
        assert!(!with_hash(hash).check_password("password"));
        assert!(!with_hash(hash).check_password(""));
    }
}

#[test]
fn lanes_are_read_from_the_last_parameter_of_that_name() {
    assert!(lanes_within_limit("$argon2id$v=19$m=8,t=1,p=16777215$c29tZXNhbHQx$aGFzaA"));
    assert!(lanes_within_limit("$argon2id$v=19$m=8,t=1,p=536870912,p=1$c29tZXNhbHQx$aGFzaA"));
    assert!(lanes_within_limit("$argon2id$v=19$m=8,t=1$c29tZXNhbHQx$aGFzaA"));
    assert!(lanes_within_limit("$argon2id$v=19$m=8,t=1,p=99999999999$c29tZXNhbHQx$aGFzaA"));
    assert!(lanes_within_limit("$argon2id$v=19$m=8,t=1,p=x$c29tZXNhbHQx$aGFzaA"));
    assert!(lanes_within_limit("$argon2id$v=19$m=8,t=1,P=536870912$c29tZXNhbHQx$aGFzaA"));
    assert!(lanes_within_limit("not a hash"));
    assert!(lanes_within_limit(""));
}

#[test]
fn odd_hashes_within_the_limit_are_refused_by_argon2_itself() {
    let hashes = [
        "$argon2id$v=19$m=8,t=1,p=16777215$c29tZXNhbHQx$aGFzaGhhc2hoYXNoaGFzaA",
        "$argon2id$v=19$m=8,t=1,p=536870912,p=1$c29tZXNhbHQx$aGFzaGhhc2hoYXNoaGFzaA",
        "$argon2id$v=19$m=8,t=1,p=99999999999$c29tZXNhbHQx$aGFzaGhhc2hoYXNoaGFzaA",
        "$argon2id$v=19$m=8,t=1,p=x$c29tZXNhbHQx$aGFzaGhhc2hoYXNoaGFzaA",
        "$argon2id$v=19$m=7,t=1,p=1$c29tZXNhbHQx$aGFzaGhhc2hoYXNoaGFzaA",
        "$argon2id$v=19$m=8,t=0,p=1$c29tZXNhbHQx$aGFzaGhhc2hoYXNoaGFzaA",
        "$argon2id$v=19$m=8,t=1,p=0$c29tZXNhbHQx$aGFzaGhhc2hoYXNoaGFzaA",
        "$argon2id$v=19$m=8,t=1,p=1,x=1$c29tZXNhbHQx$aGFzaGhhc2hoYXNoaGFzaA",
        "$argon2id$v=19$m=8,t=1,p=1$c29tZXNhbHQx",
        "$argon2id$v=19$m=8,t=1,p=1",
        "$argon2id",
        "$unknown$v=19$m=8,t=1,p=1$c29tZXNhbHQx$aGFzaGhhc2hoYXNoaGFzaA",
    ];
    for hash in hashes {
        assert!(!with_hash(hash).check_password("password"));
    }
}

#[test]
fn cheap_hash_within_the_limit_is_checked_by_argon2() {
    let stored = with_hash("$argon2id$v=19$m=8,t=1,p=1$c29tZXNhbHQx$aGFzaGhhc2hoYXNoaGFzaA");
    assert!(lanes_within_limit(&stored.password_hash));
    assert!(!stored.check_password("password"));
}

#[test]
fn fresh_hash_is_within_the_limit() {
    let mut db = Database::new();
    assert!(setup_user(&mut db, "12345", "JJ", "passw0rd"));
    let stored = db.get_user_by_id("12345").unwrap();
    assert!(lanes_within_limit(&stored.password_hash));
    assert!(stored.password_hash.contains("p=1$"));
}
