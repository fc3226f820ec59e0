use alloy_control::auth::{
    api_key_from, auth_middleware, create_api_key, delete_api_key, generate_api_key,
    get_current_user, hash_api_key, list_api_keys, login, register, verify_api_key, verify_jwt,
    worker_auth_middleware, ApiKeyRecord, AuthType, AuthUser, CreateApiKeyRequest, Credential,
    TokenReply,
};
use alloy_control::crypto::{hash_outcome, hash_password, verify_password, CryptoError};

#[test]
fn test_password_hashing() {
    let password = "my_secure_password";
    let hash = hash_password(password).unwrap();

    // Hash should be in PHC format
    assert!(hash.starts_with("$argon2"));

    // Verification should work
    assert!(verify_password(password, &hash));

    // Wrong password should fail
    assert!(!verify_password("wrong_password", &hash));
}

#[test]
fn test_different_hashes_each_time() {
    let password = "test_password";
    let hash1 = hash_password(password).unwrap();
    let hash2 = hash_password(password).unwrap();

    // Each hash should be different (due to random salt)
    assert_ne!(hash1, hash2);

    // But both should verify
    assert!(verify_password(password, &hash1));
    assert!(verify_password(password, &hash2));
}

#[test]
fn a_text_that_is_no_hash_matches_nothing() {
    assert!(!verify_password("x", ""));
    assert!(!verify_password("x", "x"));
    assert!(!verify_password("", "$argon2id$"));
    assert!(!verify_password("x", "not a hash at all"));
    let hash = hash_password("").unwrap();
    assert!(hash.starts_with("$argon2id$"));
    assert!(verify_password("", &hash));
    assert!(!verify_password(" ", &hash));
}

#[test]
fn api_keys_are_minted_hashed_and_found() {
    let (key, hash) = generate_api_key().unwrap();
    assert!(key.starts_with("jmr_"));
    assert_eq!(key.len(), 36);
    assert!(key[4..].chars().all(|c| c.is_ascii_hexdigit() && !c.is_ascii_uppercase()));
    assert_ne!(key, hash);
    assert!(verify_password(&key, &hash));
    let (other, _) = generate_api_key().unwrap();
    assert_ne!(key, other);
    assert_eq!(api_key_from(0xabc), "jmr_00000000000000000000000000000abc");
    assert_eq!(
        api_key_from(0x550e8400_e29b_41d4_a716_446655440000),
        "jmr_550e8400e29b41d4a716446655440000"
    );

    let record = |id: u128, user: u128, raw: &str| ApiKeyRecord {
        id,
        user_id: user,
        name: format!("key{}", id),
        key_hash: hash_api_key(raw).unwrap(),
        created_at: 10,
        last_used_at: None,
    };
    let mut records = vec![record(1, 100, "jmr_a"), record(2, 200, &key), record(3, 300, &key)];
    let user = verify_api_key(&mut records, &key, 555).unwrap();
    assert_eq!(user.user_id, 200);
    assert_eq!(user.email, None);
    assert_eq!(user.auth_type, AuthType::ApiKey);
    let used: Vec<Option<i64>> = records.iter().map(|r| r.last_used_at).collect();
    assert_eq!(used, vec![None, Some(555), None]);
    assert_eq!((records[1].id, records[1].name.as_str(), records[1].created_at), (2, "key2", 10));
    let err = verify_api_key(&mut records, "jmr_unknown", 600).unwrap_err();
    assert_eq!((err.status, err.error.code.as_str()), (401, "invalid_api_key"));
    assert_eq!(records[1].last_used_at, Some(555));
    assert_eq!(verify_api_key(&mut vec![], &key, 1).unwrap_err().status, 401);

    let listed = list_api_keys(&records, 200);
    assert_eq!(listed.len(), 1);
    assert_eq!((listed[0].id, listed[0].name.as_str(), listed[0].created_at), (2, "key2", 10));
    assert!(list_api_keys(&records, 999).is_empty());
}

#[test]
fn the_authorization_header_names_the_scheme() {
    match auth_middleware(Some("Bearer abc.def")).unwrap() {
        Credential::Bearer(t) => assert_eq!(t, "abc.def"),
        other => panic!("unexpected {:?}", other),
    }
    match auth_middleware(Some("ApiKey jmr_123")).unwrap() {
        Credential::ApiKey(k) => assert_eq!(k, "jmr_123"),
        other => panic!("unexpected {:?}", other),
    }
    match auth_middleware(Some("Bearer ")).unwrap() {
        Credential::Bearer(t) => assert_eq!(t, ""),
        other => panic!("unexpected {:?}", other),
    }
    for bad in [None, Some(""), Some("Bearer"), Some("bearer x"), Some("Basic abc"), Some(" ApiKey k")] {
        let err = auth_middleware(bad).unwrap_err();
        assert_eq!(err.status, 401);
        assert_eq!(err.error.code, "unauthorized");
        assert_eq!(
            err.error.error,
            "Missing or invalid Authorization header. Use 'Bearer <jwt>' or 'ApiKey <key>'"
        );
    }
}

#[test]
fn token_replies_map_to_the_error_taxonomy() {
    let e = verify_jwt(TokenReply::Unreachable).unwrap_err();
    assert_eq!((e.status, e.error.code.as_str()), (500, "auth_error"));
    let e = verify_jwt(TokenReply::Rejected).unwrap_err();
    assert_eq!((e.status, e.error.code.as_str(), e.error.error.as_str()), (401, "invalid_token", "Invalid or expired token"));
    let e = verify_jwt(TokenReply::Unreadable).unwrap_err();
    assert_eq!((e.status, e.error.code.as_str()), (500, "auth_error"));
    let user = verify_jwt(TokenReply::User { id: 5, email: Some("a@b.c".into()) }).unwrap();
    assert_eq!((user.user_id, user.email.as_deref(), user.auth_type), (5, Some("a@b.c"), AuthType::Jwt));
    let me = get_current_user(&user);
    assert_eq!((me.user_id, me.email.as_deref(), me.auth_type.as_str()), (5, Some("a@b.c"), "Jwt"));
    let key_user = AuthUser { user_id: 6, email: None, auth_type: AuthType::ApiKey };
    assert_eq!(get_current_user(&key_user).auth_type, "ApiKey");
}

#[test]
fn workers_present_the_configured_secret() {
    assert!(worker_auth_middleware(&None, None).is_ok());
    assert!(worker_auth_middleware(&None, Some("anything")).is_ok());
    let secret = Some("s3cr3t".to_string());
    assert!(worker_auth_middleware(&secret, Some("s3cr3t")).is_ok());
    for bad in [None, Some(""), Some("s3cr3"), Some("s3cr3t "), Some("S3CR3T")] {
        let e = worker_auth_middleware(&secret, bad).unwrap_err();
        assert_eq!((e.status, e.error.code.as_str()), (401, "unauthorized"));
    }
}

#[test]
fn key_and_session_outcomes() {
    let (record, resp) =
        create_api_key(9, &CreateApiKeyRequest { name: "ci".into() }, 4, "jmr_x".into(), "$hash".into(), 77);
    assert_eq!((record.id, record.user_id, record.name.as_str()), (4, 9, "ci"));
    assert_eq!((record.key_hash.as_str(), record.created_at, record.last_used_at), ("$hash", 77, None));
    assert_eq!((resp.id, resp.name.as_str(), resp.key.as_str()), (4, "ci", "jmr_x"));

    let plain = |id: u128, user: u128| ApiKeyRecord {
        id,
        user_id: user,
        name: String::new(),
        key_hash: String::new(),
        created_at: 0,
        last_used_at: None,
    };
    let mut records = vec![plain(1, 9), plain(2, 9), plain(1, 8), plain(3, 9)];
    assert!(delete_api_key(&mut records, 9, 1).is_ok());
    let left: Vec<(u128, u128)> = records.iter().map(|r| (r.id, r.user_id)).collect();
    assert_eq!(left, vec![(2, 9), (1, 8), (3, 9)]);
    let e = delete_api_key(&mut records, 9, 1).unwrap_err();
    assert_eq!((e.status, e.error.code.as_str(), e.error.error.as_str()), (404, "not_found", "API key not found"));
    assert_eq!(delete_api_key(&mut records, 7, 2).unwrap_err().status, 404);
    assert_eq!(records.len(), 3);
    assert!(delete_api_key(&mut records, 9, 3).is_ok());
    assert!(delete_api_key(&mut records, 9, 2).is_ok());
    assert!(delete_api_key(&mut records, 8, 1).is_ok());
    assert!(records.is_empty());
    assert_eq!(delete_api_key(&mut records, 8, 1).unwrap_err().status, 404);

    let session = login(Some(3), "tok".into()).unwrap();
    assert_eq!((session.user_id, session.token.as_str()), (3, "tok"));
    let e = login(None, "tok".into()).unwrap_err();
    assert_eq!((e.status, e.error.code.as_str()), (401, "invalid_credentials"));

    let session = register(Ok(8), "tok".into()).unwrap();
    assert_eq!((session.user_id, session.token.as_str()), (8, "tok"));
    let e = register(Err("UNIQUE constraint failed: users.email".into()), "t".into()).unwrap_err();
    assert_eq!((e.status, e.error.code.as_str()), (409, "email_exists"));
    let e = register(Err("connection reset".into()), "t".into()).unwrap_err();
    assert_eq!((e.status, e.error.code.as_str(), e.error.error.as_str()), (500, "auth_error", "Registration failed"));
}

#[test]
fn every_error_of_the_hashing_library_is_a_hashing_failure() {
    assert_eq!(hash_outcome(Ok("$argon2id$v=19$x".to_string())), Ok("$argon2id$v=19$x".to_string()));
    assert_eq!(hash_outcome(Ok(String::new())), Ok(String::new()));
    for error in [
        argon2::password_hash::Error::Password,
        argon2::password_hash::Error::Algorithm,
        argon2::password_hash::Error::Crypto,
        argon2::password_hash::Error::OutputSize {
            provided: std::cmp::Ordering::Less,
            expected: 32,
        },
    ] {
        assert_eq!(hash_outcome(Err(error)), Err(CryptoError::HashingFailed));
    }
}
