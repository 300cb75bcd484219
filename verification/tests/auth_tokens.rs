use colang::auth::{
    bearer_token, decode_access_token, hash_desktop_code, hash_password, random_code, user_of_claims, verify_password,
    AccessClaims, AuthError,
};

#[test]
fn issued_claims_carry_user_and_times() {
    let c = AccessClaims::issued(42, 1_700_000_000, 3600);
    assert_eq!(c.sub, "42");
    assert_eq!(c.iat, 1_700_000_000);
    assert_eq!(c.exp, 1_700_003_600);
    let c = AccessClaims::with_subject("550e8400-e29b-41d4-a716-446655440000".to_string(), 100, 50);
    assert_eq!((c.sub.as_str(), c.iat, c.exp), ("550e8400-e29b-41d4-a716-446655440000", 100, 150));
    let c = AccessClaims::issued(-5, 10, 0);
    assert_eq!(c.sub, "-5");
    assert_eq!(c.exp, 10);
}

#[test]
fn issued_token_names_its_user_again() {
    for id in [0i64, 1, 987654321, i64::MAX, -3] {
        let c = AccessClaims::issued(id, 0, 60);
        assert_eq!(user_of_claims(Some(&c)), Ok(id));
    }
}

#[test]
fn bearer_header_rules() {
    assert_eq!(bearer_token(None), Err(AuthError::MissingAuthorization));
    assert_eq!(bearer_token(Some("Basic abc")), Err(AuthError::InvalidAuthorization));
    assert_eq!(bearer_token(Some("bearer abc")), Err(AuthError::InvalidAuthorization));
    assert_eq!(bearer_token(Some("Bearer abc.def")), Ok("abc.def".to_string()));
    assert_eq!(bearer_token(Some("Bearer ")), Ok(String::new()));
}

#[test]
fn claims_with_a_non_numeric_subject_are_refused() {
    let c = AccessClaims { sub: "abc".to_string(), exp: 0, iat: 0 };
    assert_eq!(user_of_claims(Some(&c)), Err(AuthError::InvalidToken));
    assert_eq!(user_of_claims(None), Err(AuthError::InvalidToken));
}

#[test]
fn auth_error_briefs() {
    assert_eq!(AuthError::MissingAuthorization.brief(), "missing authorization");
    assert_eq!(AuthError::InvalidAuthorization.brief(), "invalid authorization");
    assert_eq!(AuthError::InvalidToken.brief(), "invalid token");
    assert_eq!(AuthError::InvalidPasswordHash.brief(), "invalid password hash");
    assert_eq!(AuthError::WrongCredentials.brief(), "wrong username or password");
}

#[test]
fn desktop_code_hash_is_hex_sha256() {
    assert_eq!(
        hash_desktop_code("abc"),
        "ba7816bf8f01cfea414140de5dae2223b00361a396177a9cb410ff61f20015ad"
    );
    assert_eq!(
        hash_desktop_code(""),
        "e3b0c44298fc1c149afbf4c8996fb92427ae41e4649b934ca495991b7852b855"
    );
}

#[test]
fn random_codes_are_43_url_safe_characters() {
    let a = random_code();
    let b = random_code();
    assert_eq!(a.len(), 43);
    assert!(a.chars().all(|c| c.is_ascii_alphanumeric() || c == '-' || c == '_'));
    assert_ne!(a, b);
}

#[test]
fn password_checks_against_its_own_hash_only() {
    let h = hash_password("correct horse").unwrap();
    assert!(h.starts_with("$argon2"));
    assert_eq!(verify_password("correct horse", &h), Ok(()));
    assert_eq!(verify_password("wrong horse", &h), Err(AuthError::WrongCredentials));
    assert_eq!(verify_password("correct horse", "not a hash"), Err(AuthError::InvalidPasswordHash));
}

fn signed(sub: &str, iat: u64, exp: u64, secret: &str) -> String {
    let mut claims = serde_json::Map::new();
    claims.insert("sub".to_string(), serde_json::Value::String(sub.to_string()));
    claims.insert("iat".to_string(), serde_json::Value::from(iat));
    claims.insert("exp".to_string(), serde_json::Value::from(exp));
    jsonwebtoken::encode(
        &jsonwebtoken::Header::default(),
        &serde_json::Value::Object(claims),
        &jsonwebtoken::EncodingKey::from_secret(secret.as_bytes()),
    )
    .unwrap()
}

#[test]
fn decoded_token_gives_back_its_claims() {
    let now = chrono::Utc::now().timestamp() as u64;
    let token = signed("42", now, now + 3600, "secret");
    let c = decode_access_token(&token, "secret").unwrap();
    assert_eq!(c.sub, "42");
    assert_eq!(c.iat, now as usize);
    assert_eq!(c.exp, (now + 3600) as usize);
    assert_eq!(user_of_claims(Some(&c)), Ok(42));
}

#[test]
fn token_with_another_secret_or_expired_is_invalid() {
    let now = chrono::Utc::now().timestamp() as u64;
    let token = signed("42", now, now + 3600, "secret");
    assert_eq!(decode_access_token(&token, "other").unwrap_err(), "invalid token");
    let old = signed("42", now - 7200, now - 3600, "secret");
    assert_eq!(decode_access_token(&old, "secret").unwrap_err(), "invalid token");
    assert_eq!(decode_access_token("not.a.token", "secret").unwrap_err(), "invalid token");
}
