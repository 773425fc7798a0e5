use voice_gateway::auth::{
    issue_token, issue_token_at, validate_token, validate_token_at, AuthError,
    TOKEN_LIFETIME_SECS,
};

const SECRET: &[u8] = b"test-signing-secret";

#[test]
fn issued_token_validates_immediately() {
    let token = issue_token(SECRET).expect("signing must succeed");
    assert!(validate_token(&token, SECRET).is_ok());
}

#[test]
fn issued_token_validates_until_expiry_instant() {
    let iat: i64 = 1_000_000;
    let token = issue_token_at(SECRET, iat).expect("signing must succeed");
    assert!(validate_token_at(&token, SECRET, iat).is_ok());
    assert!(validate_token_at(&token, SECRET, iat + 1).is_ok());
    assert!(validate_token_at(&token, SECRET, iat + TOKEN_LIFETIME_SECS - 1).is_ok());
    assert_eq!(
        validate_token_at(&token, SECRET, iat + TOKEN_LIFETIME_SECS),
        Err(AuthError::Expired)
    );
    assert_eq!(
        validate_token_at(&token, SECRET, iat + TOKEN_LIFETIME_SECS + 5000),
        Err(AuthError::Expired)
    );
}

#[test]
fn expired_token_is_rejected_as_expired() {
    let now: i64 = 2_000_000;
    let token = issue_token_at(SECRET, now - 2 * TOKEN_LIFETIME_SECS).expect("signing");
    assert_eq!(validate_token_at(&token, SECRET, now), Err(AuthError::Expired));
}

#[test]
fn tampered_signature_is_rejected_as_bad_signature() {
    let iat: i64 = 1_000_000;
    let token = issue_token_at(SECRET, iat).expect("signing");
    let dot = token.rfind('.').expect("a signed token has three parts");
    let (head, sig) = token.split_at(dot + 1);
    // Alter one signature character within the base64url alphabet, away from
    // the low padding bits, so the decoded signature bytes must differ.
    let mut chars: Vec<char> = sig.chars().collect();
    chars[0] = if chars[0] == 'A' { 'B' } else { 'A' };
    let tampered: String = format!("{}{}", head, chars.into_iter().collect::<String>());
    assert_ne!(token, tampered);
    assert_eq!(
        validate_token_at(&tampered, SECRET, iat + 1),
        Err(AuthError::BadSignature)
    );
}

#[test]
fn tampered_payload_is_rejected() {
    let iat: i64 = 1_000_000;
    let token = issue_token_at(SECRET, iat).expect("signing");
    let parts: Vec<&str> = token.split('.').collect();
    assert_eq!(parts.len(), 3);
    let mut payload: Vec<char> = parts[1].chars().collect();
    payload[0] = if payload[0] == 'A' { 'B' } else { 'A' };
    let altered: String = payload.into_iter().collect();
    let tampered = format!("{}.{}.{}", parts[0], altered, parts[2]);
    let r = validate_token_at(&tampered, SECRET, iat + 1);
    assert!(r.is_err());
    assert_ne!(r, Err(AuthError::Expired));
}

#[test]
fn wrong_secret_is_rejected_as_bad_signature() {
    let iat: i64 = 1_000_000;
    let token = issue_token_at(SECRET, iat).expect("signing");
    assert_eq!(
        validate_token_at(&token, b"some-other-secret", iat + 1),
        Err(AuthError::BadSignature)
    );
}

#[test]
fn garbage_is_rejected_as_malformed() {
    assert_eq!(
        validate_token_at("not-a-token", SECRET, 0),
        Err(AuthError::Malformed)
    );
    assert_eq!(
        validate_token_at("", SECRET, 0),
        Err(AuthError::Malformed)
    );
    assert_eq!(
        validate_token_at("a.b.c", SECRET, 0),
        Err(AuthError::Malformed)
    );
}

#[test]
fn issuance_always_succeeds() {
    assert!(issue_token(SECRET).is_ok());
    assert!(issue_token(b"").is_ok());
    assert!(issue_token_at(SECRET, i64::MAX - TOKEN_LIFETIME_SECS).is_ok());
}

#[test]
fn extra_claims_are_not_checked() {
    let iat: i64 = 1_000_000;
    let mut claims = serde_json::Map::new();
    claims.insert("iat".to_string(), serde_json::Value::from(iat));
    claims.insert("exp".to_string(), serde_json::Value::from(iat + 3600));
    claims.insert("sub".to_string(), serde_json::Value::from("someone"));
    claims.insert("aud".to_string(), serde_json::Value::from("somewhere"));
    claims.insert("note".to_string(), serde_json::Value::from("free text"));
    let token = jsonwebtoken::encode(
        &jsonwebtoken::Header::new(jsonwebtoken::Algorithm::HS256),
        &claims,
        &jsonwebtoken::EncodingKey::from_secret(SECRET),
    )
    .expect("signing");
    assert!(validate_token_at(&token, SECRET, iat + 1).is_ok());
    assert_eq!(
        validate_token_at(&token, SECRET, iat + 3600),
        Err(AuthError::Expired)
    );
}
