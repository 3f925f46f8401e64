use jsonwebtoken::errors::ErrorKind;
use jsonwebtoken::{decode, encode, DecodingKey, EncodingKey, Header, Validation};
use serde_json::Value;
use sherpa_server::auth::cookies::extract_tokens_from_cookie;
use sherpa_server::auth::session::{
    bearer_token, classify_session_failure, extract_and_validate_token, validate_cookie_session,
    Claims, CookieSessionError, JwtErrorKind, SessionFailureReason, TokenOutcome,
};

const SECRET: &[u8] = b"test_secret_32_bytes_long_enough";

fn now() -> i64 {
    jiff::Timestamp::now().as_second()
}

fn token(secret: &[u8], user: &str, admin: bool, exp: i64) -> String {
    let mut m = serde_json::Map::new();
    m.insert("sub".to_string(), Value::from(user));
    m.insert("exp".to_string(), Value::from(exp));
    m.insert("iat".to_string(), Value::from(exp - 3600));
    m.insert("is_admin".to_string(), Value::from(admin));
    encode(&Header::default(), &Value::Object(m), &EncodingKey::from_secret(secret)).unwrap()
}

fn claims_of(v: &Value) -> Claims {
    Claims {
        sub: v["sub"].as_str().unwrap().to_string(),
        exp: v["exp"].as_i64().unwrap(),
        iat: v["iat"].as_i64().unwrap(),
        is_admin: v["is_admin"].as_bool().unwrap(),
    }
}

fn kind(k: &ErrorKind) -> JwtErrorKind {
    match k {
        ErrorKind::ExpiredSignature => JwtErrorKind::ExpiredSignature,
        ErrorKind::InvalidSignature => JwtErrorKind::InvalidSignature,
        ErrorKind::InvalidToken => JwtErrorKind::InvalidToken,
        ErrorKind::Base64(_) => JwtErrorKind::Base64,
        ErrorKind::Json(_) => JwtErrorKind::Json,
        ErrorKind::Utf8(_) => JwtErrorKind::Utf8,
        ErrorKind::InvalidAlgorithm => JwtErrorKind::InvalidAlgorithm,
        _ => JwtErrorKind::Other,
    }
}

/// Validates a real token with the JWT library, as the daemon does.
fn validate(token: &str) -> TokenOutcome {
    let key = DecodingKey::from_secret(SECRET);
    match decode::<Value>(token, &key, &Validation::default()) {
        Ok(data) => TokenOutcome::Valid(claims_of(&data.claims)),
        Err(e) => {
            let error = kind(e.kind());
            let signed_claims = if error == JwtErrorKind::ExpiredSignature {
                let mut lenient = Validation::default();
                lenient.validate_exp = false;
                decode::<Value>(token, &key, &lenient).ok().map(|d| claims_of(&d.claims))
            } else {
                None
            };
            TokenOutcome::Invalid { error: Some(error), signed_claims }
        }
    }
}

fn reason(token: &str) -> SessionFailureReason {
    match validate(token) {
        TokenOutcome::Invalid { error, .. } => classify_session_failure(error),
        TokenOutcome::Valid(_) => panic!("token is valid"),
    }
}

#[test]
fn real_tokens_are_classified() {
    assert_eq!(reason(&token(SECRET, "u", false, now() - 100)), SessionFailureReason::Expired);
    assert_eq!(
        reason(&token(b"different_secret_32bytes_exactly", "u", false, now() + 3600)),
        SessionFailureReason::InvalidSignature
    );
    assert_eq!(reason("not.a.valid.jwt"), SessionFailureReason::Malformed);
    assert!(matches!(validate(&token(SECRET, "u", false, now() + 3600)), TokenOutcome::Valid(_)));
}

#[test]
fn real_expired_cookie_before_valid_replacement_recovers() {
    let header = format!(
        "sherpa_auth={}; sherpa_auth={}",
        token(SECRET, "expired_user", false, now() - 100),
        token(SECRET, "replacement_user", false, now() + 3600)
    );
    let outcomes: Vec<TokenOutcome> =
        extract_tokens_from_cookie(&header).iter().map(|t| validate(t)).collect();
    let session = validate_cookie_session(Some(&outcomes)).ok().unwrap();
    assert_eq!(session.claims.sub, "replacement_user");
    assert_eq!(session.selected_index, 1);
    assert_eq!(session.rejected_candidates[0].reason, SessionFailureReason::Expired);
    assert_eq!(
        session.rejected_candidates[0].signed_claims.as_ref().unwrap().sub,
        "expired_user"
    );
}

#[test]
fn real_bearer_precedence_and_rejections() {
    let bearer = format!("Bearer {}", token(SECRET, "bearer_user", true, now() + 3600));
    let cookie = vec![validate(&token(SECRET, "cookie_user", false, now() + 3600))];
    let b = bearer_token(&bearer).map(|t| validate(&t));
    assert_eq!(
        extract_and_validate_token(b.as_ref(), Some(&cookie)),
        Ok(("bearer_user".to_string(), true))
    );
    let wrong = format!("Bearer {}", token(b"different_secret_32bytes_exactly", "x", false, now() + 3600));
    let w = bearer_token(&wrong).map(|t| validate(&t));
    assert_eq!(extract_and_validate_token(w.as_ref(), None), Err("Missing or invalid authentication"));
    let raw = vec![validate("SUPER_SECRET_RAW_TOKEN")];
    assert!(matches!(
        validate_cookie_session(Some(&raw)),
        Err(CookieSessionError::Invalid { .. })
    ));
}
