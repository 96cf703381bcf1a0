use kbr_api_rust::auth::jwt::{
    claims_json, claims_from, create_expired_token, create_expired_token_at, decode_token, encode_token,
    encode_token_at, session_claims_from, Claims, ClaimsRead,
};
use kbr_api_rust::error::AppError;

const SECRET: &str = "test-secret-key-for-jwt-signing";

#[test]
fn encode_token_returns_valid_jwt() {
    let token = encode_token(42, SECRET, 3).expect("should encode");
    // JWT has 3 parts separated by dots
    assert_eq!(token.split('.').count(), 3);
}

#[test]
fn encode_decode_roundtrip() {
    let token = encode_token(42, SECRET, 3).expect("should encode");
    let claims = decode_token(&token, SECRET).expect("should decode");
    assert_eq!(claims.user_id, 42);
}

#[test]
fn decode_preserves_user_id() {
    let token = encode_token(12345, SECRET, 7).expect("should encode");
    let claims = decode_token(&token, SECRET).expect("should decode");
    assert_eq!(claims.user_id, 12345);
}

#[test]
fn decode_expired_token_fails() {
    let token = create_expired_token(42, SECRET);
    let result = decode_token(&token, SECRET);
    assert!(result.is_err());
    let err = result.unwrap_err();
    assert!(matches!(err, AppError::Jwt(_)));
}

#[test]
fn decode_with_wrong_secret_fails() {
    let token = encode_token(42, SECRET, 3).expect("should encode");
    let result = decode_token(&token, "wrong-secret");
    assert!(result.is_err());
}

#[test]
fn decode_tampered_token_fails() {
    let token = encode_token(42, SECRET, 3).expect("should encode");
    let parts: Vec<&str> = token.split('.').collect();
    // Tamper with the payload by flipping a bit
    let tampered: String = token
        .chars()
        .enumerate()
        .map(|(i, c)| {
            if i > 0 && i < parts[0].len() + parts[1].len() + 1 {
                (c as u8 ^ 0x01) as char
            } else {
                c
            }
        })
        .collect();

    let result = decode_token(&tampered, SECRET);
    assert!(result.is_err());
}

#[test]
fn decode_empty_string_fails() {
    let result = decode_token("", SECRET);
    assert!(result.is_err());
}

#[test]
fn decode_random_string_fails() {
    let result = decode_token("not.a.jwt.token", SECRET);
    assert!(result.is_err());
}

#[test]
fn different_expiry_days_works() {
    let token_1day = encode_token(1, SECRET, 1).expect("should encode");
    let claims_1day = decode_token(&token_1day, SECRET).expect("should decode");

    let token_30days = encode_token(1, SECRET, 30).expect("should encode");
    let claims_30days = decode_token(&token_30days, SECRET).expect("should decode");

    // 30-day token should expire later than 1-day token
    assert!(claims_30days.exp > claims_1day.exp);
}

#[test]
fn token_at_fixed_time_carries_expiry() {
    let now = chrono::Utc::now().timestamp();
    let token = encode_token_at(7, SECRET, 2, now).expect("should encode");
    let claims = decode_token(&token, SECRET).expect("should decode");
    assert_eq!(claims.user_id, 7);
    assert_eq!(claims.exp, (now + 2 * 86400) as u64);
}

#[test]
fn token_payload_lists_user_id_then_exp() {
    let token = encode_token_at(42, SECRET, 0, 1_700_000_000).expect("should encode");
    let payload = token.split('.').nth(1).unwrap();
    // base64url of {"user_id":42,"exp":1700000000}
    assert_eq!(payload, "eyJ1c2VyX2lkIjo0MiwiZXhwIjoxNzAwMDAwMDAwfQ");
}

#[test]
fn same_claims_same_token() {
    let a = encode_token_at(5, SECRET, 1, 1_700_000_000).unwrap();
    let b = encode_token_at(5, SECRET, 1, 1_700_000_000).unwrap();
    assert_eq!(a, b);
    let c = encode_token_at(5, "other", 1, 1_700_000_000).unwrap();
    assert_ne!(a, c);
}

#[test]
fn expired_token_at_is_ten_minutes_old() {
    let a = create_expired_token_at(9, SECRET, 1_700_000_600);
    let b = encode_token_at(9, SECRET, 0, 1_700_000_000).unwrap();
    assert_eq!(a, b);
}

fn read(user_id: Option<i64>, exp: Option<u64>, jti: Option<&str>, token_version: Option<i64>) -> ClaimsRead {
    ClaimsRead { user_id, exp, iat: None, role: Some("user".to_string()), jti: jti.map(|s| s.to_string()), token_version }
}

#[test]
fn claims_from_what_was_read() {
    assert_eq!(claims_from(Ok(read(Some(4), Some(9), None, None))), Ok(Claims { user_id: 4, exp: 9 }));
    assert_eq!(
        claims_from(Ok(read(None, Some(9), None, None))),
        Err(AppError::Jwt("missing field `user_id`".to_string()))
    );
    assert_eq!(
        claims_from(Ok(read(Some(4), None, None, None))),
        Err(AppError::Jwt("missing field `exp`".to_string()))
    );
    assert_eq!(claims_from(Err("InvalidSignature".to_string())), Err(AppError::Jwt("InvalidSignature".to_string())));
}

#[test]
fn session_claims_from_what_was_read() {
    let k = session_claims_from(Ok(read(Some(4), Some(9), Some("j"), Some(2)))).unwrap();
    assert_eq!((k.user_id, k.exp, k.iat, k.jti.as_str(), k.token_version), (4, 9, 0, "j", 2));
    assert_eq!(k.role.as_deref(), Some("user"));
    assert_eq!(
        session_claims_from(Ok(read(Some(4), Some(9), None, Some(2)))),
        Err(AppError::Jwt("missing field `jti`".to_string()))
    );
    assert_eq!(
        session_claims_from(Ok(read(Some(4), Some(9), Some("j"), None))),
        Err(AppError::Jwt("missing field `token_version`".to_string()))
    );
    assert_eq!(
        session_claims_from(Err("ExpiredSignature".to_string())),
        Err(AppError::Jwt("ExpiredSignature".to_string()))
    );
}

#[test]
fn claims_are_serializable() {
    let claims = Claims { user_id: 42, exp: 9999999999 };
    let json = claims_json(&claims);
    assert!(json.contains("\"user_id\":42"));
    assert!(json.contains("\"exp\":9999999999"));
    assert_eq!(json, "{\"user_id\":42,\"exp\":9999999999}");
    let negative = claims_json(&Claims { user_id: -7, exp: 0 });
    assert_eq!(negative, "{\"user_id\":-7,\"exp\":0}");
}

#[test]
fn issued_tokens_have_three_segments() {
    let t = encode_token(5, SECRET, 2).unwrap();
    assert_eq!(t.matches('.').count(), 2);
    assert!(t.split('.').all(|p| !p.is_empty()));
}
