use kbr_api_rust::auth::jwt::encode_token;
use kbr_api_rust::auth::jwt::TokenClaims;
use kbr_api_rust::auth::middleware::{
    admit_user, after_bearer, after_cookie, authenticate, bearer_token, check_session,
    current_user_from, AuthHeader, AuthRejection, CredentialStep, CurrentUser,
};
use kbr_api_rust::error::AppError;
use kbr_api_rust::auth::roles::Role;

const SECRET: &str = "middleware-secret";

fn session_token(user_id: i64, extra: &str) -> String {
    let exp = chrono::Utc::now().timestamp() + 3600;
    let text = format!("{{\"user_id\":{},\"exp\":{}{}}}", user_id, exp, extra);
    let claims: serde_json::Value = serde_json::from_str(&text).unwrap();
    jsonwebtoken::encode(
        &jsonwebtoken::Header::default(),
        &claims,
        &jsonwebtoken::EncodingKey::from_secret(SECRET.as_bytes()),
    )
    .unwrap()
}

const FULL: &str = ",\"iat\":1700000000,\"role\":\"artist\",\"jti\":\"j-1\",\"token_version\":3";

#[test]
fn current_user_tiers() {
    let admin = CurrentUser { id: 1, role: Role::SuperAdmin, jti: "a".into(), token_version: 1 };
    assert!(admin.is_admin());
    assert!(admin.is_artist_or_above());
    let artist = CurrentUser { id: 2, role: Role::Artist, jti: "b".into(), token_version: 1 };
    assert!(!artist.is_admin());
    assert!(artist.is_artist_or_above());
}

#[test]
fn bearer_token_reading() {
    assert_eq!(bearer_token(&AuthHeader::Text("Bearer abc".into()), false), Ok("abc".to_string()));
    assert_eq!(bearer_token(&AuthHeader::Text("Basic abc".into()), false), Err(AuthRejection::BearerPrefix));
    assert_eq!(bearer_token(&AuthHeader::Unreadable, false), Err(AuthRejection::HeaderEncoding));
    assert_eq!(bearer_token(&AuthHeader::Absent, false), Err(AuthRejection::NoHeader));
    assert_eq!(bearer_token(&AuthHeader::Absent, true), Err(AuthRejection::NoHeaderNorCookie));
}

#[test]
fn authenticate_paths() {
    let token = session_token(11, FULL);
    assert_eq!(authenticate(None, &AuthHeader::Absent, None), Err(AuthRejection::SecretMissing));
    assert_eq!(authenticate(None, &AuthHeader::Absent, Some(SECRET)), Err(AuthRejection::NoHeader));
    let header = AuthHeader::Text(format!("Bearer {}", token));
    assert_eq!(authenticate(None, &header, Some(SECRET)).unwrap().user_id, 11);
    assert_eq!(authenticate(Some(&token), &AuthHeader::Absent, Some(SECRET)).unwrap().user_id, 11);
    assert_eq!(
        authenticate(Some("garbage"), &AuthHeader::Absent, Some(SECRET)),
        Err(AuthRejection::NoHeaderNorCookie)
    );
    assert_eq!(
        authenticate(Some("garbage"), &header, Some(SECRET)).unwrap().user_id,
        11
    );
    assert_eq!(
        authenticate(None, &AuthHeader::Text("Bearer nope".into()), Some(SECRET)),
        Err(AuthRejection::InvalidToken)
    );
}

#[test]
fn admitting_users() {
    let u = admit_user(3, Some("artist"), 100, "j".into(), 2).unwrap();
    assert_eq!(u.id, 3);
    assert_eq!(u.role, Role::Artist);
    assert_eq!(u.token_version, 2);
    assert_eq!(admit_user(3, Some("artist"), 0, "j".into(), 2).unwrap_err(), AuthRejection::NoIssuedAt);
    assert_eq!(admit_user(3, Some("wizard"), 1, "j".into(), 2).unwrap_err(), AuthRejection::InvalidRole);
    assert_eq!(admit_user(3, None, 1, "j".into(), 2).unwrap_err(), AuthRejection::InvalidRole);
}

#[test]
fn session_checks() {
    assert_eq!(check_session(Some(false), Some(true)), Ok(()));
    assert_eq!(check_session(None, Some(true)), Ok(()));
    assert_eq!(check_session(Some(true), Some(true)), Err(AuthRejection::Revoked));
    assert_eq!(check_session(Some(false), None), Err(AuthRejection::VersionOutdated));
    assert_eq!(check_session(Some(false), Some(false)), Err(AuthRejection::VersionOutdated));
}

#[test]
fn rejection_answers() {
    assert_eq!(AuthRejection::SecretMissing.status_code(), 500);
    assert_eq!(AuthRejection::Revoked.status_code(), 401);
    assert_eq!(AuthRejection::Revoked.message(), "token has been revoked");
    assert_eq!(AuthRejection::NoHeader.message(), "missing Authorization header");
}

#[test]
fn session_claims_are_read_from_the_token() {
    let token = session_token(11, FULL);
    let header = AuthHeader::Text(format!("Bearer {}", token));
    let claims = authenticate(None, &header, Some(SECRET)).unwrap();
    assert_eq!(claims.iat, 1700000000);
    assert_eq!(claims.role.as_deref(), Some("artist"));
    assert_eq!(claims.jti, "j-1");
    assert_eq!(claims.token_version, 3);
    let user = current_user_from(claims).unwrap();
    assert_eq!(user.id, 11);
    assert_eq!(user.role, Role::Artist);
    assert_eq!(user.jti, "j-1");
}

#[test]
fn tokens_without_session_claims_are_refused() {
    // A plain login token carries neither a token id nor a version.
    let plain = encode_token(11, SECRET, 1).unwrap();
    let header = AuthHeader::Text(format!("Bearer {}", plain));
    assert_eq!(authenticate(None, &header, Some(SECRET)), Err(AuthRejection::InvalidToken));
    // Without an issued-at time the claims read, but the user is not admitted.
    let no_iat = session_token(11, ",\"role\":\"artist\",\"jti\":\"j\",\"token_version\":1");
    let header = AuthHeader::Text(format!("Bearer {}", no_iat));
    let claims = authenticate(None, &header, Some(SECRET)).unwrap();
    assert_eq!(claims.iat, 0);
    assert_eq!(current_user_from(claims).unwrap_err(), AuthRejection::NoIssuedAt);
    let no_role = session_token(11, ",\"iat\":5,\"jti\":\"j\",\"token_version\":1");
    let claims = authenticate(Some(&no_role), &AuthHeader::Absent, Some(SECRET)).unwrap();
    assert_eq!(current_user_from(claims).unwrap_err(), AuthRejection::InvalidRole);
}

fn claims(user_id: i64) -> TokenClaims {
    TokenClaims { user_id, exp: 9, iat: 1, role: Some("user".to_string()), jti: "j".to_string(), token_version: 1 }
}

#[test]
fn cookie_then_header() {
    let bearer = AuthHeader::Text("Bearer tok".to_string());
    assert_eq!(after_cookie(Some(Ok(claims(5))), &AuthHeader::Absent), Ok(CredentialStep::Admitted(claims(5))));
    assert_eq!(
        after_cookie(Some(Err(AppError::Jwt("ExpiredSignature".to_string()))), &bearer),
        Ok(CredentialStep::DecodeBearer("tok".to_string()))
    );
    assert_eq!(
        after_cookie(Some(Err(AppError::Jwt("InvalidToken".to_string()))), &AuthHeader::Absent),
        Err(AuthRejection::NoHeaderNorCookie)
    );
    assert_eq!(after_cookie(None, &AuthHeader::Absent), Err(AuthRejection::NoHeader));
    assert_eq!(after_cookie(None, &AuthHeader::Text("Token x".to_string())), Err(AuthRejection::BearerPrefix));
    assert_eq!(after_bearer(Ok(claims(6))), Ok(claims(6)));
    assert_eq!(after_bearer(Err(AppError::Jwt("x".to_string()))), Err(AuthRejection::InvalidToken));
}

#[test]
fn tokens_signed_with_another_secret_are_refused() {
    let token = session_token(11, FULL);
    let header = AuthHeader::Text(format!("Bearer {}", token));
    assert_eq!(authenticate(None, &header, Some("another-secret")), Err(AuthRejection::InvalidToken));
    assert_eq!(
        authenticate(Some(&token), &AuthHeader::Absent, Some("another-secret")),
        Err(AuthRejection::NoHeaderNorCookie)
    );
}
