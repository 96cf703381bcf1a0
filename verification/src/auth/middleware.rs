//! The authenticated user of a request, and the decisions that admit or
//! refuse a request's credentials.

use vstd::prelude::*;
use vstd::string::*;

use crate::auth::jwt::{decode_session_token, dot_count, session_token_admits, TokenClaims};
use crate::error::AppError;
use crate::auth::permissions::{is_admin, is_artist_or_above, spec_is_admin, spec_is_artist_or_above};
use crate::auth::roles::{parse_role, role_named, Role};
use crate::text::{is_prefix, strip_prefix};

verus! {

/// The user a request is made by, as its token names them.
#[derive(Debug, Clone)]
pub struct CurrentUser {
    pub id: i64,
    pub role: Role,
    pub jti: String,
    pub token_version: i64,
}

impl CurrentUser {
    /// Whether the user administers the site.
    pub fn is_admin(&self) -> (r: bool)
        ensures
            r == spec_is_admin(self.role),
    {
        is_admin(&self.role)
    }

    /// Whether the user is an artist or an administrator.
    pub fn is_artist_or_above(&self) -> (r: bool)
        ensures
            r == spec_is_artist_or_above(self.role),
    {
        is_artist_or_above(&self.role)
    }
}

/// The `Authorization` header of a request.
#[derive(Debug, Clone)]
pub enum AuthHeader {
    /// No such header.
    Absent,
    /// A header that is not visible ASCII text.
    Unreadable,
    /// The header's text.
    Text(String),
}

/// Why a request's credentials are refused.
#[derive(Debug, Clone, Copy, PartialEq, Eq, Structural)]
pub enum AuthRejection {
    /// The server has no token secret.
    SecretMissing,
    /// The `Authorization` header is not text.
    HeaderEncoding,
    /// The `Authorization` header does not start with `Bearer `.
    BearerPrefix,
    /// No header, and the cookie did not hold a valid token.
    NoHeaderNorCookie,
    /// No header and no cookie.
    NoHeader,
    /// The token's signature or expiry does not check out.
    InvalidToken,
    /// The token has no issued-at time.
    NoIssuedAt,
    /// The token names no known role.
    InvalidRole,
    /// The token was revoked.
    Revoked,
    /// The user's tokens were invalidated after this one was issued.
    VersionOutdated,
}

/// The HTTP status of a refusal.
pub open spec fn rejection_status(r: AuthRejection) -> u16 {
    if r == AuthRejection::SecretMissing { 500 } else { 401 }
}

/// The message of a refusal.
pub open spec fn rejection_message(r: AuthRejection) -> Seq<char> {
    match r {
        AuthRejection::SecretMissing => "JWT_SECRET not configured"@,
        AuthRejection::HeaderEncoding => "invalid Authorization header encoding"@,
        AuthRejection::BearerPrefix => "missing Bearer prefix"@,
        AuthRejection::NoHeaderNorCookie => "missing Authorization header or valid cookie"@,
        AuthRejection::NoHeader => "missing Authorization header"@,
        AuthRejection::InvalidToken => "invalid or expired token"@,
        AuthRejection::NoIssuedAt => "token missing issued-at claim"@,
        AuthRejection::InvalidRole => "invalid role in token"@,
        AuthRejection::Revoked => "token has been revoked"@,
        AuthRejection::VersionOutdated => "token version outdated, please log in again"@,
    }
}

impl AuthRejection {
    /// The HTTP status that answers the refusal.
    pub fn status_code(&self) -> (r: u16)
        ensures
            r == rejection_status(*self),
    {
        match self {
            AuthRejection::SecretMissing => 500,
            _ => 401,
        }
    }

    /// The message that answers the refusal.
    pub fn message(&self) -> (r: String)
        ensures
            r@ == rejection_message(*self),
    {
        match self {
            AuthRejection::SecretMissing => String::from_str("JWT_SECRET not configured"),
            AuthRejection::HeaderEncoding => String::from_str("invalid Authorization header encoding"),
            AuthRejection::BearerPrefix => String::from_str("missing Bearer prefix"),
            AuthRejection::NoHeaderNorCookie => String::from_str(
                "missing Authorization header or valid cookie",
            ),
            AuthRejection::NoHeader => String::from_str("missing Authorization header"),
            AuthRejection::InvalidToken => String::from_str("invalid or expired token"),
            AuthRejection::NoIssuedAt => String::from_str("token missing issued-at claim"),
            AuthRejection::InvalidRole => String::from_str("invalid role in token"),
            AuthRejection::Revoked => String::from_str("token has been revoked"),
            AuthRejection::VersionOutdated => String::from_str(
                "token version outdated, please log in again",
            ),
        }
    }
}

/// The bearer token an `Authorization` header carries. `cookie_tried` tells
/// whether a cookie was present (and failed), which changes the message
/// when the header is absent.
pub open spec fn bearer_of(h: AuthHeader, cookie_tried: bool) -> Result<Seq<char>, AuthRejection> {
    match h {
        AuthHeader::Absent => Err(
            if cookie_tried { AuthRejection::NoHeaderNorCookie } else { AuthRejection::NoHeader },
        ),
        AuthHeader::Unreadable => Err(AuthRejection::HeaderEncoding),
        AuthHeader::Text(t) => if is_prefix("Bearer "@, t@) {
            Ok(t@.subrange(7, t@.len() as int))
        } else {
            Err(AuthRejection::BearerPrefix)
        },
    }
}

/// Reads the bearer token out of an `Authorization` header.
pub fn bearer_token(header: &AuthHeader, cookie_tried: bool) -> (r: Result<String, AuthRejection>)
    ensures
        match bearer_of(*header, cookie_tried) {
            Ok(t) => r matches Ok(s) && s@ == t,
            Err(e) => r == Err::<String, AuthRejection>(e),
        },
{
    proof {
        reveal_strlit("Bearer ");
    }
    match header {
        AuthHeader::Absent => Err(
            if cookie_tried { AuthRejection::NoHeaderNorCookie } else { AuthRejection::NoHeader },
        ),
        AuthHeader::Unreadable => Err(AuthRejection::HeaderEncoding),
        AuthHeader::Text(t) => match strip_prefix(t.as_str(), "Bearer ") {
            Some(s) => Ok(s),
            None => Err(AuthRejection::BearerPrefix),
        },
    }
}

/// Where authentication stands once the cookie's token, if any, was
/// decoded.
#[derive(Debug, Clone, PartialEq, Eq)]
pub enum CredentialStep {
    /// The cookie held a valid token, with these claims.
    Admitted(TokenClaims),
    /// The bearer token of the `Authorization` header is to be decoded.
    DecodeBearer(String),
}

/// The step after the cookie: the claims of a cookie token that decoded
/// (`cookie_decoded` is `None` when there is no cookie), or else the bearer
/// token of the header to decode, or the header's refusal.
pub fn after_cookie(cookie_decoded: Option<Result<TokenClaims, AppError>>, header: &AuthHeader) -> (r:
    Result<CredentialStep, AuthRejection>)
    ensures
        cookie_decoded matches Some(Ok(c)) ==> r == Ok::<CredentialStep, AuthRejection>(
            CredentialStep::Admitted(c),
        ),
        !(cookie_decoded matches Some(Ok(_))) ==> match bearer_of(*header, cookie_decoded is Some) {
            Ok(t) => r matches Ok(CredentialStep::DecodeBearer(s)) && s@ == t,
            Err(e) => r == Err::<CredentialStep, AuthRejection>(e),
        },
{
    let cookie_tried = cookie_decoded.is_some();
    if let Some(Ok(c)) = cookie_decoded {
        return Ok(CredentialStep::Admitted(c));
    }
    match bearer_token(header, cookie_tried) {
        Ok(t) => Ok(CredentialStep::DecodeBearer(t)),
        Err(e) => Err(e),
    }
}

/// The claims of the bearer token from the result of decoding it: any
/// failure refuses the request as an invalid or expired token.
pub fn after_bearer(decoded: Result<TokenClaims, AppError>) -> (r: Result<TokenClaims, AuthRejection>)
    ensures
        match decoded {
            Ok(c) => r == Ok::<TokenClaims, AuthRejection>(c),
            Err(_) => r == Err::<TokenClaims, AuthRejection>(AuthRejection::InvalidToken),
        },
{
    match decoded {
        Ok(c) => Ok(c),
        Err(_) => Err(AuthRejection::InvalidToken),
    }
}

/// Whether the cookie, if any, cannot hold a token: a token is three parts
/// joined by two dots.
pub open spec fn malformed_cookie(cookie: Option<&str>) -> bool {
    match cookie {
        None => true,
        Some(c) => dot_count(c@) != 2,
    }
}

/// Authenticates a request: a token from the cookie is tried first, then
/// the bearer token of the `Authorization` header (see [`after_cookie`]
/// and [`after_bearer`]). `secret` is the configured token secret. Which
/// tokens decode depends on the clock; what is stated is which refusals
/// come from the credentials' form, and that admitted claims come from the
/// cookie's token or the header's bearer token, whose signature checks out
/// under the configured secret.
pub fn authenticate(cookie: Option<&str>, header: &AuthHeader, secret: Option<&str>) -> (r: Result<
    TokenClaims,
    AuthRejection,
>)
    ensures
        secret is None ==> r == Err::<TokenClaims, AuthRejection>(AuthRejection::SecretMissing),
        secret is Some && cookie is None ==> (bearer_of(*header, false) matches Err(e) ==> r
            == Err::<TokenClaims, AuthRejection>(e)),
        secret is Some && cookie is Some ==> (bearer_of(*header, true) matches Err(e) ==> (r
            is Ok || r == Err::<TokenClaims, AuthRejection>(e))),
        r matches Err(e) ==> (e == AuthRejection::SecretMissing || e == AuthRejection::InvalidToken
            || bearer_of(*header, cookie is Some) == Err::<Seq<char>, AuthRejection>(e)),
        secret is Some ==> r != Err::<TokenClaims, AuthRejection>(AuthRejection::SecretMissing),
        secret is Some && bearer_of(*header, cookie is Some) is Ok ==> (r is Ok || r == Err::<
            TokenClaims,
            AuthRejection,
        >(AuthRejection::InvalidToken)),
        secret is Some && malformed_cookie(cookie) ==> match bearer_of(*header, cookie is Some) {
            Ok(b) => dot_count(b) != 2 ==> r == Err::<TokenClaims, AuthRejection>(
                AuthRejection::InvalidToken,
            ),
            Err(e) => r == Err::<TokenClaims, AuthRejection>(e),
        },
        r matches Ok(k) ==> (secret matches Some(s) && ((cookie matches Some(c)
            && session_token_admits(c@, s@, k)) || (bearer_of(*header, cookie is Some) matches Ok(
            b,
        ) && session_token_admits(b, s@, k)))),
{
    let secret = match secret {
        Some(s) => s,
        None => return Err(AuthRejection::SecretMissing),
    };
    let cookie_decoded = match cookie {
        Some(c) => Some(decode_session_token(c, secret)),
        None => None,
    };
    match after_cookie(cookie_decoded, header)? {
        CredentialStep::Admitted(c) => Ok(c),
        CredentialStep::DecodeBearer(token) => after_bearer(decode_session_token(token.as_str(), secret)),
    }
}

/// The user a token admits, given the token's user id, role claim,
/// issued-at time, id and version: a token without an issued-at time or
/// without a known role is refused.
pub fn admit_user(user_id: i64, role: Option<&str>, issued_at: u64, jti: String, token_version: i64) -> (r:
    Result<CurrentUser, AuthRejection>)
    ensures
        issued_at == 0 ==> r == Err::<CurrentUser, AuthRejection>(AuthRejection::NoIssuedAt),
        issued_at != 0 ==> match role {
            Some(name) => match role_named(name@) {
                Some(ro) => r matches Ok(u) && u.id == user_id && u.role == ro && u.jti == jti
                    && u.token_version == token_version,
                None => r == Err::<CurrentUser, AuthRejection>(AuthRejection::InvalidRole),
            },
            None => r == Err::<CurrentUser, AuthRejection>(AuthRejection::InvalidRole),
        },
{
    if issued_at == 0 {
        return Err(AuthRejection::NoIssuedAt);
    }
    let role = match role {
        Some(name) => match parse_role(name) {
            Ok(ro) => ro,
            Err(_) => return Err(AuthRejection::InvalidRole),
        },
        None => return Err(AuthRejection::InvalidRole),
    };
    Ok(CurrentUser { id: user_id, role, jti, token_version })
}

/// The user a session token's claims admit: see [`admit_user`].
pub fn current_user_from(claims: TokenClaims) -> (r: Result<CurrentUser, AuthRejection>)
    ensures
        claims.iat == 0 ==> r == Err::<CurrentUser, AuthRejection>(AuthRejection::NoIssuedAt),
        claims.iat != 0 ==> match claims.role {
            Some(name) => match role_named(name@) {
                Some(ro) => r matches Ok(u) && u.id == claims.user_id && u.role == ro && u.jti
                    == claims.jti && u.token_version == claims.token_version,
                None => r == Err::<CurrentUser, AuthRejection>(AuthRejection::InvalidRole),
            },
            None => r == Err::<CurrentUser, AuthRejection>(AuthRejection::InvalidRole),
        },
{
    let role = match &claims.role {
        Some(name) => Some(name.as_str()),
        None => None,
    };
    admit_user(claims.user_id, role, claims.iat, claims.jti.clone(), claims.token_version)
}

/// The session check that follows decoding: a revoked token, or one whose
/// version is not current, is refused. A lookup that failed (`None`) counts
/// as "not revoked" and as "not current".
pub fn check_session(revoked: Option<bool>, version_valid: Option<bool>) -> (r: Result<(), AuthRejection>)
    ensures
        revoked == Some(true) ==> r == Err::<(), AuthRejection>(AuthRejection::Revoked),
        revoked != Some(true) && version_valid != Some(true) ==> r == Err::<(), AuthRejection>(
            AuthRejection::VersionOutdated,
        ),
        revoked != Some(true) && version_valid == Some(true) ==> r is Ok,
{
    let is_revoked = match revoked {
        Some(b) => b,
        None => false,
    };
    if is_revoked {
        return Err(AuthRejection::Revoked);
    }
    let current = match version_valid {
        Some(b) => b,
        None => false,
    };
    if !current {
        return Err(AuthRejection::VersionOutdated);
    }
    Ok(())
}

} // verus!
