//! JSON Web Tokens: a user id and an expiry, signed with HS256.

use vstd::prelude::*;
use vstd::string::*;

use crate::error::AppError;
use crate::text::{decimal, i64_to_string, signed_decimal, str_concat, u64_to_string};

verus! {

/// The claims a token carries.
#[derive(Debug, Clone, Copy, PartialEq, Eq, Structural)]
pub struct Claims {
    pub user_id: i64,
    pub exp: u64,
}

#[verifier::external_type_specification]
#[verifier::external_body]
pub struct ExJwtError(jsonwebtoken::errors::Error);

/// Seconds in a day.
pub const SECS_PER_DAY: i64 = 86400;

/// The longest validity a token may be given, in days: a bound of this
/// library's own. `chrono` panics only on dates beyond the year 262143,
/// and how many days reach that depends on the current date; this bound
/// stays short of it for any date before the year 15000.
pub const MAX_EXPIRY_DAYS: u64 = 90_000_000;

/// The bound on Unix timestamps that `chrono` can represent (its years lie
/// between -262144 and 262143).
pub open spec fn timestamp_in_range(t: int) -> bool {
    -10_000_000_000_000 < t < 10_000_000_000_000
}

/// The current Unix time in seconds, from `chrono::Utc::now`. Nothing is
/// promised of the value beyond its range: not before 1970 (the call
/// panics on a system clock set earlier) and within what `chrono`
/// represents.
#[verifier::external_body]
fn utc_now_timestamp() -> (r: i64)
    ensures
        0 <= r,
        timestamp_in_range(r as int),
{
    chrono::Utc::now().timestamp()
}

/// The JSON text of a token's claims, in the field order of [`Claims`]:
/// `{"user_id":<id>,"exp":<expiry>}`.
pub open spec fn claims_text(user_id: i64, exp: u64) -> Seq<char> {
    "{\"user_id\":"@ + signed_decimal(user_id as int) + ",\"exp\":"@ + decimal(exp as nat) + "}"@
}

/// Writes a token's claims as JSON, as they are signed.
pub fn claims_json(claims: &Claims) -> (r: String)
    ensures
        r@ == claims_text(claims.user_id, claims.exp),
{
    let mut s = str_concat("{\"user_id\":", i64_to_string(claims.user_id).as_str());
    s.append(",\"exp\":");
    s.append(u64_to_string(claims.exp).as_str());
    s.append("}");
    s
}

/// How many `.` characters `s` holds.
pub open spec fn dot_count(s: Seq<char>) -> nat
    decreases s.len(),
{
    if s.len() == 0 {
        0
    } else {
        dot_count(s.drop_last()) + (if s.last() == '.' { 1nat } else { 0nat })
    }
}

/// The HS256 token that `jsonwebtoken::encode` makes, with the default
/// header, for the JSON claims text `claims` under `secret`.
pub uninterp spec fn hs256_token(claims: Seq<char>, secret: Seq<char>) -> Seq<char>;

/// Signs a JSON claims text with `jsonwebtoken::encode` (default header:
/// HS256), taking the text as it is. The text of a claims object is valid
/// JSON, which `RawValue::from_string` accepts, and an HMAC key takes any
/// secret, so the call succeeds. The token is its header, its claims and
/// its signature, each in unpadded URL-safe base64, joined by `.`: it holds
/// exactly two dots.
#[verifier::external_body]
fn sign_claims(claims: &str, secret: &str) -> (r: Result<String, jsonwebtoken::errors::Error>)
    requires
        exists|u: i64, e: u64| claims@ == claims_text(u, e),
    ensures
        r is Ok,
        r matches Ok(t) ==> t@ == hs256_token(claims@, secret@),
        r matches Ok(t) ==> dot_count(t@) == 2,
{
    let raw = serde_json::value::RawValue::from_string(claims.to_string())?;
    jsonwebtoken::encode(
        &jsonwebtoken::Header::default(),
        &raw,
        &jsonwebtoken::EncodingKey::from_secret(secret.as_bytes()),
    )
}

/// Signs the claims of `user_id` expiring at `exp`.
fn sign(user_id: i64, exp: u64, secret: &str) -> (r: Result<String, jsonwebtoken::errors::Error>)
    ensures
        r matches Ok(t) && t@ == hs256_token(claims_text(user_id, exp), secret@) && dot_count(t@) == 2,
{
    let text = claims_json(&Claims { user_id, exp });
    assert(exists|u: i64, e: u64| text@ == claims_text(u, e)) by {
        assert(text@ == claims_text(user_id, exp));
    }
    sign_claims(text.as_str(), secret)
}

/// The claims read from a token whose signature and expiry checked out:
/// each is absent when the token lacks it or it is not of its type.
#[derive(Debug, Clone, PartialEq, Eq)]
pub struct ClaimsRead {
    pub user_id: Option<i64>,
    pub exp: Option<u64>,
    pub iat: Option<u64>,
    pub role: Option<String>,
    pub jti: Option<String>,
    pub token_version: Option<i64>,
}

/// What a token holds as `jsonwebtoken` reads it: user id, expiry,
/// issued-at time, role, token id and token version, each absent when the
/// token lacks it or it is not of its type.
pub type DecodedClaims = (Option<i64>, Option<u64>, Option<u64>, Option<Seq<char>>, Option<Seq<char>>, Option<i64>);

/// What `jsonwebtoken::decode` (HS256, default validation) reads from
/// `token` under `secret`, before its checks of the time: the token's
/// claims when it is a well-formed HS256 token whose signature checks out
/// under `secret` and whose payload is JSON; `None` otherwise. It depends
/// on the token and the secret alone.
pub uninterp spec fn hs256_decoded(token: Seq<char>, secret: Seq<char>) -> Option<DecodedClaims>;

/// The claims read, as plain values.
pub open spec fn claims_read_view(c: ClaimsRead) -> DecodedClaims {
    (
        c.user_id,
        c.exp,
        c.iat,
        match c.role {
            Some(r) => Some(r@),
            None => None,
        },
        match c.jti {
            Some(j) => Some(j@),
            None => None,
        },
        c.token_version,
    )
}

/// Checks a token's signature and expiry with `jsonwebtoken::decode`
/// (default validation: HS256, `exp` required, 60 s leeway) and reads its
/// claims; a failure gives the error's text. Whether it succeeds depends
/// on the clock, so that is left unsaid. What is stated: an accepted token
/// is one whose signature checks out under `secret`, and what is read is
/// what its payload holds; a token that is not three parts joined by two
/// dots is refused; a token signed here for a user and an expiry, read
/// with the same secret, gives back exactly those claims, and can only be
/// refused as expired (`ExpiredSignature`).
#[verifier::external_body]
fn read_claims(token: &str, secret: &str) -> (r: Result<ClaimsRead, String>)
    ensures
        r matches Ok(c) ==> hs256_decoded(token@, secret@) == Some(claims_read_view(c)),
        dot_count(token@) != 2 ==> r is Err,
        forall|u: i64, e: u64|
            #[trigger] hs256_token(claims_text(u, e), secret@) == token@ ==> (r matches Err(m) ==> m@
                == "ExpiredSignature"@),
        forall|u: i64, e: u64|
            #[trigger] hs256_token(claims_text(u, e), secret@) == token@ ==> (r matches Ok(c) ==> c
                == ClaimsRead {
                user_id: Some(u),
                exp: Some(e),
                iat: None,
                role: None,
                jti: None,
                token_version: None,
            }),
{
    let key = jsonwebtoken::DecodingKey::from_secret(secret.as_bytes());
    let c = match jsonwebtoken::decode::<serde_json::Value>(token, &key, &jsonwebtoken::Validation::default()) {
        Ok(d) => d.claims,
        Err(e) => return Err(e.to_string()),
    };
    Ok(ClaimsRead {
        user_id: c["user_id"].as_i64(),
        exp: c["exp"].as_u64(),
        iat: c["iat"].as_u64(),
        role: c["role"].as_str().map(String::from),
        jti: c["jti"].as_str().map(String::from),
        token_version: c["token_version"].as_i64(),
    })
}

/// The display text of a `jsonwebtoken` error.
#[verifier::external_body]
fn jwt_error_text(e: &jsonwebtoken::errors::Error) -> (r: String)
{
    e.to_string()
}

/// The expiry of a token issued at `now` for `days` days.
pub open spec fn expiry_at(now: i64, days: u64) -> u64 {
    (now + days * SECS_PER_DAY) as u64
}

/// Issues a token for `user_id`, valid for `expiry_days` days from `now`
/// (a Unix timestamp).
pub fn encode_token_at(user_id: i64, secret: &str, expiry_days: u64, now: i64) -> (r: Result<
    String,
    AppError,
>)
    requires
        expiry_days <= MAX_EXPIRY_DAYS,
        timestamp_in_range(now as int),
    ensures
        r matches Ok(t) && t@ == hs256_token(claims_text(user_id, expiry_at(now, expiry_days)), secret@)
            && dot_count(t@) == 2,
{
    let exp = (now + (expiry_days as i64) * SECS_PER_DAY) as u64;
    match sign(user_id, exp, secret) {
        Ok(t) => Ok(t),
        Err(e) => Err(AppError::Jwt(jwt_error_text(&e))),
    }
}

/// Issues a token for `user_id`, valid for `expiry_days` days from now.
pub fn encode_token(user_id: i64, secret: &str, expiry_days: u64) -> (r: Result<String, AppError>)
    requires
        expiry_days <= MAX_EXPIRY_DAYS,
    ensures
        r matches Ok(t) && dot_count(t@) == 2 && exists|now: i64|
            0 <= now && timestamp_in_range(now as int) && t@ == hs256_token(
                claims_text(user_id, #[trigger] expiry_at(now, expiry_days)),
                secret@,
            ),
{
    let now = utc_now_timestamp();
    encode_token_at(user_id, secret, expiry_days, now)
}

/// The expiry of a token that expired ten minutes before `now`; the
/// subtraction wraps for timestamps under ten minutes.
pub open spec fn expired_at(now: i64) -> u64 {
    let t = now as u64;
    if t >= 600 {
        (t - 600) as u64
    } else {
        (t + 18446744073709551616 - 600) as u64
    }
}

/// Issues a token for `user_id` that expired ten minutes before `now`,
/// beyond the leeway that validation allows.
pub fn create_expired_token_at(user_id: i64, secret: &str, now: i64) -> (r: String)
    ensures
        r@ == hs256_token(claims_text(user_id, expired_at(now)), secret@),
{
    let t = now as u64;
    let exp = if t >= 600 {
        t - 600
    } else {
        t + (u64::MAX - 599)
    };
    match sign(user_id, exp, secret) {
        Ok(t) => t,
        Err(_) => String::new(),
    }
}

/// Issues a token for `user_id` that expired ten minutes ago.
pub fn create_expired_token(user_id: i64, secret: &str) -> (r: String)
    ensures
        exists|now: i64| 0 <= now && r@ == hs256_token(claims_text(user_id, #[trigger] expired_at(now)), secret@),
{
    let now = utc_now_timestamp();
    create_expired_token_at(user_id, secret, now)
}

/// The error for a claim that a token lacks.
pub open spec fn missing_claim(name: Seq<char>) -> Seq<char> {
    "missing field `"@ + name + "`"@
}

/// The claims of a token from what decoding read: a decoding failure, or a
/// missing `user_id` or `exp`, is a [`AppError::Jwt`].
pub fn claims_from(read: Result<ClaimsRead, String>) -> (r: Result<Claims, AppError>)
    ensures
        match read {
            Err(m) => r matches Err(AppError::Jwt(t)) && t@ == m@,
            Ok(c) => match (c.user_id, c.exp) {
                (Some(u), Some(e)) => r == Ok::<Claims, AppError>(Claims { user_id: u, exp: e }),
                (None, _) => r matches Err(AppError::Jwt(t)) && t@ == missing_claim("user_id"@),
                (Some(_), None) => r matches Err(AppError::Jwt(t)) && t@ == missing_claim("exp"@),
            },
        },
{
    proof {
        reveal_strlit("user_id");
        reveal_strlit("exp");
        reveal_strlit("missing field `user_id`");
        reveal_strlit("missing field `exp`");
        reveal_strlit("missing field `");
        reveal_strlit("`");
    }
    match read {
        Err(m) => Err(AppError::Jwt(m)),
        Ok(c) => match (c.user_id, c.exp) {
            (Some(user_id), Some(exp)) => Ok(Claims { user_id, exp }),
            (None, _) => Err(AppError::Jwt(String::from_str("missing field `user_id`"))),
            (Some(_), None) => Err(AppError::Jwt(String::from_str("missing field `exp`"))),
        },
    }
}

/// Checks a token's signature and expiry under `secret` and reads its
/// claims. A token is accepted only if its signature checks out under
/// `secret`, and the claims are those its payload holds. Every failure is a
/// [`AppError::Jwt`]; a token without an integer
/// `user_id` fails with `missing field `user_id``. A token issued here with
/// the same secret gives back, if it is accepted, the user and expiry it
/// was issued for.
pub fn decode_token(token: &str, secret: &str) -> (r: Result<Claims, AppError>)
    ensures
        r matches Err(e) ==> e is Jwt,
        r matches Ok(c) ==> (hs256_decoded(token@, secret@) matches Some(d) && d.0 == Some(c.user_id)
            && d.1 == Some(c.exp)),
        dot_count(token@) != 2 ==> r is Err,
        forall|u: i64, e: u64|
            #[trigger] hs256_token(claims_text(u, e), secret@) == token@ ==> (r matches Err(er) ==> (er
                matches AppError::Jwt(m) && m@ == "ExpiredSignature"@)),
        forall|u: i64, e: u64|
            #[trigger] hs256_token(claims_text(u, e), secret@) == token@ ==> (r matches Ok(c) ==> c
                == Claims { user_id: u, exp: e }),
{
    claims_from(read_claims(token, secret))
}

/// The claims of a session token: besides the user and the expiry, when it
/// was issued (0 when it does not say), the role it grants, its id, and the
/// version of the user's tokens it belongs to.
#[derive(Debug, Clone, PartialEq, Eq)]
pub struct TokenClaims {
    pub user_id: i64,
    pub exp: u64,
    pub iat: u64,
    pub role: Option<String>,
    pub jti: String,
    pub token_version: i64,
}

/// The claims of a session token from what decoding read: a decoding
/// failure, or a missing `user_id`, `exp`, `jti` or `token_version`, is a
/// [`AppError::Jwt`]; a missing issued-at time reads as 0.
pub fn session_claims_from(read: Result<ClaimsRead, String>) -> (r: Result<TokenClaims, AppError>)
    ensures
        match read {
            Err(m) => r matches Err(AppError::Jwt(t)) && t@ == m@,
            Ok(c) => if c.user_id is None {
                r matches Err(AppError::Jwt(t)) && t@ == missing_claim("user_id"@)
            } else if c.exp is None {
                r matches Err(AppError::Jwt(t)) && t@ == missing_claim("exp"@)
            } else if c.jti is None {
                r matches Err(AppError::Jwt(t)) && t@ == missing_claim("jti"@)
            } else if c.token_version is None {
                r matches Err(AppError::Jwt(t)) && t@ == missing_claim("token_version"@)
            } else {
                r matches Ok(k) && Some(k.user_id) == c.user_id && Some(k.exp) == c.exp
                    && k.iat == (match c.iat {
                    Some(i) => i,
                    None => 0,
                }) && k.role == c.role && Some(k.jti) == c.jti && Some(k.token_version)
                    == c.token_version
            },
        },
{
    proof {
        reveal_strlit("user_id");
        reveal_strlit("exp");
        reveal_strlit("jti");
        reveal_strlit("token_version");
        reveal_strlit("missing field `user_id`");
        reveal_strlit("missing field `exp`");
        reveal_strlit("missing field `jti`");
        reveal_strlit("missing field `token_version`");
        reveal_strlit("missing field `");
        reveal_strlit("`");
    }
    let c = match read {
        Err(m) => return Err(AppError::Jwt(m)),
        Ok(c) => c,
    };
    let user_id = match c.user_id {
        Some(u) => u,
        None => return Err(AppError::Jwt(String::from_str("missing field `user_id`"))),
    };
    let exp = match c.exp {
        Some(e) => e,
        None => return Err(AppError::Jwt(String::from_str("missing field `exp`"))),
    };
    let jti = match c.jti {
        Some(j) => j,
        None => return Err(AppError::Jwt(String::from_str("missing field `jti`"))),
    };
    let token_version = match c.token_version {
        Some(v) => v,
        None => return Err(AppError::Jwt(String::from_str("missing field `token_version`"))),
    };
    let iat = match c.iat {
        Some(i) => i,
        None => 0,
    };
    Ok(TokenClaims { user_id, exp, iat, role: c.role, jti, token_version })
}

/// Whether session claims `k` are what a payload holding `d` gives: the
/// user, expiry, token id and version present, and the issued-at time (0
/// when absent) and role as they are.
pub open spec fn session_claims_match(k: TokenClaims, d: DecodedClaims) -> bool {
    &&& d.0 == Some(k.user_id)
    &&& d.1 == Some(k.exp)
    &&& k.iat == (match d.2 {
        Some(i) => i,
        None => 0,
    })
    &&& d.3 == (match k.role {
        Some(r) => Some(r@),
        None => None,
    })
    &&& d.4 == Some(k.jti@)
    &&& d.5 == Some(k.token_version)
}

/// Whether `token` verifies under `secret` and its payload gives the
/// session claims `k`.
pub open spec fn session_token_admits(token: Seq<char>, secret: Seq<char>, k: TokenClaims) -> bool {
    hs256_decoded(token, secret) matches Some(d) && session_claims_match(k, d)
}

/// Checks a session token's signature and expiry under `secret` and reads
/// its claims. A token is accepted only if its signature checks out under
/// `secret`, and the claims are those its payload holds. Every failure is
/// a [`AppError::Jwt`]. A token made by
/// [`encode_token`] carries no token id, so it is never a session token.
pub fn decode_session_token(token: &str, secret: &str) -> (r: Result<TokenClaims, AppError>)
    ensures
        r matches Err(e) ==> e is Jwt,
        r matches Ok(k) ==> session_token_admits(token@, secret@, k),
        dot_count(token@) != 2 ==> r is Err,
        forall|u: i64, e: u64| #[trigger] hs256_token(claims_text(u, e), secret@) == token@ ==> r is Err,
{
    session_claims_from(read_claims(token, secret))
}

/// A token issued for a longer validity expires later: the expiry grows
/// with the number of days.
pub proof fn lemma_longer_validity_expires_later(now: i64, d1: u64, d2: u64)
    requires
        timestamp_in_range(now as int),
        d1 < d2 <= MAX_EXPIRY_DAYS,
        now + d1 * SECS_PER_DAY >= 0,
    ensures
        expiry_at(now, d1) < expiry_at(now, d2),
{
}

/// A token made by [`create_expired_token_at`] at a time past the first ten
/// minutes of the epoch expired ten minutes before it, beyond the 60 s
/// leeway that validation allows.
pub proof fn lemma_expired_token_beyond_leeway(now: i64)
    requires
        600 <= now,
    ensures
        expired_at(now) == now - 600,
        expired_at(now) + 60 < now,
{
}

} // verus!
