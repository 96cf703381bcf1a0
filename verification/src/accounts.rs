//! Account rules: how strong a password must be, how long an artist's
//! profile texts may be, and the checks that sign-up and password-reset
//! requests go through before anything is written.

use vstd::prelude::*;
use vstd::string::*;

use crate::error::{bad_request_with, not_found_with, validation_with, AppError};
use crate::text::{chars_of, is_digit, str_eq};

verus! {

/// Whether `c` is an ASCII capital letter.
pub open spec fn is_upper(c: char) -> bool {
    'A' <= c && c <= 'Z'
}

/// Whether `c` is an ASCII small letter.
pub open spec fn is_lower(c: char) -> bool {
    'a' <= c && c <= 'z'
}

/// A strong password: at least 8 characters, with a capital letter, a small
/// letter and a digit among them.
pub open spec fn strong_password(p: Seq<char>) -> bool {
    &&& p.len() >= 8
    &&& exists|i: int| 0 <= i < p.len() && #[trigger] is_upper(p[i])
    &&& exists|i: int| 0 <= i < p.len() && #[trigger] is_lower(p[i])
    &&& exists|i: int| 0 <= i < p.len() && #[trigger] is_digit(p[i])
}

/// The message that refuses a weak password.
pub open spec fn weak_password_message() -> Seq<char> {
    "Password must be at least 8 characters with uppercase, lowercase, and a digit"@
}

fn weak_password_error() -> (e: AppError)
    ensures
        validation_with(e, weak_password_message()),
{
    AppError::Validation(
        String::from_str("Password must be at least 8 characters with uppercase, lowercase, and a digit"),
    )
}

/// Some character among the first `i + 1` of `s` has property `p` exactly
/// when one among the first `i` has, or the one at `i` has.
proof fn lemma_found_extend(s: Seq<char>, i: int, p: spec_fn(char) -> bool)
    requires
        0 <= i < s.len(),
    ensures
        (exists|j: int| 0 <= j < i + 1 && #[trigger] p(s[j])) == ((exists|j: int|
            0 <= j < i && #[trigger] p(s[j])) || p(s[i])),
{
    if exists|j: int| 0 <= j < i + 1 && #[trigger] p(s[j]) {
        let j = choose|j: int| 0 <= j < i + 1 && #[trigger] p(s[j]);
        if j < i {
            assert(0 <= j < i && p(s[j]));
        }
    }
    if p(s[i]) {
        assert(0 <= i < i + 1 && p(s[i]));
    }
}

/// Whether a password is strong enough to be set.
pub fn validate_password(password: &str) -> (r: bool)
    ensures
        r == strong_password(password@),
{
    let chars = chars_of(password);
    let n = chars.len();
    let mut upper = false;
    let mut lower = false;
    let mut digit = false;
    let mut i: usize = 0;
    while i < n
        invariant
            n == chars@.len(),
            chars@ == password@,
            0 <= i <= n,
            upper == exists|j: int| 0 <= j < i && #[trigger] is_upper(chars@[j]),
            lower == exists|j: int| 0 <= j < i && #[trigger] is_lower(chars@[j]),
            digit == exists|j: int| 0 <= j < i && #[trigger] is_digit(chars@[j]),
        decreases n - i,
    {
        let c = chars[i];
        if 'A' <= c && c <= 'Z' {
            upper = true;
        }
        if 'a' <= c && c <= 'z' {
            lower = true;
        }
        if '0' <= c && c <= '9' {
            digit = true;
        }
        proof {
            lemma_found_extend(chars@, i as int, |c: char| is_upper(c));
            lemma_found_extend(chars@, i as int, |c: char| is_lower(c));
            lemma_found_extend(chars@, i as int, |c: char| is_digit(c));
        }
        i = i + 1;
    }
    n >= 8 && upper && lower && digit
}

/// The most characters an artist's intro may have.
pub const INTRO_MAX_CHARS: usize = 300;

/// The most characters an artist's bio may have.
pub const BIO_MAX_CHARS: usize = 3000;

/// Whether an artist's intro is short enough: at most 300 characters.
pub fn validate_intro(intro: &str) -> (r: bool)
    ensures
        r == (intro@.len() <= 300),
{
    intro.unicode_len() <= INTRO_MAX_CHARS
}

/// Whether an artist's bio is short enough: at most 3000 characters.
pub fn validate_bio(bio: &str) -> (r: bool)
    ensures
        r == (bio@.len() <= 3000),
{
    bio.unicode_len() <= BIO_MAX_CHARS
}

/// Whether an optional text is absent or at most `max` characters long.
pub open spec fn fits(text: Option<&str>, max: int) -> bool {
    match text {
        None => true,
        Some(t) => t@.len() <= max,
    }
}

/// Checks the texts of a new artist: the intro first, then the bio.
pub fn check_new_artist_texts(intro: Option<&str>, bio: Option<&str>) -> (r: Result<(), AppError>)
    ensures
        !fits(intro, 300) ==> (r matches Err(e) && validation_with(
            e,
            "Intro has to be 300 characters or less"@,
        )),
        fits(intro, 300) && !fits(bio, 3000) ==> (r matches Err(e) && validation_with(
            e,
            "Bio has to be 3000 characters or less"@,
        )),
        fits(intro, 300) && fits(bio, 3000) ==> r is Ok,
{
    if let Some(t) = intro {
        if !validate_intro(t) {
            return Err(AppError::Validation(String::from_str("Intro has to be 300 characters or less")));
        }
    }
    if let Some(t) = bio {
        if !validate_bio(t) {
            return Err(AppError::Validation(String::from_str("Bio has to be 3000 characters or less")));
        }
    }
    Ok(())
}

/// Checks the texts of an artist update: the bio first, then the intro.
pub fn check_artist_update_texts(bio: Option<&str>, intro: Option<&str>) -> (r: Result<(), AppError>)
    ensures
        !fits(bio, 3000) ==> (r matches Err(e) && validation_with(
            e,
            "Bio must be 3000 characters or less"@,
        )),
        fits(bio, 3000) && !fits(intro, 300) ==> (r matches Err(e) && validation_with(
            e,
            "Intro must be 300 characters or less"@,
        )),
        fits(bio, 3000) && fits(intro, 300) ==> r is Ok,
{
    if let Some(t) = bio {
        if !validate_bio(t) {
            return Err(AppError::Validation(String::from_str("Bio must be 3000 characters or less")));
        }
    }
    if let Some(t) = intro {
        if !validate_intro(t) {
            return Err(AppError::Validation(String::from_str("Intro must be 300 characters or less")));
        }
    }
    Ok(())
}

/// Checks an artist sign-up against the token it names and the passwords
/// given, in order: the token must exist and carry an email, must not have
/// expired, and its email must be valid; the password must equal its
/// confirmation and be strong.
pub fn check_sign_up(
    token_email: Option<&str>,
    expired: bool,
    email_valid: bool,
    password: &str,
    confirmation: &str,
) -> (r: Result<(), AppError>)
    ensures
        token_email is None ==> (r matches Err(e) && validation_with(e, "Invalid sign-up token"@)),
        token_email is Some && expired ==> (r matches Err(e) && validation_with(
            e,
            "Sign-up token has expired"@,
        )),
        token_email is Some && !expired && !email_valid ==> (r matches Err(e) && validation_with(
            e,
            "Invalid sign-up token"@,
        )),
        token_email is Some && !expired && email_valid && password@ != confirmation@ ==> (r matches Err(
            e,
        ) && validation_with(e, "Password and confirmation do not match"@)),
        token_email is Some && !expired && email_valid && password@ == confirmation@
            && !strong_password(password@) ==> (r matches Err(e) && validation_with(
            e,
            weak_password_message(),
        )),
        token_email is Some && !expired && email_valid && password@ == confirmation@
            && strong_password(password@) ==> r is Ok,
{
    if token_email.is_none() {
        return Err(AppError::Validation(String::from_str("Invalid sign-up token")));
    }
    if expired {
        return Err(AppError::Validation(String::from_str("Sign-up token has expired")));
    }
    if !email_valid {
        return Err(AppError::Validation(String::from_str("Invalid sign-up token")));
    }
    if !str_eq(password, confirmation) {
        return Err(AppError::Validation(String::from_str("Password and confirmation do not match")));
    }
    if !validate_password(password) {
        return Err(weak_password_error());
    }
    Ok(())
}

/// Checks a request for a sign-up token, in order: the email must be
/// valid (422 `Invalid email`), and must not belong to an artist account
/// (403 `Email already linked to Artist account`).
pub fn check_new_sign_up_trigger(email_valid: bool, is_artist: bool) -> (r: Result<(), AppError>)
    ensures
        !email_valid ==> (r matches Err(e) && validation_with(e, "Invalid email"@)),
        email_valid && is_artist ==> (r matches Err(AppError::Forbidden(m)) && m@
            == "Email already linked to Artist account"@),
        email_valid && !is_artist ==> r is Ok,
{
    if !email_valid {
        return Err(AppError::Validation(String::from_str("Invalid email")));
    }
    if is_artist {
        return Err(AppError::Forbidden(String::from_str("Email already linked to Artist account")));
    }
    Ok(())
}

/// Checks a password reset request: the email must be valid (422
/// `Invalid email`).
pub fn check_reset_request(email_valid: bool) -> (r: Result<(), AppError>)
    ensures
        !email_valid ==> (r matches Err(e) && validation_with(e, "Invalid email"@)),
        email_valid ==> r is Ok,
{
    if !email_valid {
        return Err(AppError::Validation(String::from_str("Invalid email")));
    }
    Ok(())
}

/// Refuses a sign-up for an email that already has an artist account.
pub fn refuse_existing_artist(exists: bool) -> (r: Result<(), AppError>)
    ensures
        exists ==> (r matches Err(AppError::Conflict(m)) && m@
            == "Email already linked to artist account"@),
        !exists ==> r is Ok,
{
    if exists {
        Err(AppError::Conflict(String::from_str("Email already linked to artist account")))
    } else {
        Ok(())
    }
}

/// Checks a new user account, in order: a valid email, a strong password,
/// and a non-empty sign-up token.
pub fn check_new_user(email_valid: bool, password: &str, token: Option<&str>) -> (r: Result<(), AppError>)
    ensures
        !email_valid ==> (r matches Err(e) && validation_with(e, "Invalid email address"@)),
        email_valid && !strong_password(password@) ==> (r matches Err(e) && validation_with(
            e,
            weak_password_message(),
        )),
        email_valid && strong_password(password@) && !(token matches Some(t) && t@.len() > 0) ==> (r matches Err(
            e,
        ) && validation_with(e, "Sign-up token is required"@)),
        email_valid && strong_password(password@) && (token matches Some(t) && t@.len() > 0) ==> r is Ok,
{
    if !email_valid {
        return Err(AppError::Validation(String::from_str("Invalid email address")));
    }
    if !validate_password(password) {
        return Err(weak_password_error());
    }
    match token {
        Some(t) => {
            if t.is_empty() {
                return Err(AppError::Validation(String::from_str("Sign-up token is required")));
            }
        },
        None => {
            return Err(AppError::Validation(String::from_str("Sign-up token is required")));
        },
    }
    Ok(())
}

/// Checks the passwords of a password reset, in order: the new password
/// must be strong and equal its confirmation.
pub fn check_reset_passwords(password: &str, confirmation: &str) -> (r: Result<(), AppError>)
    ensures
        !strong_password(password@) ==> (r matches Err(e) && validation_with(
            e,
            weak_password_message(),
        )),
        strong_password(password@) && password@ != confirmation@ ==> (r matches Err(e)
            && validation_with(e, "Passwords do not match"@)),
        strong_password(password@) && password@ == confirmation@ ==> r is Ok,
{
    if !validate_password(password) {
        return Err(weak_password_error());
    }
    if !str_eq(password, confirmation) {
        return Err(AppError::Validation(String::from_str("Passwords do not match")));
    }
    Ok(())
}

/// A stored reset token, as far as the reset decides on it.
#[derive(Debug, Clone, Copy, PartialEq, Eq, Structural)]
pub struct ResetTokenState {
    /// Whether the token has expired.
    pub expired: bool,
    /// The user the token resets, if it names one.
    pub user_id: Option<i32>,
}

/// The user whose password a reset token resets: a token that does not
/// exist or names no user is not found; an expired one is a bad request.
pub fn reset_token_user(token: Option<ResetTokenState>) -> (r: Result<i32, AppError>)
    ensures
        token is None ==> (r matches Err(e) && not_found_with(e, "Reset trigger not found"@)),
        token matches Some(t) && t.expired ==> (r matches Err(e) && bad_request_with(
            e,
            "Reset token has expired"@,
        )),
        token matches Some(t) && !t.expired && t.user_id is None ==> (r matches Err(e)
            && not_found_with(e, "Reset trigger has no associated user"@)),
        token is Some && !token.unwrap().expired && token.unwrap().user_id is Some ==> r == Ok::<
            i32,
            AppError,
        >(token.unwrap().user_id.unwrap()),
{
    match token {
        None => Err(AppError::NotFound(String::from_str("Reset trigger not found"))),
        Some(t) => {
            if t.expired {
                Err(AppError::BadRequest(String::from_str("Reset token has expired")))
            } else {
                match t.user_id {
                    Some(u) => Ok(u),
                    None => Err(AppError::NotFound(String::from_str("Reset trigger has no associated user"))),
                }
            }
        },
    }
}

/// What `bcrypt::verify(password, hash)` gives: whether `password` hashes to
/// `hash`, or the text of the error that `hash` could not be read with.
pub uninterp spec fn bcrypt_verify(password: Seq<char>, hash: Seq<char>) -> Result<bool, Seq<char>>;

/// Checks `password` against the bcrypt `hash` with `bcrypt::verify`.
#[verifier::external_body]
fn verify_bcrypt(password: &str, hash: &str) -> (r: Result<bool, String>)
    ensures
        match r {
            Ok(b) => bcrypt_verify(password@, hash@) == Ok::<bool, Seq<char>>(b),
            Err(m) => bcrypt_verify(password@, hash@) == Err::<bool, Seq<char>>(m@),
        },
{
    match bcrypt::verify(password, hash) {
        Ok(b) => Ok(b),
        Err(e) => Err(e.to_string()),
    }
}

/// Decides on a new password from whether it matches the current hash: a
/// hash that cannot be read is a hashing error, and a password that matches
/// is refused because it does not change anything.
pub fn unchanged_password_refusal(verified: Result<bool, String>) -> (r: Result<(), AppError>)
    ensures
        match verified {
            Err(m) => r matches Err(AppError::Bcrypt(t)) && t@ == m@,
            Ok(true) => r matches Err(e) && validation_with(
                e,
                "New password must be different from your current password"@,
            ),
            Ok(false) => r is Ok,
        },
{
    match verified {
        Err(m) => Err(AppError::Bcrypt(m)),
        Ok(true) => Err(
            AppError::Validation(String::from_str("New password must be different from your current password")),
        ),
        Ok(false) => Ok(()),
    }
}

/// Refuses a new password that equals the current one, whose bcrypt hash
/// is `current_hash`.
pub fn refuse_unchanged_password(password: &str, current_hash: &str) -> (r: Result<(), AppError>)
    ensures
        match bcrypt_verify(password@, current_hash@) {
            Err(m) => r matches Err(AppError::Bcrypt(t)) && t@ == m,
            Ok(true) => r matches Err(e) && validation_with(
                e,
                "New password must be different from your current password"@,
            ),
            Ok(false) => r is Ok,
        },
{
    unchanged_password_refusal(verify_bcrypt(password, current_hash))
}

} // verus!
