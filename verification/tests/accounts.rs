use kbr_api_rust::accounts::check_new_sign_up_trigger;
use kbr_api_rust::accounts::check_reset_request;
use kbr_api_rust::accounts::{
    check_artist_update_texts, check_new_artist_texts, check_new_user, check_reset_passwords,
    check_sign_up, refuse_existing_artist, refuse_unchanged_password, reset_token_user,
    unchanged_password_refusal, validate_bio, validate_intro, validate_password,
    ResetTokenState,
};
use kbr_api_rust::error::AppError;

const WEAK: &str = "Password must be at least 8 characters with uppercase, lowercase, and a digit";

fn validation(m: &str) -> AppError {
    AppError::Validation(m.to_string())
}

#[test]
fn password_strength_rules() {
    assert!(validate_password("Password123"));
    assert!(validate_password("aB3xxxxx"));
    assert!(!validate_password("aB3xxxx"));
    assert!(!validate_password("password123"));
    assert!(!validate_password("PASSWORD123"));
    assert!(!validate_password("Passwordabc"));
    assert!(!validate_password(""));
}

#[test]
fn artist_text_limits() {
    let intro_ok = "a".repeat(300);
    let intro_long = "a".repeat(301);
    let bio_ok = "é".repeat(3000);
    let bio_long = "b".repeat(3001);
    assert!(validate_intro(&intro_ok));
    assert!(!validate_intro(&intro_long));
    assert!(validate_bio(&bio_ok));
    assert!(!validate_bio(&bio_long));
    assert_eq!(check_new_artist_texts(None, None), Ok(()));
    assert_eq!(
        check_new_artist_texts(Some(&intro_long), Some(&bio_long)),
        Err(validation("Intro has to be 300 characters or less"))
    );
    assert_eq!(
        check_new_artist_texts(Some(&intro_ok), Some(&bio_long)),
        Err(validation("Bio has to be 3000 characters or less"))
    );
    assert_eq!(
        check_artist_update_texts(Some(&bio_long), Some(&intro_long)),
        Err(validation("Bio must be 3000 characters or less"))
    );
    assert_eq!(
        check_artist_update_texts(Some(&bio_ok), Some(&intro_long)),
        Err(validation("Intro must be 300 characters or less"))
    );
    assert_eq!(check_artist_update_texts(Some(&bio_ok), Some(&intro_ok)), Ok(()));
}

#[test]
fn sign_up_checks_in_order() {
    let ok = "Password123";
    assert_eq!(check_sign_up(None, true, false, ok, ok), Err(validation("Invalid sign-up token")));
    assert_eq!(
        check_sign_up(Some("a@b.com"), true, false, ok, ok),
        Err(validation("Sign-up token has expired"))
    );
    assert_eq!(check_sign_up(Some("bad"), false, false, ok, ok), Err(validation("Invalid sign-up token")));
    assert_eq!(
        check_sign_up(Some("a@b.com"), false, true, ok, "Password124"),
        Err(validation("Password and confirmation do not match"))
    );
    assert_eq!(check_sign_up(Some("a@b.com"), false, true, "short", "short"), Err(validation(WEAK)));
    assert_eq!(check_sign_up(Some("a@b.com"), false, true, ok, ok), Ok(()));
    assert_eq!(
        refuse_existing_artist(true),
        Err(AppError::Conflict("Email already linked to artist account".to_string()))
    );
    assert_eq!(refuse_existing_artist(false), Ok(()));
}

#[test]
fn new_user_checks_in_order() {
    assert_eq!(check_new_user(false, "weak", None), Err(validation("Invalid email address")));
    assert_eq!(check_new_user(true, "weak", None), Err(validation(WEAK)));
    assert_eq!(check_new_user(true, "Password123", None), Err(validation("Sign-up token is required")));
    assert_eq!(check_new_user(true, "Password123", Some("")), Err(validation("Sign-up token is required")));
    assert_eq!(check_new_user(true, "Password123", Some("tok")), Ok(()));
}

#[test]
fn reset_checks() {
    assert_eq!(check_reset_passwords("short", "other"), Err(validation(WEAK)));
    assert_eq!(check_reset_passwords("Password123", "Password124"), Err(validation("Passwords do not match")));
    assert_eq!(check_reset_passwords("Password123", "Password123"), Ok(()));
    assert_eq!(reset_token_user(None), Err(AppError::NotFound("Reset trigger not found".to_string())));
    assert_eq!(
        reset_token_user(Some(ResetTokenState { expired: true, user_id: Some(3) })),
        Err(AppError::BadRequest("Reset token has expired".to_string()))
    );
    assert_eq!(
        reset_token_user(Some(ResetTokenState { expired: false, user_id: None })),
        Err(AppError::NotFound("Reset trigger has no associated user".to_string()))
    );
    assert_eq!(reset_token_user(Some(ResetTokenState { expired: false, user_id: Some(3) })), Ok(3));
}

#[test]
fn unchanged_password_is_refused() {
    let hash = bcrypt::hash("oldpassword", 4).unwrap();
    assert_eq!(
        refuse_unchanged_password("oldpassword", &hash),
        Err(validation("New password must be different from your current password"))
    );
    assert_eq!(refuse_unchanged_password("NewPassword1", &hash), Ok(()));
    assert!(matches!(refuse_unchanged_password("x", "not a hash"), Err(AppError::Bcrypt(_))));
    assert_eq!(unchanged_password_refusal(Ok(false)), Ok(()));
    assert_eq!(
        unchanged_password_refusal(Err("invalid hash".to_string())),
        Err(AppError::Bcrypt("invalid hash".to_string()))
    );
}

#[test]
fn sign_up_trigger_request_checks() {
    assert_eq!(check_new_sign_up_trigger(false, true), Err(validation("Invalid email")));
    assert_eq!(
        check_new_sign_up_trigger(true, true),
        Err(AppError::Forbidden("Email already linked to Artist account".to_string()))
    );
    assert_eq!(check_new_sign_up_trigger(true, false), Ok(()));
}

#[test]
fn reset_request_checks() {
    assert_eq!(check_reset_request(false), Err(validation("Invalid email")));
    assert_eq!(check_reset_request(true), Ok(()));
}
