use kbr_api_rust::accounts::ResetTokenState;
use kbr_api_rust::auth::middleware::CurrentUser;
use kbr_api_rust::auth::roles::Role;
use kbr_api_rust::error::AppError;
use kbr_api_rust::policy::PlaylistUpdate;
use kbr_api_rust::requests::{
    check_add_to_playlist, check_artist_create, check_artist_sign_up,
    check_artist_subscription_request, check_artist_update, check_dashboard_add_news,
    check_dashboard_reorder, check_event_update, check_password_reset, check_playlist_update,
    check_present_attendees, check_upload, PlaylistAddition,
};
use kbr_api_rust::storage::FormField;

fn user(id: i64, role: Role) -> CurrentUser {
    CurrentUser { id, role, jti: "j".to_string(), token_version: 1 }
}

fn validation(m: &str) -> AppError {
    AppError::Validation(m.to_string())
}

fn forbidden() -> AppError {
    AppError::Forbidden("Not Authorized".to_string())
}

#[test]
fn playlist_checks_come_in_order() {
    let owner = user(5, Role::User);
    let other = user(6, Role::User);
    assert_eq!(
        check_playlist_update(None, 3, &other, None, None),
        Err(AppError::NotFound("Playlist #3".to_string()))
    );
    assert_eq!(check_playlist_update(Some(5), 3, &other, None, None), Err(forbidden()));
    assert_eq!(
        check_playlist_update(Some(5), 3, &owner, Some("n".to_string()), None),
        Ok(PlaylistUpdate::Name("n".to_string()))
    );
    assert_eq!(check_dashboard_add_news(Some(5), 3, &other, None, None), Err(forbidden()));
    assert_eq!(check_dashboard_add_news(Some(5), 3, &owner, None, None), Err(validation("news_id is required")));
    assert_eq!(check_dashboard_add_news(Some(5), 3, &owner, Some(8), Some(4)), Ok((8, 5)));
    assert_eq!(check_dashboard_add_news(Some(5), 3, &user(1, Role::Admin), Some(8), None), Ok((8, 0)));
    assert_eq!(check_dashboard_reorder(Some(5), 3, &owner, None), Err(validation("news_ids array is required")));
    assert_eq!(check_dashboard_reorder(Some(5), 3, &owner, Some(&[Some(9), None])), Ok(vec![(0, 9)]));
}

#[test]
fn feed_playlist_addition_checks() {
    let u = user(5, Role::Admin);
    assert_eq!(check_add_to_playlist(&u, None, None, false, None, false), Err(validation("news_id is required")));
    assert_eq!(check_add_to_playlist(&u, Some(1), None, false, None, false), Err(validation("playlist_id is required")));
    assert_eq!(
        check_add_to_playlist(&u, Some(1), Some(2), false, None, false),
        Err(AppError::NotFound("News #1".to_string()))
    );
    assert_eq!(
        check_add_to_playlist(&u, Some(1), Some(2), true, None, false),
        Err(AppError::NotFound("Playlist #2".to_string()))
    );
    assert_eq!(check_add_to_playlist(&u, Some(1), Some(2), true, Some(7), false), Err(forbidden()));
    assert_eq!(check_add_to_playlist(&u, Some(1), Some(2), true, Some(5), true), Ok((1, 2, PlaylistAddition::AlreadyThere)));
    assert_eq!(check_add_to_playlist(&u, Some(1), Some(2), true, Some(5), false), Ok((1, 2, PlaylistAddition::Add)));
}

#[test]
fn reset_and_sign_up_orders() {
    assert_eq!(
        check_password_reset("Password123", "Password124", None),
        Err(validation("Passwords do not match"))
    );
    assert_eq!(
        check_password_reset("Password123", "Password123", None),
        Err(AppError::NotFound("Reset trigger not found".to_string()))
    );
    assert_eq!(
        check_password_reset("Password123", "Password123", Some(ResetTokenState { expired: false, user_id: Some(4) })),
        Ok(4)
    );
    assert_eq!(
        check_artist_sign_up(Some("a@b.c"), false, true, "Password123", "Password123", true),
        Err(AppError::Conflict("Email already linked to artist account".to_string()))
    );
    assert_eq!(check_artist_sign_up(Some("a@b.c"), false, true, "Password123", "Password123", false), Ok(()));
    assert_eq!(
        check_artist_sign_up(Some("a@b.c"), true, true, "Password123", "Password123", true),
        Err(validation("Sign-up token has expired"))
    );
}

#[test]
fn artist_and_subscription_orders() {
    let long = "x".repeat(301);
    assert_eq!(check_artist_create(&user(1, Role::Artist), Some(&long), None), Err(forbidden()));
    assert_eq!(
        check_artist_create(&user(1, Role::Admin), Some(&long), None),
        Err(validation("Intro has to be 300 characters or less"))
    );
    assert_eq!(check_artist_update(&user(1, Role::Customer), None, None), Err(forbidden()));
    assert_eq!(
        check_artist_update(&user(1, Role::Artist), None, Some(&long)),
        Err(validation("Intro must be 300 characters or less"))
    );
    assert_eq!(
        check_artist_subscription_request(&user(1, Role::Admin), Some(3), true, true),
        Err(AppError::UnprocessableEntity("Email already subscribed to this artist".to_string()))
    );
    assert_eq!(check_artist_subscription_request(&user(1, Role::Admin), Some(3), true, false), Ok(3));
    assert_eq!(
        check_present_attendees(&user(1, Role::Artist), 4, true),
        Err(AppError::Forbidden("must be admin".to_string()))
    );
    assert_eq!(
        check_present_attendees(&user(1, Role::Admin), 4, false),
        Err(AppError::NotFound("Event #4".to_string()))
    );
    assert_eq!(check_present_attendees(&user(1, Role::Admin), 4, true), Ok(()));
}

#[test]
fn event_link_checks() {
    let a = user(1, Role::Artist);
    assert_eq!(check_event_update(&user(1, Role::User), None, false, None, false), Err(forbidden()));
    assert_eq!(
        check_event_update(&a, Some("https://t"), true, Some("ftp://x"), false),
        Err(AppError::UnprocessableEntity("The URL provided is flagged as potentially malicious".to_string()))
    );
    assert_eq!(
        check_event_update(&a, Some("https://t"), false, Some("ftp://x"), false),
        Err(validation("Invalid URL format: ftp://x. Must start with http:// or https://"))
    );
    assert_eq!(check_event_update(&a, Some("https://t"), false, None, true), Ok(()));
}

fn text(name: &str, value: &str) -> FormField {
    FormField { name: Some(name.to_string()), data: value.as_bytes().to_vec(), content_type: None, filename: None }
}

#[test]
fn upload_checks_in_order() {
    let a = user(1, Role::Artist);
    assert_eq!(
        check_upload(&user(1, Role::Customer), vec![]).unwrap_err(),
        (forbidden()));
    assert_eq!(
        check_upload(&a, vec![]).unwrap_err(),
        (validation("record_type is required")));
    let big = FormField { name: Some("name".to_string()), data: vec![b'a'; 10485761], content_type: None, filename: None };
    assert_eq!(
        check_upload(&a, vec![text("record_id", "x"), big.clone()]).unwrap_err(),
        (validation("record_id must be an integer"))
    );
    assert_eq!(
        check_upload(&a, vec![text("record_type", "Artist"), big]).unwrap_err(),
        (AppError::Storage("Failed to read field: size limit exceeded while collecting field data".to_string()))
    );
    let file = FormField {
        name: Some("file".to_string()),
        data: vec![1, 2, 3],
        content_type: Some("image/png".to_string()),
        filename: Some("a.png".to_string()),
    };
    let q = check_upload(&a, vec![text("record_type", "Artist"), text("record_id", " 7 "), text("name", "images"), file]).unwrap();
    assert_eq!(q.record_type, "Artist");
    assert_eq!(q.record_id, 7);
    assert_eq!(q.file.filename, "a.png");
}
