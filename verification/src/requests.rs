//! The checks each request goes through, in the order its handler makes
//! them. What the handler reads from the database in between is taken as
//! an argument; the handler stops at the first refusal.

use vstd::prelude::*;
use vstd::string::*;

use crate::accounts::{
    check_artist_update_texts, check_new_artist_texts, check_reset_passwords, check_sign_up, fits,
    refuse_existing_artist, reset_token_user, strong_password, weak_password_message,
    ResetTokenState,
};
use crate::auth::middleware::CurrentUser;
use crate::storage::{
    apply_field, field_refusal, finish_form, form_after, form_refusal, over_read_limit,
    read_limit_message, FormField, FormView, UploadForm, UploadRequest,
};
use crate::auth::permissions::{spec_is_admin, spec_is_artist_or_above};
use crate::error::{bad_request_with, forbidden_with, not_found_with, validation_with, AppError};
use crate::policy::{
    check_artist_subscription, check_event_url, may_act_on, refuse_malicious_url, web_url, next_position, not_found, plan_playlist_update,
    plan_reorder_request, record_label, reorder_of, require_admin, require_artist_or_above,
    require_owner_or_admin, require_playlist_owner, required_body_id, PlaylistUpdate,
};

verus! {

/// Checks access to a playlist on the dashboard, given its owner as read
/// (`None` when it does not exist): a missing playlist is not found
/// (`Playlist #<id>`), and only its owner or an administrator may go on.
pub fn check_playlist_access(playlist_owner: Option<i64>, playlist_id: i64, user: &CurrentUser) -> (r:
    Result<(), AppError>)
    ensures
        playlist_owner is None ==> (r matches Err(e) && not_found_with(
            e,
            record_label("Playlist"@, playlist_id),
        )),
        playlist_owner matches Some(o) && !may_act_on(*user, o) ==> (r matches Err(e)
            && forbidden_with(e, "Not Authorized"@)),
        playlist_owner matches Some(o) && may_act_on(*user, o) ==> r is Ok,
{
    match playlist_owner {
        None => Err(not_found("Playlist", playlist_id)),
        Some(o) => require_owner_or_admin(user, o),
    }
}

/// The checks of a dashboard playlist update, then what it writes.
pub fn check_playlist_update(
    playlist_owner: Option<i64>,
    playlist_id: i64,
    user: &CurrentUser,
    name: Option<String>,
    description: Option<String>,
) -> (r: Result<PlaylistUpdate, AppError>)
    ensures
        playlist_owner is None ==> (r matches Err(e) && not_found_with(
            e,
            record_label("Playlist"@, playlist_id),
        )),
        playlist_owner matches Some(o) && !may_act_on(*user, o) ==> (r matches Err(e)
            && forbidden_with(e, "Not Authorized"@)),
        playlist_owner matches Some(o) && may_act_on(*user, o) ==> r == Ok::<PlaylistUpdate, AppError>(
            match (name, description) {
                (None, None) => PlaylistUpdate::Unchanged,
                (Some(n), None) => PlaylistUpdate::Name(n),
                (None, Some(d)) => PlaylistUpdate::Description(d),
                (Some(n), Some(d)) => PlaylistUpdate::NameAndDescription(n, d),
            },
        ),
{
    check_playlist_access(playlist_owner, playlist_id, user)?;
    Ok(plan_playlist_update(name, description))
}

/// The checks of adding news to a dashboard playlist, in order: the
/// playlist, the user's right to it, and the `news_id` (a validation error
/// when missing); then the news item and the position it takes, one past
/// the highest in use (`max_position`, read after the checks).
pub fn check_dashboard_add_news(
    playlist_owner: Option<i64>,
    playlist_id: i64,
    user: &CurrentUser,
    news_id: Option<i64>,
    max_position: Option<i32>,
) -> (r: Result<(i64, i32), AppError>)
    requires
        max_position != Some(i32::MAX),
    ensures
        playlist_owner is None ==> (r matches Err(e) && not_found_with(
            e,
            record_label("Playlist"@, playlist_id),
        )),
        playlist_owner matches Some(o) && !may_act_on(*user, o) ==> (r matches Err(e)
            && forbidden_with(e, "Not Authorized"@)),
        playlist_owner matches Some(o) && may_act_on(*user, o) && news_id is None ==> (r matches Err(
            e,
        ) && validation_with(e, "news_id is required"@)),
        playlist_owner matches Some(o) && may_act_on(*user, o) && news_id is Some ==> r
            == Ok::<(i64, i32), AppError>(
            (
                news_id.unwrap(),
                match max_position {
                    None => 0i32,
                    Some(p) => (p + 1) as i32,
                },
            ),
        ),
{
    proof {
        reveal_strlit("news_id");
        reveal_strlit(" is required");
        reveal_strlit("news_id is required");
        assert("news_id"@ + " is required"@ =~= "news_id is required"@);
    }
    check_playlist_access(playlist_owner, playlist_id, user)?;
    let n = required_body_id(news_id, "news_id")?;
    Ok((n, next_position(max_position)))
}

/// The checks of a dashboard playlist reorder, then the positions it
/// writes.
pub fn check_dashboard_reorder(
    playlist_owner: Option<i64>,
    playlist_id: i64,
    user: &CurrentUser,
    news_ids: Option<&[Option<i64>]>,
) -> (r: Result<Vec<(i32, i64)>, AppError>)
    ensures
        playlist_owner is None ==> (r matches Err(e) && not_found_with(
            e,
            record_label("Playlist"@, playlist_id),
        )),
        playlist_owner matches Some(o) && !may_act_on(*user, o) ==> (r matches Err(e)
            && forbidden_with(e, "Not Authorized"@)),
        playlist_owner matches Some(o) && may_act_on(*user, o) ==> match news_ids {
            None => r matches Err(e) && validation_with(e, "news_ids array is required"@),
            Some(items) => r matches Ok(v) && v@ == reorder_of(items@),
        },
{
    check_playlist_access(playlist_owner, playlist_id, user)?;
    plan_reorder_request(news_ids)
}

/// What adding news to a user's playlist from the news feed does.
#[derive(Debug, Clone, Copy, PartialEq, Eq, Structural)]
pub enum PlaylistAddition {
    /// The news item is in the playlist already: nothing is written.
    AlreadyThere,
    /// The news item is added.
    Add,
}

/// The checks of adding news to a playlist from the news feed, in order:
/// `news_id`, then `playlist_id` (each a validation error when missing);
/// the news item must exist, then the playlist (`News #<n>`,
/// `Playlist #<p>`); the playlist must be the user's own. Gives the ids and
/// whether the news item is there already (read last).
pub fn check_add_to_playlist(
    user: &CurrentUser,
    news_id: Option<i64>,
    playlist_id: Option<i64>,
    news_exists: bool,
    playlist_owner: Option<i64>,
    already: bool,
) -> (r: Result<(i64, i64, PlaylistAddition), AppError>)
    ensures
        news_id is None ==> (r matches Err(e) && validation_with(e, "news_id is required"@)),
        news_id is Some && playlist_id is None ==> (r matches Err(e) && validation_with(
            e,
            "playlist_id is required"@,
        )),
        news_id is Some && playlist_id is Some && !news_exists ==> (r matches Err(e)
            && not_found_with(e, record_label("News"@, news_id.unwrap()))),
        news_id is Some && playlist_id is Some && news_exists && playlist_owner is None ==> (r matches Err(
            e,
        ) && not_found_with(e, record_label("Playlist"@, playlist_id.unwrap()))),
        news_id is Some && playlist_id is Some && news_exists && playlist_owner is Some
            && playlist_owner.unwrap() != user.id ==> (r matches Err(e) && forbidden_with(
            e,
            "Not Authorized"@,
        )),
        news_id is Some && playlist_id is Some && news_exists && playlist_owner == Some(user.id) ==> r
            == Ok::<(i64, i64, PlaylistAddition), AppError>(
            (
                news_id.unwrap(),
                playlist_id.unwrap(),
                if already {
                    PlaylistAddition::AlreadyThere
                } else {
                    PlaylistAddition::Add
                },
            ),
        ),
{
    proof {
        reveal_strlit("news_id");
        reveal_strlit("playlist_id");
        reveal_strlit(" is required");
        reveal_strlit("news_id is required");
        reveal_strlit("playlist_id is required");
        assert("news_id"@ + " is required"@ =~= "news_id is required"@);
        assert("playlist_id"@ + " is required"@ =~= "playlist_id is required"@);
    }
    let n = required_body_id(news_id, "news_id")?;
    let p = required_body_id(playlist_id, "playlist_id")?;
    if !news_exists {
        return Err(not_found("News", n));
    }
    let o = match playlist_owner {
        Some(o) => o,
        None => return Err(not_found("Playlist", p)),
    };
    require_playlist_owner(user, o)?;
    Ok((n, p, if already { PlaylistAddition::AlreadyThere } else { PlaylistAddition::Add }))
}

/// The checks of a password reset, in order: the new password must be
/// strong and equal its confirmation; then the token read under the path
/// must exist, be current and name a user. Gives that user.
pub fn check_password_reset(password: &str, confirmation: &str, token: Option<ResetTokenState>) -> (r:
    Result<i32, AppError>)
    ensures
        !strong_password(password@) ==> (r matches Err(e) && validation_with(
            e,
            weak_password_message(),
        )),
        strong_password(password@) && password@ != confirmation@ ==> (r matches Err(e)
            && validation_with(e, "Passwords do not match"@)),
        strong_password(password@) && password@ == confirmation@ && token is None ==> (r matches Err(
            e,
        ) && not_found_with(e, "Reset trigger not found"@)),
        strong_password(password@) && password@ == confirmation@ && token is Some
            && token.unwrap().expired ==> (r matches Err(e) && bad_request_with(
            e,
            "Reset token has expired"@,
        )),
        strong_password(password@) && password@ == confirmation@ && token is Some
            && !token.unwrap().expired && token.unwrap().user_id is None ==> (r matches Err(e)
            && not_found_with(e, "Reset trigger has no associated user"@)),
        strong_password(password@) && password@ == confirmation@ && token is Some
            && !token.unwrap().expired && token.unwrap().user_id is Some ==> r == Ok::<i32, AppError>(
            token.unwrap().user_id.unwrap(),
        ),
{
    check_reset_passwords(password, confirmation)?;
    reset_token_user(token)
}

/// The checks of an artist sign-up, in order: those of [`check_sign_up`],
/// then whether the token's email has an artist account already (read
/// last).
pub fn check_artist_sign_up(
    token_email: Option<&str>,
    expired: bool,
    email_valid: bool,
    password: &str,
    confirmation: &str,
    artist_exists: bool,
) -> (r: Result<(), AppError>)
    ensures
        token_email is None ==> (r matches Err(e) && validation_with(e, "Invalid sign-up token"@)),
        token_email is Some && expired ==> (r matches Err(e) && validation_with(
            e,
            "Sign-up token has expired"@,
        )),
        token_email is Some && !expired && !email_valid ==> (r matches Err(e) && validation_with(
            e,
            "Invalid sign-up token"@,
        )),
        token_email is Some && !expired && email_valid && password@ != confirmation@ ==> (r matches Err(
            e,
        ) && validation_with(e, "Password and confirmation do not match"@)),
        token_email is Some && !expired && email_valid && password@ == confirmation@
            && !strong_password(password@) ==> (r matches Err(e) && validation_with(
            e,
            weak_password_message(),
        )),
        token_email is Some && !expired && email_valid && password@ == confirmation@
            && strong_password(password@) && artist_exists ==> (r matches Err(AppError::Conflict(m))
            && m@ == "Email already linked to artist account"@),
        token_email is Some && !expired && email_valid && password@ == confirmation@
            && strong_password(password@) && !artist_exists ==> r is Ok,
{
    check_sign_up(token_email, expired, email_valid, password, confirmation)?;
    refuse_existing_artist(artist_exists)
}

/// The checks of creating an artist, in order: an administrator only, then
/// the intro and the bio.
pub fn check_artist_create(user: &CurrentUser, intro: Option<&str>, bio: Option<&str>) -> (r: Result<
    (),
    AppError,
>)
    ensures
        !spec_is_admin(user.role) ==> (r matches Err(e) && forbidden_with(e, "Not Authorized"@)),
        spec_is_admin(user.role) && !fits(intro, 300) ==> (r matches Err(e) && validation_with(
            e,
            "Intro has to be 300 characters or less"@,
        )),
        spec_is_admin(user.role) && fits(intro, 300) && !fits(bio, 3000) ==> (r matches Err(e)
            && validation_with(e, "Bio has to be 3000 characters or less"@)),
        spec_is_admin(user.role) && fits(intro, 300) && fits(bio, 3000) ==> r is Ok,
{
    require_admin(user, "Not Authorized")?;
    check_new_artist_texts(intro, bio)
}

/// The checks of updating an artist, in order: an artist or an
/// administrator only, then the bio and the intro.
pub fn check_artist_update(user: &CurrentUser, bio: Option<&str>, intro: Option<&str>) -> (r: Result<
    (),
    AppError,
>)
    ensures
        !spec_is_artist_or_above(user.role) ==> (r matches Err(e) && forbidden_with(
            e,
            "Not Authorized"@,
        )),
        spec_is_artist_or_above(user.role) && !fits(bio, 3000) ==> (r matches Err(e)
            && validation_with(e, "Bio must be 3000 characters or less"@)),
        spec_is_artist_or_above(user.role) && fits(bio, 3000) && !fits(intro, 300) ==> (r matches Err(
            e,
        ) && validation_with(e, "Intro must be 300 characters or less"@)),
        spec_is_artist_or_above(user.role) && fits(bio, 3000) && fits(intro, 300) ==> r is Ok,
{
    require_artist_or_above(user)?;
    check_artist_update_texts(bio, intro)
}

/// The checks of an administrator's subscription to an artist's mailing
/// list, in order: those of [`check_artist_subscription`], then whether
/// the email is subscribed to that artist already (read last). Gives the
/// artist's id.
pub fn check_artist_subscription_request(
    user: &CurrentUser,
    artist_id: Option<i64>,
    email_valid: bool,
    already_subscribed: bool,
) -> (r: Result<i64, AppError>)
    ensures
        !spec_is_admin(user.role) ==> (r matches Err(e) && forbidden_with(e, "Not Authorized"@)),
        spec_is_admin(user.role) && artist_id is None ==> (r matches Err(e) && bad_request_with(
            e,
            "artist_id is required"@,
        )),
        spec_is_admin(user.role) && artist_id is Some && !email_valid ==> (r matches Err(e)
            && validation_with(e, "Invalid email"@)),
        spec_is_admin(user.role) && artist_id is Some && email_valid && already_subscribed ==> (r matches Err(
            AppError::UnprocessableEntity(m),
        ) && m@ == "Email already subscribed to this artist"@),
        spec_is_admin(user.role) && artist_id is Some && email_valid && !already_subscribed ==> r
            == Ok::<i64, AppError>(artist_id.unwrap()),
{
    let id = check_artist_subscription(user, artist_id, email_valid)?;
    if already_subscribed {
        return Err(AppError::UnprocessableEntity(String::from_str("Email already subscribed to this artist")));
    }
    Ok(id)
}

/// The checks of listing an event's present attendees, in order: an
/// administrator only (`must be admin`), then the event must exist
/// (`Event #<id>`).
pub fn check_present_attendees(user: &CurrentUser, event_id: i64, event_exists: bool) -> (r: Result<
    (),
    AppError,
>)
    ensures
        !spec_is_admin(user.role) ==> (r matches Err(e) && forbidden_with(e, "must be admin"@)),
        spec_is_admin(user.role) && !event_exists ==> (r matches Err(e) && not_found_with(
            e,
            record_label("Event"@, event_id),
        )),
        spec_is_admin(user.role) && event_exists ==> r is Ok,
{
    require_admin(user, "must be admin")?;
    if !event_exists {
        return Err(not_found("Event", event_id));
    }
    Ok(())
}

/// Whether a field of the upload form is taken.
pub open spec fn field_accepted(f: FormField) -> bool {
    !over_read_limit(f) && field_refusal(f) is None
}

/// The form after reading `fields` in order, from `form`.
pub open spec fn forms_after(form: FormView, fields: Seq<FormField>) -> FormView
    decreases fields.len(),
{
    if fields.len() == 0 {
        form
    } else {
        form_after(forms_after(form, fields.drop_last()), fields.last())
    }
}

/// The position of the first field that is refused, or the number of
/// fields when all are taken.
pub open spec fn first_refused(fields: Seq<FormField>) -> int
    decreases fields.len(),
{
    if fields.len() == 0 {
        0
    } else if first_refused(fields.drop_last()) < fields.len() - 1 {
        first_refused(fields.drop_last())
    } else if field_accepted(fields.last()) {
        fields.len() as int
    } else {
        fields.len() - 1
    }
}

/// The empty upload form.
pub open spec fn empty_form() -> FormView {
    FormView { record_type: None, record_id: None, attachment_name: None, file: None }
}

proof fn lemma_first_refused_bounds(fields: Seq<FormField>)
    ensures
        0 <= first_refused(fields) <= fields.len(),
        first_refused(fields) < fields.len() ==> !field_accepted(fields[first_refused(fields)]),
    decreases fields.len(),
{
    if fields.len() > 0 {
        lemma_first_refused_bounds(fields.drop_last());
        if first_refused(fields.drop_last()) < fields.len() - 1 {
            assert(fields.drop_last()[first_refused(fields.drop_last())] == fields[first_refused(
                fields.drop_last(),
            )]);
        }
    }
}

proof fn lemma_first_refused_prefix(fields: Seq<FormField>, i: int)
    requires
        0 <= i < fields.len(),
        first_refused(fields.take(i)) == i,
    ensures
        first_refused(fields.take(i + 1)) == (if field_accepted(fields[i]) { i + 1 } else { i }),
        !field_accepted(fields[i]) ==> first_refused(fields) == i,
    decreases fields.len() - i,
{
    assert(fields.take(i + 1).drop_last() =~= fields.take(i));
    if !field_accepted(fields[i]) {
        lemma_first_refused_stays(fields, i + 1, i);
    }
}

proof fn lemma_first_refused_stays(fields: Seq<FormField>, k: int, j: int)
    requires
        0 <= j < k <= fields.len(),
        first_refused(fields.take(k)) == j,
    ensures
        first_refused(fields) == j,
    decreases fields.len() - k,
{
    if k == fields.len() {
        assert(fields.take(k) =~= fields);
    } else {
        assert(fields.take(k + 1).drop_last() =~= fields.take(k));
        assert(first_refused(fields.take(k + 1)) == j);
        lemma_first_refused_stays(fields, k + 1, j);
    }
}

/// The checks of an image upload, in order: an artist or an administrator
/// only; then each field as it is read, the first refused one ending the
/// request; then every part of the form must have been given.
pub fn check_upload(user: &CurrentUser, fields: Vec<FormField>) -> (r: Result<UploadRequest, AppError>)
    ensures
        !spec_is_artist_or_above(user.role) ==> (r matches Err(e) && forbidden_with(
            e,
            "Not Authorized"@,
        )),
        spec_is_artist_or_above(user.role) && first_refused(fields@) < fields@.len() ==> ({
            let f = fields@[first_refused(fields@)];
            if over_read_limit(f) {
                r matches Err(AppError::Storage(x)) && x@ == read_limit_message()
            } else {
                r matches Err(AppError::Validation(x)) && Some(x@) == field_refusal(f)
            }
        }),
        spec_is_artist_or_above(user.role) && first_refused(fields@) == fields@.len() ==> ({
            let v = forms_after(empty_form(), fields@);
            match form_refusal(v) {
                Some(m) => r matches Err(AppError::Validation(x)) && x@ == m,
                None => r matches Ok(q) && Some(q.record_type@) == v.record_type && Some(q.record_id)
                    == v.record_id && Some(q.attachment_name@) == v.attachment_name && Some(
                    (q.file.data@, q.file.filename@, q.file.content_type@),
                ) == v.file,
            }
        }),
{
    require_artist_or_above(user)?;
    let ghost all = fields@;
    let mut form = UploadForm::new();
    proof {
        lemma_first_refused_bounds(all);
        assert(all.take(0) =~= Seq::<FormField>::empty());
        assert(form@ == empty_form());
    }
    for field in it: fields.into_iter()
        invariant
            it.seq() == all,
            spec_is_artist_or_above(user.role),
            0 <= it.index() <= all.len(),
            first_refused(all.take(it.index() as int)) == it.index(),
            form@ == forms_after(empty_form(), all.take(it.index() as int)),
    {
        let ghost i = it.index() as int;
        assert(all[i] == field);
        proof {
            lemma_first_refused_prefix(all, i);
            assert(all.take(i + 1).drop_last() =~= all.take(i));
            assert(all.take(i + 1).last() == all[i]);
        }
        form = apply_field(form, field)?;
    }
    proof {
        assert(all.take(all.len() as int) =~= all);
    }
    finish_form(form)
}

/// Whether an event link, if given, is refused: not a web address, or
/// flagged by the malware check.
pub open spec fn link_refused(url: Option<&str>, flagged: bool) -> bool {
    url matches Some(u) && (!web_url(u@) || flagged)
}

/// The refusal of an event link that is refused: its format first, then
/// the malware check.
pub open spec fn link_refusal_is(url: Option<&str>, flagged: bool, e: AppError) -> bool {
    url matches Some(u) && if !web_url(u@) {
        validation_with(e, "Invalid URL format: "@ + u@ + ". Must start with http:// or https://"@)
    } else {
        e matches AppError::UnprocessableEntity(m) && m@
            == "The URL provided is flagged as potentially malicious"@
    }
}

fn check_event_link(url: Option<&str>, flagged: bool) -> (r: Result<(), AppError>)
    ensures
        !link_refused(url, flagged) ==> r is Ok,
        link_refused(url, flagged) ==> (r matches Err(e) && link_refusal_is(url, flagged, e)),
{
    match url {
        None => Ok(()),
        Some(u) => {
            check_event_url(u)?;
            refuse_malicious_url(flagged, "The URL provided is flagged as potentially malicious")
        },
    }
}

/// The checks of an event update, in order: an artist or an administrator
/// only; then the ticket link and the external link, each checked for its
/// format and then by the malware check (`ticket_flagged` and
/// `external_flagged` are that check's answers, false when it is not
/// configured).
pub fn check_event_update(
    user: &CurrentUser,
    ticket_url: Option<&str>,
    ticket_flagged: bool,
    external_url: Option<&str>,
    external_flagged: bool,
) -> (r: Result<(), AppError>)
    ensures
        !spec_is_artist_or_above(user.role) ==> (r matches Err(e) && forbidden_with(
            e,
            "Not Authorized"@,
        )),
        spec_is_artist_or_above(user.role) && link_refused(ticket_url, ticket_flagged) ==> (r matches Err(
            e,
        ) && link_refusal_is(ticket_url, ticket_flagged, e)),
        spec_is_artist_or_above(user.role) && !link_refused(ticket_url, ticket_flagged)
            && link_refused(external_url, external_flagged) ==> (r matches Err(e) && link_refusal_is(
            external_url,
            external_flagged,
            e,
        )),
        spec_is_artist_or_above(user.role) && !link_refused(ticket_url, ticket_flagged)
            && !link_refused(external_url, external_flagged) ==> r is Ok,
{
    require_artist_or_above(user)?;
    check_event_link(ticket_url, ticket_flagged)?;
    check_event_link(external_url, external_flagged)
}

} // verus!
