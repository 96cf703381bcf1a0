//! The decisions the request handlers make between their database calls:
//! who may do what, which rows a listing covers, how request parameters are
//! read, and what an update changes.

use chrono::Datelike;
use rand::Rng;
use vstd::prelude::*;
use vstd::string::*;

use crate::auth::middleware::CurrentUser;
use crate::auth::roles::Role;
use crate::auth::permissions::{is_customer_or_above, spec_is_admin, spec_is_artist_or_above, spec_is_customer_or_above};
use crate::error::{bad_request_with, forbidden_with, not_found_with, validation_with, AppError};
use crate::text::{is_prefix, starts_with, str_concat, str_concat3, i64_to_string, parse_i32, parse_i32_spec, parse_i64, parse_i64_spec, signed_decimal};

verus! {

/// Refuses users who do not administer the site, with `message`.
pub fn require_admin(user: &CurrentUser, message: &str) -> (r: Result<(), AppError>)
    ensures
        spec_is_admin(user.role) ==> r is Ok,
        !spec_is_admin(user.role) ==> (r matches Err(e) && forbidden_with(e, message@)),
{
    if user.is_admin() {
        Ok(())
    } else {
        Err(AppError::Forbidden(String::from_str(message)))
    }
}

/// Refuses users below the artist tier, with `Not Authorized`.
pub fn require_artist_or_above(user: &CurrentUser) -> (r: Result<(), AppError>)
    ensures
        spec_is_artist_or_above(user.role) ==> r is Ok,
        !spec_is_artist_or_above(user.role) ==> (r matches Err(e) && forbidden_with(
            e,
            "Not Authorized"@,
        )),
{
    if user.is_artist_or_above() {
        Ok(())
    } else {
        Err(AppError::Forbidden(String::from_str("Not Authorized")))
    }
}

/// Refuses staff, the only role below the customer tier, with
/// `Not Authorized`.
pub fn require_customer_or_above(user: &CurrentUser) -> (r: Result<(), AppError>)
    ensures
        spec_is_customer_or_above(user.role) ==> r is Ok,
        !spec_is_customer_or_above(user.role) ==> (r matches Err(e) && forbidden_with(
            e,
            "Not Authorized"@,
        )),
{
    if is_customer_or_above(&user.role) {
        Ok(())
    } else {
        Err(AppError::Forbidden(String::from_str("Not Authorized")))
    }
}

/// Checks a subscription that an administrator makes for an artist's
/// mailing list, in order: the user must administer the site, the artist
/// must be given, and the email must be valid. Gives the artist's id.
pub fn check_artist_subscription(user: &CurrentUser, artist_id: Option<i64>, email_valid: bool) -> (r:
    Result<i64, AppError>)
    ensures
        !spec_is_admin(user.role) ==> (r matches Err(e) && forbidden_with(e, "Not Authorized"@)),
        spec_is_admin(user.role) && artist_id is None ==> (r matches Err(e) && bad_request_with(
            e,
            "artist_id is required"@,
        )),
        spec_is_admin(user.role) && artist_id is Some && !email_valid ==> (r matches Err(e)
            && validation_with(e, "Invalid email"@)),
        spec_is_admin(user.role) && artist_id is Some && email_valid ==> r == Ok::<i64, AppError>(
            artist_id.unwrap(),
        ),
{
    if !user.is_admin() {
        return Err(AppError::Forbidden(String::from_str("Not Authorized")));
    }
    let id = match artist_id {
        Some(id) => id,
        None => return Err(AppError::BadRequest(String::from_str("artist_id is required"))),
    };
    if !email_valid {
        return Err(AppError::Validation(String::from_str("Invalid email")));
    }
    Ok(id)
}

/// Whether `user` may act on a record owned by `owner_id`: its owner, or an
/// administrator.
pub open spec fn may_act_on(user: CurrentUser, owner_id: i64) -> bool {
    user.id == owner_id || spec_is_admin(user.role)
}

/// Who may act on a record: its owner, and any administrator, `admin` or
/// `super_admin`, whoever owns the record; nobody else.
pub proof fn lemma_owner_or_admin_may_act(user: CurrentUser, owner_id: i64)
    ensures
        may_act_on(user, owner_id) <==> (user.id == owner_id || user.role == Role::Admin
            || user.role == Role::SuperAdmin),
        (user.role == Role::Admin || user.role == Role::SuperAdmin) ==> may_act_on(user, owner_id),
{
}

/// Refuses users who neither own the record (or are the account, for user
/// records) nor administer the site, with `Not Authorized`.
pub fn require_owner_or_admin(user: &CurrentUser, owner_id: i64) -> (r: Result<(), AppError>)
    ensures
        may_act_on(*user, owner_id) ==> r is Ok,
        !may_act_on(*user, owner_id) ==> (r matches Err(e) && forbidden_with(
            e,
            "Not Authorized"@,
        )),
{
    if user.id != owner_id && !user.is_admin() {
        Err(AppError::Forbidden(String::from_str("Not Authorized")))
    } else {
        Ok(())
    }
}

/// Refuses a role change by a user who does not administer the site, with
/// `Only admins can change roles`.
pub fn require_role_change_allowed(user: &CurrentUser, changes_role: bool) -> (r: Result<(), AppError>)
    ensures
        (changes_role && !spec_is_admin(user.role)) ==> (r matches Err(e) && forbidden_with(
            e,
            "Only admins can change roles"@,
        )),
        !(changes_role && !spec_is_admin(user.role)) ==> r is Ok,
{
    if changes_role && !user.is_admin() {
        Err(AppError::Forbidden(String::from_str("Only admins can change roles")))
    } else {
        Ok(())
    }
}

/// Which records a "mine" listing covers.
#[derive(Debug, Clone, Copy, PartialEq, Eq, Structural)]
pub enum ListingScope {
    /// Every record.
    All,
    /// The records created by this user.
    CreatedBy(i64),
}

/// The records a user's "mine" listing covers: all of them for an
/// administrator, their own for an artist; anyone else is refused with
/// `refusal`.
pub fn listing_scope(user: &CurrentUser, refusal: &str) -> (r: Result<ListingScope, AppError>)
    ensures
        spec_is_admin(user.role) ==> r == Ok::<ListingScope, AppError>(ListingScope::All),
        !spec_is_admin(user.role) && spec_is_artist_or_above(user.role) ==> r == Ok::<
            ListingScope,
            AppError,
        >(ListingScope::CreatedBy(user.id)),
        !spec_is_artist_or_above(user.role) ==> (r matches Err(e) && forbidden_with(
            e,
            refusal@,
        )),
{
    if user.is_admin() {
        Ok(ListingScope::All)
    } else if user.is_artist_or_above() {
        Ok(ListingScope::CreatedBy(user.id))
    } else {
        Err(AppError::Forbidden(String::from_str(refusal)))
    }
}

/// `<label> #<id>`, the way records are named in messages.
pub open spec fn record_label(label: Seq<char>, id: i64) -> Seq<char> {
    label + " #"@ + signed_decimal(id as int)
}

/// Names a record in a message: `<label> #<id>`.
pub fn record_name(label: &str, id: i64) -> (r: String)
    ensures
        r@ == record_label(label@, id),
{
    str_concat3(label, " #", i64_to_string(id).as_str())
}

/// The error for a record that does not exist: `<label> #<id>`.
pub fn not_found(label: &str, id: i64) -> (e: AppError)
    ensures
        not_found_with(e, record_label(label@, id)),
{
    AppError::NotFound(record_name(label, id))
}

/// What a playlist update writes.
#[derive(Debug, Clone, PartialEq, Eq)]
pub enum PlaylistUpdate {
    /// Nothing was given: the playlist is returned as it is.
    Unchanged,
    /// A new name.
    Name(String),
    /// A new description.
    Description(String),
    /// A new name and description.
    NameAndDescription(String, String),
}

/// Decides what a playlist update writes from the fields given.
pub fn plan_playlist_update(name: Option<String>, description: Option<String>) -> (r: PlaylistUpdate)
    ensures
        match (name, description) {
            (None, None) => r == PlaylistUpdate::Unchanged,
            (Some(n), None) => r == PlaylistUpdate::Name(n),
            (None, Some(d)) => r == PlaylistUpdate::Description(d),
            (Some(n), Some(d)) => r == PlaylistUpdate::NameAndDescription(n, d),
        },
{
    match (name, description) {
        (None, None) => PlaylistUpdate::Unchanged,
        (Some(n), None) => PlaylistUpdate::Name(n),
        (None, Some(d)) => PlaylistUpdate::Description(d),
        (Some(n), Some(d)) => PlaylistUpdate::NameAndDescription(n, d),
    }
}

/// The position a news item added to a playlist takes: one past the highest
/// position in use, or 0 for an empty playlist.
pub fn next_position(max_position: Option<i32>) -> (r: i32)
    requires
        max_position != Some(i32::MAX),
    ensures
        match max_position {
            None => r == 0,
            Some(p) => r == p + 1,
        },
{
    match max_position {
        None => 0,
        Some(p) => p + 1,
    }
}

/// The positions a reorder writes, given the items of the `news_ids` array
/// (each the integer it holds, if any): every integer item goes to its
/// index in the array (cast to `i32`, as the database column is); other
/// items are skipped.
pub open spec fn reorder_of(items: Seq<Option<i64>>) -> Seq<(i32, i64)>
    decreases items.len(),
{
    if items.len() == 0 {
        Seq::empty()
    } else {
        let rest = reorder_of(items.drop_last());
        match items.last() {
            Some(id) => rest.push(((items.len() - 1) as i32, id)),
            None => rest,
        }
    }
}

/// The items of a list with their positions.
pub open spec fn indexed(items: Seq<Option<i64>>) -> Seq<(int, Option<i64>)> {
    Seq::new(items.len(), |i: int| (i, items[i]))
}

/// The position write of one indexed item: an integer item is written at
/// its position; anything else is skipped.
pub open spec fn position_write() -> spec_fn((int, Option<i64>)) -> Option<(i32, i64)> {
    |e: (int, Option<i64>)| match e.1 {
        Some(id) => Some((e.0 as i32, id)),
        None => None,
    }
}

/// A reorder writes, in list order, one position per integer item, and
/// that position is the item's index in the list; other items write
/// nothing.
pub proof fn lemma_reorder_writes_each_id_at_its_index(items: Seq<Option<i64>>)
    ensures
        reorder_of(items) == indexed(items).filter_map(position_write()),
    decreases items.len(),
{
    if items.len() > 0 {
        let rest = items.drop_last();
        lemma_reorder_writes_each_id_at_its_index(rest);
        assert(indexed(items).drop_last() =~= indexed(rest));
        assert(indexed(items).last() == (items.len() - 1, items.last()));
        let tail = indexed(rest).filter_map(position_write());
        match items.last() {
            Some(id) => {
                assert(tail + seq![((items.len() - 1) as i32, id)] =~= tail.push(
                    ((items.len() - 1) as i32, id),
                ));
            },
            None => {},
        }
    } else {
        assert(indexed(items) =~= Seq::<(int, Option<i64>)>::empty());
    }
}

/// Plans a reorder of a playlist's news items.
pub fn plan_reorder(items: &[Option<i64>]) -> (r: Vec<(i32, i64)>)
    ensures
        r@ == reorder_of(items@),
{
    let n = items.len();
    let mut out: Vec<(i32, i64)> = Vec::new();
    let mut i: usize = 0;
    while i < n
        invariant
            n == items@.len(),
            0 <= i <= n,
            out@ == reorder_of(items@.subrange(0, i as int)),
        decreases n - i,
    {
        let ghost prefix = items@.subrange(0, i + 1);
        assert(prefix.drop_last() =~= items@.subrange(0, i as int));
        if let Some(id) = items[i] {
            out.push((i as i32, id));
        }
        i = i + 1;
    }
    assert(items@.subrange(0, n as int) =~= items@);
    out
}

/// Plans a reorder from the request's `news_ids`, which is `None` when it
/// is missing or not an array: that is refused with
/// `news_ids array is required`.
pub fn plan_reorder_request(news_ids: Option<&[Option<i64>]>) -> (r: Result<Vec<(i32, i64)>, AppError>)
    ensures
        match news_ids {
            None => r matches Err(e) && validation_with(e, "news_ids array is required"@),
            Some(items) => r matches Ok(v) && v@ == reorder_of(items@),
        },
{
    match news_ids {
        None => Err(AppError::Validation(String::from_str("news_ids array is required"))),
        Some(items) => Ok(plan_reorder(items)),
    }
}

/// Refuses a user who does not own a playlist, with `Not Authorized`:
/// adding news to a playlist is for its owner alone, administrators
/// included.
pub fn require_playlist_owner(user: &CurrentUser, owner_id: i64) -> (r: Result<(), AppError>)
    ensures
        user.id == owner_id ==> r is Ok,
        user.id != owner_id ==> (r matches Err(e) && forbidden_with(e, "Not Authorized"@)),
{
    if owner_id != user.id {
        Err(AppError::Forbidden(String::from_str("Not Authorized")))
    } else {
        Ok(())
    }
}

/// The answer to adding news `news_id` to playlist `playlist_id`:
/// `News #<n> already in playlist #<p>` when it was there already, else
/// `News #<n> added to playlist #<p>`.
pub open spec fn playlist_addition_text(news_id: i64, playlist_id: i64, already: bool) -> Seq<char> {
    record_label("News"@, news_id) + (if already {
        " already in playlist #"@
    } else {
        " added to playlist #"@
    }) + signed_decimal(playlist_id as int)
}

/// The message that answers adding news to a playlist.
pub fn playlist_addition_message(news_id: i64, playlist_id: i64, already: bool) -> (r: String)
    ensures
        r@ == playlist_addition_text(news_id, playlist_id, already),
{
    let mut s = record_name("News", news_id);
    s.append(if already { " already in playlist #" } else { " added to playlist #" });
    s.append(i64_to_string(playlist_id).as_str());
    s
}

/// Refuses a news link that is not a valid, safe URL, with
/// `Invalid or unsafe URL`.
pub fn check_news_url(url_valid: bool) -> (r: Result<(), AppError>)
    ensures
        url_valid ==> r is Ok,
        !url_valid ==> (r matches Err(e) && validation_with(e, "Invalid or unsafe URL"@)),
{
    if url_valid {
        Ok(())
    } else {
        Err(AppError::Validation(String::from_str("Invalid or unsafe URL")))
    }
}

/// Refuses a link that the malware check flagged, as unprocessable, with
/// `message`.
pub fn refuse_malicious_url(malicious: bool, message: &str) -> (r: Result<(), AppError>)
    ensures
        !malicious ==> r is Ok,
        malicious ==> (r matches Err(AppError::UnprocessableEntity(m)) && m@ == message@),
{
    if malicious {
        Err(AppError::UnprocessableEntity(String::from_str(message)))
    } else {
        Ok(())
    }
}

/// What creating a news article does once its link was checked.
#[derive(Debug, Clone, PartialEq, Eq)]
pub enum NewsCreation {
    /// An article with this link exists already (its id): answered with 409
    /// and `news url already exists`.
    AlreadyExists(i64),
    /// A new article is stored, with this title.
    Insert(Option<String>),
}

impl NewsCreation {
    /// The HTTP status of the answer.
    pub fn status_code(&self) -> (r: u16)
        ensures
            r == (if self is AlreadyExists { 409u16 } else { 201u16 }),
    {
        match self {
            NewsCreation::AlreadyExists(_) => 409,
            NewsCreation::Insert(_) => 201,
        }
    }
}

/// Decides a news creation from the article already stored under the link,
/// if any, the title given, and the title the page's Open Graph tags give:
/// a given title wins over the fetched one.
pub fn plan_news_creation(existing: Option<i64>, given_title: Option<String>, fetched_title: Option<String>) -> (r:
    NewsCreation)
    ensures
        existing matches Some(id) ==> r == NewsCreation::AlreadyExists(id),
        existing is None ==> r == NewsCreation::Insert(
            if given_title is Some {
                given_title
            } else {
                fetched_title
            },
        ),
{
    match existing {
        Some(id) => NewsCreation::AlreadyExists(id),
        None => NewsCreation::Insert(
            match given_title {
                Some(t) => Some(t),
                None => fetched_title,
            },
        ),
    }
}

/// A request parameter as JSON gives it.
#[derive(Debug, Clone)]
pub enum JsonParam {
    /// Absent, or neither a number nor a string.
    Missing,
    /// A number, with the integer it holds if it is one that fits `i64`.
    Number(Option<i64>),
    /// A string.
    Text(String),
}

/// The id a required id parameter gives: a number is taken as it is, and a
/// string is parsed (when `accept_text`).
pub open spec fn id_param_of(p: JsonParam, accept_text: bool) -> Option<Option<i64>> {
    match p {
        JsonParam::Number(n) => Some(n),
        JsonParam::Text(s) => if accept_text { Some(parse_i64_spec(s@)) } else { None },
        JsonParam::Missing => None,
    }
}

/// Reads a required id parameter named `name`: a missing one is refused
/// with `<name> is required`, one that is not an integer with
/// `Invalid <name>`.
pub fn required_id(param: &JsonParam, name: &str, accept_text: bool) -> (r: Result<i64, AppError>)
    ensures
        match id_param_of(*param, accept_text) {
            None => r matches Err(e) && bad_request_with(e, name@ + " is required"@),
            Some(None) => r matches Err(e) && bad_request_with(e, "Invalid "@ + name@),
            Some(Some(v)) => r == Ok::<i64, AppError>(v),
        },
{
    match param {
        JsonParam::Number(n) => match n {
            Some(v) => Ok(*v),
            None => Err(AppError::BadRequest(str_concat("Invalid ", name))),
        },
        JsonParam::Text(s) => {
            if accept_text {
                match parse_i64(s.as_str()) {
                    Some(v) => Ok(v),
                    None => Err(AppError::BadRequest(str_concat("Invalid ", name))),
                }
            } else {
                Err(AppError::BadRequest(str_concat(name, " is required")))
            }
        },
        JsonParam::Missing => Err(AppError::BadRequest(str_concat(name, " is required"))),
    }
}

/// Reads an optional id filter: a number that is an integer, or a string
/// that parses as one.
pub fn optional_id(param: &JsonParam) -> (r: Option<i64>)
    ensures
        r == match id_param_of(*param, true) {
            Some(Some(v)) => Some(v),
            _ => None,
        },
{
    match param {
        JsonParam::Number(n) => *n,
        JsonParam::Text(s) => parse_i64(s.as_str()),
        JsonParam::Missing => None,
    }
}

/// Reads an id from a JSON body field that must hold an integer; anything
/// else is refused with `<name> is required`.
pub fn required_body_id(value: Option<i64>, name: &str) -> (r: Result<i64, AppError>)
    ensures
        match value {
            Some(v) => r == Ok::<i64, AppError>(v),
            None => r matches Err(e) && validation_with(e, name@ + " is required"@),
        },
{
    match value {
        Some(v) => Ok(v),
        None => Err(AppError::Validation(str_concat(name, " is required"))),
    }
}

/// `s` with every carriage return and line feed removed.
pub open spec fn without_line_breaks(s: Seq<char>) -> Seq<char>
    decreases s.len(),
{
    if s.len() == 0 {
        Seq::empty()
    } else {
        let rest = without_line_breaks(s.drop_last());
        if s.last() == '\r' || s.last() == '\n' {
            rest
        } else {
            rest.push(s.last())
        }
    }
}

/// Removes carriage returns and line feeds, as event names and
/// descriptions are stored on one line.
pub fn strip_line_breaks(s: &str) -> (r: String)
    ensures
        r@ == without_line_breaks(s@),
{
    let chars = crate::text::chars_of(s);
    let n = chars.len();
    let mut out = String::new();
    let mut i: usize = 0;
    while i < n
        invariant
            n == chars@.len(),
            chars@ == s@,
            0 <= i <= n,
            out@ == without_line_breaks(s@.subrange(0, i as int)),
        decreases n - i,
    {
        let c = chars[i];
        assert(s@.subrange(0, i + 1).drop_last() =~= s@.subrange(0, i as int));
        if c != '\r' && c != '\n' {
            out.push(c);
        }
        i = i + 1;
    }
    assert(s@.subrange(0, n as int) =~= s@);
    out
}

/// Whether `url` is a web address: it starts with `http://` or `https://`.
pub open spec fn web_url(url: Seq<char>) -> bool {
    is_prefix("http://"@, url) || is_prefix("https://"@, url)
}

/// Refuses an event link that is not a web address, with
/// `Invalid URL format: <url>. Must start with http:// or https://`.
pub fn check_event_url(url: &str) -> (r: Result<(), AppError>)
    ensures
        web_url(url@) ==> r is Ok,
        !web_url(url@) ==> (r matches Err(e) && validation_with(
            e,
            "Invalid URL format: "@ + url@ + ". Must start with http:// or https://"@,
        )),
{
    if starts_with(url, "http://") || starts_with(url, "https://") {
        Ok(())
    } else {
        Err(AppError::Validation(str_concat3("Invalid URL format: ", url, ". Must start with http:// or https://")))
    }
}

/// Checks the required fields of a new tenant configuration, in order.
pub fn validate_tenant_config(
    short_name: &str,
    long_name: &str,
    contact_email: &str,
    site_header_description: &str,
) -> (r: Result<(), AppError>)
    ensures
        short_name@.len() == 0 ==> (r matches Err(e) && validation_with(e, "short_name is required"@)),
        short_name@.len() > 0 && long_name@.len() == 0 ==> (r matches Err(e) && validation_with(
            e,
            "long_name is required"@,
        )),
        short_name@.len() > 0 && long_name@.len() > 0 && contact_email@.len() == 0 ==> (r matches Err(e)
            && validation_with(e, "contact_email is required"@)),
        short_name@.len() > 0 && long_name@.len() > 0 && contact_email@.len() > 0
            && site_header_description@.len() == 0 ==> (r matches Err(e) && validation_with(
            e,
            "site_header_description is required"@,
        )),
        short_name@.len() > 0 && long_name@.len() > 0 && contact_email@.len() > 0
            && site_header_description@.len() > 0 ==> r is Ok,
{
    if short_name.is_empty() {
        return Err(AppError::Validation(String::from_str("short_name is required")));
    }
    if long_name.is_empty() {
        return Err(AppError::Validation(String::from_str("long_name is required")));
    }
    if contact_email.is_empty() {
        return Err(AppError::Validation(String::from_str("contact_email is required")));
    }
    if site_header_description.is_empty() {
        return Err(AppError::Validation(String::from_str("site_header_description is required")));
    }
    Ok(())
}

/// Refuses an empty value with the validation message `message`.
pub fn require_non_empty(value: &str, message: &str) -> (r: Result<(), AppError>)
    ensures
        value@.len() == 0 ==> (r matches Err(e) && validation_with(e, message@)),
        value@.len() > 0 ==> r is Ok,
{
    if value.is_empty() {
        Err(AppError::Validation(String::from_str(message)))
    } else {
        Ok(())
    }
}

/// How many notification emails are queued before a pause.
pub const EMAIL_BATCH_SIZE: usize = 250;

/// A batch of notification emails: the items `start..end`, and whether the
/// sender pauses after it (it does after every full batch).
#[derive(Debug, Clone, Copy, PartialEq, Eq, Structural)]
pub struct EmailBatch {
    pub start: usize,
    pub end: usize,
    pub pause_after: bool,
}

/// Splits `n` queued emails into batches.
pub fn email_batches(n: usize) -> (r: Vec<EmailBatch>)
    ensures
        r@.len() == (if n == 0 { 0 } else { (n - 1) / 250 + 1 }),
        forall|i: int| 0 <= i < r@.len() ==> (#[trigger] r@[i]).start == i * 250 && r@[i].end == (if (i + 1) * 250 <= n { (i + 1) * 250 } else { n as int }) && r@[i].pause_after == (r@[i].end - r@[i].start == 250),
{
    let mut out: Vec<EmailBatch> = Vec::new();
    let mut start: usize = 0;
    while start < n
        invariant
            start <= n,
            start % 250 == 0,
            out@.len() == start / 250,
            forall|i: int| 0 <= i < out@.len() ==> (#[trigger] out@[i]).start == i * 250 && out@[i].end == (i + 1) * 250 && (i + 1) * 250 <= n && out@[i].pause_after,
        decreases n - start,
    {
        let end = if n - start > EMAIL_BATCH_SIZE { start + EMAIL_BATCH_SIZE } else { n };
        out.push(EmailBatch { start, end, pause_after: end - start == EMAIL_BATCH_SIZE });
        if end == n {
            assert forall|i: int| 0 <= i < out@.len() implies (#[trigger] out@[i]).start == i * 250 && out@[i].end == (if (i + 1) * 250 <= n { (i + 1) * 250 } else { n as int }) && out@[i].pause_after == (out@[i].end - out@[i].start == 250) by {
            }
            return out;
        }
        start = end;
    }
    out
}

/// What `chrono::NaiveDate::parse_from_str(s, "%Y-%m-%d")` gives: the
/// date's year, month and day, or the parse error's text.
pub uninterp spec fn iso_date(s: Seq<char>) -> Result<(i32, u32, u32), Seq<char>>;

/// Parses a `YYYY-MM-DD` date with `chrono`.
#[verifier::external_body]
fn parse_iso_date(s: &str) -> (r: Result<(i32, u32, u32), String>)
    ensures
        match r {
            Ok(d) => iso_date(s@) == Ok::<(i32, u32, u32), Seq<char>>(d),
            Err(m) => iso_date(s@) == Err::<(i32, u32, u32), Seq<char>>(m@),
        },
{
    match chrono::NaiveDate::parse_from_str(s, "%Y-%m-%d") {
        Ok(d) => Ok((d.year(), d.month(), d.day())),
        Err(e) => Err(e.to_string()),
    }
}

/// An album's release date from the result of parsing it: a parse error
/// is a bad request, `Invalid release_date format: <error>`.
pub fn release_date_from(parsed: Result<(i32, u32, u32), String>) -> (r: Result<(i32, u32, u32), AppError>)
    ensures
        match parsed {
            Ok(d) => r == Ok::<(i32, u32, u32), AppError>(d),
            Err(m) => r matches Err(e) && bad_request_with(e, "Invalid release_date format: "@ + m@),
        },
{
    match parsed {
        Ok(d) => Ok(d),
        Err(m) => Err(AppError::BadRequest(str_concat("Invalid release_date format: ", m.as_str()))),
    }
}

/// The release date of a new album: absent, or a `YYYY-MM-DD` date.
pub fn parse_release_date(release_date: Option<&str>) -> (r: Result<Option<(i32, u32, u32)>, AppError>)
    ensures
        match release_date {
            None => r == Ok::<Option<(i32, u32, u32)>, AppError>(None),
            Some(s) => match iso_date(s@) {
                Ok(d) => r == Ok::<Option<(i32, u32, u32)>, AppError>(Some(d)),
                Err(m) => r matches Err(e) && bad_request_with(e, "Invalid release_date format: "@ + m),
            },
        },
{
    match release_date {
        None => Ok(None),
        Some(s) => match release_date_from(parse_iso_date(s)) {
            Ok(d) => Ok(Some(d)),
            Err(e) => Err(e),
        },
    }
}

/// The cookie flags of a session cookie.
#[derive(Debug, Clone, Copy, PartialEq, Eq, Structural)]
pub struct CookieFlags {
    pub http_only: bool,
    pub secure: bool,
    pub same_site_lax: bool,
}

/// The flags a session cookie is issued with: always HTTP-only; in
/// production also secure and `SameSite=Lax`.
pub fn session_cookie_flags(production: bool) -> (r: CookieFlags)
    ensures
        r.http_only && r.secure == production && r.same_site_lax == production,
{
    CookieFlags { http_only: true, secure: production, same_site_lax: production }
}

/// The body of a login request.
#[derive(Debug, Clone)]
pub struct LoginParams {
    pub email: String,
    pub password: String,
}

/// The body that answers a failed login.
#[derive(Debug, Clone)]
pub struct LoginErrorResponse {
    pub error: String,
}

/// The outcome of a login attempt.
#[derive(Debug, Clone, Copy, PartialEq, Eq, Structural)]
pub enum LoginOutcome {
    /// The credentials are right: a token is issued.
    Success,
    /// No user has this email.
    UnknownUser,
    /// The password does not match.
    WrongPassword,
}

impl LoginOutcome {
    /// The HTTP status of the answer.
    pub fn status_code(&self) -> (r: u16)
        ensures
            r == (if *self == LoginOutcome::Success { 200u16 } else { 401u16 }),
    {
        match self {
            LoginOutcome::Success => 200,
            _ => 401,
        }
    }

    /// The body a failed login is answered with: the same whichever part
    /// was wrong, so that accounts cannot be discovered.
    pub fn error_response(&self) -> (r: Option<LoginErrorResponse>)
        ensures
            *self == LoginOutcome::Success ==> r is None,
            *self != LoginOutcome::Success ==> (r matches Some(b) && b.error@
                == "Invalid credentials"@),
    {
        match self {
            LoginOutcome::Success => None,
            _ => Some(LoginErrorResponse { error: String::from_str("Invalid credentials") }),
        }
    }
}

/// Decides a login from whether the user was found and, if so, whether the
/// password matched.
pub fn login_outcome(password_matches: Option<bool>) -> (r: LoginOutcome)
    ensures
        r == match password_matches {
            None => LoginOutcome::UnknownUser,
            Some(true) => LoginOutcome::Success,
            Some(false) => LoginOutcome::WrongPassword,
        },
{
    match password_matches {
        None => LoginOutcome::UnknownUser,
        Some(true) => LoginOutcome::Success,
        Some(false) => LoginOutcome::WrongPassword,
    }
}

/// A random delay in milliseconds, uniform in 200..=800, from
/// `rand::Rng::gen_range` on the thread's generator.
#[verifier::external_body]
fn random_delay_ms() -> (r: u64)
    ensures
        200 <= r <= 800,
{
    rand::thread_rng().gen_range(200..=800)
}

/// A random `u64` from `rand::random`.
#[verifier::external_body]
fn random_u64() -> (r: u64)
{
    rand::random::<u64>()
}

/// The delay before a login is answered, so that its timing does not tell
/// whether the account exists: between 200 and 800 ms.
pub fn login_jitter_ms() -> (r: u64)
    ensures
        200 <= r <= 800,
{
    random_delay_ms()
}

/// The delay a password reset request waits, from a random number `x`:
/// `x mod 601 + 200`, so between 200 and 800 ms.
pub fn reset_jitter_from(x: u64) -> (r: u64)
    ensures
        r == x % 601 + 200,
        200 <= r <= 800,
{
    x % 601 + 200
}

/// The delay a password reset request waits: between 200 and 800 ms.
pub fn reset_jitter_ms() -> (r: u64)
    ensures
        200 <= r <= 800,
{
    reset_jitter_from(random_u64())
}

} // verus!
