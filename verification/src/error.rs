//! The application's error type: what each failure is answered with.

use vstd::prelude::*;
use vstd::string::*;

use crate::text::{str_concat, str_concat3, decimal, u64_to_string};

verus! {

/// Every way a request can fail. Errors that come from another library
/// (configuration, database, password hashing, I/O) carry that library's
/// message text.
#[derive(Debug, Clone, PartialEq, Eq)]
pub enum AppError {
    Config(String),
    Database(String),
    Unauthorized,
    Forbidden(String),
    NotFound(String),
    Conflict(String),
    Validation(String),
    BadRequest(String),
    UnprocessableEntity(String),
    Internal(String),
    Jwt(String),
    Bcrypt(String),
    Io(String),
    Storage(String),
    Shopify(String),
    Mailchimp(String),
    SafeBrowsing(String),
    Email(String),
    MigrationFailed(String),
    SchemaOutOfSync(usize, String),
}

/// The HTTP status that answers an error.
pub open spec fn status_of(e: AppError) -> u16 {
    match e {
        AppError::Config(_) => 400,
        AppError::Database(_) => 500,
        AppError::Unauthorized => 401,
        AppError::Forbidden(_) => 403,
        AppError::NotFound(_) => 404,
        AppError::Conflict(_) => 409,
        AppError::Validation(_) => 422,
        AppError::BadRequest(_) => 400,
        AppError::UnprocessableEntity(_) => 422,
        AppError::Internal(_) => 500,
        AppError::Jwt(_) => 401,
        AppError::Bcrypt(_) => 500,
        AppError::Io(_) => 500,
        AppError::Storage(_) => 500,
        AppError::Shopify(_) => 502,
        AppError::Mailchimp(_) => 502,
        AppError::SafeBrowsing(_) => 502,
        AppError::Email(_) => 500,
        AppError::MigrationFailed(_) => 500,
        AppError::SchemaOutOfSync(_, _) => 500,
    }
}

/// The text an error is displayed as.
pub open spec fn message_of(e: AppError) -> Seq<char> {
    match e {
        AppError::Config(m) => "configuration error: "@ + m@,
        AppError::Database(m) => "database error: "@ + m@,
        AppError::Unauthorized => "authentication required"@,
        AppError::Forbidden(m) => "forbidden: "@ + m@,
        AppError::NotFound(m) => "not found: "@ + m@,
        AppError::Conflict(m) => "conflict: "@ + m@,
        AppError::Validation(m) => "validation error: "@ + m@,
        AppError::BadRequest(m) => "bad request: "@ + m@,
        AppError::UnprocessableEntity(m) => "unprocessable entity: "@ + m@,
        AppError::Internal(m) => "internal server error: "@ + m@,
        AppError::Jwt(m) => "JWT error: "@ + m@,
        AppError::Bcrypt(m) => "bcrypt error: "@ + m@,
        AppError::Io(m) => "IO error: "@ + m@,
        AppError::Storage(m) => "storage error: "@ + m@,
        AppError::Shopify(m) => "Shopify API error: "@ + m@,
        AppError::Mailchimp(m) => "Mailchimp API error: "@ + m@,
        AppError::SafeBrowsing(m) => "Safe Browsing error: "@ + m@,
        AppError::Email(m) => "Email error: "@ + m@,
        AppError::MigrationFailed(m) => "migration failed: "@ + m@,
        AppError::SchemaOutOfSync(n, m) => "schema out of sync: "@ + decimal(n as nat)
            + " migration(s) pending. "@ + m@,
    }
}

/// The text put in the body of an error response. Outside debug builds,
/// database, token and hashing failures are answered with a generic text so
/// that their details do not leak.
pub open spec fn public_message_of(e: AppError, debug: bool) -> Seq<char> {
    if debug {
        message_of(e)
    } else {
        match e {
            AppError::Database(_) => "A database error occurred"@,
            AppError::Jwt(_) => "An authentication error occurred"@,
            AppError::Bcrypt(_) => "An internal error occurred"@,
            _ => message_of(e),
        }
    }
}

impl AppError {
    /// The HTTP status code that answers this error.
    pub fn status_code(&self) -> (r: u16)
        ensures
            r == status_of(*self),
    {
        match self {
            AppError::Config(_) => 400,
            AppError::Database(_) => 500,
            AppError::Unauthorized => 401,
            AppError::Forbidden(_) => 403,
            AppError::NotFound(_) => 404,
            AppError::Conflict(_) => 409,
            AppError::Validation(_) => 422,
            AppError::BadRequest(_) => 400,
            AppError::UnprocessableEntity(_) => 422,
            AppError::Internal(_) => 500,
            AppError::Jwt(_) => 401,
            AppError::Bcrypt(_) => 500,
            AppError::Io(_) => 500,
            AppError::Storage(_) => 500,
            AppError::Shopify(_) => 502,
            AppError::Mailchimp(_) => 502,
            AppError::SafeBrowsing(_) => 502,
            AppError::Email(_) => 500,
            AppError::MigrationFailed(_) => 500,
            AppError::SchemaOutOfSync(_, _) => 500,
        }
    }

    /// The error's display text.
    pub fn to_string(&self) -> (r: String)
        ensures
            r@ == message_of(*self),
    {
        match self {
            AppError::Config(m) => str_concat("configuration error: ", m.as_str()),
            AppError::Database(m) => str_concat("database error: ", m.as_str()),
            AppError::Unauthorized => String::from_str("authentication required"),
            AppError::Forbidden(m) => str_concat("forbidden: ", m.as_str()),
            AppError::NotFound(m) => str_concat("not found: ", m.as_str()),
            AppError::Conflict(m) => str_concat("conflict: ", m.as_str()),
            AppError::Validation(m) => str_concat("validation error: ", m.as_str()),
            AppError::BadRequest(m) => str_concat("bad request: ", m.as_str()),
            AppError::UnprocessableEntity(m) => str_concat("unprocessable entity: ", m.as_str()),
            AppError::Internal(m) => str_concat("internal server error: ", m.as_str()),
            AppError::Jwt(m) => str_concat("JWT error: ", m.as_str()),
            AppError::Bcrypt(m) => str_concat("bcrypt error: ", m.as_str()),
            AppError::Io(m) => str_concat("IO error: ", m.as_str()),
            AppError::Storage(m) => str_concat("storage error: ", m.as_str()),
            AppError::Shopify(m) => str_concat("Shopify API error: ", m.as_str()),
            AppError::Mailchimp(m) => str_concat("Mailchimp API error: ", m.as_str()),
            AppError::SafeBrowsing(m) => str_concat("Safe Browsing error: ", m.as_str()),
            AppError::Email(m) => str_concat("Email error: ", m.as_str()),
            AppError::MigrationFailed(m) => str_concat("migration failed: ", m.as_str()),
            AppError::SchemaOutOfSync(n, m) => {
                let count = u64_to_string(*n as u64);
                let mut s = str_concat3("schema out of sync: ", count.as_str(), " migration(s) pending. ");
                s.append(m.as_str());
                s
            },
        }
    }

    /// The text of the `error` field in the JSON body that answers this
    /// error; `debug` tells whether the server is a debug build.
    pub fn public_message(&self, debug: bool) -> (r: String)
        ensures
            r@ == public_message_of(*self, debug),
    {
        if debug {
            return self.to_string();
        }
        match self {
            AppError::Database(_) => String::from_str("A database error occurred"),
            AppError::Jwt(_) => String::from_str("An authentication error occurred"),
            AppError::Bcrypt(_) => String::from_str("An internal error occurred"),
            _ => self.to_string(),
        }
    }
}

/// Whether `e` is a refusal for lack of rights, with message `msg`.
pub open spec fn forbidden_with(e: AppError, msg: Seq<char>) -> bool {
    e matches AppError::Forbidden(m) && m@ == msg
}

/// Whether `e` is a validation failure with message `msg`.
pub open spec fn validation_with(e: AppError, msg: Seq<char>) -> bool {
    e matches AppError::Validation(m) && m@ == msg
}

/// Whether `e` is a bad request with message `msg`.
pub open spec fn bad_request_with(e: AppError, msg: Seq<char>) -> bool {
    e matches AppError::BadRequest(m) && m@ == msg
}

/// Whether `e` is a missing record with message `msg`.
pub open spec fn not_found_with(e: AppError, msg: Seq<char>) -> bool {
    e matches AppError::NotFound(m) && m@ == msg
}

/// Every error is answered with a client (4xx) or server (5xx) status, and
/// the server-side failures are exactly those whose details are not the
/// client's doing.
pub proof fn lemma_status_is_error_class(e: AppError)
    ensures
        400 <= status_of(e) < 600,
        (status_of(e) >= 500) <==> (e is Database || e is Internal || e is Bcrypt || e is Io
            || e is Storage || e is Shopify || e is Mailchimp || e is SafeBrowsing || e is Email
            || e is MigrationFailed || e is SchemaOutOfSync),
{
}

/// Outside debug builds, the body of a database, token or hashing failure
/// never depends on the failure's details.
pub proof fn lemma_hidden_details(a: AppError, b: AppError)
    requires
        (a is Database && b is Database) || (a is Jwt && b is Jwt) || (a is Bcrypt && b is Bcrypt),
    ensures
        public_message_of(a, false) == public_message_of(b, false),
{
}

/// Each error is answered with the HTTP status its kind names: 400 Bad
/// Request for a malformed request or configuration, 401 Unauthorized for
/// missing or bad credentials, 403 Forbidden, 404 Not Found, 409 Conflict,
/// 422 Unprocessable Entity for refused contents, 502 Bad Gateway when an
/// outside service failed, and 500 for the server's own failures.
pub proof fn lemma_status_by_kind(e: AppError)
    ensures
        (e is BadRequest || e is Config) <==> status_of(e) == 400,
        (e is Unauthorized || e is Jwt) <==> status_of(e) == 401,
        e is Forbidden <==> status_of(e) == 403,
        e is NotFound <==> status_of(e) == 404,
        e is Conflict <==> status_of(e) == 409,
        (e is Validation || e is UnprocessableEntity) <==> status_of(e) == 422,
        (e is Shopify || e is Mailchimp || e is SafeBrowsing) <==> status_of(e) == 502,
        (e is Database || e is Internal || e is Bcrypt || e is Io || e is Storage || e is Email
            || e is MigrationFailed || e is SchemaOutOfSync) <==> status_of(e) == 500,
{
}

/// A bad request is answered with 400, whatever its message.
pub proof fn lemma_bad_request_is_400(m: String)
    ensures
        status_of(AppError::BadRequest(m)) == 400,
{
}

/// An error's text names its kind and ends with the error's own message:
/// the client sees what went wrong in the words it was refused with.
pub proof fn lemma_message_names_kind(m: String)
    ensures
        message_of(AppError::Forbidden(m)) == "forbidden: "@ + m@,
        message_of(AppError::NotFound(m)) == "not found: "@ + m@,
        message_of(AppError::Conflict(m)) == "conflict: "@ + m@,
        message_of(AppError::Validation(m)) == "validation error: "@ + m@,
        message_of(AppError::BadRequest(m)) == "bad request: "@ + m@,
        message_of(AppError::UnprocessableEntity(m)) == "unprocessable entity: "@ + m@,
        message_of(AppError::Internal(m)) == "internal server error: "@ + m@,
        message_of(AppError::Jwt(m)) == "JWT error: "@ + m@,
        message_of(AppError::Bcrypt(m)) == "bcrypt error: "@ + m@,
        message_of(AppError::Database(m)) == "database error: "@ + m@,
        message_of(AppError::Config(m)) == "configuration error: "@ + m@,
        message_of(AppError::Io(m)) == "IO error: "@ + m@,
        message_of(AppError::Storage(m)) == "storage error: "@ + m@,
        message_of(AppError::Shopify(m)) == "Shopify API error: "@ + m@,
        message_of(AppError::Mailchimp(m)) == "Mailchimp API error: "@ + m@,
        message_of(AppError::SafeBrowsing(m)) == "Safe Browsing error: "@ + m@,
        message_of(AppError::Email(m)) == "Email error: "@ + m@,
        message_of(AppError::MigrationFailed(m)) == "migration failed: "@ + m@,
        message_of(AppError::Unauthorized) == "authentication required"@,
{
}

/// In debug builds an error's body is its full text; outside them it is
/// too, except that database, token and hashing failures get a fixed,
/// detail-free text.
pub proof fn lemma_public_message(e: AppError)
    ensures
        public_message_of(e, true) == message_of(e),
        !(e is Database || e is Jwt || e is Bcrypt) ==> public_message_of(e, false) == message_of(e),
        e is Database ==> public_message_of(e, false) == "A database error occurred"@,
        e is Jwt ==> public_message_of(e, false) == "An authentication error occurred"@,
        e is Bcrypt ==> public_message_of(e, false) == "An internal error occurred"@,
{
}

} // verus!
