//! The web API's errors: their names, messages, HTTP status codes and the
//! error body sent to clients.

use vstd::prelude::*;

verus! {

/// A failure reported by Discord: the HTTP status of its reply, when the
/// failure was an HTTP error that carried one.
#[derive(Clone, Copy, Debug, PartialEq, Eq, Structural)]
pub struct DiscordFailure {
    pub http_status: Option<u16>,
}

/// The API's errors.
#[derive(Debug)]
pub enum AppError {
    NotFound,
    MethodNotAllowed,
    AuthorizationServerError,
    InternalServerError,
    TokenRegistrationError,
    Unauthorized(String),
    SerenityError(DiscordFailure),
}

/// The error's name, as sent in the `error` field.
pub open spec fn error_name(e: AppError) -> Seq<char> {
    match e {
        AppError::NotFound => "Not Found"@,
        AppError::MethodNotAllowed => "Method Not Allowed"@,
        AppError::AuthorizationServerError => "Internal Server Error"@,
        AppError::InternalServerError => "Internal Server Error"@,
        AppError::TokenRegistrationError => "Internal Server Error"@,
        AppError::Unauthorized(_) => "Unauthorized"@,
        AppError::SerenityError(_) => "Service Temporarily Unavailable"@,
    }
}

/// The error's message, as displayed and sent in the `message` field.
pub open spec fn error_message(e: AppError) -> Seq<char> {
    match e {
        AppError::NotFound => "Requested Resource is Not Found"@,
        AppError::MethodNotAllowed => "Your Method is not allowed"@,
        AppError::AuthorizationServerError => "Error occurred during authentication"@,
        AppError::InternalServerError => "Unexpected error has occurred"@,
        AppError::TokenRegistrationError => "Failed to read tokens from server"@,
        AppError::Unauthorized(m) => m@,
        AppError::SerenityError(_) => "Discord returned an error"@,
    }
}

/// The error's HTTP status: Discord's own status when it sent one, 503
/// otherwise for Discord failures.
pub open spec fn error_status(e: AppError) -> u16 {
    match e {
        AppError::NotFound => 404,
        AppError::MethodNotAllowed => 405,
        AppError::AuthorizationServerError => 500,
        AppError::InternalServerError => 500,
        AppError::TokenRegistrationError => 500,
        AppError::Unauthorized(_) => 401,
        AppError::SerenityError(f) => match f.http_status {
            Some(s) => s,
            None => 503,
        },
    }
}

/// The body of an error reply.
pub struct ErrorResponse {
    pub code: u16,
    pub error: String,
    pub message: String,
}

/// The failures of a database call, as the API distinguishes them.
#[derive(Clone, Copy, Debug, PartialEq, Eq, Structural)]
pub enum DbFailure {
    RowNotFound,
    Other,
}

impl AppError {
    /// The error's name.
    pub fn name(&self) -> (s: String)
        ensures
            s@ == error_name(*self),
    {
        let err = match self {
            AppError::NotFound => "Not Found",
            AppError::MethodNotAllowed => "Method Not Allowed",
            AppError::AuthorizationServerError => "Internal Server Error",
            AppError::InternalServerError => "Internal Server Error",
            AppError::TokenRegistrationError => "Internal Server Error",
            AppError::Unauthorized(_) => "Unauthorized",
            AppError::SerenityError(_) => "Service Temporarily Unavailable",
        };
        String::from_str(err)
    }

    /// The error's message (its display text).
    pub fn to_string(&self) -> (s: String)
        ensures
            s@ == error_message(*self),
    {
        match self {
            AppError::NotFound => String::from_str("Requested Resource is Not Found"),
            AppError::MethodNotAllowed => String::from_str("Your Method is not allowed"),
            AppError::AuthorizationServerError => String::from_str("Error occurred during authentication"),
            AppError::InternalServerError => String::from_str("Unexpected error has occurred"),
            AppError::TokenRegistrationError => String::from_str("Failed to read tokens from server"),
            AppError::Unauthorized(m) => m.clone(),
            AppError::SerenityError(_) => String::from_str("Discord returned an error"),
        }
    }

    /// The error's HTTP status code.
    pub fn status_code(&self) -> (c: u16)
        ensures
            c == error_status(*self),
    {
        match self {
            AppError::NotFound => 404,
            AppError::MethodNotAllowed => 405,
            AppError::AuthorizationServerError => 500,
            AppError::InternalServerError => 500,
            AppError::TokenRegistrationError => 500,
            AppError::Unauthorized(_) => 401,
            AppError::SerenityError(f) => match f.http_status {
                Some(s) => s,
                None => 503,
            },
        }
    }

    /// The body sent for the error: its status code, name and message.
    pub fn error_response(&self) -> (r: ErrorResponse)
        ensures
            r.code == error_status(*self),
            r.error@ == error_name(*self),
            r.message@ == error_message(*self),
    {
        ErrorResponse { code: self.status_code(), error: self.name(), message: self.to_string() }
    }

    /// The error a database failure becomes: a missing row is not found,
    /// anything else an internal error.
    pub fn from_db(failure: DbFailure) -> (e: AppError)
        ensures
            failure is RowNotFound ==> e is NotFound,
            failure is Other ==> e is InternalServerError,
    {
        match failure {
            DbFailure::RowNotFound => AppError::NotFound,
            DbFailure::Other => AppError::InternalServerError,
        }
    }
}

} // verus!
