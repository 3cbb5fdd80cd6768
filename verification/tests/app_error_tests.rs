use ttsbot::api::authorize;
use ttsbot::app_error::{AppError, DbFailure, DiscordFailure};

#[test]
fn discord_errors_carry_discords_status() {
    let e = AppError::SerenityError(DiscordFailure { http_status: Some(401) });
    assert_eq!(e.status_code(), 401);
    assert_eq!(e.to_string(), "Discord returned an error");
    assert_eq!(e.name(), "Service Temporarily Unavailable");
    let e = AppError::SerenityError(DiscordFailure { http_status: None });
    assert_eq!(e.status_code(), 503);
}

#[test]
fn missing_token_is_unauthorized() {
    let e = AppError::Unauthorized("Token is missing".into());
    assert_eq!(e.status_code(), 401);
    assert_eq!(e.to_string(), "Token is missing");
    assert_eq!(e.name(), "Unauthorized");
}

#[test]
fn names_messages_and_codes() {
    let cases = [
        (AppError::NotFound, 404, "Not Found", "Requested Resource is Not Found"),
        (AppError::MethodNotAllowed, 405, "Method Not Allowed", "Your Method is not allowed"),
        (AppError::AuthorizationServerError, 500, "Internal Server Error", "Error occurred during authentication"),
        (AppError::InternalServerError, 500, "Internal Server Error", "Unexpected error has occurred"),
        (AppError::TokenRegistrationError, 500, "Internal Server Error", "Failed to read tokens from server"),
    ];
    for (e, code, name, message) in cases {
        let r = e.error_response();
        assert_eq!((r.code, r.error.as_str(), r.message.as_str()), (code, name, message));
    }
    assert!(matches!(AppError::from_db(DbFailure::RowNotFound), AppError::NotFound));
    assert!(matches!(AppError::from_db(DbFailure::Other), AppError::InternalServerError));
}

#[test]
fn requests_without_tokens_are_unauthorised() {
    let e = authorize(None, None).err().unwrap();
    assert_eq!(e.status_code(), 401);
    assert_eq!(e.to_string(), "Token is missing");
    assert!(authorize(Some("a".into()), None).is_err());
    assert!(authorize(None, Some("r".into())).is_err());
    let t = authorize(Some("a".into()), Some("r".into())).ok().unwrap();
    assert_eq!((t.access_token.as_str(), t.refresh_token.as_str()), ("a", "r"));
}
