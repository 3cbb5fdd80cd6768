//! The web API: its guild record, the OAuth2 redirect handler's decisions,
//! and the credential used to call Discord for a user.

use vstd::prelude::*;

use crate::app_error::AppError;

verus! {

/// The API's guild record.
pub struct Guild {
    pub id: i64,
    pub name: String,
    pub icon_url: String,
    pub locale: String,
}

/// The query string of the OAuth2 redirect.
pub struct AuthRequest {
    pub code: String,
    pub state: String,
}

/// The credential sent to Discord for a user's access token: `Bearer <token>`.
pub fn bearer_credential(token: &str) -> (s: String)
    ensures
        s@ == "Bearer "@ + token@,
{
    let mut s = String::from_str("Bearer ");
    s.append(token);
    s
}

/// The user's tokens kept in the session.
pub struct SessionTokens {
    pub access_token: String,
    pub refresh_token: String,
}

/// The message of the error for a request without tokens.
pub open spec fn token_missing() -> Seq<char> {
    "Token is missing"@
}

/// The tokens a request is made with, as read from its session: both must
/// be there, else the request is unauthorised with `Token is missing`.
pub fn authorize(access_token: Option<String>, refresh_token: Option<String>) -> (r: Result<SessionTokens, AppError>)
    ensures
        (access_token, refresh_token) matches (Some(a), Some(f)) ==> (r matches Ok(t)
            && t.access_token@ == a@ && t.refresh_token@ == f@),
        (access_token is None || refresh_token is None) ==> (r matches Err(AppError::Unauthorized(m))
            && m@ == token_missing()),
{
    match (access_token, refresh_token) {
        (Some(access_token), Some(refresh_token)) => Ok(SessionTokens { access_token, refresh_token }),
        _ => Err(AppError::Unauthorized(String::from_str("Token is missing"))),
    }
}

/// Where the redirect handler stands.
#[derive(Clone, Copy, Debug, PartialEq, Eq, Structural)]
pub enum AuthStage {
    AwaitVerifier,
    AwaitToken,
    AwaitStored,
    Done,
}

/// What the surroundings report to the redirect handler.
#[derive(Clone, Copy, Debug, PartialEq, Eq, Structural)]
pub enum AuthEvent {
    /// Reading the PKCE verifier from the session: failed, or whether it
    /// was there.
    Verifier(Option<bool>),
    /// Exchanging the code: whether it succeeded and whether the token came
    /// with a refresh token.
    Exchanged { ok: bool, has_refresh_token: bool },
    /// Storing both tokens in the session: whether it succeeded.
    Stored(bool),
}

/// What the redirect handler asks for, or its answer.
pub enum AuthAction {
    ReadVerifier,
    ExchangeCode,
    StoreTokens,
    /// Redirect the browser to the front end.
    Redirect,
    Fail(AppError),
}

/// The redirect handler starts by reading the PKCE verifier.
pub fn auth_start() -> (r: (AuthStage, AuthAction))
    ensures
        r.0 == AuthStage::AwaitVerifier,
        r.1 is ReadVerifier,
{
    (AuthStage::AwaitVerifier, AuthAction::ReadVerifier)
}

/// Whether a step ended the handler with the error `e`'s kind.
pub open spec fn fails_with(r: (AuthStage, AuthAction), internal: bool, authorization: bool, registration: bool) -> bool {
    &&& r.0 is Done
    &&& r.1 is Fail
    &&& internal ==> r.1->Fail_0 is InternalServerError
    &&& authorization ==> r.1->Fail_0 is AuthorizationServerError
    &&& registration ==> r.1->Fail_0 is TokenRegistrationError
}

/// Advances the redirect handler: a session that cannot be read or written,
/// or a missing verifier, is an internal error; a failed exchange is an
/// authorisation-server error; a token without refresh token is a
/// registration error; once both tokens are stored the browser is
/// redirected.
pub fn auth_step(stage: AuthStage, event: AuthEvent) -> (r: (AuthStage, AuthAction))
    ensures
        (stage, event) matches (AuthStage::AwaitVerifier, AuthEvent::Verifier(v)) ==> (if v == Some(true) {
            r.0 == AuthStage::AwaitToken && r.1 is ExchangeCode
        } else {
            fails_with(r, true, false, false)
        }),
        (stage, event) matches (AuthStage::AwaitToken, AuthEvent::Exchanged { ok, has_refresh_token }) ==> (if !ok {
            fails_with(r, false, true, false)
        } else if !has_refresh_token {
            fails_with(r, false, false, true)
        } else {
            r.0 == AuthStage::AwaitStored && r.1 is StoreTokens
        }),
        (stage, event) matches (AuthStage::AwaitStored, AuthEvent::Stored(ok)) ==> (if ok {
            r.0 is Done && r.1 is Redirect
        } else {
            fails_with(r, true, false, false)
        }),
{
    match (stage, event) {
        (AuthStage::AwaitVerifier, AuthEvent::Verifier(v)) => match v {
            Some(true) => (AuthStage::AwaitToken, AuthAction::ExchangeCode),
            _ => (AuthStage::Done, AuthAction::Fail(AppError::InternalServerError)),
        },
        (AuthStage::AwaitToken, AuthEvent::Exchanged { ok, has_refresh_token }) => {
            if !ok {
                (AuthStage::Done, AuthAction::Fail(AppError::AuthorizationServerError))
            } else if !has_refresh_token {
                (AuthStage::Done, AuthAction::Fail(AppError::TokenRegistrationError))
            } else {
                (AuthStage::AwaitStored, AuthAction::StoreTokens)
            }
        },
        (AuthStage::AwaitStored, AuthEvent::Stored(ok)) => {
            if ok {
                (AuthStage::Done, AuthAction::Redirect)
            } else {
                (AuthStage::Done, AuthAction::Fail(AppError::InternalServerError))
            }
        },
        _ => (AuthStage::Done, AuthAction::Fail(AppError::InternalServerError)),
    }
}

/// The front end to redirect to: the configured URL, or
/// `http://localhost:3000`.
pub fn frontend_url(configured: Option<String>) -> (s: String)
    ensures
        configured matches Some(u) ==> s@ == u@,
        configured is None ==> s@ == "http://localhost:3000"@,
{
    match configured {
        Some(u) => u,
        None => String::from_str("http://localhost:3000"),
    }
}

} // verus!
