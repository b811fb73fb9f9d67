//! The single entry point for the transport layer: a bearer token goes in,
//! a user or the reason for turning the token away comes out.

use vstd::prelude::*;
use crate::claims::{ClaimSetView, VerifiedClaims};
use crate::error::{AuthError, RejectionReason};
use crate::headers::{header_text, header_texts};
use crate::json::{member_text, text_members};
use crate::token::{is_well_formed, Token};
use crate::user::{first_user_named, User, UserDirectory, UserView};
use crate::validator::{TokenValidator, ValidatorView, Verdict, VerdictView};

verus! {

/// The user that verified claims stand for: the first user of the
/// directory whose principal name is the identity claim.
pub open spec fn resolved_user(claims: ClaimSetView, directory: Seq<UserView>) -> Result<
    UserView,
    AuthError,
> {
    match first_user_named(directory, claims.identity) {
        Some(user) => Ok(user),
        None => Err(AuthError::UserNotFound),
    }
}

/// What an authentication ends in, as plain values.
pub open spec fn outcome_view(outcome: Result<User, AuthError>) -> Result<UserView, AuthError> {
    match outcome {
        Ok(user) => Ok(user@),
        Err(error) => Err(error),
    }
}

/// Maps verified claims to the application user they stand for.
pub fn create_user_from_token(claims: &VerifiedClaims, directory: &UserDirectory) -> (outcome:
    Result<User, AuthError>)
    ensures
        outcome_view(outcome) == resolved_user(claims@, directory@),
{
    match directory.lookup(claims.identity()) {
        Some(user) => Ok(user),
        None => Err(AuthError::UserNotFound),
    }
}

/// Where an authentication stands after a step.
#[derive(Debug, PartialEq, Eq)]
pub enum AuthStep {
    /// The token is decided.
    Done(Result<User, AuthError>),
    /// Nothing is decided yet: the key set of the issuer at this position
    /// must be refreshed first.
    NeedsKeys { issuer: usize },
}

/// What an `AuthStep` holds, as plain values.
pub enum AuthStepView {
    Done(Result<UserView, AuthError>),
    NeedsKeys { issuer: int },
}

impl View for AuthStep {
    type V = AuthStepView;

    open spec fn view(&self) -> AuthStepView {
        match self {
            AuthStep::Done(outcome) => AuthStepView::Done(outcome_view(*outcome)),
            AuthStep::NeedsKeys { issuer } => AuthStepView::NeedsKeys { issuer: *issuer as int },
        }
    }
}

/// The first step of an authentication against the key sets as they are
/// cached: the verdict on the token, and for an accepted token the user.
pub open spec fn authenticated(
    validator: ValidatorView,
    directory: Seq<UserView>,
    token: Seq<char>,
    now: int,
) -> AuthStepView {
    match validator.judged(token, now) {
        VerdictView::Accepted(claims) => AuthStepView::Done(resolved_user(claims, directory)),
        VerdictView::Rejected(reason) => AuthStepView::Done(Err(AuthError::Rejected(reason))),
        VerdictView::KeyMissing { issuer } => AuthStepView::NeedsKeys { issuer },
    }
}

/// What an authentication ends in once the refresh that its first step
/// asked for has ended.
pub open spec fn authenticated_after_refresh(
    validator: ValidatorView,
    directory: Seq<UserView>,
    token: Seq<char>,
    now: int,
) -> Result<UserView, AuthError> {
    match validator.settled(token, now) {
        Ok(claims) => resolved_user(claims, directory),
        Err(reason) => Err(AuthError::Rejected(reason)),
    }
}

/// Whether a token is genuine and valid at time `now`, judged against the
/// key sets as they are cached.
pub fn is_token_valid(validator: &TokenValidator, token: &Token, now: i64) -> (valid: bool)
    requires
        validator.wf(),
    ensures
        valid == (validator@.judged(token@, now as int) is Accepted),
{
    match validator.validate_token(token.0.as_str(), now) {
        Verdict::Accepted(_) => true,
        _ => false,
    }
}

/// Authenticates a bearer token at time `now`, in seconds since the epoch.
///
/// Nothing is fetched. A token that is not three base64url segments is
/// malformed whatever the cache holds, so it never asks for a refresh.
/// Where the step ends in `NeedsKeys`, the caller refreshes that issuer's
/// key set and calls `authenticate_after_refresh`.
pub fn authenticate(
    validator: &TokenValidator,
    directory: &UserDirectory,
    auth_value: &str,
    now: i64,
) -> (step: AuthStep)
    requires
        validator.wf(),
    ensures
        step@ == authenticated(validator@, directory@, auth_value@, now as int),
        !is_well_formed(auth_value@) ==> step@ == AuthStepView::Done(
            Err(AuthError::Rejected(RejectionReason::Malformed)),
        ),
        step matches AuthStep::NeedsKeys { issuer } ==> issuer < validator@.issuers.len(),
{
    match validator.validate_token(auth_value, now) {
        Verdict::Accepted(claims) => AuthStep::Done(create_user_from_token(&claims, directory)),
        Verdict::Rejected(reason) => AuthStep::Done(Err(AuthError::Rejected(reason))),
        Verdict::KeyMissing { issuer } => AuthStep::NeedsKeys { issuer },
    }
}

/// Authenticates a bearer token once the refresh that `authenticate` asked
/// for has ended. Nothing is fetched: a key that is still missing ends
/// the authentication.
pub fn authenticate_after_refresh(
    validator: &TokenValidator,
    directory: &UserDirectory,
    auth_value: &str,
    now: i64,
) -> (outcome: Result<User, AuthError>)
    requires
        validator.wf(),
    ensures
        outcome_view(outcome) == authenticated_after_refresh(
            validator@,
            directory@,
            auth_value@,
            now as int,
        ),
{
    match validator.conclude(auth_value, now) {
        Ok(claims) => create_user_from_token(&claims, directory),
        Err(reason) => Err(AuthError::Rejected(reason)),
    }
}

/// Where a request carries its bearer token: in the `Authorization`
/// header of a plain request, or in the initiation message of a
/// persistent connection.
#[derive(Debug, Clone, Copy)]
pub struct Auth;

impl Auth {
    /// Takes the bearer token out of the headers of a request: the whole
    /// text of the `Authorization` header. `None` where the request has
    /// no such header, or one that is not text.
    pub fn get_token_from_headers(headers: &axum::http::HeaderMap) -> (token: Option<Token>)
        ensures
            token is Some <==> header_texts(*headers).contains_key("Authorization"@),
            token matches Some(t) ==> t@ == header_texts(*headers)["Authorization"@],
    {
        match header_text(headers, "Authorization") {
            Some(text) => Some(Token(text)),
            None => None,
        }
    }

    /// Takes the bearer token out of a connection-initiation payload: the
    /// text member `Authorization` of the payload object. `None` where
    /// the payload has no such member.
    pub fn on_connection_init(value: &serde_json::Value) -> (token: Option<Token>)
        ensures
            token is Some <==> text_members(*value).contains_key("Authorization"@),
            token matches Some(t) ==> t@ == text_members(*value)["Authorization"@],
    {
        match member_text(value, "Authorization") {
            Some(text) => Some(Token(text)),
            None => None,
        }
    }
}

/// The guard in front of request execution.
#[derive(Debug, Clone, Copy)]
pub struct AuthExtension;

impl AuthExtension {
    /// Decides on a request by the token that it carries, if any, at time
    /// `now`. A request without token is treated as one whose token is
    /// malformed; any other is authenticated by its token.
    pub fn prepare_request(
        validator: &TokenValidator,
        directory: &UserDirectory,
        token: Option<&Token>,
        now: i64,
    ) -> (step: AuthStep)
        requires
            validator.wf(),
        ensures
            step@ == match token {
                Some(t) => authenticated(validator@, directory@, t@, now as int),
                None => AuthStepView::Done(Err(AuthError::Rejected(RejectionReason::Malformed))),
            },
            step matches AuthStep::NeedsKeys { issuer } ==> issuer < validator@.issuers.len(),
    {
        match token {
            Some(t) => authenticate(validator, directory, t.0.as_str(), now),
            None => AuthStep::Done(Err(AuthError::Rejected(RejectionReason::Malformed))),
        }
    }
}

} // verus!
