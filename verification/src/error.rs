//! Why a token is turned away, and the one response callers get to see.

use vstd::prelude::*;

verus! {

/// The stage at which the token verifier gave up on a token.
#[derive(Debug, Clone, Copy, PartialEq, Eq, Structural)]
pub enum RejectionReason {
    /// Not three base64url segments; a header or a payload that does not
    /// decode; a payload without issuer claim; or, once the signature
    /// has held, a payload that lacks another required claim.
    Malformed,
    /// The header names no signing key.
    MissingKeyId,
    /// The issuer claim matches no trusted issuer.
    UnknownIssuer,
    /// The issuer's key set has no key of that id, even after a refresh.
    KeyNotFound,
    /// The signature does not verify, the declared algorithm does not
    /// belong to the key's family, or the key is of a family under which
    /// no signature is accepted.
    BadSignature,
    /// The audience claim differs from the issuer's expected audience.
    AudienceMismatch,
    /// The token's expiry, plus the tolerated skew, has passed.
    Expired,
    /// The token's not-before time, minus the tolerated skew, is still ahead.
    NotYetValid,
    /// The issuer's key set could not be fetched or read.
    UpstreamUnavailable,
}

/// Why `authenticate` produced no user.
#[derive(Debug, Clone, Copy, PartialEq, Eq, Structural)]
pub enum AuthError {
    /// The token verifier rejected the token.
    Rejected(RejectionReason),
    /// The token is genuine but the directory knows no such user.
    UserNotFound,
}

/// The rejection handed to the transport layer: an HTTP-style status and a
/// machine-readable code, the same for every cause.
#[derive(Debug, Clone, PartialEq, Eq)]
pub struct UnauthorizedError {
    pub message: String,
    pub status: u16,
    pub code: String,
}

/// What an `UnauthorizedError` holds, as plain values.
pub struct UnauthorizedErrorView {
    pub message: Seq<char>,
    pub status: int,
    pub code: Seq<char>,
}

impl View for UnauthorizedError {
    type V = UnauthorizedErrorView;

    open spec fn view(&self) -> UnauthorizedErrorView {
        UnauthorizedErrorView { message: self.message@, status: self.status as int, code: self.code@ }
    }
}

/// The single unauthorized response.
pub open spec fn unauthorized() -> UnauthorizedErrorView {
    UnauthorizedErrorView { message: "Unauthorized"@, status: 401, code: "UNAUTHORIZED"@ }
}

/// Builds the unauthorized response: status 401, code `UNAUTHORIZED`.
pub fn create_unauthorized_error() -> (error: UnauthorizedError)
    ensures
        error@ == unauthorized(),
{
    UnauthorizedError {
        message: "Unauthorized".to_owned(),
        status: 401,
        code: "UNAUTHORIZED".to_owned(),
    }
}

impl RejectionReason {
    /// The name of this reason, as it is written to logs.
    pub open spec fn spec_code(self) -> Seq<char> {
        match self {
            RejectionReason::Malformed => "Malformed"@,
            RejectionReason::MissingKeyId => "MissingKeyId"@,
            RejectionReason::UnknownIssuer => "UnknownIssuer"@,
            RejectionReason::KeyNotFound => "KeyNotFound"@,
            RejectionReason::BadSignature => "BadSignature"@,
            RejectionReason::AudienceMismatch => "AudienceMismatch"@,
            RejectionReason::Expired => "Expired"@,
            RejectionReason::NotYetValid => "NotYetValid"@,
            RejectionReason::UpstreamUnavailable => "UpstreamUnavailable"@,
        }
    }

    /// The name of this reason, for logs only.
    pub fn code(&self) -> (name: &'static str)
        ensures
            name@ == self.spec_code(),
    {
        match self {
            RejectionReason::Malformed => "Malformed",
            RejectionReason::MissingKeyId => "MissingKeyId",
            RejectionReason::UnknownIssuer => "UnknownIssuer",
            RejectionReason::KeyNotFound => "KeyNotFound",
            RejectionReason::BadSignature => "BadSignature",
            RejectionReason::AudienceMismatch => "AudienceMismatch",
            RejectionReason::Expired => "Expired",
            RejectionReason::NotYetValid => "NotYetValid",
            RejectionReason::UpstreamUnavailable => "UpstreamUnavailable",
        }
    }
}

impl AuthError {
    /// The internal reason code, for logs only.
    pub open spec fn spec_reason_code(self) -> Seq<char> {
        match self {
            AuthError::Rejected(reason) => reason.spec_code(),
            AuthError::UserNotFound => "UserNotFound"@,
        }
    }

    /// The internal reason code. It names the stage that failed and holds
    /// nothing of the token, its claims or any key.
    pub fn reason_code(&self) -> (name: &'static str)
        ensures
            name@ == self.spec_reason_code(),
    {
        match self {
            AuthError::Rejected(reason) => reason.code(),
            AuthError::UserNotFound => "UserNotFound",
        }
    }

    /// The response a caller sees for this error: always the same
    /// unauthorized response, whatever the cause.
    pub fn to_response(&self) -> (error: UnauthorizedError)
        ensures
            error@ == unauthorized(),
    {
        create_unauthorized_error()
    }
}

} // verus!
