//! Bearer-token validation against externally hosted signing keys.
//!
//! A raw token is checked for shape, matched to one of several trusted
//! issuers, verified against that issuer's cached key set, validated for
//! audience and time, and finally mapped to an application user.
pub mod algorithm;
pub mod auth;
pub mod candidate;
pub mod claims;
pub mod error;
pub mod headers;
pub mod issuer;
pub mod json;
pub mod jwt;
pub mod keys;
pub mod laws;
pub mod text;
pub mod token;
pub mod user;
pub mod validator;

pub use crate::algorithm::{Algorithm, KeyFamily};
pub use crate::auth::{
    authenticate, authenticate_after_refresh, create_user_from_token, is_token_valid, Auth,
    AuthExtension, AuthStep,
};
pub use crate::claims::{ClaimSet, TokenHeader, VerifiedClaims};
pub use crate::error::{create_unauthorized_error, AuthError, RejectionReason, UnauthorizedError};
pub use crate::issuer::{Issuer, IssuerRegistry};
pub use crate::keys::{KeyParameters, KeySet, SigningKey};
pub use crate::token::Token;
pub use crate::user::{User, UserDirectory};
pub use crate::validator::{RefreshState, TokenValidator, Verdict};
