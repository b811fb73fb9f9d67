//! The header and the claims of a token, and the rules that claims must meet.

use vstd::prelude::*;
use crate::algorithm::{algorithm_named, Algorithm};
use crate::error::RejectionReason;
use crate::json::{integer_members, member_integer, member_text, text_members};

verus! {

/// The header of a token: read without any check of the signature, and
/// untrusted until that check has passed.
#[derive(Debug, Clone, PartialEq, Eq)]
pub struct TokenHeader {
    pub algorithm: Algorithm,
    pub key_id: String,
}

/// What a `TokenHeader` holds, as plain values.
pub struct TokenHeaderView {
    pub algorithm: Algorithm,
    pub key_id: Seq<char>,
}

impl View for TokenHeader {
    type V = TokenHeaderView;

    open spec fn view(&self) -> TokenHeaderView {
        TokenHeaderView { algorithm: self.algorithm, key_id: self.key_id@ }
    }
}

/// The header that a decoded algorithm name and key identifier make up.
///
/// A name that stands for no algorithm makes the token malformed; a header
/// without key identifier is rejected for that.
pub open spec fn header_from_parts(algorithm: Seq<char>, key_id: Option<Seq<char>>) -> Result<
    TokenHeaderView,
    RejectionReason,
> {
    match algorithm_named(algorithm) {
        None => Err(RejectionReason::Malformed),
        Some(parsed) => match key_id {
            None => Err(RejectionReason::MissingKeyId),
            Some(id) => Ok(TokenHeaderView { algorithm: parsed, key_id: id }),
        },
    }
}

/// Builds the header from the decoded algorithm name and key identifier.
pub fn read_header(algorithm: &str, key_id: Option<String>) -> (header: Result<
    TokenHeader,
    RejectionReason,
>)
    ensures
        match header {
            Ok(h) => header_from_parts(algorithm@, key_id.deep_view()) == Ok::<
                TokenHeaderView,
                RejectionReason,
            >(h@),
            Err(reason) => header_from_parts(algorithm@, key_id.deep_view()) == Err::<
                TokenHeaderView,
                RejectionReason,
            >(reason),
        },
{
    match Algorithm::parse(algorithm) {
        None => Err(RejectionReason::Malformed),
        Some(parsed) => match key_id {
            None => Err(RejectionReason::MissingKeyId),
            Some(id) => Ok(TokenHeader { algorithm: parsed, key_id: id }),
        },
    }
}

/// The claims that the library reads from a token. A claim set says
/// nothing about whether the token's signature was checked.
#[derive(Debug, Clone, PartialEq, Eq)]
pub struct ClaimSet {
    /// The identity claim: the principal that the token speaks for.
    pub identity: String,
    pub issuer: String,
    pub audience: String,
    /// Seconds since the epoch after which the token is no longer valid.
    pub expiry: i64,
    /// Seconds since the epoch before which the token is not yet valid.
    pub not_before: i64,
}

/// What a `ClaimSet` holds, as plain values.
pub struct ClaimSetView {
    pub identity: Seq<char>,
    pub issuer: Seq<char>,
    pub audience: Seq<char>,
    pub expiry: int,
    pub not_before: int,
}

impl View for ClaimSet {
    type V = ClaimSetView;

    open spec fn view(&self) -> ClaimSetView {
        ClaimSetView {
            identity: self.identity@,
            issuer: self.issuer@,
            audience: self.audience@,
            expiry: self.expiry as int,
            not_before: self.not_before as int,
        }
    }
}

impl ClaimSet {
    /// A copy of these claims.
    pub fn duplicate(&self) -> (copy: ClaimSet)
        ensures
            copy@ == self@,
    {
        ClaimSet {
            identity: self.identity.clone(),
            issuer: self.issuer.clone(),
            audience: self.audience.clone(),
            expiry: self.expiry,
            not_before: self.not_before,
        }
    }
}

/// The issuer claim of a payload: its member `iss`, where that is text.
pub open spec fn issuer_from_members(texts: Map<Seq<char>, Seq<char>>) -> Option<Seq<char>> {
    if texts.contains_key("iss"@) {
        Some(texts["iss"@])
    } else {
        None
    }
}

/// Reads the issuer claim out of a decoded payload, and nothing else.
pub fn read_issuer(payload: &serde_json::Value) -> (issuer: Option<String>)
    ensures
        issuer.deep_view() == issuer_from_members(text_members(*payload)),
{
    member_text(payload, "iss")
}

/// The claims that a payload's members make up. All five of `email`, `iss`,
/// `aud`, `exp` and `nbf` are required, the first three as text and the
/// last two as integers; a payload that lacks one has no claim set.
pub open spec fn claims_from_members(
    texts: Map<Seq<char>, Seq<char>>,
    integers: Map<Seq<char>, int>,
) -> Option<ClaimSetView> {
    if texts.contains_key("email"@) && texts.contains_key("iss"@) && texts.contains_key("aud"@)
        && integers.contains_key("exp"@) && integers.contains_key("nbf"@) {
        Some(
            ClaimSetView {
                identity: texts["email"@],
                issuer: texts["iss"@],
                audience: texts["aud"@],
                expiry: integers["exp"@],
                not_before: integers["nbf"@],
            },
        )
    } else {
        None
    }
}

/// Reads the claim set out of a decoded payload.
pub fn read_claims(payload: &serde_json::Value) -> (claims: Option<ClaimSet>)
    ensures
        claims.is_some() == claims_from_members(
            text_members(*payload),
            integer_members(*payload),
        ).is_some(),
        claims matches Some(c) ==> claims_from_members(
            text_members(*payload),
            integer_members(*payload),
        ) == Some(c@),
{
    let identity = member_text(payload, "email");
    let issuer = member_text(payload, "iss");
    let audience = member_text(payload, "aud");
    let expiry = member_integer(payload, "exp");
    let not_before = member_integer(payload, "nbf");
    match (identity, issuer, audience, expiry, not_before) {
        (Some(identity), Some(issuer), Some(audience), Some(expiry), Some(not_before)) => Some(
            ClaimSet { identity, issuer, audience, expiry, not_before },
        ),
        _ => None,
    }
}

/// Why claims fail the rules of an issuer at a given time, if they do.
///
/// The audience must equal the expected audience exactly. The token is
/// expired once `now` is past expiry plus skew, and not yet valid while
/// `now` plus skew is before not-before; both bounds themselves are valid.
/// The audience is judged first, then expiry, then not-before.
pub open spec fn claims_failure(
    claims: ClaimSetView,
    expected_audience: Seq<char>,
    now: int,
    skew: int,
) -> Option<RejectionReason> {
    if claims.audience != expected_audience {
        Some(RejectionReason::AudienceMismatch)
    } else if now > claims.expiry + skew {
        Some(RejectionReason::Expired)
    } else if now + skew < claims.not_before {
        Some(RejectionReason::NotYetValid)
    } else {
        None
    }
}

/// Checks audience and validity period of a claim set. `now` is the
/// current time in seconds since the epoch, `skew` the tolerated clock
/// skew in seconds.
pub fn check_claims(claims: &ClaimSet, expected_audience: &str, now: i64, skew: u32) -> (verdict:
    Result<(), RejectionReason>)
    ensures
        match verdict {
            Ok(_) => claims_failure(claims@, expected_audience@, now as int, skew as int) is None,
            Err(reason) => claims_failure(claims@, expected_audience@, now as int, skew as int)
                == Some(reason),
        },
{
    let expected: String = expected_audience.to_owned();
    if !(claims.audience == expected) {
        return Err(RejectionReason::AudienceMismatch);
    }
    let now_wide: i128 = now as i128;
    let skew_wide: i128 = skew as i128;
    if now_wide > claims.expiry as i128 + skew_wide {
        return Err(RejectionReason::Expired);
    }
    if now_wide + skew_wide < claims.not_before as i128 {
        return Err(RejectionReason::NotYetValid);
    }
    Ok(())
}

/// Claims of a token whose signature was checked against a key of the
/// issuer that the claims name, and that met that issuer's rules.
///
/// Only the token verifier makes one.
#[derive(Debug, Clone, PartialEq, Eq)]
pub struct VerifiedClaims {
    claims: ClaimSet,
}

impl View for VerifiedClaims {
    type V = ClaimSetView;

    closed spec fn view(&self) -> ClaimSetView {
        self.claims@
    }
}

impl VerifiedClaims {
    pub(crate) fn seal(claims: ClaimSet) -> (sealed: VerifiedClaims)
        ensures
            sealed@ == claims@,
    {
        VerifiedClaims { claims }
    }

    /// The identity claim.
    pub fn identity(&self) -> (identity: &str)
        ensures
            identity@ == self@.identity,
    {
        self.claims.identity.as_str()
    }

    /// The issuer that signed the token.
    pub fn issuer(&self) -> (issuer: &str)
        ensures
            issuer@ == self@.issuer,
    {
        self.claims.issuer.as_str()
    }

    /// The audience that the token was issued for.
    pub fn audience(&self) -> (audience: &str)
        ensures
            audience@ == self@.audience,
    {
        self.claims.audience.as_str()
    }

    /// The expiry, in seconds since the epoch.
    pub fn expiry(&self) -> (expiry: i64)
        ensures
            expiry == self@.expiry,
    {
        self.claims.expiry
    }

    /// The not-before time, in seconds since the epoch.
    pub fn not_before(&self) -> (not_before: i64)
        ensures
            not_before == self@.not_before,
    {
        self.claims.not_before
    }
}

} // verus!
