//! What can be learned from a token alone, and the check of its signature
//! against one key.

use vstd::prelude::*;
use vstd::string::*;
use crate::algorithm::{lemma_rsa_family_name, KeyFamily};
use crate::claims::{
    claims_from_members, header_from_parts, issuer_from_members, read_claims, read_header,
    read_issuer, ClaimSet, ClaimSetView, TokenHeader, TokenHeaderView,
};
use crate::error::RejectionReason;
use crate::jwt::{
    decode_header, decode_payload, decoded_header, decoded_payload, rsa_signature_valid,
    verify_rsa,
};
use crate::keys::{KeyParameters, KeyParametersView, SigningKey, SigningKeyView};
use crate::token::{
    find_segments, is_well_formed, lemma_split_position, lemma_split_unique, splits_at,
};

verus! {

/// A token that has the right shape, whose header decodes and whose
/// payload names an issuer. Nothing in it is trusted yet.
#[derive(Debug, Clone)]
pub struct Candidate {
    pub header: TokenHeader,
    /// The issuer claim, by which the signing key is looked up.
    pub issuer: String,
    /// The full claim set, where the payload holds every required claim.
    /// It is asked for only once the signature has been checked.
    pub claims: Option<ClaimSet>,
}

/// What a `Candidate` holds, as plain values.
pub struct CandidateView {
    pub header: TokenHeaderView,
    pub issuer: Seq<char>,
    pub claims: Option<ClaimSetView>,
}

impl View for Candidate {
    type V = CandidateView;

    open spec fn view(&self) -> CandidateView {
        CandidateView {
            header: self.header@,
            issuer: self.issuer@,
            claims: match self.claims {
                Some(claims) => Some(claims@),
                None => None,
            },
        }
    }
}

/// What a token says of itself, or why it cannot be read.
///
/// The shape is judged first, on the characters alone. Then the header is
/// decoded, then the payload, far enough to read the issuer claim: a
/// payload that does not decode, or that holds no issuer claim as text,
/// makes the token malformed. A token that fails here is rejected without
/// any key being looked up.
///
/// The other claims are not demanded here. The candidate carries the full
/// claim set where the payload holds one, for the steps that follow the
/// check of the signature.
pub open spec fn inspected(token: Seq<char>) -> Result<CandidateView, RejectionReason> {
    if !is_well_formed(token) {
        Err(RejectionReason::Malformed)
    } else {
        match decoded_header(token) {
            None => Err(RejectionReason::Malformed),
            Some((algorithm, key_id)) => match header_from_parts(algorithm, key_id) {
                Err(reason) => Err(reason),
                Ok(header) => match decoded_payload(token) {
                    None => Err(RejectionReason::Malformed),
                    Some((texts, integers)) => match issuer_from_members(texts) {
                        None => Err(RejectionReason::Malformed),
                        Some(issuer) => Ok(
                            CandidateView {
                                header,
                                issuer,
                                claims: claims_from_members(texts, integers),
                            },
                        ),
                    },
                },
            },
        }
    }
}

/// The full claim set of a candidate names the issuer that the candidate
/// was read with.
pub proof fn lemma_claims_name_the_issuer(token: Seq<char>)
    requires
        inspected(token) is Ok,
        inspected(token)->Ok_0.claims is Some,
    ensures
        inspected(token)->Ok_0.claims->Some_0.issuer == inspected(token)->Ok_0.issuer,
{
}

/// The part of a well-formed token that is signed: header and claims
/// segment with the dot between them.
pub open spec fn signed_message(token: Seq<char>) -> Seq<char> {
    let (first, second) = choose|first: int, second: int| splits_at(token, first, second);
    token.subrange(0, second)
}

/// The signature segment of a well-formed token.
pub open spec fn signature_segment(token: Seq<char>) -> Seq<char> {
    let (first, second) = choose|first: int, second: int| splits_at(token, first, second);
    token.subrange(second + 1, token.len() as int)
}

/// Whether a token's signature holds under a key.
///
/// The algorithm that the header declares must belong to the family of
/// the key: a token that declares an algorithm of another family is
/// turned away before any signature is computed. Of the families only RSA
/// is supported; under a key of another family no signature holds.
pub open spec fn signature_holds(
    token: Seq<char>,
    header: TokenHeaderView,
    key: SigningKeyView,
) -> bool {
    &&& is_well_formed(token)
    &&& header.algorithm.spec_family() == key.parameters.family()
    &&& match key.parameters {
        KeyParametersView::Rsa { modulus, exponent } => rsa_signature_valid(
            signature_segment(token),
            signed_message(token),
            modulus,
            exponent,
            header.algorithm.spec_name(),
        ),
        _ => false,
    }
}

/// A well-formed token holds only characters of the ASCII range.
pub proof fn lemma_well_formed_is_ascii(token: Seq<char>)
    requires
        is_well_formed(token),
    ensures
        vstd::utf8::is_ascii_chars(token),
{
    let (first, second) = choose|first: int, second: int| splits_at(token, first, second);
    assert forall|k: int| 0 <= k < token.len() implies '\0' <= #[trigger] token[k] <= '\u{7f}' by {
        lemma_split_position(token, first, second, k);
    }
}

/// Reads what a token says of itself: its shape, its header, its issuer
/// claim and, where the payload holds one, its full claim set.
pub fn inspect(token: &str) -> (outcome: Result<Candidate, RejectionReason>)
    ensures
        match outcome {
            Ok(candidate) => inspected(token@) == Ok::<CandidateView, RejectionReason>(candidate@),
            Err(reason) => inspected(token@) == Err::<CandidateView, RejectionReason>(reason),
        },
{
    if find_segments(token).is_none() {
        return Err(RejectionReason::Malformed);
    }
    let (algorithm, key_id) = match decode_header(token) {
        Some(parts) => parts,
        None => {
            return Err(RejectionReason::Malformed);
        },
    };
    let header = match read_header(algorithm.as_str(), key_id) {
        Ok(header) => header,
        Err(reason) => {
            return Err(reason);
        },
    };
    let payload = match decode_payload(token) {
        Some(payload) => payload,
        None => {
            return Err(RejectionReason::Malformed);
        },
    };
    match read_issuer(&payload) {
        Some(issuer) => Ok(Candidate { header, issuer, claims: read_claims(&payload) }),
        None => Err(RejectionReason::Malformed),
    }
}

/// Checks the signature of a token against one key, under the algorithm
/// that the header declares.
pub fn check_signature(token: &str, header: &TokenHeader, key: &SigningKey) -> (holds: bool)
    ensures
        holds == signature_holds(token@, header@, key@),
{
    let segments = match find_segments(token) {
        Some(segments) => segments,
        None => {
            return false;
        },
    };
    proof {
        let (first, second) = choose|first: int, second: int| splits_at(token@, first, second);
        lemma_split_unique(
            token@,
            first,
            second,
            segments.first_dot as int,
            segments.second_dot as int,
        );
        lemma_well_formed_is_ascii(token@);
    }
    if header.algorithm.family() != key.parameters.family() {
        return false;
    }
    match &key.parameters {
        KeyParameters::Rsa { modulus, exponent } => {
            let length: usize = token.unicode_len();
            let message = token.substring_ascii(0, segments.second_dot);
            let signature = token.substring_ascii(segments.second_dot + 1, length);
            proof {
                lemma_rsa_family_name(header.algorithm);
            }
            verify_rsa(
                signature,
                message,
                modulus.as_str(),
                exponent.as_str(),
                header.algorithm.name(),
            )
        },
        _ => false,
    }
}

} // verus!
