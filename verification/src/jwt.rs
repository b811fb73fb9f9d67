//! The calls into `jsonwebtoken`: decoding, signature checking and reading
//! a published key set.
//!
//! Nothing in this file is proved. Each function hands one call to the
//! outside crate and names what comes back, so that the verified code can
//! say exactly what it does with the result.

use vstd::prelude::*;
use std::str::FromStr;
use jsonwebtoken::jwk::{AlgorithmParameters, JwkSet};
use jsonwebtoken::{DecodingKey, Validation};
use crate::algorithm::is_rsa_algorithm_name;
use crate::json::{integer_members, text_members};
use crate::keys::{key_views, KeyParameters, SigningKey, SigningKeyView};

verus! {

/// What `jsonwebtoken::decode_header` reads from a token: the declared
/// algorithm by name and the key identifier, if the header has one. `None`
/// where the header does not decode.
pub uninterp spec fn decoded_header(token: Seq<char>) -> Option<(Seq<char>, Option<Seq<char>>)>;

/// The claims that `jsonwebtoken::decode` reads from a token when it checks
/// neither signature nor claims: the text members and the integer members
/// of the payload. `None` where the token does not decode.
pub uninterp spec fn decoded_payload(token: Seq<char>) -> Option<
    (Map<Seq<char>, Seq<char>>, Map<Seq<char>, int>),
>;

/// Whether `jsonwebtoken::crypto::verify` accepts a signature over a message
/// for an RSA public key, given by its base64url modulus and exponent, under
/// the algorithm of the given name.
pub uninterp spec fn rsa_signature_valid(
    signature: Seq<char>,
    message: Seq<char>,
    modulus: Seq<char>,
    exponent: Seq<char>,
    algorithm: Seq<char>,
) -> bool;

/// The keys that a key-set document holds, in document order, as `serde_json`
/// reads them into a `jsonwebtoken::jwk::JwkSet`. `None` where the document
/// is not a key set.
pub uninterp spec fn parsed_key_set(body: Seq<char>) -> Option<Seq<SigningKeyView>>;

/// Calls `jsonwebtoken::decode_header`.
///
/// Trusted: the result depends on the token alone. The algorithm is
/// written out under the name of its variant, which is the name that
/// headers use; the key identifier is the header's `kid`.
#[verifier::external_body]
pub(crate) fn decode_header(token: &str) -> (found: Option<(String, Option<String>)>)
    ensures
        match found {
            Some((algorithm, key_id)) => decoded_header(token@) == Some(
                (algorithm@, key_id.deep_view()),
            ),
            None => decoded_header(token@) is None,
        },
{
    let header = jsonwebtoken::decode_header(token).ok()?;
    Some((format!("{:?}", header.alg), header.kid))
}

/// Calls `jsonwebtoken::decode` with signature and claim validation switched
/// off, and hands back the claims as a JSON document.
///
/// Trusted: the result depends on the token alone. Nothing is claimed of
/// what the document holds.
#[verifier::external_body]
pub(crate) fn decode_payload(token: &str) -> (found: Option<serde_json::Value>)
    ensures
        match found {
            Some(claims) => decoded_payload(token@) == Some(
                (text_members(claims), integer_members(claims)),
            ),
            None => decoded_payload(token@) is None,
        },
{
    let mut validation = Validation::default();
    validation.insecure_disable_signature_validation();
    validation.validate_exp = false;
    validation.validate_aud = false;
    validation.required_spec_claims.clear();
    let key = DecodingKey::from_secret(&[]);
    jsonwebtoken::decode::<serde_json::Value>(token, &key, &validation).ok().map(|data| data.claims)
}

/// Builds a key with `DecodingKey::from_rsa_components` and calls
/// `jsonwebtoken::crypto::verify`.
///
/// Trusted: the result depends on the five texts alone. A modulus, exponent
/// or signature that is not base64url counts as a signature that does not
/// verify. The algorithm must be of the RSA family: with any other the
/// outside function does not return.
#[verifier::external_body]
pub(crate) fn verify_rsa(
    signature: &str,
    message: &str,
    modulus: &str,
    exponent: &str,
    algorithm: &str,
) -> (valid: bool)
    requires
        is_rsa_algorithm_name(algorithm@),
    ensures
        valid == rsa_signature_valid(signature@, message@, modulus@, exponent@, algorithm@),
{
    let Ok(algorithm) = jsonwebtoken::Algorithm::from_str(algorithm) else { return false };
    let Ok(key) = DecodingKey::from_rsa_components(modulus, exponent) else { return false };
    jsonwebtoken::crypto::verify(signature, message.as_bytes(), &key, algorithm).unwrap_or(false)
}

/// Calls `serde_json::from_str` for a `jsonwebtoken::jwk::JwkSet` and copies
/// each key's identifier and parameters out.
///
/// Trusted: the result depends on the document alone, and the keys come in
/// document order. Of a key that is not an RSA key only its kind is kept.
#[verifier::external_body]
pub(crate) fn parse_key_set(body: &str) -> (found: Option<Vec<SigningKey>>)
    ensures
        match found {
            Some(keys) => parsed_key_set(body@) == Some(key_views(keys@)),
            None => parsed_key_set(body@) is None,
        },
{
    let set: JwkSet = serde_json::from_str(body).ok()?;
    Some(set.keys.into_iter().map(|jwk| SigningKey {
        key_id: jwk.common.key_id,
        parameters: match jwk.algorithm {
            AlgorithmParameters::RSA(rsa) => KeyParameters::Rsa { modulus: rsa.n, exponent: rsa.e },
            AlgorithmParameters::EllipticCurve(_) => KeyParameters::EllipticCurve,
            AlgorithmParameters::OctetKeyPair(_) => KeyParameters::OctetKeyPair,
            AlgorithmParameters::OctetKey(_) => KeyParameters::Octet,
        },
    }).collect())
}

} // verus!
