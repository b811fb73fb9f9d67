use token_auth::algorithm::{Algorithm, KeyFamily};
use token_auth::claims::{
    check_claims, read_claims, read_header, read_issuer, ClaimSet, TokenHeader,
};
use token_auth::error::RejectionReason;
use token_auth::keys::KeyParameters;
use token_auth::text::same_text;
use token_auth::token::{find_segments, Segments};

fn claims(audience: &str, expiry: i64, not_before: i64) -> ClaimSet {
    ClaimSet {
        identity: "alice@example.com".to_string(),
        issuer: "https://issuer.example/signup".to_string(),
        audience: audience.to_string(),
        expiry,
        not_before,
    }
}

#[test]
fn three_segments_are_found() {
    assert_eq!(find_segments("abc.def.ghi"), Some(Segments { first_dot: 3, second_dot: 7 }));
    assert_eq!(find_segments("a.b.c"), Some(Segments { first_dot: 1, second_dot: 3 }));
    assert_eq!(
        find_segments("eyJh-_09.AZaz.x"),
        Some(Segments { first_dot: 8, second_dot: 13 })
    );
}

#[test]
fn wrong_number_of_segments_is_malformed() {
    assert_eq!(find_segments(""), None);
    assert_eq!(find_segments("abc"), None);
    assert_eq!(find_segments("abc.def"), None);
    assert_eq!(find_segments("a.b.c.d"), None);
    assert_eq!(find_segments(".."), None);
}

#[test]
fn empty_segments_are_malformed() {
    assert_eq!(find_segments(".b.c"), None);
    assert_eq!(find_segments("a..c"), None);
    assert_eq!(find_segments("a.b."), None);
}

#[test]
fn characters_outside_the_alphabet_are_malformed() {
    assert_eq!(find_segments("a+b.c.d"), None);
    assert_eq!(find_segments("a.b/c.d"), None);
    assert_eq!(find_segments("a.b.c="), None);
    assert_eq!(find_segments("a.b .c"), None);
    assert_eq!(find_segments("a.b.\u{e9}"), None);
    assert_eq!(find_segments("Bearer a.b.c"), None);
}

#[test]
fn text_is_compared_exactly() {
    assert!(same_text("kid-1", "kid-1"));
    assert!(!same_text("kid-1", "kid-2"));
    assert!(!same_text("kid-1", "KID-1"));
    assert!(!same_text("kid-1", "kid-10"));
    assert!(same_text("", ""));
}

#[test]
fn algorithms_are_read_by_name() {
    assert_eq!(Algorithm::parse("RS256"), Some(Algorithm::RS256));
    assert_eq!(Algorithm::parse("PS512"), Some(Algorithm::PS512));
    assert_eq!(Algorithm::parse("HS256"), Some(Algorithm::HS256));
    assert_eq!(Algorithm::parse("ES384"), Some(Algorithm::ES384));
    assert_eq!(Algorithm::parse("EdDSA"), Some(Algorithm::EdDSA));
    assert_eq!(Algorithm::parse("rs256"), None);
    assert_eq!(Algorithm::parse("none"), None);
    assert_eq!(Algorithm::parse(""), None);
}

#[test]
fn every_algorithm_reads_back_from_its_name() {
    let all = [
        Algorithm::HS256,
        Algorithm::HS384,
        Algorithm::HS512,
        Algorithm::ES256,
        Algorithm::ES384,
        Algorithm::RS256,
        Algorithm::RS384,
        Algorithm::RS512,
        Algorithm::PS256,
        Algorithm::PS384,
        Algorithm::PS512,
        Algorithm::EdDSA,
    ];
    for algorithm in all {
        assert_eq!(Algorithm::parse(algorithm.name()), Some(algorithm));
    }
}

#[test]
fn algorithms_belong_to_families() {
    assert_eq!(Algorithm::RS256.family(), KeyFamily::Rsa);
    assert_eq!(Algorithm::PS384.family(), KeyFamily::Rsa);
    assert_eq!(Algorithm::HS512.family(), KeyFamily::Hmac);
    assert_eq!(Algorithm::ES256.family(), KeyFamily::EllipticCurve);
    assert_eq!(Algorithm::EdDSA.family(), KeyFamily::Edwards);
    let rsa = KeyParameters::Rsa { modulus: "AQAB".to_string(), exponent: "AQAB".to_string() };
    assert_eq!(rsa.family(), KeyFamily::Rsa);
    assert_eq!(KeyParameters::EllipticCurve.family(), KeyFamily::EllipticCurve);
    assert_eq!(KeyParameters::OctetKeyPair.family(), KeyFamily::Edwards);
    assert_eq!(KeyParameters::Octet.family(), KeyFamily::Hmac);
}

#[test]
fn header_needs_known_algorithm_and_key_id() {
    assert_eq!(
        read_header("RS256", Some("kid-1".to_string())),
        Ok(TokenHeader { algorithm: Algorithm::RS256, key_id: "kid-1".to_string() })
    );
    assert_eq!(read_header("RS256", None), Err(RejectionReason::MissingKeyId));
    assert_eq!(read_header("XX000", Some("kid-1".to_string())), Err(RejectionReason::Malformed));
    assert_eq!(read_header("XX000", None), Err(RejectionReason::Malformed));
}

#[test]
fn claims_are_read_from_a_payload() {
    let payload: serde_json::Value = serde_json::from_str(
        "{\"email\":\"alice@example.com\",\"iss\":\"https://issuer.example/signup\",\
         \"aud\":\"app\",\"exp\":2000,\"nbf\":1000,\"extra\":true}",
    )
    .unwrap();
    assert_eq!(read_claims(&payload), Some(claims("app", 2000, 1000)));
}

#[test]
fn claims_with_a_missing_or_mistyped_member_are_not_read() {
    let missing_nbf: serde_json::Value = serde_json::from_str(
        "{\"email\":\"a@b.c\",\"iss\":\"i\",\"aud\":\"app\",\"exp\":2000}",
    )
    .unwrap();
    assert_eq!(read_claims(&missing_nbf), None);
    let text_expiry: serde_json::Value = serde_json::from_str(
        "{\"email\":\"a@b.c\",\"iss\":\"i\",\"aud\":\"app\",\"exp\":\"2000\",\"nbf\":1}",
    )
    .unwrap();
    assert_eq!(read_claims(&text_expiry), None);
    let list_audience: serde_json::Value = serde_json::from_str(
        "{\"email\":\"a@b.c\",\"iss\":\"i\",\"aud\":[\"app\"],\"exp\":2000,\"nbf\":1}",
    )
    .unwrap();
    assert_eq!(read_claims(&list_audience), None);
    let not_an_object: serde_json::Value = serde_json::from_str("[1,2,3]").unwrap();
    assert_eq!(read_claims(&not_an_object), None);
}

#[test]
fn audience_must_match_exactly() {
    let c = claims("app", 2000, 1000);
    assert_eq!(check_claims(&c, "app", 1500, 60), Ok(()));
    assert_eq!(check_claims(&c, "other", 1500, 60), Err(RejectionReason::AudienceMismatch));
    assert_eq!(check_claims(&c, "App", 1500, 60), Err(RejectionReason::AudienceMismatch));
    assert_eq!(check_claims(&c, "ap", 1500, 60), Err(RejectionReason::AudienceMismatch));
}

#[test]
fn audience_is_judged_before_time() {
    let c = claims("app", 2000, 1000);
    assert_eq!(check_claims(&c, "other", 9999, 60), Err(RejectionReason::AudienceMismatch));
    assert_eq!(check_claims(&c, "other", 0, 60), Err(RejectionReason::AudienceMismatch));
}

#[test]
fn expiry_tolerates_exactly_the_skew() {
    let c = claims("app", 2000, 1000);
    assert_eq!(check_claims(&c, "app", 2000, 60), Ok(()));
    assert_eq!(check_claims(&c, "app", 2060, 60), Ok(()));
    assert_eq!(check_claims(&c, "app", 2061, 60), Err(RejectionReason::Expired));
    assert_eq!(check_claims(&c, "app", 2000, 0), Ok(()));
    assert_eq!(check_claims(&c, "app", 2001, 0), Err(RejectionReason::Expired));
}

#[test]
fn not_before_tolerates_exactly_the_skew() {
    let c = claims("app", 2000, 1000);
    assert_eq!(check_claims(&c, "app", 1000, 60), Ok(()));
    assert_eq!(check_claims(&c, "app", 940, 60), Ok(()));
    assert_eq!(check_claims(&c, "app", 939, 60), Err(RejectionReason::NotYetValid));
    assert_eq!(check_claims(&c, "app", 999, 0), Err(RejectionReason::NotYetValid));
}

#[test]
fn expiry_is_judged_before_not_before() {
    let c = claims("app", 1000, 5000);
    assert_eq!(check_claims(&c, "app", 3000, 60), Err(RejectionReason::Expired));
}

#[test]
fn extreme_times_do_not_overflow() {
    let c = claims("app", i64::MAX, i64::MIN);
    assert_eq!(check_claims(&c, "app", i64::MAX, u32::MAX), Ok(()));
    assert_eq!(check_claims(&c, "app", i64::MIN, u32::MAX), Ok(()));
    let d = claims("app", i64::MIN, i64::MIN);
    assert_eq!(check_claims(&d, "app", i64::MAX, u32::MAX), Err(RejectionReason::Expired));
    let e = claims("app", i64::MAX, i64::MAX);
    assert_eq!(check_claims(&e, "app", i64::MIN, u32::MAX), Err(RejectionReason::NotYetValid));
}

#[test]
fn issuer_is_read_without_the_other_claims() {
    let issuer_only: serde_json::Value =
        serde_json::from_str("{\"iss\":\"https://issuer.example/signup\"}").unwrap();
    assert_eq!(read_issuer(&issuer_only), Some("https://issuer.example/signup".to_string()));
    assert_eq!(read_claims(&issuer_only), None);
    let no_issuer: serde_json::Value = serde_json::from_str("{\"aud\":\"app\"}").unwrap();
    assert_eq!(read_issuer(&no_issuer), None);
    let number_issuer: serde_json::Value = serde_json::from_str("{\"iss\":7}").unwrap();
    assert_eq!(read_issuer(&number_issuer), None);
}
