use token_auth::auth::Auth;
use token_auth::error::{create_unauthorized_error, AuthError, RejectionReason};
use token_auth::issuer::{Issuer, IssuerRegistry};
use token_auth::keys::{KeyParameters, KeySet, SigningKey};
use token_auth::user::{User, UserDirectory};
use token_auth::validator::{RefreshState, TokenValidator};

fn rsa_key(key_id: Option<&str>, modulus: &str) -> SigningKey {
    SigningKey {
        key_id: key_id.map(|id| id.to_string()),
        parameters: KeyParameters::Rsa {
            modulus: modulus.to_string(),
            exponent: "AQAB".to_string(),
        },
    }
}

fn issuer(name: &str, audience: &str) -> Issuer {
    Issuer::new(name.to_string(), format!("{}/keys", name), audience.to_string())
}

#[test]
fn issuer_claims_resolve_by_exact_match() {
    let registry = IssuerRegistry::new(vec![
        issuer("https://issuer.example/signup", "a"),
        issuer("https://issuer.example/signin", "b"),
    ]);
    assert_eq!(registry.len(), 2);
    assert_eq!(registry.resolve("https://issuer.example/signup"), Some(0));
    assert_eq!(registry.resolve("https://issuer.example/signin"), Some(1));
    assert_eq!(registry.get(1).expected_audience, "b");
    assert_eq!(registry.get(0).metadata_url, "https://issuer.example/signup/keys");
}

#[test]
fn near_misses_of_an_issuer_name_are_unknown() {
    let registry = IssuerRegistry::new(vec![issuer("https://issuer.example/signup", "a")]);
    assert_eq!(registry.resolve("https://issuer.example/sign"), None);
    assert_eq!(registry.resolve("https://issuer.example/signup2"), None);
    assert_eq!(registry.resolve("issuer.example"), None);
    assert_eq!(registry.resolve("https://issuer.example/SIGNUP"), None);
    assert_eq!(registry.resolve("*"), None);
    assert_eq!(registry.resolve(""), None);
    assert_eq!(IssuerRegistry::new(Vec::new()).resolve("https://issuer.example/signup"), None);
}

#[test]
fn first_of_two_issuers_of_one_name_is_taken() {
    let registry = IssuerRegistry::new(vec![
        issuer("same", "first"),
        issuer("other", "x"),
        issuer("same", "second"),
    ]);
    assert_eq!(registry.resolve("same"), Some(0));
    assert_eq!(registry.resolve("other"), Some(1));
}

#[test]
fn keys_are_found_by_identifier() {
    let set = KeySet::fetched(
        "issuer".to_string(),
        vec![rsa_key(None, "AAAA"), rsa_key(Some("kid-1"), "BBBB"), rsa_key(Some("kid-2"), "CCCC")],
        17,
    );
    assert_eq!(set.find("kid-1"), Some(&rsa_key(Some("kid-1"), "BBBB")));
    assert_eq!(set.find("kid-2"), Some(&rsa_key(Some("kid-2"), "CCCC")));
    assert_eq!(set.find("kid-3"), None);
    assert_eq!(set.find(""), None);
    assert_eq!(set.find("kid"), None);
    assert_eq!(set.fetched_at, Some(17));
}

#[test]
fn first_of_two_keys_of_one_identifier_is_found() {
    let set = KeySet::fetched(
        "issuer".to_string(),
        vec![rsa_key(Some("kid-1"), "AAAA"), rsa_key(Some("kid-1"), "BBBB")],
        0,
    );
    assert_eq!(set.find("kid-1"), Some(&rsa_key(Some("kid-1"), "AAAA")));
}

#[test]
fn empty_key_set_finds_nothing() {
    let set = KeySet::empty("issuer".to_string());
    assert_eq!(set.issuer_name, "issuer");
    assert_eq!(set.keys, Vec::new());
    assert_eq!(set.fetched_at, None);
    assert_eq!(set.find("kid-1"), None);
}

#[test]
fn copies_of_keys_are_equal() {
    let key = rsa_key(Some("kid-1"), "AAAA");
    assert_eq!(key.duplicate(), key);
    let bare = SigningKey { key_id: None, parameters: KeyParameters::EllipticCurve };
    assert_eq!(bare.duplicate(), bare);
    assert_eq!(KeyParameters::Octet.duplicate(), KeyParameters::Octet);
    assert_eq!(KeyParameters::OctetKeyPair.duplicate(), KeyParameters::OctetKeyPair);
}

#[test]
fn installed_keys_replace_the_cached_ones() {
    let mut v = TokenValidator::new(vec![issuer("one", "a"), issuer("two", "b")], 30);
    assert!(v.install_keys(1, Some(vec![rsa_key(Some("k1"), "AAAA")]), 5));
    assert!(v.install_keys(
        1,
        Some(vec![
            rsa_key(Some("k2"), "BBBB"),
            SigningKey { key_id: Some("ec".to_string()), parameters: KeyParameters::EllipticCurve },
        ]),
        9
    ));
    let fetched = vec![
        rsa_key(Some("k2"), "BBBB"),
        SigningKey { key_id: Some("ec".to_string()), parameters: KeyParameters::EllipticCurve },
    ];
    let set = v.key_set(1).unwrap();
    assert_eq!(set.issuer_name, "two");
    assert_eq!(set.keys, fetched);
    assert_eq!(set.fetched_at, Some(9));
    assert_eq!(v.refresh_state(1), Some(RefreshState::Idle));
    assert!(!v.install_keys(1, None, 11));
    assert_eq!(v.key_set(1).unwrap().keys, fetched);
    assert_eq!(v.key_set(1).unwrap().fetched_at, Some(9));
    assert_eq!(v.refresh_state(1), Some(RefreshState::Failed));
    assert_eq!(v.key_set(0).unwrap().keys, Vec::new());
    assert_eq!(v.refresh_state(0), Some(RefreshState::Idle));
}

#[test]
fn new_validator_has_empty_key_sets() {
    let v = TokenValidator::new(vec![issuer("one", "a"), issuer("two", "b")], 0);
    assert_eq!(v.skew(), 0);
    assert_eq!(v.issuers().len(), 2);
    assert_eq!(v.key_set(0), Some(&KeySet::empty("one".to_string())));
    assert_eq!(v.key_set(1), Some(&KeySet::empty("two".to_string())));
    assert_eq!(v.key_set(2), None);
    assert_eq!(v.refresh_state(0), Some(RefreshState::Idle));
    let none = TokenValidator::new(Vec::new(), 0);
    assert_eq!(none.issuers().len(), 0);
    assert_eq!(none.key_set(0), None);
}

#[test]
fn a_failed_refresh_can_be_tried_again() {
    let mut v = TokenValidator::new(vec![issuer("one", "a")], 0);
    assert_eq!(v.begin_refresh(0), Some("one/keys".to_string()));
    assert_eq!(v.begin_refresh(0), None);
    assert!(!v.install_keys(0, None, 1));
    assert_eq!(v.refresh_state(0), Some(RefreshState::Failed));
    assert_eq!(v.begin_refresh(0), Some("one/keys".to_string()));
    assert_eq!(v.refresh_state(0), Some(RefreshState::InFlight));
}

#[test]
fn users_are_looked_up_by_principal_name() {
    let directory = UserDirectory::new(vec![
        User::new("u1".to_string(), "alice@example.com".to_string()),
        User::new("u2".to_string(), "bob@example.com".to_string()),
        User::new("u3".to_string(), "alice@example.com".to_string()),
    ]);
    assert_eq!(
        directory.lookup("alice@example.com"),
        Some(User { id: "u1".to_string(), upn: "alice@example.com".to_string() })
    );
    assert_eq!(
        directory.lookup("bob@example.com"),
        Some(User { id: "u2".to_string(), upn: "bob@example.com".to_string() })
    );
    assert_eq!(directory.lookup("carol@example.com"), None);
    assert_eq!(directory.lookup("alice"), None);
    assert_eq!(directory.lookup("u1"), None);
    assert_eq!(UserDirectory::new(Vec::new()).lookup("alice@example.com"), None);
}

#[test]
fn a_user_copies_field_by_field() {
    let user = User::new("u1".to_string(), "alice@example.com".to_string());
    assert_eq!(user.id, "u1");
    assert_eq!(user.upn, "alice@example.com");
    assert_eq!(user.duplicate(), user);
}

#[test]
fn unauthorized_response_is_401() {
    let error = create_unauthorized_error();
    assert_eq!(error.message, "Unauthorized");
    assert_eq!(error.status, 401);
    assert_eq!(error.code, "UNAUTHORIZED");
}

#[test]
fn every_cause_gives_the_same_response() {
    let causes = [
        AuthError::Rejected(RejectionReason::Malformed),
        AuthError::Rejected(RejectionReason::MissingKeyId),
        AuthError::Rejected(RejectionReason::UnknownIssuer),
        AuthError::Rejected(RejectionReason::KeyNotFound),
        AuthError::Rejected(RejectionReason::BadSignature),
        AuthError::Rejected(RejectionReason::AudienceMismatch),
        AuthError::Rejected(RejectionReason::Expired),
        AuthError::Rejected(RejectionReason::NotYetValid),
        AuthError::Rejected(RejectionReason::UpstreamUnavailable),
        AuthError::UserNotFound,
    ];
    for cause in causes {
        assert_eq!(cause.to_response(), create_unauthorized_error());
    }
}

#[test]
fn reason_codes_name_the_cause() {
    assert_eq!(RejectionReason::Malformed.code(), "Malformed");
    assert_eq!(RejectionReason::MissingKeyId.code(), "MissingKeyId");
    assert_eq!(RejectionReason::UnknownIssuer.code(), "UnknownIssuer");
    assert_eq!(RejectionReason::KeyNotFound.code(), "KeyNotFound");
    assert_eq!(RejectionReason::BadSignature.code(), "BadSignature");
    assert_eq!(RejectionReason::AudienceMismatch.code(), "AudienceMismatch");
    assert_eq!(RejectionReason::Expired.code(), "Expired");
    assert_eq!(RejectionReason::NotYetValid.code(), "NotYetValid");
    assert_eq!(RejectionReason::UpstreamUnavailable.code(), "UpstreamUnavailable");
    assert_eq!(AuthError::Rejected(RejectionReason::Expired).reason_code(), "Expired");
    assert_eq!(AuthError::UserNotFound.reason_code(), "UserNotFound");
}

#[test]
fn connection_payload_yields_the_token() {
    let payload: serde_json::Value =
        serde_json::from_str("{\"Authorization\":\"a.b.c\",\"other\":1}").unwrap();
    assert_eq!(Auth::on_connection_init(&payload).map(|t| t.0), Some("a.b.c".to_string()));
}

#[test]
fn connection_payload_without_token_yields_none() {
    for text in ["{}", "{\"authorization\":\"a.b.c\"}", "{\"Authorization\":17}", "null", "\"a.b.c\"", "[\"Authorization\"]"] {
        let payload: serde_json::Value = serde_json::from_str(text).unwrap();
        assert!(Auth::on_connection_init(&payload).is_none());
    }
}

#[test]
fn request_headers_yield_the_token() {
    let mut headers = axum::http::HeaderMap::new();
    headers.insert("content-type", axum::http::HeaderValue::from_static("application/json"));
    headers.insert("authorization", axum::http::HeaderValue::from_static("a.b.c"));
    assert_eq!(Auth::get_token_from_headers(&headers).map(|t| t.0), Some("a.b.c".to_string()));
}

#[test]
fn first_of_two_authorization_headers_is_taken() {
    let mut headers = axum::http::HeaderMap::new();
    headers.append("Authorization", axum::http::HeaderValue::from_static("first"));
    headers.append("Authorization", axum::http::HeaderValue::from_static("second"));
    assert_eq!(Auth::get_token_from_headers(&headers).map(|t| t.0), Some("first".to_string()));
}

#[test]
fn request_without_readable_token_yields_none() {
    let mut headers = axum::http::HeaderMap::new();
    assert!(Auth::get_token_from_headers(&headers).is_none());
    headers.insert("x-authorization", axum::http::HeaderValue::from_static("a.b.c"));
    assert!(Auth::get_token_from_headers(&headers).is_none());
    headers.insert("authorization", axum::http::HeaderValue::from_bytes(&[0xe9, 0x20]).unwrap());
    assert!(Auth::get_token_from_headers(&headers).is_none());
}

#[test]
fn cached_keys_are_served_by_issuer_and_identifier() {
    let mut v = TokenValidator::new(vec![issuer("one", "a"), issuer("two", "b")], 0);
    assert!(v.install_keys(1, Some(vec![rsa_key(Some("k1"), "AAAA")]), 5));
    assert_eq!(v.get_key(1, "k1"), Some(&rsa_key(Some("k1"), "AAAA")));
    assert_eq!(v.get_key(1, "k2"), None);
    assert_eq!(v.get_key(0, "k1"), None);
    assert_eq!(v.get_key(2, "k1"), None);
}
