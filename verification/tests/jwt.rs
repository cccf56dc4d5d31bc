use atb::jwt::{
    custom_keys_clash, decode_payload, header_algorithm, is_zero, key_fits_algorithm,
    try_decode_payload, JwtKey, split_token, validate_expiry_at, Algorithm,
    Builder, JwtError, NoCustom, FINGERPRINT_COOKIE,
};
use base64::prelude::{Engine as _, BASE64_STANDARD};
use jsonwebtoken::{EncodingKey, Header};
use sha2::{Digest as _, Sha256};

const SECRET: &[u8] = b"a shared secret for tests";

fn secret_key() -> JwtKey {
    JwtKey::SecretOrDer(SECRET.to_vec())
}

fn claims_json(sub: &str, exp: i64) -> serde_json::Value {
    let mut map = serde_json::Map::new();
    map.insert("iss".to_owned(), serde_json::Value::String("denis".to_owned()));
    map.insert("sub".to_owned(), serde_json::Value::String(sub.to_owned()));
    map.insert("exp".to_owned(), serde_json::Value::from(exp));
    serde_json::Value::Object(map)
}

fn hs256_token(sub: &str) -> String {
    jsonwebtoken::encode(
        &Header::new(jsonwebtoken::Algorithm::HS256),
        &claims_json(sub, 4_000_000_000),
        &EncodingKey::from_secret(SECRET),
    )
    .unwrap()
}

#[test]
fn decode_payload_returns_the_signed_claims() {
    let token = hs256_token("someone");
    let payload = decode_payload(&token, Algorithm::HS256, &secret_key()).unwrap();
    let value: serde_json::Value = serde_json::from_slice(&payload).unwrap();
    assert_eq!(value, claims_json("someone", 4_000_000_000));
}

#[test]
fn decode_payload_refuses_another_algorithm() {
    let token = hs256_token("someone");
    let res = decode_payload(&token, Algorithm::HS384, &secret_key());
    assert!(matches!(res, Err(JwtError::Algorithm)));
}

#[test]
fn decode_payload_refuses_a_wrong_key() {
    let token = hs256_token("someone");
    let res = decode_payload(&token, Algorithm::HS256, &JwtKey::SecretOrDer(b"other".to_vec()));
    assert!(matches!(res, Err(JwtError::Algorithm)));
}

#[test]
fn decode_payload_refuses_a_token_without_parts() {
    let key = secret_key();
    assert!(matches!(decode_payload("abc", Algorithm::HS256, &key), Err(JwtError::InvalidToken)));
    assert!(matches!(decode_payload("abc.def", Algorithm::HS256, &key), Err(JwtError::InvalidToken)));
}

#[test]
fn decode_payload_reports_a_bad_header() {
    let key = secret_key();
    assert!(matches!(decode_payload("*.e30.sig", Algorithm::HS256, &key), Err(JwtError::Base64Decode(_))));
    // "e30" is `{}`: valid base64, but no header.
    assert!(matches!(decode_payload("e30.e30.sig", Algorithm::HS256, &key), Err(JwtError::SerdeJson(_))));
}

#[test]
fn split_token_splits_from_the_right() {
    let parts = split_token("a.b.c.d").unwrap();
    assert_eq!(parts.header, "a.b");
    assert_eq!(parts.claims, "c");
    assert_eq!(parts.signature, "d");
    assert_eq!(parts.message, "a.b.c");
}

#[test]
fn builder_sets_the_registered_claims() {
    let claims = Builder::new("denis", 100, 200)
        .subject("someone".to_owned())
        .not_before(150)
        .audience(vec!["aud".to_owned()])
        .build();
    assert_eq!(claims.issuer(), "denis");
    assert_eq!(claims.subject(), "someone");
    assert_eq!(claims.issued_at(), 100);
    assert_eq!(claims.expiry(), 200);
    assert_eq!(claims.not_before(), 150);
    assert_eq!(claims.audience(), &["aud".to_owned()]);
    assert_eq!(claims.fingerprint(), None);
    assert_eq!(claims.custom(), None::<&NoCustom>);
}

#[test]
fn jwt_custom_claims_are_carried() {
    let claims = Builder::with_custom("denis", 0, 86_400, "world".to_owned(), &vec![])
        .subject("someone".to_owned())
        .build();
    assert_eq!(claims.custom(), Some(&"world".to_owned()));
    assert_eq!(claims.issuer(), "denis");
}

#[test]
fn custom_keys_that_reuse_a_claim_name_clash() {
    assert!(custom_keys_clash(&vec!["iss".to_owned()]));
    assert!(custom_keys_clash(&vec!["hello".to_owned(), "fpt".to_owned()]));
    assert!(!custom_keys_clash(&vec!["hello".to_owned()]));
    assert!(!custom_keys_clash(&vec![]));
}

#[test]
fn an_issued_fingerprint_verifies() {
    let (claims, fingerprint) = Builder::new("denis", 0, 86_400).build_fingerprinted();
    assert!(claims.fingerprint().is_some());
    assert!(claims.verify_fingerprint(&fingerprint));
    assert!(!claims.verify_fingerprint("AAAA"));
    assert!(!claims.verify_fingerprint("not base64!"));
}

#[test]
fn claims_without_fingerprint_never_verify() {
    let claims = Builder::new("denis", 0, 86_400).build();
    assert!(!claims.verify_fingerprint("AAAA"));
}

#[test]
fn expiry_is_checked_without_leeway() {
    let claims = Builder::new("denis", 0, 1_000).build();
    assert!(validate_expiry_at(&claims, 999));
    assert!(!validate_expiry_at(&claims, 1_000));
    assert!(!validate_expiry_at(&claims, 2_000));
}

#[test]
fn zero_dates_are_unset() {
    assert!(is_zero(&0));
    assert!(!is_zero(&1));
}

#[test]
fn fingerprint_cookie_name() {
    assert_eq!(FINGERPRINT_COOKIE, "__Atb-Secure-Fpt");
}

#[test]
fn fingerprint_hash_is_the_sha256_of_the_entropy() {
    let (claims, fingerprint) = Builder::new("denis", 0, 86_400).build_fingerprinted();
    let entropy = BASE64_STANDARD.decode(&fingerprint).unwrap();
    assert_eq!(entropy.len(), 32);
    let expected = BASE64_STANDARD.encode(Sha256::digest(&entropy));
    assert_eq!(claims.fingerprint(), Some(expected.as_str()));
    assert_ne!(claims.fingerprint(), Some(fingerprint.as_str()));
}

#[test]
fn jwt_error_messages() {
    assert_eq!(JwtError::InvalidToken.message(), "invalid jwt token structure");
    assert_eq!(JwtError::Algorithm.message(), "mismatched jwt algorithm header");
    let e = BASE64_STANDARD.decode("!").unwrap_err();
    let text = e.to_string();
    assert_eq!(JwtError::Base64Decode(e).message(), format!("base64: {text}"));
}

#[test]
fn rsa_component_keys_fit_only_rsa_checks() {
    let key = JwtKey::RsaComponents { modulus: vec![1, 2, 3], exponent: vec![1, 0, 1] };
    assert!(key_fits_algorithm(&key, Algorithm::RS256));
    assert!(key_fits_algorithm(&key, Algorithm::PS512));
    assert!(!key_fits_algorithm(&key, Algorithm::HS256));
    assert!(!key_fits_algorithm(&key, Algorithm::ES256));
    assert!(!key_fits_algorithm(&key, Algorithm::EdDSA));
    assert!(key_fits_algorithm(&secret_key(), Algorithm::EdDSA));
}

#[test]
fn header_algorithm_reads_the_header() {
    assert_eq!(header_algorithm(&hs256_token("someone")), Some(Algorithm::HS256));
    assert_eq!(header_algorithm("e30.e30.sig"), None);
    assert_eq!(header_algorithm("abc"), None);
}

#[test]
fn try_decode_payload_refuses_a_key_the_check_cannot_read() {
    let token = hs256_token("someone");
    let rsa = JwtKey::RsaComponents { modulus: vec![1, 2, 3], exponent: vec![1, 0, 1] };
    assert!(try_decode_payload(&token, Algorithm::HS256, &rsa).is_none());
    // The header names HS256, so an RS256 check is refused before the key is read.
    assert!(matches!(try_decode_payload(&token, Algorithm::RS256, &rsa), Some(Err(JwtError::Algorithm))));
    let payload = try_decode_payload(&token, Algorithm::HS256, &secret_key()).unwrap().unwrap();
    let value: serde_json::Value = serde_json::from_slice(&payload).unwrap();
    assert_eq!(value, claims_json("someone", 4_000_000_000));
}

#[test]
fn decode_payload_refuses_a_tampered_signature() {
    let token = hs256_token("someone");
    let (message, _sig) = token.rsplit_once('.').unwrap();
    let tampered = format!("{message}.AAAA");
    assert!(matches!(decode_payload(&tampered, Algorithm::HS256, &secret_key()), Err(JwtError::Algorithm)));
}

#[test]
fn decode_payload_reports_undecodable_claims_after_a_good_signature() {
    // A token whose claims part is not base64url, signed over exactly that text.
    let header = "eyJhbGciOiJIUzI1NiJ9";
    let message = format!("{header}.*");
    let sig = jsonwebtoken::crypto::sign(message.as_bytes(), &EncodingKey::from_secret(SECRET), jsonwebtoken::Algorithm::HS256).unwrap();
    let token = format!("{message}.{sig}");
    assert!(matches!(decode_payload(&token, Algorithm::HS256, &secret_key()), Err(JwtError::Base64Decode(_))));
}

#[test]
fn subject_as_uuid_reads_a_uuid() {
    let claims = Builder::new("denis", 0, 1)
        .subject("67e55044-10b1-426f-9247-bb680e5fe0c8".to_owned())
        .build();
    assert_eq!(claims.subject_as_uuid().unwrap(), 0x67e55044_10b1_426f_9247_bb680e5fe0c8u128);
    let not_uuid = Builder::new("denis", 0, 1).subject("someone".to_owned()).build();
    assert!(not_uuid.subject_as_uuid().is_err());
}
