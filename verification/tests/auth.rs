use atb::auth::{
    cookie_parts_of, fingerprint_cookie, from_bearer, jwt_from_cookie_parts, to_cookie_parts,
    AuthError,
};

#[test]
fn bearer_token_is_read() {
    assert_eq!(from_bearer(Some(b"Bearer abc.def.ghi")).unwrap(), "abc.def.ghi");
    // Only the first space separates the scheme.
    assert_eq!(from_bearer(Some(b"Bearer a b")).unwrap(), "a b");
}

#[test]
fn bearer_errors() {
    assert!(matches!(from_bearer(None), Err(AuthError::MissingAuthHeader)));
    assert!(matches!(from_bearer(Some(b"Bearer")), Err(AuthError::InvalidHeaderLength)));
    assert!(matches!(from_bearer(Some("Bearer é.x".as_bytes())), Err(AuthError::InvalidHeaderEncoding)));
    assert!(matches!(from_bearer(Some(b"Basic abcdefg")), Err(AuthError::InvalidAuthScheme)));
    assert!(matches!(from_bearer(Some(b"Bearerxyz")), Err(AuthError::InvalidAuthScheme)));
    assert!(matches!(from_bearer(Some(b"NoSpaceAtAll")), Err(AuthError::InvalidAuthScheme)));
}

#[test]
fn bearer_without_payload_is_an_empty_token() {
    // "Bearer " followed by nothing: the header is 7 bytes, too short.
    assert!(matches!(from_bearer(Some(b"Bearer ")), Err(AuthError::InvalidHeaderLength)));
    // With one more byte after the space the token is that byte.
    assert_eq!(from_bearer(Some(b"Bearer x")).unwrap(), "x");
}

#[test]
fn cookie_parts_split_and_rejoin() {
    let (token, sig) = cookie_parts_of("aaa.bbb.ccc").unwrap();
    assert_eq!(token, "aaa.bbb");
    assert_eq!(sig, "ccc");
    let jwt = jwt_from_cookie_parts(Some(&token), Some(&sig)).unwrap();
    assert_eq!(jwt, "aaa.bbb.ccc");
    assert!(cookie_parts_of("nodot").is_none());
}

#[test]
fn missing_cookie_is_an_error() {
    assert!(matches!(jwt_from_cookie_parts(Some("a"), None), Err(AuthError::Message(_))));
    assert!(matches!(jwt_from_cookie_parts(None, Some("a")), Err(AuthError::Message(_))));
}

#[test]
fn token_cookies_carry_their_flags() {
    let (claims, sig) = to_cookie_parts(("tok", "sig"), "aaa.bbb.ccc".to_owned(), 1_700_000_000, "example.com", false).unwrap();
    assert_eq!(claims.name, "tok");
    assert_eq!(claims.value, "aaa.bbb");
    assert_eq!(claims.domain, "example.com");
    assert_eq!(claims.path, "/");
    assert!(!claims.secure && !claims.http_only);
    assert_eq!(sig.name, "sig");
    assert_eq!(sig.value, "ccc");
    assert!(sig.secure && sig.http_only);
    assert_eq!(claims.expires, 1_700_000_000);
    assert_eq!(sig.expires, 1_700_000_000);

    let (_, debug_sig) = to_cookie_parts(("tok", "sig"), "a.b".to_owned(), 0, "example.com", true).unwrap();
    assert!(!debug_sig.secure && !debug_sig.http_only);
}

#[test]
fn token_cookies_need_a_dot_and_a_date() {
    assert!(to_cookie_parts(("tok", "sig"), "nodot".to_owned(), 0, "example.com", false).is_none());
    assert!(to_cookie_parts(("tok", "sig"), "a.b".to_owned(), i64::MAX, "example.com", false).is_none());
}

#[test]
fn fingerprint_cookie_is_secure() {
    let c = fingerprint_cookie("example.com", "FPT".to_owned(), 1_700_000_000).unwrap();
    assert_eq!(c.name, "__Atb-Secure-Fpt");
    assert_eq!(c.value, "FPT");
    assert!(c.secure && c.http_only);
    assert_eq!(c.expires, 1_700_000_000);
    assert!(matches!(fingerprint_cookie("example.com", "FPT".to_owned(), i64::MIN), Err(AuthError::Message("invalid expiry i64 value"))));
}

#[test]
fn auth_error_messages() {
    assert_eq!(AuthError::MissingAuthHeader.message(), "missing authorization header");
    assert_eq!(AuthError::InvalidHeaderLength.message(), "invalid authorization header length");
    assert_eq!(AuthError::InvalidHeaderEncoding.message(), "invalid authorization header encoding");
    assert_eq!(AuthError::InvalidAuthScheme.message(), "invalid authorization scheme");
    assert_eq!(AuthError::MissingAuthPayload.message(), "missing authorization payload");
    assert_eq!(AuthError::Message("custom").message(), "custom");
    assert_eq!(AuthError::Decode(atb::jwt::JwtError::InvalidToken).message(), "decode: invalid jwt token structure");
}

#[test]
fn cookie_expiry_range_is_years_minus_9999_to_9999() {
    assert!(fingerprint_cookie("example.com", "F".to_owned(), -377_705_116_800).is_ok());
    assert!(fingerprint_cookie("example.com", "F".to_owned(), -377_705_116_801).is_err());
    assert!(fingerprint_cookie("example.com", "F".to_owned(), 253_402_300_799).is_ok());
    assert!(fingerprint_cookie("example.com", "F".to_owned(), 253_402_300_800).is_err());
    assert!(to_cookie_parts(("tok", "sig"), "a.b".to_owned(), -377_705_203_200, "example.com", false).is_none());
}
