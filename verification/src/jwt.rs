//! JSON web tokens: the claims model, the issuing builder, token splitting and
//! signature checking, and fingerprint binding.
use vstd::prelude::*;

use jsonwebtoken::Algorithm as J;
use jsonwebtoken::DecodingKey;

use crate::codec::{
    b64_std_decode, b64_std_encode, b64_url_nopad_decode, base64_std_decoding, base64_std_encoding,
    base64_url_nopad_decoding, random_entropy, sha256, sha256_digest,
};
use crate::text::{chars_of, find_last, last_index_of, split_at_last, str_eq};

verus! {

/// Name of the cookie that carries the encoded fingerprint entropy.
pub const FINGERPRINT_COOKIE: &'static str = "__Atb-Secure-Fpt";

#[verifier::external_type_specification]
#[verifier::external_body]
pub struct ExSerdeJsonError(serde_json::Error);

#[verifier::external_type_specification]
#[verifier::external_body]
pub struct ExJwtError(jsonwebtoken::errors::Error);

/// The algorithm named by the JSON token header in `bytes` (`None` when the bytes are
/// not such a header).
pub uninterp spec fn header_json_algorithm(bytes: Seq<u8>) -> Option<Algorithm>;

/// The signing algorithms a token header may name.
#[derive(Clone, Copy, Debug, PartialEq, Eq, Structural)]
pub enum Algorithm {
    HS256,
    HS384,
    HS512,
    ES256,
    ES384,
    RS256,
    RS384,
    RS512,
    PS256,
    PS384,
    PS512,
    EdDSA,
}

/// The key a token's signature is checked with, as the signature check reads it:
/// a secret or the DER bytes of a public key, or the modulus and exponent of an RSA
/// public key.
#[derive(Debug, Clone)]
pub enum JwtKey {
    SecretOrDer(Vec<u8>),
    RsaComponents { modulus: Vec<u8>, exponent: Vec<u8> },
}

/// What checking the signature `sig` of the message bytes `msg` with `alg` answers,
/// for a key given by its kind (`components`: modulus and exponent) and bytes:
/// `Some` of the verdict, or `None` when the check fails with an error.
pub uninterp spec fn jwt_signature_verdict(
    sig: Seq<char>,
    msg: Seq<u8>,
    components: bool,
    key_bytes: Seq<u8>,
    key_exponent: Seq<u8>,
    alg: Algorithm,
) -> Option<bool>;

/// The verdict of the signature check for `key`.
pub open spec fn signature_verdict(sig: Seq<char>, msg: Seq<u8>, key: JwtKey, alg: Algorithm) -> Option<bool> {
    match key {
        JwtKey::SecretOrDer(b) => jwt_signature_verdict(sig, msg, false, b@, Seq::empty(), alg),
        JwtKey::RsaComponents { modulus, exponent } => jwt_signature_verdict(
            sig,
            msg,
            true,
            modulus@,
            exponent@,
            alg,
        ),
    }
}

/// Whether the signature check can read `key` for `alg`: HMAC, ECDSA and EdDSA checks
/// read the key's bytes, which a key given by RSA modulus and exponent does not have.
pub open spec fn key_fits(key: JwtKey, alg: Algorithm) -> bool {
    ||| key is SecretOrDer
    ||| alg == Algorithm::RS256
    ||| alg == Algorithm::RS384
    ||| alg == Algorithm::RS512
    ||| alg == Algorithm::PS256
    ||| alg == Algorithm::PS384
    ||| alg == Algorithm::PS512
}

/// Whether the signature check can read `key` for `alg`.
pub fn key_fits_algorithm(key: &JwtKey, alg: Algorithm) -> (res: bool)
    ensures
        res == key_fits(*key, alg),
{
    match key {
        JwtKey::SecretOrDer(_) => true,
        JwtKey::RsaComponents { .. } => match alg {
            Algorithm::RS256 | Algorithm::RS384 | Algorithm::RS512 | Algorithm::PS256
            | Algorithm::PS384 | Algorithm::PS512 => true,
            _ => false,
        },
    }
}

/// Why a token was refused.
#[derive(Debug)]
pub enum JwtError {
    /// The token does not consist of a header, claims and signature separated by dots.
    InvalidToken,
    /// The token's header names another algorithm than the one expected, or the
    /// signature does not match.
    Algorithm,
    Base64Decode(base64::DecodeError),
    SerdeJson(serde_json::Error),
    Crypto(jsonwebtoken::errors::Error),
}

/// The message a token error is reported with, given the display text `inner` of the
/// error it wraps, if any.
pub open spec fn jwt_error_message(e: JwtError, inner: Seq<char>) -> Seq<char> {
    match e {
        JwtError::InvalidToken => "invalid jwt token structure"@,
        JwtError::Algorithm => "mismatched jwt algorithm header"@,
        JwtError::Base64Decode(_) => "base64: "@ + inner,
        JwtError::SerdeJson(_) => "serde json : "@ + inner,
        JwtError::Crypto(_) => "jwt crypto: "@ + inner,
    }
}

/// Whether `inner` is the display text of the error `e` wraps (empty when it wraps none).
pub open spec fn jwt_error_inner(e: JwtError, inner: String) -> bool {
    match e {
        JwtError::Base64Decode(d) => vstd::string::to_string_from_display_ensures::<
            base64::DecodeError,
        >(&d, inner),
        JwtError::SerdeJson(d) => vstd::string::to_string_from_display_ensures::<serde_json::Error>(
            &d,
            inner,
        ),
        JwtError::Crypto(d) => vstd::string::to_string_from_display_ensures::<
            jsonwebtoken::errors::Error,
        >(&d, inner),
        _ => inner@ == Seq::<char>::empty(),
    }
}

impl JwtError {
    /// The message the error is reported with.
    pub fn message(&self) -> (res: String)
        ensures
            exists|inner: String| jwt_error_inner(*self, inner) && res@ == jwt_error_message(*self, inner@),
    {
        let (prefix, inner) = match self {
            JwtError::InvalidToken => ("invalid jwt token structure", String::new()),
            JwtError::Algorithm => ("mismatched jwt algorithm header", String::new()),
            JwtError::Base64Decode(e) => ("base64: ", e.to_string()),
            JwtError::SerdeJson(e) => ("serde json : ", e.to_string()),
            JwtError::Crypto(e) => ("jwt crypto: ", e.to_string()),
        };
        proof {
            reveal_strlit("invalid jwt token structure");
            reveal_strlit("mismatched jwt algorithm header");
            assert(jwt_error_inner(*self, inner));
        }
        let res = prefix.to_owned().concat(inner.as_str());
        proof {
            assert(res@ =~= jwt_error_message(*self, inner@));
        }
        res
    }
}

// ---------------------------------------------------------------------------
// Outside results
// ---------------------------------------------------------------------------

/// `serde_json::from_slice::<jsonwebtoken::Header>`, read for the header's algorithm:
/// a function of the bytes alone.
#[verifier::external_body]
fn parse_header_algorithm(bytes: &[u8]) -> (res: Result<Algorithm, serde_json::Error>)
    ensures
        res is Ok <==> header_json_algorithm(bytes@) is Some,
        res matches Ok(alg) ==> alg == header_json_algorithm(bytes@)->0,
{
    let header = match serde_json::from_slice::<jsonwebtoken::Header>(bytes) { Ok(h) => h, Err(e) => return Err(e) };
    Ok(match header.alg {
        J::HS256 => Algorithm::HS256, J::HS384 => Algorithm::HS384, J::HS512 => Algorithm::HS512,
        J::ES256 => Algorithm::ES256, J::ES384 => Algorithm::ES384, J::RS256 => Algorithm::RS256,
        J::RS384 => Algorithm::RS384, J::RS512 => Algorithm::RS512, J::PS256 => Algorithm::PS256,
        J::PS384 => Algorithm::PS384, J::PS512 => Algorithm::PS512, J::EdDSA => Algorithm::EdDSA,
    })
}

/// `jsonwebtoken::crypto::verify`, with the `DecodingKey` built from `key`
/// (`from_secret` keeps the bytes, `from_rsa_raw_components` the modulus and exponent;
/// the check reads nothing else of the key): whether `signature` signs the bytes of
/// `message` with `alg`, a function of these alone, or the error the check failed with.
/// An HMAC, ECDSA or EdDSA check of a key given by modulus and exponent panics, so
/// `requires` leaves it out.
#[verifier::external_body]
fn verify_signature(signature: &str, message: &str, key: &JwtKey, alg: Algorithm) -> (res: Result<
    bool,
    jsonwebtoken::errors::Error,
>)
    requires
        key_fits(*key, alg),
    ensures
        match *key {
            JwtKey::SecretOrDer(b) => jwt_signature_verdict(
                signature@,
                vstd::utf8::encode_utf8(message@),
                false,
                b@,
                Seq::empty(),
                alg,
            ) == res.ok(),
            JwtKey::RsaComponents { modulus, exponent } => jwt_signature_verdict(
                signature@,
                vstd::utf8::encode_utf8(message@),
                true,
                modulus@,
                exponent@,
                alg,
            ) == res.ok(),
        },
{
    let key = match key {
        JwtKey::SecretOrDer(b) => DecodingKey::from_secret(b),
        JwtKey::RsaComponents { modulus, exponent } => DecodingKey::from_rsa_raw_components(modulus, exponent),
    };
    let alg = match alg {
        Algorithm::HS256 => J::HS256, Algorithm::HS384 => J::HS384, Algorithm::HS512 => J::HS512,
        Algorithm::ES256 => J::ES256, Algorithm::ES384 => J::ES384, Algorithm::RS256 => J::RS256,
        Algorithm::RS384 => J::RS384, Algorithm::RS512 => J::RS512, Algorithm::PS256 => J::PS256,
        Algorithm::PS384 => J::PS384, Algorithm::PS512 => J::PS512, Algorithm::EdDSA => J::EdDSA,
    };
    jsonwebtoken::crypto::verify(signature, message.as_bytes(), &key, alg)
}

#[verifier::external_type_specification]
#[verifier::external_body]
pub struct ExUuidError(uuid::Error);

/// The UUID that `text` spells, as its 128-bit value (`None` when `text` is not one).
pub uninterp spec fn uuid_parsed(text: Seq<char>) -> Option<u128>;

/// `uuid::Uuid::parse_str`, the UUID taken by its 128-bit value: a function of the text
/// alone, which fails with the parser's report exactly when the text spells no UUID.
#[verifier::external_body]
fn parse_uuid(text: &str) -> (res: Result<u128, uuid::Error>)
    ensures
        res.ok() == uuid_parsed(text@),
{
    match uuid::Uuid::parse_str(text) {
        Ok(u) => Ok(u.as_u128()),
        Err(e) => Err(e),
    }
}

/// Why a subject is not a UUID: the parser's report.
#[derive(Debug)]
pub struct InvalidUuid(pub uuid::Error);

// ---------------------------------------------------------------------------
// Token structure
// ---------------------------------------------------------------------------

/// The header, claims and signature parts of `token`: the signature follows the last
/// dot, the claims follow the dot before it, and the header is everything in front
/// (a token with fewer than two dots has no parts).
pub open spec fn token_parts(token: Seq<char>) -> Option<(Seq<char>, Seq<char>, Seq<char>)> {
    match split_at_last(token, '.') {
        None => None,
        Some((message, signature)) => match split_at_last(message, '.') {
            None => None,
            Some((header, claims)) => Some((header, claims, signature)),
        },
    }
}

/// The signed part of `token`: everything before the last dot.
pub open spec fn token_message(token: Seq<char>) -> Seq<char> {
    token.take(last_index_of(token, '.'))
}

/// The decoded bytes of the token's header part.
pub open spec fn token_header_bytes(token: Seq<char>) -> Option<Seq<u8>> {
    match token_parts(token) {
        Some((h, _c, _s)) => base64_url_nopad_decoding(h),
        None => None,
    }
}

/// The algorithm the token's header names.
pub open spec fn token_header_algorithm(token: Seq<char>) -> Option<Algorithm> {
    match token_header_bytes(token) {
        Some(hb) => header_json_algorithm(hb),
        None => None,
    }
}

/// The decoded bytes of the token's claims part.
pub open spec fn token_claims_bytes(token: Seq<char>) -> Option<Seq<u8>> {
    match token_parts(token) {
        Some((_h, c, _s)) => base64_url_nopad_decoding(c),
        None => None,
    }
}

/// The parts of a token, as text.
#[derive(Debug, Clone)]
pub struct TokenParts {
    pub header: String,
    pub claims: String,
    pub signature: String,
    /// `header.claims`, the text the signature covers.
    pub message: String,
}

/// Splits `token` into its header, claims and signature parts, splitting from the right.
pub fn split_token(token: &str) -> (res: Result<TokenParts, JwtError>)
    ensures
        token_parts(token@) is None ==> res matches Err(JwtError::InvalidToken),
        token_parts(token@) matches Some((h, c, s)) ==> (res matches Ok(parts) && parts.header@
            == h && parts.claims@ == c && parts.signature@ == s && parts.message@
            == token_message(token@)),
{
    let chars = chars_of(token);
    let n = chars.len();
    proof {
        assert(chars@.take(n as int) =~= token@);
    }
    match find_last(&chars, '.', n) {
        None => Err(JwtError::InvalidToken),
        Some(i) => {
            proof {
                crate::text::lemma_last_index_of(token@, '.');
                assert(chars@.take(i as int) =~= token@.take(i as int));
            }
            match find_last(&chars, '.', i) {
                None => Err(JwtError::InvalidToken),
                Some(j) => {
                    proof {
                        crate::text::lemma_last_index_of(chars@.take(i as int), '.');
                    }
                    let message = token.substring_char(0, i);
                    let signature = token.substring_char(i + 1, n);
                    let header = token.substring_char(0, j);
                    let claims = token.substring_char(j + 1, i);
                    proof {
                        let m = token@.take(i as int);
                        assert(m.take(j as int) =~= token@.subrange(0, j as int));
                        assert(m.skip(j + 1) =~= token@.subrange(j + 1, i as int));
                        assert(token@.skip(i + 1) =~= token@.subrange(i + 1, n as int));
                        assert(token@.take(i as int) =~= token@.subrange(0, i as int));
                    }
                    Ok(
                        TokenParts {
                            header: header.to_owned(),
                            claims: claims.to_owned(),
                            signature: signature.to_owned(),
                            message: message.to_owned(),
                        },
                    )
                },
            }
        },
    }
}

/// What a token's claims part decodes to once the signature has been judged:
/// the verdict of the signature check decides, then the claims text is base64-decoded.
pub fn finish_decode(claims: &str, verdict: Result<bool, jsonwebtoken::errors::Error>) -> (res:
    Result<Vec<u8>, JwtError>)
    ensures
        verdict is Err ==> res matches Err(JwtError::Crypto(_)),
        verdict == Ok::<bool, jsonwebtoken::errors::Error>(false) ==> res matches Err(
            JwtError::Algorithm,
        ),
        verdict == Ok::<bool, jsonwebtoken::errors::Error>(true) && base64_url_nopad_decoding(
            claims@,
        ) is None ==> res matches Err(JwtError::Base64Decode(_)),
        verdict == Ok::<bool, jsonwebtoken::errors::Error>(true) && base64_url_nopad_decoding(
            claims@,
        ) is Some ==> (res matches Ok(payload) && payload@ == base64_url_nopad_decoding(
            claims@,
        )->0),
        res matches Ok(payload) ==> verdict == Ok::<bool, jsonwebtoken::errors::Error>(true)
            && base64_url_nopad_decoding(claims@) == Some(payload@),
{
    match verdict {
        Err(e) => Err(JwtError::Crypto(e)),
        Ok(false) => Err(JwtError::Algorithm),
        Ok(true) => match b64_url_nopad_decode(claims) {
            Ok(bytes) => Ok(bytes),
            Err(e) => Err(JwtError::Base64Decode(e)),
        },
    }
}

/// The signature part of `token`: everything after the last dot.
pub open spec fn token_signature(token: Seq<char>) -> Seq<char> {
    token.skip(last_index_of(token, '.') + 1)
}

/// The verdict of checking the token's signature against its signed part with `key`
/// and `alg`.
pub open spec fn token_verdict(token: Seq<char>, alg: Algorithm, key: JwtKey) -> Option<bool> {
    signature_verdict(
        token_signature(token),
        vstd::utf8::encode_utf8(token_message(token)),
        key,
        alg,
    )
}

/// What decoding `token` against `alg` and `key` gives: the structure is checked first,
/// then the header's encoding, its JSON and its algorithm, then the signature, and
/// last the claims' encoding, whose bytes are the result.
pub open spec fn decode_outcome(
    token: Seq<char>,
    alg: Algorithm,
    key: JwtKey,
    res: Result<Vec<u8>, JwtError>,
) -> bool {
    if token_parts(token) is None {
        res matches Err(JwtError::InvalidToken)
    } else if token_header_bytes(token) is None {
        res matches Err(JwtError::Base64Decode(_))
    } else if token_header_algorithm(token) is None {
        res matches Err(JwtError::SerdeJson(_))
    } else if token_header_algorithm(token) != Some(alg) {
        res matches Err(JwtError::Algorithm)
    } else {
        match token_verdict(token, alg, key) {
            None => res matches Err(JwtError::Crypto(_)),
            Some(false) => res matches Err(JwtError::Algorithm),
            Some(true) => match token_claims_bytes(token) {
                None => res matches Err(JwtError::Base64Decode(_)),
                Some(payload) => res matches Ok(v) && v@ == payload,
            },
        }
    }
}

/// The algorithm the header of `token` names, if the token has parts and its header
/// decodes to JSON that names one.
pub fn header_algorithm(token: &str) -> (res: Option<Algorithm>)
    ensures
        res == token_header_algorithm(token@),
{
    let parts = match split_token(token) {
        Ok(p) => p,
        Err(_) => return None,
    };
    let header_bytes = match b64_url_nopad_decode(parts.header.as_str()) {
        Ok(b) => b,
        Err(_) => return None,
    };
    match parse_header_algorithm(header_bytes.as_slice()) {
        Ok(a) => Some(a),
        Err(_) => None,
    }
}

/// Checks `token` against the expected algorithm and key and returns the decoded
/// claims payload (JSON bytes). The header's algorithm must equal `alg` before the
/// signature is checked.
pub fn decode_payload(token: &str, alg: Algorithm, key: &JwtKey) -> (res: Result<Vec<u8>, JwtError>)
    requires
        key_fits(*key, alg) || token_header_algorithm(token@) != Some(alg),
    ensures
        decode_outcome(token@, alg, *key, res),
        res is Ok <==> token_header_algorithm(token@) == Some(alg) && token_verdict(token@, alg, *key)
            == Some(true) && token_claims_bytes(token@) is Some,
{
    let parts = match split_token(token) {
        Ok(p) => p,
        Err(e) => return Err(e),
    };
    let header_bytes = match b64_url_nopad_decode(parts.header.as_str()) {
        Ok(b) => b,
        Err(e) => return Err(JwtError::Base64Decode(e)),
    };
    let header_alg = match parse_header_algorithm(header_bytes.as_slice()) {
        Ok(a) => a,
        Err(e) => return Err(JwtError::SerdeJson(e)),
    };
    if header_alg != alg {
        return Err(JwtError::Algorithm);
    }
    proof {
        crate::text::lemma_last_index_of(token@, '.');
    }
    let verdict = verify_signature(parts.signature.as_str(), parts.message.as_str(), key, alg);
    finish_decode(parts.claims.as_str(), verdict)
}

/// `decode_payload` where the key can be read for `alg`; `None` where it cannot and
/// the token's header names `alg`, so that the signature check would be asked of a key
/// it cannot read.
pub fn try_decode_payload(token: &str, alg: Algorithm, key: &JwtKey) -> (res: Option<
    Result<Vec<u8>, JwtError>,
>)
    ensures
        res is None <==> !key_fits(*key, alg) && token_header_algorithm(token@) == Some(alg),
        res matches Some(r) ==> decode_outcome(token@, alg, *key, r),
{
    if !key_fits_algorithm(key, alg) {
        match header_algorithm(token) {
            Some(a) => {
                if a == alg {
                    return None;
                }
            },
            None => {},
        }
    }
    Some(decode_payload(token, alg, key))
}

// ---------------------------------------------------------------------------
// Claims
// ---------------------------------------------------------------------------

/// The absence of custom claims.
#[derive(Debug, Default, PartialEq, Eq, Clone, Copy, Structural)]
pub struct NoCustom;

/// The registered claims of a token, a fingerprint hash and optional custom claims.
/// `iat`, `nbf` and `exp` are NumericDate values: seconds since the Unix epoch.
#[derive(Debug, Clone, PartialEq)]
pub struct Claims<T> {
    pub iss: String,
    pub sub: String,
    pub iat: i64,
    /// 0 when unset.
    pub nbf: i64,
    pub exp: i64,
    pub aud: Vec<String>,
    /// Standard base64 of the SHA-256 digest of the fingerprint entropy.
    pub fpt: Option<String>,
    pub custom: Option<T>,
}

/// Whether a NumericDate claim is unset (written as 0), in which case it is left out
/// of the encoded claims.
pub fn is_zero(num: &i64) -> (res: bool)
    ensures
        res == (*num == 0),
{
    *num == 0
}

/// Whether `encoded` is the standard base64 text of entropy whose digest, encoded the
/// same way, is the fingerprint hash `fpt`.
pub open spec fn fingerprint_matches(fpt: Option<Seq<char>>, encoded: Seq<char>) -> bool {
    match fpt {
        None => false,
        Some(hash) => match base64_std_decoding(vstd::utf8::encode_utf8(encoded)) {
            None => false,
            Some(entropy) => base64_std_encoding(sha256_digest(entropy)) == hash,
        },
    }
}

/// The fingerprint hash of the claims, as characters.
pub open spec fn fingerprint_view<T>(c: &Claims<T>) -> Option<Seq<char>> {
    match &c.fpt {
        Some(h) => Some(h@),
        None => None,
    }
}

/// The claim names that custom claims may not reuse.
pub open spec fn is_reserved_claim_key(key: Seq<char>) -> bool {
    ||| key == "iss"@
    ||| key == "sub"@
    ||| key == "iat"@
    ||| key == "exp"@
    ||| key == "nbf"@
    ||| key == "aud"@
    ||| key == "fpt"@
}

/// Whether one of `keys` (the top-level keys of serialized custom claims) is the name
/// of a registered or fingerprint claim.
pub open spec fn keys_clash(keys: Seq<String>) -> bool {
    exists|i: int| 0 <= i < keys.len() && is_reserved_claim_key(#[trigger] keys[i]@)
}

/// Custom claims clash exactly when one of their keys is `iss`, `sub`, `iat`, `exp`,
/// `nbf`, `aud` or `fpt`: a key with any of these names makes them clash, and keys with
/// none of these names do not.
pub proof fn law_registered_names_clash(keys: Seq<String>)
    ensures
        keys_clash(keys) <==> exists|i: int|
            0 <= i < keys.len() && {
                let k = #[trigger] keys[i]@;
                ||| k == seq!['i', 's', 's']
                ||| k == seq!['s', 'u', 'b']
                ||| k == seq!['i', 'a', 't']
                ||| k == seq!['e', 'x', 'p']
                ||| k == seq!['n', 'b', 'f']
                ||| k == seq!['a', 'u', 'd']
                ||| k == seq!['f', 'p', 't']
            },
{
    reveal_strlit("iss");
    reveal_strlit("sub");
    reveal_strlit("iat");
    reveal_strlit("exp");
    reveal_strlit("nbf");
    reveal_strlit("aud");
    reveal_strlit("fpt");
    assert("iss"@ =~= seq!['i', 's', 's']);
    assert("sub"@ =~= seq!['s', 'u', 'b']);
    assert("iat"@ =~= seq!['i', 'a', 't']);
    assert("exp"@ =~= seq!['e', 'x', 'p']);
    assert("nbf"@ =~= seq!['n', 'b', 'f']);
    assert("aud"@ =~= seq!['a', 'u', 'd']);
    assert("fpt"@ =~= seq!['f', 'p', 't']);
}

/// Whether one of `keys` (the top-level keys of serialized custom claims) is the name
/// of a registered or fingerprint claim.
pub fn custom_keys_clash(keys: &Vec<String>) -> (res: bool)
    ensures
        res == keys_clash(keys@),
{
    proof {
        reveal_strlit("iss");
        reveal_strlit("sub");
        reveal_strlit("iat");
        reveal_strlit("exp");
        reveal_strlit("nbf");
        reveal_strlit("aud");
        reveal_strlit("fpt");
    }
    let mut i: usize = 0;
    while i < keys.len()
        invariant
            i <= keys.len(),
            forall|j: int| 0 <= j < i ==> !is_reserved_claim_key(#[trigger] keys@[j]@),
        decreases keys.len() - i,
    {
        let k = keys[i].as_str();
        if str_eq(k, "iss") || str_eq(k, "sub") || str_eq(k, "iat") || str_eq(k, "exp") || str_eq(
            k,
            "nbf",
        ) || str_eq(k, "aud") || str_eq(k, "fpt") {
            return true;
        }
        i = i + 1;
    }
    false
}

impl<T> Claims<T> {
    pub fn issuer(&self) -> (res: &str)
        ensures
            res@ == self.iss@,
    {
        self.iss.as_str()
    }

    pub fn subject(&self) -> (res: &str)
        ensures
            res@ == self.sub@,
    {
        self.sub.as_str()
    }

    pub fn issued_at(&self) -> (res: i64)
        ensures
            res == self.iat,
    {
        self.iat
    }

    pub fn expiry(&self) -> (res: i64)
        ensures
            res == self.exp,
    {
        self.exp
    }

    pub fn not_before(&self) -> (res: i64)
        ensures
            res == self.nbf,
    {
        self.nbf
    }

    pub fn audience(&self) -> (res: &[String])
        ensures
            res@ == self.aud@,
    {
        self.aud.as_slice()
    }

    pub fn fingerprint(&self) -> (res: Option<&str>)
        ensures
            match res {
                None => self.fpt is None,
                Some(f) => self.fpt is Some && f@ == self.fpt->0@,
            },
    {
        match &self.fpt {
            Some(f) => Some(f.as_str()),
            None => None,
        }
    }

    pub fn custom(&self) -> (res: Option<&T>)
        ensures
            match res {
                None => self.custom is None,
                Some(c) => self.custom == Some(*c),
            },
    {
        match &self.custom {
            Some(c) => Some(c),
            None => None,
        }
    }

    /// The subject read as a UUID, by its 128-bit value.
    pub fn subject_as_uuid(&self) -> (res: Result<u128, InvalidUuid>)
        ensures
            res.ok() == uuid_parsed(self.sub@),
    {
        match parse_uuid(self.sub.as_str()) {
            Ok(v) => Ok(v),
            Err(e) => Err(InvalidUuid(e)),
        }
    }

    /// Whether `encoded` is the fingerprint these claims were issued for.
    pub fn verify_fingerprint(&self, encoded: &str) -> (res: bool)
        ensures
            res == fingerprint_matches(fingerprint_view(self), encoded@),
    {
        let hash = match &self.fpt {
            Some(h) => h,
            None => return false,
        };
        let entropy = match b64_std_decode(encoded.as_bytes()) {
            Ok(e) => e,
            Err(_) => return false,
        };
        let digest = sha256(entropy.as_slice());
        let expected = b64_std_encode(digest.as_slice());
        expected == *hash
    }
}

/// Whether claims expiring at `exp` are still valid at `now` (no leeway).
pub open spec fn unexpired(exp: i64, now: i64) -> bool {
    exp > now
}

/// Expiry check against the current time `now` (seconds since the epoch).
pub fn validate_expiry_at<T>(claims: &Claims<T>, now: i64) -> (res: bool)
    ensures
        res == unexpired(claims.exp, now),
{
    let leeway: i64 = 0;
    claims.exp > now - leeway
}

// ---------------------------------------------------------------------------
// Builder
// ---------------------------------------------------------------------------

/// Assembles the claims of a token to be issued.
#[derive(Debug, Clone, PartialEq)]
pub struct Builder<T>(pub Claims<T>);

impl Builder<NoCustom> {
    /// Claims issued by `issuer` at `issued_at`, expiring at `expires_at`, with no
    /// custom claims.
    pub fn new(issuer: &str, issued_at: i64, expires_at: i64) -> (res: Self)
        ensures
            res.0.iss@ == issuer@,
            res.0.sub@ == Seq::<char>::empty(),
            res.0.iat == issued_at,
            res.0.nbf == 0,
            res.0.exp == expires_at,
            res.0.aud@ == Seq::<String>::empty(),
            res.0.fpt is None,
            res.0.custom is None,
    {
        Builder(
            Claims {
                iss: issuer.to_owned(),
                sub: String::new(),
                iat: issued_at,
                nbf: 0,
                exp: expires_at,
                aud: Vec::new(),
                fpt: None,
                custom: None,
            },
        )
    }
}

impl<T> Builder<T> {
    /// Claims with custom claims `custom`, whose serialized form has the top-level keys
    /// `custom_keys`; custom claims may not reuse the name of a registered or
    /// fingerprint claim.
    pub fn with_custom(
        issuer: &str,
        issued_at: i64,
        expires_at: i64,
        custom: T,
        custom_keys: &Vec<String>,
    ) -> (res: Self)
        requires
            !keys_clash(custom_keys@),
        ensures
            res.0.iss@ == issuer@,
            res.0.sub@ == Seq::<char>::empty(),
            res.0.iat == issued_at,
            res.0.nbf == 0,
            res.0.exp == expires_at,
            res.0.aud@ == Seq::<String>::empty(),
            res.0.fpt is None,
            res.0.custom == Some(custom),
    {
        Builder(
            Claims {
                iss: issuer.to_owned(),
                sub: String::new(),
                iat: issued_at,
                nbf: 0,
                exp: expires_at,
                aud: Vec::new(),
                fpt: None,
                custom: Some(custom),
            },
        )
    }

    pub fn subject(self, sub: String) -> (res: Self)
        ensures
            res.0 == (Claims { sub, ..self.0 }),
    {
        let mut b = self;
        b.0.sub = sub;
        b
    }

    pub fn not_before(self, time: i64) -> (res: Self)
        ensures
            res.0 == (Claims { nbf: time, ..self.0 }),
    {
        let mut b = self;
        b.0.nbf = time;
        b
    }

    pub fn audience(self, audience: Vec<String>) -> (res: Self)
        ensures
            res.0 == (Claims { aud: audience, ..self.0 }),
    {
        let mut b = self;
        b.0.aud = audience;
        b
    }

    pub fn build(self) -> (res: Claims<T>)
        ensures
            res == self.0,
    {
        self.0
    }

    /// The claims with a fresh fingerprint hash, and the encoded entropy that verifies
    /// against it (to be handed to the client, e.g. in a cookie).
    pub fn build_fingerprinted(self) -> (res: (Claims<T>, String))
        ensures
            res.0 == (Claims { fpt: res.0.fpt, ..self.0 }),
            fingerprint_matches(fingerprint_view(&res.0), res.1@),
    {
        let entropy = random_entropy();
        let digest = sha256(entropy.as_slice());
        let mut claims = self.0;
        claims.fpt = Some(b64_std_encode(digest.as_slice()));
        let encoded = b64_std_encode(entropy.as_slice());
        (claims, encoded)
    }
}

} // verus!
