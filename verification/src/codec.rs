//! The outside codecs the library relies on: base64, SHA-256 and a source of entropy.
use vstd::prelude::*;

use base64::prelude::{Engine as _, BASE64_STANDARD, BASE64_URL_SAFE_NO_PAD};
use sha2::{Digest as _, Sha256};

verus! {

#[verifier::external_type_specification]
#[verifier::external_body]
pub struct ExBase64DecodeError(base64::DecodeError);

/// What decoding `input` as unpadded URL-safe base64 yields (`None` when it is not such text).
pub uninterp spec fn base64_url_nopad_decoding(input: Seq<char>) -> Option<Seq<u8>>;

/// The padded standard base64 text of `bytes`.
pub uninterp spec fn base64_std_encoding(bytes: Seq<u8>) -> Seq<char>;

/// What decoding the text bytes `input` as padded standard base64 yields (`None` when
/// they are not such text).
pub uninterp spec fn base64_std_decoding(input: Seq<u8>) -> Option<Seq<u8>>;

/// The SHA-256 digest of `bytes`.
pub uninterp spec fn sha256_digest(bytes: Seq<u8>) -> Seq<u8>;

/// `BASE64_URL_SAFE_NO_PAD.decode` of the base64 crate: the result is a function of
/// the text alone.
#[verifier::external_body]
pub(crate) fn b64_url_nopad_decode(input: &str) -> (res: Result<Vec<u8>, base64::DecodeError>)
    ensures
        res is Ok <==> base64_url_nopad_decoding(input@) is Some,
        res matches Ok(bytes) ==> bytes@ == base64_url_nopad_decoding(input@)->0,
{
    BASE64_URL_SAFE_NO_PAD.decode(input)
}

/// `BASE64_STANDARD.encode` of the base64 crate: the result is a function of the bytes
/// alone, decoding it with the standard engine gives the bytes back, and it is padded
/// text over the (printable ASCII) standard alphabet, four characters per started group
/// of three bytes.
#[verifier::external_body]
pub(crate) fn b64_std_encode(bytes: &[u8]) -> (res: String)
    ensures
        res@ == base64_std_encoding(bytes@),
        base64_std_decoding(vstd::utf8::encode_utf8(res@)) == Some(bytes@),
        vstd::utf8::is_ascii_chars(res@),
        res@.len() == 4 * ((bytes@.len() + 2) / 3),
{
    BASE64_STANDARD.encode(bytes)
}

/// `BASE64_STANDARD.decode` of the base64 crate: the result is a function of the input alone.
#[verifier::external_body]
pub(crate) fn b64_std_decode(input: &[u8]) -> (res: Result<Vec<u8>, base64::DecodeError>)
    ensures
        res is Ok <==> base64_std_decoding(input@) is Some,
        res matches Ok(bytes) ==> bytes@ == base64_std_decoding(input@)->0,
{
    BASE64_STANDARD.decode(input)
}

/// `Sha256::digest` of the sha2 crate: a 32-byte function of the input.
#[verifier::external_body]
pub(crate) fn sha256(bytes: &[u8]) -> (res: Vec<u8>)
    ensures
        res@ == sha256_digest(bytes@),
        res@.len() == 32,
{
    Sha256::digest(bytes).to_vec()
}

/// `rand::random` of the rand crate: 32 bytes of fresh entropy; nothing is known of
/// their values.
#[verifier::external_body]
pub(crate) fn random_entropy() -> (res: Vec<u8>)
    ensures
        res@.len() == 32,
{
    rand::random::<[u8; 32]>().to_vec()
}
} // verus!
