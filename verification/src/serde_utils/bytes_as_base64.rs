//! Bytes carried as standard base64 text.
use vstd::prelude::*;

use crate::codec::{b64_std_decode, b64_std_encode, base64_std_decoding, base64_std_encoding};

verus! {

/// The text a byte field is written as.
pub fn serialize(bytes: &[u8]) -> (res: String)
    ensures
        res@ == base64_std_encoding(bytes@),
        base64_std_decoding(vstd::utf8::encode_utf8(res@)) == Some(bytes@),
{
    b64_std_encode(bytes)
}

/// The bytes a text field is read as.
pub fn deserialize(text: &str) -> (res: Result<Vec<u8>, base64::DecodeError>)
    ensures
        res is Ok <==> base64_std_decoding(vstd::utf8::encode_utf8(text@)) is Some,
        res matches Ok(bytes) ==> bytes@ == base64_std_decoding(vstd::utf8::encode_utf8(text@))->0,
{
    b64_std_decode(text.as_bytes())
}

} // verus!
