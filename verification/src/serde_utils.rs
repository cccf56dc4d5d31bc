//! The values behind custom serde field adapters: `i64` carried as decimal text, empty
//! strings carried as absent, and bytes carried as base64 text. The serializer and
//! deserializer plumbing itself lives with the serde-derived types.
pub mod decimal;
pub mod i64_as_string;
pub mod empty_string_none;
pub mod bytes_as_base64;

use vstd::prelude::*;

use decimal::{i64_text, parse_i64_text, IntErrorKind};
use empty_string_none::{normalized, opt_view};
use crate::codec::{base64_std_decoding, base64_std_encoding};

verus! {

/// The text an `i64` field is written as (the adapter pair's older name).
pub fn ser_i64_as_string(x: &i64) -> (res: String)
    ensures
        res@ == i64_text(*x),
{
    i64_as_string::serialize(*x)
}

/// The `i64` a text field is read as (the adapter pair's older name).
pub fn de_string_as_i64(text: &str) -> (res: Result<i64, IntErrorKind>)
    ensures
        match parse_i64_text(text@) {
            Ok(v) => res == Ok::<i64, IntErrorKind>(v as i64),
            Err(e) => res == Err::<i64, IntErrorKind>(e),
        },
{
    i64_as_string::deserialize(text)
}

/// What an optional string field is written as: nothing for an absent or empty string.
pub fn ser_empty_string_as_none(x: &Option<String>) -> (res: Option<&str>)
    ensures
        match res {
            None => normalized(opt_view(*x)) is None,
            Some(s) => normalized(opt_view(*x)) == Some(s@),
        },
{
    empty_string_none::serialize(x)
}

/// What an optional string field is read as: absent for an absent or empty string.
pub fn de_empty_as_none(opt: Option<String>) -> (res: Option<String>)
    ensures
        opt_view(res) == normalized(opt_view(opt)),
{
    empty_string_none::deserialize(opt)
}

/// The standard base64 text a byte field is written as.
pub fn ser_bytes_as_base64(bytes: &[u8]) -> (res: String)
    ensures
        res@ == base64_std_encoding(bytes@),
{
    bytes_as_base64::serialize(bytes)
}

/// The bytes a standard base64 text field is read as.
pub fn de_base64_as_bytes(text: &str) -> (res: Result<Vec<u8>, base64::DecodeError>)
    ensures
        res is Ok <==> base64_std_decoding(vstd::utf8::encode_utf8(text@)) is Some,
        res matches Ok(bytes) ==> bytes@ == base64_std_decoding(vstd::utf8::encode_utf8(text@))->0,
{
    bytes_as_base64::deserialize(text)
}

} // verus!
