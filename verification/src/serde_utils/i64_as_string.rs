//! An `i64` carried as its decimal text.
use vstd::prelude::*;

use super::decimal::{i64_text, i64_to_text, parse_i64, parse_i64_text, IntErrorKind};

verus! {

/// The text an `i64` field is written as.
pub fn serialize(x: i64) -> (res: String)
    ensures
        res@ == i64_text(x),
{
    i64_to_text(x)
}

/// The `i64` a text field is read as.
pub fn deserialize(text: &str) -> (res: Result<i64, IntErrorKind>)
    ensures
        match parse_i64_text(text@) {
            Ok(v) => res == Ok::<i64, IntErrorKind>(v as i64),
            Err(e) => res == Err::<i64, IntErrorKind>(e),
        },
{
    parse_i64(text)
}

} // verus!
