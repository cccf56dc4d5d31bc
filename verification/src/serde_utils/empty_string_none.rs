//! An optional string whose empty value is carried as absent.
use vstd::prelude::*;

verus! {

/// An absent or empty string reads as absent; any other string as itself.
pub open spec fn normalized(x: Option<Seq<char>>) -> Option<Seq<char>> {
    match x {
        None => None,
        Some(s) => if s.len() == 0 {
            None
        } else {
            Some(s)
        },
    }
}

pub open spec fn opt_view(x: Option<String>) -> Option<Seq<char>> {
    match x {
        None => None,
        Some(s) => Some(s@),
    }
}

/// What an optional string field is written as: nothing for an absent or empty string.
pub fn serialize(x: &Option<String>) -> (res: Option<&str>)
    ensures
        match res {
            None => normalized(opt_view(*x)) is None,
            Some(s) => normalized(opt_view(*x)) == Some(s@),
        },
{
    match x {
        None => None,
        Some(s) => if s.as_str().is_empty() {
            None
        } else {
            Some(s.as_str())
        },
    }
}

/// What an optional string field is read as: absent for an absent or empty string.
pub fn deserialize(opt: Option<String>) -> (res: Option<String>)
    ensures
        opt_view(res) == normalized(opt_view(opt)),
{
    match opt {
        None => None,
        Some(s) => if s.as_str().is_empty() {
            None
        } else {
            Some(s)
        },
    }
}

/// Reading back what was written gives the normalized value, and normalizing twice
/// changes nothing.
pub proof fn law_normalized_idempotent(x: Option<Seq<char>>)
    ensures
        normalized(normalized(x)) == normalized(x),
{
}

} // verus!
