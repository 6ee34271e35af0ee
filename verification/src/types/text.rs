//! Small helpers for the optional text fields of the records.

use vstd::prelude::*;

verus! {

/// What an optional text holds.
pub open spec fn text_of(field: Option<String>) -> Option<Seq<char>> {
    match field {
        Some(text) => Some(text@),
        None => None,
    }
}

/// What an optional borrowed text holds.
pub open spec fn str_of(field: Option<&str>) -> Option<Seq<char>> {
    match field {
        Some(text) => Some(text@),
        None => None,
    }
}

/// An owned copy of an optional text.
pub fn owned(field: Option<&str>) -> (copy: Option<String>)
    ensures
        text_of(copy) == str_of(field),
{
    match field {
        Some(text) => Some(text.to_owned()),
        None => None,
    }
}

/// A borrowed form of an optional text.
pub fn borrowed(field: &Option<String>) -> (text: Option<&str>)
    ensures
        str_of(text) == text_of(*field),
{
    match field {
        Some(text) => Some(text.as_str()),
        None => None,
    }
}

} // verus!
