//! Lenient decoding of the boolean-like values the compositor's JSON replies
//! carry. The JSON text itself is decoded by the embedding application; the
//! scalar shapes it can hand over, and the acceptance rule, are fixed here.

use vstd::prelude::*;

verus! {

/// The shape of one JSON scalar, as handed over by the embedding
/// application. Arrays and objects arrive as `Composite`; numbers that do
/// not fit a signed 64-bit integer arrive as `NonIntegerNumber`.
#[derive(Clone, Debug)]
pub enum JsonScalar {
    Bool(bool),
    Text(String),
    Integer(i64),
    NonIntegerNumber,
    Null,
    Composite,
}

/// The lenient boolean rule: booleans stand for themselves; the strings
/// `"yes"` and `"1"` are true, every other string false; an integer is true
/// when nonzero; null is false; anything else is rejected.
pub open spec fn spec_lenient_bool(value: JsonScalar) -> Option<bool> {
    match value {
        JsonScalar::Bool(b) => Option::Some(b),
        JsonScalar::Text(s) => Option::Some(s@ == "yes"@ || s@ == "1"@),
        JsonScalar::Integer(n) => Option::Some(n != 0),
        JsonScalar::NonIntegerNumber => Option::None,
        JsonScalar::Null => Option::Some(false),
        JsonScalar::Composite => Option::None,
    }
}

/// Decodes a boolean-like JSON scalar; `None` exactly for the rejected
/// shapes.
pub fn lenient_bool(value: &JsonScalar) -> (r: Option<bool>)
    ensures
        r == spec_lenient_bool(*value),
{
    match value {
        JsonScalar::Bool(b) => Option::Some(*b),
        JsonScalar::Text(s) => Option::Some(
            crate::text::str_eq(s.as_str(), "yes") || crate::text::str_eq(s.as_str(), "1"),
        ),
        JsonScalar::Integer(n) => Option::Some(*n != 0),
        JsonScalar::NonIntegerNumber => Option::None,
        JsonScalar::Null => Option::Some(false),
        JsonScalar::Composite => Option::None,
    }
}

} // verus!
