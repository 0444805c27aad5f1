//! Small helpers on optional values.

use vstd::prelude::*;

verus! {

/// `dest` if it holds a value, else `default`.
pub open spec fn spec_fallback_to<T>(dest: Option<T>, default: Option<T>) -> Option<T> {
    if dest is Some {
        dest
    } else {
        default
    }
}

/// Keeps a value that is set and fills one that is not.
pub fn fallback_to<T>(dest: Option<T>, default: Option<T>) -> (filled: Option<T>)
    ensures
        filled == spec_fallback_to(dest, default),
{
    match dest {
        Some(value) => Some(value),
        None => default,
    }
}

/// A copy of the name of a fallback, if there is one.
pub fn clone_fallback_name(fallback: &Option<String>) -> (copy: Option<String>)
    ensures
        copy == *fallback,
{
    match fallback {
        Some(name) => Some(name.clone()),
        None => None,
    }
}

} // verus!
