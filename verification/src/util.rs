//! Small shared helpers.

use vstd::prelude::*;

verus! {

/// Returns the value held by `option`, or `default` when it holds none.
pub fn i32_unwrap_or(option: Option<i32>, default: i32) -> (r: i32)
    ensures
        r == match option {
            Some(value) => value,
            None => default,
        },
{
    match option {
        Some(value) => value,
        None => default,
    }
}

} // verus!
