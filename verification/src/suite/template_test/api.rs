//! Functions exported with plain C wrappers.
use vstd::prelude::*;

verus! {

/// Does nothing.
pub fn func() {
}

/// Takes three arguments and does nothing with them.
pub fn func_with_param(_a: bool, _b: i32, _c: u32) {
}

/// Returns `true`.
pub fn func_with_return() -> (r: bool)
    ensures
        r,
{
    true
}

} // verus!
