//! The page routes.
use vstd::prelude::*;

verus! {

/// Mount point of the page routes.
pub const PAGES_MOUNT: &'static str = "/";

/// Where the page routes are mounted.
pub fn api() -> (r: &'static str)
    ensures
        r@ == PAGES_MOUNT@,
{
    PAGES_MOUNT
}

} // verus!
