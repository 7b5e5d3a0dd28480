//! The engine's single source of randomness, behind a trusted wrapper.

use vstd::prelude::*;

verus! {

/// Relies on rand::random_range (rand 0.10), which draws from the
/// thread-local generator a value uniformly distributed in the given range
/// and panics only on an empty range. Nothing can be promised of which
/// value comes back beyond its bounds.
#[verifier::external_body]
pub(crate) fn rand_below(n: u32) -> (r: u32)
    requires
        1 <= n,
    ensures
        r < n,
{
    rand::random_range(0..n)
}

} // verus!
