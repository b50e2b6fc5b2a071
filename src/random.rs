use vstd::prelude::*;

verus! {

/// Relies on rand::random_range: a number drawn from the thread-local
/// generator within the inclusive range `0..=max`, which is never empty.
#[verifier::external_body]
pub(crate) fn random_at_most(max: u8) -> (r: u8)
    ensures
        r <= max,
{
    rand::random_range(0..=max)
}

} // verus!
