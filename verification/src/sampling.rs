//! The crate's single source of randomness.
use vstd::prelude::*;

verus! {

/// Relies on rand::Rng::random_range over an inclusive integer range:
/// it returns a value within the bounds, and panics only on an empty
/// range, which the precondition excludes. Nothing more is assumed of
/// the draw than its bounds.
#[verifier::external_body]
pub(crate) fn sample_uniform(lo: i64, hi: i64) -> (r: i64)
    requires
        lo <= hi,
    ensures
        lo <= r <= hi,
{
    let mut rng = rand::rng();
    rand::Rng::random_range(&mut rng, lo..=hi)
}

} // verus!
