//! Random numbers.

use rand::Rng;
use vstd::prelude::*;

verus! {

/// A number from the generator of the current thread, by `rand::random`.
/// Nothing is claimed of it: any number can come.
#[verifier::external_body]
pub(crate) fn random_u64() -> (number: u64) {
    rand::random::<u64>()
}

/// A number from the generator of the current thread that is at least `low`
/// and less than `high`, by `rand::Rng::gen_range`, which panics on an empty
/// range.
#[verifier::external_body]
pub(crate) fn random_in_range(low: u64, high: u64) -> (number: u64)
    requires
        low < high,
    ensures
        low <= number < high,
{
    rand::thread_rng().gen_range(low..high)
}

} // verus!
