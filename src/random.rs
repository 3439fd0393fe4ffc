use vstd::prelude::*;

use rand::Rng;

verus! {

/// Relies on `rand::Rng::gen_range` over the thread-local generator: it returns
/// a value of the half-open range `0..max` and panics only where that range is empty.
#[verifier::external_body]
fn sample_below(max: u64) -> (r: u64)
    requires
        max > 0,
    ensures
        r < max,
{
    rand::thread_rng().gen_range(0..max)
}

/// A random wait below `max`, to spread the start of work over time.
pub fn random_wait(max: u64) -> (r: u64)
    requires
        max > 0,
    ensures
        r < max,
{
    sample_below(max)
}

} // verus!
