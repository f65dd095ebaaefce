//! Random numbers, drawn with the `rand` crate.

use rand::Rng;
use vstd::prelude::*;

verus! {

/// Draws a number with `Rng::gen_range` on the generator that `rand::thread_rng` hands out.
///
/// Not proved: `gen_range` is documented to panic on an empty range, which the
/// precondition rules out, and to return a value of the range it is given, here
/// `low..high`. Nothing is claimed of which value comes. `thread_rng` panics where the
/// system cannot seed the generator; no precondition can rule that out.
#[verifier::external_body]
pub(crate) fn random_in_range(low: u32, high: u32) -> (drawn: u32)
    requires
        low < high,
    ensures
        low <= drawn < high,
{
    rand::thread_rng().gen_range(low..high)
}

} // verus!
