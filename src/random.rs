//! Random draws, taken from nannou's thread-local generator.

use vstd::prelude::*;

verus! {

/// Relies on nannou::rand::random_range: a value drawn from `[min, max)`,
/// the bounds swapped first when `min > max`. An empty range panics.
#[verifier::external_body]
pub(crate) fn random_between(a: i64, b: i64) -> (r: i64)
    requires
        a != b,
    ensures
        a < b ==> a <= r < b,
        b < a ==> b <= r < a,
{
    nannou::rand::random_range(a, b)
}

/// Relies on nannou::rand::random (rand's `random`): any byte value.
#[verifier::external_body]
pub(crate) fn random_byte() -> (r: u8) {
    nannou::rand::random::<u8>()
}

} // verus!
