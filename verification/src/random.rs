use vstd::prelude::*;

verus! {

/// Draws an integer from the half-open range `low..high`.
///
/// Calls `rand::Rng::random_range` on the thread-local generator returned by
/// `rand::rng()`. rand documents the value as lying in the given range and
/// panics on an empty range, which `requires` rules out. Which value of the
/// range comes out is left open: it rests on chance. The generator may also
/// panic if the operating system's entropy source fails when it is seeded or
/// reseeded; that depends on the machine, not on the arguments, and is not
/// stated.
#[verifier::external_body]
pub(crate) fn random_in(low: i32, high: i32) -> (r: i32)
    requires
        low < high,
    ensures
        low <= r < high,
{
    rand::Rng::random_range(&mut rand::rng(), low..high)
}

} // verus!
