//! The random source. Nothing here is proved: the contracts say what the
//! `rand` crate documents of each call, and no more.

use rand::rngs::ThreadRng;
use rand::Rng;
use vstd::prelude::*;

verus! {

/// `rand::rngs::ThreadRng`, carried through the library as an opaque value.
#[verifier::external_type_specification]
#[verifier::external_body]
pub struct ExThreadRng(rand::rngs::ThreadRng);

/// `rand::Rng::gen_range` on the inclusive range `low..=high`. The call
/// panics on an empty range, which `requires` leaves out; what it returns
/// lies in the range, and nothing else is known of it.
#[verifier::external_body]
pub(crate) fn roll_range(rng: &mut ThreadRng, low: i64, high: i64) -> (r: i64)
    requires
        low <= high,
    ensures
        low <= r <= high,
{
    rng.gen_range(low..=high)
}

/// `rand::Rng::gen_ratio`: true with a chance of `numerator` in
/// `denominator`. The call panics on a zero denominator and on a ratio above
/// one, which `requires` leaves out; it always returns false for a zero
/// numerator and true for a ratio of one.
#[verifier::external_body]
pub(crate) fn roll_ratio(rng: &mut ThreadRng, numerator: u32, denominator: u32) -> (hit: bool)
    requires
        0 < denominator,
        numerator <= denominator,
    ensures
        numerator == 0 ==> !hit,
        numerator == denominator ==> hit,
{
    rng.gen_ratio(numerator, denominator)
}

} // verus!
