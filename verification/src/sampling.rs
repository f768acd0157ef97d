//! The caller-owned random source.
//!
//! Every stochastic choice of the library is one uniform draw from `[0, 1)`
//! out of a generator that the caller hands in; nothing reaches for a
//! generator of its own.

use crate::scalar::Scalar;
use crate::scalar::UNIT;
use rand::rngs::ThreadRng;
use rand::Rng;
use vstd::prelude::*;

verus! {

/// `ThreadRng` of `rand`: the generator behind every draw. It is carried
/// through as it is; nothing is known of its state.
#[verifier::external_type_specification]
#[verifier::external_body]
pub struct ExThreadRng(ThreadRng);

/// `Rng::gen_range` of `rand` on the half-open range `0..high`. It refuses
/// an empty range, so `high` is positive; the value it returns is at least
/// the lower end of the range and below the upper one. Which value comes is
/// left open.
#[verifier::external_body]
pub(crate) fn draw_below(rng: &mut ThreadRng, high: i64) -> (raw: i64)
    requires
        high > 0,
    ensures
        0 <= raw < high,
{
    rng.gen_range(0..high)
}

/// Whether `s` is a value that a draw from `[0, 1)` can have.
pub open spec fn is_unit_sample(s: Scalar) -> bool {
    0 <= s.raw < UNIT
}

/// One uniform draw from `[0, 1)`.
pub fn sample_unit(rng: &mut ThreadRng) -> (s: Scalar)
    ensures
        is_unit_sample(s),
{
    Scalar::from_raw(draw_below(rng, UNIT))
}

} // verus!
