use vstd::prelude::*;
use bracket_lib::random::RandomNumberGenerator;

verus! {

#[verifier::external_type_specification]
#[verifier::external_body]
pub struct ExRandomNumberGenerator(RandomNumberGenerator);

/// Relies on bracket_lib's RandomNumberGenerator::range: it returns a value
/// drawn from the half-open range, inclusive of `min` and exclusive of `max`
/// (it panics on an empty range, which the precondition rules out). Nothing
/// more is assumed of which value comes back.
#[verifier::external_body]
pub(crate) fn rng_range(rng: &mut RandomNumberGenerator, min: i32, max: i32) -> (r: i32)
    requires
        min < max,
    ensures
        min <= r < max,
{
    rng.range(min, max)
}

} // verus!
