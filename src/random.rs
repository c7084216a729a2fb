use vstd::prelude::*;

use bracket_lib::prelude::RandomNumberGenerator;

verus! {

/// The random number generator of bracket-lib, opaque here.
#[verifier::external_type_specification]
#[verifier::external_body]
pub struct ExRandomNumberGenerator(RandomNumberGenerator);

/// Relies on bracket-lib's `RandomNumberGenerator::new`: a generator seeded from
/// the system's entropy source, or from the clock when that fails.
#[verifier::external_body]
pub(crate) fn fresh_generator() -> RandomNumberGenerator {
    RandomNumberGenerator::new()
}

/// Relies on bracket-lib's `RandomNumberGenerator::seeded`: a generator whose
/// sequence is fixed by `seed`.
#[verifier::external_body]
pub(crate) fn seeded_generator(seed: u64) -> RandomNumberGenerator {
    RandomNumberGenerator::seeded(seed)
}

/// Relies on bracket-lib's `RandomNumberGenerator::range`, which calls rand's
/// `gen_range(min..max)`: a value in `[min, max)`; it panics on an empty range.
#[verifier::external_body]
pub(crate) fn draw_in_range(rng: &mut RandomNumberGenerator, min: i32, max: i32) -> (r: i32)
    requires
        min < max,
    ensures
        min <= r < max,
{
    rng.range(min, max)
}

} // verus!
