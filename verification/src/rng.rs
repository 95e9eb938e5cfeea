use rand::rngs::StdRng;
use rand::Rng;
use vstd::prelude::*;

verus! {

/// The `rand` crate's standard generator, carried through as an opaque value.
#[verifier::external_type_specification]
#[verifier::external_body]
pub struct ExStdRng(StdRng);

/// Draws an integer from `low..=high` with `rand::Rng::gen_range`.
///
/// Trusted, not proved: the value that `gen_range` returns for an inclusive
/// integer range lies within the range, both ends included. `gen_range`
/// panics on an empty range, which the precondition rules out. Nothing is
/// claimed about which value of the range is drawn, nor about the state in
/// which the generator is left.
#[verifier::external_body]
pub(crate) fn gen_range_inclusive(rng: &mut StdRng, low: i64, high: i64) -> (value: i64)
    requires
        low <= high,
    ensures
        low <= value <= high,
{
    rng.gen_range(low..=high)
}

} // verus!
