//! The random source of a worker.
//!
//! Randomness comes from the `rand` crate's thread-local generator. Nothing
//! here is proved: each item states what the crate's source and documentation
//! promise of every outcome of a draw, and the generator is verified against
//! those statements alone.

use rand::rngs::ThreadRng;
use rand::seq::SliceRandom;
use rand::Rng;
use vstd::prelude::*;

verus! {

/// `rand::rngs::ThreadRng`, a handle to the calling thread's generator. Its
/// state is opaque here.
#[verifier::external_type_specification]
#[verifier::external_body]
pub struct ExThreadRng(rand::rngs::ThreadRng);

/// `rand::thread_rng`: hands out a handle to the calling thread's generator,
/// which the system seeds. Nothing is claimed of the handle.
#[verifier::external_body]
pub(crate) fn thread_source() -> (rng: ThreadRng) {
    rand::thread_rng()
}

/// `Rng::gen_ratio`: a coin that lands `true` with the given odds. The call
/// panics on a zero denominator and on a numerator above the denominator, so
/// both are excluded. Of the result only the two certain cases are claimed:
/// odds of one always hit and odds of zero never do.
#[verifier::external_body]
pub(crate) fn draw_ratio(rng: &mut ThreadRng, numerator: u32, denominator: u32) -> (hit: bool)
    requires
        denominator > 0,
        numerator <= denominator,
    ensures
        numerator == denominator ==> hit,
        numerator == 0 ==> !hit,
{
    rng.gen_ratio(numerator, denominator)
}

/// `Rng::gen_range` on a half-open range of `usize`. The call panics on an
/// empty range, so `low` at or above `high` is excluded. The result lies
/// within the range: at `low` or above it, and below `high`.
#[verifier::external_body]
pub(crate) fn draw_within(rng: &mut ThreadRng, low: usize, high: usize) -> (drawn: usize)
    requires
        low < high,
    ensures
        low <= drawn < high,
{
    rng.gen_range(low..high)
}

/// `Rng::gen_range` on a closed range of `u8`. The call panics on an empty
/// range, so `low` above `high` is excluded. The result lies within the
/// range, ends included.
#[verifier::external_body]
pub(crate) fn draw_between(rng: &mut ThreadRng, low: u8, high: u8) -> (drawn: u8)
    requires
        low <= high,
    ensures
        low <= drawn <= high,
{
    rng.gen_range(low..=high)
}

/// `SliceRandom::shuffle` on the contents of a vector: a run of swaps of two
/// positions, so the vector afterwards holds the items it held before, each
/// as often as before, in some order.
#[verifier::external_body]
pub(crate) fn shuffle(rng: &mut ThreadRng, list: &mut Vec<u8>)
    ensures
        final(list)@.to_multiset() == old(list)@.to_multiset(),
{
    list.shuffle(rng)
}

} // verus!
