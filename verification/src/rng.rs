//! The one trusted boundary to the random generator. The disruptor draws a
//! value from a seeded ChaCha stream; everything done with the draw is
//! verified in [`crate::balance`] for every value the draw can take.

use vstd::prelude::*;

verus! {

#[verifier::external_type_specification]
#[verifier::external_body]
pub struct ExChaCha8Rng(rand_chacha::ChaCha8Rng);

/// Relies on rand::Rng::gen_range over `lo..hi`: it returns a value drawn
/// from `[lo, hi)` and panics only on an empty range, which the
/// precondition rules out. Nothing is assumed about which value comes back.
#[verifier::external_body]
pub(crate) fn draw_in_range(rng: &mut rand_chacha::ChaCha8Rng, lo: i64, hi: i64) -> (r: i64)
    requires
        lo < hi,
    ensures
        lo <= r < hi,
{
    rand::Rng::gen_range(rng, lo..hi)
}

} // verus!
