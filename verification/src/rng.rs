//! The deterministic random number generator and the draws the rules make
//! from it. Every draw goes through one of the functions below.

use vstd::prelude::*;
use rand_chacha::ChaCha20Rng;

verus! {

#[verifier::external_type_specification]
#[verifier::external_body]
pub struct ExChaCha20Rng(ChaCha20Rng);

/// `rand::Rng::random_range` on `lo..=hi` for `u8`: a value drawn uniformly
/// from the closed range. Claimed: the value lies in `[lo, hi]`.
/// The call panics on an empty range, hence `lo <= hi`.
#[verifier::external_body]
pub(crate) fn draw_u8_inclusive(rng: &mut ChaCha20Rng, lo: u8, hi: u8) -> (r: u8)
    requires
        lo <= hi,
    ensures
        lo <= r <= hi,
{
    rand::Rng::random_range(rng, lo..=hi)
}

/// `rand::Rng::random_range` on `lo..hi` for `usize`: a value drawn uniformly
/// from the half-open range. Claimed: the value lies in `[lo, hi)`.
/// The call panics on an empty range, hence `lo < hi`.
#[verifier::external_body]
pub(crate) fn draw_usize_below(rng: &mut ChaCha20Rng, lo: usize, hi: usize) -> (r: usize)
    requires
        lo < hi,
    ensures
        lo <= r < hi,
{
    rand::Rng::random_range(rng, lo..hi)
}

/// `rand::Rng::random::<u32>`: any `u32`. Nothing is claimed of the value.
#[verifier::external_body]
pub(crate) fn draw_u32(rng: &mut ChaCha20Rng) -> (r: u32) {
    rand::Rng::random::<u32>(rng)
}

} // verus!
