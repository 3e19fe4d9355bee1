//! Draws from the ChaCha8 generator.
//!
//! The generator is an outside type whose state Verus does not see: each draw
//! below states what holds of every value it can return, and nothing ties two
//! draws together. What a value drawn here becomes is decided by verified
//! functions that take it as an argument.
use rand::Rng;
use rand_chacha::ChaCha8Rng;
use vstd::prelude::*;

verus! {

#[verifier::external_type_specification]
#[verifier::external_body]
pub struct ExChaCha8Rng(ChaCha8Rng);

/// `Rng::gen_range(lo..hi)` on `u32` (panics on an empty range): the value is
/// in `[lo, hi)`. `rand` samples `i32` and `u32` ranges by one `u32` routine,
/// so a non-negative `i32` range draws exactly what this draws, and
/// `lo..=hi` draws what `lo..hi + 1` draws.
#[verifier::external_body]
pub(crate) fn gen_range_u32(rng: &mut ChaCha8Rng, lo: u32, hi: u32) -> (r: u32)
    requires
        lo < hi,
    ensures
        lo <= r < hi,
{
    rng.gen_range(lo..hi)
}

/// `Rng::gen_range(lo..hi)` on `u64`: the value is in `[lo, hi)` (`i64` ranges
/// with a non-negative start are sampled by the same `u64` routine).
#[verifier::external_body]
pub(crate) fn gen_range_u64(rng: &mut ChaCha8Rng, lo: u64, hi: u64) -> (r: u64)
    requires
        lo < hi,
    ensures
        lo <= r < hi,
{
    rng.gen_range(lo..hi)
}

/// `Rng::gen_range(lo..hi)` on `usize`: the value is in `[lo, hi)`.
#[verifier::external_body]
pub(crate) fn gen_range_usize(rng: &mut ChaCha8Rng, lo: usize, hi: usize) -> (r: usize)
    requires
        lo < hi,
    ensures
        lo <= r < hi,
{
    rng.gen_range(lo..hi)
}

/// `Rng::gen_range(lo..hi)` on `u128`: the value is in `[lo, hi)`.
#[verifier::external_body]
pub(crate) fn gen_range_u128(rng: &mut ChaCha8Rng, lo: u128, hi: u128) -> (r: u128)
    requires
        lo < hi,
    ensures
        lo <= r < hi,
{
    rng.gen_range(lo..hi)
}

/// `Rng::gen_range(lo..hi)` on `u8`: the value is in `[lo, hi)`.
#[verifier::external_body]
pub(crate) fn gen_range_u8(rng: &mut ChaCha8Rng, lo: u8, hi: u8) -> (r: u8)
    requires
        lo < hi,
    ensures
        lo <= r < hi,
{
    rng.gen_range(lo..hi)
}

/// `Rng::gen_ratio(num, den)`: `true` with probability `num/den`; always
/// `false` for `num == 0` and always `true` for `num == den`. `gen_ratio(1, 2)`
/// builds the same Bernoulli threshold as `gen_bool(0.5)`, so the two draw alike.
#[verifier::external_body]
pub(crate) fn gen_ratio(rng: &mut ChaCha8Rng, num: u32, den: u32) -> (r: bool)
    requires
        0 < den,
        num <= den,
    ensures
        num == 0 ==> !r,
        num == den ==> r,
{
    rng.gen_ratio(num, den)
}

/// `Rng::fill` on a fresh buffer of `n` bytes: `n` bytes, any values.
#[verifier::external_body]
pub(crate) fn random_bytes(rng: &mut ChaCha8Rng, n: usize) -> (r: Vec<u8>)
    ensures
        r@.len() == n,
{
    let mut buf = vec![0u8; n];
    rng.fill(&mut buf[..]);
    buf
}

} // verus!
