//! Randomness used by the game, drawn from the `rand` crate.
//!
//! Each function here is a thin trusted boundary: the contract states only what
//! holds of every possible outcome of the random draw.
use vstd::prelude::*;
use rand::seq::SliceRandom;
use rand::Rng;
use rand::distributions::{Alphanumeric, DistString};
use crate::text::{is_ascii_letter, is_digit};

verus! {

/// Shuffles `v` in place with `SliceRandom::shuffle` over the thread-local generator.
/// Trusted: the result is a permutation of the input (same elements with the same
/// multiplicities); which permutation comes out is left open.
#[verifier::external_body]
pub(crate) fn shuffle_in_place<T>(v: &mut Vec<T>)
    ensures
        final(v)@.len() == old(v)@.len(),
        final(v)@.to_multiset() == old(v)@.to_multiset(),
{
    v.shuffle(&mut rand::thread_rng());
}

/// A uniformly drawn value of `lo..hi` from `Rng::gen_range` over the thread-local
/// generator. Trusted: the value lies in the half-open range; `gen_range` panics on
/// an empty range, which `requires` rules out.
#[verifier::external_body]
pub(crate) fn random_in_range(lo: usize, hi: usize) -> (r: usize)
    requires
        lo < hi,
    ensures
        lo <= r < hi,
{
    rand::thread_rng().gen_range(lo..hi)
}

/// Any `usize` from `rand::random`. Trusted: nothing is known of the value.
#[verifier::external_body]
pub(crate) fn random_usize() -> (r: usize) {
    rand::random::<usize>()
}

/// One element of `values` picked by `SliceRandom::choose`, or `None` when the
/// slice is empty. Trusted: a picked value is one of the elements.
#[verifier::external_body]
pub(crate) fn random_choice(values: &Vec<i32>) -> (r: Option<i32>)
    ensures
        r is None <==> values@.len() == 0,
        r matches Some(x) ==> values@.contains(x),
{
    values.as_slice().choose(&mut rand::thread_rng()).copied()
}

/// `Rng::gen_ratio(numerator, denominator)`: true with probability
/// numerator/denominator. Trusted: the documentation guarantees `false` for a zero
/// numerator and `true` when numerator equals denominator; the call panics when the
/// denominator is 0 or the numerator exceeds it, which `requires` rules out.
#[verifier::external_body]
pub(crate) fn random_ratio(numerator: u32, denominator: u32) -> (r: bool)
    requires
        0 < denominator,
        numerator <= denominator,
    ensures
        numerator == 0 ==> !r,
        numerator == denominator ==> r,
{
    rand::thread_rng().gen_ratio(numerator, denominator)
}

/// `len` characters drawn by `Alphanumeric.sample_string` from the thread-local
/// generator. Trusted: the distribution yields ASCII letters and digits only, one
/// character per requested position.
#[verifier::external_body]
pub(crate) fn random_alphanumeric(len: usize) -> (r: String)
    ensures
        r@.len() == len,
        forall|i: int| 0 <= i < len ==> is_ascii_letter(#[trigger] r@[i]) || is_digit(r@[i]),
{
    Alphanumeric.sample_string(&mut rand::thread_rng(), len)
}

} // verus!
