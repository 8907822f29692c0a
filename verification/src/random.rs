//! Dice for the game: uniform draws and shuffles from the thread-local
//! generator of `rand`.
use rand::seq::SliceRandom;
use rand::Rng;
use vstd::prelude::*;

verus! {

/// Calls `rand::Rng::gen_range` with the inclusive range `lo..=hi` on the
/// thread-local generator of `rand::thread_rng`.  `gen_range` returns a value
/// inside the range and panics when the range is empty, which `requires` rules
/// out.  Which value comes back is left to chance and is not stated.
#[verifier::external_body]
fn gen_range_i64(lo: i64, hi: i64) -> (r: i64)
    requires
        lo <= hi,
    ensures
        lo <= r <= hi,
{
    rand::thread_rng().gen_range(lo..=hi)
}

/// Calls `rand::Rng::gen_range` with the inclusive range `lo..=hi` of `usize`
/// on the thread-local generator; as for `i64`, the value is inside the range
/// and is otherwise left to chance.
#[verifier::external_body]
fn gen_range_usize(lo: usize, hi: usize) -> (r: usize)
    requires
        lo <= hi,
    ensures
        lo <= r <= hi,
{
    rand::thread_rng().gen_range(lo..=hi)
}

/// Calls `rand::seq::SliceRandom::shuffle` on the elements of `v` with the
/// thread-local generator.  `shuffle` puts the same elements in an order
/// left to chance; the contract states that the elements, counted with
/// repetition, stay the same.
#[verifier::external_body]
pub(crate) fn shuffle_vec<T>(v: &mut Vec<T>)
    ensures
        final(v)@.len() == old(v)@.len(),
        final(v)@.to_multiset() == old(v)@.to_multiset(),
{
    v.shuffle(&mut rand::thread_rng());
}

/// Calls `rand::Rng::gen::<u64>` on the thread-local generator.  Every
/// value of `u64` can come back, so nothing is stated of it.
#[verifier::external_body]
pub(crate) fn gen_u64() -> (r: u64) {
    rand::thread_rng().gen::<u64>()
}

/// Calls `rand::Rng::gen_ratio` on the thread-local generator: true with a
/// chance of `numerator` in `denominator`.  Its source panics where the
/// denominator is 0 or below the numerator, which `requires` rules out; it
/// always returns true where the two are equal, and never where the
/// numerator is 0.  Otherwise the result is chance.
#[verifier::external_body]
pub(crate) fn gen_ratio(numerator: u32, denominator: u32) -> (r: bool)
    requires
        0 < denominator,
        numerator <= denominator,
    ensures
        numerator == denominator ==> r,
        numerator == 0 ==> !r,
{
    rand::thread_rng().gen_ratio(numerator, denominator)
}

/// As `shuffle_vec`, on the elements of an array.
#[verifier::external_body]
pub(crate) fn shuffle_array<T, const N: usize>(a: &mut [T; N])
    ensures
        final(a)@.len() == old(a)@.len(),
        final(a)@.to_multiset() == old(a)@.to_multiset(),
{
    a.shuffle(&mut rand::thread_rng());
}

/// A random integer between `x` and `y`, both included; the bounds may come
/// in either order.
pub fn get_rand(x: i64, y: i64) -> (r: i64)
    ensures
        x <= y ==> x <= r <= y,
        y < x ==> y <= r <= x,
{
    if x <= y {
        gen_range_i64(x, y)
    } else {
        gen_range_i64(y, x)
    }
}

/// A random `usize` between `x` and `y`, both included; the bounds may come
/// in either order.
pub fn get_rand_usize(x: usize, y: usize) -> (r: usize)
    ensures
        x <= y ==> x <= r <= y,
        y < x ==> y <= r <= x,
{
    if x <= y {
        gen_range_usize(x, y)
    } else {
        gen_range_usize(y, x)
    }
}

/// True with a chance of `percentage` in a hundred: a draw from 1 to 100
/// at most `percentage`.  A percentage of 100 or more always succeeds and
/// one of 0 never does.
pub fn rand_percent(percentage: i64) -> (r: bool)
    ensures
        percentage >= 100 ==> r,
        percentage <= 0 ==> !r,
{
    get_rand(1, 100) <= percentage
}

/// True with an even chance.
pub fn coin_toss() -> bool {
    rand_percent(50)
}

} // verus!
