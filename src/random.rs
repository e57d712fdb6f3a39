use vstd::prelude::*;

verus! {

/// Largest bound that `random_below` accepts: below it, the draw is
/// computed exactly in `f64` and never reaches the bound.
pub const RANDOM_BOUND_LIMIT: u64 = 9_007_199_254_740_992;

/// Relies on macroquad::rand::gen_range (quad-rand): for integers it scales a
/// 32-bit draw `k / 2^32` to `low + (high - low) * k / 2^32` in `f64` and
/// truncates, so with `low == 0` and `high < 2^53` the result lies in
/// `[0, high)`, and is `0` when `high == 0`.
#[verifier::external_body]
pub(crate) fn random_below(high: u64) -> (r: u64)
    requires
        high < RANDOM_BOUND_LIMIT,
    ensures
        high == 0 ==> r == 0,
        high > 0 ==> r < high,
{
    macroquad::rand::gen_range(0u64, high)
}

/// Relies on macroquad::rand::ChooseRandom::choose on slices (quad-rand): it
/// draws an index with `gen_range(0, len)` and returns the item there, so it
/// returns `None` exactly for an empty slice.
#[verifier::external_body]
pub(crate) fn choose_item<T>(items: &[T]) -> (r: Option<&T>)
    requires
        items@.len() < RANDOM_BOUND_LIMIT,
    ensures
        items@.len() == 0 <==> r.is_none(),
        r.is_some() ==> exists|i: int| 0 <= i < items@.len() && *r.unwrap() == items@[i],
{
    <[T] as macroquad::rand::ChooseRandom<T>>::choose(items)
}

} // verus!
