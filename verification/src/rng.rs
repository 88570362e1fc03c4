//! The seeded generator behind floor generation.
//!
//! The generator is `rand`'s `SmallRng`. Nothing here is proved of it: each function below hands
//! one call to `rand` and states what that call is taken to do. A generator is a deterministic
//! machine, so what a draw returns and the state it leaves are functions of the state before the
//! draw; those functions are named, not defined. For a given build of `rand` they are fixed:
//! `SmallRng` picks its algorithm by the target's pointer width.

use rand::rngs::SmallRng;
use rand::Rng;
use rand::SeedableRng;
use vstd::prelude::*;

verus! {

#[verifier::external_type_specification]
#[verifier::external_body]
pub struct ExSmallRng(SmallRng);

/// The words of state that a generator holds.
pub uninterp spec fn generator_state(rng: SmallRng) -> Seq<u64>;

/// The state of the generator that `SmallRng::from_seed` builds from 32 seed bytes.
pub uninterp spec fn seeded_state(seed: Seq<u8>) -> Seq<u64>;

/// What `random_range(low..=high)` on 64-bit signed integers returns from a state, and the state
/// it leaves.
pub uninterp spec fn range_draw(state: Seq<u64>, low: int, high: int) -> (int, Seq<u64>);

/// The state that `random_range(low..=high)` on 32-bit signed integers leaves.
pub uninterp spec fn state_after_short_draw(state: Seq<u64>, low: int, high: int) -> Seq<u64>;

/// What `random_ratio(numerator, denominator)` returns from a state, and the state it leaves.
pub uninterp spec fn ratio_draw(state: Seq<u64>, numerator: int, denominator: int) -> (
    bool,
    Seq<u64>,
);

/// Calls `SmallRng::from_seed`. The state of the new generator is a function of the seed bytes
/// alone.
#[verifier::external_body]
pub(crate) fn seeded_generator(seed: [u8; 32]) -> (rng: SmallRng)
    ensures
        generator_state(rng) == seeded_state(seed@),
{
    SmallRng::from_seed(seed)
}

/// Calls `Rng::random_range` on the inclusive range `low..=high` of 64-bit signed integers. The
/// value lies in the range; it and the state left behind are functions of the state before and
/// of the two bounds. `random_range` panics on an empty range, which `requires` leaves out.
#[verifier::external_body]
pub(crate) fn draw_in_range(rng: &mut SmallRng, low: i64, high: i64) -> (value: i64)
    requires
        low <= high,
    ensures
        low <= value <= high,
        value == range_draw(generator_state(*old(rng)), low as int, high as int).0,
        generator_state(*final(rng)) == range_draw(
            generator_state(*old(rng)),
            low as int,
            high as int,
        ).1,
{
    rng.random_range(low..=high)
}

/// Calls `Rng::random_range` on the inclusive range `low..=high` of 32-bit signed integers and
/// drops the value. The state left behind is a function of the state before and of the two
/// bounds.
#[verifier::external_body]
pub(crate) fn discard_short_draw(rng: &mut SmallRng, low: i32, high: i32)
    requires
        low <= high,
    ensures
        generator_state(*final(rng)) == state_after_short_draw(
            generator_state(*old(rng)),
            low as int,
            high as int,
        ),
{
    let _: i32 = rng.random_range(low..=high);
}

/// Calls `Rng::random_ratio`, which returns `true` with a chance of `numerator` in
/// `denominator`. The value and the state left behind are functions of the state before and of
/// the two numbers. `random_ratio` panics on a zero denominator and on a numerator above the
/// denominator, which `requires` leaves out.
#[verifier::external_body]
pub(crate) fn draw_ratio(rng: &mut SmallRng, numerator: u32, denominator: u32) -> (hit: bool)
    requires
        0 < denominator,
        numerator <= denominator,
    ensures
        hit == ratio_draw(generator_state(*old(rng)), numerator as int, denominator as int).0,
        generator_state(*final(rng)) == ratio_draw(
            generator_state(*old(rng)),
            numerator as int,
            denominator as int,
        ).1,
{
    rng.random_ratio(numerator, denominator)
}

} // verus!
