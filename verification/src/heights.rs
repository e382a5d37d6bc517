//! The source of the heights of randomly placed pipes: a generator of random
//! numbers that starts from a seed, so that a game can be played again with
//! the same pipes.

use vstd::prelude::*;
use rand::rngs::StdRng;
use rand::{Rng, SeedableRng};
use crate::pipe::valid_upper_height;
use crate::tuning::{MAX_UPPER_UNITS, MIN_UPPER_UNITS, SCALE};

verus! {

/// `rand::rngs::StdRng`, a generator of random numbers. Nothing of what is
/// inside it is known here.
#[verifier::external_type_specification]
#[verifier::external_body]
pub struct ExStdRng(rand::rngs::StdRng);

/// Makes a generator from a seed by `rand::SeedableRng::seed_from_u64` on
/// `rand::rngs::StdRng`. The call takes every seed and does not fail. Nothing
/// is claimed of the generator.
#[verifier::external_body]
fn seeded(seed: u64) -> (rng: StdRng) {
    StdRng::seed_from_u64(seed)
}

/// Draws a number from `low` up to, not including, `high` by
/// `rand::Rng::gen_range` on the given generator. Nothing is claimed of the
/// number but that it lies in that range, and nothing of the generator after
/// the call. The call panics where `low >= high`, which the precondition
/// excludes.
#[verifier::external_body]
fn draw_between(rng: &mut StdRng, low: i32, high: i32) -> (r: i32)
    requires
        low < high,
    ensures
        low <= r < high,
{
    rng.gen_range(low, high)
}

/// Where the heights of randomly placed pipes come from.
#[derive(Debug)]
pub struct HeightSource {
    rng: StdRng,
}

impl HeightSource {
    /// A source that starts from the given seed.
    pub fn from_seed(seed: u64) -> (r: HeightSource) {
        HeightSource { rng: seeded(seed) }
    }

    /// The next height of an upper box: a whole number of units from the
    /// range of such heights.
    pub fn next_height(&mut self) -> (h: i64)
        ensures
            valid_upper_height(h as int),
            h % SCALE == 0,
    {
        let units: i32 = draw_between(&mut self.rng, MIN_UPPER_UNITS, MAX_UPPER_UNITS + 1);
        units as i64 * SCALE
    }
}

} // verus!
