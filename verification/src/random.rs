//! The random source of a randomly populated board: `rand`'s standard
//! generator, made from a seed so that a board can be made again.
//!
//! Nothing in this file is proved. What is stated of the generator is what
//! the source of `rand` shows of it.

use rand::distributions::Bernoulli;
use rand::rngs::StdRng;
use rand::{Rng, SeedableRng};
use vstd::prelude::*;

verus! {

/// The first `count` draws at a chance of `numerator` in `denominator` that
/// `rand`'s standard generator gives when it is made from `seed`.
///
/// The generator is deterministic: its draws follow from the seed alone. The
/// algorithm behind it belongs to the version of `rand` that this crate is
/// built with, which the manifest fixes; another version may draw otherwise.
pub uninterp spec fn seeded_draws(seed: u64, count: nat, numerator: u32, denominator: u32) -> Seq<
    bool,
>;

/// Makes a generator with `SeedableRng::seed_from_u64` and takes the first
/// `count` values of `Rng::sample_iter` for the distribution that
/// `Bernoulli::from_ratio` makes of the chance. `from_ratio` fails on a zero
/// denominator and on a numerator above the denominator, which `requires`
/// leaves out.
///
/// Claimed are: that the draws are those that [`seeded_draws`] names; that
/// there are `count` of them, since the iterator never ends; and the two
/// outcomes that `rand` guarantees, always `false` at a chance of zero and
/// always `true` at a chance of one.
#[verifier::external_body]
pub(crate) fn draw_seeded(seed: u64, count: usize, numerator: u32, denominator: u32) -> (drawn: Vec<
    bool,
>)
    requires
        denominator > 0,
        numerator <= denominator,
    ensures
        drawn@ == seeded_draws(seed, count as nat, numerator, denominator),
        drawn@.len() == count,
        numerator == 0 ==> forall|k: int| 0 <= k < drawn@.len() ==> !drawn@[k],
        numerator == denominator ==> forall|k: int| 0 <= k < drawn@.len() ==> drawn@[k],
{
    let chance = Bernoulli::from_ratio(numerator, denominator).unwrap();
    StdRng::seed_from_u64(seed).sample_iter(chance).take(count).collect()
}

} // verus!
