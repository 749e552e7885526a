//! Enhancement calculations that apply to any item: the combined chance
//! of repeated attempts, and a random draw of one attempt.

use vstd::prelude::*;
use vstd::arithmetic::power::pow;
use vstd::arithmetic::mul::lemma_mul_inequality;
use crate::accessories::CHANCE_SCALE;

verus! {

/// Relies on rand::random: one value drawn from the thread-local
/// generator. Nothing is assumed about which value comes back.
pub assume_specification<T>[ rand::random::<T> ]() -> (r: T)
    where
        rand::distr::StandardUniform: rand::distr::Distribution<T>,
;

/// The most attempts the combined-chance computation accepts: one more
/// and its exact denominator could no longer fit in a `u128`.
pub const MAX_TOTAL_CHANCE_ATTEMPTS: u32 = 9;

/// Calculates the total chance that at least one of several independent
/// attempts succeeds, as an exact fraction: the chance of each attempt is
/// `chance` ten-thousandths, and the result is `1 - (1 - p)^n` written
/// over the common denominator `CHANCE_SCALE^n`.
pub fn calc_total_chance(chance: u32, attempt_amount: u32) -> (total: (u128, u128))
    requires
        chance <= CHANCE_SCALE,
        attempt_amount <= MAX_TOTAL_CHANCE_ATTEMPTS,
    ensures
        total.1 == pow(CHANCE_SCALE as int, attempt_amount as nat),
        total.0 == total.1 - pow((CHANCE_SCALE - chance) as int, attempt_amount as nat),
        0 < total.1,
        total.0 <= total.1,
{
    let mut all: u128 = 1;
    let mut fail: u128 = 1;
    let mut i: u32 = 0;
    proof {
        vstd::arithmetic::power::lemma_pow_positive(CHANCE_SCALE as int, attempt_amount as nat);
        assert(pow(CHANCE_SCALE as int, 0) == 1) by {
            reveal_with_fuel(pow, 1);
        }
        assert(pow((CHANCE_SCALE - chance) as int, 0) == 1) by {
            reveal_with_fuel(pow, 1);
        }
    }
    while i < attempt_amount
        invariant
            0 <= i <= attempt_amount <= 9,
            chance <= CHANCE_SCALE,
            all == pow(CHANCE_SCALE as int, i as nat),
            fail == pow((CHANCE_SCALE - chance) as int, i as nat),
            fail <= all,
            all <= 1_000_000_000_000_000_000_000_000_000_000_000_000,
        decreases attempt_amount - i,
    {
        proof {
            vstd::arithmetic::power::lemma_pow_increases(
                CHANCE_SCALE as nat,
                i as nat,
                8,
            );
            assert((CHANCE_SCALE as nat) as int == CHANCE_SCALE as int);
            assert(pow(CHANCE_SCALE as int, 8) == 100_000_000_000_000_000_000_000_000_000_000)
                by {
                reveal_with_fuel(pow, 9);
            }
            assert(all <= 100_000_000_000_000_000_000_000_000_000_000);
            lemma_mul_inequality(
                all as int,
                100_000_000_000_000_000_000_000_000_000_000,
                CHANCE_SCALE as int,
            );
            assert(pow(CHANCE_SCALE as int, (i + 1) as nat) == (CHANCE_SCALE as int) * pow(
                CHANCE_SCALE as int,
                i as nat,
            )) by {
                reveal_with_fuel(pow, 2);
            }
            assert(pow((CHANCE_SCALE - chance) as int, (i + 1) as nat) == ((CHANCE_SCALE - chance)
                as int) * pow((CHANCE_SCALE - chance) as int, i as nat)) by {
                reveal_with_fuel(pow, 2);
            }
            lemma_mul_inequality(fail as int, all as int, (CHANCE_SCALE - chance) as int);
            lemma_mul_inequality((CHANCE_SCALE - chance) as int, CHANCE_SCALE as int, all as int);
        }
        all = all * (CHANCE_SCALE as u128);
        fail = fail * ((CHANCE_SCALE - chance) as u128);
        i = i + 1;
    }
    (all - fail, all)
}

/// Simulates one enhancement attempt at the given success chance, in
/// ten-thousandths of certainty: a random draw over the chance scale
/// decides the attempt. Success is certain at full chance and impossible
/// at zero chance; in between, the outcome depends on the random draw.
pub fn simulate_enhancement(chance: u32) -> (success: bool)
    requires
        chance <= CHANCE_SCALE,
    ensures
        chance == CHANCE_SCALE ==> success,
        chance == 0 ==> !success,
{
    let draw: u32 = rand::random::<u32>();
    let simulated_chance = draw % CHANCE_SCALE;
    simulated_chance < chance
}

} // verus!
