//! Shares drawn at random: fractions from zero up to, but not including, one.

use crate::scalar::{Scalar, SCALE};
use vstd::prelude::*;

verus! {

/// How many equally likely values a share can take: two to the power of
/// twenty-four.
pub const SHARE_STEPS: u64 = 16_777_216;

/// A word of thirty-two random bits, from `rand::random::<u32>()`, which asks
/// the generator of the current thread. Nothing is claimed of the word: any
/// value may come back, and two calls need not agree. The generator is seeded
/// from the operating system on its first use in a thread and again from
/// time to time; `rand` panics if that source cannot be read when it is
/// asked.
#[verifier::external_body]
fn random_word() -> (word: u32) {
    rand::random::<u32>()
}

impl Scalar {
    /// The share that stands for `word`: its upper twenty-four bits read as a
    /// count of `SHARE_STEPS`-ths, rounded down to a billionth.
    pub open spec fn spec_share_of(word: u32) -> Scalar {
        Scalar { raw: ((word / 256) * SCALE / (SHARE_STEPS as int)) as i64 }
    }

    /// The share that stands for `word`: its upper twenty-four bits read as a
    /// count of `SHARE_STEPS`-ths, rounded down to a billionth. Words that are
    /// equally likely give shares that are evenly spread.
    #[verifier::when_used_as_spec(spec_share_of)]
    pub fn share_of(word: u32) -> (r: Scalar)
        ensures
            r == Scalar::spec_share_of(word),
            r@ == (word / 256) * SCALE / (SHARE_STEPS as int),
            0 <= r@ < SCALE,
    {
        let steps: u64 = (word / 256) as u64;
        assert(steps < SHARE_STEPS);
        let raw: u64 = steps * (SCALE as u64) / SHARE_STEPS;
        Scalar { raw: raw as i64 }
    }

    /// A share drawn at random.
    ///
    /// # Panics
    ///
    /// The draw asks the random generator of the current thread, which seeds
    /// itself from the operating system on its first use and again from time
    /// to time. It panics if that source cannot be read.
    pub fn random_share() -> (r: Scalar)
        ensures
            exists|word: u32| r == Scalar::share_of(word),
            0 <= r@ < SCALE,
    {
        let word = random_word();
        Scalar::share_of(word)
    }
}

} // verus!
