//! Success probabilities, held as a ratio of two integers, and the random
//! draw that decides whether one attempt succeeds.

use vstd::prelude::*;

verus! {

/// A probability `numerator / denominator` between 0 and 1.
#[derive(Clone, Copy, Debug)]
pub struct Probability {
    numerator: u32,
    denominator: u32,
}

/// One random draw by `rand::Rng::gen_ratio` on the thread's generator.
///
/// The draw is true with a chance of `numerator` in `denominator`. Of its
/// outcome this states only the two cases that the generator guarantees: a
/// chance of 1 always gives true, and a chance of 0 always gives false.
/// The call panics on a zero denominator or a ratio above 1, so both are
/// left out.
#[verifier::external_body]
fn draw(numerator: u32, denominator: u32) -> (hit: bool)
    requires
        denominator != 0,
        numerator <= denominator,
    ensures
        numerator == denominator ==> hit,
        numerator == 0 ==> !hit,
{
    rand::Rng::gen_ratio(&mut rand::thread_rng(), numerator, denominator)
}

impl Probability {
    #[verifier::type_invariant]
    spec fn well_formed(self) -> bool {
        self.denominator != 0 && self.numerator <= self.denominator
    }

    /// The numerator of the ratio.
    pub closed spec fn num(self) -> nat {
        self.numerator as nat
    }

    /// The denominator of the ratio.
    pub closed spec fn den(self) -> nat {
        self.denominator as nat
    }

    /// An attempt with this probability always succeeds.
    pub open spec fn certain(self) -> bool {
        self.num() == self.den()
    }

    /// An attempt with this probability never succeeds.
    pub open spec fn impossible(self) -> bool {
        self.num() == 0
    }

    /// The probability `numerator / denominator`, if that is a number between
    /// 0 and 1.
    pub fn from_ratio(numerator: u32, denominator: u32) -> (p: Option<Probability>)
        ensures
            p.is_some() <==> denominator != 0 && numerator <= denominator,
            p matches Some(q) ==> q.num() == numerator && q.den() == denominator,
    {
        if denominator != 0 && numerator <= denominator {
            Some(Probability { numerator, denominator })
        } else {
            None
        }
    }

    /// Probability 1.
    pub fn always() -> (p: Probability)
        ensures
            p.certain(),
            p.num() == 1,
            p.den() == 1,
    {
        Probability { numerator: 1, denominator: 1 }
    }

    /// Probability 0.
    pub fn never() -> (p: Probability)
        ensures
            p.impossible(),
            p.num() == 0,
            p.den() == 1,
    {
        Probability { numerator: 0, denominator: 1 }
    }

    /// Whether the probability is 1.
    pub fn is_certain(&self) -> (b: bool)
        ensures
            b == self.certain(),
    {
        self.numerator == self.denominator
    }

    /// Whether the probability is 0.
    pub fn is_impossible(&self) -> (b: bool)
        ensures
            b == self.impossible(),
    {
        self.numerator == 0
    }

    /// Decides by a random draw whether one attempt succeeds. With
    /// probability 1 it always does, with probability 0 it never does.
    pub fn sample(&self) -> (hit: bool)
        ensures
            self.certain() ==> hit,
            self.impossible() ==> !hit,
    {
        proof {
            use_type_invariant(self);
        }
        draw(self.numerator, self.denominator)
    }
}

} // verus!
