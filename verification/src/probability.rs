//! Probabilities as ratios of integers, and the random draw that uses them.

use vstd::prelude::*;

verus! {

/// A ratio of two natural numbers.
pub struct Ratio {
    pub numerator: nat,
    pub denominator: nat,
}

/// A probability `numerator / denominator` in the closed range from zero to one.
#[derive(Debug, Clone, Copy)]
pub struct Probability {
    numerator: u32,
    denominator: u32,
}

/// Draws one boolean from the thread-local generator of the `rand` crate with
/// `rand::Rng::gen_ratio`, which is true with a chance of `numerator` in
/// `denominator`. The call panics on a zero denominator and on a numerator above
/// the denominator, so both are excluded. Nothing is claimed of the outcome
/// except at the two ends, where the generator's documentation fixes it: never
/// true at zero, always true at one.
#[verifier::external_body]
fn draw_ratio(numerator: u32, denominator: u32) -> (hit: bool)
    requires
        0 < denominator,
        numerator <= denominator,
    ensures
        numerator == 0 ==> !hit,
        numerator == denominator ==> hit,
{
    rand::Rng::gen_ratio(&mut rand::thread_rng(), numerator, denominator)
}

impl View for Probability {
    type V = Ratio;

    closed spec fn view(&self) -> Ratio {
        Ratio { numerator: self.numerator as nat, denominator: self.denominator as nat }
    }
}

impl Probability {
    #[verifier::type_invariant]
    spec fn is_ratio(self) -> bool {
        0 < self.denominator && self.numerator <= self.denominator
    }

    /// The event can never happen.
    pub open spec fn is_never(self) -> bool {
        self@.numerator == 0
    }

    /// The event always happens.
    pub open spec fn is_always(self) -> bool {
        self@.numerator == self@.denominator
    }

    /// The upper part of the ratio.
    pub fn numerator(&self) -> (numerator: u32)
        ensures
            numerator == self@.numerator,
    {
        self.numerator
    }

    /// The lower part of the ratio, which is never zero.
    pub fn denominator(&self) -> (denominator: u32)
        ensures
            denominator == self@.denominator,
            0 < denominator,
            self@.numerator <= denominator,
    {
        proof {
            use_type_invariant(self);
        }
        self.denominator
    }

    /// Builds the probability `numerator / denominator`, if that is a number
    /// between zero and one.
    pub fn new(numerator: u32, denominator: u32) -> (made: Option<Probability>)
        ensures
            made is Some <==> 0 < denominator && numerator <= denominator,
            made matches Some(p) ==> p@ == (Ratio {
                numerator: numerator as nat,
                denominator: denominator as nat,
            }),
    {
        if denominator == 0 || numerator > denominator {
            None
        } else {
            Some(Probability { numerator, denominator })
        }
    }

    /// Draws one boolean that is true with this probability.
    pub fn sample(&self) -> (hit: bool)
        ensures
            self.is_never() ==> !hit,
            self.is_always() ==> hit,
    {
        proof {
            use_type_invariant(self);
        }
        draw_ratio(self.numerator, self.denominator)
    }
}

} // verus!
