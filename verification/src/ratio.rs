//! Quotients of whole numbers.

use vstd::prelude::*;

verus! {

/// The quotient of two whole numbers, the second of them positive.
///
/// The crate states camera parameters and angles as such quotients and
/// leaves the division to its caller, who carries it out in the scalar type
/// of the matrices.
#[derive(Clone, Copy, Debug)]
pub struct Ratio {
    num: u32,
    den: u32,
}

impl Ratio {
    #[verifier::type_invariant]
    spec fn divisible(&self) -> bool {
        self.den > 0
    }

    /// The number that is divided.
    pub closed spec fn num(&self) -> u32 {
        self.num
    }

    /// The number that divides.
    pub closed spec fn den(&self) -> u32 {
        self.den
    }

    /// The quotient of `num` by `den`.
    pub fn new(num: u32, den: u32) -> (ratio: Self)
        requires
            den > 0,
        ensures
            ratio.num() == num,
            ratio.den() == den,
    {
        Ratio { num, den }
    }

    /// The number that is divided.
    pub fn numerator(&self) -> (num: u32)
        ensures
            num == self.num(),
    {
        self.num
    }

    /// The number that divides. It is never zero.
    pub fn denominator(&self) -> (den: u32)
        ensures
            den == self.den(),
            den > 0,
    {
        proof {
            use_type_invariant(self);
        }
        self.den
    }
}

} // verus!
