//! Colours: three fixed-point channels.

use crate::scalar::Scalar;
use vstd::prelude::*;

verus! {

#[derive(Clone, Copy, Debug, PartialEq, Eq, Structural)]
pub struct Colour {
    pub r: Scalar,
    pub g: Scalar,
    pub b: Scalar,
}

impl Colour {
    /// No light at all.
    pub open spec fn spec_black() -> Colour {
        Colour { r: Scalar::spec_zero(), g: Scalar::spec_zero(), b: Scalar::spec_zero() }
    }

    /// Full light in every channel.
    pub open spec fn spec_white() -> Colour {
        Colour { r: Scalar::spec_one(), g: Scalar::spec_one(), b: Scalar::spec_one() }
    }

    pub fn new(r: Scalar, g: Scalar, b: Scalar) -> (c: Colour)
        ensures
            c == (Colour { r, g, b }),
    {
        Colour { r, g, b }
    }

    pub fn black() -> (c: Colour)
        ensures
            c == Colour::spec_black(),
    {
        Colour { r: Scalar::zero(), g: Scalar::zero(), b: Scalar::zero() }
    }

    pub fn white() -> (c: Colour)
        ensures
            c == Colour::spec_white(),
    {
        Colour { r: Scalar::one(), g: Scalar::one(), b: Scalar::one() }
    }
}

} // verus!
