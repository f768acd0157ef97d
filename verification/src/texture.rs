//! Textures: a colour for every surface coordinate.

use crate::colour::Colour;
use crate::scalar::Scalar;
use crate::vec3::Vec3;
use vstd::prelude::*;

verus! {

/// A pure map from the surface coordinates `(u, v)` and the point `p` to a
/// colour.
pub trait Texture: Sync {
    /// The colour that the texture has at `(u, v, p)`.
    spec fn colour_at(&self, u: Scalar, v: Scalar, p: Vec3) -> Colour;

    fn value(&self, u: Scalar, v: Scalar, p: Vec3) -> (c: Colour)
        ensures
            c == self.colour_at(u, v, p),
    ;
}

/// The texture that has one colour everywhere.
#[derive(Clone, Copy, Debug)]
pub struct SolidColour {
    pub colour: Colour,
}

impl SolidColour {
    pub fn new(colour: Colour) -> (t: SolidColour)
        ensures
            t.colour == colour,
    {
        SolidColour { colour }
    }
}

impl Texture for SolidColour {
    open spec fn colour_at(&self, u: Scalar, v: Scalar, p: Vec3) -> Colour {
        self.colour
    }

    fn value(&self, u: Scalar, v: Scalar, p: Vec3) -> (c: Colour) {
        self.colour
    }
}

} // verus!
