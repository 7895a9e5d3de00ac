//! Half-lines through space.

use vstd::prelude::*;
use crate::scalar::Scalar;
use crate::scalar::Vec3;

verus! {

/// An origin and a direction. The direction need not have unit length.
#[derive(Clone, Copy, Debug)]
pub struct Ray {
    origin: Vec3,
    direction: Vec3,
}

impl View for Ray {
    type V = (Vec3, Vec3);

    /// The origin, then the direction.
    closed spec fn view(&self) -> (Vec3, Vec3) {
        (self.origin, self.direction)
    }
}

impl Ray {
    /// The ray that starts at `origin` and runs along `direction`.
    pub fn new(origin: Vec3, direction: Vec3) -> (r: Ray)
        ensures
            r@ == (origin, direction),
    {
        Ray { origin, direction }
    }

    /// Where the ray starts.
    pub fn origin(&self) -> (r: Vec3)
        ensures
            r == self@.0,
    {
        self.origin
    }

    /// The way the ray runs.
    pub fn direction(&self) -> (r: Vec3)
        ensures
            r == self@.1,
    {
        self.direction
    }
}

impl Default for Ray {
    /// The ray from the zero point along the zero vector.
    fn default() -> (r: Ray)
        ensures
            r@ == (Vec3::spec_splat(Scalar::spec_zero()), Vec3::spec_splat(Scalar::spec_zero())),
    {
        Ray { origin: Vec3::zero(), direction: Vec3::zero() }
    }
}

} // verus!
