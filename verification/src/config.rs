//! Why a scene or a camera is refused.

use vstd::prelude::*;

verus! {

/// A parameter with which nothing can be rendered.
#[derive(Clone, Copy, Debug, PartialEq, Eq, Structural)]
pub enum InvalidConfig {
    /// The image has no rows, so its aspect ratio is undefined.
    ZeroHeight,
    /// The radius of a sphere is not greater than zero.
    Radius,
    /// The refractive index of a dielectric is not greater than zero.
    RefractiveIndex,
}

} // verus!
