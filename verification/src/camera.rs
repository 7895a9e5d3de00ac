//! The image that a camera takes.

use vstd::prelude::*;
use crate::config::InvalidConfig;

verus! {

/// A camera at the origin that looks along the negative z axis at a plane
/// one unit away. The plane is two units high and as wide as the image's
/// width over its height demands.
#[derive(Clone, Copy, Debug)]
pub struct Camera {
    res_x: u32,
    res_y: u32,
}

impl View for Camera {
    type V = (u32, u32);

    /// The width and the height of the image, in pixels.
    closed spec fn view(&self) -> (u32, u32) {
        (self.res_x, self.res_y)
    }
}

impl Camera {
    /// The image of every camera has a row.
    #[verifier::type_invariant]
    closed spec fn has_rows(self) -> bool {
        self.res_y > 0
    }

    /// A camera for an image of `res_x` by `res_y` pixels. An image
    /// without rows has no aspect ratio and is refused.
    pub fn new(res_x: u32, res_y: u32) -> (r: Result<Camera, InvalidConfig>)
        ensures
            res_y == 0 <==> r is Err,
            r matches Ok(camera) ==> camera@ == (res_x, res_y),
            r matches Err(e) ==> e == InvalidConfig::ZeroHeight,
    {
        if res_y == 0 {
            Err(InvalidConfig::ZeroHeight)
        } else {
            Ok(Camera { res_x, res_y })
        }
    }

    /// The width of the image in pixels.
    pub fn width(&self) -> (r: u32)
        ensures
            r == self@.0,
    {
        self.res_x
    }

    /// The height of the image in pixels, which is not zero.
    pub fn height(&self) -> (r: u32)
        ensures
            r == self@.1,
            r > 0,
    {
        proof {
            use_type_invariant(self);
        }
        self.res_y
    }

    /// The row of the image in which the pixels of the scene's row `y`
    /// are stored. The scene's rows are counted from the bottom, the
    /// image's from the top. `None` if the scene has no row `y`.
    pub fn image_row(&self, y: u32) -> (r: Option<u32>)
        ensures
            y < self@.1 ==> r == Some((self@.1 - 1 - y) as u32),
            y >= self@.1 ==> r is None,
            r matches Some(row) ==> row < self@.1,
    {
        if y < self.res_y {
            Some(self.res_y - 1 - y)
        } else {
            None
        }
    }
}

} // verus!
