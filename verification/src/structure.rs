use vstd::prelude::*;

use crate::pixel_ll::ZoomLv;

verus! {

/// Pixel coordinate of the slippy-map tiling, together with the zoom
/// level it belongs to.
#[derive(Debug, Clone, Copy, PartialEq, Eq, Structural, PartialOrd, Ord, Hash)]
pub struct Pixel {
    x: u32,
    y: u32,
    zoom: ZoomLv,
}

impl Pixel {
    /// Horizontal pixel coordinate.
    pub closed spec fn spec_x(self) -> u32 {
        self.x
    }

    /// Vertical pixel coordinate.
    pub closed spec fn spec_y(self) -> u32 {
        self.y
    }

    /// Zoom level the coordinate is expressed at.
    pub closed spec fn spec_zoom(self) -> ZoomLv {
        self.zoom
    }

    /// Creates a new pixel coordinate at the given zoom level.
    pub fn new(x: u32, y: u32, zoom: ZoomLv) -> (r: Pixel)
        ensures
            r.spec_x() == x,
            r.spec_y() == y,
            r.spec_zoom() == zoom,
    {
        Pixel { x, y, zoom }
    }

    /// Returns (x, y) as a tuple.
    pub fn to_tuple(&self) -> (r: (u32, u32))
        ensures
            r == (self.spec_x(), self.spec_y()),
    {
        (self.x, self.y)
    }

    /// Returns the zoom level.
    pub fn zoom(&self) -> (r: ZoomLv)
        ensures
            r == self.spec_zoom(),
    {
        self.zoom
    }
}

} // verus!
