use vstd::prelude::*;

verus! {

/// An extent in physical pixels, as a window reports it or a surface is
/// configured with.
#[derive(Clone, Copy, Debug, PartialEq, Eq, Structural)]
pub struct Size {
    pub width: u32,
    pub height: u32,
}

impl Size {
    pub fn new(width: u32, height: u32) -> (r: Size)
        ensures
            r.width == width,
            r.height == height,
    {
        Size { width, height }
    }

    /// Both dimensions are at least one pixel.
    pub open spec fn has_area(self) -> bool {
        self.width > 0 && self.height > 0
    }

    /// Each dimension raised to at least one pixel.
    pub open spec fn clamped_spec(self) -> Size {
        Size {
            width: if self.width == 0 { 1 } else { self.width },
            height: if self.height == 0 { 1 } else { self.height },
        }
    }

    pub fn is_nonzero(&self) -> (r: bool)
        ensures
            r == self.has_area(),
    {
        self.width > 0 && self.height > 0
    }

    pub fn clamped(&self) -> (r: Size)
        ensures
            r == self.clamped_spec(),
            r.has_area(),
            self.has_area() ==> r == *self,
    {
        Size {
            width: if self.width == 0 { 1 } else { self.width },
            height: if self.height == 0 { 1 } else { self.height },
        }
    }
}

} // verus!
