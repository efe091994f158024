use vstd::prelude::*;

verus! {

/// Width that a surface reports as its current extent when the window's size
/// governs the extent of the images presented to it.
pub const EXTENT_FROM_WINDOW: u32 = 0xFFFF_FFFF;

/// A width and a height in pixels.
#[derive(Clone, Copy, Debug, PartialEq, Eq, Structural)]
pub struct Extent2D {
    pub width: u32,
    pub height: u32,
}

impl Extent2D {
    pub open spec fn is_zero_area(self) -> bool {
        self.width == 0 || self.height == 0
    }

    /// Whether one of the two dimensions is zero (a minimized window).
    pub fn has_zero_area(&self) -> (r: bool)
        ensures
            r == self.is_zero_area(),
    {
        self.width == 0 || self.height == 0
    }
}

/// What a surface reports of the images that can be presented to it.
#[derive(Clone, Copy, Debug, PartialEq, Eq, Structural)]
pub struct SurfaceCapabilities {
    pub min_image_count: u32,
    /// Zero when the count of images has no upper bound.
    pub max_image_count: u32,
    pub current_extent: Extent2D,
    pub min_image_extent: Extent2D,
    pub max_image_extent: Extent2D,
}

pub open spec fn clamp(v: int, lo: int, hi: int) -> int {
    if v < lo {
        lo
    } else if v > hi {
        hi
    } else {
        v
    }
}

impl SurfaceCapabilities {
    /// The bounds on the image count are consistent and leave room for one
    /// image more than the minimum.
    pub open spec fn well_formed(self) -> bool {
        &&& self.min_image_count < u32::MAX
        &&& (self.max_image_count == 0 || self.min_image_count <= self.max_image_count)
    }

    pub open spec fn image_count_bound(self) -> int {
        if self.max_image_count == 0 {
            u32::MAX as int
        } else {
            self.max_image_count as int
        }
    }

    pub open spec fn spec_desired_image_count(self) -> int {
        clamp(
            self.min_image_count + 1,
            self.min_image_count as int,
            self.image_count_bound(),
        )
    }

    pub open spec fn spec_chosen_extent(self, window_size: Extent2D) -> Extent2D {
        if self.current_extent.width == EXTENT_FROM_WINDOW {
            window_size
        } else {
            self.current_extent
        }
    }

    /// Checks the bounds that `desired_image_count` relies on.
    pub fn is_well_formed(&self) -> (r: bool)
        ensures
            r == self.well_formed(),
    {
        self.min_image_count < u32::MAX && (self.max_image_count == 0 || self.min_image_count
            <= self.max_image_count)
    }

    /// One image more than the minimum, kept within the maximum when there is one.
    pub fn desired_image_count(&self) -> (r: u32)
        requires
            self.well_formed(),
        ensures
            r == self.spec_desired_image_count(),
    {
        let wanted = self.min_image_count + 1;
        if self.max_image_count != 0 && wanted > self.max_image_count {
            self.max_image_count
        } else {
            wanted
        }
    }

    /// The extent of the images: the surface's current extent, or the live
    /// window size where the surface leaves the extent to the window.
    pub fn chosen_extent(&self, window_size: Extent2D) -> (r: Extent2D)
        ensures
            r == self.spec_chosen_extent(window_size),
    {
        if self.current_extent.width == EXTENT_FROM_WINDOW {
            window_size
        } else {
            self.current_extent
        }
    }
}

} // verus!
