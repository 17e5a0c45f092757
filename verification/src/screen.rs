//! The screen descriptor: the pixel resolution a render is produced at.

use vstd::prelude::*;

verus! {

/// Width and height of the output image, in pixels.
#[derive(Debug, Clone, Copy, PartialEq, Eq, Structural)]
pub struct Screen {
    pub width: u32,
    pub height: u32,
}

impl Screen {
    /// A screen of the given resolution.
    pub fn new(width: u32, height: u32) -> (s: Screen)
        ensures
            s.width == width,
            s.height == height,
    {
        Screen { width, height }
    }

    /// The image row that screen row `y` lands on: screen-space `+y` grows
    /// upward while image rows grow downward, so row 0 of the stored image
    /// is the highest screen row. The flip is its own inverse.
    pub fn flip_y(&self, y: u32) -> (r: u32)
        requires
            y < self.height,
        ensures
            r == self.height - 1 - y,
            r < self.height,
            self.height - 1 - r == y,
    {
        self.height - 1 - y
    }
}

impl Default for Screen {
    /// The default resolution, 800 by 600.
    fn default() -> (s: Screen)
        ensures
            s.width == 800,
            s.height == 600,
    {
        Screen { width: 800, height: 600 }
    }
}

} // verus!
