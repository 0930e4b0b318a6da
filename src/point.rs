use vstd::prelude::*;

verus! {

/// Fixed-point scale: a coordinate of `ONE` is 1.0 in normalized device space
/// (16 fractional bits).
pub const ONE: i32 = 65536;

/// A point in normalized device space, each coordinate a fixed-point number
/// scaled by `ONE` (so the visible range `[-1, 1]` is `[-ONE, ONE]`).
#[derive(Debug, Clone, Copy, PartialEq, Eq, Structural)]
pub struct Point {
    pub x: i32,
    pub y: i32,
}

impl Point {
    pub fn new(x: i32, y: i32) -> (r: Point)
        ensures
            r.x == x,
            r.y == y,
    {
        Point { x, y }
    }

    /// Maps a position given as fractions of the viewport (`x` from the left
    /// edge, `y` from the top edge, both fixed-point) to normalized device
    /// space: `(2x - 1, 1 - 2y)`, with the y axis flipped.
    pub fn from_screen_coords(x: i32, y: i32) -> (r: Point)
        requires
            i32::MIN <= 2 * x - ONE <= i32::MAX,
            i32::MIN <= ONE - 2 * y <= i32::MAX,
        ensures
            r.x == 2 * x - ONE,
            r.y == ONE - 2 * y,
    {
        let sx: i64 = 2 * (x as i64) - (ONE as i64);
        let sy: i64 = (ONE as i64) - 2 * (y as i64);
        Point { x: sx as i32, y: sy as i32 }
    }

    pub fn x(&self) -> (r: i32)
        ensures
            r == self.x,
    {
        self.x
    }

    pub fn y(&self) -> (r: i32)
        ensures
            r == self.y,
    {
        self.y
    }
}

} // verus!
