use vstd::prelude::*;

verus! {

/// A point in integer screen space.
pub struct Point(pub i32, pub i32);

impl Point {
    /// The sum of the two coordinates.
    pub fn sum(&self) -> (s: i32)
        requires
            i32::MIN <= self.0 + self.1 <= i32::MAX,
        ensures
            s == self.0 + self.1,
    {
        self.0 + self.1
    }
}

/// An axis-aligned rectangle in integer screen space.
pub struct Rect {
    pub x: i32,
    pub y: i32,
    pub width: i32,
    pub height: i32,
}

impl Rect {
    pub fn new(x: i32, y: i32, width: i32, height: i32) -> (r: Rect)
        ensures
            r.x == x,
            r.y == y,
            r.width == width,
            r.height == height,
    {
        Rect { x, y, width, height }
    }
}

} // verus!
