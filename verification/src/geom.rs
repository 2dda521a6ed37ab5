//! Plain integer geometry: the point and rectangle values that the
//! game state and the renderer exchange.

use vstd::prelude::*;

verus! {

/// A position in pixels. The window's centre is treated as `(0, 0)`
/// when a player position is turned into a screen position.
#[derive(Clone, Copy, Debug, PartialEq, Eq, Structural)]
pub struct Point {
    pub x: i32,
    pub y: i32,
}

impl Point {
    pub fn new(x: i32, y: i32) -> (p: Point)
        ensures
            p.x == x,
            p.y == y,
    {
        Point { x, y }
    }

    /// The point moved by `dx` pixels to the right and `dy` pixels down.
    pub fn offset(self, dx: i32, dy: i32) -> (p: Point)
        requires
            i32::MIN <= self.x + dx <= i32::MAX,
            i32::MIN <= self.y + dy <= i32::MAX,
        ensures
            p.x == self.x + dx,
            p.y == self.y + dy,
    {
        Point { x: self.x + dx, y: self.y + dy }
    }
}

/// An axis-aligned rectangle in pixels: a top-left corner and a size.
#[derive(Clone, Copy, Debug, PartialEq, Eq, Structural)]
pub struct SpriteRect {
    pub x: i32,
    pub y: i32,
    pub width: u32,
    pub height: u32,
}

impl SpriteRect {
    pub fn new(x: i32, y: i32, width: u32, height: u32) -> (r: SpriteRect)
        ensures
            r.x == x,
            r.y == y,
            r.width == width,
            r.height == height,
    {
        SpriteRect { x, y, width, height }
    }

    /// The rectangle of the given size whose centre is `center`
    /// (rounded towards the top-left when a side length is odd).
    pub fn from_center(center: Point, width: u32, height: u32) -> (r: SpriteRect)
        requires
            width / 2 <= i32::MAX,
            height / 2 <= i32::MAX,
            i32::MIN <= center.x - width / 2,
            i32::MIN <= center.y - height / 2,
        ensures
            r.x == center.x - width / 2,
            r.y == center.y - height / 2,
            r.width == width,
            r.height == height,
    {
        SpriteRect {
            x: center.x - (width / 2) as i32,
            y: center.y - (height / 2) as i32,
            width,
            height,
        }
    }
}

} // verus!
