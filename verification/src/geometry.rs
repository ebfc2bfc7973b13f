//! Rectangles, edge sizes and hit testing.

use vstd::prelude::*;

verus! {

/// An integer box given by its top-left corner and its extent.
#[derive(Debug, Copy, Clone, PartialEq, Eq, Structural)]
pub struct Rect {
    pub x: i32,
    pub y: i32,
    pub w: i32,
    pub h: i32,
}

/// Four independent edge sizes, used for border thickness and for padding.
#[derive(Debug, Copy, Clone, PartialEq, Eq, Structural)]
pub struct BoxSize {
    pub left: i32,
    pub top: i32,
    pub right: i32,
    pub bottom: i32,
}

impl BoxSize {
    /// No size on any edge.
    pub fn default() -> (size: BoxSize)
        ensures
            size == (BoxSize { left: 0, top: 0, right: 0, bottom: 0 }),
    {
        BoxSize { left: 0, top: 0, right: 0, bottom: 0 }
    }

    /// The same size on all four edges.
    pub fn single(s: i32) -> (size: BoxSize)
        ensures
            size == (BoxSize { left: s, top: s, right: s, bottom: s }),
    {
        BoxSize { left: s, top: s, right: s, bottom: s }
    }
}

/// The part of a control that its text may occupy, given by its four edges:
/// the columns from `left` up to `right` and the rows from `top` up to
/// `bottom`. The edges are wide enough to hold any box shrunk by any border
/// and padding.
#[derive(Debug, Copy, Clone, PartialEq, Eq, Structural)]
pub struct ContentBox {
    pub left: i64,
    pub top: i64,
    pub right: i64,
    pub bottom: i64,
}

impl ContentBox {
    pub open spec fn width(self) -> int {
        self.right - self.left
    }

    pub open spec fn height(self) -> int {
        self.bottom - self.top
    }
}

impl Rect {
    /// The box that is left when each side is moved inwards by the border and
    /// then by the padding of that side.
    pub open spec fn content(self, border: BoxSize, padding: BoxSize) -> ContentBox {
        ContentBox {
            left: (self.x + border.left + padding.left) as i64,
            top: (self.y + border.top + padding.top) as i64,
            right: (self.x + self.w - border.right - padding.right) as i64,
            bottom: (self.y + self.h - border.bottom - padding.bottom) as i64,
        }
    }

    /// Shrinks the box by `border` and then by `padding` on each side.
    pub fn content_box(&self, border: BoxSize, padding: BoxSize) -> (content: ContentBox)
        ensures
            content == self.content(border, padding),
            content.left == self.x + border.left + padding.left,
            content.top == self.y + border.top + padding.top,
            content.right == self.x + self.w - border.right - padding.right,
            content.bottom == self.y + self.h - border.bottom - padding.bottom,
            content.width() == self.w - border.left - padding.left - border.right - padding.right,
            content.height() == self.h - border.top - padding.top - border.bottom - padding.bottom,
    {
        ContentBox {
            left: self.x as i64 + border.left as i64 + padding.left as i64,
            top: self.y as i64 + border.top as i64 + padding.top as i64,
            right: self.x as i64 + self.w as i64 - border.right as i64 - padding.right as i64,
            bottom: self.y as i64 + self.h as i64 - border.bottom as i64 - padding.bottom as i64,
        }
    }

    /// The column just past the right edge.
    pub open spec fn right(self) -> int {
        self.x + self.w
    }

    /// The row just past the bottom edge.
    pub open spec fn bottom(self) -> int {
        self.y + self.h
    }

    /// Whether the point lies strictly inside the box: the top row and the left
    /// column belong to the border of the hit area and do not count.
    pub open spec fn contains(self, x: int, y: int) -> bool {
        point_in_rect(x, y, self.x as int, self.y as int, self.right(), self.bottom())
    }
}

/// Strict containment of a point in the box between `(left, top)` and
/// `(right, bottom)`.
pub open spec fn point_in_rect(x: int, y: int, left: int, top: int, right: int, bottom: int) -> bool {
    left < x < right && top < y < bottom
}

/// Tests whether `(x, y)` lies strictly between the given edges.
pub fn is_point_in_rect_a(x: i32, y: i32, left: i32, top: i32, right: i32, bottom: i32) -> (hit: bool)
    ensures
        hit == point_in_rect(x as int, y as int, left as int, top as int, right as int, bottom as int),
{
    x > left && x < right && y > top && y < bottom
}

/// Tests whether `(x, y)` lies strictly inside `bounds`.
pub fn is_point_in_rect(x: i32, y: i32, bounds: Rect) -> (hit: bool)
    ensures
        hit == bounds.contains(x as int, y as int),
{
    let right: i64 = bounds.x as i64 + bounds.w as i64;
    let bottom: i64 = bounds.y as i64 + bounds.h as i64;
    let px: i64 = x as i64;
    let py: i64 = y as i64;
    px > bounds.x as i64 && px < right && py > bounds.y as i64 && py < bottom
}

} // verus!
