//! Integer points and rectangles, as the host's layout callbacks use
//! them.

use vstd::prelude::*;

verus! {

/// A point in host coordinates.
#[derive(Clone, Copy, Debug, PartialEq, Eq, Structural)]
pub struct Point {
    pub h: i32,
    pub v: i32,
}

/// A rectangle in host coordinates, left/top inclusive.
#[derive(Clone, Copy, Debug, PartialEq, Eq, Structural)]
pub struct Rect {
    pub left: i32,
    pub top: i32,
    pub right: i32,
    pub bottom: i32,
}

impl Rect {
    /// A rectangle with no interior.
    pub open spec fn spec_is_empty(&self) -> bool {
        self.left >= self.right || self.top >= self.bottom
    }

    /// Whether a coordinate pair lies on the rectangle's edge: on the
    /// left or right side within the vertical span, or on the top or
    /// bottom side within the horizontal span.
    pub open spec fn spec_is_edge_pixel(&self, x: i32, y: i32) -> bool {
        if x == self.left || x == self.right {
            self.top <= y && y <= self.bottom
        } else if y == self.top || y == self.bottom {
            self.left <= x && x <= self.right
        } else {
            false
        }
    }

    pub fn is_empty(&self) -> (r: bool)
        ensures
            r == self.spec_is_empty(),
    {
        (self.left >= self.right) || (self.top >= self.bottom)
    }

    /// Grow this rectangle to cover `other` as well: each side moves
    /// outward to the farther of the two.  An empty `other` replaces
    /// this rectangle entirely.
    pub fn union(&mut self, other: &Rect)
        ensures
            other.spec_is_empty() ==> *final(self) == *other,
            !other.spec_is_empty() ==> {
                &&& final(self).left == (if old(self).left <= other.left {
                    old(self).left
                } else {
                    other.left
                })
                &&& final(self).top == (if old(self).top <= other.top {
                    old(self).top
                } else {
                    other.top
                })
                &&& final(self).right == (if old(self).right >= other.right {
                    old(self).right
                } else {
                    other.right
                })
                &&& final(self).bottom == (if old(self).bottom >= other.bottom {
                    old(self).bottom
                } else {
                    other.bottom
                })
            },
    {
        if other.is_empty() {
            *self = *other;
        } else {
            if other.left < self.left {
                self.left = other.left;
            }
            if other.top < self.top {
                self.top = other.top;
            }
            if other.right > self.right {
                self.right = other.right;
            }
            if other.bottom > self.bottom {
                self.bottom = other.bottom;
            }
        }
    }

    pub fn is_edge_pixel(&self, x: i32, y: i32) -> (r: bool)
        ensures
            r == self.spec_is_edge_pixel(x, y),
    {
        let mut x_hit = (x == self.left) || (x == self.right);
        let mut y_hit = (y == self.top) || (y == self.bottom);
        if x_hit {
            y_hit = (y >= self.top) && (y <= self.bottom);
        } else {
            if y_hit {
                x_hit = (x >= self.left) && (x <= self.right);
            }
        }
        x_hit && y_hit
    }
}

} // verus!
