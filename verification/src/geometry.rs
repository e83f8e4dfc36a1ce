//! Axis-aligned rectangles and the overlap tests of the world.

use vstd::prelude::*;

verus! {

/// An axis-aligned rectangle anchored at its centre: it spans half its
/// width to either side of `x` and half its height to either side of `y`.
///
/// With an odd extent an edge lies half a thousandth between two whole
/// numbers. Edges are therefore held doubled: twice an edge is always a
/// whole number, and comparing doubled edges compares the edges.
#[derive(Clone, Copy, Debug, PartialEq, Eq, Structural)]
pub struct Rect {
    pub x: i64,
    pub y: i64,
    pub w: u64,
    pub h: u64,
}

impl Rect {
    /// Twice the left edge `x - w / 2`.
    pub open spec fn left2(self) -> int {
        2 * self.x - self.w
    }

    /// Twice the right edge `x + w / 2`.
    pub open spec fn right2(self) -> int {
        2 * self.x + self.w
    }

    /// Twice the lower edge `y - h / 2`.
    pub open spec fn bottom2(self) -> int {
        2 * self.y - self.h
    }

    /// Twice the upper edge `y + h / 2`.
    pub open spec fn top2(self) -> int {
        2 * self.y + self.h
    }

    /// The two rectangles share more than an edge along the horizontal axis:
    /// the right edge of each is beyond the left edge of the other.
    pub open spec fn overlaps_x(self, other: Rect) -> bool {
        self.right2() > other.left2() && self.left2() < other.right2()
    }

    /// The two rectangles share more than an edge along the vertical axis.
    pub open spec fn overlaps_y(self, other: Rect) -> bool {
        self.top2() > other.bottom2() && self.bottom2() < other.top2()
    }

    /// The two rectangles share interior points.
    pub open spec fn intersects(self, other: Rect) -> bool {
        self.overlaps_x(other) && self.overlaps_y(other)
    }

    /// Twice the left edge.
    pub fn doubled_left(&self) -> (r: i128)
        ensures
            r == self.left2(),
    {
        2 * (self.x as i128) - self.w as i128
    }

    /// Twice the right edge.
    pub fn doubled_right(&self) -> (r: i128)
        ensures
            r == self.right2(),
    {
        2 * (self.x as i128) + self.w as i128
    }

    /// Twice the lower edge.
    pub fn doubled_bottom(&self) -> (r: i128)
        ensures
            r == self.bottom2(),
    {
        2 * (self.y as i128) - self.h as i128
    }

    /// Twice the upper edge.
    pub fn doubled_top(&self) -> (r: i128)
        ensures
            r == self.top2(),
    {
        2 * (self.y as i128) + self.h as i128
    }
}

/// Horizontal overlap: false exactly when `a` lies wholly to the left of `b`
/// or wholly to its right; rectangles that only touch do not overlap.
pub fn overlap_x(a: Rect, b: Rect) -> (r: bool)
    ensures
        r == a.overlaps_x(b),
        r == !(a.right2() <= b.left2() || a.left2() >= b.right2()),
{
    if a.doubled_right() <= b.doubled_left() {
        return false;
    }
    if a.doubled_left() >= b.doubled_right() {
        return false;
    }
    true
}

/// Intersection on both axes; rectangles that only touch do not intersect.
pub fn intersect(a: &Rect, b: &Rect) -> (r: bool)
    ensures
        r == a.intersects(*b),
{
    if a.doubled_bottom() >= b.doubled_top() {
        return false;
    }
    if a.doubled_top() <= b.doubled_bottom() {
        return false;
    }
    if a.doubled_right() <= b.doubled_left() {
        return false;
    }
    if a.doubled_left() >= b.doubled_right() {
        return false;
    }
    true
}

/// Overlap along the horizontal axis does not depend on the order of the two
/// rectangles.
pub proof fn lemma_overlap_x_symmetric(a: Rect, b: Rect)
    ensures
        a.overlaps_x(b) == b.overlaps_x(a),
{
}

/// Intersection does not depend on the order of the two rectangles, and
/// rectangles that intersect overlap horizontally.
pub proof fn lemma_intersects_symmetric(a: Rect, b: Rect)
    ensures
        a.intersects(b) == b.intersects(a),
        a.intersects(b) ==> a.overlaps_x(b),
{
}

/// Rectangles of which one ends where the other begins do not intersect.
pub proof fn lemma_touching_is_apart(a: Rect, b: Rect)
    requires
        a.right2() == b.left2() || a.left2() == b.right2() || a.top2() == b.bottom2()
            || a.bottom2() == b.top2(),
    ensures
        !a.intersects(b),
        a.right2() == b.left2() || a.left2() == b.right2() ==> !a.overlaps_x(b),
{
}

/// A rectangle overlaps itself horizontally exactly when it has a width,
/// and intersects itself exactly when it has a width and a height.
pub proof fn lemma_overlaps_itself(a: Rect)
    ensures
        a.overlaps_x(a) == (a.w > 0),
        a.intersects(a) == (a.w > 0 && a.h > 0),
{
}

} // verus!
