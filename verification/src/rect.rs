//! Defines a rectangle's bounds across the x and y axes, along with
//! alignment, padding, subdivision and corner decomposition.
//!
//! A `Rect` is one [`Range`] per axis. The stored ranges may have either
//! orientation; every derived geometric query (left, right, bottom, top,
//! corners, containment) first normalizes each axis, so `left() <= right()`
//! and `bottom() <= top()` always hold.

use crate::point::Point2;
use crate::point::Vector2;
use crate::quad::Quad;
use crate::quad::Tri;
use crate::quad::Triangles;
use crate::range::dist;
use crate::range::max64;
use crate::range::min64;
use crate::range::Align;
use crate::range::Edge;
use crate::range::Range;
use vstd::prelude::*;

verus! {

/// Defines a rectangle's bounds across the x and y axes.
#[derive(Copy, Clone, Debug, PartialEq, Eq, Structural)]
pub struct Rect {
    /// The start and end positions of the rectangle on the x axis.
    pub x: Range,
    /// The start and end positions of the rectangle on the y axis.
    pub y: Range,
}

/// The distance between the inner edge of a border and the outer edge of the
/// inner content.
#[derive(Copy, Clone, Debug, PartialEq, Eq, Structural)]
pub struct Padding {
    /// Padding on the start and end of the *x* axis.
    pub x: Range,
    /// Padding on the start and end of the *y* axis.
    pub y: Range,
}

/// Either of the four corners of a **Rect**.
#[derive(Copy, Clone, Debug, PartialEq, Eq, Structural)]
pub enum Corner {
    /// The top left corner of a **Rect**.
    TopLeft,
    /// The top right corner of a **Rect**.
    TopRight,
    /// The bottom left corner of a **Rect**.
    BottomLeft,
    /// The bottom right corner of a **Rect**.
    BottomRight,
}

/// The ranges that describe the subdivisions of a `Rect`.
#[derive(Copy, Clone, Debug, PartialEq, Eq, Structural)]
pub struct SubdivisionRanges {
    /// The first half of the x range.
    pub x_a: Range,
    /// The second half of the x range.
    pub x_b: Range,
    /// The first half of the y range.
    pub y_a: Range,
    /// The second half of the y range.
    pub y_b: Range,
}

/// Yields even subdivisions of a `Rect`, each a quadrant whose sides are
/// half of the original's.
#[derive(Copy, Clone, Debug)]
pub struct Subdivisions {
    ranges: SubdivisionRanges,
    subdivision_index: u8,
}

/// A cursor yielding the four corners of a `Rect`.
#[derive(Copy, Clone, Debug)]
pub struct Corners {
    rect: Rect,
    index: u8,
}

/// The number of subdivisions when dividing a `Rect` in half along the *x*
/// and *y* axes.
pub const NUM_SUBDIVISIONS: u8 = 4;

/// The number of corners of a `Rect`.
pub const NUM_CORNERS: u8 = 4;

/// The number of triangles used to represent a `Rect`.
pub const NUM_TRIANGLES: u8 = 2;

impl Padding {
    /// No padding.
    pub fn none() -> (r: Padding)
        ensures
            r.x == (Range { start: 0i64, end: 0i64 }),
            r.y == (Range { start: 0i64, end: 0i64 }),
    {
        Padding { x: Range::new(0, 0), y: Range::new(0, 0) }
    }
}

impl Rect {
    /// The rectangle's lowest x value.
    pub open spec fn spec_left(self) -> i64 {
        self.x.low()
    }

    /// The rectangle's highest x value.
    pub open spec fn spec_right(self) -> i64 {
        self.x.high()
    }

    /// The rectangle's lowest y value.
    pub open spec fn spec_bottom(self) -> i64 {
        self.y.low()
    }

    /// The rectangle's highest y value.
    pub open spec fn spec_top(self) -> i64 {
        self.y.high()
    }

    /// The rectangle's width.
    pub open spec fn spec_w(self) -> int {
        self.x.spec_len()
    }

    /// The rectangle's height.
    pub open spec fn spec_h(self) -> int {
        self.y.spec_len()
    }

    /// The rectangle's area: width times height.
    pub open spec fn spec_area(self) -> int {
        self.spec_w() * self.spec_h()
    }

    /// The rectangle with both axes normalized.
    pub open spec fn spec_absolute(self) -> Rect {
        Rect { x: self.x.spec_absolute(), y: self.y.spec_absolute() }
    }

    /// Whether the point lies inside the rectangle, edges included.
    pub open spec fn spec_contains(self, p: Point2) -> bool {
        self.x.spec_contains(p.x as int) && self.y.spec_contains(p.y as int)
    }

    /// Whether the rectangles intersect on both axes, touching edges
    /// included.
    pub open spec fn spec_overlaps(self, other: Rect) -> bool {
        self.x.spec_overlaps(other.x) && self.y.spec_overlaps(other.y)
    }

    /// The rectangle where both rectangles intersect; meaningful only when
    /// they overlap.
    pub open spec fn spec_overlap(self, other: Rect) -> Rect {
        Rect { x: self.x.spec_overlap(other.x), y: self.y.spec_overlap(other.y) }
    }

    /// The rectangle built by `from_corners`: per axis, the span from the
    /// smaller to the larger coordinate.
    pub open spec fn spec_from_corners(a: Point2, b: Point2) -> Rect {
        Rect {
            x: Range { start: min64(a.x, b.x), end: max64(a.x, b.x) },
            y: Range { start: min64(a.y, b.y), end: max64(a.y, b.y) },
        }
    }

    /// The corner point at the given position: 0 bottom left, 1 bottom
    /// right, 2 top left, 3 top right.
    pub open spec fn spec_corner_at(self, i: int) -> Point2 {
        if i == 0 {
            Point2 { x: self.spec_left(), y: self.spec_bottom() }
        } else if i == 1 {
            Point2 { x: self.spec_right(), y: self.spec_bottom() }
        } else if i == 2 {
            Point2 { x: self.spec_left(), y: self.spec_top() }
        } else {
            Point2 { x: self.spec_right(), y: self.spec_top() }
        }
    }

    /// The rectangle with all four edges padded by `amount`.
    pub open spec fn spec_pad(self, amount: int) -> Rect {
        Rect { x: self.x.spec_pad(amount), y: self.y.spec_pad(amount) }
    }

    /// Whether both axis midpoints can be computed without leaving the
    /// scalar type's range.
    pub open spec fn can_subdivide(self) -> bool {
        &&& i64::MIN <= self.x.start + self.x.end <= i64::MAX
        &&& i64::MIN <= self.y.start + self.y.end <= i64::MAX
    }

    /// The two halves of each axis, split at the axis midpoint.
    pub open spec fn spec_subdivision_ranges(self) -> SubdivisionRanges {
        SubdivisionRanges {
            x_a: Range { start: self.x.start, end: self.x.mid64() },
            x_b: Range { start: self.x.mid64(), end: self.x.end },
            y_a: Range { start: self.y.start, end: self.y.mid64() },
            y_b: Range { start: self.y.mid64(), end: self.y.end },
        }
    }

    /// Construct a rectangle from a center point and dimensions.
    pub fn from_xy_wh(p: Point2, wh: Vector2) -> (r: Rect)
        requires
            i64::MIN <= p.x - wh.x as int / 2 <= i64::MAX,
            i64::MIN <= p.x + wh.x as int / 2 <= i64::MAX,
            i64::MIN <= p.y - wh.y as int / 2 <= i64::MAX,
            i64::MIN <= p.y + wh.y as int / 2 <= i64::MAX,
        ensures
            r.x.start == p.x - wh.x as int / 2,
            r.x.end == p.x + wh.x as int / 2,
            r.y.start == p.y - wh.y as int / 2,
            r.y.end == p.y + wh.y as int / 2,
    {
        Rect {
            x: Range::from_pos_and_len(p.x, wh.x),
            y: Range::from_pos_and_len(p.y, wh.y),
        }
    }

    /// Construct a rectangle from center coordinates and dimensions.
    pub fn from_x_y_w_h(x: i64, y: i64, w: i64, h: i64) -> (r: Rect)
        requires
            i64::MIN <= x - w as int / 2 <= i64::MAX,
            i64::MIN <= x + w as int / 2 <= i64::MAX,
            i64::MIN <= y - h as int / 2 <= i64::MAX,
            i64::MIN <= y + h as int / 2 <= i64::MAX,
        ensures
            r.x.start == x - w as int / 2,
            r.x.end == x + w as int / 2,
            r.y.start == y - h as int / 2,
            r.y.end == y + h as int / 2,
    {
        Rect::from_xy_wh(Point2 { x, y }, Vector2 { x: w, y: h })
    }

    /// Construct a rectangle at the origin with the given dimensions.
    pub fn from_wh(wh: Vector2) -> (r: Rect)
        requires
            i64::MIN <= -(wh.x as int / 2) <= i64::MAX,
            i64::MIN <= -(wh.y as int / 2) <= i64::MAX,
        ensures
            r.x.start == -(wh.x as int / 2),
            r.x.end == wh.x as int / 2,
            r.y.start == -(wh.y as int / 2),
            r.y.end == wh.y as int / 2,
    {
        let p = Point2 { x: 0, y: 0 };
        Rect::from_xy_wh(p, wh)
    }

    /// Construct a rectangle at the origin with the given width and height.
    pub fn from_w_h(w: i64, h: i64) -> (r: Rect)
        requires
            i64::MIN <= -(w as int / 2) <= i64::MAX,
            i64::MIN <= -(h as int / 2) <= i64::MAX,
        ensures
            r.x.start == -(w as int / 2),
            r.x.end == w as int / 2,
            r.y.start == -(h as int / 2),
            r.y.end == h as int / 2,
    {
        Rect::from_wh(Vector2 { x: w, y: h })
    }

    /// Construct a rectangle from the coordinates of two points; each axis
    /// is ordered regardless of the order of the points.
    pub fn from_corners(a: Point2, b: Point2) -> (r: Rect)
        ensures
            r == Rect::spec_from_corners(a, b),
            r.x.is_absolute(),
            r.y.is_absolute(),
    {
        let (left, right) = if a.x < b.x {
            (a.x, b.x)
        } else {
            (b.x, a.x)
        };
        let (bottom, top) = if a.y < b.y {
            (a.y, b.y)
        } else {
            (b.y, a.y)
        };
        Rect {
            x: Range { start: left, end: right },
            y: Range { start: bottom, end: top },
        }
    }

    /// The rectangle with both axes normalized, so that each range's start
    /// is below its end.
    pub fn absolute(self) -> (r: Rect)
        ensures
            r == self.spec_absolute(),
    {
        let x = self.x.absolute();
        let y = self.y.absolute();
        Rect { x, y }
    }

    /// The rectangle where the two rectangles overlap, or `None` when they
    /// are disjoint on either axis. Touching edges yield a degenerate
    /// (zero-area) rectangle.
    pub fn overlap(self, other: Rect) -> (r: Option<Rect>)
        ensures
            r is Some <==> self.spec_overlaps(other),
            self.spec_overlaps(other) ==> r == Some(self.spec_overlap(other)),
    {
        match self.x.overlap(other.x) {
            Some(x) => match self.y.overlap(other.y) {
                Some(y) => Some(Rect { x, y }),
                None => None,
            },
            None => None,
        }
    }

    /// The smallest rectangle that encompasses both rectangles.
    pub fn max(self, other: Rect) -> (r: Rect)
        ensures
            r.x == self.x.spec_union(other.x),
            r.y == self.y.spec_union(other.y),
    {
        Rect { x: self.x.max(other.x), y: self.y.max(other.y) }
    }

    /// The position in the middle of the x bounds.
    pub fn x(&self) -> (r: i64)
        requires
            i64::MIN <= self.x.start + self.x.end <= i64::MAX,
        ensures
            r == self.x.spec_middle(),
    {
        self.x.middle()
    }

    /// The position in the middle of the y bounds.
    pub fn y(&self) -> (r: i64)
        requires
            i64::MIN <= self.y.start + self.y.end <= i64::MAX,
        ensures
            r == self.y.spec_middle(),
    {
        self.y.middle()
    }

    /// The point in the middle of the bounds.
    pub fn xy(&self) -> (r: Point2)
        requires
            self.can_subdivide(),
        ensures
            r.x == self.x.spec_middle(),
            r.y == self.y.spec_middle(),
    {
        Point2 { x: self.x(), y: self.y() }
    }

    /// The centered x and y coordinates as a tuple.
    pub fn x_y(&self) -> (r: (i64, i64))
        requires
            self.can_subdivide(),
        ensures
            r.0 == self.x.spec_middle(),
            r.1 == self.y.spec_middle(),
    {
        (self.x(), self.y())
    }

    /// The rectangle's lowest y value.
    pub fn bottom(&self) -> (r: i64)
        ensures
            r == self.spec_bottom(),
    {
        self.y.absolute().start
    }

    /// The rectangle's highest y value.
    pub fn top(&self) -> (r: i64)
        ensures
            r == self.spec_top(),
    {
        self.y.absolute().end
    }

    /// The rectangle's lowest x value.
    pub fn left(&self) -> (r: i64)
        ensures
            r == self.spec_left(),
    {
        self.x.absolute().start
    }

    /// The rectangle's highest x value.
    pub fn right(&self) -> (r: i64)
        ensures
            r == self.spec_right(),
    {
        self.x.absolute().end
    }

    /// The top left corner point.
    pub fn top_left(&self) -> (r: Point2)
        ensures
            r == self.spec_corner_at(2),
    {
        Point2 { x: self.left(), y: self.top() }
    }

    /// The bottom left corner point.
    pub fn bottom_left(&self) -> (r: Point2)
        ensures
            r == self.spec_corner_at(0),
    {
        Point2 { x: self.left(), y: self.bottom() }
    }

    /// The top right corner point.
    pub fn top_right(&self) -> (r: Point2)
        ensures
            r == self.spec_corner_at(3),
    {
        Point2 { x: self.right(), y: self.top() }
    }

    /// The bottom right corner point.
    pub fn bottom_right(&self) -> (r: Point2)
        ensures
            r == self.spec_corner_at(1),
    {
        Point2 { x: self.right(), y: self.bottom() }
    }

    /// The edges of the rectangle as the tuple (left, right, bottom, top).
    pub fn l_r_b_t(&self) -> (r: (i64, i64, i64, i64))
        ensures
            r.0 == self.spec_left(),
            r.1 == self.spec_right(),
            r.2 == self.spec_bottom(),
            r.3 == self.spec_top(),
    {
        (self.left(), self.right(), self.bottom(), self.top())
    }

    /// Shift the rectangle along the x axis.
    pub fn shift_x(self, x: i64) -> (r: Rect)
        requires
            self.x.can_shift(x as int),
        ensures
            r.x == self.x.spec_shift(x as int),
            r.y == self.y,
    {
        Rect { x: self.x.shift(x), y: self.y }
    }

    /// Shift the rectangle along the y axis.
    pub fn shift_y(self, y: i64) -> (r: Rect)
        requires
            self.y.can_shift(y as int),
        ensures
            r.x == self.x,
            r.y == self.y.spec_shift(y as int),
    {
        Rect { x: self.x, y: self.y.shift(y) }
    }

    /// Shift the rectangle by the given vector.
    pub fn shift(self, v: Vector2) -> (r: Rect)
        requires
            self.x.can_shift(v.x as int),
            self.y.can_shift(v.y as int),
        ensures
            r.x == self.x.spec_shift(v.x as int),
            r.y == self.y.spec_shift(v.y as int),
    {
        self.shift_x(v.x).shift_y(v.y)
    }

    /// Does the given point touch the rectangle.
    pub fn contains(&self, p: Point2) -> (r: bool)
        ensures
            r == self.spec_contains(p),
    {
        self.x.contains(p.x) && self.y.contains(p.y)
    }

    /// Stretch the nearest edge of each violated axis so that the rectangle
    /// covers the given point.
    pub fn stretch_to_point(self, p: Point2) -> (r: Rect)
        ensures
            r.x == self.x.spec_stretch(p.x),
            r.y == self.y.spec_stretch(p.y),
            r.spec_contains(p),
    {
        let Rect { x, y } = self;
        Rect { x: x.stretch_to_value(p.x), y: y.stretch_to_value(p.y) }
    }

    /// Align `self`'s right edge with the left edge of the `other` rectangle.
    pub fn left_of(self, other: Rect) -> (r: Rect)
        requires
            self.x.can_shift(self.x.align_before_delta(other.x)),
        ensures
            r.x == self.x.spec_shift(self.x.align_before_delta(other.x)),
            r.y == self.y,
            r.spec_right() == other.spec_left(),
    {
        Rect { x: self.x.align_before(other.x), y: self.y }
    }

    /// Align `self`'s left edge with the right edge of the `other` rectangle.
    pub fn right_of(self, other: Rect) -> (r: Rect)
        requires
            self.x.can_shift(self.x.align_after_delta(other.x)),
        ensures
            r.x == self.x.spec_shift(self.x.align_after_delta(other.x)),
            r.y == self.y,
            r.spec_left() == other.spec_right(),
    {
        Rect { x: self.x.align_after(other.x), y: self.y }
    }

    /// Align `self`'s top edge with the bottom edge of the `other`
    /// rectangle. The placement is computed against `other`'s *y* range, so
    /// only vertical extents matter.
    pub fn below(self, other: Rect) -> (r: Rect)
        requires
            self.y.can_shift(self.y.align_before_delta(other.y)),
        ensures
            r.x == self.x,
            r.y == self.y.spec_shift(self.y.align_before_delta(other.y)),
            r.spec_top() == other.spec_bottom(),
    {
        Rect { x: self.x, y: self.y.align_before(other.y) }
    }

    /// Align `self`'s bottom edge with the top edge of the `other`
    /// rectangle. The placement is computed against `other`'s *y* range, so
    /// only vertical extents matter.
    pub fn above(self, other: Rect) -> (r: Rect)
        requires
            self.y.can_shift(self.y.align_after_delta(other.y)),
        ensures
            r.x == self.x,
            r.y == self.y.spec_shift(self.y.align_after_delta(other.y)),
            r.spec_bottom() == other.spec_top(),
    {
        Rect { x: self.x, y: self.y.align_after(other.y) }
    }

    /// Align `self` to `other` along the *x* axis as the `align` variant
    /// directs.
    pub fn align_x_of(self, align: Align, other: Rect) -> (r: Rect)
        requires
            align is Start ==> self.x.can_shift(self.x.align_start_delta(other.x)),
            align is End ==> self.x.can_shift(self.x.align_end_delta(other.x)),
            align is Middle ==> i64::MIN <= self.x.start + self.x.end <= i64::MAX && i64::MIN
                <= other.x.start + other.x.end <= i64::MAX && self.x.can_shift(
                self.x.align_middle_delta(other.x),
            ),
        ensures
            align is Start ==> r.x == self.x.spec_shift(self.x.align_start_delta(other.x)),
            align is Middle ==> r.x == self.x.spec_shift(self.x.align_middle_delta(other.x)),
            align is End ==> r.x == self.x.spec_shift(self.x.align_end_delta(other.x)),
            r.y == self.y,
    {
        Rect { x: self.x.align_to(align, other.x), y: self.y }
    }

    /// Align `self` to `other` along the *y* axis as the `align` variant
    /// directs.
    pub fn align_y_of(self, align: Align, other: Rect) -> (r: Rect)
        requires
            align is Start ==> self.y.can_shift(self.y.align_start_delta(other.y)),
            align is End ==> self.y.can_shift(self.y.align_end_delta(other.y)),
            align is Middle ==> i64::MIN <= self.y.start + self.y.end <= i64::MAX && i64::MIN
                <= other.y.start + other.y.end <= i64::MAX && self.y.can_shift(
                self.y.align_middle_delta(other.y),
            ),
        ensures
            align is Start ==> r.y == self.y.spec_shift(self.y.align_start_delta(other.y)),
            align is Middle ==> r.y == self.y.spec_shift(self.y.align_middle_delta(other.y)),
            align is End ==> r.y == self.y.spec_shift(self.y.align_end_delta(other.y)),
            r.x == self.x,
    {
        Rect { x: self.x, y: self.y.align_to(align, other.y) }
    }

    /// Align `self`'s left edge with the left edge of the `other` rectangle.
    pub fn align_left_of(self, other: Rect) -> (r: Rect)
        requires
            self.x.can_shift(self.x.align_start_delta(other.x)),
        ensures
            r.x == self.x.spec_shift(self.x.align_start_delta(other.x)),
            r.y == self.y,
            r.spec_left() == other.spec_left(),
    {
        Rect { x: self.x.align_start_of(other.x), y: self.y }
    }

    /// Align the middle of `self` with the middle of the `other` rectangle
    /// along the *x* axis.
    pub fn align_middle_x_of(self, other: Rect) -> (r: Rect)
        requires
            i64::MIN <= self.x.start + self.x.end <= i64::MAX,
            i64::MIN <= other.x.start + other.x.end <= i64::MAX,
            self.x.can_shift(self.x.align_middle_delta(other.x)),
        ensures
            r.x == self.x.spec_shift(self.x.align_middle_delta(other.x)),
            r.y == self.y,
            r.x.spec_middle() == other.x.spec_middle(),
    {
        Rect { x: self.x.align_middle_of(other.x), y: self.y }
    }

    /// Align `self`'s right edge with the right edge of the `other`
    /// rectangle.
    pub fn align_right_of(self, other: Rect) -> (r: Rect)
        requires
            self.x.can_shift(self.x.align_end_delta(other.x)),
        ensures
            r.x == self.x.spec_shift(self.x.align_end_delta(other.x)),
            r.y == self.y,
            r.spec_right() == other.spec_right(),
    {
        Rect { x: self.x.align_end_of(other.x), y: self.y }
    }

    /// Align `self`'s bottom edge with the bottom edge of the `other`
    /// rectangle.
    pub fn align_bottom_of(self, other: Rect) -> (r: Rect)
        requires
            self.y.can_shift(self.y.align_start_delta(other.y)),
        ensures
            r.x == self.x,
            r.y == self.y.spec_shift(self.y.align_start_delta(other.y)),
            r.spec_bottom() == other.spec_bottom(),
    {
        Rect { x: self.x, y: self.y.align_start_of(other.y) }
    }

    /// Align the middle of `self` with the middle of the `other` rectangle
    /// along the *y* axis.
    pub fn align_middle_y_of(self, other: Rect) -> (r: Rect)
        requires
            i64::MIN <= self.y.start + self.y.end <= i64::MAX,
            i64::MIN <= other.y.start + other.y.end <= i64::MAX,
            self.y.can_shift(self.y.align_middle_delta(other.y)),
        ensures
            r.x == self.x,
            r.y == self.y.spec_shift(self.y.align_middle_delta(other.y)),
            r.y.spec_middle() == other.y.spec_middle(),
    {
        Rect { x: self.x, y: self.y.align_middle_of(other.y) }
    }

    /// Align `self`'s top edge with the top edge of the `other` rectangle.
    pub fn align_top_of(self, other: Rect) -> (r: Rect)
        requires
            self.y.can_shift(self.y.align_end_delta(other.y)),
        ensures
            r.x == self.x,
            r.y == self.y.spec_shift(self.y.align_end_delta(other.y)),
            r.spec_top() == other.spec_top(),
    {
        Rect { x: self.x, y: self.y.align_end_of(other.y) }
    }

    /// Place `self` along the top left edges of the `other` rectangle.
    pub fn top_left_of(self, other: Rect) -> (r: Rect)
        requires
            self.x.can_shift(self.x.align_start_delta(other.x)),
            self.y.can_shift(self.y.align_end_delta(other.y)),
        ensures
            r.x == self.x.spec_shift(self.x.align_start_delta(other.x)),
            r.y == self.y.spec_shift(self.y.align_end_delta(other.y)),
            r.spec_left() == other.spec_left(),
            r.spec_top() == other.spec_top(),
    {
        self.align_left_of(other).align_top_of(other)
    }

    /// Place `self` along the top right edges of the `other` rectangle.
    pub fn top_right_of(self, other: Rect) -> (r: Rect)
        requires
            self.x.can_shift(self.x.align_end_delta(other.x)),
            self.y.can_shift(self.y.align_end_delta(other.y)),
        ensures
            r.x == self.x.spec_shift(self.x.align_end_delta(other.x)),
            r.y == self.y.spec_shift(self.y.align_end_delta(other.y)),
            r.spec_right() == other.spec_right(),
            r.spec_top() == other.spec_top(),
    {
        self.align_right_of(other).align_top_of(other)
    }

    /// Place `self` along the bottom left edges of the `other` rectangle.
    pub fn bottom_left_of(self, other: Rect) -> (r: Rect)
        requires
            self.x.can_shift(self.x.align_start_delta(other.x)),
            self.y.can_shift(self.y.align_start_delta(other.y)),
        ensures
            r.x == self.x.spec_shift(self.x.align_start_delta(other.x)),
            r.y == self.y.spec_shift(self.y.align_start_delta(other.y)),
            r.spec_left() == other.spec_left(),
            r.spec_bottom() == other.spec_bottom(),
    {
        self.align_left_of(other).align_bottom_of(other)
    }

    /// Place `self` along the bottom right edges of the `other` rectangle.
    pub fn bottom_right_of(self, other: Rect) -> (r: Rect)
        requires
            self.x.can_shift(self.x.align_end_delta(other.x)),
            self.y.can_shift(self.y.align_start_delta(other.y)),
        ensures
            r.x == self.x.spec_shift(self.x.align_end_delta(other.x)),
            r.y == self.y.spec_shift(self.y.align_start_delta(other.y)),
            r.spec_right() == other.spec_right(),
            r.spec_bottom() == other.spec_bottom(),
    {
        self.align_right_of(other).align_bottom_of(other)
    }

    /// Place `self` in the middle of the top edge of the `other` rectangle.
    pub fn mid_top_of(self, other: Rect) -> (r: Rect)
        requires
            i64::MIN <= self.x.start + self.x.end <= i64::MAX,
            i64::MIN <= other.x.start + other.x.end <= i64::MAX,
            self.x.can_shift(self.x.align_middle_delta(other.x)),
            self.y.can_shift(self.y.align_end_delta(other.y)),
        ensures
            r.x == self.x.spec_shift(self.x.align_middle_delta(other.x)),
            r.y == self.y.spec_shift(self.y.align_end_delta(other.y)),
            r.x.spec_middle() == other.x.spec_middle(),
            r.spec_top() == other.spec_top(),
    {
        self.align_middle_x_of(other).align_top_of(other)
    }

    /// Place `self` in the middle of the bottom edge of the `other`
    /// rectangle.
    pub fn mid_bottom_of(self, other: Rect) -> (r: Rect)
        requires
            i64::MIN <= self.x.start + self.x.end <= i64::MAX,
            i64::MIN <= other.x.start + other.x.end <= i64::MAX,
            self.x.can_shift(self.x.align_middle_delta(other.x)),
            self.y.can_shift(self.y.align_start_delta(other.y)),
        ensures
            r.x == self.x.spec_shift(self.x.align_middle_delta(other.x)),
            r.y == self.y.spec_shift(self.y.align_start_delta(other.y)),
            r.x.spec_middle() == other.x.spec_middle(),
            r.spec_bottom() == other.spec_bottom(),
    {
        self.align_middle_x_of(other).align_bottom_of(other)
    }

    /// Place `self` in the middle of the left edge of the `other` rectangle.
    pub fn mid_left_of(self, other: Rect) -> (r: Rect)
        requires
            self.x.can_shift(self.x.align_start_delta(other.x)),
            i64::MIN <= self.y.start + self.y.end <= i64::MAX,
            i64::MIN <= other.y.start + other.y.end <= i64::MAX,
            self.y.can_shift(self.y.align_middle_delta(other.y)),
        ensures
            r.x == self.x.spec_shift(self.x.align_start_delta(other.x)),
            r.y == self.y.spec_shift(self.y.align_middle_delta(other.y)),
            r.spec_left() == other.spec_left(),
            r.y.spec_middle() == other.y.spec_middle(),
    {
        self.align_left_of(other).align_middle_y_of(other)
    }

    /// Place `self` in the middle of the right edge of the `other`
    /// rectangle.
    pub fn mid_right_of(self, other: Rect) -> (r: Rect)
        requires
            self.x.can_shift(self.x.align_end_delta(other.x)),
            i64::MIN <= self.y.start + self.y.end <= i64::MAX,
            i64::MIN <= other.y.start + other.y.end <= i64::MAX,
            self.y.can_shift(self.y.align_middle_delta(other.y)),
        ensures
            r.x == self.x.spec_shift(self.x.align_end_delta(other.x)),
            r.y == self.y.spec_shift(self.y.align_middle_delta(other.y)),
            r.spec_right() == other.spec_right(),
            r.y.spec_middle() == other.y.spec_middle(),
    {
        self.align_right_of(other).align_middle_y_of(other)
    }

    /// Place `self` directly in the middle of the `other` rectangle.
    pub fn middle_of(self, other: Rect) -> (r: Rect)
        requires
            i64::MIN <= self.x.start + self.x.end <= i64::MAX,
            i64::MIN <= other.x.start + other.x.end <= i64::MAX,
            self.x.can_shift(self.x.align_middle_delta(other.x)),
            i64::MIN <= self.y.start + self.y.end <= i64::MAX,
            i64::MIN <= other.y.start + other.y.end <= i64::MAX,
            self.y.can_shift(self.y.align_middle_delta(other.y)),
        ensures
            r.x == self.x.spec_shift(self.x.align_middle_delta(other.x)),
            r.y == self.y.spec_shift(self.y.align_middle_delta(other.y)),
            r.x.spec_middle() == other.x.spec_middle(),
            r.y.spec_middle() == other.y.spec_middle(),
    {
        self.align_middle_x_of(other).align_middle_y_of(other)
    }

    /// The width of the rectangle.
    pub fn w(&self) -> (r: i64)
        requires
            self.spec_w() <= i64::MAX,
        ensures
            r == self.spec_w(),
    {
        self.x.len()
    }

    /// The height of the rectangle.
    pub fn h(&self) -> (r: i64)
        requires
            self.spec_h() <= i64::MAX,
        ensures
            r == self.spec_h(),
    {
        self.y.len()
    }

    /// The total dimensions of the rectangle.
    pub fn wh(&self) -> (r: Vector2)
        requires
            self.spec_w() <= i64::MAX,
            self.spec_h() <= i64::MAX,
        ensures
            r.x == self.spec_w(),
            r.y == self.spec_h(),
    {
        Vector2 { x: self.w(), y: self.h() }
    }

    /// The width and height of the rectangle as a tuple.
    pub fn w_h(&self) -> (r: (i64, i64))
        requires
            self.spec_w() <= i64::MAX,
            self.spec_h() <= i64::MAX,
        ensures
            r.0 == self.spec_w(),
            r.1 == self.spec_h(),
    {
        (self.w(), self.h())
    }

    /// The rectangle as a center point and dimensions.
    pub fn xy_wh(&self) -> (r: (Point2, Vector2))
        requires
            self.can_subdivide(),
            self.spec_w() <= i64::MAX,
            self.spec_h() <= i64::MAX,
        ensures
            r.0.x == self.x.spec_middle(),
            r.0.y == self.y.spec_middle(),
            r.1.x == self.spec_w(),
            r.1.y == self.spec_h(),
    {
        (self.xy(), self.wh())
    }

    /// The rectangle's centered coordinates and dimensions in a tuple.
    pub fn x_y_w_h(&self) -> (r: (i64, i64, i64, i64))
        requires
            self.can_subdivide(),
            self.spec_w() <= i64::MAX,
            self.spec_h() <= i64::MAX,
        ensures
            r.0 == self.x.spec_middle(),
            r.1 == self.y.spec_middle(),
            r.2 == self.spec_w(),
            r.3 == self.spec_h(),
    {
        let (xy, wh) = self.xy_wh();
        (xy.x, xy.y, wh.x, wh.y)
    }

    /// The length of the longest side of the rectangle.
    pub fn len(&self) -> (r: i64)
        requires
            self.spec_w() <= i64::MAX,
            self.spec_h() <= i64::MAX,
        ensures
            r == self.spec_w() || r == self.spec_h(),
            r >= self.spec_w() && r >= self.spec_h(),
    {
        let w = self.w();
        let h = self.h();
        if w >= h {
            w
        } else {
            h
        }
    }

    /// The left and top edges of the rectangle along with the width and
    /// height.
    pub fn l_t_w_h(&self) -> (r: (i64, i64, i64, i64))
        requires
            self.spec_w() <= i64::MAX,
            self.spec_h() <= i64::MAX,
        ensures
            r.0 == self.spec_left(),
            r.1 == self.spec_top(),
            r.2 == self.spec_w(),
            r.3 == self.spec_h(),
    {
        let (w, h) = self.w_h();
        (self.left(), self.top(), w, h)
    }

    /// The left and bottom edges of the rectangle along with the width and
    /// height.
    pub fn l_b_w_h(&self) -> (r: (i64, i64, i64, i64))
        requires
            self.spec_w() <= i64::MAX,
            self.spec_h() <= i64::MAX,
        ensures
            r.0 == self.spec_left(),
            r.1 == self.spec_bottom(),
            r.2 == self.spec_w(),
            r.3 == self.spec_h(),
    {
        let (w, h) = self.w_h();
        (self.left(), self.bottom(), w, h)
    }

    /// The rectangle with some padding applied to the left edge.
    pub fn pad_left(self, pad: i64) -> (r: Rect)
        requires
            i64::MIN <= self.x.padded_start_val(pad as int) <= i64::MAX,
        ensures
            r.x == self.x.spec_pad_start(pad as int),
            r.y == self.y,
    {
        Rect { x: self.x.pad_start(pad), y: self.y }
    }

    /// The rectangle with some padding applied to the right edge.
    pub fn pad_right(self, pad: i64) -> (r: Rect)
        requires
            i64::MIN <= self.x.padded_end_val(pad as int) <= i64::MAX,
        ensures
            r.x == self.x.spec_pad_end(pad as int),
            r.y == self.y,
    {
        Rect { x: self.x.pad_end(pad), y: self.y }
    }

    /// The rectangle with some padding applied to the bottom edge.
    pub fn pad_bottom(self, pad: i64) -> (r: Rect)
        requires
            i64::MIN <= self.y.padded_start_val(pad as int) <= i64::MAX,
        ensures
            r.x == self.x,
            r.y == self.y.spec_pad_start(pad as int),
    {
        Rect { x: self.x, y: self.y.pad_start(pad) }
    }

    /// The rectangle with some padding applied to the top edge.
    pub fn pad_top(self, pad: i64) -> (r: Rect)
        requires
            i64::MIN <= self.y.padded_end_val(pad as int) <= i64::MAX,
        ensures
            r.x == self.x,
            r.y == self.y.spec_pad_end(pad as int),
    {
        Rect { x: self.x, y: self.y.pad_end(pad) }
    }

    /// The rectangle with the same padding amount applied to all four edges.
    pub fn pad(self, pad: i64) -> (r: Rect)
        requires
            i64::MIN <= self.x.padded_start_val(pad as int) <= i64::MAX,
            i64::MIN <= self.x.spec_pad_start(pad as int).padded_end_val(pad as int) <= i64::MAX,
            i64::MIN <= self.y.padded_start_val(pad as int) <= i64::MAX,
            i64::MIN <= self.y.spec_pad_start(pad as int).padded_end_val(pad as int) <= i64::MAX,
        ensures
            r == self.spec_pad(pad as int),
    {
        let Rect { x, y } = self;
        Rect { x: x.pad(pad), y: y.pad(pad) }
    }

    /// The rectangle with independent padding applied to each edge:
    /// `padding.x.start`/`padding.x.end` trim the left/right edges and
    /// `padding.y.start`/`padding.y.end` trim the bottom/top edges.
    pub fn padding(self, padding: Padding) -> (r: Rect)
        requires
            i64::MIN <= self.x.padded_start_val(padding.x.start as int) <= i64::MAX,
            i64::MIN <= self.x.spec_pad_start(padding.x.start as int).padded_end_val(
                padding.x.end as int,
            ) <= i64::MAX,
            i64::MIN <= self.y.padded_start_val(padding.y.start as int) <= i64::MAX,
            i64::MIN <= self.y.spec_pad_start(padding.y.start as int).padded_end_val(
                padding.y.end as int,
            ) <= i64::MAX,
        ensures
            r.x == self.x.spec_pad_start(padding.x.start as int).spec_pad_end(
                padding.x.end as int,
            ),
            r.y == self.y.spec_pad_start(padding.y.start as int).spec_pad_end(
                padding.y.end as int,
            ),
    {
        Rect {
            x: self.x.pad_ends(padding.x.start, padding.x.end),
            y: self.y.pad_ends(padding.y.start, padding.y.end),
        }
    }

    /// The rectangle translated so that the given *x* position becomes the
    /// local origin of its axis.
    pub fn relative_to_x(self, x: i64) -> (r: Rect)
        requires
            self.x.can_shift(-(x as int)),
        ensures
            r.x == self.x.spec_shift(-(x as int)),
            r.y == self.y,
    {
        Rect { x: self.x.shift(-x), y: self.y }
    }

    /// The rectangle translated so that the given *y* position becomes the
    /// local origin of its axis.
    pub fn relative_to_y(self, y: i64) -> (r: Rect)
        requires
            self.y.can_shift(-(y as int)),
        ensures
            r.x == self.x,
            r.y == self.y.spec_shift(-(y as int)),
    {
        Rect { x: self.x, y: self.y.shift(-y) }
    }

    /// The rectangle translated so that the given point becomes the local
    /// origin.
    pub fn relative_to(self, p: Point2) -> (r: Rect)
        requires
            self.x.can_shift(-(p.x as int)),
            self.y.can_shift(-(p.y as int)),
        ensures
            r.x == self.x.spec_shift(-(p.x as int)),
            r.y == self.y.spec_shift(-(p.y as int)),
    {
        self.relative_to_x(p.x).relative_to_y(p.y)
    }

    /// The corner of `self` that is closest to the given point, the lower
    /// and left edges winning ties.
    pub fn closest_corner(&self, p: Point2) -> (r: Corner)
        requires
            dist(self.x.start as int, p.x as int) <= i64::MAX,
            dist(self.x.end as int, p.x as int) <= i64::MAX,
            dist(self.y.start as int, p.y as int) <= i64::MAX,
            dist(self.y.end as int, p.y as int) <= i64::MAX,
        ensures
            r == (match (self.x.spec_closest_edge(p.x as int), self.y.spec_closest_edge(
                p.y as int,
            )) {
                (Edge::Start, Edge::Start) => Corner::BottomLeft,
                (Edge::Start, Edge::End) => Corner::TopLeft,
                (Edge::End, Edge::Start) => Corner::BottomRight,
                (Edge::End, Edge::End) => Corner::TopRight,
            }),
    {
        let x_edge = self.x.closest_edge(p.x);
        let y_edge = self.y.closest_edge(p.y);
        match (x_edge, y_edge) {
            (Edge::Start, Edge::Start) => Corner::BottomLeft,
            (Edge::Start, Edge::End) => Corner::TopLeft,
            (Edge::End, Edge::Start) => Corner::BottomRight,
            (Edge::End, Edge::End) => Corner::TopRight,
        }
    }

    /// The four corners of the rectangle as an ordered quadrilateral:
    /// bottom left, top left, top right, bottom right.
    pub fn corners(&self) -> (r: Quad)
        ensures
            r.0[0] == self.spec_corner_at(0),
            r.0[1] == self.spec_corner_at(2),
            r.0[2] == self.spec_corner_at(3),
            r.0[3] == self.spec_corner_at(1),
    {
        let (left, right, bottom, top) = self.l_r_b_t();
        let lb = Point2 { x: left, y: bottom };
        let lt = Point2 { x: left, y: top };
        let rt = Point2 { x: right, y: top };
        let rb = Point2 { x: right, y: bottom };
        Quad::from([lb, lt, rt, rb])
    }

    /// A cursor yielding the four corners of the rectangle, bottom left,
    /// bottom right, top left, then top right.
    pub fn corners_iter(&self) -> (r: Corners)
        ensures
            r.wf(),
            r.spec_rect() == *self,
            r.spec_index() == 0,
    {
        let rect = *self;
        let index: u8 = 0;
        Corners { rect, index }
    }

    /// Two triangles that cover the rectangle, split along the diagonal from
    /// the bottom left to the top right corner.
    pub fn triangles(&self) -> (r: (Tri, Tri))
        ensures
            r.0.0[0] == self.spec_corner_at(0),
            r.0.0[1] == self.spec_corner_at(2),
            r.0.0[2] == self.spec_corner_at(3),
            r.1.0[0] == self.spec_corner_at(0),
            r.1.0[1] == self.spec_corner_at(3),
            r.1.0[2] == self.spec_corner_at(1),
    {
        self.corners().triangles()
    }

    /// A cursor yielding the rectangle's two covering triangles.
    pub fn triangles_iter(self) -> (r: Triangles)
        ensures
            r.wf(),
            r.spec_remaining() == 2,
            r.spec_tris()[0].0[0] == self.spec_corner_at(0),
            r.spec_tris()[0].0[1] == self.spec_corner_at(2),
            r.spec_tris()[0].0[2] == self.spec_corner_at(3),
            r.spec_tris()[1].0[0] == self.spec_corner_at(0),
            r.spec_tris()[1].0[1] == self.spec_corner_at(3),
            r.spec_tris()[1].0[2] == self.spec_corner_at(1),
    {
        self.corners().triangles_iter()
    }

    /// The four ranges used for the rectangle's four subdivisions: each axis
    /// split at its midpoint.
    pub fn subdivision_ranges(&self) -> (r: SubdivisionRanges)
        requires
            self.can_subdivide(),
        ensures
            r == self.spec_subdivision_ranges(),
    {
        let x = self.x.middle();
        let y = self.y.middle();
        let x_a = Range::new(self.x.start, x);
        let x_b = Range::new(x, self.x.end);
        let y_a = Range::new(self.y.start, y);
        let y_b = Range::new(y, self.y.end);
        SubdivisionRanges { x_a, x_b, y_a, y_b }
    }

    /// Divide the rectangle in half along the *x* and *y* axes and return
    /// the four subdivisions: bottom left, bottom right, top left, then top
    /// right.
    pub fn subdivisions(&self) -> (r: [Rect; 4])
        requires
            self.can_subdivide(),
        ensures
            forall|i: int|
                0 <= i < 4 ==> r[i] == self.spec_subdivision_ranges().spec_rect_at(i),
    {
        self.subdivision_ranges().rects()
    }

    /// The same subdivisions as `subdivisions`, yielded through a cursor.
    pub fn subdivisions_iter(&self) -> (r: Subdivisions)
        requires
            self.can_subdivide(),
        ensures
            r.wf(),
            r.spec_ranges() == self.spec_subdivision_ranges(),
            r.spec_index() == 0,
    {
        self.subdivision_ranges().rects_iter()
    }

    /// The corner at the given index: 0 bottom left, 1 bottom right, 2 top
    /// left, 3 top right; `None` outside that range.
    pub fn corner_at_index(&self, index: u8) -> (r: Option<Point2>)
        ensures
            index < 4 ==> r == Some(self.spec_corner_at(index as int)),
            index >= 4 ==> r is None,
    {
        match index {
            0 => Some(self.bottom_left()),
            1 => Some(self.bottom_right()),
            2 => Some(self.top_left()),
            3 => Some(self.top_right()),
            _ => None,
        }
    }
}

impl SubdivisionRanges {
    /// The quadrant at the given position: 0 bottom left, 1 bottom right,
    /// 2 top left, 3 top right.
    pub open spec fn spec_rect_at(self, i: int) -> Rect {
        if i == 0 {
            Rect { x: self.x_a, y: self.y_a }
        } else if i == 1 {
            Rect { x: self.x_b, y: self.y_a }
        } else if i == 2 {
            Rect { x: self.x_a, y: self.y_b }
        } else {
            Rect { x: self.x_b, y: self.y_b }
        }
    }

    /// The rectangles of the four subdivisions: bottom left, bottom right,
    /// top left, then top right.
    pub fn rects(&self) -> (r: [Rect; 4])
        ensures
            forall|i: int| 0 <= i < 4 ==> r[i] == self.spec_rect_at(i),
    {
        let r1 = Rect { x: self.x_a, y: self.y_a };
        let r2 = Rect { x: self.x_b, y: self.y_a };
        let r3 = Rect { x: self.x_a, y: self.y_b };
        let r4 = Rect { x: self.x_b, y: self.y_b };
        [r1, r2, r3, r4]
    }

    /// The same rectangles as `rects`, yielded through a cursor.
    pub fn rects_iter(self) -> (r: Subdivisions)
        ensures
            r.wf(),
            r.spec_ranges() == self,
            r.spec_index() == 0,
    {
        Subdivisions { ranges: self, subdivision_index: 0 }
    }

    /// The subdivision at the given index, or `None` outside the quadrant
    /// indices.
    fn subdivision_at_index(&self, index: u8) -> (r: Option<Rect>)
        ensures
            index < 4 ==> r == Some(self.spec_rect_at(index as int)),
            index >= 4 ==> r is None,
    {
        let rect = match index {
            0 => Rect { x: self.x_a, y: self.y_a },
            1 => Rect { x: self.x_b, y: self.y_a },
            2 => Rect { x: self.x_a, y: self.y_b },
            3 => Rect { x: self.x_b, y: self.y_b },
            _ => {
                return None;
            },
        };
        Some(rect)
    }
}

impl Subdivisions {
    /// The cursor has not run past its four subdivisions.
    pub closed spec fn wf(self) -> bool {
        self.subdivision_index <= 4
    }

    /// The axis halves the cursor walks over.
    pub closed spec fn spec_ranges(self) -> SubdivisionRanges {
        self.ranges
    }

    /// How many subdivisions have been consumed.
    pub closed spec fn spec_index(self) -> int {
        self.subdivision_index as int
    }

    /// How many subdivisions are still to come.
    pub open spec fn spec_remaining(self) -> int {
        4 - self.spec_index()
    }

    /// The next subdivision, front to back: quadrants 0, 1, 2, 3 in turn,
    /// then `None`.
    pub fn next(&mut self) -> (r: Option<Rect>)
        requires
            old(self).wf(),
        ensures
            final(self).wf(),
            final(self).spec_ranges() == old(self).spec_ranges(),
            old(self).spec_index() < 4 ==> r == Some(
                old(self).spec_ranges().spec_rect_at(old(self).spec_index()),
            ) && final(self).spec_index() == old(self).spec_index() + 1,
            old(self).spec_index() == 4 ==> r is None && *final(self) == *old(self),
    {
        if let Some(sd) = self.ranges.subdivision_at_index(self.subdivision_index) {
            self.subdivision_index = self.subdivision_index + 1;
            return Some(sd);
        }
        None
    }

    /// The next subdivision, back to front: quadrants 3, 2, 1, 0 in turn,
    /// then `None`.
    pub fn next_back(&mut self) -> (r: Option<Rect>)
        requires
            old(self).wf(),
        ensures
            final(self).wf(),
            final(self).spec_ranges() == old(self).spec_ranges(),
            old(self).spec_index() < 4 ==> r == Some(
                old(self).spec_ranges().spec_rect_at(3 - old(self).spec_index()),
            ) && final(self).spec_index() == old(self).spec_index() + 1,
            old(self).spec_index() == 4 ==> r is None && *final(self) == *old(self),
    {
        if self.subdivision_index < 4 {
            let sd = self.ranges.subdivision_at_index(3 - self.subdivision_index);
            self.subdivision_index = self.subdivision_index + 1;
            sd
        } else {
            None
        }
    }

    /// The exact number of subdivisions still to come.
    pub fn len(&self) -> (r: usize)
        requires
            self.wf(),
        ensures
            r == self.spec_remaining(),
    {
        (4 - self.subdivision_index) as usize
    }

    /// The exact bounds on the number of subdivisions still to come.
    pub fn size_hint(&self) -> (r: (usize, Option<usize>))
        requires
            self.wf(),
        ensures
            r.0 == self.spec_remaining(),
            r.1 == Some(r.0),
    {
        let len = self.len();
        (len, Some(len))
    }
}

impl Corners {
    /// The cursor has not run past the four corners.
    pub closed spec fn wf(self) -> bool {
        self.index <= 4
    }

    /// The rectangle whose corners the cursor yields.
    pub closed spec fn spec_rect(self) -> Rect {
        self.rect
    }

    /// How many corners have been consumed.
    pub closed spec fn spec_index(self) -> int {
        self.index as int
    }

    /// How many corners are still to come.
    pub open spec fn spec_remaining(self) -> int {
        4 - self.spec_index()
    }

    /// The next corner, front to back: bottom left, bottom right, top left,
    /// top right in turn, then `None`.
    pub fn next(&mut self) -> (r: Option<Point2>)
        requires
            old(self).wf(),
        ensures
            final(self).wf(),
            final(self).spec_rect() == old(self).spec_rect(),
            old(self).spec_index() < 4 ==> r == Some(
                old(self).spec_rect().spec_corner_at(old(self).spec_index()),
            ) && final(self).spec_index() == old(self).spec_index() + 1,
            old(self).spec_index() == 4 ==> r is None && *final(self) == *old(self),
    {
        if let Some(corner) = self.rect.corner_at_index(self.index) {
            self.index = self.index + 1;
            return Some(corner);
        }
        None
    }

    /// The next corner, back to front: top right, top left, bottom right,
    /// bottom left in turn, then `None`.
    pub fn next_back(&mut self) -> (r: Option<Point2>)
        requires
            old(self).wf(),
        ensures
            final(self).wf(),
            final(self).spec_rect() == old(self).spec_rect(),
            old(self).spec_index() < 4 ==> r == Some(
                old(self).spec_rect().spec_corner_at(3 - old(self).spec_index()),
            ) && final(self).spec_index() == old(self).spec_index() + 1,
            old(self).spec_index() == 4 ==> r is None && *final(self) == *old(self),
    {
        if self.index < 4 {
            let corner = self.rect.corner_at_index(3 - self.index);
            self.index = self.index + 1;
            corner
        } else {
            None
        }
    }

    /// The exact number of corners still to come.
    pub fn len(&self) -> (r: usize)
        requires
            self.wf(),
        ensures
            r == self.spec_remaining(),
    {
        (4 - self.index) as usize
    }

    /// The exact bounds on the number of corners still to come.
    pub fn size_hint(&self) -> (r: (usize, Option<usize>))
        requires
            self.wf(),
        ensures
            r.0 == self.spec_remaining(),
            r.1 == Some(r.0),
    {
        let len = self.len();
        (len, Some(len))
    }
}

/// The area where two rectangles overlap, and zero where they are disjoint.
pub open spec fn spec_overlap_area(a: Rect, b: Rect) -> int {
    if a.spec_overlaps(b) {
        a.spec_overlap(b).spec_area()
    } else {
        0
    }
}

/// The corner sequence a forward walk of `corners_iter` yields: bottom left,
/// bottom right, top left, top right.
pub open spec fn spec_corners_forward(r: Rect) -> Seq<Point2> {
    seq![r.spec_corner_at(0), r.spec_corner_at(1), r.spec_corner_at(2), r.spec_corner_at(3)]
}

/// The corner sequence a backward walk of `corners_iter` yields: top right,
/// top left, bottom right, bottom left.
pub open spec fn spec_corners_backward(r: Rect) -> Seq<Point2> {
    seq![r.spec_corner_at(3), r.spec_corner_at(2), r.spec_corner_at(1), r.spec_corner_at(0)]
}

/// A rectangle built from two corner points has ordered edges on both axes,
/// whichever point holds the smaller coordinates.
pub proof fn lemma_from_corners_ordered(a: Point2, b: Point2)
    ensures
        Rect::spec_from_corners(a, b).spec_left() <= Rect::spec_from_corners(a, b).spec_right(),
        Rect::spec_from_corners(a, b).spec_bottom() <= Rect::spec_from_corners(a, b).spec_top(),
{
}

/// Normalizing a rectangle changes none of its derived queries: edges,
/// width and height are those of the original.
pub proof fn lemma_absolute_same_queries(r: Rect)
    ensures
        r.spec_absolute().spec_left() == r.spec_left(),
        r.spec_absolute().spec_right() == r.spec_right(),
        r.spec_absolute().spec_bottom() == r.spec_bottom(),
        r.spec_absolute().spec_top() == r.spec_top(),
        r.spec_absolute().spec_w() == r.spec_w(),
        r.spec_absolute().spec_h() == r.spec_h(),
        r.spec_absolute().spec_absolute() == r.spec_absolute(),
{
}

/// Padding a rectangle by a positive amount below half its smallest
/// dimension, then by the opposite amount, restores the rectangle exactly.
pub proof fn lemma_pad_round_trip(r: Rect, p: int)
    requires
        0 < p,
        2 * p < r.spec_w(),
        2 * p < r.spec_h(),
    ensures
        r.spec_pad(p).spec_pad(-p) == r,
{
    crate::range::lemma_pad_round_trip(r.x, p);
    crate::range::lemma_pad_round_trip(r.y, p);
}

/// A rectangle overlaps itself, and the overlap is its own normalized form.
pub proof fn lemma_self_overlap(r: Rect)
    ensures
        r.spec_overlaps(r),
        r.spec_overlap(r) == r.spec_absolute(),
{
}

/// The four subdivisions exactly tile the rectangle: per axis the two
/// halves' lengths sum to the whole (and are equal halves whenever the
/// dimension is even), the four areas sum to the rectangle's area, and any
/// two distinct subdivisions overlap in zero area.
pub proof fn lemma_subdivisions_tile(r: Rect)
    requires
        r.can_subdivide(),
    ensures
        r.spec_subdivision_ranges().spec_rect_at(0).spec_w() + r.spec_subdivision_ranges().spec_rect_at(1).spec_w() == r.spec_w(),
        r.spec_subdivision_ranges().spec_rect_at(0).spec_h() + r.spec_subdivision_ranges().spec_rect_at(2).spec_h() == r.spec_h(),
        forall|i: int|
            0 <= i < 4 ==> r.spec_w() % 2 == 0 ==> #[trigger] r.spec_subdivision_ranges().spec_rect_at(i).spec_w() == r.spec_w() / 2,
        forall|i: int|
            0 <= i < 4 ==> r.spec_h() % 2 == 0 ==> #[trigger] r.spec_subdivision_ranges().spec_rect_at(i).spec_h() == r.spec_h() / 2,
        r.spec_subdivision_ranges().spec_rect_at(0).spec_area() + r.spec_subdivision_ranges().spec_rect_at(1).spec_area() + r.spec_subdivision_ranges().spec_rect_at(2).spec_area() + r.spec_subdivision_ranges().spec_rect_at(3).spec_area() == r.spec_area(),
        forall|i: int, j: int|
            0 <= i < 4 && 0 <= j < 4 && i != j ==> #[trigger] spec_overlap_area(
                r.spec_subdivision_ranges().spec_rect_at(i),
                r.spec_subdivision_ranges().spec_rect_at(j),
            ) == 0,
{
    crate::range::lemma_middle_between(r.x);
    crate::range::lemma_middle_between(r.y);
    let sr = r.spec_subdivision_ranges();
    let wa = sr.x_a.spec_len();
    let wb = sr.x_b.spec_len();
    let ha = sr.y_a.spec_len();
    let hb = sr.y_b.spec_len();
    assert(wa + wb == r.spec_w());
    assert(ha + hb == r.spec_h());
    assert((wa + wb) * (ha + hb) == wa * ha + wb * ha + wa * hb + wb * hb) by (nonlinear_arith);
    assert(r.spec_w() % 2 == 0 ==> wa == wb) by {
        vstd::arithmetic::div_mod::lemma_fundamental_div_mod(r.x.start + r.x.end, 2);
        vstd::arithmetic::div_mod::lemma_mod_bound(r.x.start + r.x.end, 2);
    }
    assert(r.spec_h() % 2 == 0 ==> ha == hb) by {
        vstd::arithmetic::div_mod::lemma_fundamental_div_mod(r.y.start + r.y.end, 2);
        vstd::arithmetic::div_mod::lemma_mod_bound(r.y.start + r.y.end, 2);
    }
    assert forall|i: int, j: int| 0 <= i < 4 && 0 <= j < 4 && i != j implies #[trigger] spec_overlap_area(
        sr.spec_rect_at(i),
        sr.spec_rect_at(j),
    ) == 0 by {
        let a = sr.spec_rect_at(i);
        let b = sr.spec_rect_at(j);
        if i % 2 != j % 2 {
            assert(a.x.spec_overlaps(b.x) ==> a.x.spec_overlap(b.x).spec_len() == 0);
        } else {
            assert(a.y.spec_overlaps(b.y) ==> a.y.spec_overlap(b.y).spec_len() == 0);
        }
        if a.spec_overlaps(b) {
            assert(a.spec_overlap(b).spec_area() == 0) by (nonlinear_arith)
                requires
                    a.spec_overlap(b).spec_w() == 0 || a.spec_overlap(b).spec_h() == 0,
            ;
        }
    }
}

/// The corners yielded walking forward are the mirror image of the corners
/// yielded walking backward.
pub proof fn lemma_corners_mirror(r: Rect)
    ensures
        spec_corners_forward(r) == spec_corners_backward(r).reverse(),
{
    assert(spec_corners_forward(r) =~= spec_corners_backward(r).reverse());
}

} // verus!
