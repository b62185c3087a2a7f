//! Directed line segments: endpoints, orientation and the ordering of split
//! pieces.
//!
//! The arithmetic that locates a split point (solving for `t`, interpolating)
//! is done on floating-point values by the caller; a segment here receives
//! that point and decides how the pieces are formed and ordered.

use crate::lane::{
    is_finite, is_nan, lane_abs_lt, lane_eq, lane_le, lane_lt, lane_max, lane_min,
    lemma_lane_total, PARALLEL_EPSILON,
};
use crate::lane;
use crate::point::Point2DF;
use vstd::prelude::*;

verus! {

/// A directed segment from `from` to `to`.
#[derive(Clone, Copy, Debug, Default, PartialEq, Eq, Structural)]
pub struct LineSegmentF {
    pub from: Point2DF,
    pub to: Point2DF,
}

/// The segment with the given endpoints.
pub open spec fn seg(from: Point2DF, to: Point2DF) -> LineSegmentF {
    LineSegmentF { from, to }
}

impl LineSegmentF {
    /// The same segment traversed the other way.
    pub open spec fn reversed_spec(self) -> LineSegmentF {
        seg(self.to, self.from)
    }

    /// `self` when `y_winding` is non-negative, else the reversal.
    pub open spec fn orient_spec(self, y_winding: int) -> LineSegmentF {
        if y_winding >= 0 {
            self
        } else {
            self.reversed_spec()
        }
    }

    /// `+1` when `from` lies strictly above `to` in y order, else `-1`.
    pub open spec fn y_winding_spec(self) -> int {
        if lane_lt(self.from.y, self.to.y) {
            1
        } else {
            -1
        }
    }

    /// The two pieces of a split at `mid`, before any reordering.
    pub open spec fn split_spec(self, mid: Point2DF) -> (LineSegmentF, LineSegmentF) {
        (seg(self.from, mid), seg(mid, self.to))
    }

    /// The split at `mid`, the piece that starts at the lesser x first.
    pub open spec fn split_at_x_spec(self, mid: Point2DF) -> (LineSegmentF, LineSegmentF) {
        let (l, r) = self.split_spec(mid);
        if lane_lt(l.from.x, r.from.x) {
            (l, r)
        } else {
            (r, l)
        }
    }

    /// The split at `mid`, the upper piece first. The start of the first
    /// piece is compared with the end of the second, so that a zero-length
    /// piece at either end is still placed correctly.
    pub open spec fn split_at_y_spec(self, mid: Point2DF) -> (LineSegmentF, LineSegmentF) {
        let (l, r) = self.split_spec(mid);
        if lane_lt(l.from.y, r.to.y) {
            (l, r)
        } else {
            (r, l)
        }
    }

    /// `to - from` is exactly the zero vector. Binary32 subtraction gives an
    /// exact zero precisely when both operands are finite and equal; an
    /// infinity minus itself is a NaN.
    pub open spec fn is_zero_length_spec(self) -> bool {
        is_finite(self.from.x) && is_finite(self.to.x) && lane_eq(self.from.x, self.to.x)
            && is_finite(self.from.y) && is_finite(self.to.y) && lane_eq(self.from.y, self.to.y)
    }

    pub open spec fn min_x_spec(self) -> u32 {
        lane_min(self.from.x, self.to.x)
    }

    pub open spec fn max_x_spec(self) -> u32 {
        lane_max(self.from.x, self.to.x)
    }

    pub open spec fn min_y_spec(self) -> u32 {
        lane_min(self.from.y, self.to.y)
    }

    pub open spec fn max_y_spec(self) -> u32 {
        lane_max(self.from.y, self.to.y)
    }

    pub fn new(from: Point2DF, to: Point2DF) -> (r: LineSegmentF)
        ensures
            r == seg(from, to),
    {
        LineSegmentF { from, to }
    }

    pub fn from(&self) -> (r: Point2DF)
        ensures
            r == self.from,
    {
        self.from
    }

    pub fn to(&self) -> (r: Point2DF)
        ensures
            r == self.to,
    {
        self.to
    }

    pub fn set_from(&mut self, point: &Point2DF)
        ensures
            *final(self) == seg(*point, old(self).to),
    {
        self.from = *point;
    }

    pub fn set_to(&mut self, point: &Point2DF)
        ensures
            *final(self) == seg(old(self).from, *point),
    {
        self.to = *point;
    }

    pub fn from_x(&self) -> (r: u32)
        ensures
            r == self.from.x,
    {
        self.from.x
    }

    pub fn from_y(&self) -> (r: u32)
        ensures
            r == self.from.y,
    {
        self.from.y
    }

    pub fn to_x(&self) -> (r: u32)
        ensures
            r == self.to.x,
    {
        self.to.x
    }

    pub fn to_y(&self) -> (r: u32)
        ensures
            r == self.to.y,
    {
        self.to.y
    }

    pub fn set_from_x(&mut self, x: u32)
        ensures
            *final(self) == seg(Point2DF { x, y: old(self).from.y }, old(self).to),
    {
        self.from.x = x;
    }

    pub fn set_from_y(&mut self, y: u32)
        ensures
            *final(self) == seg(Point2DF { x: old(self).from.x, y }, old(self).to),
    {
        self.from.y = y;
    }

    pub fn set_to_x(&mut self, x: u32)
        ensures
            *final(self) == seg(old(self).from, Point2DF { x, y: old(self).to.y }),
    {
        self.to.x = x;
    }

    pub fn set_to_y(&mut self, y: u32)
        ensures
            *final(self) == seg(old(self).from, Point2DF { x: old(self).to.x, y }),
    {
        self.to.y = y;
    }

    /// Splits at `mid`, the point that interpolation gave: the left piece
    /// runs from `from` to `mid`, the right piece from `mid` to `to`, and the
    /// two share `mid` exactly.
    pub fn split_at_point(&self, mid: Point2DF) -> (r: (LineSegmentF, LineSegmentF))
        ensures
            r == self.split_spec(mid),
            r.0.from == self.from,
            r.0.to == mid,
            r.1.from == mid,
            r.1.to == self.to,
            r.0.to == r.1.from,
    {
        (LineSegmentF::new(self.from, mid), LineSegmentF::new(mid, self.to))
    }

    /// Splits at `mid`, the point of the segment at the chosen x, and returns
    /// the piece that starts at the lesser x first.
    pub fn split_at_x(&self, mid: Point2DF) -> (r: (LineSegmentF, LineSegmentF))
        ensures
            r == self.split_at_x_spec(mid),
            r == (if lane_lt(self.from.x, mid.x) {
                (seg(self.from, mid), seg(mid, self.to))
            } else {
                (seg(mid, self.to), seg(self.from, mid))
            }),
    {
        let (min_part, max_part) = self.split_at_point(mid);
        if lane::lt(min_part.from_x(), max_part.from_x()) {
            (min_part, max_part)
        } else {
            (max_part, min_part)
        }
    }

    /// Splits at `mid`, the point of the segment at the chosen y, and returns
    /// the upper piece first.
    pub fn split_at_y(&self, mid: Point2DF) -> (r: (LineSegmentF, LineSegmentF))
        ensures
            r == self.split_at_y_spec(mid),
            r == (if lane_lt(self.from.y, self.to.y) {
                (seg(self.from, mid), seg(mid, self.to))
            } else {
                (seg(mid, self.to), seg(self.from, mid))
            }),
    {
        let (min_part, max_part) = self.split_at_point(mid);
        // Comparing `from_y` of one piece with `to_y` of the other keeps the
        // order right when one of the two pieces has zero length.
        if lane::lt(min_part.from_y(), max_part.to_y()) {
            (min_part, max_part)
        } else {
            (max_part, min_part)
        }
    }

    /// Whether `to - from` is exactly the zero vector.
    pub fn is_zero_length(&self) -> (r: bool)
        ensures
            r == self.is_zero_length_spec(),
    {
        lane::finite(self.from_x()) && lane::finite(self.to_x()) && lane::eq(self.from_x(), self.to_x())
            && lane::finite(self.from_y()) && lane::finite(self.to_y()) && lane::eq(self.from_y(), self.to_y())
    }

    pub fn reversed(&self) -> (r: LineSegmentF)
        ensures
            r == self.reversed_spec(),
    {
        LineSegmentF::new(self.to, self.from)
    }

    /// The endpoint with the smaller y; `to` when neither is smaller.
    pub fn upper_point(&self) -> (r: Point2DF)
        ensures
            r == (if lane_lt(self.from.y, self.to.y) {
                self.from
            } else {
                self.to
            }),
    {
        if lane::lt(self.from_y(), self.to_y()) {
            self.from()
        } else {
            self.to()
        }
    }

    pub fn min_x(&self) -> (r: u32)
        ensures
            r == self.min_x_spec(),
    {
        lane::min(self.from_x(), self.to_x())
    }

    pub fn max_x(&self) -> (r: u32)
        ensures
            r == self.max_x_spec(),
    {
        lane::max(self.from_x(), self.to_x())
    }

    pub fn min_y(&self) -> (r: u32)
        ensures
            r == self.min_y_spec(),
    {
        lane::min(self.from_y(), self.to_y())
    }

    pub fn max_y(&self) -> (r: u32)
        ensures
            r == self.max_y_spec(),
    {
        lane::max(self.from_y(), self.to_y())
    }

    /// `1` if `from.y < to.y`, else `-1` (equal y counts as `-1`).
    pub fn y_winding(&self) -> (r: i32)
        ensures
            r as int == self.y_winding_spec(),
            r == 1 || r == -1,
    {
        if lane::lt(self.from_y(), self.to_y()) {
            1
        } else {
            -1
        }
    }

    /// Reverses the segment when `y_winding` is negative; applying the same
    /// winding again undoes it.
    pub fn orient(&self, y_winding: i32) -> (r: LineSegmentF)
        ensures
            r == self.orient_spec(y_winding as int),
    {
        if y_winding >= 0 {
            *self
        } else {
            self.reversed()
        }
    }
}

/// The intersection parameter from the solved 2x2 system: `None` when the
/// determinant's magnitude is below one ten-thousandth (the lines are nearly
/// parallel), else `t`, the parameter along the first segment.
pub open spec fn intersection_choice(det: u32, t: u32) -> Option<u32> {
    if lane_abs_lt(det, PARALLEL_EPSILON) {
        None
    } else {
        Some(t)
    }
}

/// Decides the outcome of an intersection query from the determinant of the
/// system built from the two direction vectors and the parameter solved from
/// it.
pub fn choose_intersection(det: u32, t: u32) -> (r: Option<u32>)
    ensures
        r == intersection_choice(det, t),
        r is None <==> lane_abs_lt(det, PARALLEL_EPSILON),
{
    if lane::abs_lt(det, PARALLEL_EPSILON) {
        None
    } else {
        Some(t)
    }
}

/// Reversing a segment twice gives it back.
pub proof fn lemma_reversed_round_trip(s: LineSegmentF)
    ensures
        s.reversed_spec().reversed_spec() == s,
{
}

/// Orienting with winding `+1` keeps a segment, and with `-1` reverses it.
pub proof fn lemma_orient_by_winding(s: LineSegmentF)
    ensures
        s.orient_spec(1) == s,
        s.orient_spec(-1) == s.reversed_spec(),
{
}

/// Orienting a segment by its own winding puts its upper endpoint (the one
/// with the lesser y) first.
pub proof fn lemma_orient_by_own_winding(s: LineSegmentF)
    requires
        !is_nan(s.from.y),
        !is_nan(s.to.y),
    ensures
        lane_le(s.orient_spec(s.y_winding_spec()).from.y, s.orient_spec(s.y_winding_spec()).to.y),
{
    lemma_lane_total(s.from.y, s.to.y);
}

/// Whatever the direction of the segment, the x split returns first the piece
/// whose start has the lesser x.
pub proof fn lemma_split_at_x_order(s: LineSegmentF, mid: Point2DF)
    requires
        !is_nan(s.from.x),
        !is_nan(mid.x),
    ensures
        lane_le(s.split_at_x_spec(mid).0.from.x, s.split_at_x_spec(mid).1.from.x),
{
    lemma_lane_total(s.from.x, mid.x);
}

/// Whatever the direction of the segment, when `mid` lies between its
/// endpoints in y the y split returns the upper piece first: no point of the
/// first piece lies below a point of the second.
pub proof fn lemma_split_at_y_order(s: LineSegmentF, mid: Point2DF)
    requires
        !is_nan(s.from.y),
        !is_nan(s.to.y),
        !is_nan(mid.y),
        (lane_le(s.from.y, mid.y) && lane_le(mid.y, s.to.y)) || (lane_le(s.to.y, mid.y)
            && lane_le(mid.y, s.from.y)),
    ensures
        lane_le(s.split_at_y_spec(mid).0.max_y_spec(), s.split_at_y_spec(mid).1.min_y_spec()),
        lane_le(s.split_at_y_spec(mid).0.from.y, s.split_at_y_spec(mid).1.from.y),
{
    lemma_lane_total(s.from.y, s.to.y);
    lemma_lane_total(s.from.y, mid.y);
    lemma_lane_total(mid.y, s.to.y);
}

} // verus!
