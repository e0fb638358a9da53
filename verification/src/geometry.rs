//! Point / line-segment relation predicates on integer coordinates.
//!
//! Coordinates are integers (callers pick a fixed-point scale); the tolerance
//! is an exact rational. Every predicate multiplies the slope form through by
//! its denominators, so the tests are exact: no rounding, no division.

use vstd::prelude::*;

verus! {

/// Largest coordinate magnitude the predicates accept; keeps every
/// intermediate product inside `i128`.
pub const GEO_COORD_LIMIT: i64 = 0x4000_0000;

/// A 2D point with integer coordinates.
#[derive(Debug, Clone, Copy, PartialEq, Eq, Structural)]
pub struct Point2D {
    pub x: i64,
    pub y: i64,
}

impl Point2D {
    /// Both coordinates are small enough for exact predicate arithmetic.
    pub open spec fn wf(&self) -> bool {
        -GEO_COORD_LIMIT <= self.x <= GEO_COORD_LIMIT && -GEO_COORD_LIMIT <= self.y
            <= GEO_COORD_LIMIT
    }

    pub fn new(data: [i64; 2]) -> (p: Point2D)
        ensures
            p.x == data[0],
            p.y == data[1],
    {
        Point2D { x: data[0], y: data[1] }
    }
}

/// An ordered pair of points: directionless for intersection tests, ordered
/// for ray-relation tests.
#[derive(Debug, Clone, Copy, PartialEq, Eq, Structural)]
pub struct LineSegment {
    pub p0: Point2D,
    pub p1: Point2D,
}

impl LineSegment {
    pub open spec fn wf(&self) -> bool {
        self.p0.wf() && self.p1.wf()
    }

    /// The two endpoints differ.
    pub open spec fn nondegenerate(&self) -> bool {
        self.p0.x != self.p1.x || self.p0.y != self.p1.y
    }

    pub fn new(p0: Point2D, p1: Point2D) -> (s: LineSegment)
        ensures
            s.p0 == p0,
            s.p1 == p1,
    {
        LineSegment { p0, p1 }
    }
}

/// An exact rational tolerance num / den.
#[derive(Debug, Clone, Copy, PartialEq, Eq, Structural)]
pub struct Tolerance {
    pub num: i64,
    pub den: i64,
}

impl Tolerance {
    pub open spec fn wf(&self) -> bool {
        0 <= self.num <= GEO_COORD_LIMIT && 1 <= self.den <= GEO_COORD_LIMIT
    }
}

/// Where a point stands relative to a segment's carrier ray.
#[derive(Debug, Clone, Copy, PartialEq, Eq, Structural)]
pub enum PointLineSegmentRelation {
    On,
    OnRayAB,
    OnRayBA,
    Appart,
}

/// Larger of two values.
pub fn partial_ord_max(a: i64, b: i64) -> (r: i64)
    ensures
        r == vstd::math::max(a as int, b as int),
{
    if a > b {
        a
    } else {
        b
    }
}

/// Smaller of two values.
pub fn partial_ord_min(a: i64, b: i64) -> (r: i64)
    ensures
        r == vstd::math::min(a as int, b as int),
{
    if a < b {
        a
    } else {
        b
    }
}

/// The point (px, py) lies within the tolerance band of the line through
/// (x0, y0)-(x1, y1): the slope comparison `|y(px) - py| <= num / den`
/// multiplied through by `|x0 - x1|` and `den`.
pub open spec fn within_band(
    px: int,
    py: int,
    x0: int,
    y0: int,
    x1: int,
    y1: int,
    num: int,
    den: int,
) -> bool {
    vstd::math::abs((y0 - py) * (x0 - x1) + (y0 - y1) * (px - x0)) * den <= num * vstd::math::abs(
        x0 - x1,
    )
}

/// Interval classification along the x axis, used once a point is within the
/// band of a non-vertical segment.
pub open spec fn classify_x(px: int, x0: int, x1: int) -> PointLineSegmentRelation {
    if x0 < x1 {
        if px > x1 {
            PointLineSegmentRelation::OnRayAB
        } else if px < x0 {
            PointLineSegmentRelation::OnRayBA
        } else {
            PointLineSegmentRelation::On
        }
    } else if x0 > x1 {
        if px > x0 {
            PointLineSegmentRelation::OnRayBA
        } else if px < x1 {
            PointLineSegmentRelation::OnRayAB
        } else {
            PointLineSegmentRelation::On
        }
    } else {
        PointLineSegmentRelation::Appart
    }
}

/// Interval classification along the y axis, used for vertical segments.
pub open spec fn classify_y(py: int, y0: int, y1: int) -> PointLineSegmentRelation {
    if y0 < y1 {
        if py > y1 {
            PointLineSegmentRelation::OnRayAB
        } else if py < y0 {
            PointLineSegmentRelation::OnRayBA
        } else {
            PointLineSegmentRelation::On
        }
    } else if y0 > y1 {
        if py > y0 {
            PointLineSegmentRelation::OnRayBA
        } else if py < y1 {
            PointLineSegmentRelation::OnRayAB
        } else {
            PointLineSegmentRelation::On
        }
    } else {
        PointLineSegmentRelation::Appart
    }
}

/// Exact relation of a point to a segment: axis-parallel segments are
/// special-cased with exact coordinate equality, the general case tests the
/// tolerance band and classifies by the x interval.
pub open spec fn relative_to_spec(
    p: Point2D,
    seg: LineSegment,
    eps: Tolerance,
) -> PointLineSegmentRelation {
    let px = p.x as int;
    let py = p.y as int;
    let x0 = seg.p0.x as int;
    let y0 = seg.p0.y as int;
    let x1 = seg.p1.x as int;
    let y1 = seg.p1.y as int;
    if x0 == x1 && px == x0 {
        classify_y(py, y0, y1)
    } else if y0 == y1 && py == y0 {
        classify_x(px, x0, x1)
    } else if within_band(px, py, x0, y0, x1, y1, eps.num as int, eps.den as int) {
        classify_x(px, x0, x1)
    } else {
        PointLineSegmentRelation::Appart
    }
}

/// The point is within tolerance of the segment and between its endpoints.
pub open spec fn is_on_spec(p: Point2D, seg: LineSegment, eps: Tolerance) -> bool {
    relative_to_spec(p, seg, eps) == PointLineSegmentRelation::On
}

impl Point2D {
    /// Where this point stands relative to the segment: on it, on the ray
    /// beyond either end, or apart from its carrier line.
    pub fn relative_to(&self, line_segment: &LineSegment, epsilon: &Tolerance) -> (r:
        PointLineSegmentRelation)
        requires
            self.wf(),
            line_segment.wf(),
            epsilon.wf(),
            line_segment.nondegenerate(),
        ensures
            r == relative_to_spec(*self, *line_segment, *epsilon),
    {
        let px = self.x;
        let py = self.y;
        let x0 = line_segment.p0.x;
        let y0 = line_segment.p0.y;
        let x1 = line_segment.p1.x;
        let y1 = line_segment.p1.y;

        if x0 == x1 && px == x0 {
            // parallel to the y axis
            if y0 < y1 {
                if py > y1 {
                    PointLineSegmentRelation::OnRayAB
                } else if py < y0 {
                    PointLineSegmentRelation::OnRayBA
                } else {
                    PointLineSegmentRelation::On
                }
            } else {
                if py > y0 {
                    PointLineSegmentRelation::OnRayBA
                } else if py < y1 {
                    PointLineSegmentRelation::OnRayAB
                } else {
                    PointLineSegmentRelation::On
                }
            }
        } else if y0 == y1 && py == y0 {
            // parallel to the x axis
            self.classify_x_exec(x0, x1)
        } else {
            // general slope comparison, multiplied through by den and |dx|
            proof {
                assert(-0x4000_0000_0000_0000 <= (y0 - py) * (x0 - x1) <= 0x4000_0000_0000_0000
                    && -0x4000_0000_0000_0000 <= (y0 - y1) * (px - x0) <= 0x4000_0000_0000_0000)
                    by (nonlinear_arith)
                    requires
                        -0x8000_0000 <= y0 - py <= 0x8000_0000,
                        -0x8000_0000 <= x0 - x1 <= 0x8000_0000,
                        -0x8000_0000 <= y0 - y1 <= 0x8000_0000,
                        -0x8000_0000 <= px - x0 <= 0x8000_0000,
                ;
            }
            let e: i128 = (y0 as i128 - py as i128) * (x0 as i128 - x1 as i128) + (y0 as i128
                - y1 as i128) * (px as i128 - x0 as i128);
            let abs_e: i128 = if e < 0 {
                -e
            } else {
                e
            };
            let dx: i128 = x0 as i128 - x1 as i128;
            let abs_dx: i128 = if dx < 0 {
                -dx
            } else {
                dx
            };
            proof {
                assert(0 <= (abs_e as int) * (epsilon.den as int) <= 0x8000_0000_0000_0000
                    * 0x4000_0000 && 0 <= (epsilon.num as int) * (abs_dx as int) <= 0x4000_0000
                    * 0x8000_0000) by (nonlinear_arith)
                    requires
                        0 <= abs_e <= 0x8000_0000_0000_0000,
                        1 <= epsilon.den <= 0x4000_0000,
                        0 <= epsilon.num <= 0x4000_0000,
                        0 <= abs_dx <= 0x8000_0000,
                ;
            }
            if abs_e * (epsilon.den as i128) <= (epsilon.num as i128) * abs_dx {
                self.classify_x_exec(x0, x1)
            } else {
                PointLineSegmentRelation::Appart
            }
        }
    }

    fn classify_x_exec(&self, x0: i64, x1: i64) -> (r: PointLineSegmentRelation)
        ensures
            r == classify_x(self.x as int, x0 as int, x1 as int),
    {
        let px = self.x;
        if x0 < x1 {
            if px > x1 {
                PointLineSegmentRelation::OnRayAB
            } else if px < x0 {
                PointLineSegmentRelation::OnRayBA
            } else {
                PointLineSegmentRelation::On
            }
        } else if x0 > x1 {
            if px > x0 {
                PointLineSegmentRelation::OnRayBA
            } else if px < x1 {
                PointLineSegmentRelation::OnRayAB
            } else {
                PointLineSegmentRelation::On
            }
        } else {
            PointLineSegmentRelation::Appart
        }
    }

    /// The point lies on the segment within the tolerance.
    pub fn is_on(&self, line_segment: &LineSegment, epsilon: &Tolerance) -> (r: bool)
        requires
            self.wf(),
            line_segment.wf(),
            epsilon.wf(),
            line_segment.nondegenerate(),
        ensures
            r == is_on_spec(*self, *line_segment, *epsilon),
    {
        match self.relative_to(line_segment, epsilon) {
            PointLineSegmentRelation::On => true,
            _ => false,
        }
    }
}

/// The two segments intersect: collinear-overlap for axis-parallel pairs,
/// otherwise each segment must not lie strictly on one side of the other's
/// carrier line (touching counts as intersecting).
pub open spec fn intersect_spec(a: LineSegment, b: LineSegment) -> bool {
    let x0 = a.p0.x as int;
    let y0 = a.p0.y as int;
    let x1 = a.p1.x as int;
    let y1 = a.p1.y as int;
    let x2 = b.p0.x as int;
    let y2 = b.p0.y as int;
    let x3 = b.p1.x as int;
    let y3 = b.p1.y as int;
    if x0 == x1 && x2 == x3 {
        // both parallel to the y axis
        x0 == x2 && !(vstd::math::max(y0, y1) < vstd::math::min(y2, y3) || vstd::math::min(y0, y1)
            > vstd::math::max(y2, y3))
    } else if y0 == y1 && y2 == y3 {
        // both parallel to the x axis: collinear with overlapping x intervals
        y0 == y2 && !(vstd::math::max(x0, x1) < vstd::math::min(x2, x3) || vstd::math::min(x0, x1)
            > vstd::math::max(x2, x3))
    } else {
        // d_i is (signed-area style) the side of endpoint i relative to the
        // other segment's carrier line, scaled by that line's x extent
        let dx0 = x0 - x1;
        let dy0 = y0 - y1;
        let dx1 = x2 - x3;
        let dy1 = y2 - y3;
        let d0 = (y0 - y2) * dx1 - dy1 * (x0 - x2);
        let d1 = (y1 - y2) * dx1 - dy1 * (x1 - x2);
        let d2 = (y2 - y0) * dx0 - dy0 * (x2 - x0);
        let d3 = (y3 - y0) * dx0 - dy0 * (x3 - x0);
        !(d0 * d1 > 0) && !(d2 * d3 > 0)
    }
}

impl LineSegment {
    /// The two segments intersect (touching at an endpoint counts).
    pub fn is_intersect(&self, rhs: &LineSegment, epsilon: &Tolerance) -> (r: bool)
        requires
            self.wf(),
            rhs.wf(),
            epsilon.wf(),
        ensures
            r == intersect_spec(*self, *rhs),
    {
        let x0 = self.p0.x;
        let y0 = self.p0.y;
        let x1 = self.p1.x;
        let y1 = self.p1.y;
        let x2 = rhs.p0.x;
        let y2 = rhs.p0.y;
        let x3 = rhs.p1.x;
        let y3 = rhs.p1.y;

        if x0 == x1 && x2 == x3 {
            // both parallel to the y axis
            if x0 != x2 {
                false
            } else {
                !(partial_ord_max(y0, y1) < partial_ord_min(y2, y3) || partial_ord_min(y0, y1)
                    > partial_ord_max(y2, y3))
            }
        } else if y0 == y1 && y2 == y3 {
            // both parallel to the x axis
            if y0 != y2 {
                false
            } else {
                !(partial_ord_max(x0, x1) < partial_ord_min(x2, x3) || partial_ord_min(x0, x1)
                    > partial_ord_max(x2, x3))
            }
        } else {
            let dx0: i128 = x0 as i128 - x1 as i128;
            let dy0: i128 = y0 as i128 - y1 as i128;
            let dx1: i128 = x2 as i128 - x3 as i128;
            let dy1: i128 = y2 as i128 - y3 as i128;
            proof {
                assert forall|u: int, v: int|
                    -0x8000_0000 <= u <= 0x8000_0000 && -0x8000_0000 <= v
                        <= 0x8000_0000 implies -0x4000_0000_0000_0000 <= #[trigger] (u * v)
                    <= 0x4000_0000_0000_0000 by {
                    assert(-0x4000_0000_0000_0000 <= u * v <= 0x4000_0000_0000_0000)
                        by (nonlinear_arith)
                        requires
                            -0x8000_0000 <= u <= 0x8000_0000,
                            -0x8000_0000 <= v <= 0x8000_0000,
                    ;
                }
            }
            let d0: i128 = (y0 as i128 - y2 as i128) * dx1 - dy1 * (x0 as i128 - x2 as i128);
            let d1: i128 = (y1 as i128 - y2 as i128) * dx1 - dy1 * (x1 as i128 - x2 as i128);
            let d2: i128 = (y2 as i128 - y0 as i128) * dx0 - dy0 * (x2 as i128 - x0 as i128);
            let d3: i128 = (y3 as i128 - y0 as i128) * dx0 - dy0 * (x3 as i128 - x0 as i128);
            if d0 > 0 && d1 > 0 || d0 < 0 && d1 < 0 {
                proof {
                    assert((d0 as int) * (d1 as int) > 0) by (nonlinear_arith)
                        requires
                            d0 > 0 && d1 > 0 || d0 < 0 && d1 < 0,
                    ;
                }
                false
            } else if d2 > 0 && d3 > 0 || d2 < 0 && d3 < 0 {
                proof {
                    assert((d2 as int) * (d3 as int) > 0) by (nonlinear_arith)
                        requires
                            d2 > 0 && d3 > 0 || d2 < 0 && d3 < 0,
                    ;
                    assert(!((d0 as int) * (d1 as int) > 0)) by (nonlinear_arith)
                        requires
                            !(d0 > 0 && d1 > 0 || d0 < 0 && d1 < 0),
                    ;
                }
                false
            } else {
                proof {
                    assert(!((d0 as int) * (d1 as int) > 0)) by (nonlinear_arith)
                        requires
                            !(d0 > 0 && d1 > 0 || d0 < 0 && d1 < 0),
                    ;
                    assert(!((d2 as int) * (d3 as int) > 0)) by (nonlinear_arith)
                        requires
                            !(d2 > 0 && d3 > 0 || d2 < 0 && d3 < 0),
                    ;
                }
                true
            }
        }
    }
}

/// A growing list of line segments.
#[derive(Debug, Clone)]
pub struct LineSegments {
    pub data: Vec<LineSegment>,
}

impl LineSegments {
    pub fn new() -> (r: LineSegments)
        ensures
            r.data@.len() == 0,
    {
        LineSegments { data: Vec::<LineSegment>::new() }
    }

    pub fn push(&mut self, line_segment: LineSegment)
        ensures
            final(self).data@ == old(self).data@.push(line_segment),
    {
        self.data.push(line_segment);
    }
}

/// Distance between two values of one geometric type.
pub trait Distance {
    type Output;

    fn distance(&self, rhs: &Self) -> Self::Output;
}

/// A point within tolerance of a segment is within the same tolerance of the
/// segment with its endpoints swapped: `is_on` does not depend on the
/// ordering of the endpoints.
pub proof fn lemma_is_on_symmetric(p: Point2D, a: Point2D, b: Point2D, eps: Tolerance)
    requires
        p.wf(),
        a.wf(),
        b.wf(),
        eps.wf(),
        a.x != b.x || a.y != b.y,
    ensures
        is_on_spec(p, (LineSegment { p0: a, p1: b }), eps) == is_on_spec(
            p,
            (LineSegment { p0: b, p1: a }),
            eps,
        ),
{
    let px = p.x as int;
    let py = p.y as int;
    let x0 = a.x as int;
    let y0 = a.y as int;
    let x1 = b.x as int;
    let y1 = b.y as int;
    // the band term only changes sign under an endpoint swap
    assert((y1 - py) * (x1 - x0) + (y1 - y0) * (px - x1) == -((y0 - py) * (x0 - x1) + (y0 - y1) * (
    px - x0))) by (nonlinear_arith);
    assert(vstd::math::abs((y1 - py) * (x1 - x0) + (y1 - y0) * (px - x1)) == vstd::math::abs((y0
        - py) * (x0 - x1) + (y0 - y1) * (px - x0)));
    assert(vstd::math::abs(x1 - x0) == vstd::math::abs(x0 - x1));
    if x0 == x1 {
        // vertical: exact column test, symmetric interval
        assert(y0 != y1);
        if px == x0 {
            assert(is_on_spec(p, (LineSegment { p0: a, p1: b }), eps) == (vstd::math::min(y0, y1)
                <= py <= vstd::math::max(y0, y1)));
            assert(is_on_spec(p, (LineSegment { p0: b, p1: a }), eps) == (vstd::math::min(y0, y1)
                <= py <= vstd::math::max(y0, y1)));
        } else {
            // off the column: the band is empty because the x extent is zero
            assert((y0 - py) * (x0 - x1) == 0) by (nonlinear_arith)
                requires
                    x0 == x1,
            ;
            assert(vstd::math::abs((y0 - y1) * (px - x0)) >= 1) by (nonlinear_arith)
                requires
                    y0 != y1,
                    px != x0,
            ;
            assert(vstd::math::abs((y0 - py) * (x0 - x1) + (y0 - y1) * (px - x0)) * eps.den >= 1)
                by (nonlinear_arith)
                requires
                    vstd::math::abs((y0 - py) * (x0 - x1) + (y0 - y1) * (px - x0)) >= 1,
                    eps.den >= 1,
            ;
            assert(vstd::math::abs(x0 - x1) == 0);
            assert((eps.num as int) * vstd::math::abs(x0 - x1) == 0) by (nonlinear_arith)
                requires
                    vstd::math::abs(x0 - x1) == 0,
            ;
            assert(!within_band(px, py, x0, y0, x1, y1, eps.num as int, eps.den as int));
            assert(vstd::math::abs(x1 - x0) == 0);
            assert((eps.num as int) * vstd::math::abs(x1 - x0) == 0) by (nonlinear_arith)
                requires
                    vstd::math::abs(x1 - x0) == 0,
            ;
            assert(!within_band(px, py, x1, y1, x0, y0, eps.num as int, eps.den as int));
        }
    } else {
        // non-vertical: the band and the x-interval classification are both
        // symmetric under the swap
        assert(classify_x(px, x0, x1) == PointLineSegmentRelation::On <==> classify_x(px, x1, x0)
            == PointLineSegmentRelation::On);
    }
}

} // verus!
