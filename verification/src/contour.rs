//! Incremental contour building with self-intersection rejection.

use vstd::prelude::*;
use crate::geometry::{
    intersect_spec,
    is_on_spec,
    relative_to_spec,
    LineSegment,
    Point2D,
    PointLineSegmentRelation,
    Tolerance,
};

verus! {

/// The polyline segment k runs from point k to point k + 1.
pub open spec fn poly_seg(points: Seq<Point2D>, k: int) -> LineSegment {
    LineSegment { p0: points[k], p1: points[k + 1] }
}

/// No two non-adjacent segments of the open polyline intersect.
pub open spec fn polyline_simple(points: Seq<Point2D>) -> bool {
    forall|i: int, j: int|
        0 <= i && i + 2 <= j && j < points.len() - 1 ==> !intersect_spec(
            #[trigger] poly_seg(points, i),
            #[trigger] poly_seg(points, j),
        )
}

/// The closing segment (from the first point back to the last) intersects no
/// interior segment of the polyline.
pub open spec fn closing_clear(points: Seq<Point2D>) -> bool {
    forall|i: int|
        1 <= i < points.len() - 2 ==> !intersect_spec(
            (LineSegment { p0: points[0], p1: points[points.len() - 1] }),
            #[trigger] poly_seg(points, i),
        )
}

/// Every point has coordinates small enough for exact predicate arithmetic.
pub open spec fn points_wf(points: Seq<Point2D>) -> bool {
    forall|i: int| 0 <= i < points.len() ==> (#[trigger] points[i]).wf()
}

/// What `test_push` accepts: with zero or one point everything, afterwards a
/// candidate that is neither collinear-overlapping with the most recent
/// segment nor crossing any non-adjacent existing segment.
pub open spec fn test_push_spec(points: Seq<Point2D>, p: Point2D, eps: Tolerance) -> bool {
    let last = points.len() - 1;
    if points.len() <= 1 {
        true
    } else {
        let last_seg = LineSegment { p0: points[last], p1: points[last - 1] };
        &&& relative_to_spec(p, last_seg, eps) != PointLineSegmentRelation::OnRayAB
        &&& relative_to_spec(p, last_seg, eps) != PointLineSegmentRelation::On
        &&& forall|i: int|
            0 <= i < last - 1 ==> !intersect_spec(
                (LineSegment { p0: points[last], p1: p }),
                #[trigger] poly_seg(points, i),
            )
    }
}

/// What `test_close` accepts: at least three points; with four or more, the
/// closing segment must pass through neither neighbour of the two ends and
/// must not intersect any interior segment.
pub open spec fn test_close_spec(points: Seq<Point2D>, eps: Tolerance) -> bool {
    let last = points.len() - 1;
    if points.len() <= 2 {
        false
    } else if points.len() == 3 {
        true
    } else {
        let closing = LineSegment { p0: points[last], p1: points[0] };
        &&& !is_on_spec(points[1], closing, eps)
        &&& !is_on_spec(points[last - 1], closing, eps)
        &&& forall|i: int|
            1 <= i < last - 1 ==> !intersect_spec(
                (LineSegment { p0: points[0], p1: points[last] }),
                #[trigger] poly_seg(points, i),
            )
    }
}

/// A crossing between the candidate segment and any non-adjacent segment is
/// a witness that `test_push` rejects the candidate.
proof fn lemma_crossing_rejects(points: Seq<Point2D>, p: Point2D, eps: Tolerance, i: int)
    requires
        points.len() >= 2,
        0 <= i < points.len() - 2,
        intersect_spec(
            (LineSegment { p0: points[points.len() - 1], p1: p }),
            poly_seg(points, i),
        ),
    ensures
        !test_push_spec(points, p, eps),
{
}

/// An immutable closed contour: the last point connects back to the first.
#[derive(Debug, Clone)]
pub struct Contour2D {
    data: Vec<Point2D>,
}

impl Contour2D {
    pub closed spec fn view(&self) -> Seq<Point2D> {
        self.data@
    }

    pub open spec fn wf(&self) -> bool {
        points_wf(self.view())
    }

    pub fn get_points(&self) -> (r: &Vec<Point2D>)
        ensures
            r@ == self.view(),
    {
        &self.data
    }

    pub fn len(&self) -> (n: usize)
        ensures
            n == self.view().len(),
    {
        self.data.len()
    }

    /// A deep copy holding the same points.
    pub fn duplicate(&self) -> (r: Contour2D)
        ensures
            r.view() == self.view(),
    {
        let mut data = Vec::<Point2D>::new();
        let mut i: usize = 0;
        while i < self.data.len()
            invariant
                i <= self.view().len(),
                data@ == self.view().subrange(0, i as int),
            decreases self.view().len() - i,
        {
            data.push(self.data[i]);
            i += 1;
        }
        proof {
            assert(data@ =~= self.view());
        }
        Contour2D { data }
    }

    /// Wraps an already validated point list; the builder is the public way
    /// to construct a contour.
    pub(crate) fn from_points(data: Vec<Point2D>) -> (c: Contour2D)
        ensures
            c.view() == data@,
    {
        Contour2D { data }
    }
}

/// Accepts points one at a time; `test_push` and `test_close` report whether
/// an edit keeps the polyline simple, `push` commits unconditionally, and
/// `close` freezes the result.
#[derive(Debug, Clone)]
pub struct Contour2DBuilder {
    data: Vec<Point2D>,
}

impl Contour2DBuilder {
    pub closed spec fn view(&self) -> Seq<Point2D> {
        self.data@
    }

    pub open spec fn wf(&self) -> bool {
        points_wf(self.view())
    }

    pub fn new() -> (b: Contour2DBuilder)
        ensures
            b.view().len() == 0,
    {
        Contour2DBuilder { data: Vec::<Point2D>::new() }
    }

    /// Would appending (x, y) keep the polyline simple? Rejects a candidate
    /// collinear-overlapping with the last segment or crossing a non-adjacent
    /// segment. Read-only: committing is `push`'s job.
    pub fn test_push(&self, x: i64, y: i64, epsilon: &Tolerance) -> (r: bool)
        requires
            self.wf(),
            epsilon.wf(),
            -crate::geometry::GEO_COORD_LIMIT <= x <= crate::geometry::GEO_COORD_LIMIT,
            -crate::geometry::GEO_COORD_LIMIT <= y <= crate::geometry::GEO_COORD_LIMIT,
            self.view().len() >= 2 ==> self.view()[self.view().len() - 1] != self.view()[self.view().len() - 2],
        ensures
            r == test_push_spec(self.view(), (Point2D { x, y }), *epsilon),
    {
        let p0 = Point2D { x, y };
        let num_of_points = self.data.len();
        if num_of_points <= 1 {
            return true;
        }
        let last = num_of_points - 1;
        let last_line_segment = LineSegment::new(self.data[last], self.data[last - 1]);

        let rel = p0.relative_to(&last_line_segment, epsilon);
        match rel {
            PointLineSegmentRelation::OnRayAB => {
                return false;
            },
            PointLineSegmentRelation::On => {
                return false;
            },
            _ => (),
        }

        let line_segment0 = LineSegment::new(self.data[last], p0);
        let mut i: usize = 0;
        while i < last - 1
            invariant
                self.wf(),
                epsilon.wf(),
                p0.wf(),
                p0 == (Point2D { x, y }),
                line_segment0 == (LineSegment { p0: self.view()[last as int], p1: p0 }),
                2 <= num_of_points == self.view().len(),
                last == num_of_points - 1,
                i <= last - 1,
                forall|k: int|
                    0 <= k < i ==> !intersect_spec(
                        (LineSegment { p0: self.view()[last as int], p1: p0 }),
                        #[trigger] poly_seg(self.view(), k),
                    ),
            decreases last - 1 - i,
        {
            let line_segment1 = LineSegment::new(self.data[i], self.data[i + 1]);
            if line_segment0.is_intersect(&line_segment1, epsilon) {
                proof {
                    assert(intersect_spec(
                        (LineSegment { p0: self.view()[last as int], p1: p0 }),
                        poly_seg(self.view(), i as int),
                    ));
                    lemma_crossing_rejects(self.view(), p0, *epsilon, i as int);
                }
                return false;
            }
            i += 1;
        }
        return true;
    }

    /// Commits a point. Unchecked: callers gate edits with `test_push`.
    pub fn push(&mut self, x: i64, y: i64)
        ensures
            final(self).view() == old(self).view().push((Point2D { x, y })),
    {
        self.data.push(Point2D::new([x, y]));
    }

    /// Could the polyline be closed into a simple contour right now?
    pub fn test_close(&self, epsilon: &Tolerance) -> (r: bool)
        requires
            self.wf(),
            epsilon.wf(),
            self.view().len() >= 4 ==> self.view()[self.view().len() - 1] != self.view()[0],
        ensures
            r == test_close_spec(self.view(), *epsilon),
    {
        let num_of_points = self.data.len();

        // with two points or fewer there is nothing to close
        if num_of_points <= 2 {
            return false;
        }

        // three points always close into a triangle
        if num_of_points == 3 {
            return true;
        }

        let last = num_of_points - 1;
        let line_segment = LineSegment::new(self.data[last], self.data[0]);
        if self.data[1].is_on(&line_segment, epsilon) || self.data[last - 1].is_on(
            &line_segment,
            epsilon,
        ) {
            return false;
        }

        let line_segment0 = LineSegment::new(self.data[0], self.data[last]);
        let mut i: usize = 1;
        while i < last - 1
            invariant
                self.wf(),
                epsilon.wf(),
                line_segment0 == (LineSegment {
                    p0: self.view()[0],
                    p1: self.view()[last as int],
                }),
                4 <= num_of_points == self.view().len(),
                last == num_of_points - 1,
                1 <= i <= last - 1,
                forall|k: int|
                    1 <= k < i ==> !intersect_spec(
                        (LineSegment { p0: self.view()[0], p1: self.view()[last as int] }),
                        #[trigger] poly_seg(self.view(), k),
                    ),
            decreases last - 1 - i,
        {
            let line_segment1 = LineSegment::new(self.data[i], self.data[i + 1]);
            if line_segment0.is_intersect(&line_segment1, epsilon) {
                proof {
                    assert(intersect_spec(
                        (LineSegment { p0: self.view()[0], p1: self.view()[last as int] }),
                        poly_seg(self.view(), i as int),
                    ));
                }
                return false;
            }
            i += 1;
        }
        return true;
    }

    /// Consumes the builder and freezes the polyline into a contour.
    pub fn close(self) -> (c: Contour2D)
        ensures
            c.view() == self.view(),
    {
        Contour2D { data: self.data }
    }
}

/// A point that `test_push` accepts keeps the polyline simple: the appended
/// segment crosses no non-adjacent segment, so a builder whose every commit
/// was tested never holds an untested crossing.
pub proof fn lemma_test_push_preserves_simple(points: Seq<Point2D>, p: Point2D, eps: Tolerance)
    requires
        polyline_simple(points),
        test_push_spec(points, p, eps),
    ensures
        polyline_simple(points.push(p)),
{
    let grown = points.push(p);
    let n = points.len() as int;
    assert forall|i: int, j: int|
        0 <= i && i + 2 <= j && j < grown.len() - 1 implies !intersect_spec(
        #[trigger] poly_seg(grown, i),
        #[trigger] poly_seg(grown, j),
    ) by {
        if j < n - 1 {
            // both segments already existed
            assert(poly_seg(grown, i) == poly_seg(points, i));
            assert(poly_seg(grown, j) == poly_seg(points, j));
        } else {
            // j is the appended segment; i is non-adjacent to it, so
            // test_push checked this very pair
            assert(j == n - 1);
            assert(poly_seg(grown, i) == poly_seg(points, i));
            assert(poly_seg(grown, j) == (LineSegment { p0: points[n - 1], p1: p }));
            assert(!intersect_spec(
                (LineSegment { p0: points[n - 1], p1: p }),
                poly_seg(points, i),
            ));
        }
    }
}

/// A polyline that `test_close` accepts closes into a simple contour: the
/// closing segment crosses no interior segment.
pub proof fn lemma_test_close_closes_simple(points: Seq<Point2D>, eps: Tolerance)
    requires
        polyline_simple(points),
        test_close_spec(points, eps),
        points.len() >= 4,
    ensures
        closing_clear(points),
{
    let n = points.len() as int;
    assert forall|i: int| 1 <= i < n - 2 implies !intersect_spec(
        (LineSegment { p0: points[0], p1: points[n - 1] }),
        #[trigger] poly_seg(points, i),
    ) by {
        assert(!intersect_spec(
            (LineSegment { p0: points[0], p1: points[n - 1] }),
            poly_seg(points, i),
        ));
    }
}

} // verus!
