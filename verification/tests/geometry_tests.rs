use techtron::geometry::{LineSegment, Point2D, Tolerance};
use techtron::line::generate_line2d;

fn half() -> Tolerance {
    Tolerance { num: 1, den: 2 }
}

#[test]
fn test_line_segments() {
    let p0 = Point2D::new([0, 0]);
    let p1 = Point2D::new([30, 30]);
    let p2 = Point2D::new([10, 15]);
    let p3 = Point2D::new([20, 21]);
    let line_segment0 = LineSegment::new(p0, p1);
    assert_eq!(p2.is_on(&line_segment0, &half()), false);

    let line_segment1 = LineSegment::new(p2, p3);
    assert_eq!(line_segment0.is_intersect(&line_segment1, &half()), false);

    let p2 = Point2D::new([15, 15]);
    assert_eq!(p2.is_on(&line_segment0, &half()), true);

    // (0,0)-(30,30) against (10,15)-(20,19): crossing
    let s0 = LineSegment::new(Point2D::new([0, 0]), Point2D::new([30, 30]));
    let s1 = LineSegment::new(Point2D::new([10, 15]), Point2D::new([20, 19]));
    assert_eq!(s0.is_intersect(&s1, &half()), true);

    // (-10,-15)-(30,25) against the vertical (10,5)-(10,19): crossing
    let s0 = LineSegment::new(Point2D::new([-10, -15]), Point2D::new([30, 25]));
    let s1 = LineSegment::new(Point2D::new([10, 5]), Point2D::new([10, 19]));
    assert_eq!(s0.is_intersect(&s1, &Tolerance { num: 1, den: 10 }), true);

    // the same line against a vertical span above it, in thousandths:
    // (-10,-15)-(30,25) against (10,5.01)-(10,109) misses by 0.01
    let s0 = LineSegment::new(Point2D::new([-10_000, -15_000]), Point2D::new([30_000, 25_000]));
    let s1 = LineSegment::new(Point2D::new([10_000, 5_010]), Point2D::new([10_000, 109_000]));
    assert_eq!(s0.is_intersect(&s1, &Tolerance { num: 1, den: 1000 }), false);

    // collinear vertical segments, in thousandths: a gap of 0.001 misses
    let s0 = LineSegment::new(Point2D::new([10_000, 0]), Point2D::new([10_000, 30_000]));
    let s1 = LineSegment::new(Point2D::new([10_000, 30_001]), Point2D::new([10_000, 50_000]));
    assert_eq!(s0.is_intersect(&s1, &half()), false);

    // collinear vertical segments that overlap intersect
    let s0 = LineSegment::new(Point2D::new([10, 0]), Point2D::new([10, 30]));
    let s1 = LineSegment::new(Point2D::new([10, 15]), Point2D::new([10, 19]));
    assert_eq!(s0.is_intersect(&s1, &half()), true);

    let p0 = Point2D::new([1, 0]);
    let p1 = Point2D::new([1, 30]);
    let p2 = Point2D::new([1, 15]);
    let line_segment0 = LineSegment::new(p0, p1);
    assert_eq!(p2.is_on(&line_segment0, &half()), true);

    // just past the end of a vertical segment, in thousandths
    let p0 = Point2D::new([1_000, 0]);
    let p1 = Point2D::new([1_000, 30_000]);
    let p2 = Point2D::new([1_000, 30_001]);
    let line_segment0 = LineSegment::new(p0, p1);
    assert_eq!(p2.is_on(&line_segment0, &half()), false);
}

#[test]
fn test_parallel_horizontal_segments() {
    // horizontal segments on distinct lines never intersect, however their
    // x intervals relate; collinear overlapping ones do
    let low = LineSegment::new(Point2D::new([0, 0]), Point2D::new([10, 0]));
    let high = LineSegment::new(Point2D::new([3, 5]), Point2D::new([7, 5]));
    assert_eq!(low.is_intersect(&high, &half()), false);
    let overlap = LineSegment::new(Point2D::new([5, 0]), Point2D::new([15, 0]));
    assert_eq!(low.is_intersect(&overlap, &half()), true);
    let apart = LineSegment::new(Point2D::new([11, 0]), Point2D::new([15, 0]));
    assert_eq!(low.is_intersect(&apart, &half()), false);
}

#[test]
fn test_is_on_endpoint_order_symmetry() {
    let cases: [([i64; 2], [i64; 2], [i64; 2]); 4] = [
        ([0, 0], [30, 30], [15, 15]),
        ([0, 0], [30, 30], [10, 15]),
        ([10, 0], [10, 30], [10, 12]),
        ([0, 5], [20, 5], [7, 5]),
    ];
    for (a, b, p) in cases {
        let fwd = LineSegment::new(Point2D::new(a), Point2D::new(b));
        let rev = LineSegment::new(Point2D::new(b), Point2D::new(a));
        let q = Point2D::new(p);
        assert_eq!(q.is_on(&fwd, &half()), q.is_on(&rev, &half()));
    }
}

#[test]
fn test_is_on_within_band() {
    // y = x, point one unit off at x = 10: inside a tolerance of 2, outside 1/2
    let seg = LineSegment::new(Point2D::new([0, 0]), Point2D::new([30, 30]));
    let p = Point2D::new([10, 11]);
    assert!(p.is_on(&seg, &Tolerance { num: 2, den: 1 }));
    assert!(!p.is_on(&seg, &half()));
}

#[test]
fn test_bresenham_line() {
    let line = generate_line2d(-2, -2, 2, 2);
    println!("{:?}", line);

    let line = generate_line2d(2, 2, -2, -2);
    println!("{:?}", line);

    let line = generate_line2d(-5, -2, 2, 10);
    println!("{:?}", line);
}

#[test]
fn test_bresenham_single_point() {
    let line = generate_line2d(5, 5, 5, 5);
    assert_eq!(line, vec![[5, 5]]);
}

#[test]
fn test_bresenham_diagonal_exact() {
    let line = generate_line2d(-2, -2, 2, 2);
    assert_eq!(line, vec![[-2, -2], [-1, -1], [0, 0], [1, 1], [2, 2]]);
    let line = generate_line2d(2, 2, -2, -2);
    assert_eq!(line, vec![[2, 2], [1, 1], [0, 0], [-1, -1], [-2, -2]]);
}

#[test]
fn test_bresenham_endpoints_and_steps() {
    let line = generate_line2d(-5, -2, 2, 10);
    assert_eq!(*line.first().unwrap(), [-5, -2]);
    assert_eq!(*line.last().unwrap(), [2, 10]);
    for w in line.windows(2) {
        let dx = w[1][0] - w[0][0];
        let dy = w[1][1] - w[0][1];
        assert!(dx == 0 || dx == 1);
        assert!(dy == 0 || dy == 1);
        assert!(dx != 0 || dy != 0);
    }
}
