use techtron::contour::{Contour2D, Contour2DBuilder};
use techtron::geometry::Tolerance;
use techtron::grid::Grid2D;
use techtron::raster::fill_contour;
use techtron::structure::Structure;

fn eps() -> Tolerance {
    Tolerance { num: 1, den: 2 }
}

fn build_contour(points: &[(i64, i64)]) -> Contour2D {
    let mut cb = Contour2DBuilder::new();
    for (x, y) in points {
        cb.push(*x, *y);
    }
    cb.close()
}

#[test]
fn test_builder_accepts_simple_polyline() {
    let mut cb = Contour2DBuilder::new();
    assert!(cb.test_push(0, 0, &eps()));
    cb.push(0, 0);
    assert!(cb.test_push(10, 0, &eps()));
    cb.push(10, 0);
    assert!(cb.test_push(10, 10, &eps()));
    cb.push(10, 10);
    // the square's top edge is parallel to its base but crosses nothing
    assert!(cb.test_push(0, 10, &eps()));
}

#[test]
fn test_builder_rejects_crossing() {
    let mut cb = Contour2DBuilder::new();
    cb.push(0, 0);
    cb.push(10, 0);
    cb.push(10, 10);
    // the segment (10,10) -> (5,-5) would cross the base edge (0,0)-(10,0)
    assert_eq!(cb.test_push(5, -5, &eps()), false);
    // a point above the polyline is fine
    assert_eq!(cb.test_push(0, 10, &eps()), true);
}

#[test]
fn test_builder_rejects_collinear_overlap() {
    let mut cb = Contour2DBuilder::new();
    cb.push(0, 0);
    cb.push(10, 0);
    // walking straight back along the last segment is collinear-overlapping
    assert_eq!(cb.test_push(5, 0, &eps()), false);
}

#[test]
fn test_builder_close_rules() {
    let mut cb = Contour2DBuilder::new();
    cb.push(0, 0);
    cb.push(10, 0);
    assert_eq!(cb.test_close(&eps()), false);
    cb.push(10, 10);
    assert_eq!(cb.test_close(&eps()), true);
    cb.push(0, 10);
    assert_eq!(cb.test_close(&eps()), true);
    let c = cb.close();
    assert_eq!(c.len(), 4);
    assert_eq!(c.get_points()[2].x, 10);
    assert_eq!(c.get_points()[2].y, 10);
}

#[test]
fn test_approx() {
    // exact tolerance arithmetic: 1 and 1.01 differ by 0.01, within 0.1
    let one = 1.0f64;
    let close = 1.01f64;
    assert!((one - close).abs() <= 0.1);
    assert!((close - one).abs() <= 0.1);
    assert!((0.0f64 - 0.01f64).abs() <= 0.1);
    let s = Structure::new();
    assert_eq!(0, s.len());
}

#[test]
fn test_structure() {
    // elevations in hundredths: 1.24 -> 124
    let mut s = Structure::new();
    let contour = build_contour(&[
        (2, 10),
        (3, 2),
        (4, 5),
        (6, 1),
        (10, 1),
        (20, 2),
        (9, 9),
        (3, 9),
    ]);
    let accumulator = Grid2D::<u8>::new(50, 30);
    fill_contour(accumulator, &contour);
    s.push(124, contour);
    assert_eq!(true, s.get_contours_at(123).is_none());
    assert_eq!(true, s.get_contours_at(124).is_some());

    let mut s = Structure::new();
    let contour = build_contour(&[(2, 10), (13, 0), (20, 5), (45, 20), (10, 9)]);
    let accumulator = Grid2D::<u8>::new(50, 30);
    fill_contour(accumulator, &contour);
    s.push(124, contour);
    assert_eq!(true, s.get_contours_at(123).is_none());
    assert_eq!(true, s.get_contours_at(124).is_some());
}

#[test]
fn test_structure_lookup_any_order() {
    let mut s = Structure::new();
    s.push(30, build_contour(&[(0, 0), (4, 0), (4, 4)]));
    s.push(10, build_contour(&[(1, 1), (5, 1), (5, 5)]));
    s.push(30, build_contour(&[(2, 2), (6, 2), (6, 6)]));
    let at30 = s.get_contours_at(30).unwrap();
    assert_eq!(at30.len(), 2);
    assert_eq!(at30[0].get_points()[0].x, 0);
    assert_eq!(at30[1].get_points()[0].x, 2);
    let at10 = s.get_contours_at(10).unwrap();
    assert_eq!(at10.len(), 1);
    assert!(s.get_contours_at(20).is_none());
}

#[test]
fn test_structure_bounding_box() {
    let mut s = Structure::new();
    s.push(30, build_contour(&[(0, -3), (4, 0), (4, 7)]));
    s.push(10, build_contour(&[(-2, 1), (5, 1), (5, 5)]));
    let bb = s.bounding_box();
    assert_eq!(bb, [-2, 5, -3, 7, 10, 30]);
}

#[test]
fn test_to_mesh() {
    let mut s = Structure::new();
    let contour = build_contour(&[(2, 30), (13, 20), (20, 25), (45, 40), (10, 29)]);
    s.push(124, contour);

    let contour = build_contour(&[
        (2, 10),
        (3, 2),
        (4, 5),
        (6, 1),
        (10, 1),
        (20, 2),
        (9, 9),
        (3, 9),
    ]);
    s.push(124, contour);

    let (volume, sorted_z) = s.to_volume();
    assert_eq!(sorted_z, vec![124, 124]);
    assert_eq!(volume.dim()[2], 2);
    assert!(volume.dim()[0] >= 50);
    assert!(volume.dim()[1] >= 50);
    assert!(volume.data().iter().all(|&v| v == 0 || v == 1));
    assert!(volume.data().iter().any(|&v| v == 1));
}

#[test]
fn test() {
    let v: i8 = -1;
    println!("{}", v % 2);
}
