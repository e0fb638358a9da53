use techtron::contour::Contour2DBuilder;
use techtron::grid::Grid2D;
use techtron::raster::fill_contour;

fn square_contour() -> techtron::contour::Contour2D {
    let mut cb = Contour2DBuilder::new();
    cb.push(1, 1);
    cb.push(5, 1);
    cb.push(5, 5);
    cb.push(1, 5);
    cb.close()
}

#[test]
fn test_fill_contour_square() {
    let g = Grid2D::<u8>::new(8, 8);
    let filled = fill_contour(g, &square_contour());
    // interior and boundary cells of the square are marked
    assert_eq!(filled.value_at(3, 3), 1);
    assert_eq!(filled.value_at(1, 1), 1);
    assert_eq!(filled.value_at(5, 5), 1);
    // cells outside the bounding box are untouched
    assert_eq!(filled.value_at(0, 0), 0);
    assert_eq!(filled.value_at(7, 7), 0);
    assert_eq!(filled.value_at(6, 3), 0);
    // every cell is a 0/1 mask value
    assert!(filled.data().iter().all(|&v| v == 0 || v == 1));
}

#[test]
fn test_fill_contour_idempotent() {
    let c = square_contour();
    let first = fill_contour(Grid2D::<u8>::new(16, 16), &c);
    let second = fill_contour(Grid2D::<u8>::new(16, 16), &c);
    assert_eq!(first.dim(), second.dim());
    assert_eq!(first.data(), second.data());
}

#[test]
fn test_fill_contour_triangle_row_span() {
    let mut cb = Contour2DBuilder::new();
    cb.push(0, 0);
    cb.push(6, 0);
    cb.push(3, 4);
    let c = cb.close();
    let filled = fill_contour(Grid2D::<u8>::new(10, 10), &c);
    // the base row of the triangle is fully inside
    for x in 0..=6 {
        assert_eq!(filled.value_at(x, 0), 1, "x = {}", x);
    }
    // above the apex nothing is marked
    assert_eq!(filled.value_at(3, 5), 0);
    assert!(filled.data().iter().all(|&v| v == 0 || v == 1));
}
