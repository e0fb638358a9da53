use techtron::grid::{Grid2D, Grid3D};

#[test]
fn test_grid2d_creation() {
    let nx = 512;
    let ny = 500;
    let g = Grid2D::<u32>::new(nx, ny);
    assert_eq!(g.dim()[0], nx);
    assert_eq!(g.dim()[1], ny);
    assert_eq!(g.data().len(), nx * ny);
}

#[test]
fn test_grid2d_idx() {
    let data = vec![1, 2, 3, 4, 5, 6, 7, 8, 9];
    let g0 = Grid2D::<u32>::from_raw_data(&data, 2, 2);
    assert!(g0.is_none());
    let g = Grid2D::<u32>::from_raw_data(&data, 3, 3).unwrap();
    assert_eq!(g.value_at(0, 0), 1);
    assert_eq!(g.value_at(1, 0), 2);
    assert_eq!(g.value_at(2, 0), 3);
    assert_eq!(g.value_at(0, 1), 4);
    assert_eq!(g.value_at(1, 1), 5);
    assert_eq!(g.value_at(2, 1), 6);
    assert_eq!(g.value_at(0, 2), 7);
    assert_eq!(g.value_at(1, 2), 8);
    assert_eq!(g.value_at(2, 2), 9);
}

#[test]
fn test_grid3d_creation() {
    let nx = 512;
    let ny = 510;
    let nz = 513;
    let g = Grid3D::<u32>::new(nx, ny, nz);
    assert_eq!(g.dim()[0], nx);
    assert_eq!(g.dim()[1], ny);
    assert_eq!(g.dim()[2], nz);
    assert_eq!(g.data().len(), nx * ny * nz);
}

#[test]
fn test_grid3d_idx() {
    let data = vec![1, 2, 3, 4, 5, 6, 7, 8];
    let g = Grid3D::<u32>::from_raw_data(&data, 2, 2, 2).unwrap();
    assert_eq!(g.value_at(0, 0, 0), 1);
    assert_eq!(g.value_at(1, 0, 0), 2);
    assert_eq!(g.value_at(0, 1, 0), 3);
    assert_eq!(g.value_at(1, 1, 0), 4);
    assert_eq!(g.value_at(0, 0, 1), 5);
    assert_eq!(g.value_at(1, 0, 1), 6);
    assert_eq!(g.value_at(0, 1, 1), 7);
    assert_eq!(g.value_at(1, 1, 1), 8);
}

#[test]
fn test_grid2d_set_get_round_trip() {
    let mut g = Grid2D::<u32>::new(7, 5);
    g.set_value_at(3, 4, &42);
    assert_eq!(g.value_at(3, 4), 42);
    assert_eq!(g.value_at(2, 4), 0);
    g.set_value_at(0, 0, &7);
    assert_eq!(g.value_at(0, 0), 7);
    assert_eq!(g.value_at(3, 4), 42);
}

#[test]
fn test_grid3d_set_get_round_trip() {
    let mut g = Grid3D::<i64>::new(4, 3, 2);
    g.set_value_at(1, 2, 1, &-9);
    assert_eq!(g.value_at(1, 2, 1), -9);
    assert_eq!(g.value_at(1, 2, 0), 0);
}

#[test]
fn test_grid2d_from_raw_data_rejects_mismatch() {
    let data = vec![0u8; 12];
    assert!(Grid2D::<u8>::from_raw_data(&data, 3, 4).is_some());
    assert!(Grid2D::<u8>::from_raw_data(&data, 4, 4).is_none());
    assert!(Grid2D::<u8>::from_raw_data(&data, 0, 0).is_none());
    let empty = vec![0u8; 0];
    assert!(Grid2D::<u8>::from_raw_data(&empty, 0, 5).is_some());
}

#[test]
fn test_grid3d_from_raw_data_rejects_mismatch() {
    let data = vec![0u8; 24];
    assert!(Grid3D::<u8>::from_raw_data(&data, 2, 3, 4).is_some());
    assert!(Grid3D::<u8>::from_raw_data(&data, 2, 3, 5).is_none());
    let empty = vec![0u8; 0];
    assert!(Grid3D::<u8>::from_raw_data(&empty, 7, 9, 0).is_some());
}

#[test]
fn test_grid_empty_dims() {
    let g = Grid2D::<u8>::new(0, 7);
    assert_eq!(g.data().len(), 0);
    let g = Grid3D::<u8>::new(3, 0, 7);
    assert_eq!(g.data().len(), 0);
}

#[test]
fn test_grid3d_slices() {
    let data: Vec<u32> = (0..24).collect();
    let g = Grid3D::<u32>::from_raw_data(&data, 2, 3, 4).unwrap();
    let xy = g.slice_xy_at(1);
    assert_eq!(xy.dim(), [2, 3]);
    assert_eq!(xy.value_at(1, 2), g.value_at(1, 2, 1));
    let yz = g.slice_yz_at(1);
    assert_eq!(yz.dim(), [3, 4]);
    assert_eq!(yz.value_at(2, 3), g.value_at(1, 2, 3));
    let xz = g.slice_xz_at(2);
    assert_eq!(xz.dim(), [2, 4]);
    assert_eq!(xz.value_at(0, 3), g.value_at(0, 2, 3));
}
