use techtron::marching_squares::marching_squares_impl;
use techtron::mc_tables::{decode_nibbles, mc_case_entry, mc_lut_at, resolve_triangle, MC_LUT_LEN};

#[test]
fn test_marching_squares_single_corner() {
    // 3x3 slice, one interior sample above the isovalue: cell (0, 0) sees it
    // as corner 0 (code 1) and cell (0, 1) as corner 3 (code 8), one segment
    // each, endpoints in half-cell units
    let mut data = vec![0i64; 9];
    data[3] = 10;
    let segs = marching_squares_impl(5, &data, 3, 3);
    assert_eq!(segs, vec![[[0, 1], [1, 2]], [[0, 3], [1, 2]]]);
}

#[test]
fn test_marching_squares_uniform_slice_empty() {
    let data = vec![7i64; 16];
    let segs = marching_squares_impl(0, &data, 4, 4);
    assert!(segs.is_empty());
    let segs = marching_squares_impl(100, &data, 4, 4);
    assert!(segs.is_empty());
}

#[test]
fn test_marching_squares_saddle_two_segments() {
    // 3x3 slice where opposite corners of cell (0, 0) are high: corner code
    // 5 is the saddle and emits two segments there; the neighbouring cells
    // each see one high corner and emit one segment
    let mut data = vec![0i64; 9];
    data[3] = 10; // corner 0 of cell (0, 0)
    data[1] = 10; // corner 2 of cell (0, 0)
    let segs = marching_squares_impl(5, &data, 3, 3);
    assert_eq!(segs.len(), 4);
    assert_eq!(segs[0], [[0, 1], [1, 0]]);
    assert_eq!(segs[1], [[1, 2], [2, 1]]);
    assert_eq!(segs[2], [[2, 1], [3, 0]]);
    assert_eq!(segs[3], [[0, 3], [1, 2]]);
}

#[test]
fn test_marching_squares_smallest_slice() {
    // a 2x2 slice is a single window; its right column is high (code 6)
    let data = vec![0i64, 10, 0, 10];
    let segs = marching_squares_impl(5, &data, 2, 2);
    assert_eq!(segs, vec![[[1, 2], [1, 0]]]);
}

#[test]
fn test_mc_lut_entries() {
    assert_eq!(mc_lut_at(0), 0x0000);
    assert_eq!(mc_lut_at(1), 0x0885);
    assert_eq!(mc_lut_at(127), 0x007F);
    assert_eq!(mc_case_entry(2), 0x0886);
    assert_eq!(mc_lut_at(MC_LUT_LEN - 1), 0x01A7);
}

#[test]
fn test_decode_nibbles() {
    assert_eq!(decode_nibbles(0x1A35), (1, 10, 3, 5));
    assert_eq!(decode_nibbles(0x0885), (0, 8, 8, 5));
    assert_eq!(decode_nibbles(0xFFFF), (15, 15, 15, 15));
    assert_eq!(decode_nibbles(0x0000), (0, 0, 0, 0));
}

#[test]
fn test_resolve_triangle() {
    assert_eq!(resolve_triangle([1, 2, 3], true), Some([1, 2, 3]));
    assert_eq!(resolve_triangle([1, 2, 3], false), Some([2, 1, 3]));
    assert_eq!(resolve_triangle([1, 1, 3], true), None);
    assert_eq!(resolve_triangle([1, 3, 3], false), None);
    assert_eq!(resolve_triangle([3, 1, 3], true), None);
}
