//! Marching squares: iso-contour line segments of a 2D scalar slice.
//!
//! Segment endpoints sit on cell-edge midpoints; coordinates are returned in
//! half-cell units (twice the cell index), so every endpoint is exact.

use vstd::prelude::*;

verus! {

//     [3]    3     [2]
//      +------------+
//      |            |
//    0 |            | 2
//      |            |
//      +------------+
//     [0]    1      [1]
pub const MARCHING_SQUARES_LUT: [[i8; 4]; 16] = [
    [-1, -1, -1, -1],
    [0, 1, -1, -1],
    [1, 2, -1, -1],
    [0, 2, -1, -1],
    [2, 3, -1, -1],
    [0, 3, 1, 2],
    [1, 3, -1, -1],
    [0, 3, -1, -1],
    [0, 3, -1, -1],
    [1, 3, -1, -1],
    [0, 1, 2, 3],
    [2, 3, -1, -1],
    [0, 2, -1, -1],
    [1, 2, -1, -1],
    [0, 1, -1, -1],
    [-1, -1, -1, -1],
];

/// Midpoint of edge n of the unit cell at (x, y), in half-cell units.
pub open spec fn spec_adjust_coord(n: int, x: int, y: int) -> [i64; 2] {
    if n == 0 {
        [(2 * x) as i64, (2 * y + 1) as i64]
    } else if n == 1 {
        [(2 * x + 1) as i64, (2 * y + 2) as i64]
    } else if n == 2 {
        [(2 * x + 2) as i64, (2 * y + 1) as i64]
    } else {
        [(2 * x + 1) as i64, (2 * y) as i64]
    }
}

/// The 4-bit corner code of the cell at (x, y): one bit per corner sample
/// above the isovalue.
pub open spec fn spec_cell_code(data: Seq<i64>, iso: i64, w: int, x: int, y: int) -> int {
    let v0: int = if data[(y + 1) * w + x] > iso {
        1
    } else {
        0
    };
    let v1: int = if data[(y + 1) * w + x + 1] > iso {
        1
    } else {
        0
    };
    let v2: int = if data[y * w + x + 1] > iso {
        1
    } else {
        0
    };
    let v3: int = if data[y * w + x] > iso {
        1
    } else {
        0
    };
    v0 + 2 * v1 + 4 * v2 + 8 * v3
}

/// The 0, 1 or 2 segments the lookup table emits for the cell at (x, y).
pub open spec fn spec_cell_segs(data: Seq<i64>, iso: i64, w: int, x: int, y: int) -> Seq<
    [[i64; 2]; 2],
> {
    let code = spec_cell_code(data, iso, w, x, y);
    let row = MARCHING_SQUARES_LUT[code];
    if row[0] == -1 {
        Seq::<[[i64; 2]; 2]>::empty()
    } else {
        let first = seq![
            [
                spec_adjust_coord(row[0] as int, x, y),
                spec_adjust_coord(row[1] as int, x, y),
            ],
        ];
        if row[2] == -1 {
            first
        } else {
            first.push(
                [spec_adjust_coord(row[2] as int, x, y), spec_adjust_coord(row[3] as int, x, y)],
            )
        }
    }
}

/// The segments of cells (0, y) through (x - 1, y), in order.
pub open spec fn spec_ms_row(data: Seq<i64>, iso: i64, w: int, y: int, x: int) -> Seq<
    [[i64; 2]; 2],
>
    decreases x,
{
    if x <= 0 {
        Seq::<[[i64; 2]; 2]>::empty()
    } else {
        spec_ms_row(data, iso, w, y, x - 1) + spec_cell_segs(data, iso, w, x - 1, y)
    }
}

/// The segments of all cells in rows 0 through y - 1, in row-major order.
pub open spec fn spec_ms_rows(data: Seq<i64>, iso: i64, w: int, xs: int, y: int) -> Seq<
    [[i64; 2]; 2],
>
    decreases y,
{
    if y <= 0 {
        Seq::<[[i64; 2]; 2]>::empty()
    } else {
        spec_ms_rows(data, iso, w, xs, y - 1) + spec_ms_row(data, iso, w, y - 1, xs)
    }
}

/// A slice too narrow for any 2-by-2 window yields no segments.
proof fn lemma_ms_rows_empty(data: Seq<i64>, iso: i64, w: int, xs: int, y: int)
    requires
        xs <= 0,
    ensures
        spec_ms_rows(data, iso, w, xs, y).len() == 0,
    decreases y,
{
    if y > 0 {
        lemma_ms_rows_empty(data, iso, w, xs, y - 1);
    }
}

/// Walks every 2-by-2 sample window of the slice and emits the table's line
/// segments for its corner code: exactly the row-major concatenation the
/// recursive specification describes.
pub fn marching_squares_impl(isovalue: i64, data: &[i64], width: i32, height: i32) -> (r: Vec<
    [[i64; 2]; 2],
>)
    requires
        0 <= width,
        0 <= height,
        data@.len() == width * height,
    ensures
        r@ == spec_ms_rows(
            data@,
            isovalue,
            width as int,
            width - 1,
            height - 1,
        ),
{
    let mut line_segments: Vec<[[i64; 2]; 2]> = Vec::new();
    if width < 2 || height < 2 {
        proof {
            if width < 2 {
                lemma_ms_rows_empty(data@, isovalue, width as int, width - 1, height - 1);
            }
            assert(line_segments@ =~= spec_ms_rows(
                data@,
                isovalue,
                width as int,
                width - 1,
                height - 1,
            ));
        }
        return line_segments;
    }
    let w = width;
    let mut y: i32 = 0;
    while y < height - 1
        invariant
            2 <= width,
            2 <= height,
            w == width,
            data@.len() == width * height,
            0 <= y <= vstd::math::max(height - 1, 0),
            line_segments@ == spec_ms_rows(data@, isovalue, w as int, w - 1, y as int),
        decreases height - 1 - y,
    {
        let mut x: i32 = 0;
        while x < w - 1
            invariant
                2 <= width,
                2 <= height,
                w == width,
                data@.len() == width * height,
                0 <= y < height - 1,
                0 <= x <= vstd::math::max(w - 1, 0),
                line_segments@ == spec_ms_rows(data@, isovalue, w as int, w - 1, y as int)
                    + spec_ms_row(data@, isovalue, w as int, y as int, x as int),
            decreases w - 1 - x,
        {
            proof {
                assert((y + 1) * w + x + 1 < width * height && 0 <= y * w + x && y * w + x <= (y
                    + 1) * w + x && (y + 1) * w + x + 1 < 0x4000_0000_0000_0000)
                    by (nonlinear_arith)
                    requires
                        0 <= x < w - 1,
                        0 <= y < height - 1,
                        2 <= w == width,
                        2 <= height,
                        w <= 0x8000_0000,
                        height <= 0x8000_0000,
                ;
            }
            let yl = y as i64;
            let xl = x as i64;
            let wl = w as i64;
            let idx0 = ((yl + 1) * wl + xl) as usize;
            let idx1 = ((yl + 1) * wl + xl + 1) as usize;
            let idx2 = (yl * wl + xl + 1) as usize;
            let idx3 = (yl * wl + xl) as usize;
            let v0: usize = if data[idx0] > isovalue {
                1
            } else {
                0
            };
            let v1: usize = if data[idx1] > isovalue {
                1
            } else {
                0
            };
            let v2: usize = if data[idx2] > isovalue {
                1
            } else {
                0
            };
            let v3: usize = if data[idx3] > isovalue {
                1
            } else {
                0
            };

            let idx: usize = v0 + 2 * v1 + 4 * v2 + 8 * v3;
            let lines = MARCHING_SQUARES_LUT[idx];
            if lines[0] != -1 {
                let a = lines[0];
                let b = lines[1];
                let p0 = adjust_coord(a, x, y);
                let p1 = adjust_coord(b, x, y);
                line_segments.push([p0, p1]);
                if lines[2] != -1 {
                    let c = lines[2];
                    let d = lines[3];
                    let q0 = adjust_coord(c, x, y);
                    let q1 = adjust_coord(d, x, y);
                    line_segments.push([q0, q1]);
                }
            }
            proof {
                assert(line_segments@ =~= spec_ms_rows(data@, isovalue, w as int, w - 1, y as int)
                    + spec_ms_row(data@, isovalue, w as int, y as int, x + 1));
            }
            x += 1;
        }
        proof {
            assert(line_segments@ =~= spec_ms_rows(data@, isovalue, w as int, w - 1, y + 1));
        }
        y += 1;
    }
    line_segments
}

/// Midpoint of edge n of the cell at (x, y), in half-cell units.
fn adjust_coord(n: i8, x: i32, y: i32) -> (r: [i64; 2])
    requires
        0 <= n <= 3,
        0 <= x,
        0 <= y,
    ensures
        r == spec_adjust_coord(n as int, x as int, y as int),
{
    let xd = x as i64;
    let yd = y as i64;
    if n == 0 {
        [2 * xd, 2 * yd + 1]
    } else if n == 1 {
        [2 * xd + 1, 2 * yd + 2]
    } else if n == 2 {
        [2 * xd + 2, 2 * yd + 1]
    } else {
        [2 * xd + 1, 2 * yd]
    }
}

} // verus!
