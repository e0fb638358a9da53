//! Scan-line polygon rasterization: burns a contour into a grid mask.

use vstd::prelude::*;
use crate::contour::Contour2D;
use crate::grid::Grid2D;
use crate::line::{generate_line2d, LINE_COORD_LIMIT};
use crate::geometry::Point2D;

verus! {

/// Some contour point lies at or left of column cx.
pub open spec fn bbox_reaches_left(points: Seq<Point2D>, cx: int) -> bool {
    exists|i: int| 0 <= i < points.len() && (#[trigger] points[i]).x <= cx
}

/// Some contour point lies at or right of column cx.
pub open spec fn bbox_reaches_right(points: Seq<Point2D>, cx: int) -> bool {
    exists|i: int| 0 <= i < points.len() && (#[trigger] points[i]).x >= cx
}

/// Some contour point lies at or above row cy.
pub open spec fn bbox_reaches_up(points: Seq<Point2D>, cy: int) -> bool {
    exists|i: int| 0 <= i < points.len() && (#[trigger] points[i]).y <= cy
}

/// Some contour point lies at or below row cy.
pub open spec fn bbox_reaches_down(points: Seq<Point2D>, cy: int) -> bool {
    exists|i: int| 0 <= i < points.len() && (#[trigger] points[i]).y >= cy
}

/// Cell (cx, cy) lies inside the contour's bounding box.
pub open spec fn in_contour_bbox(points: Seq<Point2D>, cx: int, cy: int) -> bool {
    bbox_reaches_left(points, cx) && bbox_reaches_right(points, cx) && bbox_reaches_up(points, cy)
        && bbox_reaches_down(points, cy)
}

/// Every contour point addresses a cell of an nx-by-ny grid.
pub open spec fn points_in_grid(points: Seq<Point2D>, nx: int, ny: int) -> bool {
    forall|i: int|
        0 <= i < points.len() ==> 0 <= (#[trigger] points[i]).x < nx && 0 <= points[i].y < ny
}


/// Smallest x of the contour points.
pub open spec fn spec_x_min(points: Seq<Point2D>) -> int
    decreases points.len(),
    when points.len() >= 1
{
    if points.len() == 1 {
        points[0].x as int
    } else {
        vstd::math::min(spec_x_min(points.drop_last()), points.last().x as int)
    }
}

/// Largest x of the contour points.
pub open spec fn spec_x_max(points: Seq<Point2D>) -> int
    decreases points.len(),
    when points.len() >= 1
{
    if points.len() == 1 {
        points[0].x as int
    } else {
        vstd::math::max(spec_x_max(points.drop_last()), points.last().x as int)
    }
}

/// Smallest y of the contour points.
pub open spec fn spec_y_min(points: Seq<Point2D>) -> int
    decreases points.len(),
    when points.len() >= 1
{
    if points.len() == 1 {
        points[0].y as int
    } else {
        vstd::math::min(spec_y_min(points.drop_last()), points.last().y as int)
    }
}

/// Largest y of the contour points.
pub open spec fn spec_y_max(points: Seq<Point2D>) -> int
    decreases points.len(),
    when points.len() >= 1
{
    if points.len() == 1 {
        points[0].y as int
    } else {
        vstd::math::max(spec_y_max(points.drop_last()), points.last().y as int)
    }
}

/// Accumulates the crossing weights of the walk cells from position j on:
/// a cell on a sloped edge that is neither at the edge's lower end nor a
/// repeat of the previous row counts 1, every other cell counts 2, wrapping
/// on overflow.
pub open spec fn spec_accumulate_cells(
    s: Seq<u8>,
    nx: int,
    cells: Seq<[i32; 2]>,
    j: int,
    y0: int,
    y1: int,
    yt: int,
) -> Seq<u8>
    decreases cells.len() - j,
{
    if j < 0 || j >= cells.len() {
        s
    } else {
        let q = cells[j];
        let inc: u8 = if y0 != y1 && q[1] != vstd::math::min(y0, y1) && q[1] != yt {
            1u8
        } else {
            2u8
        };
        let idx = nx * q[1] + q[0];
        let s2 = s.update(idx, vstd::wrapping::u8_specs::wrapping_add(s[idx], inc));
        spec_accumulate_cells(s2, nx, cells, j + 1, y0, y1, q[1] as int)
    }
}

/// The cell walk of the closing edge from point e to its successor, ordered
/// by ascending x as the rasterizer orders it.
pub open spec fn spec_edge_cells(points: Seq<Point2D>, e: int) -> Seq<[i32; 2]> {
    let p0 = points[e];
    let p1 = if e + 1 < points.len() {
        points[e + 1]
    } else {
        points[0]
    };
    if p0.x < p1.x {
        crate::line::spec_line(p0.x as int, p0.y as int, p1.x as int, p1.y as int)
    } else {
        crate::line::spec_line(p1.x as int, p1.y as int, p0.x as int, p0.y as int)
    }
}

/// The grid data after rasterizing closing edges 0 through e - 1.
pub open spec fn spec_accumulate_edges(s: Seq<u8>, nx: int, points: Seq<Point2D>, e: int) -> Seq<
    u8,
>
    decreases e,
{
    if e <= 0 {
        s
    } else {
        let p0 = points[e - 1];
        let p1 = if e < points.len() {
            points[e]
        } else {
            points[0]
        };
        spec_accumulate_cells(
            spec_accumulate_edges(s, nx, points, e - 1),
            nx,
            spec_edge_cells(points, e - 1),
            0,
            p0.y as int,
            p1.y as int,
            i32::MIN as int,
        )
    }
}

/// One scan-line row from column x through xmax: the inside flag toggles on
/// odd weights, and a cell is normalized to 1 when the scan is inside or the
/// cell carries any weight.
pub open spec fn spec_scan_row(
    s: Seq<u8>,
    nx: int,
    yy: int,
    x: int,
    xmax: int,
    inside: bool,
) -> Seq<u8>
    decreases xmax + 1 - x,
{
    if x > xmax {
        s
    } else {
        let idx = nx * yy + x;
        let v = s[idx];
        let inside2 = if v % 2 == 1 {
            !inside
        } else {
            inside
        };
        let s2 = if inside || v != 0 {
            s.update(idx, 1u8)
        } else {
            s
        };
        spec_scan_row(s2, nx, yy, x + 1, xmax, inside2)
    }
}

/// Scan-line rows yy through ymax, each starting outside.
pub open spec fn spec_scan_rows(
    s: Seq<u8>,
    nx: int,
    yy: int,
    ymax: int,
    xmin: int,
    xmax: int,
) -> Seq<u8>
    decreases ymax + 1 - yy,
{
    if yy > ymax {
        s
    } else {
        spec_scan_rows(
            spec_scan_row(s, nx, yy, xmin, xmax, false),
            nx,
            yy + 1,
            ymax,
            xmin,
            xmax,
        )
    }
}

/// The whole rasterization as a function of the grid data and the contour:
/// accumulate every closing edge, then normalize the bounding box row by row.
pub open spec fn spec_fill(s: Seq<u8>, nx: int, points: Seq<Point2D>) -> Seq<u8> {
    let acc = spec_accumulate_edges(s, nx, points, points.len() as int);
    spec_scan_rows(
        acc,
        nx,
        spec_y_min(points),
        spec_y_max(points),
        spec_x_min(points),
        spec_x_max(points),
    )
}

/// Rasterizes the contour into the grid: every closing edge is walked with
/// the integer line generator, accumulating crossing weights (straight-through
/// cells +1, turning-point cells +2, wrapping on overflow), then a scan-line
/// pass normalizes every cell of the contour's bounding box to 0 or 1 by
/// even-odd crossing parity. Cells outside the bounding box are untouched.
///
/// The result is pinned exactly to `spec_fill`, a function of the grid data
/// and the contour alone: filling the same contour into equal grids yields
/// equal masks.
pub fn fill_contour(accumulator: Grid2D<u8>, contour: &Contour2D) -> (r: Grid2D<u8>)
    requires
        accumulator.wf(),
        contour.view().len() >= 1,
        points_in_grid(
            contour.view(),
            accumulator.spec_nx() as int,
            accumulator.spec_ny() as int,
        ),
        accumulator.spec_nx() <= LINE_COORD_LIMIT,
        accumulator.spec_ny() <= LINE_COORD_LIMIT,
    ensures
        r.wf(),
        r.spec_nx() == accumulator.spec_nx(),
        r.spec_ny() == accumulator.spec_ny(),
        forall|cx: int, cy: int|
            0 <= cx < r.spec_nx() && 0 <= cy < r.spec_ny() && in_contour_bbox(
                contour.view(),
                cx,
                cy,
            ) ==> r.spec_at(cx, cy) == 0 || r.spec_at(cx, cy) == 1,
        forall|cx: int, cy: int|
            0 <= cx < r.spec_nx() && 0 <= cy < r.spec_ny() && !in_contour_bbox(
                contour.view(),
                cx,
                cy,
            ) ==> r.spec_at(cx, cy) == accumulator.spec_at(cx, cy),
        r.spec_data() == spec_fill(
            accumulator.spec_data(),
            accumulator.spec_nx() as int,
            contour.view(),
        ),
{
    let mut acc = accumulator;
    let ghost g0 = acc;
    let points = contour.get_points();
    let n = points.len();

    // bounding box of the contour, with witness indices for each extreme
    let mut xmin: i64 = points[0].x;
    let mut xmax: i64 = points[0].x;
    let mut ymin: i64 = points[0].y;
    let mut ymax: i64 = points[0].y;
    proof {
        assert(contour.view().take(1).len() == 1);
        assert(contour.view().take(1)[0] == contour.view()[0]);
    }
    let mut k: usize = 1;
    while k < n
        invariant
            n == contour.view().len(),
            points@ == contour.view(),
            1 <= k <= n,
            forall|i: int|
                0 <= i < k ==> xmin <= (#[trigger] contour.view()[i]).x <= xmax && ymin
                    <= contour.view()[i].y <= ymax,
            exists|i: int| 0 <= i < k && (#[trigger] contour.view()[i]).x == xmin,
            exists|i: int| 0 <= i < k && (#[trigger] contour.view()[i]).x == xmax,
            exists|i: int| 0 <= i < k && (#[trigger] contour.view()[i]).y == ymin,
            exists|i: int| 0 <= i < k && (#[trigger] contour.view()[i]).y == ymax,
            xmin as int == spec_x_min(contour.view().take(k as int)),
            xmax as int == spec_x_max(contour.view().take(k as int)),
            ymin as int == spec_y_min(contour.view().take(k as int)),
            ymax as int == spec_y_max(contour.view().take(k as int)),
        decreases n - k,
    {
        proof {
            assert(contour.view().take(k + 1).drop_last() =~= contour.view().take(k as int));
            assert(contour.view().take(k + 1).last() == contour.view()[k as int]);
        }
        let p = points[k];
        if p.x < xmin {
            xmin = p.x;
        }
        if p.x > xmax {
            xmax = p.x;
        }
        if p.y < ymin {
            ymin = p.y;
        }
        if p.y > ymax {
            ymax = p.y;
        }
        k += 1;
    }

    proof {
        assert(contour.view().take(n as int) =~= contour.view());
    }
    let ghost nx = acc.spec_nx() as int;
    let ghost ny = acc.spec_ny() as int;

    // accumulate crossing weights along every closing edge
    let mut e: usize = 0;
    while e < n
        invariant
            n == contour.view().len(),
            n >= 1,
            points@ == contour.view(),
            acc.wf(),
            acc.spec_nx() == g0.spec_nx(),
            acc.spec_ny() == g0.spec_ny(),
            nx == acc.spec_nx() as int,
            ny == acc.spec_ny() as int,
            points_in_grid(contour.view(), nx, ny),
            g0.spec_nx() <= LINE_COORD_LIMIT,
            g0.spec_ny() <= LINE_COORD_LIMIT,
            e <= n,
            forall|i: int|
                0 <= i < n ==> xmin <= (#[trigger] contour.view()[i]).x <= xmax && ymin
                    <= contour.view()[i].y <= ymax,
            forall|cx: int, cy: int|
                0 <= cx < nx && 0 <= cy < ny && !(xmin <= cx <= xmax && ymin <= cy <= ymax)
                    ==> acc.spec_at(cx, cy) == g0.spec_at(cx, cy),
            acc.spec_data() == spec_accumulate_edges(g0.spec_data(), nx, contour.view(), e as int),
        decreases n - e,
    {
        let ghost edge_base = acc.spec_data();
        let p0 = points[e];
        let p1 = if e + 1 < n {
            points[e + 1]
        } else {
            points[0]
        };
        let x0 = p0.x as i32;
        let y0 = p0.y as i32;
        let x1 = p1.x as i32;
        let y1 = p1.y as i32;
        let polygon = if x0 < x1 {
            generate_line2d(x0, y0, x1, y1)
        } else {
            generate_line2d(x1, y1, x0, y0)
        };
        let mut yt: i32 = i32::MIN;
        let mut j: usize = 0;
        proof {
            assert(polygon@ == spec_edge_cells(contour.view(), e as int));
        }
        while j < polygon.len()
            invariant
                n == contour.view().len(),
                e < n,
                acc.wf(),
                acc.spec_nx() == g0.spec_nx(),
                acc.spec_ny() == g0.spec_ny(),
                nx == acc.spec_nx() as int,
                ny == acc.spec_ny() as int,
                j <= polygon@.len(),
                forall|i: int|
                    0 <= i < polygon@.len() ==> {
                        let q = #[trigger] polygon@[i];
                        xmin <= q[0] <= xmax && ymin <= q[1] <= ymax && 0 <= q[0] < nx && 0 <= q[1]
                            < ny
                    },
                forall|cx: int, cy: int|
                    0 <= cx < nx && 0 <= cy < ny && !(xmin <= cx <= xmax && ymin <= cy <= ymax)
                        ==> acc.spec_at(cx, cy) == g0.spec_at(cx, cy),
                p0 == contour.view()[e as int],
                p1 == (if e + 1 < n {
                    contour.view()[e + 1]
                } else {
                    contour.view()[0]
                }),
                y0 as int == p0.y as int,
                y1 as int == p1.y as int,
                polygon@ == spec_edge_cells(contour.view(), e as int),
                edge_base == spec_accumulate_edges(g0.spec_data(), nx, contour.view(), e as int),
                spec_accumulate_cells(
                    acc.spec_data(),
                    nx,
                    polygon@,
                    j as int,
                    p0.y as int,
                    p1.y as int,
                    yt as int,
                ) == spec_accumulate_cells(
                    edge_base,
                    nx,
                    polygon@,
                    0,
                    p0.y as int,
                    p1.y as int,
                    i32::MIN as int,
                ),
            decreases polygon@.len() - j,
        {
            let ghost data_before = acc.spec_data();
            let ghost yt_before = yt as int;
            let q = polygon[j];
            let qx = q[0] as usize;
            let qy = q[1] as usize;
            let v = acc.value_at(qx, qy);
            let ylo = if y0 < y1 {
                y0
            } else {
                y1
            };
            let inc: u8 = if y0 != y1 && q[1] != ylo && q[1] != yt {
                1
            } else {
                2
            };
            let v2 = v.wrapping_add(inc);
            acc.set_value_at(qx, qy, &v2);
            proof {
                assert(acc.spec_data() == data_before.update(
                    nx * (q[1] as int) + (q[0] as int),
                    vstd::wrapping::u8_specs::wrapping_add(
                        data_before[nx * (q[1] as int) + (q[0] as int)],
                        inc,
                    ),
                ));
                assert(spec_accumulate_cells(
                    data_before,
                    nx,
                    polygon@,
                    j as int,
                    p0.y as int,
                    p1.y as int,
                    yt_before,
                ) == spec_accumulate_cells(
                    acc.spec_data(),
                    nx,
                    polygon@,
                    j + 1,
                    p0.y as int,
                    p1.y as int,
                    q[1] as int,
                ));
            }
            yt = q[1];
            j += 1;
        }
        proof {
            assert(spec_accumulate_cells(
                acc.spec_data(),
                nx,
                polygon@,
                polygon@.len() as int,
                p0.y as int,
                p1.y as int,
                yt as int,
            ) == acc.spec_data());
            assert(spec_accumulate_edges(g0.spec_data(), nx, contour.view(), e + 1)
                == spec_accumulate_cells(
                spec_accumulate_edges(g0.spec_data(), nx, contour.view(), e as int),
                nx,
                spec_edge_cells(contour.view(), e as int),
                0,
                contour.view()[e as int].y as int,
                (if e + 1 < n {
                    contour.view()[e + 1]
                } else {
                    contour.view()[0]
                }).y as int,
                i32::MIN as int,
            ));
        }
        e += 1;
    }

    // scan-line pass: normalize the bounding box to a 0/1 mask by parity
    let ghost scan_base = acc.spec_data();
    let ghost scan_full = spec_scan_rows(
        scan_base,
        nx,
        ymin as int,
        ymax as int,
        xmin as int,
        xmax as int,
    );
    let mut yy: usize = ymin as usize;
    while yy <= ymax as usize
        invariant
            acc.wf(),
            acc.spec_nx() == g0.spec_nx(),
            acc.spec_ny() == g0.spec_ny(),
            nx == acc.spec_nx() as int,
            ny == acc.spec_ny() as int,
            0 <= xmin <= xmax < nx,
            0 <= ymin <= ymax < ny,
            ymin <= yy,
            yy <= ymax + 1,
            forall|cx: int, cy: int|
                0 <= cx < nx && 0 <= cy < ny && !(xmin <= cx <= xmax && ymin <= cy <= ymax)
                    ==> acc.spec_at(cx, cy) == g0.spec_at(cx, cy),
            forall|cx: int, cy: int|
                xmin <= cx <= xmax && ymin <= cy < yy ==> acc.spec_at(cx, cy) == 0 || acc.spec_at(
                    cx,
                    cy,
                ) == 1,
            scan_full == spec_scan_rows(
                acc.spec_data(),
                nx,
                yy as int,
                ymax as int,
                xmin as int,
                xmax as int,
            ),
        decreases ymax + 1 - yy,
    {
        let mut inside = false;
        let mut xx: usize = xmin as usize;
        proof {
            assert(spec_scan_rows(
                acc.spec_data(),
                nx,
                yy as int,
                ymax as int,
                xmin as int,
                xmax as int,
            ) == spec_scan_rows(
                spec_scan_row(acc.spec_data(), nx, yy as int, xmin as int, xmax as int, false),
                nx,
                yy + 1,
                ymax as int,
                xmin as int,
                xmax as int,
            ));
        }
        while xx <= xmax as usize
            invariant
                acc.wf(),
                acc.spec_nx() == g0.spec_nx(),
                acc.spec_ny() == g0.spec_ny(),
                nx == acc.spec_nx() as int,
                ny == acc.spec_ny() as int,
                0 <= xmin <= xmax < nx,
                0 <= ymin <= ymax < ny,
                ymin <= yy <= ymax,
                xmin <= xx,
                xx <= xmax + 1,
                forall|cx: int, cy: int|
                    0 <= cx < nx && 0 <= cy < ny && !(xmin <= cx <= xmax && ymin <= cy <= ymax)
                        ==> acc.spec_at(cx, cy) == g0.spec_at(cx, cy),
                forall|cx: int, cy: int|
                    xmin <= cx <= xmax && ymin <= cy < yy ==> acc.spec_at(cx, cy) == 0
                        || acc.spec_at(cx, cy) == 1,
                forall|cx: int|
                    xmin <= cx < xx ==> acc.spec_at(cx, yy as int) == 0 || acc.spec_at(
                        cx,
                        yy as int,
                    ) == 1,
                scan_full == spec_scan_rows(
                    spec_scan_row(
                        acc.spec_data(),
                        nx,
                        yy as int,
                        xx as int,
                        xmax as int,
                        inside,
                    ),
                    nx,
                    yy + 1,
                    ymax as int,
                    xmin as int,
                    xmax as int,
                ),
            decreases xmax + 1 - xx,
        {
            let ghost row_before = acc.spec_data();
            let ghost inside_before = inside;
            let v = acc.value_at(xx, yy);
            if !inside {
                if v % 2 == 1 {
                    inside = true;
                }
                if v != 0 {
                    acc.set_value_at(xx, yy, &1);
                } else {
                    proof {
                        assert(acc.spec_at(xx as int, yy as int) == 0);
                    }
                }
            } else {
                if v % 2 == 1 {
                    inside = false;
                }
                acc.set_value_at(xx, yy, &1);
            }
            proof {
                assert(spec_scan_row(
                    row_before,
                    nx,
                    yy as int,
                    xx as int,
                    xmax as int,
                    inside_before,
                ) == spec_scan_row(
                    acc.spec_data(),
                    nx,
                    yy as int,
                    xx + 1,
                    xmax as int,
                    inside,
                ));
            }
            xx += 1;
        }
        proof {
            assert(spec_scan_row(
                acc.spec_data(),
                nx,
                yy as int,
                xmax + 1,
                xmax as int,
                inside,
            ) == acc.spec_data());
        }
        yy += 1;
    }
    proof {
        assert(spec_scan_rows(
            acc.spec_data(),
            nx,
            ymax + 1,
            ymax as int,
            xmin as int,
            xmax as int,
        ) == acc.spec_data());
        assert(acc.spec_data() == spec_fill(
            g0.spec_data(),
            g0.spec_nx() as int,
            contour.view(),
        ));
    }

    proof {
        assert forall|cx: int, cy: int|
            0 <= cx < nx && 0 <= cy < ny && !in_contour_bbox(contour.view(), cx, cy) implies !(xmin
            <= cx <= xmax && ymin <= cy <= ymax) by {
            if xmin <= cx <= xmax && ymin <= cy <= ymax {
                assert(bbox_reaches_left(contour.view(), cx));
                assert(bbox_reaches_right(contour.view(), cx));
                assert(bbox_reaches_up(contour.view(), cy));
                assert(bbox_reaches_down(contour.view(), cy));
            }
        }
        assert forall|cx: int, cy: int|
            0 <= cx < nx && 0 <= cy < ny && in_contour_bbox(contour.view(), cx, cy) implies (xmin
            <= cx <= xmax && ymin <= cy <= ymax) by {
        }
    }
    acc
}

} // verus!
