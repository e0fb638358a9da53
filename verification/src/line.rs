//! Integer line rasterization (Bresenham).

use vstd::prelude::*;

verus! {

/// Largest coordinate magnitude the line generator accepts; keeps the error
/// term well inside `i64`.
pub const LINE_COORD_LIMIT: i32 = 0x2000_0000;

/// Unit step of the walk along one axis: 1 toward a larger target, else -1.
pub open spec fn spec_step(from: int, to: int) -> int {
    if from < to {
        1
    } else {
        -1
    }
}

/// Each point of the walk moves from its predecessor by the axis steps:
/// zero or one unit in x, zero or one unit in y, never standing still.
pub open spec fn line_steps_ok(line: Seq<[i32; 2]>, x1: int, y1: int, x2: int, y2: int) -> bool {
    forall|i: int|
        0 <= i < line.len() - 1 ==> {
            let ddx = #[trigger] line[i + 1][0] - line[i][0];
            let ddy = line[i + 1][1] - line[i][1];
            (ddx == 0 || ddx == spec_step(x1, x2)) && (ddy == 0 || ddy == spec_step(y1, y2)) && (ddx
                != 0 || ddy != 0)
        }
}

/// Every point of the walk stays inside the bounding box of the endpoints.
pub open spec fn line_in_box(line: Seq<[i32; 2]>, x1: int, y1: int, x2: int, y2: int) -> bool {
    forall|i: int|
        0 <= i < line.len() ==> {
            let p = #[trigger] line[i];
            vstd::math::min(x1, x2) <= p[0] <= vstd::math::max(x1, x2) && vstd::math::min(y1, y2)
                <= p[1] <= vstd::math::max(y1, y2)
        }
}

/// A well-formed walk state: the cell sits between the endpoints and the
/// error term is the linear function of the steps taken that the walk
/// maintains.
pub open spec fn walk_sane(x: int, y: int, err: int, x1: int, y1: int, x2: int, y2: int) -> bool {
    let dx = vstd::math::abs(x2 - x1);
    let dy = -vstd::math::abs(y2 - y1);
    let sx = spec_step(x1, x2);
    let sy = spec_step(y1, y2);
    &&& -LINE_COORD_LIMIT <= x1 <= LINE_COORD_LIMIT
    &&& -LINE_COORD_LIMIT <= y1 <= LINE_COORD_LIMIT
    &&& -LINE_COORD_LIMIT <= x2 <= LINE_COORD_LIMIT
    &&& -LINE_COORD_LIMIT <= y2 <= LINE_COORD_LIMIT
    &&& vstd::math::min(x1, x2) <= x <= vstd::math::max(x1, x2)
    &&& vstd::math::min(y1, y2) <= y <= vstd::math::max(y1, y2)
    &&& err == dx + dy + (x - x1) * sx * dy + (y - y1) * sy * dx
}

/// The cells the midpoint walk visits from the state (x, y, err) up to the
/// target (x2, y2), current cell included: one unfolding per loop iteration
/// of the generator below.
pub open spec fn spec_line_walk(
    x: int,
    y: int,
    err: int,
    x1: int,
    y1: int,
    x2: int,
    y2: int,
) -> Seq<[i32; 2]>
    decreases vstd::math::abs(x2 - x) + vstd::math::abs(y2 - y),
    when walk_sane(x, y, err, x1, y1, x2, y2)
{
    let here = seq![[x as i32, y as i32]];
    if x == x2 && y == y2 {
        here
    } else {
        let dx = vstd::math::abs(x2 - x1);
        let dy = -vstd::math::abs(y2 - y1);
        let sx = spec_step(x1, x2);
        let sy = spec_step(y1, y2);
        let e2 = 2 * err;
        if e2 >= dy && x == x2 {
            here
        } else {
            let x9 = if e2 >= dy {
                x + sx
            } else {
                x
            };
            let e9 = if e2 >= dy {
                err + dy
            } else {
                err
            };
            if e2 <= dx && y == y2 {
                here
            } else {
                let y9 = if e2 <= dx {
                    y + sy
                } else {
                    y
                };
                let e9b = if e2 <= dx {
                    e9 + dx
                } else {
                    e9
                };
                here + spec_line_walk(x9, y9, e9b, x1, y1, x2, y2)
            }
        }
    }
}

/// The full cell walk of the segment from (x1, y1) to (x2, y2).
pub open spec fn spec_line(x1: int, y1: int, x2: int, y2: int) -> Seq<[i32; 2]> {
    spec_line_walk(
        x1,
        y1,
        vstd::math::abs(x2 - x1) - vstd::math::abs(y2 - y1),
        x1,
        y1,
        x2,
        y2,
    )
}

/// Walks the grid cells of the segment from (x1, y1) to (x2, y2) with the
/// all-quadrant Bresenham midpoint rule: exactly the cells of `spec_line`,
/// which start at (x1, y1), end at (x2, y2), and advance one
/// eight-connected, axis-monotone step at a time.
#[verifier::rlimit(60)]
pub fn generate_line2d(x1: i32, y1: i32, x2: i32, y2: i32) -> (line: Vec<[i32; 2]>)
    requires
        -LINE_COORD_LIMIT <= x1 <= LINE_COORD_LIMIT,
        -LINE_COORD_LIMIT <= y1 <= LINE_COORD_LIMIT,
        -LINE_COORD_LIMIT <= x2 <= LINE_COORD_LIMIT,
        -LINE_COORD_LIMIT <= y2 <= LINE_COORD_LIMIT,
    ensures
        line@.len() >= 1,
        line@[0] == [x1, y1],
        line@[line@.len() - 1] == [x2, y2],
        line@.len() <= vstd::math::abs(x2 - x1) + vstd::math::abs(y2 - y1) + 1,
        line_steps_ok(line@, x1 as int, y1 as int, x2 as int, y2 as int),
        line_in_box(line@, x1 as int, y1 as int, x2 as int, y2 as int),
        line@ == spec_line(x1 as int, y1 as int, x2 as int, y2 as int),
{
    let dx: i64 = if x1 < x2 {
        x2 as i64 - x1 as i64
    } else {
        x1 as i64 - x2 as i64
    };
    let sx: i32 = if x1 < x2 {
        1
    } else {
        -1
    };
    let dy: i64 = if y1 < y2 {
        y1 as i64 - y2 as i64
    } else {
        y2 as i64 - y1 as i64
    };
    let sy: i32 = if y1 < y2 {
        1
    } else {
        -1
    };

    let mut line_points: Vec<[i32; 2]> = Vec::new();
    let mut error: i64 = dx + dy;

    let mut x = x1;
    let mut y = y1;

    proof {
        assert((x - x1) * (sx as int) * dy == 0 && (y - y1) * (sy as int) * dx == 0)
            by (nonlinear_arith)
            requires
                x == x1,
                y == y1,
        ;
        assert(line_points@ + spec_line_walk(
            x as int,
            y as int,
            error as int,
            x1 as int,
            y1 as int,
            x2 as int,
            y2 as int,
        ) =~= spec_line(x1 as int, y1 as int, x2 as int, y2 as int));
    }

    loop
        invariant_except_break
            -LINE_COORD_LIMIT <= x1 <= LINE_COORD_LIMIT,
            -LINE_COORD_LIMIT <= y1 <= LINE_COORD_LIMIT,
            -LINE_COORD_LIMIT <= x2 <= LINE_COORD_LIMIT,
            -LINE_COORD_LIMIT <= y2 <= LINE_COORD_LIMIT,
            dx == vstd::math::abs(x2 - x1),
            dy == -vstd::math::abs(y2 - y1),
            sx == spec_step(x1 as int, x2 as int),
            sy == spec_step(y1 as int, y2 as int),
            vstd::math::min(x1 as int, x2 as int) <= x <= vstd::math::max(x1 as int, x2 as int),
            vstd::math::min(y1 as int, y2 as int) <= y <= vstd::math::max(y1 as int, y2 as int),
            error == dx + dy + (x - x1) * (sx as int) * dy + (y - y1) * (sy as int) * dx,
            line_points@.len() == 0 ==> x == x1 && y == y1,
            line_points@.len() > 0 ==> line_points@[0] == [x1, y1],
            line_points@.len() > 0 ==> {
                let ddx = x - line_points@[line_points@.len() - 1][0];
                let ddy = y - line_points@[line_points@.len() - 1][1];
                (ddx == 0 || ddx == spec_step(x1 as int, x2 as int)) && (ddy == 0 || ddy
                    == spec_step(y1 as int, y2 as int)) && (ddx != 0 || ddy != 0)
            },
            line_steps_ok(line_points@, x1 as int, y1 as int, x2 as int, y2 as int),
            line_in_box(line_points@, x1 as int, y1 as int, x2 as int, y2 as int),
            line_points@.len() + vstd::math::abs(x2 - x) + vstd::math::abs(y2 - y) <= dx - dy,
            line_points@ + spec_line_walk(
                x as int,
                y as int,
                error as int,
                x1 as int,
                y1 as int,
                x2 as int,
                y2 as int,
            ) == spec_line(x1 as int, y1 as int, x2 as int, y2 as int),
        ensures
            line_points@.len() >= 1,
            line_points@[0] == [x1, y1],
            line_points@[line_points@.len() - 1] == [x2, y2],
            line_points@.len() <= dx - dy + 1,
            line_steps_ok(line_points@, x1 as int, y1 as int, x2 as int, y2 as int),
            line_in_box(line_points@, x1 as int, y1 as int, x2 as int, y2 as int),
            line_points@ == spec_line(x1 as int, y1 as int, x2 as int, y2 as int),
        decreases vstd::math::abs(x2 - x) + vstd::math::abs(y2 - y),
    {
        let ghost walk_x = x as int;
        let ghost walk_y = y as int;
        let ghost walk_err = error as int;
        line_points.push([x, y]);

        if x == x2 && y == y2 {
            proof {
                assert(line_points@ =~= spec_line(x1 as int, y1 as int, x2 as int, y2 as int));
            }
            break ;
        }
        proof {
            let a = (x - x1) * (sx as int);
            let b = (y - y1) * (sy as int);
            assert(0 <= a <= dx) by (nonlinear_arith)
                requires
                    a == (x - x1) * (sx as int),
                    (x1 < x2 && sx == 1 && x1 <= x <= x2 && dx == x2 - x1) || (x1 >= x2 && sx == -1
                        && x2 <= x <= x1 && dx == x1 - x2),
            ;
            assert(0 <= b <= -dy) by (nonlinear_arith)
                requires
                    b == (y - y1) * (sy as int),
                    (y1 < y2 && sy == 1 && y1 <= y <= y2 && dy == y1 - y2) || (y1 >= y2 && sy == -1
                        && y2 <= y <= y1 && dy == y2 - y1),
            ;
            assert(-0x1000_0000_0000_0000 <= a * dy <= 0) by (nonlinear_arith)
                requires
                    0 <= a <= 0x4000_0000,
                    -0x4000_0000 <= dy <= 0,
            ;
            assert(0 <= b * dx <= 0x1000_0000_0000_0000) by (nonlinear_arith)
                requires
                    0 <= b <= 0x4000_0000,
                    0 <= dx <= 0x4000_0000,
            ;
        }
        let e2 = 2 * error;
        let ghost pre_x = x as int;
        let ghost pre_y = y as int;
        if e2 >= dy {
            if x == x2 {
                proof {
                    // With x at its target, the error term has sunk below dy,
                    // so this guard cannot have passed.
                    assert((x - x1) * (sx as int) == dx) by (nonlinear_arith)
                        requires
                            x == x2,
                            dx == vstd::math::abs(x2 - x1),
                            sx == spec_step(x1 as int, x2 as int),
                    ;
                    assert(y != y2 && dy <= -1);
                    assert((y - y1) * (sy as int) <= -dy - 1) by (nonlinear_arith)
                        requires
                            y != y2,
                            dy == -vstd::math::abs(y2 - y1),
                            sy == spec_step(y1 as int, y2 as int),
                            vstd::math::min(y1 as int, y2 as int) <= y <= vstd::math::max(
                                y1 as int,
                                y2 as int,
                            ),
                    ;
                    assert(error <= dy) by (nonlinear_arith)
                        requires
                            error == dx + dy + (x - x1) * (sx as int) * dy + (y - y1) * (sy as int)
                                * dx,
                            (x - x1) * (sx as int) == dx,
                            (y - y1) * (sy as int) <= -dy - 1,
                            dy <= -1,
                            dx >= 0,
                    ;
                    assert(false);
                }
                break ;
            }
            proof {
                assert(((x + sx) - x1) * (sx as int) * dy == (x - x1) * (sx as int) * dy + dy)
                    by (nonlinear_arith)
                    requires
                        sx == 1 || sx == -1,
                ;
                assert(vstd::math::min(x1 as int, x2 as int) <= x + sx <= vstd::math::max(
                    x1 as int,
                    x2 as int,
                ) && vstd::math::abs(x2 - (x + sx)) == vstd::math::abs(x2 - x) - 1)
                    by (nonlinear_arith)
                    requires
                        x != x2,
                        sx == spec_step(x1 as int, x2 as int),
                        vstd::math::min(x1 as int, x2 as int) <= x <= vstd::math::max(
                            x1 as int,
                            x2 as int,
                        ),
                ;
            }
            error += dy;
            x += sx;
        }
        if e2 <= dx {
            if y == y2 {
                proof {
                    // With y at its target, the error term has risen above dx,
                    // so this guard cannot have passed.
                    assert((pre_y - y1) * (sy as int) == -dy) by (nonlinear_arith)
                        requires
                            pre_y == y2,
                            dy == -vstd::math::abs(y2 - y1),
                            sy == spec_step(y1 as int, y2 as int),
                    ;
                    assert(pre_x != x2);
                    assert(dx >= 1 && (pre_x - x1) * (sx as int) <= dx - 1) by (nonlinear_arith)
                        requires
                            pre_x != x2,
                            dx == vstd::math::abs(x2 - x1),
                            sx == spec_step(x1 as int, x2 as int),
                            vstd::math::min(x1 as int, x2 as int) <= pre_x <= vstd::math::max(
                                x1 as int,
                                x2 as int,
                            ),
                    ;
                    assert(e2 >= 2 * dx) by (nonlinear_arith)
                        requires
                            e2 == 2 * (dx + dy + (pre_x - x1) * (sx as int) * dy + (pre_y - y1) * (
                            sy as int) * dx),
                            (pre_y - y1) * (sy as int) == -dy,
                            (pre_x - x1) * (sx as int) <= dx - 1,
                            dy <= 0,
                            dx >= 1,
                    ;
                    assert(false);
                }
                break ;
            }
            proof {
                assert(((y + sy) - y1) * (sy as int) * dx == (y - y1) * (sy as int) * dx + dx)
                    by (nonlinear_arith)
                    requires
                        sy == 1 || sy == -1,
                ;
                assert(vstd::math::min(y1 as int, y2 as int) <= y + sy <= vstd::math::max(
                    y1 as int,
                    y2 as int,
                ) && vstd::math::abs(y2 - (y + sy)) == vstd::math::abs(y2 - y) - 1)
                    by (nonlinear_arith)
                    requires
                        y != y2,
                        sy == spec_step(y1 as int, y2 as int),
                        vstd::math::min(y1 as int, y2 as int) <= y <= vstd::math::max(
                            y1 as int,
                            y2 as int,
                        ),
                ;
            }
            error += dx;
            y += sy;
        }
        proof {
            assert(spec_line_walk(
                walk_x,
                walk_y,
                walk_err,
                x1 as int,
                y1 as int,
                x2 as int,
                y2 as int,
            ) =~= seq![[walk_x as i32, walk_y as i32]] + spec_line_walk(
                x as int,
                y as int,
                error as int,
                x1 as int,
                y1 as int,
                x2 as int,
                y2 as int,
            ));
            assert(line_points@ + spec_line_walk(
                x as int,
                y as int,
                error as int,
                x1 as int,
                y1 as int,
                x2 as int,
                y2 as int,
            ) =~= spec_line(x1 as int, y1 as int, x2 as int, y2 as int));
        }
    }
    line_points
}

} // verus!
