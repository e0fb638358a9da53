//! An ordered collection of (elevation, contour) pairs, and its assembly
//! into a stacked binary volume for surface extraction.

use vstd::prelude::*;
use crate::contour::Contour2D;
use crate::geometry::Point2D;
use crate::grid::{Grid2D, Grid3D};
use crate::raster::fill_contour;

verus! {

/// Largest coordinate magnitude a structure's contours may use: leaves room
/// for the raster scaling arithmetic.
pub const STRUCT_COORD_LIMIT: i64 = 0x4000;

/// The contours whose elevation equals z, in insertion order.
pub open spec fn contours_at_spec(zs: Seq<i64>, cs: Seq<Contour2D>, z: i64) -> Seq<Contour2D>
    decreases zs.len(),
{
    if zs.len() == 0 {
        Seq::<Contour2D>::empty()
    } else {
        let rest = contours_at_spec(zs.drop_last(), cs.drop_last(), z);
        if zs.last() == z {
            rest.push(cs.last())
        } else {
            rest
        }
    }
}

/// An elevation that appears nowhere yields no contours.
pub proof fn lemma_contours_at_none(zs: Seq<i64>, cs: Seq<Contour2D>, z: i64)
    ensures
        contours_at_spec(zs, cs, z).len() == 0 <==> (forall|i: int|
            0 <= i < zs.len() ==> zs[i] != z),
    decreases zs.len(),
{
    if zs.len() > 0 {
        lemma_contours_at_none(zs.drop_last(), cs.drop_last(), z);
        if zs.last() == z {
            assert(zs[zs.len() - 1] == z);
        } else {
            if forall|i: int| 0 <= i < zs.drop_last().len() ==> #[trigger] zs.drop_last()[i] != z {
                assert forall|i: int| 0 <= i < zs.len() implies zs[i] != z by {
                    if i < zs.len() - 1 {
                        assert(zs.drop_last()[i] == zs[i]);
                    }
                }
            } else {
                let j = choose|j: int|
                    0 <= j < zs.drop_last().len() && #[trigger] zs.drop_last()[j] == z;
                assert(zs[j] == z);
            }
        }
    }
}

/// Every contour stored at elevation z is among the contours returned for z.
pub proof fn lemma_contours_at_complete(zs: Seq<i64>, cs: Seq<Contour2D>, z: i64, i: int)
    requires
        zs.len() == cs.len(),
        0 <= i < zs.len(),
        zs[i] == z,
    ensures
        contours_at_spec(zs, cs, z).contains(cs[i]),
    decreases zs.len(),
{
    if i == zs.len() - 1 {
        let rest = contours_at_spec(zs.drop_last(), cs.drop_last(), z);
        assert(contours_at_spec(zs, cs, z) == rest.push(cs.last()));
        assert(contours_at_spec(zs, cs, z)[rest.len() as int] == cs[i]);
    } else {
        lemma_contours_at_complete(zs.drop_last(), cs.drop_last(), z, i);
        let rest = contours_at_spec(zs.drop_last(), cs.drop_last(), z);
        let w = choose|k: int| 0 <= k < rest.len() && rest[k] == cs.drop_last()[i];
        if zs.last() == z {
            assert(contours_at_spec(zs, cs, z)[w] == cs[i]);
        } else {
            assert(contours_at_spec(zs, cs, z)[w] == cs[i]);
        }
    }
}


/// Smallest elevation among the first k.
pub open spec fn spec_zs_min(zs: Seq<i64>, k: int) -> int
    decreases k,
{
    if k <= 1 {
        zs[0] as int
    } else {
        vstd::math::min(spec_zs_min(zs, k - 1), zs[k - 1] as int)
    }
}

/// Largest elevation among the first k.
pub open spec fn spec_zs_max(zs: Seq<i64>, k: int) -> int
    decreases k,
{
    if k <= 1 {
        zs[0] as int
    } else {
        vstd::math::max(spec_zs_max(zs, k - 1), zs[k - 1] as int)
    }
}

/// Smallest point x among the first k contours; the empty fold is the i64
/// maximum, matching a scan that has seen no point.
pub open spec fn spec_cs_x_min(cs: Seq<Contour2D>, k: int) -> int
    decreases k,
{
    if k <= 0 {
        i64::MAX as int
    } else {
        let rest = spec_cs_x_min(cs, k - 1);
        let pts = cs[k - 1].view();
        if pts.len() == 0 {
            rest
        } else {
            vstd::math::min(rest, crate::raster::spec_x_min(pts))
        }
    }
}

/// Largest point x among the first k contours, i64 minimum when empty.
pub open spec fn spec_cs_x_max(cs: Seq<Contour2D>, k: int) -> int
    decreases k,
{
    if k <= 0 {
        i64::MIN as int
    } else {
        let rest = spec_cs_x_max(cs, k - 1);
        let pts = cs[k - 1].view();
        if pts.len() == 0 {
            rest
        } else {
            vstd::math::max(rest, crate::raster::spec_x_max(pts))
        }
    }
}

/// Smallest point y among the first k contours, i64 maximum when empty.
pub open spec fn spec_cs_y_min(cs: Seq<Contour2D>, k: int) -> int
    decreases k,
{
    if k <= 0 {
        i64::MAX as int
    } else {
        let rest = spec_cs_y_min(cs, k - 1);
        let pts = cs[k - 1].view();
        if pts.len() == 0 {
            rest
        } else {
            vstd::math::min(rest, crate::raster::spec_y_min(pts))
        }
    }
}

/// Largest point y among the first k contours, i64 minimum when empty.
pub open spec fn spec_cs_y_max(cs: Seq<Contour2D>, k: int) -> int
    decreases k,
{
    if k <= 0 {
        i64::MIN as int
    } else {
        let rest = spec_cs_y_max(cs, k - 1);
        let pts = cs[k - 1].view();
        if pts.len() == 0 {
            rest
        } else {
            vstd::math::max(rest, crate::raster::spec_y_max(pts))
        }
    }
}

/// The point extremes over an all-empty prefix are the fold's sentinels.
proof fn lemma_cs_extremes_all_empty(cs: Seq<Contour2D>, k: int)
    requires
        forall|ci: int| 0 <= ci < k ==> (#[trigger] cs[ci].view()).len() == 0,
    ensures
        spec_cs_x_min(cs, k) == i64::MAX as int,
        spec_cs_x_max(cs, k) == i64::MIN as int,
        spec_cs_y_min(cs, k) == i64::MAX as int,
        spec_cs_y_max(cs, k) == i64::MIN as int,
    decreases k,
{
    if k > 0 {
        lemma_cs_extremes_all_empty(cs, k - 1);
    }
}

/// Ordered (elevation, contour) pairs; elevations need not be sorted on
/// insertion and one elevation may hold several contours.
#[derive(Debug)]
pub struct Structure {
    contours: Vec<Contour2D>,
    z: Vec<i64>,
}

impl Structure {
    pub closed spec fn spec_contours(&self) -> Seq<Contour2D> {
        self.contours@
    }

    pub closed spec fn spec_z(&self) -> Seq<i64> {
        self.z@
    }

    /// One elevation per contour.
    pub open spec fn wf(&self) -> bool {
        self.spec_contours().len() == self.spec_z().len()
    }

    pub fn new() -> (s: Structure)
        ensures
            s.wf(),
            s.spec_contours().len() == 0,
            s.spec_z().len() == 0,
    {
        Structure { contours: Vec::new(), z: Vec::new() }
    }

    pub fn len(&self) -> (n: usize)
        ensures
            n == self.spec_contours().len(),
    {
        self.contours.len()
    }

    /// Adds a contour at an elevation.
    pub fn push(&mut self, z: i64, contour: Contour2D)
        requires
            old(self).wf(),
        ensures
            final(self).wf(),
            final(self).spec_z() == old(self).spec_z().push(z),
            final(self).spec_contours() == old(self).spec_contours().push(contour),
    {
        self.z.push(z);
        self.contours.push(contour);
    }

    /// The contours at exactly elevation z, in insertion order; none if the
    /// elevation is absent.
    pub fn get_contours_at(&self, z: i64) -> (r: Option<Vec<Contour2D>>)
        requires
            self.wf(),
        ensures
            r is Some <==> exists|i: int| 0 <= i < self.spec_z().len() && self.spec_z()[i] == z,
            r matches Some(v) ==> v@.len() == contours_at_spec(
                self.spec_z(),
                self.spec_contours(),
                z,
            ).len() && forall|k: int|
                0 <= k < v@.len() ==> (#[trigger] v@[k]).view() == contours_at_spec(
                    self.spec_z(),
                    self.spec_contours(),
                    z,
                )[k].view(),
    {
        self.get_contours_at_impl(z)
    }

    fn get_contours_at_impl(&self, z: i64) -> (r: Option<Vec<Contour2D>>)
        requires
            self.wf(),
        ensures
            r is Some <==> exists|i: int| 0 <= i < self.spec_z().len() && self.spec_z()[i] == z,
            r matches Some(v) ==> v@.len() == contours_at_spec(
                self.spec_z(),
                self.spec_contours(),
                z,
            ).len() && forall|k: int|
                0 <= k < v@.len() ==> (#[trigger] v@[k]).view() == contours_at_spec(
                    self.spec_z(),
                    self.spec_contours(),
                    z,
                )[k].view(),
    {
        let mut ret: Vec<Contour2D> = Vec::new();
        let n = self.z.len();
        let mut i: usize = 0;
        while i < n
            invariant
                self.wf(),
                n == self.spec_z().len(),
                i <= n,
                ret@.len() == contours_at_spec(
                    self.spec_z().take(i as int),
                    self.spec_contours().take(i as int),
                    z,
                ).len(),
                forall|k: int|
                    0 <= k < ret@.len() ==> (#[trigger] ret@[k]).view() == contours_at_spec(
                        self.spec_z().take(i as int),
                        self.spec_contours().take(i as int),
                        z,
                    )[k].view(),
                ret@.len() > 0 <==> exists|k: int| 0 <= k < i && self.spec_z()[k] == z,
            decreases n - i,
        {
            proof {
                assert(self.spec_z().take(i + 1).drop_last() =~= self.spec_z().take(i as int));
                assert(self.spec_contours().take(i + 1).drop_last() =~= self.spec_contours().take(
                    i as int,
                ));
                assert(self.spec_z().take(i + 1).last() == self.spec_z()[i as int]);
                assert(self.spec_contours().take(i + 1).last() == self.spec_contours()[i as int]);
            }
            if self.z[i] == z {
                ret.push(self.contours[i].duplicate());
            }
            i += 1;
        }
        proof {
            assert(self.spec_z().take(n as int) =~= self.spec_z());
            assert(self.spec_contours().take(n as int) =~= self.spec_contours());
        }
        if ret.is_empty() {
            return None;
        }
        Some(ret)
    }

    /// The bounding box [xmin, xmax, ymin, ymax, zmin, zmax] over every
    /// elevation and every contour point.
    pub fn bounding_box(&self) -> (r: [i64; 6])
        requires
            self.wf(),
            self.spec_z().len() >= 1,
        ensures
            forall|i: int| 0 <= i < self.spec_z().len() ==> r[4] <= #[trigger] self.spec_z()[i] <= r[5],
            exists|i: int| 0 <= i < self.spec_z().len() && #[trigger] self.spec_z()[i] == r[4],
            exists|i: int| 0 <= i < self.spec_z().len() && #[trigger] self.spec_z()[i] == r[5],
            forall|c: int, p: int|
                0 <= c < self.spec_contours().len() && 0 <= p
                    < self.spec_contours()[c].view().len() ==> r[0] <= (
                #[trigger] self.spec_contours()[c].view()[p]).x <= r[1] && r[2]
                    <= self.spec_contours()[c].view()[p].y <= r[3],
            has_any_point(self.spec_contours()) ==> (exists|c: int, p: int|
                0 <= c < self.spec_contours().len() && 0 <= p
                    < self.spec_contours()[c].view().len() && (
                #[trigger] self.spec_contours()[c].view()[p]).x == r[0]),
            has_any_point(self.spec_contours()) ==> (exists|c: int, p: int|
                0 <= c < self.spec_contours().len() && 0 <= p
                    < self.spec_contours()[c].view().len() && (
                #[trigger] self.spec_contours()[c].view()[p]).x == r[1]),
            has_any_point(self.spec_contours()) ==> (exists|c: int, p: int|
                0 <= c < self.spec_contours().len() && 0 <= p
                    < self.spec_contours()[c].view().len() && (
                #[trigger] self.spec_contours()[c].view()[p]).y == r[2]),
            has_any_point(self.spec_contours()) ==> (exists|c: int, p: int|
                0 <= c < self.spec_contours().len() && 0 <= p
                    < self.spec_contours()[c].view().len() && (
                #[trigger] self.spec_contours()[c].view()[p]).y == r[3]),
            r[0] as int == spec_cs_x_min(
                self.spec_contours(),
                self.spec_contours().len() as int,
            ),
            r[1] as int == spec_cs_x_max(
                self.spec_contours(),
                self.spec_contours().len() as int,
            ),
            r[2] as int == spec_cs_y_min(
                self.spec_contours(),
                self.spec_contours().len() as int,
            ),
            r[3] as int == spec_cs_y_max(
                self.spec_contours(),
                self.spec_contours().len() as int,
            ),
            r[4] as int == spec_zs_min(self.spec_z(), self.spec_z().len() as int),
            r[5] as int == spec_zs_max(self.spec_z(), self.spec_z().len() as int),
    {
        // elevation extremes
        let mut z_min: i64 = self.z[0];
        let mut z_max: i64 = self.z[0];
        let mut i: usize = 1;
        let n = self.z.len();
        while i < n
            invariant
                self.wf(),
                n == self.spec_z().len(),
                1 <= i <= n,
                forall|k: int| 0 <= k < i ==> z_min <= #[trigger] self.spec_z()[k] <= z_max,
                exists|k: int| 0 <= k < i && #[trigger] self.spec_z()[k] == z_min,
                exists|k: int| 0 <= k < i && #[trigger] self.spec_z()[k] == z_max,
                z_min as int == spec_zs_min(self.spec_z(), i as int),
                z_max as int == spec_zs_max(self.spec_z(), i as int),
            decreases n - i,
        {
            let v = self.z[i];
            if v > z_max {
                z_max = v;
            }
            if v < z_min {
                z_min = v;
            }
            i += 1;
        }

        // point extremes over every contour
        let mut x_min: i64 = i64::MAX;
        let mut x_max: i64 = i64::MIN;
        let mut y_min: i64 = i64::MAX;
        let mut y_max: i64 = i64::MIN;
        let mut any = false;
        let nc = self.contours.len();
        let mut c: usize = 0;
        while c < nc
            invariant
                self.wf(),
                nc == self.spec_contours().len(),
                c <= nc,
                forall|ci: int, p: int|
                    0 <= ci < c && 0 <= p < self.spec_contours()[ci].view().len() ==> x_min <= (
                    #[trigger] self.spec_contours()[ci].view()[p]).x <= x_max && y_min
                        <= self.spec_contours()[ci].view()[p].y <= y_max,
                any <==> (exists|ci: int|
                    0 <= ci < c && (#[trigger] self.spec_contours()[ci].view()).len() > 0),
                any ==> (exists|ci: int, p: int|
                    0 <= ci < c && 0 <= p < self.spec_contours()[ci].view().len() && (
                    #[trigger] self.spec_contours()[ci].view()[p]).x == x_min),
                any ==> (exists|ci: int, p: int|
                    0 <= ci < c && 0 <= p < self.spec_contours()[ci].view().len() && (
                    #[trigger] self.spec_contours()[ci].view()[p]).x == x_max),
                any ==> (exists|ci: int, p: int|
                    0 <= ci < c && 0 <= p < self.spec_contours()[ci].view().len() && (
                    #[trigger] self.spec_contours()[ci].view()[p]).y == y_min),
                any ==> (exists|ci: int, p: int|
                    0 <= ci < c && 0 <= p < self.spec_contours()[ci].view().len() && (
                    #[trigger] self.spec_contours()[ci].view()[p]).y == y_max),
                x_min as int == spec_cs_x_min(self.spec_contours(), c as int),
                x_max as int == spec_cs_x_max(self.spec_contours(), c as int),
                y_min as int == spec_cs_y_min(self.spec_contours(), c as int),
                y_max as int == spec_cs_y_max(self.spec_contours(), c as int),
            decreases nc - c,
        {
            let points = self.contours[c].get_points();
            let np = points.len();
            let mut p: usize = 0;
            while p < np
                invariant
                    self.wf(),
                    nc == self.spec_contours().len(),
                    c < nc,
                    np == self.spec_contours()[c as int].view().len(),
                    points@ == self.spec_contours()[c as int].view(),
                    p <= np,
                    forall|ci: int, pp: int|
                        0 <= ci < c && 0 <= pp < self.spec_contours()[ci].view().len() ==> x_min
                            <= (#[trigger] self.spec_contours()[ci].view()[pp]).x <= x_max && y_min
                            <= self.spec_contours()[ci].view()[pp].y <= y_max,
                    forall|pp: int|
                        0 <= pp < p ==> x_min <= (
                        #[trigger] self.spec_contours()[c as int].view()[pp]).x <= x_max && y_min
                            <= self.spec_contours()[c as int].view()[pp].y <= y_max,
                    any <==> ((exists|ci: int|
                        0 <= ci < c && (#[trigger] self.spec_contours()[ci].view()).len() > 0) || p
                        > 0),
                    any ==> (exists|ci: int, pp: int|
                        0 <= ci <= c && 0 <= pp < self.spec_contours()[ci].view().len() && (
                        #[trigger] self.spec_contours()[ci].view()[pp]).x == x_min),
                    any ==> (exists|ci: int, pp: int|
                        0 <= ci <= c && 0 <= pp < self.spec_contours()[ci].view().len() && (
                        #[trigger] self.spec_contours()[ci].view()[pp]).x == x_max),
                    any ==> (exists|ci: int, pp: int|
                        0 <= ci <= c && 0 <= pp < self.spec_contours()[ci].view().len() && (
                        #[trigger] self.spec_contours()[ci].view()[pp]).y == y_min),
                    any ==> (exists|ci: int, pp: int|
                        0 <= ci <= c && 0 <= pp < self.spec_contours()[ci].view().len() && (
                        #[trigger] self.spec_contours()[ci].view()[pp]).y == y_max),
                    p == 0 ==> x_min as int == spec_cs_x_min(self.spec_contours(), c as int)
                        && x_max as int == spec_cs_x_max(self.spec_contours(), c as int) && (
                    y_min as int) == spec_cs_y_min(self.spec_contours(), c as int) && (
                    y_max as int) == spec_cs_y_max(self.spec_contours(), c as int),
                    p >= 1 ==> x_min as int == vstd::math::min(
                        spec_cs_x_min(self.spec_contours(), c as int),
                        crate::raster::spec_x_min(points@.take(p as int)),
                    ) && x_max as int == vstd::math::max(
                        spec_cs_x_max(self.spec_contours(), c as int),
                        crate::raster::spec_x_max(points@.take(p as int)),
                    ) && y_min as int == vstd::math::min(
                        spec_cs_y_min(self.spec_contours(), c as int),
                        crate::raster::spec_y_min(points@.take(p as int)),
                    ) && y_max as int == vstd::math::max(
                        spec_cs_y_max(self.spec_contours(), c as int),
                        crate::raster::spec_y_max(points@.take(p as int)),
                    ),
                decreases np - p,
            {
                proof {
                    assert(points@.take(p + 1).drop_last() =~= points@.take(p as int));
                    assert(points@.take(p + 1).last() == points@[p as int]);
                    assert(points@.take(1)[0] == points@[0]);
                    if !any {
                        lemma_cs_extremes_all_empty(self.spec_contours(), c as int);
                    }
                }
                let q = points[p];
                if !any {
                    x_min = q.x;
                    x_max = q.x;
                    y_min = q.y;
                    y_max = q.y;
                    any = true;
                } else {
                    if q.x < x_min {
                        x_min = q.x;
                    }
                    if q.x > x_max {
                        x_max = q.x;
                    }
                    if q.y < y_min {
                        y_min = q.y;
                    }
                    if q.y > y_max {
                        y_max = q.y;
                    }
                }
                p += 1;
            }
            proof {
                if np > 0 {
                    assert(points@.take(np as int) =~= points@);
                }
            }
            c += 1;
        }

        [x_min, x_max, y_min, y_max, z_min, z_max]
    }
}

/// Some contour of the list has at least one point.
pub open spec fn has_any_point(cs: Seq<Contour2D>) -> bool {
    exists|c: int| 0 <= c < cs.len() && (#[trigger] cs[c].view()).len() > 0
}

/// Every contour returned for an elevation is one of the stored contours.
pub proof fn lemma_contours_at_subset(zs: Seq<i64>, cs: Seq<Contour2D>, z: i64)
    requires
        zs.len() == cs.len(),
    ensures
        forall|k: int|
            0 <= k < contours_at_spec(zs, cs, z).len() ==> exists|ci: int|
                0 <= ci < cs.len() && #[trigger] contours_at_spec(zs, cs, z)[k] == cs[ci],
    decreases zs.len(),
{
    if zs.len() > 0 {
        lemma_contours_at_subset(zs.drop_last(), cs.drop_last(), z);
        let rest = contours_at_spec(zs.drop_last(), cs.drop_last(), z);
        assert forall|k: int|
            0 <= k < contours_at_spec(zs, cs, z).len() implies exists|ci: int|
            0 <= ci < cs.len() && #[trigger] contours_at_spec(zs, cs, z)[k] == cs[ci] by {
            if k < rest.len() {
                let cj = choose|ci: int|
                    0 <= ci < cs.drop_last().len() && #[trigger] rest[k] == cs.drop_last()[ci];
                assert(cs.drop_last()[cj] == cs[cj]);
                assert(contours_at_spec(zs, cs, z)[k] == cs[cj]);
            } else {
                assert(zs.last() == z);
                assert(contours_at_spec(zs, cs, z)[k] == cs[cs.len() - 1]);
            }
        }
    }
}

/// Ascending order on elevations.
pub open spec fn z_order() -> spec_fn(i64, i64) -> bool {
    |a: i64, b: i64| a <= b
}

/// The elevations in ascending order: the unique sorted permutation.
pub open spec fn spec_sorted_z(zs: Seq<i64>) -> Seq<i64> {
    zs.sort_by(z_order())
}

/// Sorts elevations ascending; the result is a permutation of the input.
fn sort_elevations(v: &Vec<i64>) -> (r: Vec<i64>)
    ensures
        r@.len() == v@.len(),
        forall|a: int, b: int| 0 <= a <= b < r@.len() ==> r@[a] <= r@[b],
        r@.to_multiset() == v@.to_multiset(),
        r@ == spec_sorted_z(v@),
{
    broadcast use vstd::seq_lib::group_to_multiset_ensures;

    let mut work: Vec<i64> = Vec::new();
    let mut i: usize = 0;
    while i < v.len()
        invariant
            i <= v@.len(),
            work@ == v@.subrange(0, i as int),
        decreases v@.len() - i,
    {
        work.push(v[i]);
        i += 1;
    }
    proof {
        assert(work@ =~= v@);
    }

    let ghost full = work@.to_multiset();
    let mut out: Vec<i64> = Vec::new();
    while work.len() > 0
        invariant
            out@.to_multiset().add(work@.to_multiset()) =~= full,
            out@.len() + work@.len() == v@.len(),
            forall|a: int, b: int| 0 <= a <= b < out@.len() ==> out@[a] <= out@[b],
            forall|a: int, b: int|
                0 <= a < out@.len() && 0 <= b < work@.len() ==> out@[a] <= work@[b],
        decreases work@.len(),
    {
        let mut mi: usize = 0;
        let mut mv: i64 = work[0];
        let mut j: usize = 1;
        while j < work.len()
            invariant
                work@.len() >= 1,
                j <= work@.len(),
                mi < work@.len(),
                mv == work@[mi as int],
                forall|k: int| 0 <= k < j ==> mv <= work@[k],
            decreases work@.len() - j,
        {
            if work[j] < mv {
                mi = j;
                mv = work[j];
            }
            j += 1;
        }
        let ghost pre_work = work@;
        let ghost pre_out = out@;
        let x = work.remove(mi);
        out.push(x);
        proof {
            pre_work.to_multiset_ensures();
            pre_out.to_multiset_ensures();
            assert(work@ == pre_work.remove(mi as int));
            assert(out@ == pre_out.push(x));
            assert(work@.to_multiset() =~= pre_work.to_multiset().remove(x));
            assert(out@.to_multiset() =~= pre_out.to_multiset().insert(x));
            assert(pre_work.contains(x));
            assert(pre_work.to_multiset().count(x) > 0);
            assert(out@.to_multiset().add(work@.to_multiset()) =~= full);
            assert forall|b: int| 0 <= b < work@.len() implies x <= work@[b] by {
                if b < mi {
                    assert(work@[b] == pre_work[b]);
                } else {
                    assert(work@[b] == pre_work[b + 1]);
                }
            }
        }
    }
    proof {
        assert(out@.to_multiset() =~= v@.to_multiset());
        let leq = z_order();
        v@.lemma_sort_by_ensures(leq);
        assert(vstd::relations::total_ordering(leq));
        assert(vstd::relations::sorted_by(out@, leq)) by {
            assert forall|a: int, b: int| 0 <= a < b < out@.len() implies #[trigger] leq(
                out@[a],
                out@[b],
            ) by {
                assert(out@[a] <= out@[b]);
            }
        }
        vstd::seq_lib::lemma_sorted_unique(out@, v@.sort_by(leq), leq);
        assert(out@ =~= v@.sort_by(leq));
    }
    out
}

/// Scaled raster position of v inside [lo, hi]: the interval is mapped to
/// columns 1 through target - 2, leaving a one-cell border; a collapsed
/// interval maps to 0.
pub open spec fn spec_scale(v: int, lo: int, hi: int, target: int) -> int {
    if lo == hi {
        0
    } else {
        1 + (v - lo) * (target - 2) / (hi - lo)
    }
}

fn scale_raster_coord(v: i64, lo: i64, hi: i64, target: i64) -> (r: i64)
    requires
        lo <= v <= hi,
        -STRUCT_COORD_LIMIT <= lo <= STRUCT_COORD_LIMIT,
        -STRUCT_COORD_LIMIT <= hi <= STRUCT_COORD_LIMIT,
        50 <= target <= 0x2000_0000,
    ensures
        r == spec_scale(v as int, lo as int, hi as int, target as int),
        0 <= r < target,
{
    if lo == hi {
        0
    } else {
        proof {
            let num = (v - lo) * (target - 2);
            let d = hi - lo;
            assert(0 <= num <= d * (target - 2) && num <= 0x0200_0000_0000_0000 && d * (target - 2)
                <= 0x0200_0000_0000_0000) by (nonlinear_arith)
                requires
                    0 <= v - lo <= d,
                    d <= 0x1000_0000,
                    50 <= target <= 0x2000_0000,
                    num == (v - lo) * (target - 2),
            ;
            vstd::arithmetic::div_mod::lemma_div_is_ordered(num, d * (target - 2), d);
            vstd::arithmetic::div_mod::lemma_div_multiples_vanish(target - 2, d);
            assert(d * (target - 2) / d == target - 2);
            vstd::arithmetic::div_mod::lemma_div_is_ordered(0, num, d);
            assert(0int / d == 0) by (nonlinear_arith)
                requires
                    d >= 1,
            ;
        }
        1 + (v - lo) * (target - 2) / (hi - lo)
    }
}


/// An all-zero mask of n cells.
pub open spec fn spec_zero_cells(n: int) -> Seq<u8> {
    Seq::new(n as nat, |i: int| 0u8)
}

/// The raster dimension spanning an extent: the extent plus one, at least 50.
pub open spec fn spec_raster_dim(lo: int, hi: int) -> int {
    if hi - lo + 1 < 50 {
        50
    } else {
        hi - lo + 1
    }
}

/// The contour's points scaled into the raster interior.
pub open spec fn spec_scaled(
    points: Seq<Point2D>,
    xmin: int,
    xmax: int,
    ymin: int,
    ymax: int,
    w: int,
    h: int,
) -> Seq<Point2D> {
    Seq::new(
        points.len(),
        |i: int|
            (Point2D {
                x: spec_scale(points[i].x as int, xmin, xmax, w) as i64,
                y: spec_scale(points[i].y as int, ymin, ymax, h) as i64,
            }),
    )
}

/// One slice: contours 0 through k - 1 scaled and rasterized in order into a
/// fresh w-by-h mask.
pub open spec fn spec_slice(
    cs: Seq<Contour2D>,
    k: int,
    xmin: int,
    xmax: int,
    ymin: int,
    ymax: int,
    w: int,
    h: int,
) -> Seq<u8>
    decreases k,
{
    if k <= 0 {
        spec_zero_cells(w * h)
    } else {
        crate::raster::spec_fill(
            spec_slice(cs, k - 1, xmin, xmax, ymin, ymax, w, h),
            w,
            spec_scaled(cs[k - 1].view(), xmin, xmax, ymin, ymax, w, h),
        )
    }
}

/// The stacked volume data over the first s sorted elevations: one slice per
/// entry, duplicates included.
pub open spec fn spec_volume(
    zs: Seq<i64>,
    cs: Seq<Contour2D>,
    sorted: Seq<i64>,
    s: int,
    xmin: int,
    xmax: int,
    ymin: int,
    ymax: int,
    w: int,
    h: int,
) -> Seq<u8>
    decreases s,
{
    if s <= 0 {
        Seq::<u8>::empty()
    } else {
        let sel = contours_at_spec(zs, cs, sorted[s - 1]);
        spec_volume(zs, cs, sorted, s - 1, xmin, xmax, ymin, ymax, w, h) + spec_slice(
            sel,
            sel.len() as int,
            xmin,
            xmax,
            ymin,
            ymax,
            w,
            h,
        )
    }
}

impl Structure {
    /// What `to_volume` needs of a structure: every contour has at least one
    /// point and every coordinate is within the raster arithmetic's limit.
    pub open spec fn spec_limits_ok(&self) -> bool {
        &&& forall|c: int|
            0 <= c < self.spec_contours().len() ==> (
            #[trigger] self.spec_contours()[c].view()).len() >= 1
        &&& forall|c: int, p: int|
            0 <= c < self.spec_contours().len() && 0 <= p < self.spec_contours()[c].view().len()
                ==> -STRUCT_COORD_LIMIT <= (#[trigger] self.spec_contours()[c].view()[p]).x
                <= STRUCT_COORD_LIMIT && -STRUCT_COORD_LIMIT
                <= self.spec_contours()[c].view()[p].y <= STRUCT_COORD_LIMIT
    }

    /// Checks the volume-assembly limits: no empty contour, no coordinate
    /// beyond the raster arithmetic's limit.
    pub fn limits_ok(&self) -> (r: bool)
        ensures
            r == self.spec_limits_ok(),
    {
        let nc = self.contours.len();
        let mut c: usize = 0;
        while c < nc
            invariant
                nc == self.spec_contours().len(),
                c <= nc,
                forall|ci: int|
                    0 <= ci < c ==> (#[trigger] self.spec_contours()[ci].view()).len() >= 1,
                forall|ci: int, p: int|
                    0 <= ci < c && 0 <= p < self.spec_contours()[ci].view().len()
                        ==> -STRUCT_COORD_LIMIT <= (
                    #[trigger] self.spec_contours()[ci].view()[p]).x <= STRUCT_COORD_LIMIT
                        && -STRUCT_COORD_LIMIT <= self.spec_contours()[ci].view()[p].y
                        <= STRUCT_COORD_LIMIT,
            decreases nc - c,
        {
            let points = self.contours[c].get_points();
            let np = points.len();
            if np == 0 {
                return false;
            }
            let mut p: usize = 0;
            while p < np
                invariant
                    nc == self.spec_contours().len(),
                    c < nc,
                    np == self.spec_contours()[c as int].view().len(),
                    points@ == self.spec_contours()[c as int].view(),
                    p <= np,
                    forall|pp: int|
                        0 <= pp < p ==> -STRUCT_COORD_LIMIT <= (
                        #[trigger] self.spec_contours()[c as int].view()[pp]).x
                            <= STRUCT_COORD_LIMIT && -STRUCT_COORD_LIMIT
                            <= self.spec_contours()[c as int].view()[pp].y <= STRUCT_COORD_LIMIT,
                decreases np - p,
            {
                let q = points[p];
                if q.x < -STRUCT_COORD_LIMIT || q.x > STRUCT_COORD_LIMIT || q.y
                    < -STRUCT_COORD_LIMIT || q.y > STRUCT_COORD_LIMIT {
                    return false;
                }
                p += 1;
            }
            c += 1;
        }
        true
    }

    /// The raster width the volume assembly uses.
    pub open spec fn spec_raster_nx(&self) -> int {
        spec_raster_dim(
            spec_cs_x_min(self.spec_contours(), self.spec_contours().len() as int),
            spec_cs_x_max(self.spec_contours(), self.spec_contours().len() as int),
        )
    }

    /// The raster height the volume assembly uses.
    pub open spec fn spec_raster_ny(&self) -> int {
        spec_raster_dim(
            spec_cs_y_min(self.spec_contours(), self.spec_contours().len() as int),
            spec_cs_y_max(self.spec_contours(), self.spec_contours().len() as int),
        )
    }

    /// The exact volume data the assembly produces: a pure function of the
    /// structure's contours and elevations.
    pub open spec fn spec_volume_of(&self) -> Seq<u8> {
        spec_volume(
            self.spec_z(),
            self.spec_contours(),
            spec_sorted_z(self.spec_z()),
            self.spec_z().len() as int,
            spec_cs_x_min(self.spec_contours(), self.spec_contours().len() as int),
            spec_cs_x_max(self.spec_contours(), self.spec_contours().len() as int),
            spec_cs_y_min(self.spec_contours(), self.spec_contours().len() as int),
            spec_cs_y_max(self.spec_contours(), self.spec_contours().len() as int),
            self.spec_raster_nx(),
            self.spec_raster_ny(),
        )
    }

    /// Assembles the stacked binary volume: elevations are sorted ascending
    /// and each entry of the sorted elevation list yields one 0/1 mask slice
    /// (all contours stored at that elevation rasterized into a raster at
    /// least 50 cells wide and high), stacked in order. Returns the volume
    /// and the sorted elevation list.
    ///
    /// One slice per list entry, duplicates kept, is deliberate: the mesh
    /// remap addresses slices by fractional index into this same sorted
    /// list, and the extractor consuming the volume demands one slice per
    /// depth index, so merging equal elevations would leave the remap
    /// pointing past the data. A repeated elevation therefore contributes
    /// identical adjacent slices.
    ///
    /// Both results are pinned exactly: the volume data equals
    /// `spec_volume_of` and the elevations equal `spec_sorted_z`, so the
    /// assembly is a pure function of the structure.
    pub fn to_volume(&self) -> (r: (Grid3D<u8>, Vec<i64>))
        requires
            self.wf(),
            self.spec_z().len() >= 1,
            self.spec_limits_ok(),
        ensures
            r.0.wf(),
            r.0.spec_nz() == self.spec_z().len(),
            r.0.spec_nx() >= 50,
            r.0.spec_ny() >= 50,
            forall|i: int|
                0 <= i < r.0.spec_data().len() ==> r.0.spec_data()[i] == 0 || r.0.spec_data()[i]
                    == 1,
            r.1@.len() == self.spec_z().len(),
            forall|a: int, b: int| 0 <= a <= b < r.1@.len() ==> r.1@[a] <= r.1@[b],
            r.1@.to_multiset() == self.spec_z().to_multiset(),
            r.1@ == spec_sorted_z(self.spec_z()),
            r.0.spec_nx() as int == self.spec_raster_nx(),
            r.0.spec_ny() as int == self.spec_raster_ny(),
            r.0.spec_data() == self.spec_volume_of(),
    {
        broadcast use vstd::seq_lib::group_to_multiset_ensures;

        let bb = self.bounding_box();
        proof {
            assert((self.spec_contours()[0].view()).len() > 0);
            assert(has_any_point(self.spec_contours()));
        }
        let xmin = bb[0];
        let xmax = bb[1];
        let ymin = bb[2];
        let ymax = bb[3];

        let wext: i64 = xmax - xmin + 1;
        let wdim: i64 = if wext < 50 {
            50
        } else {
            wext
        };
        let hext: i64 = ymax - ymin + 1;
        let hdim: i64 = if hext < 50 {
            50
        } else {
            hext
        };
        let w: usize = wdim as usize;
        let h: usize = hdim as usize;
        proof {
            assert(w * h <= 0x8001 * 0x8001) by (nonlinear_arith)
                requires
                    50 <= w <= 0x8001,
                    50 <= h <= 0x8001,
            ;
        }

        let sorted_zs = sort_elevations(&self.z);
        let nslices = sorted_zs.len();
        let mut data: Vec<u8> = Vec::new();
        proof {
            assert(data@ =~= spec_volume(
                self.spec_z(),
                self.spec_contours(),
                sorted_zs@,
                0,
                xmin as int,
                xmax as int,
                ymin as int,
                ymax as int,
                wdim as int,
                hdim as int,
            ));
        }
        let mut si: usize = 0;
        while si < nslices
            invariant
                self.wf(),
                self.spec_z().len() >= 1,
                forall|c: int|
                    0 <= c < self.spec_contours().len() ==> (
                    #[trigger] self.spec_contours()[c].view()).len() >= 1,
                forall|c: int, p: int|
                    0 <= c < self.spec_contours().len() && 0 <= p
                        < self.spec_contours()[c].view().len() ==> xmin <= (
                    #[trigger] self.spec_contours()[c].view()[p]).x <= xmax && ymin
                        <= self.spec_contours()[c].view()[p].y <= ymax,
                -STRUCT_COORD_LIMIT <= xmin <= STRUCT_COORD_LIMIT,
                -STRUCT_COORD_LIMIT <= xmax <= STRUCT_COORD_LIMIT,
                -STRUCT_COORD_LIMIT <= ymin <= STRUCT_COORD_LIMIT,
                -STRUCT_COORD_LIMIT <= ymax <= STRUCT_COORD_LIMIT,
                xmin <= xmax,
                ymin <= ymax,
                50 <= wdim <= 0x8001,
                50 <= hdim <= 0x8001,
                w == wdim as usize,
                h == hdim as usize,
                w * h <= usize::MAX,
                nslices == sorted_zs@.len(),
                sorted_zs@.to_multiset() == self.spec_z().to_multiset(),
                si <= nslices,
                data@.len() == w * h * si,
                forall|j: int| 0 <= j < data@.len() ==> data@[j] == 0 || data@[j] == 1,
                xmin as int == spec_cs_x_min(self.spec_contours(), self.spec_contours().len() as int),
                xmax as int == spec_cs_x_max(self.spec_contours(), self.spec_contours().len() as int),
                ymin as int == spec_cs_y_min(self.spec_contours(), self.spec_contours().len() as int),
                ymax as int == spec_cs_y_max(self.spec_contours(), self.spec_contours().len() as int),
                wdim as int == self.spec_raster_nx(),
                hdim as int == self.spec_raster_ny(),
                sorted_zs@ == spec_sorted_z(self.spec_z()),
                data@ == spec_volume(
                    self.spec_z(),
                    self.spec_contours(),
                    sorted_zs@,
                    si as int,
                    xmin as int,
                    xmax as int,
                    ymin as int,
                    ymax as int,
                    wdim as int,
                    hdim as int,
                ),
            decreases nslices - si,
        {
            let z = sorted_zs[si];
            proof {
                sorted_zs@.to_multiset_ensures();
                self.spec_z().to_multiset_ensures();
                assert(sorted_zs@[si as int] == z);
                assert(sorted_zs@.contains(z));
                assert(sorted_zs@.to_multiset().count(z) > 0);
                assert(self.spec_z().contains(z));
            }
            let cs = match self.get_contours_at_impl(z) {
                Some(cs) => cs,
                None => {
                    proof {
                        assert(false);
                    }
                    Vec::new()
                },
            };
            proof {
                lemma_contours_at_subset(self.spec_z(), self.spec_contours(), z);
                assert forall|k: int, p: int|
                    0 <= k < cs@.len() && 0 <= p < cs@[k].view().len() implies xmin <= (
                #[trigger] cs@[k].view()[p]).x <= xmax && ymin <= cs@[k].view()[p].y <= ymax by {
                    let sel = contours_at_spec(self.spec_z(), self.spec_contours(), z);
                    assert(cs@[k].view() == sel[k].view());
                    let cj = choose|ci: int| 0 <= ci < self.spec_contours().len() && #[trigger] sel[k] == self.spec_contours()[ci];
                    assert(self.spec_contours()[cj].view()[p] == cs@[k].view()[p]);
                }
                assert forall|k: int| 0 <= k < cs@.len() implies (#[trigger] cs@[k].view()).len()
                    >= 1 by {
                    let sel = contours_at_spec(self.spec_z(), self.spec_contours(), z);
                    assert(cs@[k].view() == sel[k].view());
                    let cj = choose|ci: int| 0 <= ci < self.spec_contours().len() && #[trigger] sel[k] == self.spec_contours()[ci];
                }
            }
            let mut acc: Grid2D<u8> = Grid2D::new(w, h);
            proof {
                assert forall|cx: int, cy: int|
                    0 <= cx < w && 0 <= cy < h implies acc.spec_at(cx, cy) == 0 by {
                    assert(0 <= (acc.spec_nx() as int) * cy + cx < (acc.spec_nx() as int) * (
                    acc.spec_ny() as int)) by (nonlinear_arith)
                        requires
                            0 <= cx < acc.spec_nx(),
                            0 <= cy < acc.spec_ny(),
                    ;
                }
                assert(acc.spec_data() =~= spec_zero_cells((wdim as int) * (hdim as int)));
            }
            let nc = cs.len();
            let mut ci: usize = 0;
            while ci < nc
                invariant
                    forall|k: int, p: int|
                        0 <= k < cs@.len() && 0 <= p < cs@[k].view().len() ==> xmin <= (
                        #[trigger] cs@[k].view()[p]).x <= xmax && ymin <= cs@[k].view()[p].y
                            <= ymax,
                    forall|k: int| 0 <= k < cs@.len() ==> (#[trigger] cs@[k].view()).len() >= 1,
                    -STRUCT_COORD_LIMIT <= xmin <= STRUCT_COORD_LIMIT,
                    -STRUCT_COORD_LIMIT <= xmax <= STRUCT_COORD_LIMIT,
                    -STRUCT_COORD_LIMIT <= ymin <= STRUCT_COORD_LIMIT,
                    -STRUCT_COORD_LIMIT <= ymax <= STRUCT_COORD_LIMIT,
                    xmin <= xmax,
                    ymin <= ymax,
                    50 <= wdim <= 0x8001,
                    50 <= hdim <= 0x8001,
                    w == wdim as usize,
                    h == hdim as usize,
                    nc == cs@.len(),
                    ci <= nc,
                    acc.wf(),
                    acc.spec_nx() == w,
                    acc.spec_ny() == h,
                    forall|cx: int, cy: int|
                        0 <= cx < w && 0 <= cy < h ==> acc.spec_at(cx, cy) == 0 || acc.spec_at(
                            cx,
                            cy,
                        ) == 1,
                    w == wdim as usize,
                    h == hdim as usize,
                    cs@.len() == contours_at_spec(self.spec_z(), self.spec_contours(), z).len(),
                    forall|k: int|
                        0 <= k < cs@.len() ==> (#[trigger] cs@[k]).view() == contours_at_spec(
                            self.spec_z(),
                            self.spec_contours(),
                            z,
                        )[k].view(),
                    acc.spec_data() == spec_slice(
                        contours_at_spec(self.spec_z(), self.spec_contours(), z),
                        ci as int,
                        xmin as int,
                        xmax as int,
                        ymin as int,
                        ymax as int,
                        wdim as int,
                        hdim as int,
                    ),
                decreases nc - ci,
            {
                let pts = cs[ci].get_points();
                let np = pts.len();
                let mut spts: Vec<Point2D> = Vec::new();
                let mut pi: usize = 0;
                while pi < np
                    invariant
                        forall|k: int, p: int|
                            0 <= k < cs@.len() && 0 <= p < cs@[k].view().len() ==> xmin <= (
                            #[trigger] cs@[k].view()[p]).x <= xmax && ymin <= cs@[k].view()[p].y
                                <= ymax,
                        -STRUCT_COORD_LIMIT <= xmin <= STRUCT_COORD_LIMIT,
                        -STRUCT_COORD_LIMIT <= xmax <= STRUCT_COORD_LIMIT,
                        -STRUCT_COORD_LIMIT <= ymin <= STRUCT_COORD_LIMIT,
                        -STRUCT_COORD_LIMIT <= ymax <= STRUCT_COORD_LIMIT,
                        xmin <= xmax,
                        ymin <= ymax,
                        50 <= wdim <= 0x8001,
                        50 <= hdim <= 0x8001,
                        ci < cs@.len(),
                        np == cs@[ci as int].view().len(),
                        pts@ == cs@[ci as int].view(),
                        pi <= np,
                        spts@.len() == pi,
                        forall|p: int|
                            0 <= p < pi ==> 0 <= (#[trigger] spts@[p]).x < wdim && 0 <= spts@[p].y
                                < hdim,
                        forall|p: int|
                            0 <= p < pi ==> #[trigger] spts@[p] == spec_scaled(
                                cs@[ci as int].view(),
                                xmin as int,
                                xmax as int,
                                ymin as int,
                                ymax as int,
                                wdim as int,
                                hdim as int,
                            )[p],
                    decreases np - pi,
                {
                    let p = pts[pi];
                    let sx = scale_raster_coord(p.x, xmin, xmax, wdim);
                    let sy = scale_raster_coord(p.y, ymin, ymax, hdim);
                    spts.push(Point2D { x: sx, y: sy });
                    pi += 1;
                }
                let scont = Contour2D::from_points(spts);
                let ghost pre_acc = acc;
                acc = fill_contour(acc, &scont);
                proof {
                    assert forall|cx: int, cy: int|
                        0 <= cx < w && 0 <= cy < h implies acc.spec_at(cx, cy) == 0 || acc.spec_at(
                        cx,
                        cy,
                    ) == 1 by {
                        if !crate::raster::in_contour_bbox(scont.view(), cx, cy) {
                            assert(acc.spec_at(cx, cy) == pre_acc.spec_at(cx, cy));
                        }
                    }
                    let sel = contours_at_spec(self.spec_z(), self.spec_contours(), z);
                    assert(scont.view() =~= spec_scaled(
                        cs@[ci as int].view(),
                        xmin as int,
                        xmax as int,
                        ymin as int,
                        ymax as int,
                        wdim as int,
                        hdim as int,
                    ));
                    assert(spec_scaled(
                        cs@[ci as int].view(),
                        xmin as int,
                        xmax as int,
                        ymin as int,
                        ymax as int,
                        wdim as int,
                        hdim as int,
                    ) =~= spec_scaled(
                        sel[ci as int].view(),
                        xmin as int,
                        xmax as int,
                        ymin as int,
                        ymax as int,
                        wdim as int,
                        hdim as int,
                    ));
                    assert(acc.spec_data() == crate::raster::spec_fill(
                        pre_acc.spec_data(),
                        wdim as int,
                        scont.view(),
                    ));
                    assert(spec_slice(
                        sel,
                        ci + 1,
                        xmin as int,
                        xmax as int,
                        ymin as int,
                        ymax as int,
                        wdim as int,
                        hdim as int,
                    ) == crate::raster::spec_fill(
                        spec_slice(
                            sel,
                            ci as int,
                            xmin as int,
                            xmax as int,
                            ymin as int,
                            ymax as int,
                            wdim as int,
                            hdim as int,
                        ),
                        wdim as int,
                        spec_scaled(
                            sel[ci as int].view(),
                            xmin as int,
                            xmax as int,
                            ymin as int,
                            ymax as int,
                            wdim as int,
                            hdim as int,
                        ),
                    ));
                }
                ci += 1;
            }
            let accdata = acc.data();
            let total = accdata.len();
            let ghost slice_base = data@;
            let mut k: usize = 0;
            while k < total
                invariant
                    acc.wf(),
                    acc.spec_nx() == w,
                    acc.spec_ny() == h,
                    50 <= w,
                    50 <= h,
                    total == acc.spec_data().len(),
                    accdata@ == acc.spec_data(),
                    forall|cx: int, cy: int|
                        0 <= cx < w && 0 <= cy < h ==> acc.spec_at(cx, cy) == 0 || acc.spec_at(
                            cx,
                            cy,
                        ) == 1,
                    k <= total,
                    data@.len() == w * h * si + k,
                    forall|j: int| 0 <= j < data@.len() ==> data@[j] == 0 || data@[j] == 1,
                    data@ == slice_base + acc.spec_data().take(k as int),
                    slice_base.len() == w * h * si,
                decreases total - k,
            {
                proof {
                    lemma_flat_cell(w as int, h as int, k as int);
                    let cx = (k as int) % (w as int);
                    let cy = (k as int) / (w as int);
                    assert(acc.spec_at(cx, cy) == acc.spec_data()[k as int]);
                }
                proof {
                    assert(acc.spec_data().take(k + 1) =~= acc.spec_data().take(k as int).push(
                        acc.spec_data()[k as int],
                    ));
                }
                data.push(accdata[k]);
                proof {
                    assert(data@ =~= slice_base + acc.spec_data().take(k + 1));
                }
                k += 1;
            }
            proof {
                assert(acc.spec_data().take(total as int) =~= acc.spec_data());
                let sel = contours_at_spec(self.spec_z(), self.spec_contours(), z);
                assert(spec_volume(
                    self.spec_z(),
                    self.spec_contours(),
                    sorted_zs@,
                    si + 1,
                    xmin as int,
                    xmax as int,
                    ymin as int,
                    ymax as int,
                    wdim as int,
                    hdim as int,
                ) == spec_volume(
                    self.spec_z(),
                    self.spec_contours(),
                    sorted_zs@,
                    si as int,
                    xmin as int,
                    xmax as int,
                    ymin as int,
                    ymax as int,
                    wdim as int,
                    hdim as int,
                ) + spec_slice(
                    sel,
                    sel.len() as int,
                    xmin as int,
                    xmax as int,
                    ymin as int,
                    ymax as int,
                    wdim as int,
                    hdim as int,
                ));
            }
            si += 1;
            proof {
                assert(w * h * si == w * h * (si - 1) + w * h) by (nonlinear_arith)
                    requires
                        si >= 1,
                ;
            }
        }
        let vol = match Grid3D::from_raw_data(&data, w, h, nslices) {
            Some(g) => g,
            None => {
                proof {
                    assert(false);
                }
                Grid3D::new(0, 0, 0)
            },
        };
        (vol, sorted_zs)
    }
}

/// The flat row-major position k of a w-by-h grid addresses the cell
/// (k % w, k / w).
proof fn lemma_flat_cell(w: int, h: int, k: int)
    requires
        w >= 1,
        h >= 1,
        0 <= k < w * h,
    ensures
        0 <= k % w < w,
        0 <= k / w < h,
        w * (k / w) + k % w == k,
{
    vstd::arithmetic::div_mod::lemma_fundamental_div_mod(k, w);
    assert(k == w * (k / w) + k % w);
    assert(0 <= k % w < w) by (nonlinear_arith)
        requires
            w >= 1,
            k >= 0,
    ;
    assert(0 <= k / w < h) by (nonlinear_arith)
        requires
            w >= 1,
            h >= 1,
            0 <= k < w * h,
            k == w * (k / w) + k % w,
            0 <= k % w < w,
    ;
}

} // verus!
