//! Dense row-major 2D and 3D grid containers with bounds-checked indexing.

use vstd::prelude::*;

verus! {

/// A cell value a grid can be filled with: any `Copy` type with a zero.
pub trait GridValue: Copy {
    spec fn zero_spec() -> Self;

    fn zero() -> (r: Self)
        ensures
            r == Self::zero_spec(),
    ;
}

impl GridValue for u8 {
    open spec fn zero_spec() -> u8 {
        0u8
    }

    fn zero() -> u8 {
        0u8
    }
}

impl GridValue for u16 {
    open spec fn zero_spec() -> u16 {
        0u16
    }

    fn zero() -> u16 {
        0u16
    }
}

impl GridValue for u32 {
    open spec fn zero_spec() -> u32 {
        0u32
    }

    fn zero() -> u32 {
        0u32
    }
}

impl GridValue for u64 {
    open spec fn zero_spec() -> u64 {
        0u64
    }

    fn zero() -> u64 {
        0u64
    }
}

impl GridValue for i32 {
    open spec fn zero_spec() -> i32 {
        0i32
    }

    fn zero() -> i32 {
        0i32
    }
}

impl GridValue for i64 {
    open spec fn zero_spec() -> i64 {
        0i64
    }

    fn zero() -> i64 {
        0i64
    }
}

impl GridValue for usize {
    open spec fn zero_spec() -> usize {
        0usize
    }

    fn zero() -> usize {
        0usize
    }
}

/// Copies a slice of cells into a fresh vector.
fn copy_cells<T: Copy>(data: &[T]) -> (v: Vec<T>)
    ensures
        v@ == data@,
{
    let mut v = Vec::<T>::new();
    let mut i: usize = 0;
    while i < data.len()
        invariant
            i <= data@.len(),
            v@ == data@.subrange(0, i as int),
        decreases data@.len() - i,
    {
        v.push(data[i]);
        i += 1;
    }
    proof {
        assert(v@ =~= data@);
    }
    v
}

/// Dense 2D grid in row-major order: cell (x, y) lives at `dim[0] * y + x`.
#[derive(Debug, Clone)]
pub struct Grid2D<T> {
    dim: [usize; 2],
    data: Vec<T>,
}

impl<T> Grid2D<T> {
    pub closed spec fn spec_nx(&self) -> usize {
        self.dim[0]
    }

    pub closed spec fn spec_ny(&self) -> usize {
        self.dim[1]
    }

    pub closed spec fn spec_data(&self) -> Seq<T> {
        self.data@
    }

    /// The data vector holds exactly one cell per grid position.
    pub open spec fn wf(&self) -> bool {
        self.spec_data().len() == self.spec_nx() * self.spec_ny()
            && self.spec_nx() * self.spec_ny() <= usize::MAX
    }

    /// Row-major position of cell (x, y).
    pub open spec fn spec_idx(&self, x: int, y: int) -> int {
        self.spec_nx() * y + x
    }

    /// The value stored at cell (x, y).
    pub open spec fn spec_at(&self, x: int, y: int) -> T {
        self.spec_data()[self.spec_idx(x, y)]
    }
}

/// Row-major cell positions of distinct in-range cells are distinct and in range.
proof fn lemma_row_major_2d(nx: int, ny: int, x: int, y: int)
    requires
        0 <= x < nx,
        0 <= y < ny,
    ensures
        0 <= nx * y + x < nx * ny,
        forall|x2: int, y2: int|
            0 <= x2 < nx && 0 <= y2 < ny && (x2 != x || y2 != y) ==> #[trigger] (nx * y2 + x2) != nx
                * y + x,
{
    assert(0 <= nx * y + x < nx * ny) by (nonlinear_arith)
        requires
            0 <= x < nx,
            0 <= y < ny,
    ;
    assert forall|x2: int, y2: int|
        0 <= x2 < nx && 0 <= y2 < ny && (x2 != x || y2 != y) implies #[trigger] (nx * y2 + x2) != nx
        * y + x by {
        assert(nx * y2 + x2 != nx * y + x) by (nonlinear_arith)
            requires
                0 <= x < nx,
                0 <= y < ny,
                0 <= x2 < nx,
                0 <= y2 < ny,
                x2 != x || y2 != y,
        ;
    }
}

impl<T: GridValue> Grid2D<T> {
    /// A fresh nx-by-ny grid with every cell zero.
    pub fn new(nx: usize, ny: usize) -> (g: Grid2D<T>)
        requires
            nx * ny <= usize::MAX,
        ensures
            g.wf(),
            g.spec_nx() == nx,
            g.spec_ny() == ny,
            forall|i: int| 0 <= i < g.spec_data().len() ==> g.spec_data()[i] == T::zero_spec(),
    {
        let size: usize = nx * ny;
        let mut data = Vec::<T>::new();
        while data.len() < size
            invariant
                data.len() <= size,
                forall|i: int| 0 <= i < data.len() ==> data[i] == T::zero_spec(),
            decreases size - data.len(),
        {
            data.push(T::zero());
        }
        Grid2D { dim: [nx, ny], data }
    }

    /// Copies a slice into a grid; rejects a slice whose length is not nx * ny.
    pub fn from_raw_data(data: &[T], nx: usize, ny: usize) -> (g: Option<Grid2D<T>>)
        ensures
            g is Some <==> data@.len() == nx * ny,
            g matches Some(g) ==> g.wf() && g.spec_nx() == nx && g.spec_ny() == ny
                && g.spec_data() == data@,
    {
        let len = data.len();
        match nx.checked_mul(ny) {
            Some(size) => {
                if size == len {
                    Some(Grid2D { dim: [nx, ny], data: copy_cells(data) })
                } else {
                    None
                }
            },
            None => None,
        }
    }

    pub fn dim(&self) -> (d: [usize; 2])
        ensures
            d[0] == self.spec_nx(),
            d[1] == self.spec_ny(),
    {
        self.dim
    }

    pub fn data(&self) -> (d: &Vec<T>)
        ensures
            d@ == self.spec_data(),
    {
        &self.data
    }

    #[inline]
    fn idx(&self, x: usize, y: usize) -> (i: usize)
        requires
            self.wf(),
            x < self.spec_nx(),
            y < self.spec_ny(),
        ensures
            i == self.spec_idx(x as int, y as int),
            i < self.spec_data().len(),
    {
        proof {
            lemma_row_major_2d(self.spec_nx() as int, self.spec_ny() as int, x as int, y as int);
        }
        self.dim[0] * y + x
    }

    #[inline]
    pub fn value_at(&self, x: usize, y: usize) -> (v: T)
        requires
            self.wf(),
            x < self.spec_nx(),
            y < self.spec_ny(),
        ensures
            v == self.spec_at(x as int, y as int),
    {
        let i = self.idx(x, y);
        self.data[i]
    }

    /// Overwrites cell (x, y) and nothing else.
    #[inline]
    pub fn set_value_at(&mut self, x: usize, y: usize, v: &T)
        requires
            old(self).wf(),
            x < old(self).spec_nx(),
            y < old(self).spec_ny(),
        ensures
            final(self).wf(),
            final(self).spec_nx() == old(self).spec_nx(),
            final(self).spec_ny() == old(self).spec_ny(),
            final(self).spec_at(x as int, y as int) == *v,
            final(self).spec_data() == old(self).spec_data().update(
                final(self).spec_idx(x as int, y as int),
                *v,
            ),
            forall|x2: int, y2: int|
                0 <= x2 < final(self).spec_nx() && 0 <= y2 < final(self).spec_ny() && (x2 != x || y2
                    != y) ==> final(self).spec_at(x2, y2) == old(self).spec_at(x2, y2),
    {
        let i = self.idx(x, y);
        self.data.set(i, *v);
        proof {
            assert forall|x2: int, y2: int|
                0 <= x2 < self.spec_nx() && 0 <= y2 < self.spec_ny() && (x2 != x || y2
                    != y) implies self.spec_at(x2, y2) == old(self).spec_at(x2, y2) by {
                lemma_row_major_2d(
                    self.spec_nx() as int,
                    self.spec_ny() as int,
                    x as int,
                    y as int,
                );
                lemma_row_major_2d(self.spec_nx() as int, self.spec_ny() as int, x2, y2);
            }
        }
    }
}

/// Dense 3D grid in row-major order: cell (x, y, z) lives at
/// `dim[0] * dim[1] * z + dim[0] * y + x`.
#[derive(Debug, Clone)]
pub struct Grid3D<T> {
    dim: [usize; 3],
    data: Vec<T>,
}

impl<T> Grid3D<T> {
    pub closed spec fn spec_nx(&self) -> usize {
        self.dim[0]
    }

    pub closed spec fn spec_ny(&self) -> usize {
        self.dim[1]
    }

    pub closed spec fn spec_nz(&self) -> usize {
        self.dim[2]
    }

    pub closed spec fn spec_data(&self) -> Seq<T> {
        self.data@
    }

    /// The data vector holds exactly one cell per grid position.
    pub open spec fn wf(&self) -> bool {
        self.spec_data().len() == self.spec_nx() * self.spec_ny() * self.spec_nz()
            && self.spec_nx() * self.spec_ny() * self.spec_nz() <= usize::MAX
    }

    /// Row-major position of cell (x, y, z).
    pub open spec fn spec_idx(&self, x: int, y: int, z: int) -> int {
        self.spec_nx() * self.spec_ny() * z + self.spec_nx() * y + x
    }

    /// The value stored at cell (x, y, z).
    pub open spec fn spec_at(&self, x: int, y: int, z: int) -> T {
        self.spec_data()[self.spec_idx(x, y, z)]
    }
}

/// Row-major positions of distinct in-range 3D cells are distinct and in range.
proof fn lemma_row_major_3d(nx: int, ny: int, nz: int, x: int, y: int, z: int)
    requires
        0 <= x < nx,
        0 <= y < ny,
        0 <= z < nz,
    ensures
        0 <= nx * ny * z + nx * y + x < nx * ny * nz,
        forall|x2: int, y2: int, z2: int|
            0 <= x2 < nx && 0 <= y2 < ny && 0 <= z2 < nz && (x2 != x || y2 != y || z2 != z)
                ==> #[trigger] (nx * ny * z2 + nx * y2 + x2) != nx * ny * z + nx * y + x,
{
    assert(0 <= nx * ny * z + nx * y + x < nx * ny * nz) by (nonlinear_arith)
        requires
            0 <= x < nx,
            0 <= y < ny,
            0 <= z < nz,
    ;
    assert forall|x2: int, y2: int, z2: int|
        0 <= x2 < nx && 0 <= y2 < ny && 0 <= z2 < nz && (x2 != x || y2 != y || z2 != z)
            implies #[trigger] (nx * ny * z2 + nx * y2 + x2) != nx * ny * z + nx * y + x by {
        assert(nx * ny * z2 + nx * y2 + x2 != nx * ny * z + nx * y + x) by (nonlinear_arith)
            requires
                0 <= x < nx,
                0 <= y < ny,
                0 <= z < nz,
                0 <= x2 < nx,
                0 <= y2 < ny,
                0 <= z2 < nz,
                x2 != x || y2 != y || z2 != z,
        ;
    }
}

impl<T: GridValue> Grid3D<T> {
    /// A fresh nx-by-ny-by-nz grid with every cell zero.
    pub fn new(nx: usize, ny: usize, nz: usize) -> (g: Grid3D<T>)
        requires
            nx * ny * nz <= usize::MAX,
        ensures
            g.wf(),
            g.spec_nx() == nx,
            g.spec_ny() == ny,
            g.spec_nz() == nz,
            forall|i: int| 0 <= i < g.spec_data().len() ==> g.spec_data()[i] == T::zero_spec(),
    {
        proof {
            assert(nx * ny <= nx * ny * nz || nz == 0) by (nonlinear_arith);
            if nz == 0 {
                assert(nx * ny * nz == 0) by (nonlinear_arith)
                    requires
                        nz == 0,
                ;
            }
        }
        let size: usize = if nz == 0 {
            0
        } else {
            proof {
                assert(nx * ny <= nx * ny * nz) by (nonlinear_arith)
                    requires
                        nz >= 1,
                ;
            }
            (nx * ny) * nz
        };
        let mut data = Vec::<T>::new();
        while data.len() < size
            invariant
                data.len() <= size,
                forall|i: int| 0 <= i < data.len() ==> data[i] == T::zero_spec(),
            decreases size - data.len(),
        {
            data.push(T::zero());
        }
        Grid3D { dim: [nx, ny, nz], data }
    }

    /// Copies a slice into a grid; rejects a slice whose length is not
    /// nx * ny * nz.
    pub fn from_raw_data(data: &[T], nx: usize, ny: usize, nz: usize) -> (g: Option<Grid3D<T>>)
        ensures
            g is Some <==> data@.len() == nx * ny * nz,
            g matches Some(g) ==> g.wf() && g.spec_nx() == nx && g.spec_ny() == ny
                && g.spec_nz() == nz && g.spec_data() == data@,
    {
        let len = data.len();
        if nz == 0 {
            proof {
                assert(nx * ny * nz == 0) by (nonlinear_arith)
                    requires
                        nz == 0,
                ;
            }
            if len == 0 {
                Some(Grid3D { dim: [nx, ny, nz], data: copy_cells(data) })
            } else {
                None
            }
        } else {
            match nx.checked_mul(ny) {
                Some(nxy) => {
                    match nxy.checked_mul(nz) {
                        Some(size) => {
                            if size == len {
                                Some(Grid3D { dim: [nx, ny, nz], data: copy_cells(data) })
                            } else {
                                None
                            }
                        },
                        None => None,
                    }
                },
                None => {
                    proof {
                        assert(nx * ny * nz >= nx * ny) by (nonlinear_arith)
                            requires
                                nz >= 1,
                        ;
                    }
                    None
                },
            }
        }
    }

    pub fn dim(&self) -> (d: [usize; 3])
        ensures
            d[0] == self.spec_nx(),
            d[1] == self.spec_ny(),
            d[2] == self.spec_nz(),
    {
        self.dim
    }

    pub fn data(&self) -> (d: &Vec<T>)
        ensures
            d@ == self.spec_data(),
    {
        &self.data
    }

    #[inline]
    fn idx(&self, x: usize, y: usize, z: usize) -> (i: usize)
        requires
            self.wf(),
            x < self.spec_nx(),
            y < self.spec_ny(),
            z < self.spec_nz(),
        ensures
            i == self.spec_idx(x as int, y as int, z as int),
            i < self.spec_data().len(),
    {
        proof {
            lemma_row_major_3d(
                self.spec_nx() as int,
                self.spec_ny() as int,
                self.spec_nz() as int,
                x as int,
                y as int,
                z as int,
            );
            assert(self.spec_nx() * self.spec_ny() * z <= self.spec_nx() * self.spec_ny()
                * self.spec_nz() && self.spec_nx() * self.spec_ny() <= self.spec_nx()
                * self.spec_ny() * self.spec_nz() && self.spec_nx() * y <= self.spec_nx()
                * self.spec_ny()) by (nonlinear_arith)
                requires
                    0 <= z < self.spec_nz(),
                    0 <= y < self.spec_ny(),
            ;
        }
        (self.dim[0] * self.dim[1]) * z + self.dim[0] * y + x
    }

    #[inline]
    pub fn value_at(&self, x: usize, y: usize, z: usize) -> (v: T)
        requires
            self.wf(),
            x < self.spec_nx(),
            y < self.spec_ny(),
            z < self.spec_nz(),
        ensures
            v == self.spec_at(x as int, y as int, z as int),
    {
        let i = self.idx(x, y, z);
        self.data[i]
    }

    /// Overwrites cell (x, y, z) and nothing else.
    #[inline]
    pub fn set_value_at(&mut self, x: usize, y: usize, z: usize, v: &T)
        requires
            old(self).wf(),
            x < old(self).spec_nx(),
            y < old(self).spec_ny(),
            z < old(self).spec_nz(),
        ensures
            final(self).wf(),
            final(self).spec_nx() == old(self).spec_nx(),
            final(self).spec_ny() == old(self).spec_ny(),
            final(self).spec_nz() == old(self).spec_nz(),
            final(self).spec_at(x as int, y as int, z as int) == *v,
            forall|x2: int, y2: int, z2: int|
                0 <= x2 < final(self).spec_nx() && 0 <= y2 < final(self).spec_ny() && 0 <= z2
                    < final(self).spec_nz() && (x2 != x || y2 != y || z2 != z)
                    ==> final(self).spec_at(x2, y2, z2) == old(self).spec_at(x2, y2, z2),
    {
        proof {
            lemma_row_major_3d(
                self.spec_nx() as int,
                self.spec_ny() as int,
                self.spec_nz() as int,
                x as int,
                y as int,
                z as int,
            );
        }
        let i = self.idx(x, y, z);
        self.data.set(i, *v);
        proof {
            assert forall|x2: int, y2: int, z2: int|
                0 <= x2 < self.spec_nx() && 0 <= y2 < self.spec_ny() && 0 <= z2 < self.spec_nz()
                    && (x2 != x || y2 != y || z2 != z) implies self.spec_at(x2, y2, z2) == old(
                self,
            ).spec_at(x2, y2, z2) by {
                lemma_row_major_3d(
                    self.spec_nx() as int,
                    self.spec_ny() as int,
                    self.spec_nz() as int,
                    x as int,
                    y as int,
                    z as int,
                );
                lemma_row_major_3d(
                    self.spec_nx() as int,
                    self.spec_ny() as int,
                    self.spec_nz() as int,
                    x2,
                    y2,
                    z2,
                );
            }
        }
    }

    /// The xy-plane slice at height z, as a 2D grid.
    #[inline]
    pub fn slice_xy_at(&self, z: usize) -> (g: Grid2D<T>)
        requires
            self.wf(),
            z < self.spec_nz(),
        ensures
            g.wf(),
            g.spec_nx() == self.spec_nx(),
            g.spec_ny() == self.spec_ny(),
            forall|x: int, y: int|
                0 <= x < g.spec_nx() && 0 <= y < g.spec_ny()
                    ==> g.spec_at(x, y) == self.spec_at(x, y, z as int),
    {
        let nx = self.dim[0];
        let ny = self.dim[1];
        proof {
            assert(nx * ny <= nx * ny * self.spec_nz()) by (nonlinear_arith)
                requires
                    self.spec_nz() >= 1,
                    nx == self.spec_nx(),
                    ny == self.spec_ny(),
            ;
        }
        let mut g: Grid2D<T> = Grid2D::new(nx, ny);
        let mut y: usize = 0;
        while y < ny
            invariant
                self.wf(),
                g.wf(),
                z < self.spec_nz(),
                nx == self.spec_nx(),
                ny == self.spec_ny(),
                g.spec_nx() == nx,
                g.spec_ny() == ny,
                y <= ny,
                forall|x2: int, y2: int|
                    0 <= x2 < nx && 0 <= y2 < y ==> g.spec_at(x2, y2) == self.spec_at(
                        x2,
                        y2,
                        z as int,
                    ),
            decreases ny - y,
        {
            let mut x: usize = 0;
            while x < nx
                invariant
                    self.wf(),
                    g.wf(),
                    z < self.spec_nz(),
                    nx == self.spec_nx(),
                    ny == self.spec_ny(),
                    g.spec_nx() == nx,
                    g.spec_ny() == ny,
                    y < ny,
                    x <= nx,
                    forall|x2: int, y2: int|
                        0 <= x2 < nx && 0 <= y2 < y ==> g.spec_at(x2, y2) == self.spec_at(
                            x2,
                            y2,
                            z as int,
                        ),
                    forall|x2: int|
                        0 <= x2 < x ==> g.spec_at(x2, y as int) == self.spec_at(
                            x2,
                            y as int,
                            z as int,
                        ),
                decreases nx - x,
            {
                let v = self.value_at(x, y, z);
                g.set_value_at(x, y, &v);
                x += 1;
            }
            y += 1;
        }
        g
    }

    /// The yz-plane slice at width x, as a 2D grid (y indexes rows, z columns).
    #[inline]
    pub fn slice_yz_at(&self, x: usize) -> (g: Grid2D<T>)
        requires
            self.wf(),
            x < self.spec_nx(),
        ensures
            g.wf(),
            g.spec_nx() == self.spec_ny(),
            g.spec_ny() == self.spec_nz(),
            forall|y: int, z: int|
                0 <= y < g.spec_nx() && 0 <= z < g.spec_ny()
                    ==> g.spec_at(y, z) == self.spec_at(x as int, y, z),
    {
        let ny = self.dim[1];
        let nz = self.dim[2];
        proof {
            assert(ny * nz <= usize::MAX) by (nonlinear_arith)
                requires
                    self.spec_nx() * self.spec_ny() * self.spec_nz() <= usize::MAX,
                    self.spec_nx() >= 1,
                    ny == self.spec_ny(),
                    nz == self.spec_nz(),
            ;
        }
        let mut g: Grid2D<T> = Grid2D::new(ny, nz);
        let mut z: usize = 0;
        while z < nz
            invariant
                self.wf(),
                g.wf(),
                x < self.spec_nx(),
                ny == self.spec_ny(),
                nz == self.spec_nz(),
                g.spec_nx() == ny,
                g.spec_ny() == nz,
                z <= nz,
                forall|y2: int, z2: int|
                    0 <= y2 < ny && 0 <= z2 < z ==> g.spec_at(y2, z2) == self.spec_at(
                        x as int,
                        y2,
                        z2,
                    ),
            decreases nz - z,
        {
            let mut y: usize = 0;
            while y < ny
                invariant
                    self.wf(),
                    g.wf(),
                    x < self.spec_nx(),
                    ny == self.spec_ny(),
                    nz == self.spec_nz(),
                    g.spec_nx() == ny,
                    g.spec_ny() == nz,
                    z < nz,
                    y <= ny,
                    forall|y2: int, z2: int|
                        0 <= y2 < ny && 0 <= z2 < z ==> g.spec_at(y2, z2) == self.spec_at(
                            x as int,
                            y2,
                            z2,
                        ),
                    forall|y2: int|
                        0 <= y2 < y ==> g.spec_at(y2, z as int) == self.spec_at(
                            x as int,
                            y2,
                            z as int,
                        ),
                decreases ny - y,
            {
                let v = self.value_at(x, y, z);
                g.set_value_at(y, z, &v);
                y += 1;
            }
            z += 1;
        }
        g
    }

    /// The xz-plane slice at depth y, as a 2D grid (x indexes rows, z columns).
    #[inline]
    pub fn slice_xz_at(&self, y: usize) -> (g: Grid2D<T>)
        requires
            self.wf(),
            y < self.spec_ny(),
        ensures
            g.wf(),
            g.spec_nx() == self.spec_nx(),
            g.spec_ny() == self.spec_nz(),
            forall|x: int, z: int|
                0 <= x < g.spec_nx() && 0 <= z < g.spec_ny()
                    ==> g.spec_at(x, z) == self.spec_at(x, y as int, z),
    {
        let nx = self.dim[0];
        let nz = self.dim[2];
        proof {
            assert(nx * nz <= usize::MAX) by (nonlinear_arith)
                requires
                    self.spec_nx() * self.spec_ny() * self.spec_nz() <= usize::MAX,
                    self.spec_ny() >= 1,
                    nx == self.spec_nx(),
                    nz == self.spec_nz(),
            ;
        }
        let mut g: Grid2D<T> = Grid2D::new(nx, nz);
        let mut z: usize = 0;
        while z < nz
            invariant
                self.wf(),
                g.wf(),
                y < self.spec_ny(),
                nx == self.spec_nx(),
                nz == self.spec_nz(),
                g.spec_nx() == nx,
                g.spec_ny() == nz,
                z <= nz,
                forall|x2: int, z2: int|
                    0 <= x2 < nx && 0 <= z2 < z ==> g.spec_at(x2, z2) == self.spec_at(
                        x2,
                        y as int,
                        z2,
                    ),
            decreases nz - z,
        {
            let mut x: usize = 0;
            while x < nx
                invariant
                    self.wf(),
                    g.wf(),
                    y < self.spec_ny(),
                    nx == self.spec_nx(),
                    nz == self.spec_nz(),
                    g.spec_nx() == nx,
                    g.spec_ny() == nz,
                    z < nz,
                    x <= nx,
                    forall|x2: int, z2: int|
                        0 <= x2 < nx && 0 <= z2 < z ==> g.spec_at(x2, z2) == self.spec_at(
                            x2,
                            y as int,
                            z2,
                        ),
                    forall|x2: int|
                        0 <= x2 < x ==> g.spec_at(x2, z as int) == self.spec_at(
                            x2,
                            y as int,
                            z as int,
                        ),
                decreases nx - x,
            {
                let v = self.value_at(x, y, z);
                g.set_value_at(x, z, &v);
                x += 1;
            }
            z += 1;
        }
        g
    }
}

} // verus!
