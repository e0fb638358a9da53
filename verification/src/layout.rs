//! Screen-tile layout arithmetic for a one-large-three-small view arrangement.

use vstd::prelude::*;

verus! {

/// Something the render loop can draw.
pub trait Rendable {
    fn render(&mut self);
}

/// Assigns a viewport rectangle (x0, y0, width, height) to a view kind.
pub trait Layout<T> {
    fn layout(&self, ty: &T) -> (i32, i32, i32, i32);
}

/// The four views of the canvas.
pub enum CanvasView {
    Transverse,
    Sagittal,
    Coronal,
    ThreeD,
}

/// One maximized square view on the left, three small squares stacked on the
/// right.
pub struct LayoutOneLargeThreeSmall {
    width: i32,
    height: i32,
    maximized: CanvasView,
}

/// The large tile: the full left square.
pub open spec fn spec_large(height: int) -> (int, int, int, int) {
    (0, 0, height, height)
}

/// Small tile n (0 at the top) in the right-hand column.
pub open spec fn spec_small(height: int, n: int) -> (int, int, int, int) {
    let side = if height >= 2 {
        (height - 2) / 3
    } else {
        0
    };
    (height + 1, side * (2 - n) + (2 - n), side, side)
}

impl LayoutOneLargeThreeSmall {
    pub closed spec fn wf(&self) -> bool {
        0 <= self.width <= 0x4000_0000 && 0 <= self.height <= 0x4000_0000
    }

    pub closed spec fn spec_width(&self) -> i32 {
        self.width
    }

    pub closed spec fn spec_height(&self) -> i32 {
        self.height
    }

    pub fn new(width: i32, height: i32, maximized: CanvasView) -> (r: LayoutOneLargeThreeSmall)
        requires
            0 <= width <= 0x4000_0000,
            0 <= height <= 0x4000_0000,
        ensures
            r.wf(),
            r.spec_width() == width,
            r.spec_height() == height,
    {
        LayoutOneLargeThreeSmall { width, height, maximized }
    }

    pub fn set_maximized(&mut self, maximized: CanvasView)
        requires
            old(self).wf(),
        ensures
            final(self).wf(),
            final(self).spec_width() == old(self).spec_width(),
            final(self).spec_height() == old(self).spec_height(),
    {
        self.maximized = maximized;
    }

    pub fn set_width(&mut self, width: i32)
        requires
            old(self).wf(),
            0 <= width <= 0x4000_0000,
        ensures
            final(self).wf(),
            final(self).spec_width() == width,
            final(self).spec_height() == old(self).spec_height(),
    {
        self.width = width;
    }

    pub fn set_height(&mut self, height: i32)
        requires
            old(self).wf(),
            0 <= height <= 0x4000_0000,
        ensures
            final(self).wf(),
            final(self).spec_width() == old(self).spec_width(),
            final(self).spec_height() == height,
    {
        self.height = height;
    }

    fn large(&self) -> (r: (i32, i32, i32, i32))
        requires
            self.wf(),
        ensures
            (r.0 as int, r.1 as int, r.2 as int, r.3 as int) == spec_large(
                self.spec_height() as int,
            ),
    {
        (0, 0, self.height, self.height)
    }

    fn small0(&self) -> (r: (i32, i32, i32, i32))
        requires
            self.wf(),
        ensures
            (r.0 as int, r.1 as int, r.2 as int, r.3 as int) == spec_small(
                self.spec_height() as int,
                0,
            ),
    {
        let side_length: i32 = if self.height >= 2 {
            (self.height - 2) / 3
        } else {
            0
        };
        let x0: i32 = self.height + 1;
        let y0: i32 = side_length * 2 + 2;
        (x0, y0, side_length, side_length)
    }

    fn small1(&self) -> (r: (i32, i32, i32, i32))
        requires
            self.wf(),
        ensures
            (r.0 as int, r.1 as int, r.2 as int, r.3 as int) == spec_small(
                self.spec_height() as int,
                1,
            ),
    {
        let side_length: i32 = if self.height >= 2 {
            (self.height - 2) / 3
        } else {
            0
        };
        let x0: i32 = self.height + 1;
        let y0: i32 = side_length + 1;
        (x0, y0, side_length, side_length)
    }

    fn small2(&self) -> (r: (i32, i32, i32, i32))
        requires
            self.wf(),
        ensures
            (r.0 as int, r.1 as int, r.2 as int, r.3 as int) == spec_small(
                self.spec_height() as int,
                2,
            ),
    {
        let side_length: i32 = if self.height >= 2 {
            (self.height - 2) / 3
        } else {
            0
        };
        let x0: i32 = self.height + 1;
        let y0: i32 = 0;
        (x0, y0, side_length, side_length)
    }
}

impl Layout<CanvasView> for LayoutOneLargeThreeSmall {
    /// The maximized view gets the large square; the others fill the small
    /// column slots in a fixed order.
    fn layout(&self, ty: &CanvasView) -> (i32, i32, i32, i32) {
        if !(0 <= self.width && self.width <= 0x4000_0000 && 0 <= self.height && self.height
            <= 0x4000_0000) {
            return (0, 0, 0, 0);
        }
        match ty {
            CanvasView::Transverse => match self.maximized {
                CanvasView::Transverse => self.large(),
                _ => self.small0(),
            },
            CanvasView::Sagittal => match self.maximized {
                CanvasView::Transverse => self.small0(),
                CanvasView::Sagittal => self.large(),
                _ => self.small1(),
            },
            CanvasView::Coronal => match self.maximized {
                CanvasView::Coronal => self.large(),
                CanvasView::ThreeD => self.small2(),
                _ => self.small1(),
            },
            CanvasView::ThreeD => match self.maximized {
                CanvasView::ThreeD => self.large(),
                _ => self.small2(),
            },
        }
    }
}

} // verus!
