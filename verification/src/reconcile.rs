//! Reconciling dimensions: two canvases of different sizes are extended to
//! the smallest size that holds both, each keeping its own pixels in the
//! top-left corner.

use crate::canvas::{Canvas, Grid};
use crate::color::Color;
use crate::layout::before;
use vstd::prelude::*;

verus! {

impl Grid {
    /// This grid redrawn at another size: its own colours where it has the
    /// coordinate, `fill` elsewhere.
    pub open spec fn resized(self, width: nat, height: nat, fill: Color) -> Grid {
        Grid::build(width, height, |x: int, y: int| self.at_or(x, y, fill))
    }
}

/// The larger of two sides.
pub open spec fn longer(a: nat, b: nat) -> nat {
    if a >= b {
        a
    } else {
        b
    }
}

/// The shorter of two sides.
pub open spec fn shorter(a: nat, b: nat) -> nat {
    if a <= b {
        a
    } else {
        b
    }
}

/// Whether a canvas that holds both grids fits in memory.
pub open spec fn fits_together(a: Grid, b: Grid) -> bool {
    longer(a.width, b.width) * longer(a.height, b.height) <= usize::MAX
}

/// A canvas of `width` by `height` pixels that is filled with `fill` and
/// holds the pixels of `img` in its top-left corner, as far as they fit.
pub fn resize(img: &Canvas, width: u32, height: u32, fill: Color) -> (out: Canvas)
    requires
        width * height <= usize::MAX,
    ensures
        out@ == img@.resized(width as nat, height as nat, fill),
{
    let mut out = Canvas::new(width, height, fill);
    let columns = if img.width() < width {
        img.width()
    } else {
        width
    };
    let rows = if img.height() < height {
        img.height()
    } else {
        height
    };
    let ghost blank = out@;
    proof {
        Grid::lemma_build(width as nat, height as nat, |x: int, y: int| fill);
    }
    let mut y: u32 = 0;
    while y < rows
        invariant
            y <= rows,
            rows <= height,
            rows <= img@.height,
            columns <= width,
            columns <= img@.width,
            out@.wf(),
            out@.width == width,
            out@.height == height,
            forall|i: int, j: int|
                out@.contains(i, j) ==> #[trigger] out@.at(i, j) == if i < columns && j < y {
                    img@.at(i, j)
                } else {
                    fill
                },
        decreases rows - y,
    {
        let mut x: u32 = 0;
        while x < columns
            invariant
                y < rows,
                x <= columns,
                rows <= height,
                rows <= img@.height,
                columns <= width,
                columns <= img@.width,
                out@.wf(),
                out@.width == width,
                out@.height == height,
                forall|i: int, j: int|
                    out@.contains(i, j) ==> #[trigger] out@.at(i, j) == if i < columns && before(
                        i,
                        j,
                        x as int,
                        y as int,
                    ) {
                        img@.at(i, j)
                    } else {
                        fill
                    },
            decreases columns - x,
        {
            let ghost previous = out@;
            let color = img.get_pixel(x, y);
            out.put_pixel(x, y, color);
            proof {
                previous.lemma_put(x as int, y as int, color);
            }
            x += 1;
        }
        y += 1;
    }
    proof {
        let target = img@.resized(width as nat, height as nat, fill);
        Grid::lemma_build(width as nat, height as nat, |x: int, y: int| img@.at_or(x, y, fill));
        out@.lemma_ext(target);
    }
    out
}

/// Extends two canvases to the smallest size that holds both.
///
/// A canvas that already has that size is handed back as it is; the other is
/// redrawn at that size, with `fill` in the added area.
pub fn adjust_dimensions(reference: Canvas, current: Canvas, fill: Color) -> (pair: (
    Canvas,
    Canvas,
))
    requires
        fits_together(reference@, current@),
    ensures
        pair.0@ == reference@.resized(
            longer(reference@.width, current@.width),
            longer(reference@.height, current@.height),
            fill,
        ),
        pair.1@ == current@.resized(
            longer(reference@.width, current@.width),
            longer(reference@.height, current@.height),
            fill,
        ),
        reference@.width == current@.width && reference@.height == current@.height ==> pair.0@
            == reference@ && pair.1@ == current@,
{
    let width = if reference.width() >= current.width() {
        reference.width()
    } else {
        current.width()
    };
    let height = if reference.height() >= current.height() {
        reference.height()
    } else {
        current.height()
    };
    proof {
        use_type_invariant(&reference);
        use_type_invariant(&current);
        reference@.lemma_resized_same(fill);
        current@.lemma_resized_same(fill);
    }
    let reference = if reference.width() == width && reference.height() == height {
        reference
    } else {
        resize(&reference, width, height, fill)
    };
    let current = if current.width() == width && current.height() == height {
        current
    } else {
        resize(&current, width, height, fill)
    };
    (reference, current)
}

impl Grid {
    /// Redrawing a well-formed grid at its own size changes nothing.
    pub proof fn lemma_resized_same(self, fill: Color)
        requires
            self.wf(),
        ensures
            self.resized(self.width, self.height, fill) == self,
    {
        Grid::lemma_build(self.width, self.height, |x: int, y: int| self.at_or(x, y, fill));
        self.lemma_ext(self.resized(self.width, self.height, fill));
    }
}

} // verus!
