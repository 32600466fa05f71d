//! Canvases: rectangular grids of colours, stored row by row.

use crate::color::Color;
use crate::layout::{lemma_coordinate_of_offset, lemma_offset_in_bounds, lemma_offset_to_coordinate};
use vstd::prelude::*;
use vstd::std_specs::cmp::PartialEqSpecImpl;

verus! {

/// The mathematical value of a canvas: its size and its pixels in row-major
/// order. Contracts speak of canvases through this type.
pub struct Grid {
    pub width: nat,
    pub height: nat,
    pub pixels: Seq<Color>,
}

impl Grid {
    /// A grid holds exactly one pixel for each of its coordinates.
    pub open spec fn wf(self) -> bool {
        self.pixels.len() == self.width * self.height
    }

    /// Whether `(x, y)` is a coordinate of this grid.
    pub open spec fn contains(self, x: int, y: int) -> bool {
        0 <= x < self.width && 0 <= y < self.height
    }

    /// The colour at column `x` of row `y`.
    pub open spec fn at(self, x: int, y: int) -> Color
        recommends
            self.contains(x, y),
    {
        self.pixels[y * self.width + x]
    }

    /// The colour at `(x, y)`, or `fill` where the grid has no such coordinate.
    pub open spec fn at_or(self, x: int, y: int, fill: Color) -> Color {
        if self.contains(x, y) {
            self.at(x, y)
        } else {
            fill
        }
    }

    /// The grid of the given size whose colour at `(x, y)` is `f(x, y)`.
    pub open spec fn build(width: nat, height: nat, f: spec_fn(int, int) -> Color) -> Grid {
        Grid {
            width,
            height,
            pixels: Seq::new(width * height, |i: int| f(i % (width as int), i / (width as int))),
        }
    }

    /// This grid with the colour at `(x, y)` replaced by `color`.
    pub open spec fn put(self, x: int, y: int, color: Color) -> Grid
        recommends
            self.contains(x, y),
    {
        Grid { pixels: self.pixels.update(y * self.width + x, color), ..self }
    }

    /// A built grid is well formed and holds `f(x, y)` at each of its
    /// coordinates.
    pub proof fn lemma_build(width: nat, height: nat, f: spec_fn(int, int) -> Color)
        ensures
            Grid::build(width, height, f).wf(),
            Grid::build(width, height, f).width == width,
            Grid::build(width, height, f).height == height,
            forall|x: int, y: int|
                0 <= x < width && 0 <= y < height ==> #[trigger] Grid::build(width, height, f).at(
                    x,
                    y,
                ) == f(x, y),
    {
        let g = Grid::build(width, height, f);
        assert forall|x: int, y: int| 0 <= x < width && 0 <= y < height implies #[trigger] g.at(
            x,
            y,
        ) == f(x, y) by {
            lemma_offset_in_bounds(x, y, width as int, height as int);
            lemma_offset_to_coordinate(x, y, width as int);
        }
    }

    /// Two well-formed grids of one size that agree at every coordinate are
    /// the same grid.
    pub proof fn lemma_ext(self, other: Grid)
        requires
            self.wf(),
            other.wf(),
            self.width == other.width,
            self.height == other.height,
            forall|x: int, y: int| self.contains(x, y) ==> self.at(x, y) == other.at(x, y),
        ensures
            self == other,
    {
        assert forall|i: int| 0 <= i < self.pixels.len() implies self.pixels[i]
            == other.pixels[i] by {
            lemma_coordinate_of_offset(i, self.width as int, self.height as int);
            let x = i % (self.width as int);
            let y = i / (self.width as int);
            assert(self.contains(x, y));
            assert(self.at(x, y) == other.at(x, y));
        }
        assert(self.pixels =~= other.pixels);
    }

    /// Replacing one colour keeps the size and every other colour.
    pub proof fn lemma_put(self, x: int, y: int, color: Color)
        requires
            self.wf(),
            self.contains(x, y),
        ensures
            self.put(x, y, color).wf(),
            self.put(x, y, color).width == self.width,
            self.put(x, y, color).height == self.height,
            forall|i: int, j: int|
                self.contains(i, j) ==> #[trigger] self.put(x, y, color).at(i, j) == if i == x && j
                    == y {
                    color
                } else {
                    self.at(i, j)
                },
    {
        lemma_offset_in_bounds(x, y, self.width as int, self.height as int);
        lemma_offset_to_coordinate(x, y, self.width as int);
        assert forall|i: int, j: int| self.contains(i, j) implies #[trigger] self.put(
            x,
            y,
            color,
        ).at(i, j) == if i == x && j == y {
            color
        } else {
            self.at(i, j)
        } by {
            lemma_offset_in_bounds(i, j, self.width as int, self.height as int);
            lemma_offset_to_coordinate(i, j, self.width as int);
        }
    }
}

/// A canvas of `width` by `height` pixels.
///
/// A canvas owns its pixels, and always holds one for each coordinate
/// `(x, y)` with `x < width` and `y < height`.
#[derive(Debug)]
pub struct Canvas {
    width: u32,
    height: u32,
    pixels: Vec<Color>,
}

impl View for Canvas {
    type V = Grid;

    closed spec fn view(&self) -> Grid {
        Grid { width: self.width as nat, height: self.height as nat, pixels: self.pixels@ }
    }
}

impl Canvas {
    /// Every canvas is a well-formed grid whose sides fit in `u32` and whose
    /// pixels fit in memory.
    #[verifier::type_invariant]
    pub open spec fn inv(self) -> bool {
        &&& self@.wf()
        &&& self@.width <= u32::MAX
        &&& self@.height <= u32::MAX
        &&& self@.width * self@.height <= usize::MAX
    }

    /// A canvas of the given size with every pixel set to `fill`.
    pub fn new(width: u32, height: u32, fill: Color) -> (canvas: Canvas)
        requires
            width * height <= usize::MAX,
        ensures
            canvas@ == Grid::build(width as nat, height as nat, |x: int, y: int| fill),
    {
        let len = (width as usize) * (height as usize);
        let mut pixels: Vec<Color> = Vec::new();
        while pixels.len() < len
            invariant
                pixels.len() <= len,
                forall|i: int| 0 <= i < pixels.len() ==> pixels[i] == fill,
            decreases len - pixels.len(),
        {
            pixels.push(fill);
        }
        let canvas = Canvas { width, height, pixels };
        assert(canvas@.pixels =~= Grid::build(
            width as nat,
            height as nat,
            |x: int, y: int| fill,
        ).pixels);
        canvas
    }

    /// A canvas of the given size over `pixels`, taken in row-major order.
    ///
    /// Gives `None` exactly when `pixels` does not hold `width * height`
    /// colours.
    pub fn from_pixels(width: u32, height: u32, pixels: Vec<Color>) -> (canvas: Option<Canvas>)
        ensures
            pixels.len() == width * height <==> canvas is Some,
            canvas matches Some(c) ==> c@ == (Grid {
                width: width as nat,
                height: height as nat,
                pixels: pixels@,
            }),
    {
        let area = (width as u64).checked_mul(height as u64);
        match area {
            Some(n) if n == pixels.len() as u64 => Some(Canvas { width, height, pixels }),
            _ => None,
        }
    }

    /// The number of columns.
    pub fn width(&self) -> (w: u32)
        ensures
            w == self@.width,
    {
        self.width
    }

    /// The number of rows.
    pub fn height(&self) -> (h: u32)
        ensures
            h == self@.height,
    {
        self.height
    }

    /// The pixels in row-major order.
    pub fn pixels(&self) -> (pixels: &Vec<Color>)
        ensures
            pixels@ == self@.pixels,
    {
        &self.pixels
    }

    /// The colour at `(x, y)`.
    pub fn get_pixel(&self, x: u32, y: u32) -> (color: Color)
        requires
            self@.contains(x as int, y as int),
        ensures
            color == self@.at(x as int, y as int),
    {
        proof {
            use_type_invariant(self);
            lemma_offset_in_bounds(x as int, y as int, self.width as int, self.height as int);
            assert(self.pixels.len() == self.width * self.height);
            assert(y * self.width + x < self.pixels.len());
        }
        self.pixels[(y as usize) * (self.width as usize) + (x as usize)]
    }

    /// The colour at `(x, y)`, or `fill` where the canvas has no such
    /// coordinate.
    pub fn pixel_or(&self, x: u32, y: u32, fill: Color) -> (color: Color)
        ensures
            color == self@.at_or(x as int, y as int, fill),
    {
        if x < self.width && y < self.height {
            self.get_pixel(x, y)
        } else {
            fill
        }
    }

    /// Replaces the colour at `(x, y)`.
    pub fn put_pixel(&mut self, x: u32, y: u32, color: Color)
        requires
            old(self)@.contains(x as int, y as int),
        ensures
            final(self)@ == old(self)@.put(x as int, y as int, color),
    {
        proof {
            use_type_invariant(&*self);
            lemma_offset_in_bounds(x as int, y as int, self.width as int, self.height as int);
            assert(self.pixels.len() == self.width * self.height);
            assert(y * self.width + x < self.pixels.len());
        }
        let offset = (y as usize) * (self.width as usize) + (x as usize);
        self.pixels[offset] = color;
    }
}

impl Clone for Canvas {
    /// A canvas with the same size and the same pixels.
    fn clone(&self) -> (copy: Canvas)
        ensures
            copy@ == self@,
    {
        proof {
            use_type_invariant(self);
        }
        let mut pixels: Vec<Color> = Vec::new();
        let mut i: usize = 0;
        while i < self.pixels.len()
            invariant
                i <= self.pixels.len(),
                pixels.len() == i,
                forall|j: int| 0 <= j < i ==> pixels[j] == self.pixels[j],
            decreases self.pixels.len() - i,
        {
            pixels.push(self.pixels[i]);
            i += 1;
        }
        assert(pixels@ =~= self.pixels@);
        Canvas { width: self.width, height: self.height, pixels }
    }
}

impl PartialEq for Canvas {
    /// Two canvases are equal when their sizes and all their pixels are.
    fn eq(&self, other: &Canvas) -> (equal: bool) {
        if self.width != other.width || self.height != other.height {
            return false;
        }
        proof {
            use_type_invariant(self);
            use_type_invariant(other);
        }
        let mut i: usize = 0;
        while i < self.pixels.len()
            invariant
                self.pixels.len() == other.pixels.len(),
                i <= self.pixels.len(),
                forall|j: int| 0 <= j < i ==> self.pixels[j] == other.pixels[j],
            decreases self.pixels.len() - i,
        {
            if self.pixels[i] != other.pixels[i] {
                return false;
            }
            i += 1;
        }
        assert(self.pixels@ =~= other.pixels@);
        true
    }
}

impl PartialEqSpecImpl for Canvas {
    open spec fn obeys_eq_spec() -> bool {
        true
    }

    open spec fn eq_spec(&self, other: &Canvas) -> bool {
        self@ == other@
    }
}

impl Eq for Canvas {

}

} // verus!
