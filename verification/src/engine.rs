//! The diff engine: it tells whether two canvases are identical and, where
//! they are not, paints the coordinates at which they differ over the
//! reference.

use crate::canvas::{Canvas, Grid};
use crate::color::{blend_over, composed, overlay_color, transparent, Color};
use crate::difference::{difference, differing, outside, DifferenceSet};
use crate::layout::before;
use crate::reconcile::{adjust_dimensions, fits_together, longer, shorter};
use vstd::prelude::*;

verus! {

/// How differences are shown.
///
/// An alpha-aware engine blends the highlight over the reference and fills
/// added area with transparency. An opaque engine replaces each differing
/// pixel by the highlight, and counts every coordinate that one of the two
/// canvases lacks as a difference.
#[derive(Clone, Copy, Debug)]
pub struct DiffEngine {
    pub highlight_color: Color,
    pub alpha_aware: bool,
}

/// The outcome of a comparison.
#[derive(Debug)]
pub enum DiffResult {
    /// The two canvases have the same size and the same pixels.
    Identical,
    /// The canvases differ; the image shows where.
    Different(Canvas),
}

impl View for DiffResult {
    type V = Option<Grid>;

    open spec fn view(&self) -> Option<Grid> {
        match self {
            DiffResult::Identical => None,
            DiffResult::Different(image) => Some(image@),
        }
    }
}

impl DiffEngine {
    /// The engine that blends the default highlight over the reference.
    pub open spec fn standard() -> DiffEngine {
        DiffEngine { highlight_color: overlay_color(), alpha_aware: true }
    }

    /// The colour of the area that is added to the smaller canvas.
    pub open spec fn fill(self) -> Color {
        if self.alpha_aware {
            transparent()
        } else {
            self.highlight_color
        }
    }

    /// The colour that shows a difference at a pixel of colour `base`.
    pub open spec fn painted(self, base: Color) -> Color {
        if self.alpha_aware {
            composed(base, self.highlight_color)
        } else {
            self.highlight_color
        }
    }

    /// `base` with the colours at the coordinates in `marks` painted.
    pub open spec fn composited(self, base: Grid, marks: Set<(int, int)>) -> Grid {
        Grid::build(
            base.width,
            base.height,
            |x: int, y: int|
                if marks.contains((x, y)) {
                    self.painted(base.at(x, y))
                } else {
                    base.at(x, y)
                },
        )
    }

    /// `grid` at the size that holds both `grid` and `other`.
    pub open spec fn extended(self, grid: Grid, other: Grid) -> Grid {
        grid.resized(
            longer(grid.width, other.width),
            longer(grid.height, other.height),
            self.fill(),
        )
    }

    /// The coordinates that the engine counts as different: those at which
    /// the extended canvases disagree and, for an opaque engine, also those
    /// that one of the two canvases lacks.
    pub open spec fn marked(self, reference: Grid, current: Grid) -> Set<(int, int)> {
        let found = differing(
            self.extended(reference, current),
            self.extended(current, reference),
        );
        if self.alpha_aware {
            found
        } else {
            found.union(
                outside(
                    longer(reference.width, current.width),
                    longer(reference.height, current.height),
                    shorter(reference.width, current.width),
                    shorter(reference.height, current.height),
                ),
            )
        }
    }

    /// The image that shows the differences: the extended reference with
    /// every marked coordinate painted.
    pub open spec fn diff_image(self, reference: Grid, current: Grid) -> Grid {
        self.composited(self.extended(reference, current), self.marked(reference, current))
    }

    /// What a comparison yields: nothing for identical canvases, the
    /// difference image otherwise.
    pub open spec fn verdict(self, reference: Grid, current: Grid) -> Option<Grid> {
        if reference == current {
            None
        } else {
            Some(self.diff_image(reference, current))
        }
    }

    /// An engine with the given highlight and mode.
    pub fn new(highlight_color: Color, alpha_aware: bool) -> (engine: DiffEngine)
        ensures
            engine == (DiffEngine { highlight_color, alpha_aware }),
    {
        DiffEngine { highlight_color, alpha_aware }
    }

    /// The colour of added area.
    pub fn fill_color(&self) -> (color: Color)
        ensures
            color == self.fill(),
    {
        if self.alpha_aware {
            Color::transparent()
        } else {
            self.highlight_color
        }
    }

    /// Paints the highlight onto one pixel.
    pub fn paint(&self, base: Color) -> (color: Color)
        ensures
            color == self.painted(base),
    {
        if self.alpha_aware {
            blend_over(base, self.highlight_color)
        } else {
            self.highlight_color
        }
    }

    /// Paints the highlight onto `base` at every coordinate in `marks`.
    ///
    /// The result has the size of `base`. Coordinates in `marks` that `base`
    /// does not have are passed over.
    pub fn composite(&self, base: Canvas, marks: &DifferenceSet) -> (image: Canvas)
        ensures
            image@ == self.composited(base@, marks@),
    {
        let ghost untouched = base@;
        proof {
            use_type_invariant(&base);
        }
        let mut image = base;
        let width = image.width();
        let height = image.height();
        let mut y: u32 = 0;
        while y < height
            invariant
                y <= height,
                untouched.wf(),
                image@.wf(),
                image@.width == untouched.width == width,
                image@.height == untouched.height == height,
                forall|i: int, j: int|
                    untouched.contains(i, j) ==> #[trigger] image@.at(i, j) == if j < y
                        && marks@.contains((i, j)) {
                        self.painted(untouched.at(i, j))
                    } else {
                        untouched.at(i, j)
                    },
            decreases height - y,
        {
            let mut x: u32 = 0;
            while x < width
                invariant
                    y < height,
                    x <= width,
                    untouched.wf(),
                    image@.wf(),
                    image@.width == untouched.width == width,
                    image@.height == untouched.height == height,
                    forall|i: int, j: int|
                        untouched.contains(i, j) ==> #[trigger] image@.at(i, j) == if before(
                            i,
                            j,
                            x as int,
                            y as int,
                        ) && marks@.contains((i, j)) {
                            self.painted(untouched.at(i, j))
                        } else {
                            untouched.at(i, j)
                        },
                decreases width - x,
            {
                if marks.contains(x, y) {
                    let ghost previous = image@;
                    let color = self.paint(image.get_pixel(x, y));
                    image.put_pixel(x, y, color);
                    proof {
                        previous.lemma_put(x as int, y as int, color);
                    }
                }
                x += 1;
            }
            y += 1;
        }
        proof {
            let paint = |x: int, y: int|
                if marks@.contains((x, y)) {
                    self.painted(untouched.at(x, y))
                } else {
                    untouched.at(x, y)
                };
            Grid::lemma_build(untouched.width, untouched.height, paint);
            image@.lemma_ext(self.composited(untouched, marks@));
        }
        image
    }

    /// Compares `current` with `reference`.
    ///
    /// Canvases of the same size with the same pixels are `Identical`. For
    /// any others the result is the reference, extended to the size that
    /// holds both canvases, with every differing coordinate painted.
    pub fn compare(&self, reference: Canvas, current: Canvas) -> (result: DiffResult)
        requires
            fits_together(reference@, current@),
        ensures
            result@ == self.verdict(reference@, current@),
    {
        if reference == current {
            return DiffResult::Identical;
        }
        let shared_width = if reference.width() <= current.width() {
            reference.width()
        } else {
            current.width()
        };
        let shared_height = if reference.height() <= current.height() {
            reference.height()
        } else {
            current.height()
        };
        let (base, other) = adjust_dimensions(reference, current, self.fill_color());
        proof {
            Grid::lemma_build(
                longer(reference@.width, current@.width),
                longer(reference@.height, current@.height),
                |x: int, y: int| reference@.at_or(x, y, self.fill()),
            );
            Grid::lemma_build(
                longer(reference@.width, current@.width),
                longer(reference@.height, current@.height),
                |x: int, y: int| current@.at_or(x, y, self.fill()),
            );
        }
        let mut marks = difference(&base, &other);
        if !self.alpha_aware {
            marks.mark_outside(shared_width, shared_height);
        }
        DiffResult::Different(self.composite(base, &marks))
    }
}

impl Default for DiffEngine {
    /// The engine that blends the default highlight over the reference.
    fn default() -> (engine: DiffEngine)
        ensures
            engine == DiffEngine::standard(),
    {
        DiffEngine { highlight_color: Color::overlay(), alpha_aware: true }
    }
}

/// Compares `current` with `reference` and shows the differences in
/// semi-transparent red over the reference.
pub fn compare(reference: Canvas, current: Canvas) -> (result: DiffResult)
    requires
        fits_together(reference@, current@),
    ensures
        result@ == DiffEngine::standard().verdict(reference@, current@),
{
    DiffEngine::default().compare(reference, current)
}

} // verus!
