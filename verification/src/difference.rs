//! Comparing pixels: the set of coordinates at which two canvases of one size
//! show different colours.

use crate::canvas::{Canvas, Grid};
use crate::layout::{before, lemma_offset_in_bounds, lemma_offset_to_coordinate};
use vstd::prelude::*;

verus! {

/// The coordinates at which two grids of one size disagree.
pub open spec fn differing(a: Grid, b: Grid) -> Set<(int, int)> {
    Set::new(|c: (int, int)| a.contains(c.0, c.1) && a.at(c.0, c.1) != b.at(c.0, c.1))
}

/// The coordinates of a `width` by `height` grid that lie outside its
/// top-left `inner_width` by `inner_height` corner.
pub open spec fn outside(width: nat, height: nat, inner_width: nat, inner_height: nat) -> Set<
    (int, int),
> {
    Set::new(
        |c: (int, int)|
            0 <= c.0 < width && 0 <= c.1 < height && !(c.0 < inner_width && c.1 < inner_height),
    )
}

/// A set of coordinates of a canvas of a given size.
#[derive(Debug)]
pub struct DifferenceSet {
    width: u32,
    height: u32,
    marks: Vec<bool>,
}

impl View for DifferenceSet {
    type V = Set<(int, int)>;

    closed spec fn view(&self) -> Set<(int, int)> {
        Set::new(
            |c: (int, int)|
                0 <= c.0 < self.width && 0 <= c.1 < self.height && self.marks@[c.1 * self.width
                    + c.0],
        )
    }
}

impl DifferenceSet {
    /// A set keeps one mark for each coordinate of its canvas.
    #[verifier::type_invariant]
    closed spec fn inv(self) -> bool {
        self.marks.len() == self.width * self.height
    }

    /// The width of the canvas whose coordinates the set holds.
    pub closed spec fn spec_width(self) -> nat {
        self.width as nat
    }

    /// The height of the canvas whose coordinates the set holds.
    pub closed spec fn spec_height(self) -> nat {
        self.height as nat
    }

    /// The empty set of coordinates of a `width` by `height` canvas.
    pub fn new(width: u32, height: u32) -> (set: DifferenceSet)
        requires
            width * height <= usize::MAX,
        ensures
            set@ == Set::<(int, int)>::empty(),
            set.spec_width() == width,
            set.spec_height() == height,
    {
        let len = (width as usize) * (height as usize);
        let mut marks: Vec<bool> = Vec::new();
        while marks.len() < len
            invariant
                marks.len() <= len,
                forall|i: int| 0 <= i < marks.len() ==> !marks[i],
            decreases len - marks.len(),
        {
            marks.push(false);
        }
        let set = DifferenceSet { width, height, marks };
        proof {
            assert forall|c: (int, int)| !set@.contains(c) by {
                if 0 <= c.0 < width && 0 <= c.1 < height {
                    lemma_offset_in_bounds(c.0, c.1, width as int, height as int);
                }
            }
            assert(set@ =~= Set::<(int, int)>::empty());
        }
        set
    }

    /// The width of the canvas whose coordinates the set holds.
    pub fn width(&self) -> (w: u32)
        ensures
            w == self.spec_width(),
    {
        self.width
    }

    /// The height of the canvas whose coordinates the set holds.
    pub fn height(&self) -> (h: u32)
        ensures
            h == self.spec_height(),
    {
        self.height
    }

    /// Whether the set holds `(x, y)`.
    pub fn contains(&self, x: u32, y: u32) -> (found: bool)
        ensures
            found == self@.contains((x as int, y as int)),
    {
        if x < self.width && y < self.height {
            proof {
                use_type_invariant(self);
                lemma_offset_in_bounds(x as int, y as int, self.width as int, self.height as int);
                assert(self.marks.len() == self.width * self.height);
                assert(y * self.width + x < self.marks.len());
            }
            self.marks[(y as usize) * (self.width as usize) + (x as usize)]
        } else {
            false
        }
    }

    /// Adds `(x, y)` to the set.
    pub fn insert(&mut self, x: u32, y: u32)
        requires
            x < old(self).spec_width(),
            y < old(self).spec_height(),
        ensures
            final(self)@ == old(self)@.insert((x as int, y as int)),
            final(self).spec_width() == old(self).spec_width(),
            final(self).spec_height() == old(self).spec_height(),
    {
        proof {
            use_type_invariant(&*self);
            lemma_offset_in_bounds(x as int, y as int, self.width as int, self.height as int);
            assert(self.marks.len() == self.width * self.height);
            assert(y * self.width + x < self.marks.len());
        }
        let offset = (y as usize) * (self.width as usize) + (x as usize);
        self.marks[offset] = true;
        proof {
            let width = self.width as int;
            assert forall|c: (int, int)| final(self)@.contains(c) <==> old(self)@.insert(
                (x as int, y as int),
            ).contains(c) by {
                if 0 <= c.0 < self.width && 0 <= c.1 < self.height {
                    lemma_offset_in_bounds(c.0, c.1, width, self.height as int);
                    lemma_offset_to_coordinate(c.0, c.1, width);
                    lemma_offset_to_coordinate(x as int, y as int, width);
                }
            }
            assert(final(self)@ =~= old(self)@.insert((x as int, y as int)));
        }
    }

    /// Adds every coordinate outside the top-left `inner_width` by
    /// `inner_height` corner of the canvas.
    pub fn mark_outside(&mut self, inner_width: u32, inner_height: u32)
        ensures
            final(self)@ == old(self)@.union(
                outside(
                    old(self).spec_width(),
                    old(self).spec_height(),
                    inner_width as nat,
                    inner_height as nat,
                ),
            ),
            final(self).spec_width() == old(self).spec_width(),
            final(self).spec_height() == old(self).spec_height(),
    {
        let width = self.width;
        let height = self.height;
        let ghost initial = self@;
        let ghost added = outside(
            width as nat,
            height as nat,
            inner_width as nat,
            inner_height as nat,
        );
        let mut y: u32 = 0;
        while y < height
            invariant
                y <= height,
                self.spec_width() == width,
                self.spec_height() == height,
                added == outside(
                    width as nat,
                    height as nat,
                    inner_width as nat,
                    inner_height as nat,
                ),
                forall|c: (int, int)|
                    self@.contains(c) <==> initial.contains(c) || (added.contains(c) && c.1 < y),
            decreases height - y,
        {
            let mut x: u32 = if y < inner_height {
                inner_width
            } else {
                0
            };
            while x < width
                invariant
                    y < height,
                    y < inner_height ==> x >= inner_width,
                    self.spec_width() == width,
                    self.spec_height() == height,
                    added == outside(
                        width as nat,
                        height as nat,
                        inner_width as nat,
                        inner_height as nat,
                    ),
                    forall|c: (int, int)|
                        self@.contains(c) <==> initial.contains(c) || (added.contains(c) && before(
                            c.0,
                            c.1,
                            x as int,
                            y as int,
                        )),
                decreases width - x,
            {
                self.insert(x, y);
                x += 1;
            }
            y += 1;
        }
        assert(self@ =~= initial.union(added));
    }
}

/// Compares two canvases of one size pixel by pixel.
///
/// A coordinate is in the result exactly when the two colours there differ
/// in at least one channel.
pub fn difference(a: &Canvas, b: &Canvas) -> (set: DifferenceSet)
    requires
        a@.width == b@.width,
        a@.height == b@.height,
    ensures
        set@ == differing(a@, b@),
        set.spec_width() == a@.width,
        set.spec_height() == a@.height,
{
    proof {
        use_type_invariant(a);
    }
    let width = a.width();
    let height = a.height();
    let mut set = DifferenceSet::new(width, height);
    let mut y: u32 = 0;
    while y < height
        invariant
            y <= height,
            width == a@.width,
            height == a@.height,
            a@.width == b@.width,
            a@.height == b@.height,
            set.spec_width() == width,
            set.spec_height() == height,
            forall|c: (int, int)| set@.contains(c) <==> differing(a@, b@).contains(c) && c.1 < y,
        decreases height - y,
    {
        let mut x: u32 = 0;
        while x < width
            invariant
                y < height,
                x <= width,
                width == a@.width,
                height == a@.height,
                a@.width == b@.width,
                a@.height == b@.height,
                set.spec_width() == width,
                set.spec_height() == height,
                forall|c: (int, int)|
                    set@.contains(c) <==> differing(a@, b@).contains(c) && before(
                        c.0,
                        c.1,
                        x as int,
                        y as int,
                    ),
            decreases width - x,
        {
            if a.get_pixel(x, y) != b.get_pixel(x, y) {
                set.insert(x, y);
            }
            x += 1;
        }
        y += 1;
    }
    assert(set@ =~= differing(a@, b@));
    set
}

} // verus!
