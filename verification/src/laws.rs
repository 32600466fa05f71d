//! What holds of every comparison, proved from the definitions that the
//! contracts of the library use.

use crate::canvas::Grid;
use crate::color::transparent;
use crate::difference::differing;
use crate::engine::DiffEngine;
use crate::reconcile::longer;
use vstd::prelude::*;

verus! {

/// A canvas is identical to itself, whatever its size.
pub proof fn law_identity(engine: DiffEngine, canvas: Grid)
    ensures
        engine.verdict(canvas, canvas) is None,
{
}

/// Only canvases of the same size with the same pixels are identical.
pub proof fn law_identical_means_equal(engine: DiffEngine, reference: Grid, current: Grid)
    ensures
        engine.verdict(reference, current) is None <==> reference == current,
{
}

/// Two canvases of one size differ at the same coordinates whichever of them
/// is taken as the reference.
pub proof fn law_detection_is_symmetric(a: Grid, b: Grid)
    requires
        a.width == b.width,
        a.height == b.height,
    ensures
        differing(a, b) == differing(b, a),
{
    assert(differing(a, b) =~= differing(b, a));
}

/// The coordinates that an engine marks do not depend on which canvas is the
/// reference, whatever the two sizes.
pub proof fn law_marks_are_symmetric(engine: DiffEngine, a: Grid, b: Grid)
    ensures
        engine.marked(a, b) == engine.marked(b, a),
{
    let left = engine.extended(a, b);
    let right = engine.extended(b, a);
    assert(left.width == right.width && left.height == right.height);
    assert(differing(left, right) =~= differing(right, left));
    assert(engine.marked(a, b) =~= engine.marked(b, a));
}

/// The difference image has the size that holds both canvases.
pub proof fn law_image_size(engine: DiffEngine, reference: Grid, current: Grid)
    ensures
        engine.diff_image(reference, current).wf(),
        engine.diff_image(reference, current).width == longer(reference.width, current.width),
        engine.diff_image(reference, current).height == longer(reference.height, current.height),
{
    let base = engine.extended(reference, current);
    let marks = engine.marked(reference, current);
    Grid::lemma_build(
        base.width,
        base.height,
        |i: int, j: int|
            if marks.contains((i, j)) {
                engine.painted(base.at(i, j))
            } else {
                base.at(i, j)
            },
    );
}

/// The difference image is painted over the reference: at each coordinate it
/// shows the colour of the extended reference, painted where the coordinate
/// is marked.
pub proof fn law_image_is_painted_reference(
    engine: DiffEngine,
    reference: Grid,
    current: Grid,
    x: int,
    y: int,
)
    requires
        0 <= x < longer(reference.width, current.width),
        0 <= y < longer(reference.height, current.height),
    ensures
        engine.diff_image(reference, current).at(x, y) == if engine.marked(
            reference,
            current,
        ).contains((x, y)) {
            engine.painted(reference.at_or(x, y, engine.fill()))
        } else {
            reference.at_or(x, y, engine.fill())
        },
{
    let width = longer(reference.width, current.width);
    let height = longer(reference.height, current.height);
    let base = engine.extended(reference, current);
    let marks = engine.marked(reference, current);
    Grid::lemma_build(width, height, |i: int, j: int| reference.at_or(i, j, engine.fill()));
    Grid::lemma_build(
        width,
        height,
        |i: int, j: int|
            if marks.contains((i, j)) {
                engine.painted(base.at(i, j))
            } else {
                base.at(i, j)
            },
    );
    assert(base.at(x, y) == reference.at_or(x, y, engine.fill()));
}

/// Swapping reference and current changes the base of the image and nothing
/// else: for two canvases of one size the two images are equal exactly when
/// painting gives the same colour on both at every differing coordinate.
pub proof fn law_swapped_images(engine: DiffEngine, a: Grid, b: Grid)
    requires
        a.wf(),
        b.wf(),
        a.width == b.width,
        a.height == b.height,
    ensures
        engine.diff_image(a, b) == engine.diff_image(b, a) <==> (forall|x: int, y: int|
            #[trigger] differing(a, b).contains((x, y)) ==> engine.painted(a.at(x, y))
                == engine.painted(b.at(x, y))),
{
    let forward = engine.diff_image(a, b);
    let backward = engine.diff_image(b, a);
    law_marks_are_symmetric(engine, a, b);
    lemma_marks_of_equal_sizes(engine, a, b);
    assert forall|x: int, y: int| a.contains(x, y) implies #[trigger] forward.at(x, y) == (
    if differing(a, b).contains((x, y)) {
        engine.painted(a.at(x, y))
    } else {
        a.at(x, y)
    }) && #[trigger] backward.at(x, y) == (if differing(a, b).contains((x, y)) {
        engine.painted(b.at(x, y))
    } else {
        b.at(x, y)
    }) by {
        law_image_is_painted_reference(engine, a, b, x, y);
        law_image_is_painted_reference(engine, b, a, x, y);
    }
    if forall|x: int, y: int| #[trigger]
        differing(a, b).contains((x, y)) ==> engine.painted(a.at(x, y)) == engine.painted(
            b.at(x, y),
        ) {
        assert forall|x: int, y: int| forward.contains(x, y) implies forward.at(x, y)
            == backward.at(x, y) by {
            law_image_is_painted_reference(engine, a, b, x, y);
            law_image_is_painted_reference(engine, b, a, x, y);
            if !differing(a, b).contains((x, y)) {
                assert(a.at(x, y) == b.at(x, y));
            }
        }
        law_image_size(engine, a, b);
        law_image_size(engine, b, a);
        forward.lemma_ext(backward);
    }
    if forward == backward {
        assert forall|x: int, y: int| #[trigger] differing(a, b).contains((x, y)) implies
            engine.painted(a.at(x, y)) == engine.painted(b.at(x, y)) by {
            assert(a.contains(x, y));
            assert(forward.at(x, y) == backward.at(x, y));
        }
    }
}

/// For canvases of one size an engine marks exactly the coordinates at which
/// the two disagree.
pub proof fn lemma_marks_of_equal_sizes(engine: DiffEngine, a: Grid, b: Grid)
    requires
        a.wf(),
        b.wf(),
        a.width == b.width,
        a.height == b.height,
    ensures
        engine.extended(a, b) == a,
        engine.extended(b, a) == b,
        engine.marked(a, b) == differing(a, b),
{
    a.lemma_resized_same(engine.fill());
    b.lemma_resized_same(engine.fill());
    assert(engine.marked(a, b) =~= differing(a, b));
}

/// No false negatives: where two canvases of one size differ in even one
/// channel, the coordinate is among the differences, and the engine marks it.
pub proof fn law_no_false_negatives(engine: DiffEngine, a: Grid, b: Grid, x: int, y: int)
    requires
        a.wf(),
        b.wf(),
        a.width == b.width,
        a.height == b.height,
        a.contains(x, y),
        a.at(x, y).r != b.at(x, y).r || a.at(x, y).g != b.at(x, y).g || a.at(x, y).b != b.at(
            x,
            y,
        ).b || a.at(x, y).a != b.at(x, y).a,
    ensures
        differing(a, b).contains((x, y)),
        engine.marked(a, b).contains((x, y)),
{
    lemma_marks_of_equal_sizes(engine, a, b);
}

/// No false positives: a coordinate at which two canvases of one size show
/// the same colour is not among the differences.
pub proof fn law_no_false_positives(engine: DiffEngine, a: Grid, b: Grid, x: int, y: int)
    requires
        a.wf(),
        b.wf(),
        a.width == b.width,
        a.height == b.height,
        a.at(x, y) == b.at(x, y),
    ensures
        !differing(a, b).contains((x, y)),
        !engine.marked(a, b).contains((x, y)),
{
    lemma_marks_of_equal_sizes(engine, a, b);
}

/// Added area counts as different: a coordinate that `current` has and
/// `reference` lacks is marked, and the image shows the painted fill there.
///
/// An opaque engine marks it whatever `current` shows. An alpha-aware engine
/// compares with the transparent fill, so there the colour of `current` at
/// the coordinate must not be fully transparent black.
pub proof fn law_padding_is_marked(
    engine: DiffEngine,
    reference: Grid,
    current: Grid,
    x: int,
    y: int,
)
    requires
        current.contains(x, y),
        !reference.contains(x, y),
        engine.alpha_aware ==> current.at(x, y) != transparent(),
    ensures
        engine.marked(reference, current).contains((x, y)),
        engine.diff_image(reference, current).at(x, y) == engine.painted(engine.fill()),
{
    let width = longer(reference.width, current.width);
    let height = longer(reference.height, current.height);
    Grid::lemma_build(width, height, |i: int, j: int| reference.at_or(i, j, engine.fill()));
    Grid::lemma_build(width, height, |i: int, j: int| current.at_or(i, j, engine.fill()));
    assert(engine.extended(reference, current).at(x, y) == engine.fill());
    assert(engine.extended(current, reference).at(x, y) == current.at(x, y));
    law_image_is_painted_reference(engine, reference, current, x, y);
}

} // verus!
