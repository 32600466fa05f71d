use imgdiff::{adjust_dimensions, resize, Canvas, Color};

const RED: Color = Color { r: 255, g: 0, b: 0, a: 255 };
const GREEN: Color = Color { r: 0, g: 255, b: 0, a: 255 };
const BLUE: Color = Color { r: 0, g: 0, b: 255, a: 255 };
const FILL: Color = Color { r: 0, g: 0, b: 0, a: 0 };
const VEIL: Color = Color { r: 7, g: 8, b: 9, a: 0 };

#[test]
fn resize_keeps_pixels_in_the_top_left_and_fills_the_rest() {
    let small = Canvas::from_pixels(2, 1, vec![RED, GREEN]).unwrap();
    let large = resize(&small, 3, 2, FILL);
    assert_eq!((large.width(), large.height()), (3, 2));
    assert_eq!(large.pixels(), &vec![RED, GREEN, FILL, FILL, FILL, FILL]);
}

#[test]
fn resize_copies_pixels_unchanged_whatever_their_alpha() {
    let small = Canvas::from_pixels(1, 2, vec![VEIL, Color::new(1, 2, 3, 4)]).unwrap();
    let large = resize(&small, 2, 2, BLUE);
    assert_eq!(large.pixels(), &vec![VEIL, BLUE, Color::new(1, 2, 3, 4), BLUE]);
}

#[test]
fn resize_to_a_smaller_size_keeps_what_fits() {
    let large = Canvas::from_pixels(3, 2, vec![RED, GREEN, BLUE, GREEN, BLUE, RED]).unwrap();
    let small = resize(&large, 2, 1, FILL);
    assert_eq!(small, Canvas::from_pixels(2, 1, vec![RED, GREEN]).unwrap());
    let column = resize(&large, 1, 3, FILL);
    assert_eq!(column.pixels(), &vec![RED, GREEN, FILL]);
}

#[test]
fn resize_to_the_same_size_changes_nothing() {
    let canvas = Canvas::from_pixels(2, 2, vec![RED, GREEN, BLUE, RED]).unwrap();
    assert_eq!(resize(&canvas, 2, 2, FILL), canvas);
    let empty = Canvas::new(0, 0, RED);
    assert_eq!(resize(&empty, 0, 0, FILL), empty);
    assert_eq!(resize(&empty, 2, 1, GREEN), Canvas::new(2, 1, GREEN));
}

#[test]
fn adjust_dimensions_takes_the_larger_of_each_side() {
    let wide = Canvas::from_pixels(3, 1, vec![RED, GREEN, BLUE]).unwrap();
    let tall = Canvas::from_pixels(1, 2, vec![BLUE, GREEN]).unwrap();
    let (a, b) = adjust_dimensions(wide, tall, FILL);
    assert_eq!((a.width(), a.height()), (3, 2));
    assert_eq!((b.width(), b.height()), (3, 2));
    assert_eq!(a.pixels(), &vec![RED, GREEN, BLUE, FILL, FILL, FILL]);
    assert_eq!(b.pixels(), &vec![BLUE, FILL, FILL, GREEN, FILL, FILL]);
}

#[test]
fn adjust_dimensions_extends_only_the_smaller_canvas() {
    let small = Canvas::from_pixels(1, 1, vec![RED]).unwrap();
    let large = Canvas::from_pixels(2, 2, vec![RED, GREEN, BLUE, RED]).unwrap();
    let (a, b) = adjust_dimensions(small.clone(), large.clone(), GREEN);
    assert_eq!(a.pixels(), &vec![RED, GREEN, GREEN, GREEN]);
    assert_eq!(b, large);
    let (c, d) = adjust_dimensions(large.clone(), small, BLUE);
    assert_eq!(c, large);
    assert_eq!(d.pixels(), &vec![RED, BLUE, BLUE, BLUE]);
}

#[test]
fn adjust_dimensions_leaves_equal_sizes_alone() {
    let a = Canvas::from_pixels(2, 1, vec![RED, GREEN]).unwrap();
    let b = Canvas::from_pixels(2, 1, vec![BLUE, BLUE]).unwrap();
    let (c, d) = adjust_dimensions(a.clone(), b.clone(), FILL);
    assert_eq!(c, a);
    assert_eq!(d, b);
}
