use imgdiff::{Canvas, Color};

const RED: Color = Color { r: 255, g: 0, b: 0, a: 255 };
const GREEN: Color = Color { r: 0, g: 255, b: 0, a: 255 };
const BLUE: Color = Color { r: 0, g: 0, b: 255, a: 255 };
const GREY: Color = Color { r: 9, g: 9, b: 9, a: 9 };

#[test]
fn color_keeps_its_channels() {
    let c = Color::new(1, 2, 3, 4);
    assert_eq!((c.r, c.g, c.b, c.a), (1, 2, 3, 4));
    assert_eq!(Color::transparent(), Color::new(0, 0, 0, 0));
    assert_eq!(Color::overlay(), Color::new(255, 0, 0, 55));
}

#[test]
fn colors_differ_when_one_channel_differs() {
    let base = Color::new(10, 20, 30, 40);
    assert_eq!(base, Color::new(10, 20, 30, 40));
    assert_ne!(base, Color::new(11, 20, 30, 40));
    assert_ne!(base, Color::new(10, 21, 30, 40));
    assert_ne!(base, Color::new(10, 20, 31, 40));
    assert_ne!(base, Color::new(10, 20, 30, 41));
}

#[test]
fn canvas_new_fills_every_pixel() {
    let canvas = Canvas::new(3, 2, GREY);
    assert_eq!(canvas.width(), 3);
    assert_eq!(canvas.height(), 2);
    assert_eq!(canvas.pixels(), &vec![GREY; 6]);
}

#[test]
fn canvas_from_pixels_wants_one_pixel_per_coordinate() {
    assert!(Canvas::from_pixels(2, 2, vec![RED, GREEN, BLUE]).is_none());
    assert!(Canvas::from_pixels(2, 2, vec![RED; 5]).is_none());
    assert!(Canvas::from_pixels(1, 1, vec![]).is_none());
    assert!(Canvas::from_pixels(u32::MAX, u32::MAX, vec![RED]).is_none());
    let canvas = Canvas::from_pixels(2, 2, vec![RED, GREEN, BLUE, GREY]).unwrap();
    assert_eq!((canvas.width(), canvas.height()), (2, 2));
    assert_eq!(canvas.pixels(), &vec![RED, GREEN, BLUE, GREY]);
}

#[test]
fn canvas_may_have_no_area() {
    let flat = Canvas::from_pixels(0, 5, vec![]).unwrap();
    assert_eq!((flat.width(), flat.height()), (0, 5));
    let thin = Canvas::new(7, 0, RED);
    assert_eq!((thin.width(), thin.height()), (7, 0));
    assert!(thin.pixels().is_empty());
    assert!(Canvas::from_pixels(0, 5, vec![RED]).is_none());
}

#[test]
fn canvas_is_stored_row_by_row() {
    let canvas = Canvas::from_pixels(3, 2, vec![RED, GREEN, BLUE, GREY, RED, GREEN]).unwrap();
    assert_eq!(canvas.get_pixel(0, 0), RED);
    assert_eq!(canvas.get_pixel(1, 0), GREEN);
    assert_eq!(canvas.get_pixel(2, 0), BLUE);
    assert_eq!(canvas.get_pixel(0, 1), GREY);
    assert_eq!(canvas.get_pixel(1, 1), RED);
    assert_eq!(canvas.get_pixel(2, 1), GREEN);
}

#[test]
fn canvas_put_pixel_changes_one_pixel() {
    let mut canvas = Canvas::new(2, 3, RED);
    canvas.put_pixel(1, 2, BLUE);
    canvas.put_pixel(0, 1, GREEN);
    assert_eq!(canvas.pixels(), &vec![RED, RED, GREEN, RED, RED, BLUE]);
    assert_eq!(canvas.get_pixel(1, 2), BLUE);
    assert_eq!((canvas.width(), canvas.height()), (2, 3));
}

#[test]
fn canvas_pixel_or_gives_fill_outside() {
    let canvas = Canvas::from_pixels(2, 1, vec![RED, GREEN]).unwrap();
    assert_eq!(canvas.pixel_or(1, 0, GREY), GREEN);
    assert_eq!(canvas.pixel_or(2, 0, GREY), GREY);
    assert_eq!(canvas.pixel_or(0, 1, GREY), GREY);
    assert_eq!(canvas.pixel_or(u32::MAX, u32::MAX, BLUE), BLUE);
}

#[test]
fn canvases_are_equal_by_size_and_pixels() {
    let wide = Canvas::from_pixels(2, 1, vec![RED, GREEN]).unwrap();
    let tall = Canvas::from_pixels(1, 2, vec![RED, GREEN]).unwrap();
    let other = Canvas::from_pixels(2, 1, vec![RED, BLUE]).unwrap();
    let same = Canvas::from_pixels(2, 1, vec![RED, GREEN]).unwrap();
    assert_eq!(wide, same);
    assert_ne!(wide, tall);
    assert_ne!(wide, other);
    assert_eq!(Canvas::new(0, 0, RED), Canvas::new(0, 0, BLUE));
    assert_ne!(Canvas::new(0, 1, RED), Canvas::new(1, 0, RED));
}

#[test]
fn canvas_clone_is_equal_and_separate() {
    let canvas = Canvas::from_pixels(2, 2, vec![RED, GREEN, BLUE, GREY]).unwrap();
    let mut copy = canvas.clone();
    assert_eq!(canvas, copy);
    copy.put_pixel(0, 0, GREY);
    assert_ne!(canvas, copy);
    assert_eq!(canvas.get_pixel(0, 0), RED);
}
