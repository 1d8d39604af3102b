use umbralux::canvas::Canvas;
use umbralux::color::Color;
use umbralux::number::Number;

fn n(i: i64) -> Number {
    Number::from_int(i)
}

fn assert_canvas(canvas: Canvas, width: usize, height: usize, bg_color: Color) {
    let (w, h) = canvas.get_dimension();
    assert_eq!(width, w);
    assert_eq!(height, h);
    for y in 0..h {
        for x in 0..w {
            assert_eq!(canvas.get_pixel(x, y), bg_color);
        }
    }
}

#[test]
fn create_canvas() {
    let width = 200;
    let height = 100;
    let canvas = Canvas::new(width, height);
    assert_canvas(canvas, width, height, Color::new(n(0), n(0), n(0)));
}

#[test]
fn create_canvas_with_background() {
    let width = 200;
    let height = 100;
    let red = Color::new(n(1), n(0), n(0));
    let canvas = Canvas::with_background(width, height, red);
    assert_canvas(canvas, width, height, red);
}

#[test]
fn set_pixel() {
    let width = 200;
    let height = 100;
    let x = 100;
    let y = 50;
    let black = Color::new(n(0), n(0), n(0));
    let white = Color::new(n(1), n(1), n(1));
    let mut canvas = Canvas::new(width, height);

    canvas.set_pixel(x, y, white);

    for yy in 0..height {
        for xx in 0..width {
            let pixel = canvas.get_pixel(xx, yy);
            if xx == x && yy == y {
                assert_eq!(pixel, white);
            } else {
                assert_eq!(pixel, black);
            }
        }
    }
}

#[test]
fn can_create_canvas() {
    let canvas = Canvas::new(10, 20);
    let black = Color::new(n(0), n(0), n(0));

    assert_eq!(canvas.width(), 10);
    assert_eq!(canvas.height(), 20);

    for y in 0..canvas.height() {
        for x in 0..canvas.width() {
            assert_eq!(canvas.get_pixel(x, y), black);
        }
    }
}

#[test]
fn can_create_canvas_with_bg_color() {
    let bg_color = Color::new(n(0), n(1), n(0));
    let canvas = Canvas::new_with_color(5, 5, &bg_color);

    for y in 0..canvas.height() {
        for x in 0..canvas.width() {
            assert_eq!(canvas.get_pixel(x, y), bg_color);
        }
    }
}

#[test]
fn can_set_pixel() {
    let bg_color = Color::new(n(0), n(0), n(0));
    let red = Color::new(n(1), n(0), n(0));
    let mut canvas = Canvas::new_with_color(10, 20, &bg_color);
    canvas.set_pixel(0, 0, red);
    assert_eq!(canvas.get_pixel(0, 0), red);
}
