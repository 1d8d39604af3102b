use umbralux::color::Color;
use umbralux::number::Number;
use umbralux::objects::{Object3D, Sphere};
use umbralux::pattern::TwoColorPattern;
use umbralux::transform::{scaling, translation};
use umbralux::tuple::Point;

fn n(i: i64) -> Number {
    Number::from_int(i)
}

fn nr(num: i64, den: i64) -> Number {
    Number::from_ratio(num, den)
}

fn tol() -> Number {
    Number::from_raw(10_000)
}

fn assert_color_eq(a: Color, b: Color) {
    assert!(a.red().within(b.red(), tol()), "red: {:?} vs {:?}", a, b);
    assert!(a.green().within(b.green(), tol()), "green: {:?} vs {:?}", a, b);
    assert!(a.blue().within(b.blue(), tol()), "blue: {:?} vs {:?}", a, b);
}

fn initialize() -> (Color, Color, TwoColorPattern) {
    let black = Color::new(n(0), n(0), n(0));
    let white = Color::new(n(1), n(1), n(1));
    (white, black, TwoColorPattern::new_stripes(white, black))
}

#[test]
fn a_stripe_pattern_is_constant_in_y() {
    let (white, _black, pattern) = initialize();

    assert_color_eq(pattern.color_at(Point::new(n(0), n(0), n(0))), white);
    assert_color_eq(pattern.color_at(Point::new(n(0), n(1), n(0))), white);
    assert_color_eq(pattern.color_at(Point::new(n(0), n(2), n(0))), white);
}

#[test]
fn a_stripe_pattern_is_constant_in_z() {
    let (white, _black, pattern) = initialize();

    assert_color_eq(pattern.color_at(Point::new(n(0), n(0), n(0))), white);
    assert_color_eq(pattern.color_at(Point::new(n(0), n(0), n(1))), white);
    assert_color_eq(pattern.color_at(Point::new(n(0), n(0), n(2))), white);
}

#[test]
fn a_stripe_pattern_alternates_in_x() {
    let (white, black, pattern) = initialize();

    assert_color_eq(pattern.color_at(Point::new(n(0), n(0), n(0))), white);
    assert_color_eq(pattern.color_at(Point::new(nr(9, 10), n(0), n(0))), white);
    assert_color_eq(pattern.color_at(Point::new(n(1), n(0), n(0))), black);
    assert_color_eq(pattern.color_at(Point::new(nr(-1, 10), n(0), n(0))), black);
    assert_color_eq(pattern.color_at(Point::new(n(-1), n(0), n(0))), black);
    assert_color_eq(pattern.color_at(Point::new(nr(-11, 10), n(0), n(0))), white);
}

#[test]
fn stripes_with_an_object_transformation() {
    let (white, _black, stripe_pattern) = initialize();
    let pattern = stripe_pattern.as_pattern();

    let mut object = Object3D::Sphere(Sphere::new_unit());
    object.change_transformation(scaling(n(2), n(2), n(2))).unwrap();

    let pt = Point::new(nr(15, 10), n(0), n(0));
    let actual_color = pattern.color_at_object(&object, pt).unwrap();
    assert_color_eq(actual_color, white);
}

#[test]
fn stripes_with_pattern_transformation() {
    let (white, _black, mut stripe_pattern) = initialize();
    stripe_pattern.change_transformation(&scaling(n(2), n(2), n(2))).unwrap();
    let pattern = stripe_pattern.as_pattern();

    let object = Object3D::Sphere(Sphere::new_unit());

    let pt = Point::new(nr(15, 10), n(0), n(0));
    let actual_color = pattern.color_at_object(&object, pt).unwrap();
    assert_color_eq(actual_color, white);
}

#[test]
fn stripes_with_object_and_pattern_transformation() {
    let (white, _black, mut stripe_pattern) = initialize();
    stripe_pattern.change_transformation(&translation(nr(5, 10), n(0), n(0))).unwrap();
    let pattern = stripe_pattern.as_pattern();

    let mut object = Object3D::Sphere(Sphere::new_unit());
    object.change_transformation(scaling(n(2), n(2), n(2))).unwrap();

    let pt = Point::new(nr(25, 10), n(0), n(0));
    let actual_color = pattern.color_at_object(&object, pt).unwrap();
    assert_color_eq(actual_color, white);
}

#[test]
fn pattern_assigning_a_transformation() {
    let (_white, _black, mut pattern) = initialize();
    let expected = translation(n(1), n(2), n(3));
    pattern.change_transformation(&translation(n(1), n(2), n(3))).unwrap();

    let actual = pattern.transformation();
    assert!(actual.equals(&expected));
}

#[test]
fn gradient_linearly_interpolates() {
    let black = Color::new(n(0), n(0), n(0));
    let white = Color::new(n(1), n(1), n(1));
    let pattern = TwoColorPattern::new_gradient(white, black);

    assert_color_eq(pattern.color_at(Point::new(n(0), n(0), n(0))), white);
    assert_color_eq(
        pattern.color_at(Point::new(nr(25, 100), n(0), n(0))),
        Color::new(nr(75, 100), nr(75, 100), nr(75, 100)),
    );
    assert_color_eq(
        pattern.color_at(Point::new(nr(5, 10), n(0), n(0))),
        Color::new(nr(5, 10), nr(5, 10), nr(5, 10)),
    );
    assert_color_eq(
        pattern.color_at(Point::new(nr(75, 100), n(0), n(0))),
        Color::new(nr(25, 100), nr(25, 100), nr(25, 100)),
    );
}

#[test]
fn a_ring_should_extend_in_both_x_and_z() {
    let black = Color::new(n(0), n(0), n(0));
    let white = Color::new(n(1), n(1), n(1));
    let pattern = TwoColorPattern::new_ring(white, black);

    assert_color_eq(pattern.color_at(Point::new(n(0), n(0), n(0))), white);
    assert_color_eq(pattern.color_at(Point::new(n(1), n(0), n(0))), black);
    assert_color_eq(pattern.color_at(Point::new(n(0), n(0), n(1))), black);
    assert_color_eq(
        pattern.color_at(Point::new(nr(708, 1000), n(0), nr(708, 1000))),
        black,
    );
}

#[test]
fn checkers_should_repeat_in_x() {
    let black = Color::new(n(0), n(0), n(0));
    let white = Color::new(n(1), n(1), n(1));
    let pattern = TwoColorPattern::new_checkers3d(white, black);

    assert_color_eq(pattern.color_at(Point::new(n(0), n(0), n(0))), white);
    assert_color_eq(pattern.color_at(Point::new(nr(99, 100), n(0), n(0))), white);
    assert_color_eq(pattern.color_at(Point::new(nr(101, 100), n(0), n(0))), black);
}

#[test]
fn checkers_should_repeat_in_y() {
    let black = Color::new(n(0), n(0), n(0));
    let white = Color::new(n(1), n(1), n(1));
    let pattern = TwoColorPattern::new_checkers3d(white, black);

    assert_color_eq(pattern.color_at(Point::new(n(0), n(0), n(0))), white);
    assert_color_eq(pattern.color_at(Point::new(n(0), nr(99, 100), n(0))), white);
    assert_color_eq(pattern.color_at(Point::new(n(0), nr(101, 100), n(0))), black);
}

#[test]
fn checkers_should_repeat_in_z() {
    let black = Color::new(n(0), n(0), n(0));
    let white = Color::new(n(1), n(1), n(1));
    let pattern = TwoColorPattern::new_checkers3d(white, black);

    assert_color_eq(pattern.color_at(Point::new(n(0), n(0), n(0))), white);
    assert_color_eq(pattern.color_at(Point::new(n(0), n(0), nr(99, 100))), white);
    assert_color_eq(pattern.color_at(Point::new(n(0), n(0), nr(101, 100))), black);
}
