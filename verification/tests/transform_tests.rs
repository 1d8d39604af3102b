use umbralux::matrix::Matrix;
use umbralux::number::Number;
use umbralux::transform::{
    rotation_x, rotation_y, rotation_z, scaling, shearing, transform_point, transform_vector,
    translation, view_transform,
};
use umbralux::trig::pi;
use umbralux::tuple::{Point, Vector};

fn n(i: i64) -> Number {
    Number::from_int(i)
}

fn nr(num: i64, den: i64) -> Number {
    Number::from_ratio(num, den)
}

fn tol() -> Number {
    Number::from_raw(10_000)
}

fn assert_point_eq(a: Point, b: Point) {
    assert!(a.x().within(b.x(), tol()), "x: {:?} vs {:?}", a, b);
    assert!(a.y().within(b.y(), tol()), "y: {:?} vs {:?}", a, b);
    assert!(a.z().within(b.z(), tol()), "z: {:?} vs {:?}", a, b);
}

fn assert_vector_eq(a: Vector, b: Vector) {
    assert!(a.x().within(b.x(), tol()), "x: {:?} vs {:?}", a, b);
    assert!(a.y().within(b.y(), tol()), "y: {:?} vs {:?}", a, b);
    assert!(a.z().within(b.z(), tol()), "z: {:?} vs {:?}", a, b);
}

// The square root of one half, in billionths.
fn half_sqrt2() -> Number {
    Number::from_raw(707_106_781)
}

#[test]
fn translate_point() {
    let p = Point::new(n(-3), n(4), n(5));
    let t = translation(n(5), n(-3), n(2));
    let t_inv = t.invert().unwrap();

    let exp = Point::new(n(2), n(1), n(7));
    let mut act = transform_point(p, &t).unwrap();

    assert_point_eq(exp, act);

    act = transform_point(act, &t_inv).unwrap();
    assert_point_eq(p, act);
}

#[test]
fn translate_vector() {
    let v = Vector::new(n(-3), n(4), n(5));
    let t = translation(n(5), n(-3), n(2));
    let v_translated = transform_vector(v, &t).unwrap();
    assert_vector_eq(v, v_translated);
}

#[test]
fn scale_point() {
    let p = Point::new(n(2), n(3), n(4));
    let s = scaling(n(-4), n(6), n(8));
    let exp = Point::new(n(-8), n(18), n(32));
    assert_point_eq(exp, transform_point(p, &s).unwrap());
}

#[test]
fn scale_vector() {
    let v = Vector::new(n(2), n(3), n(4));
    let s = scaling(n(-4), n(6), n(8));
    let exp = Vector::new(n(-8), n(18), n(32));
    assert_vector_eq(exp, transform_vector(v, &s).unwrap());
}

#[test]
fn rotate_point_x() {
    let p = Point::new(n(0), n(1), n(0));
    let half_quarter = transform_point(p, &rotation_x(pi().div(n(4)))).unwrap();
    let full_quarter = transform_point(p, &rotation_x(pi().div(n(2)))).unwrap();

    assert_point_eq(half_quarter, Point::new(n(0), half_sqrt2(), half_sqrt2()));
    assert_point_eq(full_quarter, Point::new(n(0), n(0), n(1)));
}

#[test]
fn rotate_point_y() {
    let p = Point::new(n(0), n(0), n(1));
    let half_quarter = transform_point(p, &rotation_y(pi().div(n(4)))).unwrap();
    let full_quarter = transform_point(p, &rotation_y(pi().div(n(2)))).unwrap();

    assert_point_eq(half_quarter, Point::new(half_sqrt2(), n(0), half_sqrt2()));
    assert_point_eq(full_quarter, Point::new(n(1), n(0), n(0)));
}

#[test]
fn rotate_point_z() {
    let p = Point::new(n(0), n(1), n(0));
    let half_quarter = transform_point(p, &rotation_z(pi().div(n(4)))).unwrap();
    let full_quarter = transform_point(p, &rotation_z(pi().div(n(2)))).unwrap();

    assert_point_eq(half_quarter, Point::new(half_sqrt2().neg(), half_sqrt2(), n(0)));
    assert_point_eq(full_quarter, Point::new(n(-1), n(0), n(0)));
}

#[test]
fn shear_point() {
    let p = Point::new(n(2), n(3), n(4));

    let mut t = shearing(n(1), n(0), n(0), n(0), n(0), n(0));
    assert_point_eq(Point::new(n(5), n(3), n(4)), transform_point(p, &t).unwrap());

    t = shearing(n(0), n(1), n(0), n(0), n(0), n(0));
    assert_point_eq(Point::new(n(6), n(3), n(4)), transform_point(p, &t).unwrap());

    t = shearing(n(0), n(0), n(1), n(0), n(0), n(0));
    assert_point_eq(Point::new(n(2), n(5), n(4)), transform_point(p, &t).unwrap());

    t = shearing(n(0), n(0), n(0), n(1), n(0), n(0));
    assert_point_eq(Point::new(n(2), n(7), n(4)), transform_point(p, &t).unwrap());

    t = shearing(n(0), n(0), n(0), n(0), n(1), n(0));
    assert_point_eq(Point::new(n(2), n(3), n(6)), transform_point(p, &t).unwrap());

    t = shearing(n(0), n(0), n(0), n(0), n(0), n(1));
    assert_point_eq(Point::new(n(2), n(3), n(7)), transform_point(p, &t).unwrap());
}

#[test]
fn chaining_transformations() {
    let a = rotation_x(pi().div(n(2)));
    let b = scaling(n(5), n(5), n(5));
    let c = translation(n(10), n(5), n(7));
    let d = c.multiply(&b).unwrap().multiply(&a).unwrap();

    let p = Point::new(n(1), n(0), n(1));
    let p2 = transform_point(p, &a).unwrap();
    let p3 = transform_point(p2, &b).unwrap();
    let p4 = transform_point(p3, &c).unwrap();

    let p5 = transform_point(p, &d).unwrap();

    assert_point_eq(p4, p5);
}

#[test]
fn the_transformation_matrix_for_the_default_transformation() {
    let from = Point::new(n(0), n(0), n(0));
    let to = Point::new(n(0), n(0), n(-1));
    let up = Vector::new(n(0), n(1), n(0));

    let expected = Matrix::identity(4);
    let actual = view_transform(from, to, up);

    assert!(expected.within(&actual, tol()));
}

#[test]
fn a_view_transformation_matrix_looking_in_positive_z_direction() {
    let from = Point::new(n(0), n(0), n(0));
    let to = Point::new(n(0), n(0), n(1));
    let up = Vector::new(n(0), n(1), n(0));

    let expected = scaling(n(-1), n(1), n(-1));
    let actual = view_transform(from, to, up);

    assert!(expected.within(&actual, tol()));
}

#[test]
fn an_arbitrary_view_transformation() {
    let from = Point::new(n(1), n(3), n(2));
    let to = Point::new(n(4), n(-2), n(8));
    let up = Vector::new(n(1), n(1), n(0));

    let rows: Vec<Vec<Number>> = vec![
        vec![nr(-50709, 100000), nr(50709, 100000), nr(67612, 100000), nr(-236643, 100000)],
        vec![nr(76772, 100000), nr(60609, 100000), nr(12122, 100000), nr(-282843, 100000)],
        vec![nr(-35857, 100000), nr(59761, 100000), nr(-71714, 100000), n(0)],
        vec![n(0), n(0), n(0), n(1)],
    ];
    let expected = Matrix::from_elements(&rows).unwrap();
    let actual = view_transform(from, to, up);

    assert!(expected.within(&actual, tol()));
}
