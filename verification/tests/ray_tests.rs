use umbralux::number::Number;
use umbralux::ray::Ray;
use umbralux::tuple::{Point, Vector};

fn n(i: i64) -> Number {
    Number::from_int(i)
}

fn tol() -> Number {
    Number::from_raw(10_000)
}

fn assert_point_eq(a: Point, b: Point) {
    assert!(a.x().within(b.x(), tol()), "x: {:?} vs {:?}", a, b);
    assert!(a.y().within(b.y(), tol()), "y: {:?} vs {:?}", a, b);
    assert!(a.z().within(b.z(), tol()), "z: {:?} vs {:?}", a, b);
}

fn assert_vector_eq(a: Vector, b: Vector) {
    assert!(a.x().within(b.x(), tol()), "x: {:?} vs {:?}", a, b);
    assert!(a.y().within(b.y(), tol()), "y: {:?} vs {:?}", a, b);
    assert!(a.z().within(b.z(), tol()), "z: {:?} vs {:?}", a, b);
}

#[test]
fn translating_a_ray() {
    let ray = Ray::new(Point::new(n(1), n(2), n(3)), Vector::new(n(0), n(1), n(0)));
    let new_ray = ray.translate(n(3), n(4), n(5)).unwrap();

    assert_point_eq(new_ray.origin(), Point::new(n(4), n(6), n(8)));
    assert_vector_eq(new_ray.direction(), ray.direction());
}

#[test]
fn scaling_a_ray() {
    let ray = Ray::new(Point::new(n(1), n(2), n(3)), Vector::new(n(0), n(1), n(0)));
    let new_ray = ray.scale(n(2), n(3), n(4)).unwrap();

    assert_point_eq(new_ray.origin(), Point::new(n(2), n(6), n(12)));
    assert_vector_eq(new_ray.direction(), Vector::new(n(0), n(3), n(0)));
}
