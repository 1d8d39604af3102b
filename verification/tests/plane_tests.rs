use umbralux::number::Number;
use umbralux::objects::{find_intersections, Object3D, Plane};
use umbralux::ray::Ray;
use umbralux::tuple::{Point, Vector};

fn n(i: i64) -> Number {
    Number::from_int(i)
}

fn tol() -> Number {
    Number::from_raw(10_000)
}

fn assert_vector_eq(a: Vector, b: Vector) {
    assert!(a.x().within(b.x(), tol()), "x: {:?} vs {:?}", a, b);
    assert!(a.y().within(b.y(), tol()), "y: {:?} vs {:?}", a, b);
    assert!(a.z().within(b.z(), tol()), "z: {:?} vs {:?}", a, b);
}

fn check_intersection(ray: &Ray, expected: Vec<Number>) {
    let plane = Object3D::Plane(Plane::new());
    let intersections = find_intersections(ray, &plane).unwrap();

    assert_eq!(intersections.len(), expected.len());
    for (idx, intersection) in intersections.iter().enumerate() {
        assert!(intersection.parameter().within(expected[idx], tol()));
    }
}

#[test]
fn the_normal_of_a_plane_is_constant_everywhere() {
    let plane = Plane::new();
    let n1 = plane.local_normal_at(Point::new(n(0), n(0), n(0)));
    let n2 = plane.local_normal_at(Point::new(n(10), n(0), n(-10)));
    let n3 = plane.local_normal_at(Point::new(n(-5), n(0), n(150)));
    let expected = Vector::new(n(0), n(1), n(0));

    assert_vector_eq(expected, n1);
    assert_vector_eq(expected, n2);
    assert_vector_eq(expected, n3);
}

#[test]
fn intersect_with_a_ray_parallel_to_plane() {
    let ray = Ray::new(Point::new(n(0), n(10), n(0)), Vector::new(n(0), n(0), n(1)));
    check_intersection(&ray, vec![]);
}

#[test]
fn intersect_with_a_ray_coplanar_to_plane() {
    let ray = Ray::new(Point::new(n(0), n(0), n(0)), Vector::new(n(0), n(0), n(1)));
    check_intersection(&ray, vec![]);
}

#[test]
fn a_ray_intersecting_a_plane_from_above() {
    let ray = Ray::new(Point::new(n(0), n(1), n(0)), Vector::new(n(0), n(-1), n(1)));
    check_intersection(&ray, vec![n(1)]);
}

#[test]
fn a_ray_intersecting_a_plane_from_below() {
    let ray = Ray::new(Point::new(n(0), n(-1), n(0)), Vector::new(n(0), n(1), n(1)));
    check_intersection(&ray, vec![n(1)]);
}
