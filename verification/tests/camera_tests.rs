use umbralux::camera::Camera;
use umbralux::color::Color;
use umbralux::light::PointLight;
use umbralux::material::MaterialBuilder;
use umbralux::matrix::Matrix;
use umbralux::number::Number;
use umbralux::objects::{Object3D, Sphere};
use umbralux::ray::Ray;
use umbralux::transform::{rotation_y, scaling, translation, view_transform};
use umbralux::trig::pi;
use umbralux::tuple::{Point, Vector};
use umbralux::world::World;

fn n(i: i64) -> Number {
    Number::from_int(i)
}

fn nr(num: i64, den: i64) -> Number {
    Number::from_ratio(num, den)
}

fn tol() -> Number {
    Number::from_raw(10_000)
}

fn assert_num_eq(a: Number, b: Number) {
    assert!(a.within(b, tol()), "{:?} vs {:?}", a, b);
}

fn assert_point_eq(a: Point, b: Point) {
    assert!(a.x().within(b.x(), tol()), "x: {:?} vs {:?}", a, b);
    assert!(a.y().within(b.y(), tol()), "y: {:?} vs {:?}", a, b);
    assert!(a.z().within(b.z(), tol()), "z: {:?} vs {:?}", a, b);
}

fn assert_vector_eq(a: Vector, b: Vector) {
    assert!(a.x().within(b.x(), tol()), "x: {:?} vs {:?}", a, b);
    assert!(a.y().within(b.y(), tol()), "y: {:?} vs {:?}", a, b);
    assert!(a.z().within(b.z(), tol()), "z: {:?} vs {:?}", a, b);
}

fn assert_color_eq(a: Color, b: Color) {
    assert!(a.red().within(b.red(), tol()), "red: {:?} vs {:?}", a, b);
    assert!(a.green().within(b.green(), tol()), "green: {:?} vs {:?}", a, b);
    assert!(a.blue().within(b.blue(), tol()), "blue: {:?} vs {:?}", a, b);
}

fn create_default_world() -> World {
    let mut world = World::new();
    world.set_light(PointLight {
        intensity: Color::new(n(1), n(1), n(1)),
        position: Point::new(n(-10), n(10), n(-10)),
    });

    let mut s1 = Sphere::new_unit();
    s1.change_material(
        MaterialBuilder::new()
            .color(Color::new(nr(8, 10), n(1), nr(6, 10)))
            .diffuse(nr(7, 10))
            .specular(nr(2, 10))
            .build(),
    );
    world.add_object(Object3D::Sphere(s1));

    let mut s2 = Sphere::new_unit();
    s2.change_transformation(scaling(nr(1, 2), nr(1, 2), nr(1, 2))).unwrap();
    world.add_object(Object3D::Sphere(s2));

    world
}

#[test]
fn constructing_a_camera() {
    let hsize: usize = 160;
    let vsize: usize = 120;
    let field_of_view = pi().div(n(2));

    let camera = Camera::new(hsize, vsize, field_of_view);

    assert_eq!(hsize, camera.hsize());
    assert_eq!(vsize, camera.vsize());
    assert_num_eq(field_of_view, camera.field_of_view());
    assert!(Matrix::identity(4).within(&camera.transform(), tol()));
}

#[test]
fn the_pixel_size_for_a_horizontal_canvas() {
    let camera = Camera::new(200, 125, pi().div(n(2)));
    assert_num_eq(nr(1, 100), camera.pixel_size());
}

#[test]
fn the_pixel_size_for_a_vertical_canvas() {
    let camera = Camera::new(125, 200, pi().div(n(2)));
    assert_num_eq(nr(1, 100), camera.pixel_size());
}

#[test]
fn ray_through_center_of_canvas() {
    let camera = Camera::new(201, 101, pi().div(n(2)));
    let ray: Ray = camera.ray_for_pixel(100, 50).unwrap();

    assert_point_eq(Point::new(n(0), n(0), n(0)), ray.origin());
    assert_vector_eq(Vector::new(n(0), n(0), n(-1)), ray.direction());
}

#[test]
fn ray_through_corner_of_canvas() {
    let camera = Camera::new(201, 101, pi().div(n(2)));
    let ray: Ray = camera.ray_for_pixel(0, 0).unwrap();

    assert_point_eq(Point::new(n(0), n(0), n(0)), ray.origin());
    assert_vector_eq(
        Vector::new(nr(66519, 100000), nr(33259, 100000), nr(-66851, 100000)),
        ray.direction(),
    );
}

#[test]
fn ray_through_center_of_canvas_with_transformed_camera() {
    let mut camera = Camera::new(201, 101, pi().div(n(2)));
    camera
        .set_transformation(
            rotation_y(pi().div(n(4))).multiply(&translation(n(0), n(-2), n(5))).unwrap(),
        )
        .unwrap();
    let ray: Ray = camera.ray_for_pixel(100, 50).unwrap();

    let half_sqrt2 = Number::from_raw(707_106_781);
    assert_point_eq(Point::new(n(0), n(2), n(-5)), ray.origin());
    assert_vector_eq(Vector::new(half_sqrt2, n(0), half_sqrt2.neg()), ray.direction());
}

#[test]
fn rendering_a_world_with_a_camera() {
    let world = create_default_world();

    let mut camera = Camera::new(11, 11, pi().div(n(2)));

    let from = Point::new(n(0), n(0), n(-5));
    let to = Point::new(n(0), n(0), n(0));
    let up = Vector::new(n(0), n(1), n(0));
    camera.set_transformation(view_transform(from, to, up)).unwrap();

    let image = camera.render(&world).unwrap();

    let expected = Color::new(nr(38066, 100000), nr(47583, 100000), nr(2855, 10000));
    let actual = image.get_pixel(5, 5);

    assert_color_eq(expected, actual);
}
