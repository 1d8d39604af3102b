use umbralux::color::Color;
use umbralux::light::PointLight;
use umbralux::material::MaterialBuilder;
use umbralux::number::Number;
use umbralux::objects::{find_hit, find_intersections, Object3D, Sphere};
use umbralux::ray::Ray;
use umbralux::transform::{scaling, translation};
use umbralux::tuple::{Point, Vector};
use umbralux::world::World;

fn n(i: i64) -> Number {
    Number::from_int(i)
}

fn nr(num: i64, den: i64) -> Number {
    Number::from_ratio(num, den)
}

fn tol() -> Number {
    Number::from_raw(10_000)
}

fn assert_num_eq(a: Number, b: Number) {
    assert!(a.within(b, tol()), "{:?} vs {:?}", a, b);
}

fn assert_point_eq(a: Point, b: Point) {
    assert!(a.x().within(b.x(), tol()), "x: {:?} vs {:?}", a, b);
    assert!(a.y().within(b.y(), tol()), "y: {:?} vs {:?}", a, b);
    assert!(a.z().within(b.z(), tol()), "z: {:?} vs {:?}", a, b);
}

fn assert_vector_eq(a: Vector, b: Vector) {
    assert!(a.x().within(b.x(), tol()), "x: {:?} vs {:?}", a, b);
    assert!(a.y().within(b.y(), tol()), "y: {:?} vs {:?}", a, b);
    assert!(a.z().within(b.z(), tol()), "z: {:?} vs {:?}", a, b);
}

fn assert_color_eq(a: Color, b: Color) {
    assert!(a.red().within(b.red(), tol()), "red: {:?} vs {:?}", a, b);
    assert!(a.green().within(b.green(), tol()), "green: {:?} vs {:?}", a, b);
    assert!(a.blue().within(b.blue(), tol()), "blue: {:?} vs {:?}", a, b);
}

fn create_light() -> PointLight {
    PointLight {
        intensity: Color::new(n(1), n(1), n(1)),
        position: Point::new(n(-10), n(10), n(-10)),
    }
}

fn create_first_sphere() -> Object3D {
    let mut sphere = Sphere::new_unit();
    let material = MaterialBuilder::new()
        .color(Color::new(nr(8, 10), n(1), nr(6, 10)))
        .diffuse(nr(7, 10))
        .specular(nr(2, 10))
        .build();
    sphere.change_material(material);
    Object3D::Sphere(sphere)
}

fn create_second_sphere() -> Object3D {
    let mut sphere = Sphere::new_unit();
    sphere.change_transformation(scaling(nr(1, 2), nr(1, 2), nr(1, 2))).unwrap();
    Object3D::Sphere(sphere)
}

fn create_default_world() -> World {
    let mut world = World::new();
    world.set_light(create_light());
    world.add_object(create_first_sphere());
    world.add_object(create_second_sphere());
    world
}

#[test]
fn creating_a_world() {
    let world = World::new();
    assert!(world.get_objects().is_empty());
    assert!(world.light.is_none());
}

#[test]
fn default_world() {
    let world = create_default_world();

    assert!(world.contains_light(&create_light()));
    assert!(world.contains_object(&create_first_sphere()));
    assert!(world.contains_object(&create_second_sphere()));
}

#[test]
fn intersect_a_world_with_a_ray() {
    let world = create_default_world();
    let ray = Ray::new(Point::new(n(0), n(0), n(-5)), Vector::new(n(0), n(0), n(1)));

    let intersects = world.find_intersections(&ray).unwrap();

    assert_eq!(intersects.len(), 4);
    assert_num_eq(intersects[0].parameter(), n(4));
    assert_num_eq(intersects[1].parameter(), nr(45, 10));
    assert_num_eq(intersects[2].parameter(), nr(55, 10));
    assert_num_eq(intersects[3].parameter(), n(6));
}

#[test]
fn precomputing_the_state_of_an_intersection() {
    let ray = Ray::new(Point::new(n(0), n(0), n(-5)), Vector::new(n(0), n(0), n(1)));
    let shape = Object3D::Sphere(Sphere::new_unit());
    let hit = find_hit(find_intersections(&ray, &shape).unwrap()).unwrap();

    let comp_res = hit.prepare_computations().unwrap();

    assert_eq!(comp_res.t, hit.parameter());
    assert_point_eq(comp_res.point, Point::new(n(0), n(0), n(-1)));
    assert_vector_eq(comp_res.eye_dir, Vector::new(n(0), n(0), n(-1)));
    assert_vector_eq(comp_res.normal, Vector::new(n(0), n(0), n(-1)));
    assert!(!comp_res.inside);
}

#[test]
fn intersection_occurs_on_the_inside() {
    let ray = Ray::new(Point::new(n(0), n(0), n(0)), Vector::new(n(0), n(0), n(1)));
    let shape = Object3D::Sphere(Sphere::new_unit());
    let hit = find_hit(find_intersections(&ray, &shape).unwrap()).unwrap();

    let comp_res = hit.prepare_computations().unwrap();

    assert_eq!(comp_res.t, hit.parameter());
    assert_point_eq(comp_res.point, Point::new(n(0), n(0), n(1)));
    assert_vector_eq(comp_res.eye_dir, Vector::new(n(0), n(0), n(-1)));
    assert_vector_eq(comp_res.normal, Vector::new(n(0), n(0), n(-1)));
    assert!(comp_res.inside);
}

#[test]
fn shading_an_intersection() {
    let world = create_default_world();
    let ray = Ray::new(Point::new(n(0), n(0), n(-5)), Vector::new(n(0), n(0), n(1)));
    let object = world.get_objects()[0].duplicate();
    let intersections = find_intersections(&ray, &object).unwrap();
    let hit = find_hit(intersections).unwrap();
    let comp_res = hit.prepare_computations().unwrap();
    let expected_color = Color::new(
        nr(3806612, 10000000),
        nr(4758265, 10000000),
        nr(285496, 1000000),
    );
    let actual_color = world.shade_hit(&comp_res).unwrap();

    assert_color_eq(expected_color, actual_color);
}

#[test]
fn shading_an_intersection_from_the_inside() {
    let mut world = create_default_world();
    world.set_light(PointLight {
        position: Point::new(n(0), nr(25, 100), n(0)),
        intensity: Color::new(n(1), n(1), n(1)),
    });
    let ray = Ray::new(Point::new(n(0), n(0), n(0)), Vector::new(n(0), n(0), n(1)));
    let object = world.get_objects()[1].duplicate();
    let intersections = find_intersections(&ray, &object).unwrap();
    let hit = find_hit(intersections).unwrap();
    let comp_res = hit.prepare_computations().unwrap();
    let expected_color = Color::new(
        nr(90498447, 100000000),
        nr(90498447, 100000000),
        nr(90498447, 100000000),
    );
    let actual_color = world.shade_hit(&comp_res).unwrap();

    assert_color_eq(expected_color, actual_color);
}

#[test]
fn the_color_when_a_ray_misses() {
    let world = create_default_world();
    let ray = Ray::new(Point::new(n(0), n(0), n(-5)), Vector::new(n(0), n(1), n(0)));
    let expected_color = Color::new(n(0), n(0), n(0));
    let actual_color = world.color_at_ray_hit(&ray).unwrap();

    assert_color_eq(expected_color, actual_color);
}

#[test]
fn the_color_when_a_ray_hits() {
    let world = create_default_world();
    let ray = Ray::new(Point::new(n(0), n(0), n(-5)), Vector::new(n(0), n(0), n(1)));
    let expected_color = Color::new(
        nr(38066119, 100000000),
        nr(4758265, 10000000),
        nr(285496, 1000000),
    );
    let actual_color = world.color_at_ray_hit(&ray).unwrap();

    assert_color_eq(expected_color, actual_color);
}

#[test]
fn the_color_with_an_intersection_behind() {
    let mut world = create_default_world();

    let outer_color = world.get_objects()[0].material().color;
    let outer_mat = MaterialBuilder::new()
        .color(outer_color)
        .ambient(n(1))
        .diffuse(n(0))
        .specular(n(0))
        .shininess(n(0))
        .build();
    world.objects[0].change_material(outer_mat);

    let inner_color = world.get_objects()[1].material().color;
    let inner_mat = MaterialBuilder::new()
        .color(inner_color)
        .ambient(n(1))
        .diffuse(n(0))
        .specular(n(0))
        .shininess(n(0))
        .build();
    world.objects[1].change_material(inner_mat);

    let ray = Ray::new(Point::new(n(0), n(0), nr(75, 100)), Vector::new(n(0), n(0), n(-1)));

    let actual_color = world.color_at_ray_hit(&ray).unwrap();
    let expected_color = inner_color;

    assert_color_eq(expected_color, actual_color);
}

#[test]
fn no_shadow_when_nothing_collinear_with_point_and_light() {
    let world = create_default_world();
    let point = Point::new(n(0), n(10), n(0));
    assert!(!world.is_shadowed(point).unwrap());
}

#[test]
fn shadow_when_object_between_point_and_light() {
    let world = create_default_world();
    let point = Point::new(n(10), n(-10), n(10));
    assert!(world.is_shadowed(point).unwrap());
}

#[test]
fn no_shadow_when_object_behind_light() {
    let world = create_default_world();
    let point = Point::new(n(-20), n(-20), n(20));
    assert!(!world.is_shadowed(point).unwrap());
}

#[test]
fn no_shadow_when_object_behind_point() {
    let world = create_default_world();
    let point = Point::new(n(-2), n(2), n(-2));
    assert!(!world.is_shadowed(point).unwrap());
}

#[test]
fn shade_hit_is_given_an_intersection_in_shadow() {
    let mut world = create_default_world();

    world.set_light(PointLight {
        intensity: Color::new(n(1), n(1), n(1)),
        position: Point::new(n(0), n(0), n(-10)),
    });

    let sphere1 = Object3D::Sphere(Sphere::new_unit());
    world.add_object(sphere1);

    let mut sphere2 = Sphere::new_unit();
    sphere2.change_transformation(translation(n(0), n(0), n(10))).unwrap();
    let sphere2 = Object3D::Sphere(sphere2);
    world.add_object(sphere2.duplicate());

    let ray = Ray::new(Point::new(n(0), n(0), n(5)), Vector::new(n(0), n(0), n(1)));

    let hit = find_hit(find_intersections(&ray, &sphere2).unwrap()).unwrap();
    let actual_color = world.shade_hit(&hit.prepare_computations().unwrap()).unwrap();
    let expected_color = Color::new(nr(1, 10), nr(1, 10), nr(1, 10));

    assert_color_eq(expected_color, actual_color);
}

#[test]
fn the_test_should_offset_the_point() {
    let ray = Ray::new(Point::new(n(0), n(0), n(-5)), Vector::new(n(0), n(0), n(1)));

    let mut sphere = Sphere::new_unit();
    sphere.change_transformation(translation(n(0), n(0), n(1))).unwrap();
    let sphere = Object3D::Sphere(sphere);

    let hit = find_hit(find_intersections(&ray, &sphere).unwrap()).unwrap();
    let comp_res = hit.prepare_computations().unwrap();

    assert!(comp_res.point.z().gt(comp_res.over_point.z()));
}
