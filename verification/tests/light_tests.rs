use umbralux::color::Color;
use umbralux::light::{lighting, PointLight};
use umbralux::material::{Material, MaterialBuilder};
use umbralux::number::Number;
use umbralux::objects::{Object3D, Sphere};
use umbralux::pattern::TwoColorPattern;
use umbralux::tuple::{Point, Vector};

fn n(i: i64) -> Number {
    Number::from_int(i)
}

fn nr(num: i64, den: i64) -> Number {
    Number::from_ratio(num, den)
}

fn tol() -> Number {
    Number::from_raw(10_000)
}

fn assert_color_eq(a: Color, b: Color) {
    assert!(a.red().within(b.red(), tol()), "red: {:?} vs {:?}", a, b);
    assert!(a.green().within(b.green(), tol()), "green: {:?} vs {:?}", a, b);
    assert!(a.blue().within(b.blue(), tol()), "blue: {:?} vs {:?}", a, b);
}

fn init() -> (Material, Object3D, Point) {
    let material = MaterialBuilder::new().build();
    let object = Object3D::Sphere(Sphere::new_unit());
    let position = Point::new(n(0), n(0), n(0));
    (material, object, position)
}

fn half_sqrt2() -> Number {
    Number::from_raw(707_106_781)
}

#[test]
fn lighting_with_camera_between_light_and_surface() {
    let (material, object, position) = init();
    let camera = Vector::new(n(0), n(0), n(-1));
    let surface = Vector::new(n(0), n(0), n(-1));
    let light = PointLight {
        position: Point::new(n(0), n(0), n(-10)),
        intensity: Color::new(n(1), n(1), n(1)),
    };
    let expected = Color::new(nr(19, 10), nr(19, 10), nr(19, 10));
    let actual = lighting(&material, &object, &light, &position, &camera, &surface, false)
        .unwrap();

    assert_color_eq(expected, actual);
}

#[test]
fn lighting_with_camera_between_light_and_surface_offset() {
    let (material, object, position) = init();
    let camera = Vector::new(n(0), half_sqrt2(), half_sqrt2().neg());
    let surface = Vector::new(n(0), n(0), n(-1));
    let light = PointLight {
        position: Point::new(n(0), n(0), n(-10)),
        intensity: Color::new(n(1), n(1), n(1)),
    };
    let expected = Color::new(n(1), n(1), n(1));
    let actual = lighting(&material, &object, &light, &position, &camera, &surface, false)
        .unwrap();

    assert_color_eq(expected, actual);
}

#[test]
fn lighting_with_camera_opposite_surface_light_offset_45() {
    let (material, object, position) = init();
    let camera = Vector::new(n(0), n(0), n(-1));
    let surface = Vector::new(n(0), n(0), n(-1));
    let light = PointLight {
        position: Point::new(n(0), n(10), n(-10)),
        intensity: Color::new(n(1), n(1), n(1)),
    };
    // ambient plus diffuse at a light angle of 45 degrees
    let intensity = nr(1, 10).add(nr(9, 10).mul(half_sqrt2()));
    let expected = Color::new(intensity, intensity, intensity);
    let actual = lighting(&material, &object, &light, &position, &camera, &surface, false)
        .unwrap();

    assert_color_eq(expected, actual);
}

#[test]
fn lighting_with_camera_in_path_of_reflection() {
    let (material, object, position) = init();
    let camera = Vector::new(n(0), half_sqrt2().neg(), half_sqrt2().neg());
    let surface = Vector::new(n(0), n(0), n(-1));
    let light = PointLight {
        position: Point::new(n(0), n(10), n(-10)),
        intensity: Color::new(n(1), n(1), n(1)),
    };
    let intensity = nr(1, 10).add(nr(9, 10).mul(half_sqrt2())).add(nr(9, 10));
    let expected = Color::new(intensity, intensity, intensity);
    let actual = lighting(&material, &object, &light, &position, &camera, &surface, false)
        .unwrap();

    assert_color_eq(expected, actual);
}

#[test]
fn lighting_with_light_behind_surface() {
    let (material, object, position) = init();
    let camera = Vector::new(n(0), n(0), n(-1));
    let surface = Vector::new(n(0), n(0), n(-1));
    let light = PointLight {
        position: Point::new(n(0), n(0), n(10)),
        intensity: Color::new(n(1), n(1), n(1)),
    };
    let intensity = nr(1, 10);
    let expected = Color::new(intensity, intensity, intensity);
    let actual = lighting(&material, &object, &light, &position, &camera, &surface, false)
        .unwrap();

    assert_color_eq(expected, actual);
}

#[test]
fn lighting_with_the_surface_in_shadow() {
    let (material, object, position) = init();
    let camera = Vector::new(n(0), n(0), n(-1));
    let surface = Vector::new(n(0), n(0), n(-1));
    let light = PointLight {
        position: Point::new(n(0), n(0), n(-10)),
        intensity: Color::new(n(1), n(1), n(1)),
    };
    let intensity = nr(1, 10);
    let expected = Color::new(intensity, intensity, intensity);
    let actual = lighting(&material, &object, &light, &position, &camera, &surface, true)
        .unwrap();

    assert_color_eq(expected, actual);
}

#[test]
fn lighting_with_a_pattern_applied() {
    let pattern = TwoColorPattern::new_stripes(
        Color::new(n(1), n(1), n(1)),
        Color::new(n(0), n(0), n(0)),
    );
    let material = MaterialBuilder::new()
        .pattern(pattern.as_pattern())
        .ambient(n(1))
        .diffuse(n(0))
        .specular(n(0))
        .build();
    let object = Object3D::Sphere(Sphere::new_unit());

    let eyev = Vector::new(n(0), n(0), n(-1));
    let normalv = Vector::new(n(0), n(0), n(-1));
    let light = PointLight {
        position: Point::new(n(0), n(0), n(-10)),
        intensity: Color::new(n(1), n(1), n(1)),
    };
    let pt1 = Point::new(nr(9, 10), n(0), n(0));
    let pt2 = Point::new(nr(11, 10), n(0), n(0));
    let expected1 = Color::new(n(1), n(1), n(1));
    let expected2 = Color::new(n(0), n(0), n(0));

    assert_color_eq(
        expected1,
        lighting(&material, &object, &light, &pt1, &eyev, &normalv, false).unwrap(),
    );
    assert_color_eq(
        expected2,
        lighting(&material, &object, &light, &pt2, &eyev, &normalv, false).unwrap(),
    );
}
