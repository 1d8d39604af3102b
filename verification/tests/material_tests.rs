use umbralux::color::Color;
use umbralux::material::MaterialBuilder;
use umbralux::number::Number;

fn n(i: i64) -> Number {
    Number::from_int(i)
}

fn nr(num: i64, den: i64) -> Number {
    Number::from_ratio(num, den)
}

fn tol() -> Number {
    Number::from_raw(10_000)
}

fn assert_num_eq(a: Number, b: Number) {
    assert!(a.within(b, tol()), "{:?} vs {:?}", a, b);
}

fn assert_color_eq(a: Color, b: Color) {
    assert!(a.red().within(b.red(), tol()));
    assert!(a.green().within(b.green(), tol()));
    assert!(a.blue().within(b.blue(), tol()));
}

#[test]
fn default_material() {
    let builder = MaterialBuilder::new();
    let material = builder.build();

    assert_color_eq(material.color, Color::new(n(1), n(1), n(1)));
    assert_num_eq(material.ambient, nr(1, 10));
    assert_num_eq(material.diffuse, nr(9, 10));
    assert_num_eq(material.specular, nr(9, 10));
    assert_num_eq(material.shininess, n(200));
}

#[test]
fn modfied_material() {
    let material = MaterialBuilder::new()
        .color(Color::new(n(2), n(2), n(2)))
        .ambient(nr(2, 10))
        .diffuse(n(1))
        .specular(nr(12, 10))
        .shininess(n(400))
        .build();

    assert_color_eq(material.color, Color::new(n(2), n(2), n(2)));
    assert_num_eq(material.ambient, nr(2, 10));
    assert_num_eq(material.diffuse, n(1));
    assert_num_eq(material.specular, nr(12, 10));
    assert_num_eq(material.shininess, n(400));
}
