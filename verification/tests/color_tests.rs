use umbralux::color::Color;
use umbralux::number::{is_number_equal, Number};

fn n(i: i64) -> Number {
    Number::from_int(i)
}

fn nr(num: i64, den: i64) -> Number {
    Number::from_ratio(num, den)
}

#[test]
fn test_new() {
    let c = Color::new(n(1), n(2), n(3));
    assert!(is_number_equal(c.red(), n(1)));
    assert!(is_number_equal(c.green(), n(2)));
    assert!(is_number_equal(c.blue(), n(3)));
}

#[test]
fn test_add() {
    let c1 = Color::new(nr(9, 10), nr(6, 10), nr(75, 100));
    let c2 = Color::new(nr(7, 10), nr(1, 10), nr(25, 100));
    let c3 = c1.add(c2);
    assert_eq!(c3, Color::new(nr(16, 10), nr(7, 10), n(1)));
}

#[test]
fn test_subtract() {
    let c1 = Color::new(nr(9, 10), nr(6, 10), nr(75, 100));
    let c2 = Color::new(nr(7, 10), nr(1, 10), nr(25, 100));
    let c3 = c1.sub(c2);
    assert_eq!(c3, Color::new(nr(2, 10), nr(5, 10), nr(5, 10)));
}

#[test]
fn test_multiply() {
    let c1 = Color::new(nr(9, 10), nr(6, 10), nr(75, 100));
    let c2 = Color::new(nr(7, 10), nr(1, 10), nr(25, 100));
    let c3 = c1.mul(c2);
    assert_eq!(c3, Color::new(nr(63, 100), nr(6, 100), nr(1875, 10000)));
}

#[test]
fn test_scalar_multiply() {
    let c = Color::new(nr(9, 10), nr(6, 10), nr(75, 100));
    let c2 = c.scale(n(2));
    assert_eq!(c2, Color::new(nr(18, 10), nr(12, 10), nr(15, 10)));
}
