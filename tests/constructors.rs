use vector2d::transform::Vec2;
use vector2d::transform::Vector2 as V2;

#[test]
fn construction_equivalencies() {
    assert_eq!(V2::new(3, 8), V2 { x: 3, y: 8 });
    assert_eq!(V2::from(7), V2 { x: 7, y: 7 });
    assert_eq!(V2::default(), V2 { x: 0, y: 0 });
}

#[test]
fn new_stores_components() {
    let v: Vec2<i16, u64> = Vec2::new(-3, 40);
    assert_eq!(v.x, -3);
    assert_eq!(v.y, 40);
}

#[test]
fn iso_is_new_with_equal_axes() {
    assert_eq!(Vec2::<i64>::iso(-12), Vec2::new(-12, -12));
}

#[test]
fn default_is_zero_and_renders() {
    let v: Vec2 = Vec2::default();
    assert_eq!(v, Vec2::new(0, 0));
    assert_eq!(v.to_string(), "0 0");
}

#[test]
fn clone_keeps_components() {
    let v: Vec2<u8, i8> = Vec2::new(200, -100);
    let w = v.clone();
    assert_eq!(w, Vec2::new(200, -100));
    let s: V2<String> = V2::from(String::from("ab"));
    assert_eq!(s.x, "ab");
    assert_eq!(s.y, "ab");
}
