use vector2d::transform::Vec2;
use vector2d::transform::Vector2;

#[test]
fn subtract_iso() {
    let r = Vec2::<i32>::new(4, 8) - Vec2::<i32>::iso(3);
    assert_eq!(r, Vec2::new(1, 5));
    assert_eq!(r.to_string(), "1 5");
}

#[test]
fn subtract_then_add_scalar() {
    let r = (Vec2::<i32>::new(4, 8) - Vec2::<i32>::iso(3)) + 5;
    assert_eq!(r, Vec2::new(6, 10));
    assert_eq!(r.to_string(), "6 10");
}

#[test]
fn negation() {
    assert_eq!(-Vec2::<i32>::new(2, -7), Vec2::new(-2, 7));
}

#[test]
fn remainder() {
    assert_eq!(Vec2::<i32>::new(10, 3) % Vec2::new(3, 2), Vec2::new(1, 1));
}

#[test]
fn product_and_quotient() {
    assert_eq!(Vec2::<i32>::new(3, -4) * Vec2::new(5, 6), Vec2::new(15, -24));
    assert_eq!(Vec2::<i32>::new(17, -9) / Vec2::new(5, 2), Vec2::new(3, -4));
    assert_eq!(Vec2::<u8>::new(7, 9) * 3, Vec2::new(21, 27));
    assert_eq!(Vec2::<i64>::new(20, 7) / 2, Vec2::new(10, 3));
    assert_eq!(Vec2::<i64>::new(20, 7) % 4, Vec2::new(0, 3));
    assert_eq!(Vec2::<i32>::new(20, 7) - 8, Vec2::new(12, -1));
}

#[test]
fn mixed_axis_types() {
    let r = Vec2::<u8, i64>::new(250, -9) + Vec2::new(5, 10);
    assert_eq!(r, Vec2::new(255u8, 1i64));
}

#[test]
fn compound_assignment() {
    let mut v = Vec2::<i32>::new(1, 2);
    v += Vec2::new(10, 20);
    assert_eq!(v, Vec2::new(11, 22));
    v -= Vec2::new(1, 2);
    assert_eq!(v, Vec2::new(10, 20));
    v *= Vec2::new(3, -1);
    assert_eq!(v, Vec2::new(30, -20));
    v /= Vec2::new(7, 3);
    assert_eq!(v, Vec2::new(4, -6));
    v %= Vec2::new(3, 4);
    assert_eq!(v, Vec2::new(1, -2));
    v += 5;
    assert_eq!(v, Vec2::new(6, 3));
    v -= 1;
    assert_eq!(v, Vec2::new(5, 2));
    v *= 4;
    assert_eq!(v, Vec2::new(20, 8));
    v /= 3;
    assert_eq!(v, Vec2::new(6, 2));
    v %= 4;
    assert_eq!(v, Vec2::new(2, 2));
}

#[test]
fn vector2_operators() {
    let a = Vector2::<i32>::new(4, 8);
    let b = Vector2::<i32>::from(3);
    assert_eq!(a - b, Vector2::new(1, 5));
    assert_eq!((a - b) + 5, Vector2::new(6, 10));
    assert_eq!(-Vector2::<i32>::new(2, -7), Vector2::new(-2, 7));
    assert_eq!(Vector2::<i32>::new(10, 3) % Vector2::new(3, 2), Vector2::new(1, 1));
    let mut c = a;
    c *= 2;
    assert_eq!(c, Vector2::new(8, 16));
    assert_eq!(c.to_string(), "8 16");
}

#[test]
fn add_laws_on_values() {
    let a = Vec2::<i32>::new(3, -8);
    let b = Vec2::<i32>::new(-11, 40);
    let c = Vec2::<i32>::new(7, 7);
    assert_eq!(a + b, b + a);
    assert_eq!((a + b) + c, a + (b + c));
    assert_eq!(a + Vec2::default(), a);
    assert_eq!(a + (-a), Vec2::default());
    assert_eq!(a + 9, a + Vec2::iso(9));
    assert!(a == a);
}
